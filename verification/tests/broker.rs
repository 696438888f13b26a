use capsicum::common::{EBUSY, EEXIST, EINVAL, ENOENT, ENOTCAPABLE};
use capsicum::{
    check_reply, transact, CapErr, NvError, NvFlag, NvList, NvValue, ReplyError, Service,
    ServiceDispatcher, ServiceRegisterFlags, ServiceRegistry, UidService,
};

// Envelope basics: insertion, lookup, and the unique-keys rule.
#[test]
fn nvlist_basics() {
    let mut nvl = NvList::new(NvFlag::Unique);
    assert!(nvl.is_empty());
    assert_eq!(nvl.len(), 0);

    nvl.insert_number("answer", 42).unwrap();
    nvl.insert_string("cmd", "getuid").unwrap();
    assert_eq!(nvl.len(), 2);
    assert!(nvl.contains_key("answer"));
    assert!(!nvl.contains_key("missing"));
    assert_eq!(nvl.get_number("answer"), Some(42));
    assert_eq!(nvl.get_number("cmd"), None);
    assert_eq!(nvl.get_string("cmd").unwrap(), "getuid");
    assert_eq!(nvl.get_number("missing"), None);

    // A duplicate key is a construction error.
    assert_eq!(nvl.insert_number("answer", 43), Err(NvError::Exists));
    assert_eq!(nvl.get_number("answer"), Some(42));
}

// An envelope created to allow duplicates accepts them, and lookups keep
// answering from the earliest entry.
#[test]
fn nvlist_no_unique() {
    let mut nvl = NvList::new(NvFlag::NoUnique);
    nvl.insert_number("k", 1).unwrap();
    nvl.insert_number("k", 2).unwrap();
    assert_eq!(nvl.len(), 2);
    assert_eq!(nvl.get_number("k"), Some(1));
}

// The framing layer's replace-or-insert owns a reserved key.
#[test]
fn nvlist_set_number() {
    let mut nvl = NvList::new(NvFlag::Unique);
    nvl.insert_number("error", 99).unwrap();
    nvl.insert_number("uid", 7).unwrap();
    nvl.set_number("error", 0);
    assert_eq!(nvl.get_number("error"), Some(0));
    assert_eq!(nvl.get_number("uid"), Some(7));
    assert_eq!(nvl.len(), 2);

    let mut fresh = NvList::new(NvFlag::Unique);
    fresh.set_number("error", 5);
    assert_eq!(fresh.get_number("error"), Some(5));
}

// Other value kinds are carried whole.
#[test]
fn nvlist_value_kinds() {
    let mut nvl = NvList::new(NvFlag::Unique);
    nvl.insert("blob", NvValue::Binary(vec![1, 2, 3])).unwrap();
    nvl.insert("fd", NvValue::Descriptor(4)).unwrap();
    let mut inner = NvList::new(NvFlag::Unique);
    inner.insert_number("x", 1).unwrap();
    nvl.insert("inner", NvValue::Nested(Box::new(inner))).unwrap();
    assert!(nvl.contains_key("blob"));
    assert!(nvl.contains_key("fd"));
    match nvl.get("inner") {
        Some(NvValue::Nested(l)) => assert_eq!(l.get_number("x"), Some(1)),
        _ => panic!("nested envelope lost"),
    }
    // These keys hold no number or text.
    assert_eq!(nvl.get_number("blob"), None);
    assert_eq!(nvl.get_string("fd"), None);
}

// A request for a registered command comes back with a zero error and the
// answer; an unknown command comes back with a non-zero error.
#[test]
fn broker_round_trip() {
    let d = ServiceDispatcher::new(UidService::new(1234));

    let mut request = NvList::new(NvFlag::Unique);
    request.insert_string("cmd", "getuid").unwrap();
    let reply = d.dispatch(&request);
    assert_eq!(reply.get_number("error"), Some(0));
    assert_eq!(reply.get_number("uid"), Some(1234));

    let answer = transact(&d, &request).unwrap();
    assert_eq!(answer.get_number("uid"), Some(1234));

    let mut unknown = NvList::new(NvFlag::Unique);
    unknown.insert_string("cmd", "getgid").unwrap();
    let reply = d.dispatch(&unknown);
    assert!(reply.get_number("error").unwrap() != 0);
    assert_eq!(transact(&d, &unknown).unwrap_err(), ReplyError::Os(EINVAL));
}

// A request without a command is refused by the framing layer itself.
#[test]
fn broker_missing_command() {
    let d = ServiceDispatcher::new(UidService::new(1));
    let request = NvList::new(NvFlag::Unique);
    let reply = d.dispatch(&request);
    assert_eq!(reply.get_number("error"), Some(EINVAL as u64));
}

// After a limit is set, a command the service defines as disallowed under
// it fails with a capability violation, deterministically across repeats.
#[test]
fn limit_negotiation() {
    let mut d = ServiceDispatcher::new(UidService::new(99));
    assert!(d.get_limit().is_none());

    let mut request = NvList::new(NvFlag::Unique);
    request.insert_string("cmd", "getuid").unwrap();
    assert!(transact(&d, &request).is_ok());

    let limits = NvList::new(NvFlag::Unique);
    d.set_limit(limits).unwrap();
    assert!(d.get_limit().is_some());

    assert_eq!(transact(&d, &request).unwrap_err(), ReplyError::Os(ENOTCAPABLE));
    assert_eq!(transact(&d, &request).unwrap_err(), ReplyError::Os(ENOTCAPABLE));
    let reply = d.dispatch(&request);
    assert_eq!(reply.get_number("error"), Some(ENOTCAPABLE as u64));
}

// A reply without the reserved error key is a protocol violation.
#[test]
fn reply_protocol_violation() {
    let empty = NvList::new(NvFlag::Unique);
    assert_eq!(check_reply(empty).unwrap_err(), ReplyError::Protocol);

    let mut ok = NvList::new(NvFlag::Unique);
    ok.insert_number("error", 0).unwrap();
    assert!(check_reply(ok).is_ok());

    let mut failed = NvList::new(NvFlag::Unique);
    failed.insert_number("error", 42).unwrap();
    assert_eq!(check_reply(failed).unwrap_err(), ReplyError::Os(42));
}

// Registration happens once per name, before the fork, and never in the
// reserved namespace; opening needs a running broker and a known name.
#[test]
fn service_registration() {
    let mut reg = ServiceRegistry::new();
    reg.register("getuid", ServiceRegisterFlags::none()).unwrap();
    assert!(reg.is_registered("getuid"));
    assert!(!reg.is_registered("getgid"));

    assert_eq!(
        reg.register("getuid", ServiceRegisterFlags::none()),
        Err(CapErr::Generic(EEXIST))
    );
    assert_eq!(
        reg.register("system.dns", ServiceRegisterFlags::none()),
        Err(CapErr::Generic(EINVAL))
    );

    // Not forked yet: no service can be opened.
    assert_eq!(reg.service_open("getuid"), Err(CapErr::Generic(EBUSY)));

    reg.seal();
    assert_eq!(
        reg.register("late", ServiceRegisterFlags::stdio()),
        Err(CapErr::Generic(EBUSY))
    );
    assert_eq!(reg.service_open("getuid"), Ok(()));
    assert_eq!(reg.service_open("getgid"), Err(CapErr::Generic(ENOENT)));
}

// The service's name accessor and the register flags.
#[test]
fn service_metadata() {
    let svc = UidService::new(0);
    assert_eq!(svc.name(), "getuid");
    assert_eq!(ServiceRegisterFlags::none().bits(), 0);
    assert_eq!(ServiceRegisterFlags::stdio().bits(), 1);
    assert_eq!(ServiceRegisterFlags::fd().bits(), 2);
    assert_eq!(ServiceRegisterFlags::no_uniq_limits().bits(), 4);
}
