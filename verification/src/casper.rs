//! The broker protocol: service registration before the helper process
//! forks, per-request command dispatch against a privately held limit, and
//! the reserved-key framing every reply carries back to the client.
//!
//! The broker is an unsandboxed helper process.  The sandboxed side sends
//! it request envelopes over a channel; the broker looks up the service's
//! recorded limit, runs the service's command handler, writes the reserved
//! `"error"` key into the reply (zero for success, an OS error number
//! otherwise), and sends the reply back.  The client turns the reserved key
//! back into a result.  A reply without the key is a protocol violation and
//! is fatal on the client side, never retried.

use vstd::prelude::*;

verus! {

use crate::common::{CapErr, CapResult, EBUSY, EEXIST, EINVAL, ENOENT, ENOTCAPABLE};
use crate::nvlist::{NvFlag, NvList};
use vstd::string::StringExecFns;
use vstd::string::StrSliceExecFns;

/// Flags a service is registered with.
#[derive(Clone, Copy, Debug, PartialEq, Eq, Structural)]
pub struct ServiceRegisterFlags {
    bits: u64,
}

impl ServiceRegisterFlags {
    /// The registered flag bits.
    pub closed spec fn spec_bits(self) -> u64 {
        self.bits
    }

    /// No flags.
    pub fn none() -> (f: ServiceRegisterFlags)
        ensures
            f.spec_bits() == 0,
    {
        ServiceRegisterFlags { bits: 0 }
    }

    /// The service keeps access to the standard I/O descriptors of the
    /// process it was spawned from.
    pub fn stdio() -> (f: ServiceRegisterFlags)
        ensures
            f.spec_bits() == 1,
    {
        ServiceRegisterFlags { bits: 1 }
    }

    /// The service keeps access to all other descriptors of the process it
    /// was spawned from.
    pub fn fd() -> (f: ServiceRegisterFlags)
        ensures
            f.spec_bits() == 2,
    {
        ServiceRegisterFlags { bits: 2 }
    }

    /// The whole conversation uses duplicate-accepting envelopes.
    pub fn no_uniq_limits() -> (f: ServiceRegisterFlags)
        ensures
            f.spec_bits() == 4,
    {
        ServiceRegisterFlags { bits: 4 }
    }

    /// The registered flag bits.
    pub fn bits(&self) -> (r: u64)
        ensures
            r == self.spec_bits(),
    {
        self.bits
    }
}

/// Whether a service name falls in the reserved namespace: names beginning
/// with `system.` belong to the broker's own services.
pub open spec fn spec_reserved_name(s: Seq<char>) -> bool {
    s.len() >= 7 && s[0] == 's' && s[1] == 'y' && s[2] == 's' && s[3] == 't' && s[4] == 'e' && s[5]
        == 'm' && s[6] == '.'
}

/// Whether a service name falls in the reserved `system.` namespace.
pub fn reserved_name(name: &str) -> (r: bool)
    ensures
        r == spec_reserved_name(name@),
{
    let n = name.unicode_len();
    if n < 7 {
        return false;
    }
    name.get_char(0) == 's' && name.get_char(1) == 'y' && name.get_char(2) == 's' && name.get_char(
        3,
    ) == 't' && name.get_char(4) == 'e' && name.get_char(5) == 'm' && name.get_char(6) == '.'
}

/// The broker-side record of which service names were registered, and
/// whether the broker has already forked.  Registration happens once per
/// name, before the fork, and is irrevocable for the broker's lifetime.
pub struct ServiceRegistry {
    names: Vec<String>,
    flags: Vec<u64>,
    forked: bool,
}

impl ServiceRegistry {
    /// The registered names, in registration order.
    pub closed spec fn spec_names(self) -> Seq<Seq<char>> {
        self.names@.map_values(|s: String| s@)
    }

    /// Whether the broker has forked.
    pub closed spec fn spec_forked(self) -> bool {
        self.forked
    }

    /// An empty registry in the not-yet-forked broker.
    pub fn new() -> (reg: ServiceRegistry)
        ensures
            reg.spec_names() == Seq::<Seq<char>>::empty(),
            !reg.spec_forked(),
    {
        let reg = ServiceRegistry { names: Vec::new(), flags: Vec::new(), forked: false };
        proof {
            assert(reg.spec_names() =~= Seq::<Seq<char>>::empty());
        }
        reg
    }

    /// Whether `name` is registered.
    pub fn is_registered(&self, name: &str) -> (r: bool)
        ensures
            r == self.spec_names().contains(name@),
    {
        let owned = name.to_owned();
        let n = self.names.len();
        let mut i: usize = 0;
        while i < n
            invariant
                n == self.names@.len(),
                i <= n,
                owned@ == name@,
                forall|j: int| 0 <= j < i ==> self.names@[j]@ != name@,
            decreases n - i,
        {
            if self.names[i] == owned {
                proof {
                    assert(self.spec_names()[i as int] == name@);
                }
                return true;
            }
            i = i + 1;
        }
        proof {
            assert forall|j: int| 0 <= j < self.spec_names().len() implies self.spec_names()[j]
                != name@ by {
                assert(self.spec_names()[j] == self.names@[j]@);
            }
        }
        false
    }

    /// Register a service name, before the fork.  Refused once the broker
    /// has forked, for a name in the reserved `system.` namespace, and for
    /// a name already registered.
    pub fn register(&mut self, name: &str, flags: ServiceRegisterFlags) -> (r: CapResult<()>)
        ensures
            r is Ok <==> (!old(self).spec_forked() && !spec_reserved_name(name@) && !old(
                self,
            ).spec_names().contains(name@)),
            r is Ok ==> final(self).spec_names() == old(self).spec_names().push(name@),
            r is Err ==> final(self).spec_names() == old(self).spec_names(),
            final(self).spec_forked() == old(self).spec_forked(),
            r is Err ==> (old(self).spec_forked() && r == Err::<(), CapErr>(
                CapErr::Generic(EBUSY),
            )) || (!old(self).spec_forked() && spec_reserved_name(name@) && r == Err::<(), CapErr>(
                CapErr::Generic(EINVAL),
            )) || (!old(self).spec_forked() && !spec_reserved_name(name@) && old(
                self,
            ).spec_names().contains(name@) && r == Err::<(), CapErr>(CapErr::Generic(EEXIST))),
    {
        if self.forked {
            return Err(CapErr::Generic(EBUSY));
        }
        if reserved_name(name) {
            return Err(CapErr::Generic(EINVAL));
        }
        if self.is_registered(name) {
            return Err(CapErr::Generic(EEXIST));
        }
        self.names.push(name.to_owned());
        self.flags.push(flags.bits());
        proof {
            assert(final(self).spec_names() =~= old(self).spec_names().push(name@));
        }
        Ok(())
    }

    /// Record that the broker has forked: no service can be registered
    /// from here on.
    pub fn seal(&mut self)
        ensures
            final(self).spec_forked(),
            final(self).spec_names() == old(self).spec_names(),
    {
        self.forked = true;
    }

    /// Whether opening a channel to the named service can succeed: the
    /// broker must be running (forked) and the name registered.
    pub fn service_open(&self, name: &str) -> (r: CapResult<()>)
        ensures
            r is Ok <==> (self.spec_forked() && self.spec_names().contains(name@)),
            r is Err ==> (!self.spec_forked() && r == Err::<(), CapErr>(CapErr::Generic(EBUSY))) || (
            self.spec_forked() && !self.spec_names().contains(name@) && r == Err::<(), CapErr>(
                CapErr::Generic(ENOENT),
            )),
    {
        if !self.forked {
            return Err(CapErr::Generic(EBUSY));
        }
        if self.is_registered(name) {
            Ok(())
        } else {
            Err(CapErr::Generic(ENOENT))
        }
    }
}

/// The value `o` points at, as a spec value.
pub open spec fn deref_opt<T>(o: Option<&T>) -> Option<T> {
    match o {
        Some(t) => Some(*t),
        None => None,
    }
}

/// A broker service: a named command vocabulary with a service-defined
/// limit discipline.  The service runs in the helper process; the spec
/// functions say which commands it handles, which it still allows under a
/// recorded limit, and which limit changes it accepts.
pub trait Service: Sized {
    /// The service's registration name.
    spec fn spec_name(&self) -> Seq<char>;

    /// Whether the service handles this command at all.
    spec fn handles(&self, cmd: Seq<char>) -> bool;

    /// Whether the service still performs this command under the recorded
    /// limit.  Enforcing "limits only narrow" for the service's own
    /// vocabulary lives here, not in the framework.
    spec fn allowed(&self, limit: Option<NvList>, cmd: Seq<char>) -> bool;

    /// Whether the service accepts this limit change.
    spec fn limit_ok(&self, old_limit: Option<NvList>, new_limit: NvList) -> bool;

    /// What the service promises about the reply payload of a command it
    /// performed.
    spec fn output_ok(&self, cmd: Seq<char>, out: NvList) -> bool;

    /// The output promise reads only keys other than the reserved
    /// `"error"` key, which the framing layer owns and overwrites.
    proof fn output_ok_frame(&self, cmd: Seq<char>, a: NvList, b: NvList)
        requires
            self.output_ok(cmd, a),
            forall|k: Seq<char>| k != "error"@ ==> b.spec_lookup(k) == a.spec_lookup(k),
        ensures
            self.output_ok(cmd, b),
    ;

    /// The service's registration name.
    fn name(&self) -> (n: String)
        ensures
            n@ == self.spec_name(),
    ;

    /// Handle one command: populate `nvout` with the answer and return
    /// either success or a non-zero OS error number.  A handled command
    /// blocked by the recorded limit reports a capability violation.
    fn cmd(&self, cmd: &String, limits: Option<&NvList>, nvin: &NvList, nvout: &mut NvList) -> (r:
        Result<(), i32>)
        ensures
            r is Ok <==> (self.handles(cmd@) && self.allowed(deref_opt(limits), cmd@)),
            r is Ok ==> self.output_ok(cmd@, *final(nvout)),
            (r matches Err(e) ==> e > 0),
            self.handles(cmd@) && !self.allowed(deref_opt(limits), cmd@) ==> r == Err::<(), i32>(
                ENOTCAPABLE,
            ),
    ;

    /// Accept or reject a limit change.
    fn limit(&self, oldlimits: Option<&NvList>, newlimits: &NvList) -> (r: Result<(), i32>)
        ensures
            r is Ok <==> self.limit_ok(deref_opt(oldlimits), *newlimits),
            (r matches Err(e) ==> e > 0),
    ;
}

/// The error a client reads out of a reply envelope.
#[derive(Clone, Copy, Debug, PartialEq, Eq, Structural)]
pub enum ReplyError {
    /// The service reported this non-zero OS error number.
    Os(i32),
    /// The reply lacks the reserved `"error"` key: a protocol violation,
    /// fatal and not retried.
    Protocol,
}

/// The broker-side seat of one service: the service itself and the limit
/// the client has negotiated so far.  The broker is the sole mutator of the
/// recorded limit, and handles each service's requests sequentially.
pub struct ServiceDispatcher<S: Service> {
    service: S,
    limit: Option<NvList>,
}

impl<S: Service> ServiceDispatcher<S> {
    /// The service being dispatched.
    pub closed spec fn spec_service(self) -> S {
        self.service
    }

    /// The limit recorded so far, if any was ever set.
    pub closed spec fn spec_limit(self) -> Option<NvList> {
        self.limit
    }

    /// Seat a service with no recorded limit.
    pub fn new(service: S) -> (d: ServiceDispatcher<S>)
        ensures
            d.spec_service() == service,
            d.spec_limit() is None,
    {
        ServiceDispatcher { service, limit: None }
    }

    /// The recorded limit, if any.
    pub fn get_limit(&self) -> (r: Option<&NvList>)
        ensures
            deref_opt(r) == self.spec_limit(),
    {
        self.limit.as_ref()
    }

    /// Ask the service to narrow its limit.  On acceptance the new limit
    /// is recorded and governs every later command; on rejection the old
    /// limit stays.
    pub fn set_limit(&mut self, new_limit: NvList) -> (r: Result<(), i32>)
        ensures
            r is Ok <==> old(self).spec_service().limit_ok(old(self).spec_limit(), new_limit),
            r is Ok ==> final(self).spec_limit() == Some(new_limit),
            r is Err ==> final(self).spec_limit() == old(self).spec_limit(),
            (r matches Err(e) ==> e > 0),
            final(self).spec_service() == old(self).spec_service(),
    {
        let r = self.service.limit(self.limit.as_ref(), &new_limit);
        match r {
            Ok(()) => {
                self.limit = Some(new_limit);
                Ok(())
            },
            Err(e) => Err(e),
        }
    }

    /// Serve one request envelope and build the reply: extract the command
    /// name, run the handler against the recorded limit, and write the
    /// reserved `"error"` key — zero exactly when the handler succeeded,
    /// `EINVAL` for a request without a command, the handler's own error
    /// number otherwise, and in particular `ENOTCAPABLE` for a handled
    /// command blocked by the recorded limit.  A performed command's reply
    /// carries the payload the service promises.
    pub fn dispatch(&self, request: &NvList) -> (reply: NvList)
        ensures
            request.spec_get_text("cmd"@) is None ==> reply.spec_get_number("error"@) == Some(
                EINVAL as u64,
            ),
            (request.spec_get_text("cmd"@) matches Some(c) ==> {
                &&& (self.spec_service().handles(c) && self.spec_service().allowed(
                    self.spec_limit(),
                    c,
                )) <==> reply.spec_get_number("error"@) == Some(0u64)
                &&& reply.spec_get_number("error"@) is Some
                &&& (self.spec_service().handles(c) && !self.spec_service().allowed(
                    self.spec_limit(),
                    c,
                )) ==> reply.spec_get_number("error"@) == Some(ENOTCAPABLE as u64)
                &&& (self.spec_service().handles(c) && self.spec_service().allowed(
                    self.spec_limit(),
                    c,
                )) ==> self.spec_service().output_ok(c, reply)
            }),
    {
        let mut reply = NvList::new(NvFlag::Unique);
        match request.get_string("cmd") {
            None => {
                reply.set_number("error", EINVAL as u64);
                reply
            },
            Some(cmd) => {
                let r = self.service.cmd(&cmd, self.limit.as_ref(), request, &mut reply);
                let ghost handled = reply;
                let code: u64 = match r {
                    Ok(()) => 0u64,
                    Err(e) => e as u64,
                };
                reply.set_number("error", code);
                proof {
                    if r is Ok {
                        self.service.output_ok_frame(cmd@, handled, reply);
                    }
                }
                reply
            },
        }
    }
}

/// A small concrete service: it answers the `getuid` command with a number
/// handed to it at construction, and refuses every command once any limit
/// has been recorded, so setting an empty limit is a plain off switch.
pub struct UidService {
    uid: u64,
}

impl UidService {
    /// The number the service answers with.
    pub closed spec fn spec_uid(self) -> u64 {
        self.uid
    }

    /// A service answering `getuid` with `uid`.
    pub fn new(uid: u64) -> (s: UidService)
        ensures
            s.spec_uid() == uid,
    {
        UidService { uid }
    }
}

impl Service for UidService {
    open spec fn spec_name(&self) -> Seq<char> {
        "getuid"@
    }

    open spec fn handles(&self, cmd: Seq<char>) -> bool {
        cmd == "getuid"@
    }

    open spec fn allowed(&self, limit: Option<NvList>, cmd: Seq<char>) -> bool {
        limit is None
    }

    open spec fn limit_ok(&self, old_limit: Option<NvList>, new_limit: NvList) -> bool {
        true
    }

    /// A performed command leaves the answer under the `"uid"` key.
    open spec fn output_ok(&self, cmd: Seq<char>, out: NvList) -> bool {
        out.spec_get_number("uid"@) == Some(self.spec_uid())
    }

    proof fn output_ok_frame(&self, cmd: Seq<char>, a: NvList, b: NvList) {
        reveal_strlit("uid");
        reveal_strlit("error");
        assert("uid"@.len() == 3);
        assert("error"@.len() == 5);
        assert(b.spec_lookup("uid"@) == a.spec_lookup("uid"@));
    }

    fn name(&self) -> (n: String) {
        String::from_str("getuid")
    }

    fn cmd(&self, cmd: &String, limits: Option<&NvList>, nvin: &NvList, nvout: &mut NvList) -> (r:
        Result<(), i32>) {
        if limits.is_some() {
            return Err(ENOTCAPABLE);
        }
        let expected = String::from_str("getuid");
        if *cmd == expected {
            nvout.set_number("uid", self.uid);
            Ok(())
        } else {
            Err(EINVAL)
        }
    }

    fn limit(&self, oldlimits: Option<&NvList>, newlimits: &NvList) -> (r: Result<(), i32>) {
        Ok(())
    }
}

/// Read a reply envelope the way the client does: a zero `"error"` key
/// passes the envelope through as the answer, a non-zero one is the
/// operation's OS error, and a missing or non-numeric one is a protocol
/// violation.
pub fn check_reply(reply: NvList) -> (r: Result<NvList, ReplyError>)
    ensures
        reply.spec_get_number("error"@) == Some(0u64) ==> r == Ok::<NvList, ReplyError>(reply),
        (reply.spec_get_number("error"@) matches Some(e) ==> (e != 0 ==> r == Err::<
            NvList,
            ReplyError,
        >(ReplyError::Os(e as i32)))),
        reply.spec_get_number("error"@) is None ==> r == Err::<NvList, ReplyError>(
            ReplyError::Protocol,
        ),
{
    match reply.get_number("error") {
        Some(e) => {
            if e == 0 {
                Ok(reply)
            } else {
                Err(ReplyError::Os(e as i32))
            }
        },
        None => Err(ReplyError::Protocol),
    }
}

/// One whole request/response round trip as the client observes it:
/// dispatch the request to the service's seat and read back the reply.
/// The result is the answer envelope exactly when the request names a
/// command the service handles and its recorded limit still allows.
pub fn transact<S: Service>(d: &ServiceDispatcher<S>, request: &NvList) -> (r: Result<
    NvList,
    ReplyError,
>)
    ensures
        r is Ok <==> (request.spec_get_text("cmd"@) matches Some(c) && d.spec_service().handles(c)
            && d.spec_service().allowed(d.spec_limit(), c)),
        (request.spec_get_text("cmd"@) matches Some(c) ==> ((d.spec_service().handles(c)
            && !d.spec_service().allowed(d.spec_limit(), c)) ==> r == Err::<NvList, ReplyError>(
            ReplyError::Os(ENOTCAPABLE),
        ))),
        (r matches Ok(answer) ==> (request.spec_get_text("cmd"@) matches Some(c)
            && d.spec_service().output_ok(c, answer))),
{
    let reply = d.dispatch(request);
    check_reply(reply)
}

} // verus!
