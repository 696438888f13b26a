use capsicum::common::{EINVAL, ENOSYS};
use capsicum::ioctl::{classify_ioctls_get, CAP_IOCTLS_ALL};
use capsicum::process::{enter, get_mode, sandboxed, ProcessMode};
use capsicum::util::nul_position;
use capsicum::{
    CapErr, CapErrType, CapRights, FcntlRights, FcntlsBuilder, FdCaps, Fcntl, FileRights,
    IoctlRights, IoctlsBuilder, Right, RightsBuilder,
};

// The rights-algebra walk of the original round-trip scenario: build, merge,
// allow, deny, query, limit, and read back bit for bit.
#[test]
fn rights_limit_round_trip() {
    let mut file = FdCaps::new();

    let mut rights = RightsBuilder::new(Right::Null).finalize().unwrap();
    let to_merge = RightsBuilder::new(Right::Write).finalize().unwrap();

    rights.merge(&to_merge).unwrap();
    rights.set(Right::Read).unwrap();
    rights.clear(Right::Write).unwrap();

    assert!(rights.is_set(Right::Read));
    assert!(!rights.is_set(Right::Write));
    assert!(!rights.contains(&to_merge));

    rights.limit(&mut file).unwrap();
    let from_file = FileRights::from_file(&file).unwrap();
    assert_eq!(rights, from_file);
}

// Narrowing is monotone: after A, any B inside A still applies and reads
// back exactly; any C outside A is refused and the descriptor is unchanged.
#[test]
fn monotonic_narrowing() {
    let mut file = FdCaps::new();

    let a = RightsBuilder::new(Right::Read)
        .allow(Right::Write)
        .finalize()
        .unwrap();
    a.limit(&mut file).unwrap();

    let b = RightsBuilder::new(Right::Read).finalize().unwrap();
    b.limit(&mut file).unwrap();
    assert_eq!(FileRights::from_file(&file).unwrap(), b);

    let c = RightsBuilder::new(Right::Write).finalize().unwrap();
    assert_eq!(c.limit(&mut file), Err(CapErr::Limit(EINVAL)));
    assert_eq!(FileRights::from_file(&file).unwrap(), b);
}

// Deny-all blocks everything: an empty rights set tests negative for every
// right, and once applied nothing non-empty can be re-applied.
#[test]
fn deny_all_blocks_everything() {
    let mut file = FdCaps::new();
    let nothing = FileRights::empty();
    nothing.limit(&mut file).unwrap();

    let queried = FileRights::from_file(&file).unwrap();
    assert!(!queried.is_set(Right::Read));
    assert!(!queried.is_set(Right::Write));
    assert!(!queried.is_set(Right::Lookup));
    assert!(!queried.is_set(Right::Ioctl));
    assert!(queried.is_set(Right::Null));

    let read = RightsBuilder::new(Right::Read).finalize().unwrap();
    assert_eq!(read.limit(&mut file), Err(CapErr::Limit(EINVAL)));
}

// An explicit empty ioctl limit reads back as a zero-entry list, which is a
// different state from the never-limited descriptor.
#[test]
fn ioctl_unlimited_vs_empty() {
    let mut file = FdCaps::new();
    assert!(matches!(
        IoctlRights::from_file(&file, 10).unwrap(),
        IoctlRights::Unlimited
    ));

    let empty = IoctlsBuilder::new().finalize();
    empty.limit(&mut file).unwrap();

    let queried = IoctlRights::from_file(&file, 10).unwrap();
    assert_eq!(queried, IoctlRights::Limited(Vec::new()));
    assert!(queried != IoctlRights::Unlimited);
}

// Ioctl limits also only narrow: commands outside the recorded list are
// refused, a subset is accepted.
#[test]
fn ioctl_narrowing() {
    let mut file = FdCaps::new();
    let two = IoctlsBuilder::new().allow(1).allow(2).finalize();
    two.limit(&mut file).unwrap();

    let other = IoctlsBuilder::new().allow(3).finalize();
    assert_eq!(other.limit(&mut file), Err(CapErr::Limit(EINVAL)));

    let one = IoctlsBuilder::new().allow(2).finalize();
    one.limit(&mut file).unwrap();
    assert_eq!(
        IoctlRights::from_file(&file, 10).unwrap(),
        IoctlRights::Limited(vec![2])
    );
}

// Fcntl limits only narrow as well.
#[test]
fn fcntl_narrowing() {
    let mut file = FdCaps::new();
    let getters = FcntlsBuilder::new()
        .allow(Fcntl::GetFL)
        .allow(Fcntl::GetOwn)
        .finalize();
    getters.limit(&mut file).unwrap();

    let setters = FcntlsBuilder::new().allow(Fcntl::SetFL).finalize();
    assert_eq!(setters.limit(&mut file), Err(CapErr::Limit(EINVAL)));

    let getfl = FcntlsBuilder::new().allow(Fcntl::GetFL).finalize();
    getfl.limit(&mut file).unwrap();
    assert_eq!(FcntlRights::from_file(&file).unwrap(), getfl);
}

// Allowing a composite right makes every implied right test as set, and the
// composite contains a set built purely from the implied primitives.
#[test]
fn implication_closure() {
    let seek = RightsBuilder::new(Right::Seek).finalize().unwrap();
    assert!(seek.is_set(Right::SeekTell));

    let pread = RightsBuilder::new(Right::Pread).finalize().unwrap();
    assert!(pread.is_set(Right::Read));
    assert!(pread.is_set(Right::Seek));
    assert!(pread.is_set(Right::SeekTell));

    let primitives = RightsBuilder::new(Right::Read)
        .allow(Right::Seek)
        .finalize()
        .unwrap();
    assert!(pread.contains(&primitives));

    let mmap_rwx = RightsBuilder::new(Right::MmapRWX).finalize().unwrap();
    assert!(mmap_rwx.is_set(Right::MmapR));
    assert!(mmap_rwx.is_set(Right::MmapW));
    assert!(mmap_rwx.is_set(Right::MmapX));
    assert!(mmap_rwx.is_set(Right::Mmap));
    assert!(mmap_rwx.is_set(Right::Seek));
}

// The builder grows a real two-word set, so rights of both words mix
// freely; the raw one-word constructor cannot express such a mix.
#[test]
fn builder_spans_both_words() {
    let mixed = RightsBuilder::new(Right::Read).allow(Right::MacGet).finalize().unwrap();
    assert!(mixed.is_set(Right::Read));
    assert!(mixed.is_set(Right::MacGet));
    assert!(mixed.is_valid());

    // The same set grown from an empty rights value, bit for bit.
    let mut grown = FileRights::empty();
    grown.allow(Right::Read);
    grown.allow(Right::MacGet);
    assert_eq!(mixed, grown);

    // Denying on one word leaves the other word alone.
    let narrowed = RightsBuilder::new(Right::Read)
        .allow(Right::MacGet)
        .deny(Right::Read)
        .finalize()
        .unwrap();
    assert!(!narrowed.is_set(Right::Read));
    assert!(narrowed.is_set(Right::MacGet));
}

// Raw one-word patterns that mix both flag words, or use unassigned bits,
// are structurally invalid and refused.
#[test]
fn invalid_raw_patterns() {
    assert_eq!(
        FileRights::new(Right::Read.value() | Right::MacGet.value()),
        Err(CapErr::Invalid(EINVAL))
    );

    // The zero word is the empty set.
    let nothing = FileRights::new(0).unwrap();
    assert_eq!(nothing, FileRights::empty());

    // A word-1 right alone is fine.
    let mac = FileRights::new(Right::MacGet.value()).unwrap();
    assert!(mac.is_set(Right::MacGet));
    assert!(!mac.is_set(Right::Read));
}

// The four highest assigned word-0 rights are valid, constructible, and a
// fresh descriptor narrows to them.
#[test]
fn high_word0_rights_are_assigned() {
    for right in [
        Right::Bindat,
        Right::Connectat,
        Right::LinkatSource,
        Right::RenameatTarget,
    ] {
        let rights = FileRights::new(right.value()).unwrap();
        assert!(rights.is_valid());
        assert!(rights.is_set(right));
        assert!(rights.is_set(Right::Lookup));

        let mut file = FdCaps::new();
        rights.limit(&mut file).unwrap();
        assert_eq!(FileRights::from_file(&file).unwrap(), rights);
    }
    let all = RightsBuilder::new(Right::Bindat)
        .allow(Right::Connectat)
        .allow(Right::LinkatSource)
        .allow(Right::RenameatTarget)
        .finalize()
        .unwrap();
    assert!(all.is_valid());
}

// The packed kernel form survives a round trip, and wrongly tagged words
// are rejected.
#[test]
fn cap_rights_t_round_trip() {
    let rights = RightsBuilder::new(Right::Read)
        .allow(Right::Lookup)
        .finalize()
        .unwrap();
    let packed = rights.as_cap_rights_t();
    assert_eq!(packed.cr_rights[0], 0x0200000000000401u64);
    assert_eq!(packed.cr_rights[1], 0x0400000000000000u64);
    assert_eq!(FileRights::from_cap_rights_t(&packed).unwrap(), rights);

    let bad = capsicum::cap_rights_t { cr_rights: [0, 0] };
    assert_eq!(
        FileRights::from_cap_rights_t(&bad),
        Err(CapErr::Invalid(EINVAL))
    );

    // Well-tagged words with an unassigned flag are rejected too.
    let stray = capsicum::cap_rights_t {
        cr_rights: [0x0200000000000000u64 | 0x0100000000000000u64, 0x0400000000000000u64],
    };
    assert_eq!(
        FileRights::from_cap_rights_t(&stray),
        Err(CapErr::Invalid(EINVAL))
    );
}

// Validity: only assigned flags may be set, finalize asserts it, and a
// descriptor refuses an invalid set the way the kernel's validator does.
#[test]
fn validity_check() {
    let ok = RightsBuilder::new(Right::Read).finalize().unwrap();
    assert!(ok.is_valid());

    let mut stray = FileRights::empty();
    stray.allow(Right::Unused057);
    assert!(!stray.is_valid());

    assert_eq!(
        FileRights::new(Right::Unused057.value()),
        Err(CapErr::Invalid(EINVAL))
    );
    assert_eq!(
        RightsBuilder::new(Right::Unused057).finalize(),
        Err(CapErr::Invalid(EINVAL))
    );

    let mut file = FdCaps::new();
    assert_eq!(stray.limit(&mut file), Err(CapErr::Limit(EINVAL)));
}

// merge is union, remove is difference.
#[test]
fn merge_and_remove() {
    let mut rights = RightsBuilder::new(Right::Read).finalize().unwrap();
    let write = RightsBuilder::new(Right::Write).finalize().unwrap();

    rights.merge(&write).unwrap();
    assert!(rights.is_set(Right::Read));
    assert!(rights.is_set(Right::Write));
    assert!(rights.contains(&write));

    rights.remove(&write).unwrap();
    assert!(rights.is_set(Right::Read));
    assert!(!rights.is_set(Right::Write));
}

// The fcntl builder accumulates and drops flags, and reports its raw bits.
#[test]
fn fcntl_builder_bits() {
    let b = FcntlsBuilder::new()
        .add(Fcntl::GetFL)
        .add(Fcntl::SetFL)
        .remove(Fcntl::SetFL);
    assert_eq!(b.raw(), 0x8);
    assert_eq!(b.bits(), 0x8);
    assert_eq!(FcntlsBuilder::empty().raw(), 0);
    assert_eq!(b.finalize(), FcntlsBuilder::new().add(Fcntl::GetFL).finalize());
    assert_eq!(FcntlsBuilder::default().raw(), 0);
    assert_eq!(FcntlRights::default(), FcntlRights::new());
}

// The ioctl builder drops every occurrence of a denied command.
#[test]
fn ioctl_builder_deny() {
    let b = IoctlsBuilder::new().allow(1).allow(2).allow(1).deny(1);
    assert_eq!(b.raw(), vec![2]);
    let b2 = IoctlsBuilder::new().allow(7).remove(9);
    assert_eq!(b2.raw(), vec![7]);
    assert_eq!(IoctlRights::new(vec![3, 4]), IoctlRights::Limited(vec![3, 4]));
    assert_eq!(IoctlRights::default(), IoctlRights::Unlimited);
    assert!(IoctlsBuilder::default().raw().is_empty());
}

// Entering capability mode is one-way: once observed, it never goes false,
// and entering again is harmless.
#[test]
fn enter_is_irreversible() {
    let mut mode = ProcessMode::new(true);
    assert!(!sandboxed(&mode));
    assert_eq!(get_mode(&mode), Ok(false));

    enter(&mut mode).unwrap();
    assert!(sandboxed(&mode));
    assert_eq!(get_mode(&mode), Ok(true));

    enter(&mut mode).unwrap();
    assert!(sandboxed(&mode));
    assert_eq!(get_mode(&mode), Ok(true));
}

// Without kernel support, entering and querying the mode bit both report
// ENOSYS, and the process stays unsandboxed.
#[test]
fn enter_unsupported_kernel() {
    let mut mode = ProcessMode::new(false);
    assert_eq!(enter(&mut mode), Err(CapErr::Generic(ENOSYS)));
    assert!(!sandboxed(&mode));
    assert_eq!(get_mode(&mode), Err(CapErr::Get(ENOSYS)));
}

// Error constructors keep the kind and the error number apart.
#[test]
fn error_wrapping() {
    assert_eq!(CapErr::from_raw(CapErrType::Get, 9), CapErr::Get(9));
    assert_eq!(CapErr::from_raw(CapErrType::Limit, 22), CapErr::Limit(22));
    assert_eq!(CapErr::Get(9).os_error(), Some(9));
    assert_eq!(CapErr::Nul(3).os_error(), None);
}

// The raw result of an ioctl-list read is classified into the three states
// it can mean.
#[test]
fn classify_ioctl_read_results() {
    assert_eq!(
        classify_ioctls_get(CAP_IOCTLS_ALL, Vec::new(), 0).unwrap(),
        IoctlRights::Unlimited
    );
    assert_eq!(
        classify_ioctls_get(2, vec![5, 6], 0).unwrap(),
        IoctlRights::Limited(vec![5, 6])
    );
    assert_eq!(classify_ioctls_get(-1, Vec::new(), 9), Err(CapErr::Get(9)));
}

// The fcntl mask the kernel reports is taken back only when it uses
// assigned flags.
#[test]
fn fcntl_from_reported_bits() {
    let f = FcntlRights::from_bits(0x28).unwrap();
    assert_eq!(f.bits(), 0x28);
    assert_eq!(FcntlRights::from_bits(0x5), Err(CapErr::Invalid(EINVAL)));
    assert_eq!(FcntlRights::from_bits(0x78).unwrap().bits(), 0x78);
}

// Paths with interior NUL bytes are caught before they reach the kernel.
#[test]
fn nul_byte_positions() {
    assert_eq!(nul_position(b"lib.rs"), None);
    assert_eq!(nul_position(b""), None);
    assert_eq!(nul_position(b"\0lib"), Some(0));
    assert_eq!(nul_position(b"li\0b"), Some(2));
}
