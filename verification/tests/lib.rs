use capsicum::{
    CapRights, FcntlRights, FcntlsBuilder, FdCaps, Fcntl, IoctlRights, IoctlsBuilder, Right,
    RightsBuilder,
};

#[test]
fn test_rights_right() {
    assert_eq!(144115188075855873u64, Right::Read.value());
}

#[test]
fn test_rights_builer() {
    let builder = RightsBuilder::new(Right::Read);
    let builder = builder.allow(Right::Lookup);
    let builder = builder.allow(Right::AclSet);
    let builder = builder.allow(Right::AclSet);
    let builder = builder.allow(Right::AclGet);
    let builder = builder.allow(Right::Write);
    let builder = builder.deny(Right::Lookup);
    let builder = builder.deny(Right::AclGet);
    assert_eq!(144115188076380163, builder.raw());
}

#[test]
fn test_macros() {
    assert_eq!(Right::Read.value(), 144115188075855873u64);
    assert_eq!(Right::Read.value() | Right::Write.value(), 144115188075855875u64);
}

#[test]
fn test_cap_right_macro() {
    assert_eq!(144115188075855873u64, Right::Read.value());
    assert_eq!(Right::Read.value(), 144115188075855873u64);
    assert_eq!(Right::Read.value() | Right::Write.value(), 144115188075855875u64);
}

#[test]
fn test_ioctl() {
    let mut file = FdCaps::new();
    let ioctls = IoctlsBuilder::new().allow(1).finalize();
    ioctls.limit(&mut file).unwrap();
    let limited = IoctlRights::from_file(&file, 10).unwrap();
    assert_eq!(ioctls, limited);
}

// A descriptor that never had an ioctl limit applied reads back as
// unlimited, not as an empty list.
#[test]
fn test_ioctl_unlimited() {
    let file = FdCaps::new();
    let limited = IoctlRights::from_file(&file, 10).unwrap();
    assert!(matches!(limited, IoctlRights::Unlimited));
}

#[test]
fn test_fcntl() {
    let mut file = FdCaps::new();
    let fcntls = FcntlsBuilder::new()
        .allow(Fcntl::GetFL)
        .allow(Fcntl::GetOwn)
        .finalize();
    fcntls.limit(&mut file).unwrap();
    let new_fcntls = FcntlRights::from_file(&file).unwrap();
    assert_eq!(new_fcntls, fcntls);
}
