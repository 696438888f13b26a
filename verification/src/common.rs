//! Error types shared by the whole crate, and the `CapRights` trait that
//! every limitable rights set implements.

use vstd::prelude::*;

verus! {

use crate::descriptor::{FdCaps, FdCapsView};

/// Operation not permitted.
pub const EPERM: i32 = 1;

/// No such service or file.
pub const ENOENT: i32 = 2;

/// Bad file descriptor.
pub const EBADF: i32 = 9;

/// Resource busy; also: the broker has already forked.
pub const EBUSY: i32 = 16;

/// Name already registered.
pub const EEXIST: i32 = 17;

/// Invalid argument; also: a limit would widen the current rights.
pub const EINVAL: i32 = 22;

/// The kernel lacks capability-mode support.
pub const ENOSYS: i32 = 78;

/// An operation was blocked by a capability restriction.
pub const ENOTCAPABLE: i32 = 93;

/// The failing operation behind a [`CapErr`].
#[derive(Clone, Copy, Debug, PartialEq, Eq, Structural)]
pub enum CapErrType {
    Clear,
    Generic,
    Get,
    Invalid,
    Limit,
    Merge,
    Remove,
    SetOp,
}

/// A failure of a capability operation, tagged with the operation that
/// failed and carrying the raw OS error number, except for `Nul`, which
/// carries the offset of the stray NUL byte in a path.
#[derive(Clone, Copy, Debug, PartialEq, Eq, Structural)]
pub enum CapErr {
    Clear(i32),
    Generic(i32),
    Get(i32),
    Invalid(i32),
    Limit(i32),
    Merge(i32),
    Nul(usize),
    Remove(i32),
    SetOp(i32),
}

/// What wrapping an error number of kind `kind` yields.
pub open spec fn spec_cap_err(kind: CapErrType, errno: i32) -> CapErr {
    match kind {
        CapErrType::Clear => CapErr::Clear(errno),
        CapErrType::Generic => CapErr::Generic(errno),
        CapErrType::Get => CapErr::Get(errno),
        CapErrType::Invalid => CapErr::Invalid(errno),
        CapErrType::Limit => CapErr::Limit(errno),
        CapErrType::Merge => CapErr::Merge(errno),
        CapErrType::Remove => CapErr::Remove(errno),
        CapErrType::SetOp => CapErr::SetOp(errno),
    }
}

impl CapErr {
    /// Wrap a raw OS error number as the error of operation `kind`.
    pub fn from_raw(kind: CapErrType, errno: i32) -> (e: CapErr)
        ensures
            e == spec_cap_err(kind, errno),
    {
        match kind {
            CapErrType::Clear => CapErr::Clear(errno),
            CapErrType::Generic => CapErr::Generic(errno),
            CapErrType::Get => CapErr::Get(errno),
            CapErrType::Invalid => CapErr::Invalid(errno),
            CapErrType::Limit => CapErr::Limit(errno),
            CapErrType::Merge => CapErr::Merge(errno),
            CapErrType::Remove => CapErr::Remove(errno),
            CapErrType::SetOp => CapErr::SetOp(errno),
        }
    }

    /// The OS error number inside this error, if it carries one.
    pub fn os_error(&self) -> (r: Option<i32>)
        ensures
            r == spec_os_error(*self),
    {
        match *self {
            CapErr::Clear(e) => Some(e),
            CapErr::Generic(e) => Some(e),
            CapErr::Get(e) => Some(e),
            CapErr::Invalid(e) => Some(e),
            CapErr::Limit(e) => Some(e),
            CapErr::Merge(e) => Some(e),
            CapErr::Nul(_) => None,
            CapErr::Remove(e) => Some(e),
            CapErr::SetOp(e) => Some(e),
        }
    }
}

/// The OS error number inside a `CapErr`, if any.
pub open spec fn spec_os_error(e: CapErr) -> Option<i32> {
    match e {
        CapErr::Clear(n) => Some(n),
        CapErr::Generic(n) => Some(n),
        CapErr::Get(n) => Some(n),
        CapErr::Invalid(n) => Some(n),
        CapErr::Limit(n) => Some(n),
        CapErr::Merge(n) => Some(n),
        CapErr::Nul(_) => None,
        CapErr::Remove(n) => Some(n),
        CapErr::SetOp(n) => Some(n),
    }
}

/// The usual result type of capability operations.
pub type CapResult<T> = Result<T, CapErr>;

/// A set of capabilities that may be restricted on file descriptors.
///
/// When a descriptor is first created it carries all possible rights.  The
/// kernel accepts a new set only as a narrowing of what the descriptor
/// currently holds: `limit` succeeds exactly on `limit_allowed`, moves the
/// descriptor to `limit_applied`, and otherwise reports `limit_refused` and
/// leaves the descriptor untouched.
pub trait CapRights: Sized {
    /// Whether the descriptor accepts this set as a narrowing.
    spec fn limit_allowed(&self, fd: FdCapsView) -> bool;

    /// The descriptor state after this set is applied.
    spec fn limit_applied(&self, fd: FdCapsView) -> FdCapsView;

    /// The error reported when the set is refused.
    spec fn limit_refused(&self, fd: FdCapsView) -> CapErr;

    /// Reduce the rights of `fd` to this set.
    fn limit(&self, fd: &mut FdCaps) -> (r: CapResult<()>)
        ensures
            r is Ok <==> self.limit_allowed(old(fd)@),
            r is Ok ==> final(fd)@ == self.limit_applied(old(fd)@),
            r is Err ==> final(fd)@ == old(fd)@,
            r is Err ==> (r matches Err(e) && e == self.limit_refused(old(fd)@)),
    ;
}

} // verus!
