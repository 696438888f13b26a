//! The per-descriptor capability record, as the kernel keeps it and as it
//! is observable through the get and limit calls.
//!
//! `FdCaps` is the state this library's contract with the kernel is about:
//! a fresh descriptor holds every right, every fcntl command, and unlimited
//! ioctls; each of the three rights sets can then only ever be narrowed,
//! never widened, by [`CapRights::limit`], and is read back by the
//! `from_file` constructors.  The narrowing lemmas at the end of this
//! module state that contract once and for all descriptors.

use vstd::prelude::*;

verus! {

use crate::common::{CapErr, CapRights, CapResult, EINVAL};
use crate::fcntl::{FcntlRights, CAP_FCNTL_ALL};
use crate::ioctl::{clone_cmds, IoctlRights};
use crate::right::{FileRights, Right};

/// What a descriptor's capability record holds: its rights set, its fcntl
/// command set, and either an explicit ioctl list or the never-limited
/// state (`None`).
pub struct FdCapsView {
    /// The capability rights set.
    pub rights: FileRights,
    /// The fcntl command set.
    pub fcntls: FcntlRights,
    /// `None` until the first ioctl limit; then the recorded list.
    pub ioctls: Option<Seq<u64>>,
}

/// The kernel's capability record for one open file descriptor.
pub struct FdCaps {
    rights: FileRights,
    fcntls: FcntlRights,
    ioctls: IoctlRights,
}

impl FdCaps {
    /// A descriptor only ever records a structurally valid rights set: it
    /// starts with the full set and `limit` refuses an invalid one, as the
    /// kernel's own validator does.
    #[verifier::type_invariant]
    pub closed spec fn wf(self) -> bool {
        self.rights.spec_valid()
    }
}

impl View for FdCaps {
    type V = FdCapsView;

    closed spec fn view(&self) -> FdCapsView {
        FdCapsView { rights: self.rights, fcntls: self.fcntls, ioctls: self.ioctls@ }
    }
}

impl FdCaps {
    /// The record of a freshly created descriptor: all rights, all fcntl
    /// commands, unlimited ioctls.
    pub fn new() -> (fd: FdCaps)
        ensures
            fd@.rights == FileRights::spec_all(),
            fd@.fcntls.spec_bits() == CAP_FCNTL_ALL,
            fd@.ioctls is None,
    {
        FdCaps {
            rights: FileRights::all(),
            fcntls: FcntlRights::all(),
            ioctls: IoctlRights::Unlimited,
        }
    }
}

impl FileRights {
    /// Read the descriptor's current rights set, bit for bit.  What a
    /// descriptor records is always structurally valid.
    pub fn from_file(fd: &FdCaps) -> (r: CapResult<FileRights>)
        ensures
            r == Ok::<FileRights, CapErr>(fd@.rights),
            (r matches Ok(fr) ==> fr.spec_valid()),
    {
        proof {
            use_type_invariant(fd);
        }
        Ok(fd.rights)
    }
}

impl FcntlRights {
    /// Read the descriptor's current fcntl command set.
    pub fn from_file(fd: &FdCaps) -> (r: CapResult<FcntlRights>)
        ensures
            r == Ok::<FcntlRights, CapErr>(fd@.fcntls),
    {
        Ok(fd.fcntls)
    }
}

impl IoctlRights {
    /// Read the descriptor's current ioctl state into a buffer of room for
    /// `len` commands: the never-limited state reads back as `Unlimited`,
    /// and an explicit list — empty or not — as `Limited`.  A recorded list
    /// longer than the buffer is the caller's error and is ruled out here.
    pub fn from_file(fd: &FdCaps, len: usize) -> (r: CapResult<IoctlRights>)
        requires
            fd@.ioctls matches Some(cmds) ==> cmds.len() <= len,
        ensures
            (r matches Ok(ir) && ir@ == fd@.ioctls),
    {
        match &fd.ioctls {
            IoctlRights::Unlimited => Ok(IoctlRights::Unlimited),
            IoctlRights::Limited(cmds) => Ok(IoctlRights::Limited(clone_cmds(cmds))),
        }
    }
}

impl CapRights for FileRights {
    /// The kernel validates the new set and accepts it only as a
    /// narrowing.
    open spec fn limit_allowed(&self, fd: FdCapsView) -> bool {
        self.spec_valid() && fd.rights.spec_contains(*self)
    }

    open spec fn limit_applied(&self, fd: FdCapsView) -> FdCapsView {
        FdCapsView { rights: *self, ..fd }
    }

    open spec fn limit_refused(&self, fd: FdCapsView) -> CapErr {
        CapErr::Limit(EINVAL)
    }

    fn limit(&self, fd: &mut FdCaps) -> (r: CapResult<()>) {
        proof {
            use_type_invariant(&*fd);
        }
        if self.is_valid() && fd.rights.contains(self) {
            fd.rights = *self;
            Ok(())
        } else {
            Err(CapErr::Limit(EINVAL))
        }
    }
}

impl CapRights for FcntlRights {
    /// The kernel accepts an fcntl set only as a narrowing.
    open spec fn limit_allowed(&self, fd: FdCapsView) -> bool {
        fd.fcntls.spec_contains(*self)
    }

    open spec fn limit_applied(&self, fd: FdCapsView) -> FdCapsView {
        FdCapsView { fcntls: *self, ..fd }
    }

    open spec fn limit_refused(&self, fd: FdCapsView) -> CapErr {
        CapErr::Limit(EINVAL)
    }

    fn limit(&self, fd: &mut FdCaps) -> (r: CapResult<()>) {
        proof {
            use_type_invariant(&*fd);
        }
        if fd.fcntls.contains(self) {
            fd.fcntls = *self;
            Ok(())
        } else {
            Err(CapErr::Limit(EINVAL))
        }
    }
}

/// Does every command of `new` appear in `cur`?
fn cmds_subset(new: &Vec<u64>, cur: &Vec<u64>) -> (r: bool)
    ensures
        r == (forall|i: int| 0 <= i < new@.len() ==> cur@.contains(new@[i])),
{
    let mut i: usize = 0;
    while i < new.len()
        invariant
            i <= new.len(),
            forall|j: int| 0 <= j < i ==> cur@.contains(new@[j]),
        decreases new.len() - i,
    {
        if !cmds_contain(cur, new[i]) {
            return false;
        }
        i = i + 1;
    }
    true
}

/// Does `v` hold the command `x`?
fn cmds_contain(v: &Vec<u64>, x: u64) -> (r: bool)
    ensures
        r == v@.contains(x),
{
    let mut i: usize = 0;
    while i < v.len()
        invariant
            i <= v.len(),
            forall|j: int| 0 <= j < i ==> v@[j] != x,
        decreases v.len() - i,
    {
        if v[i] == x {
            return true;
        }
        i = i + 1;
    }
    false
}

impl CapRights for IoctlRights {
    /// An `Unlimited` value applies no restriction; an explicit list is
    /// accepted if the descriptor is still unlimited or the list only
    /// repeats commands the current list already allows.
    open spec fn limit_allowed(&self, fd: FdCapsView) -> bool {
        match self@ {
            Option::None => true,
            Option::Some(new) => match fd.ioctls {
                Option::None => true,
                Option::Some(cur) => forall|i: int| 0 <= i < new.len() ==> cur.contains(new[i]),
            },
        }
    }

    open spec fn limit_applied(&self, fd: FdCapsView) -> FdCapsView {
        match self@ {
            Option::None => fd,
            Option::Some(new) => FdCapsView { ioctls: Some(new), ..fd },
        }
    }

    open spec fn limit_refused(&self, fd: FdCapsView) -> CapErr {
        CapErr::Limit(EINVAL)
    }

    fn limit(&self, fd: &mut FdCaps) -> (r: CapResult<()>) {
        proof {
            use_type_invariant(&*fd);
        }
        match self {
            IoctlRights::Unlimited => Ok(()),
            IoctlRights::Limited(new) => {
                let ok = match &fd.ioctls {
                    IoctlRights::Unlimited => true,
                    IoctlRights::Limited(cur) => cmds_subset(new, cur),
                };
                if ok {
                    fd.ioctls = IoctlRights::Limited(clone_cmds(new));
                    Ok(())
                } else {
                    Err(CapErr::Limit(EINVAL))
                }
            },
        }
    }
}

/// Narrowing is monotone, and the kernel's check is authoritative: after a
/// rights set `a` is applied, any well-tagged `b` that `a` contains is
/// still accepted and leaves the descriptor's queried rights exactly `b`,
/// while any `c` not contained in `a` is refused.
pub proof fn lemma_monotonic_narrowing(fd: FdCapsView, a: FileRights, b: FileRights, c: FileRights)
    requires
        a.limit_allowed(fd),
        a.spec_contains(b),
        b.wf(),
        !a.spec_contains(c),
    ensures
        b.limit_allowed(a.limit_applied(fd)),
        b.limit_applied(a.limit_applied(fd)).rights == b,
        !c.limit_allowed(a.limit_applied(fd)),
{
    crate::right::lemma_contains_keeps_valid(a, b);
}

/// Reading back a descriptor after a successful limit returns the applied
/// rights set bit for bit.
pub proof fn lemma_limit_round_trip(fd: FdCapsView, r: FileRights)
    requires
        r.limit_allowed(fd),
    ensures
        r.limit_applied(fd).rights == r,
{
}

/// A descriptor that never had an ioctl limit applied reads back as
/// unlimited; after an explicit empty limit — always accepted — it reads
/// back as an empty list, and the two states are distinct.
pub proof fn lemma_unlimited_vs_empty(fd: FdCapsView, empty: IoctlRights)
    requires
        empty@ == Some(Seq::<u64>::empty()),
    ensures
        empty.limit_allowed(fd),
        empty.limit_applied(fd).ioctls == Some(Seq::<u64>::empty()),
        empty.limit_applied(fd).ioctls != Option::<Seq<u64>>::None,
{
}

/// Deny-all blocks everything: a descriptor limited to the empty rights
/// set tests negative for every right but the empty pattern `Null`.
pub proof fn lemma_deny_all_blocks(fd: FdCapsView, r: Right)
    requires
        r != Right::Null,
    ensures
        !FileRights::spec_empty().limit_applied(fd).rights.spec_is_set(r),
{
    crate::right::lemma_empty_denies_all(r);
}

} // verus!
