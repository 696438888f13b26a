//! The auxiliary rights set for `ioctl` commands on a descriptor.
//!
//! Unlike the other rights sets this one has a genuine two-state lifecycle:
//! a descriptor that has never had an ioctl limit applied allows every
//! command (`Unlimited`), which is distinct from a descriptor limited to an
//! explicit, possibly empty, list (`Limited`).

use vstd::prelude::*;

verus! {

/// The command list with every occurrence of `right` dropped, order kept.
pub open spec fn remove_cmd(s: Seq<u64>, right: u64) -> Seq<u64>
    decreases s.len(),
{
    if s.len() == 0 {
        Seq::empty()
    } else if s.last() == right {
        remove_cmd(s.drop_last(), right)
    } else {
        remove_cmd(s.drop_last(), right).push(s.last())
    }
}

/// Accumulates ioctl command codes before they become an [`IoctlRights`].
#[derive(Debug)]
pub struct IoctlsBuilder {
    cmds: Vec<u64>,
}

impl View for IoctlsBuilder {
    type V = Seq<u64>;

    closed spec fn view(&self) -> Seq<u64> {
        self.cmds@
    }
}

impl IoctlsBuilder {
    /// Start with no allowed commands.
    pub fn new() -> (b: IoctlsBuilder)
        ensures
            b@ == Seq::<u64>::empty(),
    {
        IoctlsBuilder { cmds: Vec::new() }
    }

    /// Allow one more ioctl command code.
    pub fn allow(self, right: u64) -> (b: IoctlsBuilder)
        ensures
            b@ == self@.push(right),
    {
        let mut cmds = self.cmds;
        cmds.push(right);
        IoctlsBuilder { cmds }
    }

    /// Allow one more ioctl command code.
    pub fn add(self, right: u64) -> (b: IoctlsBuilder)
        ensures
            b@ == self@.push(right),
    {
        self.allow(right)
    }

    /// Drop every occurrence of one command code.
    pub fn deny(self, right: u64) -> (b: IoctlsBuilder)
        ensures
            b@ == remove_cmd(self@, right),
    {
        let mut out: Vec<u64> = Vec::new();
        let mut i: usize = 0;
        while i < self.cmds.len()
            invariant
                i <= self.cmds.len(),
                out@ == remove_cmd(self.cmds@.subrange(0, i as int), right),
            decreases self.cmds.len() - i,
        {
            let c = self.cmds[i];
            if c != right {
                out.push(c);
            }
            proof {
                let prefix = self.cmds@.subrange(0, i + 1);
                assert(prefix.drop_last() =~= self.cmds@.subrange(0, i as int));
                assert(prefix.last() == c);
            }
            i = i + 1;
        }
        proof {
            assert(self.cmds@.subrange(0, self.cmds@.len() as int) =~= self.cmds@);
        }
        IoctlsBuilder { cmds: out }
    }

    /// Drop every occurrence of one command code.
    pub fn remove(self, right: u64) -> (b: IoctlsBuilder)
        ensures
            b@ == remove_cmd(self@, right),
    {
        self.deny(right)
    }

    /// A copy of the accumulated command codes.
    pub fn raw(&self) -> (v: Vec<u64>)
        ensures
            v@ == self@,
    {
        clone_cmds(&self.cmds)
    }

    /// Turn the accumulated commands into an explicit (limited) rights set.
    pub fn finalize(self) -> (r: IoctlRights)
        ensures
            r@ == Some(self@),
    {
        IoctlRights::Limited(self.cmds)
    }
}

/// Copy a list of command codes.
pub(crate) fn clone_cmds(v: &Vec<u64>) -> (c: Vec<u64>)
    ensures
        c@ == v@,
{
    let mut c: Vec<u64> = Vec::new();
    let mut i: usize = 0;
    while i < v.len()
        invariant
            i <= v.len(),
            c@ == v@.subrange(0, i as int),
        decreases v.len() - i,
    {
        c.push(v[i]);
        proof {
            assert(v@.subrange(0, i + 1) =~= v@.subrange(0, i as int).push(v@[i as int]));
        }
        i = i + 1;
    }
    proof {
        assert(v@.subrange(0, v@.len() as int) =~= v@);
    }
    c
}

/// The ioctl commands a descriptor still allows: either every command,
/// because no limit was ever applied, or exactly a recorded list.  The view
/// is `None` for `Unlimited` and `Some` of the list for `Limited`; the two
/// must never be collapsed into each other.
#[derive(Debug)]
pub enum IoctlRights {
    /// All ioctl commands are allowed; no limit has ever been applied.
    Unlimited,
    /// Only the listed ioctl commands are allowed.
    Limited(Vec<u64>),
}

impl View for IoctlRights {
    type V = Option<Seq<u64>>;

    open spec fn view(&self) -> Option<Seq<u64>> {
        match self {
            IoctlRights::Unlimited => None,
            IoctlRights::Limited(cmds) => Some(cmds@),
        }
    }
}

impl IoctlRights {
    /// An explicit (limited) rights set over the given command codes.
    pub fn new(rights: Vec<u64>) -> (r: IoctlRights)
        ensures
            r@ == Some(rights@),
    {
        IoctlRights::Limited(rights)
    }
}

impl Default for IoctlRights {
    /// The never-limited state, as on a fresh descriptor.
    fn default() -> (r: IoctlRights)
        ensures
            r@ is None,
    {
        IoctlRights::Unlimited
    }
}

impl Default for IoctlsBuilder {
    /// An accumulator with no commands.
    fn default() -> (b: IoctlsBuilder)
        ensures
            b@ == Seq::<u64>::empty(),
    {
        IoctlsBuilder::new()
    }
}

/// The sentinel count the kernel reports for a descriptor whose ioctls
/// were never limited.
pub const CAP_IOCTLS_ALL: isize = isize::MAX;

/// Classify what the kernel's ioctl-list read reported: the sentinel count
/// means no limit was ever applied; a non-negative count is the recorded
/// list, handed over in `cmds`; a negative count is a failed read carrying
/// `errno`.  A count beyond the buffer cannot be represented and is the
/// caller's error.
pub fn classify_ioctls_get(res: isize, cmds: Vec<u64>, errno: i32) -> (r: crate::common::CapResult<
    IoctlRights,
>)
    requires
        res == CAP_IOCTLS_ALL || res < 0 || res == cmds@.len(),
    ensures
        res == CAP_IOCTLS_ALL ==> (r matches Ok(ir) && ir@ is None),
        res < 0 ==> r == Err::<IoctlRights, crate::common::CapErr>(
            crate::common::CapErr::Get(errno),
        ),
        0 <= res < CAP_IOCTLS_ALL ==> (r matches Ok(ir) && ir@ == Some(cmds@)),
{
    if res == CAP_IOCTLS_ALL {
        Ok(IoctlRights::Unlimited)
    } else if res < 0 {
        Err(crate::common::CapErr::Get(errno))
    } else {
        Ok(IoctlRights::Limited(cmds))
    }
}

impl PartialEq for IoctlRights {
    fn eq(&self, other: &IoctlRights) -> (r: bool) {
        match (self, other) {
            (IoctlRights::Unlimited, IoctlRights::Unlimited) => true,
            (IoctlRights::Limited(a), IoctlRights::Limited(b)) => {
                if a.len() != b.len() {
                    return false;
                }
                let mut i: usize = 0;
                while i < a.len()
                    invariant
                        i <= a.len(),
                        a@.len() == b@.len(),
                        self@ == Some(a@),
                        other@ == Some(b@),
                        forall|j: int| 0 <= j < i ==> a@[j] == b@[j],
                    decreases a.len() - i,
                {
                    if a[i] != b[i] {
                        return false;
                    }
                    i = i + 1;
                }
                proof {
                    assert(a@ =~= b@);
                }
                true
            },
            _ => false,
        }
    }
}

impl vstd::std_specs::cmp::PartialEqSpecImpl for IoctlRights {
    open spec fn obeys_eq_spec() -> bool {
        true
    }

    open spec fn eq_spec(&self, other: &IoctlRights) -> bool {
        self@ == other@
    }
}

} // verus!
