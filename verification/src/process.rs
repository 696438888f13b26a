//! Process-wide capability-mode state: one irreversible transition from
//! unsandboxed to sandboxed, and two queries.
//!
//! Whether the process has entered capability mode is kernel state, not a
//! value this library owns.  `ProcessMode` is the library's record of that
//! state: the unsandboxed program obtains one, hands it to [`enter`] once,
//! and queries it.  The only operation that changes it is [`enter`], and
//! that can only switch `entered` on — see
//! [`lemma_capability_mode_irreversible`].

use vstd::prelude::*;

verus! {

use crate::common::{CapErr, CapResult, ENOSYS};

/// The capability-mode state of the current process.
#[derive(Clone, Copy, Debug, PartialEq, Eq, Structural)]
pub struct ProcessMode {
    supported: bool,
    entered: bool,
}

impl ProcessMode {
    /// A process can only have entered capability mode where the kernel
    /// supports it.
    #[verifier::type_invariant]
    pub closed spec fn wf(self) -> bool {
        self.entered ==> self.supported
    }

    /// Whether the kernel was built with capability-mode support.
    pub closed spec fn is_supported(self) -> bool {
        self.supported
    }

    /// Whether the process has entered capability mode.
    pub closed spec fn is_entered(self) -> bool {
        self.entered
    }

    /// The state after the enter transition: entered wherever the kernel
    /// supports it, and never un-entered.
    pub closed spec fn spec_enter(self) -> ProcessMode {
        ProcessMode { supported: self.supported, entered: self.entered || self.supported }
    }

    /// The state of a process that has not entered capability mode.
    pub fn new(supported: bool) -> (m: ProcessMode)
        ensures
            m.is_supported() == supported,
            !m.is_entered(),
    {
        ProcessMode { supported, entered: false }
    }
}

/// Enter capability mode.  After this point the process can no longer reach
/// global namespaces.  Fails only where the kernel lacks capability
/// support; entering an already-entered process is harmless.
pub fn enter(mode: &mut ProcessMode) -> (r: CapResult<()>)
    ensures
        *final(mode) == old(mode).spec_enter(),
        final(mode).is_entered() == (old(mode).is_entered() || old(mode).is_supported()),
        final(mode).is_supported() == old(mode).is_supported(),
        r is Ok <==> old(mode).is_supported(),
        r is Err ==> (r == Err::<(), CapErr>(CapErr::Generic(ENOSYS))),
{
    if mode.supported {
        mode.entered = true;
        Ok(())
    } else {
        Err(CapErr::Generic(ENOSYS))
    }
}

/// Is the process in capability mode?  A pure query; never fails.
pub fn sandboxed(mode: &ProcessMode) -> (r: bool)
    ensures
        r == mode.is_entered(),
{
    mode.entered
}

/// Query the raw capability-mode bit.  Fails with `ENOSYS` where the kernel
/// was built without capability support.
pub fn get_mode(mode: &ProcessMode) -> (r: CapResult<bool>)
    ensures
        r is Ok <==> mode.is_supported(),
        (r matches Ok(b) ==> b == mode.is_entered()),
        r is Err ==> (r == Err::<bool, CapErr>(CapErr::Get(ENOSYS))),
{
    if mode.supported {
        Ok(mode.entered)
    } else {
        Err(CapErr::Get(ENOSYS))
    }
}

/// One step of the process-mode machine: either nothing changed (a query),
/// or the enter transition ran.  These are the only operations this library
/// performs on a `ProcessMode`.
pub open spec fn mode_step(pre: ProcessMode, post: ProcessMode) -> bool {
    post == pre || post == pre.spec_enter()
}

/// Capability mode is irreversible: once `entered` is observed true, no
/// operation of this library makes it false again.
pub proof fn lemma_capability_mode_irreversible(pre: ProcessMode, post: ProcessMode)
    requires
        mode_step(pre, post),
        pre.is_entered(),
    ensures
        post.is_entered(),
{
}

} // verus!
