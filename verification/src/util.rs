//! Helpers for opening files relative to an already-opened directory: the
//! path validation that decides whether a path can cross into the kernel.

use vstd::prelude::*;

verus! {

/// The position of the first NUL byte in a path, if any.  A path with an
/// interior NUL cannot be handed to the kernel; the offset is what
/// [`crate::common::CapErr::Nul`] reports.
pub fn nul_position(path: &[u8]) -> (r: Option<usize>)
    ensures
        (r matches Some(i) ==> i < path@.len() && path@[i as int] == 0 && (forall|j: int|
            0 <= j < i ==> path@[j] != 0)),
        r is None ==> (forall|j: int| 0 <= j < path@.len() ==> path@[j] != 0),
{
    let n = path.len();
    let mut i: usize = 0;
    while i < n
        invariant
            n == path@.len(),
            i <= n,
            forall|j: int| 0 <= j < i ==> path@[j] != 0,
        decreases n - i,
    {
        if path[i] == 0 {
            return Some(i);
        }
        i = i + 1;
    }
    None
}

} // verus!
