//! The auxiliary rights set for `fcntl` commands on a descriptor: a flat
//! 32-bit flag set over four commands, with no implication structure.

use vstd::prelude::*;

verus! {

/// Flag of the get-status-flags command.
pub const CAP_FCNTL_GETFL: u32 = 0x8;

/// Flag of the set-status-flags command.
pub const CAP_FCNTL_SETFL: u32 = 0x10;

/// Flag of the get-signal-owner command.
pub const CAP_FCNTL_GETOWN: u32 = 0x20;

/// Flag of the set-signal-owner command.
pub const CAP_FCNTL_SETOWN: u32 = 0x40;

/// All four limitable fcntl commands.
pub const CAP_FCNTL_ALL: u32 = 0x78;

/// The fcntl commands that may be limited on a descriptor.  Other fcntl
/// commands are always available and cannot be limited.
#[derive(Clone, Copy, Debug, PartialEq, Eq, Structural)]
pub enum Fcntl {
    /// Get descriptor status flags.
    GetFL,
    /// Set descriptor status flags.
    SetFL,
    /// Get the process or process group receiving descriptor signals.
    GetOwn,
    /// Set the process or process group receiving descriptor signals.
    SetOwn,
}

/// The flag bit of one fcntl command.
pub open spec fn fcntl_bits(f: Fcntl) -> u32 {
    match f {
        Fcntl::GetFL => CAP_FCNTL_GETFL,
        Fcntl::SetFL => CAP_FCNTL_SETFL,
        Fcntl::GetOwn => CAP_FCNTL_GETOWN,
        Fcntl::SetOwn => CAP_FCNTL_SETOWN,
    }
}

/// The four command flags all lie inside the command mask.
proof fn lemma_fcntl_masks(b: u32)
    by (bit_vector)
    requires
        b == 0x8 || b == 0x10 || b == 0x20 || b == 0x40,
    ensures
        b & !0x78u32 == 0,
        b != 0,
{
}

/// Or and and-not keep a 32-bit word inside a mask; plus the subset facts
/// the limit check needs.
proof fn lemma_mask32(x: u32, y: u32, m: u32)
    by (bit_vector)
    ensures
        (x & !m == 0 && y & !m == 0) ==> (x | y) & !m == 0,
        x & !m == 0 ==> (x & !y) & !m == 0,
        x & x == x,
        0u32 & !m == 0,
{
}

impl Fcntl {
    /// The flag bit of this command.
    pub fn bits(self) -> (b: u32)
        ensures
            b == fcntl_bits(self),
    {
        match self {
            Fcntl::GetFL => CAP_FCNTL_GETFL,
            Fcntl::SetFL => CAP_FCNTL_SETFL,
            Fcntl::GetOwn => CAP_FCNTL_GETOWN,
            Fcntl::SetOwn => CAP_FCNTL_SETOWN,
        }
    }
}

impl Default for FcntlRights {
    /// The set allowing no fcntl command.
    fn default() -> (r: FcntlRights)
        ensures
            r.spec_bits() == 0,
    {
        FcntlRights::new()
    }
}

impl Default for FcntlsBuilder {
    /// An accumulator with no commands.
    fn default() -> (b: FcntlsBuilder)
        ensures
            b.spec_bits() == 0,
    {
        FcntlsBuilder::new()
    }
}

/// Accumulates fcntl command flags before they become a [`FcntlRights`].
#[derive(Clone, Copy, Debug, PartialEq, Eq, Structural)]
pub struct FcntlsBuilder {
    bits: u32,
}

impl FcntlsBuilder {
    /// Only assigned command flags are ever accumulated.
    #[verifier::type_invariant]
    pub closed spec fn wf(self) -> bool {
        self.bits & !CAP_FCNTL_ALL == 0
    }

    /// The accumulated command flags.
    pub closed spec fn spec_bits(self) -> u32 {
        self.bits
    }

    /// Start with no commands.
    pub fn new() -> (b: FcntlsBuilder)
        ensures
            b.spec_bits() == 0,
    {
        proof {
            lemma_mask32(0, 0, CAP_FCNTL_ALL);
        }
        FcntlsBuilder { bits: 0 }
    }

    /// Start with no commands.
    pub fn empty() -> (b: FcntlsBuilder)
        ensures
            b.spec_bits() == 0,
    {
        FcntlsBuilder::new()
    }

    /// Accumulate one more command.
    pub fn add(self, right: Fcntl) -> (b: FcntlsBuilder)
        ensures
            b.spec_bits() == self.spec_bits() | fcntl_bits(right),
    {
        proof {
            use_type_invariant(&self);
            lemma_fcntl_masks(fcntl_bits(right));
            lemma_mask32(self.bits, fcntl_bits(right), CAP_FCNTL_ALL);
        }
        FcntlsBuilder { bits: self.bits | right.bits() }
    }

    /// Accumulate one more command.
    pub fn allow(self, right: Fcntl) -> (b: FcntlsBuilder)
        ensures
            b.spec_bits() == self.spec_bits() | fcntl_bits(right),
    {
        self.add(right)
    }

    /// Drop one command.
    pub fn remove(self, right: Fcntl) -> (b: FcntlsBuilder)
        ensures
            b.spec_bits() == self.spec_bits() & !fcntl_bits(right),
    {
        proof {
            use_type_invariant(&self);
            lemma_mask32(self.bits, fcntl_bits(right), CAP_FCNTL_ALL);
        }
        FcntlsBuilder { bits: self.bits & !right.bits() }
    }

    /// Drop one command.
    pub fn deny(self, right: Fcntl) -> (b: FcntlsBuilder)
        ensures
            b.spec_bits() == self.spec_bits() & !fcntl_bits(right),
    {
        self.remove(right)
    }

    /// The accumulated command flags.
    pub fn raw(&self) -> (r: u32)
        ensures
            r == self.spec_bits(),
    {
        self.bits
    }

    /// The accumulated command flags.
    pub fn bits(&self) -> (r: u32)
        ensures
            r == self.spec_bits(),
    {
        self.bits
    }

    /// Turn the accumulated commands into a rights set.
    pub fn finalize(&self) -> (r: FcntlRights)
        ensures
            r.spec_bits() == self.spec_bits(),
    {
        proof {
            use_type_invariant(self);
        }
        FcntlRights { bits: self.bits }
    }
}

/// The set of fcntl commands a descriptor still allows.  Like the main
/// rights set it is applied with [`crate::common::CapRights::limit`] and can
/// only ever shrink a descriptor's allowed commands.
#[derive(Clone, Copy, Debug, PartialEq, Eq, Structural)]
pub struct FcntlRights {
    bits: u32,
}

impl FcntlRights {
    /// Only assigned command flags are ever held.
    #[verifier::type_invariant]
    pub closed spec fn wf(self) -> bool {
        self.bits & !CAP_FCNTL_ALL == 0
    }

    /// The held command flags.
    pub closed spec fn spec_bits(self) -> u32 {
        self.bits
    }

    /// Every command of `other` is allowed here.
    pub open spec fn spec_contains(self, other: FcntlRights) -> bool {
        self.spec_bits() & other.spec_bits() == other.spec_bits()
    }

    /// The set allowing no fcntl command.
    pub fn new() -> (r: FcntlRights)
        ensures
            r.spec_bits() == 0,
    {
        proof {
            lemma_mask32(0, 0, CAP_FCNTL_ALL);
        }
        FcntlRights { bits: 0 }
    }

    /// The set allowing all four commands, as a fresh descriptor does.
    pub fn all() -> (r: FcntlRights)
        ensures
            r.spec_bits() == CAP_FCNTL_ALL,
    {
        proof {
            lemma_mask32(CAP_FCNTL_ALL, 0, CAP_FCNTL_ALL);
            assert(CAP_FCNTL_ALL & !CAP_FCNTL_ALL == 0) by (bit_vector);
        }
        FcntlRights { bits: CAP_FCNTL_ALL }
    }

    /// Allow one more command.
    pub fn allow(&mut self, right: Fcntl)
        ensures
            final(self).spec_bits() == old(self).spec_bits() | fcntl_bits(right),
    {
        proof {
            use_type_invariant(&*self);
            lemma_fcntl_masks(fcntl_bits(right));
            lemma_mask32(self.bits, fcntl_bits(right), CAP_FCNTL_ALL);
        }
        self.bits = self.bits | right.bits();
    }

    /// Drop one command.
    pub fn deny(&mut self, right: Fcntl)
        ensures
            final(self).spec_bits() == old(self).spec_bits() & !fcntl_bits(right),
    {
        proof {
            use_type_invariant(&*self);
            lemma_mask32(self.bits, fcntl_bits(right), CAP_FCNTL_ALL);
        }
        self.bits = self.bits & !right.bits();
    }

    /// Does `self` allow every command that `other` allows?
    pub fn contains(&self, other: &FcntlRights) -> (r: bool)
        ensures
            r == self.spec_contains(*other),
    {
        (self.bits & other.bits) == other.bits
    }

    /// The held command flags, as handed to the kernel.
    pub fn bits(&self) -> (r: u32)
        ensures
            r == self.spec_bits(),
    {
        self.bits
    }

    /// Rebuild a command set from the mask the kernel reported, rejecting
    /// unassigned flags.
    pub fn from_bits(bits: u32) -> (r: crate::common::CapResult<FcntlRights>)
        ensures
            r is Ok <==> bits & !CAP_FCNTL_ALL == 0,
            (r matches Ok(f) ==> f.spec_bits() == bits),
            r is Err ==> (r == Err::<FcntlRights, crate::common::CapErr>(
                crate::common::CapErr::Invalid(crate::common::EINVAL),
            )),
    {
        if (bits & !CAP_FCNTL_ALL) == 0 {
            Ok(FcntlRights { bits })
        } else {
            Err(crate::common::CapErr::Invalid(crate::common::EINVAL))
        }
    }
}

} // verus!
