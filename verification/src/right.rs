//! The capability-rights algebra for file descriptors.
//!
//! A rights set is packed into two 64-bit words.  In each word the top seven
//! bits (bits 57..63) form a structural tag: bit `57 + i` marks the word as
//! word `i` of the set, and the two topmost bits hold the layout version
//! (zero).  The remaining 57 bits of each word are flags, one per primitive
//! right.  A composite right (such as `Seek`) is the union of the flags of
//! the rights it implies, so "implication" is flag-set containment.  This
//! packing is the kernel's persisted layout and is kept bit-exact here.

use vstd::prelude::*;

verus! {

use crate::bits::{
    lemma_bare_tag_contains_nothing,
    lemma_clear_keeps_tag,
    lemma_clear_unsets,
    lemma_contains_bare_tag,
    lemma_idx_field,
    lemma_or_absorb,
    lemma_or_gains_subset,
    lemma_or_keeps_mask,
    lemma_or_keeps_tag,
    lemma_or_monotone,
    lemma_small_has_no_tag,
    lemma_subset_keeps_clear,
    lemma_subset_order,
    lemma_subset_union,
};
use crate::common::{CapErr, CapResult, EINVAL};

/// Tag field of word 0: version 0, word index 0.
pub const WORD0_TAG: u64 = 0x0200000000000000;

/// Tag field of word 1: version 0, word index 1.
pub const WORD1_TAG: u64 = 0x0400000000000000;

/// Mask of the seven tag bits of a rights word.
pub const TAG_MASK: u64 = 0xFE00000000000000;

/// Mask of the 57 flag bits of a rights word.
pub const FLAG_MASK: u64 = 0x01FFFFFFFFFFFFFF;

/// Every flag currently assigned in word 0.
pub const ALL0_FLAGS: u64 = 0x000007FFFFFFFFFF;

/// Every flag currently assigned in word 1.
pub const ALL1_FLAGS: u64 = 0x00000000001FFFFF;

/// Capability rights for file descriptors, one variant per named right.
#[derive(Clone, Copy, Debug, PartialEq, Eq, Structural)]
pub enum Right {
    Null,
    Read,
    Write,
    SeekTell,
    Seek,
    Pread,
    Pwrite,
    Mmap,
    MmapR,
    MmapW,
    MmapX,
    MmapRW,
    MmapRX,
    MmapWX,
    MmapRWX,
    Create,
    Fexecve,
    Fsync,
    Ftruncate,
    Lookup,
    Fchdir,
    Fchflags,
    Chflagsat,
    Fchmod,
    Fchmodat,
    Fchown,
    Fchownat,
    Fcntl,
    Flock,
    Fpathconf,
    Fsck,
    Fstat,
    Fstatat,
    Fstatfs,
    Futimes,
    Futimesat,
    LinkatTarget,
    Mkdirat,
    Mkfifoat,
    Mknodat,
    RenameatSource,
    RenameatTarget,
    Symlinkat,
    Unlinkat,
    Accept,
    Bind,
    Connect,
    Getpeername,
    Getsockname,
    Getsockopt,
    Listen,
    Peeloff,
    Setsockopt,
    Shutdown,
    Bindat,
    Connectat,
    LinkatSource,
    SockClient,
    SockServer,
    All0,
    Unused044,
    Unused057,
    MacGet,
    MacSet,
    SemGetvalue,
    SemPost,
    SemWait,
    Event,
    KqueueEvent,
    Ioctl,
    Ttyhook,
    Pdgetpid,
    Pdwait,
    Pdkill,
    ExtattrDelete,
    ExtattrGet,
    ExtattrList,
    ExtattrSet,
    AclCheck,
    AclDelete,
    AclGet,
    AclSet,
    KqueueChange,
    Kqueue,
    All1,
    Unused122,
    Unused157,
}

/// Whether a right lives in word 1 of the packed pair.
pub open spec fn right_in_word1(r: Right) -> bool {
    match r {
        Right::MacGet => true,
        Right::MacSet => true,
        Right::SemGetvalue => true,
        Right::SemPost => true,
        Right::SemWait => true,
        Right::Event => true,
        Right::KqueueEvent => true,
        Right::Ioctl => true,
        Right::Ttyhook => true,
        Right::Pdgetpid => true,
        Right::Pdwait => true,
        Right::Pdkill => true,
        Right::ExtattrDelete => true,
        Right::ExtattrGet => true,
        Right::ExtattrList => true,
        Right::ExtattrSet => true,
        Right::AclCheck => true,
        Right::AclDelete => true,
        Right::AclGet => true,
        Right::AclSet => true,
        Right::KqueueChange => true,
        Right::Kqueue => true,
        Right::All1 => true,
        Right::Unused122 => true,
        Right::Unused157 => true,
        _ => false,
    }
}

/// The word index (0 or 1) a right belongs to.
pub open spec fn right_word(r: Right) -> int {
    if right_in_word1(r) {
        1
    } else {
        0
    }
}

/// The flag bits of a right, without the word tag.  A composite right's
/// flags are the union of the flags of the rights it implies.
pub open spec fn right_flags(r: Right) -> u64 {
    match r {
        Right::Null => 0,
        Right::Read => 0x1,
        Right::Write => 0x2,
        Right::SeekTell => 0x4,
        Right::Seek => 0xC,
        Right::Pread => 0xD,
        Right::Pwrite => 0xE,
        Right::Mmap => 0x10,
        Right::MmapR => 0x1D,
        Right::MmapW => 0x1E,
        Right::MmapX => 0x3C,
        Right::MmapRW => 0x1F,
        Right::MmapRX => 0x3D,
        Right::MmapWX => 0x3E,
        Right::MmapRWX => 0x3F,
        Right::Create => 0x40,
        Right::Fexecve => 0x80,
        Right::Fsync => 0x100,
        Right::Ftruncate => 0x200,
        Right::Lookup => 0x400,
        Right::Fchdir => 0x800,
        Right::Fchflags => 0x1000,
        Right::Chflagsat => 0x1400,
        Right::Fchmod => 0x2000,
        Right::Fchmodat => 0x2400,
        Right::Fchown => 0x4000,
        Right::Fchownat => 0x4400,
        Right::Fcntl => 0x8000,
        Right::Flock => 0x10000,
        Right::Fpathconf => 0x20000,
        Right::Fsck => 0x40000,
        Right::Fstat => 0x80000,
        Right::Fstatat => 0x80400,
        Right::Fstatfs => 0x100000,
        Right::Futimes => 0x200000,
        Right::Futimesat => 0x200400,
        Right::LinkatTarget => 0x400400,
        Right::Mkdirat => 0x800400,
        Right::Mkfifoat => 0x1000400,
        Right::Mknodat => 0x2000400,
        Right::RenameatSource => 0x4000400,
        Right::RenameatTarget => 0x40000000400,
        Right::Symlinkat => 0x8000400,
        Right::Unlinkat => 0x10000400,
        Right::Accept => 0x20000000,
        Right::Bind => 0x40000000,
        Right::Connect => 0x80000000,
        Right::Getpeername => 0x100000000,
        Right::Getsockname => 0x200000000,
        Right::Getsockopt => 0x400000000,
        Right::Listen => 0x800000000,
        Right::Peeloff => 0x1000000000,
        Right::Setsockopt => 0x2000000000,
        Right::Shutdown => 0x4000000000,
        Right::Bindat => 0x8000000400,
        Right::Connectat => 0x10000000400,
        Right::LinkatSource => 0x20000000400,
        Right::SockClient => 0x7780000003,
        Right::SockServer => 0x7F60000003,
        Right::All0 => 0x7FFFFFFFFFF,
        Right::Unused044 => 0x80000000000,
        Right::Unused057 => 0x0100000000000000,
        Right::MacGet => 0x1,
        Right::MacSet => 0x2,
        Right::SemGetvalue => 0x4,
        Right::SemPost => 0x8,
        Right::SemWait => 0x10,
        Right::Event => 0x20,
        Right::KqueueEvent => 0x40,
        Right::Ioctl => 0x80,
        Right::Ttyhook => 0x100,
        Right::Pdgetpid => 0x200,
        Right::Pdwait => 0x400,
        Right::Pdkill => 0x800,
        Right::ExtattrDelete => 0x1000,
        Right::ExtattrGet => 0x2000,
        Right::ExtattrList => 0x4000,
        Right::ExtattrSet => 0x8000,
        Right::AclCheck => 0x10000,
        Right::AclDelete => 0x20000,
        Right::AclGet => 0x40000,
        Right::AclSet => 0x80000,
        Right::KqueueChange => 0x100000,
        Right::Kqueue => 0x100040,
        Right::All1 => 0x1FFFFF,
        Right::Unused122 => 0x200000,
        Right::Unused157 => 0x0100000000000000,
    }
}

/// The packed canonical value of a right: its word tag or-ed with its flags.
/// `Null` is the empty pattern.
pub open spec fn right_value(r: Right) -> u64 {
    if r == Right::Null {
        0
    } else if right_in_word1(r) {
        WORD1_TAG | right_flags(r)
    } else {
        WORD0_TAG | right_flags(r)
    }
}

/// Right `a` implies right `b`: they share a word and `a`'s flags cover
/// `b`'s.  Every right implies `Null`.
pub open spec fn right_implies(a: Right, b: Right) -> bool {
    b == Right::Null || (right_word(a) == right_word(b) && right_flags(a) & right_flags(b)
        == right_flags(b))
}

/// The flag field of every right fits below the tag bits, and only `Null`
/// has an empty flag field.
pub proof fn lemma_right_flags_bounded(r: Right)
    ensures
        right_flags(r) <= 0x01FFFFFFFFFFFFFF,
        r != Right::Null ==> right_flags(r) != 0,
{
    match r {
        Right::Null => {},
        Right::Read => {},
        Right::Write => {},
        Right::SeekTell => {},
        Right::Seek => {},
        Right::Pread => {},
        Right::Pwrite => {},
        Right::Mmap => {},
        Right::MmapR => {},
        Right::MmapW => {},
        Right::MmapX => {},
        Right::MmapRW => {},
        Right::MmapRX => {},
        Right::MmapWX => {},
        Right::MmapRWX => {},
        Right::Create => {},
        Right::Fexecve => {},
        Right::Fsync => {},
        Right::Ftruncate => {},
        Right::Lookup => {},
        Right::Fchdir => {},
        Right::Fchflags => {},
        Right::Chflagsat => {},
        Right::Fchmod => {},
        Right::Fchmodat => {},
        Right::Fchown => {},
        Right::Fchownat => {},
        Right::Fcntl => {},
        Right::Flock => {},
        Right::Fpathconf => {},
        Right::Fsck => {},
        Right::Fstat => {},
        Right::Fstatat => {},
        Right::Fstatfs => {},
        Right::Futimes => {},
        Right::Futimesat => {},
        Right::LinkatTarget => {},
        Right::Mkdirat => {},
        Right::Mkfifoat => {},
        Right::Mknodat => {},
        Right::RenameatSource => {},
        Right::RenameatTarget => {},
        Right::Symlinkat => {},
        Right::Unlinkat => {},
        Right::Accept => {},
        Right::Bind => {},
        Right::Connect => {},
        Right::Getpeername => {},
        Right::Getsockname => {},
        Right::Getsockopt => {},
        Right::Listen => {},
        Right::Peeloff => {},
        Right::Setsockopt => {},
        Right::Shutdown => {},
        Right::Bindat => {},
        Right::Connectat => {},
        Right::LinkatSource => {},
        Right::SockClient => {},
        Right::SockServer => {},
        Right::All0 => {},
        Right::Unused044 => {},
        Right::Unused057 => {},
        Right::MacGet => {},
        Right::MacSet => {},
        Right::SemGetvalue => {},
        Right::SemPost => {},
        Right::SemWait => {},
        Right::Event => {},
        Right::KqueueEvent => {},
        Right::Ioctl => {},
        Right::Ttyhook => {},
        Right::Pdgetpid => {},
        Right::Pdwait => {},
        Right::Pdkill => {},
        Right::ExtattrDelete => {},
        Right::ExtattrGet => {},
        Right::ExtattrList => {},
        Right::ExtattrSet => {},
        Right::AclCheck => {},
        Right::AclDelete => {},
        Right::AclGet => {},
        Right::AclSet => {},
        Right::KqueueChange => {},
        Right::Kqueue => {},
        Right::All1 => {},
        Right::Unused122 => {},
        Right::Unused157 => {},
    }
}

/// Literal facts about the tag and mask constants.
pub proof fn lemma_tag_constants()
    by (bit_vector)
    ensures
        0x0200000000000000u64 & 0x01FFFFFFFFFFFFFF == 0,
        0x0400000000000000u64 & 0x01FFFFFFFFFFFFFF == 0,
        0x0200000000000000u64 & 0xFE00000000000000 == 0x0200000000000000,
        0x0400000000000000u64 & 0xFE00000000000000 == 0x0400000000000000,
        0x0200000000000000u64 & !(0x0200000000000000u64 | 0x000007FFFFFFFFFF) == 0,
        0x0400000000000000u64 & !(0x0400000000000000u64 | 0x00000000001FFFFF) == 0,
        (0x0200000000000000u64 | 0x000007FFFFFFFFFF) & 0xFE00000000000000 == 0x0200000000000000,
        (0x0400000000000000u64 | 0x00000000001FFFFF) & 0xFE00000000000000 == 0x0400000000000000,
        (0x0200000000000000u64 | 0x000007FFFFFFFFFF) & !(0x0200000000000000u64
            | 0x000007FFFFFFFFFF) == 0,
        (0x0400000000000000u64 | 0x00000000001FFFFF) & !(0x0400000000000000u64
            | 0x00000000001FFFFF) == 0,
        forall|x: u64| #![auto]
            x | 0 == x && 0u64 | x == x && x & 0 == 0 && 0u64 & x == 0 && x & 0xFFFFFFFFFFFFFFFF
                == x,
{
}

/// A tagged value or-ed from a bounded flag field splits back into tag and
/// flags.
pub proof fn lemma_value_parts(f: u64, t: u64)
    by (bit_vector)
    requires
        f <= 0x01FFFFFFFFFFFFFF,
        t & 0x01FFFFFFFFFFFFFF == 0,
    ensures
        (t | f) & 0xFE00000000000000 == t & 0xFE00000000000000,
        (t | f) & 0x01FFFFFFFFFFFFFF == f,
        f != 0 ==> (t | f) != 0,
{
}

/// How a right's packed value decomposes: its tag field is its word's tag
/// and its flag field is `right_flags`.
pub proof fn lemma_right_value_parts(r: Right)
    ensures
        right_flags(r) <= 0x01FFFFFFFFFFFFFF,
        r != Right::Null && right_word(r) == 0 ==> right_value(r) & TAG_MASK == WORD0_TAG,
        r != Right::Null && right_word(r) == 1 ==> right_value(r) & TAG_MASK == WORD1_TAG,
        r != Right::Null ==> right_value(r) & FLAG_MASK == right_flags(r),
        r == Right::Null ==> right_value(r) == 0,
{
    lemma_right_flags_bounded(r);
    lemma_tag_constants();
    if r != Right::Null {
        if right_in_word1(r) {
            lemma_value_parts(right_flags(r), WORD1_TAG);
        } else {
            lemma_value_parts(right_flags(r), WORD0_TAG);
        }
    }
}

impl Right {
    /// The word index this right's flags live in.
    pub fn word_index(self) -> (w: u64)
        ensures
            w as int == right_word(self),
    {
        match self {
            Right::MacGet => 1,
            Right::MacSet => 1,
            Right::SemGetvalue => 1,
            Right::SemPost => 1,
            Right::SemWait => 1,
            Right::Event => 1,
            Right::KqueueEvent => 1,
            Right::Ioctl => 1,
            Right::Ttyhook => 1,
            Right::Pdgetpid => 1,
            Right::Pdwait => 1,
            Right::Pdkill => 1,
            Right::ExtattrDelete => 1,
            Right::ExtattrGet => 1,
            Right::ExtattrList => 1,
            Right::ExtattrSet => 1,
            Right::AclCheck => 1,
            Right::AclDelete => 1,
            Right::AclGet => 1,
            Right::AclSet => 1,
            Right::KqueueChange => 1,
            Right::Kqueue => 1,
            Right::All1 => 1,
            Right::Unused122 => 1,
            Right::Unused157 => 1,
            _ => 0,
        }
    }

    /// The flag bits of this right, without the word tag.
    pub fn flag_bits(self) -> (f: u64)
        ensures
            f == right_flags(self),
    {
        match self {
            Right::Null => 0,
            Right::Read => 0x1,
            Right::Write => 0x2,
            Right::SeekTell => 0x4,
            Right::Seek => 0xC,
            Right::Pread => 0xD,
            Right::Pwrite => 0xE,
            Right::Mmap => 0x10,
            Right::MmapR => 0x1D,
            Right::MmapW => 0x1E,
            Right::MmapX => 0x3C,
            Right::MmapRW => 0x1F,
            Right::MmapRX => 0x3D,
            Right::MmapWX => 0x3E,
            Right::MmapRWX => 0x3F,
            Right::Create => 0x40,
            Right::Fexecve => 0x80,
            Right::Fsync => 0x100,
            Right::Ftruncate => 0x200,
            Right::Lookup => 0x400,
            Right::Fchdir => 0x800,
            Right::Fchflags => 0x1000,
            Right::Chflagsat => 0x1400,
            Right::Fchmod => 0x2000,
            Right::Fchmodat => 0x2400,
            Right::Fchown => 0x4000,
            Right::Fchownat => 0x4400,
            Right::Fcntl => 0x8000,
            Right::Flock => 0x10000,
            Right::Fpathconf => 0x20000,
            Right::Fsck => 0x40000,
            Right::Fstat => 0x80000,
            Right::Fstatat => 0x80400,
            Right::Fstatfs => 0x100000,
            Right::Futimes => 0x200000,
            Right::Futimesat => 0x200400,
            Right::LinkatTarget => 0x400400,
            Right::Mkdirat => 0x800400,
            Right::Mkfifoat => 0x1000400,
            Right::Mknodat => 0x2000400,
            Right::RenameatSource => 0x4000400,
            Right::RenameatTarget => 0x40000000400,
            Right::Symlinkat => 0x8000400,
            Right::Unlinkat => 0x10000400,
            Right::Accept => 0x20000000,
            Right::Bind => 0x40000000,
            Right::Connect => 0x80000000,
            Right::Getpeername => 0x100000000,
            Right::Getsockname => 0x200000000,
            Right::Getsockopt => 0x400000000,
            Right::Listen => 0x800000000,
            Right::Peeloff => 0x1000000000,
            Right::Setsockopt => 0x2000000000,
            Right::Shutdown => 0x4000000000,
            Right::Bindat => 0x8000000400,
            Right::Connectat => 0x10000000400,
            Right::LinkatSource => 0x20000000400,
            Right::SockClient => 0x7780000003,
            Right::SockServer => 0x7F60000003,
            Right::All0 => 0x7FFFFFFFFFF,
            Right::Unused044 => 0x80000000000,
            Right::Unused057 => 0x0100000000000000,
            Right::MacGet => 0x1,
            Right::MacSet => 0x2,
            Right::SemGetvalue => 0x4,
            Right::SemPost => 0x8,
            Right::SemWait => 0x10,
            Right::Event => 0x20,
            Right::KqueueEvent => 0x40,
            Right::Ioctl => 0x80,
            Right::Ttyhook => 0x100,
            Right::Pdgetpid => 0x200,
            Right::Pdwait => 0x400,
            Right::Pdkill => 0x800,
            Right::ExtattrDelete => 0x1000,
            Right::ExtattrGet => 0x2000,
            Right::ExtattrList => 0x4000,
            Right::ExtattrSet => 0x8000,
            Right::AclCheck => 0x10000,
            Right::AclDelete => 0x20000,
            Right::AclGet => 0x40000,
            Right::AclSet => 0x80000,
            Right::KqueueChange => 0x100000,
            Right::Kqueue => 0x100040,
            Right::All1 => 0x1FFFFF,
            Right::Unused122 => 0x200000,
            Right::Unused157 => 0x0100000000000000,
        }
    }

    /// The packed canonical value of this right.
    pub fn value(self) -> (v: u64)
        ensures
            v == right_value(self),
    {
        if matches!(self, Right::Null) {
            0
        } else {
            let f = self.flag_bits();
            if self.word_index() == 1 {
                WORD1_TAG | f
            } else {
                WORD0_TAG | f
            }
        }
    }
}

/// Accumulates rights before they become a [`FileRights`].
///
/// The builder grows a proper two-word rights set, which
/// [`RightsBuilder::finalize`] hands out after the structural validity
/// check, so rights of both words mix freely.  Alongside it the builder
/// keeps the historic one-word accumulator that [`RightsBuilder::raw`]
/// exposes: every packed right value or-ed into a single word, `deny`
/// clearing bits and re-asserting the word 0 tag.  In that single word the
/// flag fields of both words overlap, so `raw` is a legacy encoding, not a
/// faithful image of the built set.
#[derive(Clone, Copy, Debug)]
pub struct RightsBuilder {
    bits: u64,
    set: FileRights,
}

impl RightsBuilder {
    /// The historic one-word accumulator.
    pub closed spec fn spec_raw(self) -> u64 {
        self.bits
    }

    /// The rights set built so far.
    pub closed spec fn spec_set(self) -> FileRights {
        self.set
    }

    /// Start from one right.
    pub fn new(right: Right) -> (b: RightsBuilder)
        ensures
            b.spec_raw() == right_value(right),
            b.spec_set() == FileRights::spec_empty().spec_allow(right),
    {
        let mut set = FileRights::empty();
        set.allow(right);
        RightsBuilder { bits: right.value(), set }
    }

    /// Start from no rights at all.
    pub fn empty() -> (b: RightsBuilder)
        ensures
            b.spec_raw() == 0,
            b.spec_set() == FileRights::spec_empty(),
    {
        RightsBuilder { bits: 0, set: FileRights::empty() }
    }

    /// Accumulate another right.
    pub fn allow(self, right: Right) -> (b: RightsBuilder)
        ensures
            b.spec_raw() == self.spec_raw() | right_value(right),
            b.spec_set() == self.spec_set().spec_allow(right),
    {
        let mut set = self.set;
        set.allow(right);
        RightsBuilder { bits: self.bits | right.value(), set }
    }

    /// Accumulate another right.
    pub fn add(self, right: Right) -> (b: RightsBuilder)
        ensures
            b.spec_raw() == self.spec_raw() | right_value(right),
            b.spec_set() == self.spec_set().spec_allow(right),
    {
        self.allow(right)
    }

    /// Drop a right again.
    pub fn deny(self, right: Right) -> (b: RightsBuilder)
        ensures
            b.spec_raw() == (self.spec_raw() & !right_value(right)) | WORD0_TAG,
            b.spec_set() == self.spec_set().spec_deny(right),
    {
        let mut set = self.set;
        set.deny(right);
        RightsBuilder { bits: (self.bits & !right.value()) | WORD0_TAG, set }
    }

    /// Drop a right again.
    pub fn remove(self, right: Right) -> (b: RightsBuilder)
        ensures
            b.spec_raw() == (self.spec_raw() & !right_value(right)) | WORD0_TAG,
            b.spec_set() == self.spec_set().spec_deny(right),
    {
        self.deny(right)
    }

    /// The historic one-word accumulator.
    pub fn raw(&self) -> (r: u64)
        ensures
            r == self.spec_raw(),
    {
        self.bits
    }

    /// The historic one-word accumulator.
    pub fn bits(&self) -> (r: u64)
        ensures
            r == self.spec_raw(),
    {
        self.bits
    }

    /// Hand out the built rights set, asserting its validity as every
    /// construction must: refused exactly when an unassigned flag was
    /// allowed along the way.
    pub fn finalize(&self) -> (r: CapResult<FileRights>)
        ensures
            r is Ok <==> self.spec_set().spec_valid(),
            (r matches Ok(fr) ==> fr == self.spec_set() && fr.spec_valid()),
            r is Err ==> (r == Err::<FileRights, CapErr>(CapErr::Invalid(EINVAL))),
    {
        if self.set.is_valid() {
            Ok(self.set)
        } else {
            Err(CapErr::Invalid(EINVAL))
        }
    }
}

impl Default for RightsBuilder {
    /// An empty accumulator.
    fn default() -> (b: RightsBuilder)
        ensures
            b.spec_raw() == 0,
            b.spec_set() == FileRights::spec_empty(),
    {
        RightsBuilder::empty()
    }
}

/// Whether a raw accumulated word names exactly one word of the pair and
/// uses only flags assigned in that word.  The zero word stands for the
/// empty set and is also accepted.
pub open spec fn raw_valid(raw: u64) -> bool {
    ||| raw == 0
    ||| (raw >> 57 == 1 && raw & !(WORD0_TAG | ALL0_FLAGS) == 0)
    ||| (raw >> 57 == 2 && raw & !(WORD1_TAG | ALL1_FLAGS) == 0)
}

/// A capability rights set for one file descriptor, packed in two tagged
/// words exactly as the kernel stores them.  The set can only be combined
/// by union and difference; applying it to a descriptor is [`CapRights::limit`],
/// which the descriptor accepts only as a narrowing.
#[derive(Clone, Copy, Debug, PartialEq, Eq, Structural)]
pub struct FileRights {
    w0: u64,
    w1: u64,
}

impl FileRights {
    /// Both words carry their structural tag.
    #[verifier::type_invariant]
    pub closed spec fn wf(self) -> bool {
        self.w0 & TAG_MASK == WORD0_TAG && self.w1 & TAG_MASK == WORD1_TAG
    }

    /// Packed word 0.
    pub closed spec fn word0(self) -> u64 {
        self.w0
    }

    /// Packed word 1.
    pub closed spec fn word1(self) -> u64 {
        self.w1
    }

    /// The rights set with no rights.
    pub closed spec fn spec_empty() -> FileRights {
        FileRights { w0: WORD0_TAG, w1: WORD1_TAG }
    }

    /// The rights set with every assigned right.
    pub closed spec fn spec_all() -> FileRights {
        FileRights { w0: WORD0_TAG | ALL0_FLAGS, w1: WORD1_TAG | ALL1_FLAGS }
    }

    /// The set a valid raw word dispatches to: the raw bits or-ed into the
    /// word its index field names.
    pub closed spec fn spec_from_raw(raw: u64) -> FileRights {
        FileRights {
            w0: if raw >> 57 == 1 {
                WORD0_TAG | raw
            } else {
                WORD0_TAG
            },
            w1: if raw >> 57 == 2 {
                WORD1_TAG | raw
            } else {
                WORD1_TAG
            },
        }
    }

    /// Every bit of `r`'s pattern is present.
    pub open spec fn spec_is_set(self, r: Right) -> bool {
        if right_word(r) == 1 {
            self.word1() & right_value(r) == right_value(r)
        } else {
            self.word0() & right_value(r) == right_value(r)
        }
    }

    /// Every bit set in `other` is set in `self`.
    pub open spec fn spec_contains(self, other: FileRights) -> bool {
        self.word0() & other.word0() == other.word0() && self.word1() & other.word1()
            == other.word1()
    }

    /// Well-tagged and using only assigned flags.
    pub open spec fn spec_valid(self) -> bool {
        &&& self.wf()
        &&& self.word0() & !(WORD0_TAG | ALL0_FLAGS) == 0
        &&& self.word1() & !(WORD1_TAG | ALL1_FLAGS) == 0
    }

    /// The set after `r` is allowed: `r`'s pattern or-ed into its word.
    pub closed spec fn spec_allow(self, r: Right) -> FileRights {
        if right_word(r) == 1 {
            FileRights { w0: self.w0, w1: self.w1 | right_value(r) }
        } else {
            FileRights { w0: self.w0 | right_value(r), w1: self.w1 }
        }
    }

    /// The set after `r` is denied: `r`'s flag bits cleared from its word.
    pub closed spec fn spec_deny(self, r: Right) -> FileRights {
        if right_word(r) == 1 {
            FileRights { w0: self.w0, w1: self.w1 & !(right_value(r) & FLAG_MASK) }
        } else {
            FileRights { w0: self.w0 & !(right_value(r) & FLAG_MASK), w1: self.w1 }
        }
    }

    /// The union of two sets.
    pub closed spec fn spec_merge(self, other: FileRights) -> FileRights {
        FileRights { w0: self.w0 | other.w0, w1: self.w1 | other.w1 }
    }

    /// The difference of two sets: `other`'s flag bits cleared.
    pub closed spec fn spec_remove(self, other: FileRights) -> FileRights {
        FileRights { w0: self.w0 & !(other.w0 & FLAG_MASK), w1: self.w1 & !(other.w1 & FLAG_MASK) }
    }

    /// Build a rights set from one raw accumulated word.  The empty word
    /// gives the empty set; a word whose index field names word 0 or word 1
    /// and whose flags are all assigned in that word is dispatched there;
    /// anything else is rejected as structurally invalid.
    pub fn new(raw_rights: u64) -> (r: CapResult<FileRights>)
        ensures
            r is Ok <==> raw_valid(raw_rights),
            (r matches Ok(fr) ==> fr == FileRights::spec_from_raw(raw_rights)),
            (r matches Ok(fr) ==> fr.spec_valid()),
            r is Err ==> (r == Err::<FileRights, CapErr>(CapErr::Invalid(EINVAL))),
    {
        proof {
            lemma_tag_constants();
            lemma_idx_field(raw_rights);
        }
        let idx = raw_rights >> 57;
        if raw_rights == 0 {
            Ok(FileRights { w0: WORD0_TAG, w1: WORD1_TAG })
        } else if idx == 1 && (raw_rights & !(WORD0_TAG | ALL0_FLAGS)) == 0 {
            proof {
                lemma_or_keeps_tag(WORD0_TAG, raw_rights, WORD0_TAG);
                lemma_or_keeps_mask(WORD0_TAG, raw_rights, WORD0_TAG | ALL0_FLAGS);
            }
            Ok(FileRights { w0: WORD0_TAG | raw_rights, w1: WORD1_TAG })
        } else if idx == 2 && (raw_rights & !(WORD1_TAG | ALL1_FLAGS)) == 0 {
            proof {
                lemma_or_keeps_tag(WORD1_TAG, raw_rights, WORD1_TAG);
                lemma_or_keeps_mask(WORD1_TAG, raw_rights, WORD1_TAG | ALL1_FLAGS);
            }
            Ok(FileRights { w0: WORD0_TAG, w1: WORD1_TAG | raw_rights })
        } else {
            Err(CapErr::Invalid(EINVAL))
        }
    }

    /// The empty (deny-all) rights set.
    pub fn empty() -> (r: FileRights)
        ensures
            r == FileRights::spec_empty(),
            r.spec_valid(),
    {
        proof {
            lemma_tag_constants();
        }
        FileRights { w0: WORD0_TAG, w1: WORD1_TAG }
    }

    /// The rights set holding every assigned right.
    pub fn all() -> (r: FileRights)
        ensures
            r == FileRights::spec_all(),
            r.spec_valid(),
    {
        proof {
            lemma_tag_constants();
        }
        FileRights { w0: WORD0_TAG | ALL0_FLAGS, w1: WORD1_TAG | ALL1_FLAGS }
    }

    /// Add `right`'s pattern to the set.
    pub fn allow(&mut self, right: Right)
        ensures
            *final(self) == old(self).spec_allow(right),
            final(self).spec_is_set(right),
    {
        proof {
            use_type_invariant(&*self);
            lemma_right_value_parts(right);
            lemma_tag_constants();
        }
        let v = right.value();
        if right.word_index() == 1 {
            proof {
                lemma_or_keeps_tag(self.w1, v, WORD1_TAG);
                lemma_subset_order(v, 0, 0);
                lemma_or_gains_subset(self.w1, v, v);
            }
            self.w1 = self.w1 | v;
        } else {
            proof {
                if right != Right::Null {
                    lemma_or_keeps_tag(self.w0, v, WORD0_TAG);
                }
                lemma_subset_order(v, 0, 0);
                lemma_or_gains_subset(self.w0, v, v);
            }
            self.w0 = self.w0 | v;
        }
    }

    /// Clear `right`'s flag bits from the set: afterwards the right no
    /// longer tests as set, unless its pattern is empty.
    pub fn deny(&mut self, right: Right)
        ensures
            *final(self) == old(self).spec_deny(right),
            right_flags(right) != 0 ==> !final(self).spec_is_set(right),
    {
        proof {
            use_type_invariant(&*self);
            lemma_right_value_parts(right);
        }
        let v = right.value();
        if right.word_index() == 1 {
            proof {
                lemma_clear_keeps_tag(self.w1, v);
                if right_flags(right) != 0 {
                    lemma_clear_unsets(self.w1, v);
                }
            }
            self.w1 = self.w1 & !(v & FLAG_MASK);
        } else {
            proof {
                lemma_clear_keeps_tag(self.w0, v);
                if right_flags(right) != 0 {
                    lemma_clear_unsets(self.w0, v);
                }
            }
            self.w0 = self.w0 & !(v & FLAG_MASK);
        }
    }

    /// Add `right`'s pattern to the set; the set form of [`FileRights::allow`].
    pub fn set(&mut self, right: Right) -> (r: CapResult<()>)
        ensures
            r is Ok,
            *final(self) == old(self).spec_allow(right),
    {
        self.allow(right);
        Ok(())
    }

    /// Clear `right`'s flag bits; the result form of [`FileRights::deny`].
    pub fn clear(&mut self, right: Right) -> (r: CapResult<()>)
        ensures
            r is Ok,
            *final(self) == old(self).spec_deny(right),
    {
        self.deny(right);
        Ok(())
    }

    /// Is `right`'s whole pattern present?
    pub fn is_set(&self, right: Right) -> (r: bool)
        ensures
            r == self.spec_is_set(right),
    {
        let v = right.value();
        if right.word_index() == 1 {
            self.w1 & v == v
        } else {
            self.w0 & v == v
        }
    }

    /// Does `self` hold every right that `other` holds?
    pub fn contains(&self, other: &FileRights) -> (r: bool)
        ensures
            r == self.spec_contains(*other),
    {
        (self.w0 & other.w0) == other.w0 && (self.w1 & other.w1) == other.w1
    }

    /// Is the packing structurally valid: both tags in place and only
    /// assigned flags used?
    pub fn is_valid(&self) -> (r: bool)
        ensures
            r == self.spec_valid(),
    {
        (self.w0 & TAG_MASK) == WORD0_TAG && (self.w1 & TAG_MASK) == WORD1_TAG && (self.w0 & !(
        WORD0_TAG | ALL0_FLAGS)) == 0 && (self.w1 & !(WORD1_TAG | ALL1_FLAGS)) == 0
    }

    /// Union `other` into `self`: afterwards the set contains both
    /// operands.  Both sets are well-tagged by construction, so the union
    /// never fails.
    pub fn merge(&mut self, other: &FileRights) -> (r: CapResult<()>)
        ensures
            r is Ok,
            *final(self) == old(self).spec_merge(*other),
            final(self).spec_contains(*old(self)),
            final(self).spec_contains(*other),
    {
        proof {
            use_type_invariant(&*self);
            use_type_invariant(other);
            lemma_or_keeps_tag(self.w0, other.w0, WORD0_TAG);
            lemma_or_keeps_tag(self.w1, other.w1, WORD1_TAG);
            lemma_or_absorb(self.w0, other.w0);
            lemma_or_absorb(self.w1, other.w1);
        }
        self.w0 = self.w0 | other.w0;
        self.w1 = self.w1 | other.w1;
        Ok(())
    }

    /// Clear every flag of `other` from `self`.  Never fails for
    /// well-tagged sets.
    pub fn remove(&mut self, other: &FileRights) -> (r: CapResult<()>)
        ensures
            r is Ok,
            *final(self) == old(self).spec_remove(*other),
    {
        proof {
            use_type_invariant(&*self);
            lemma_clear_keeps_tag(self.w0, other.w0);
            lemma_clear_keeps_tag(self.w1, other.w1);
        }
        self.w0 = self.w0 & !(other.w0 & FLAG_MASK);
        self.w1 = self.w1 & !(other.w1 & FLAG_MASK);
        Ok(())
    }

    /// The packed two-word form handed to the kernel.
    pub fn as_cap_rights_t(&self) -> (c: cap_rights_t)
        ensures
            c.cr_rights[0] == self.word0(),
            c.cr_rights[1] == self.word1(),
    {
        cap_rights_t { cr_rights: [self.w0, self.w1] }
    }

    /// Rebuild a rights set from the kernel's packed form, asserting full
    /// structural validity as every construction must: a pair with a wrong
    /// tag or an unassigned flag is rejected.
    pub fn from_cap_rights_t(c: &cap_rights_t) -> (r: CapResult<FileRights>)
        ensures
            r is Ok <==> (c.cr_rights[0] & TAG_MASK == WORD0_TAG && c.cr_rights[1] & TAG_MASK
                == WORD1_TAG && c.cr_rights[0] & !(WORD0_TAG | ALL0_FLAGS) == 0 && c.cr_rights[1]
                & !(WORD1_TAG | ALL1_FLAGS) == 0),
            (r matches Ok(fr) ==> fr.word0() == c.cr_rights[0] && fr.word1() == c.cr_rights[1]
                && fr.spec_valid()),
            r is Err ==> (r == Err::<FileRights, CapErr>(CapErr::Invalid(EINVAL))),
    {
        let w0 = c.cr_rights[0];
        let w1 = c.cr_rights[1];
        if (w0 & TAG_MASK) == WORD0_TAG && (w1 & TAG_MASK) == WORD1_TAG && (w0 & !(WORD0_TAG
            | ALL0_FLAGS)) == 0 && (w1 & !(WORD1_TAG | ALL1_FLAGS)) == 0 {
            Ok(FileRights { w0, w1 })
        } else {
            Err(CapErr::Invalid(EINVAL))
        }
    }
}

impl Default for FileRights {
    /// The empty (deny-all) rights set.
    fn default() -> (r: FileRights)
        ensures
            r == FileRights::spec_empty(),
    {
        FileRights::empty()
    }
}

/// The kernel's packed layout of a rights set: two tagged words.
#[allow(non_camel_case_types)]
#[derive(Clone, Copy, Debug)]
pub struct cap_rights_t {
    /// The packed words, word 0 first.
    pub cr_rights: [u64; 2],
}

/// Allowing a right makes every right it implies test as set: the
/// implication closure of the rights table is honoured by `allow`/`is_set`.
pub proof fn lemma_implication_closure(s: FileRights, a: Right, b: Right)
    requires
        right_implies(a, b),
    ensures
        s.spec_allow(a).spec_is_set(b),
{
    lemma_tag_constants();
    lemma_right_value_parts(a);
    lemma_right_value_parts(b);
    if b == Right::Null {
    } else {
        lemma_right_flags_bounded(b);
        if a == Right::Null {
            assert(right_flags(b) == 0);
        } else {
            let t = if right_word(a) == 1 {
                WORD1_TAG
            } else {
                WORD0_TAG
            };
            let w = if right_word(a) == 1 {
                s.word1()
            } else {
                s.word0()
            };
            lemma_or_monotone(t, right_flags(a), right_flags(b));
            lemma_or_gains_subset(w, t | right_flags(a), t | right_flags(b));
        }
    }
}

/// Allowing an implied right adds no bits beyond what allowing the
/// implying right adds: the grown set contains the set grown from the
/// implied right alone.
pub proof fn lemma_implied_contained(base: FileRights, a: Right, b: Right)
    requires
        right_implies(a, b),
    ensures
        base.spec_allow(a).spec_contains(base.spec_allow(b)),
{
    lemma_tag_constants();
    lemma_right_value_parts(a);
    lemma_right_value_parts(b);
    lemma_subset_order(base.spec_allow(a).word0(), 0, 0);
    lemma_subset_order(base.spec_allow(a).word1(), 0, 0);
    if b == Right::Null {
        lemma_or_absorb(base.word0(), right_value(a));
        lemma_or_absorb(base.word1(), right_value(a));
    } else if a == Right::Null {
        assert(right_flags(b) == 0);
        lemma_right_flags_bounded(b);
    } else {
        let t = if right_word(a) == 1 {
            WORD1_TAG
        } else {
            WORD0_TAG
        };
        let w = if right_word(a) == 1 {
            base.word1()
        } else {
            base.word0()
        };
        lemma_or_monotone(t, right_flags(a), right_flags(b));
        lemma_or_monotone(w, right_value(a), right_value(b));
    }
}

/// A set that contains `t` and has `r` set also contains `t` grown by `r`:
/// containment of a set built right by right from implied primitives
/// follows by induction on this lemma.
pub proof fn lemma_contains_allow(s: FileRights, t: FileRights, r: Right)
    requires
        s.spec_contains(t),
        s.spec_is_set(r),
    ensures
        s.spec_contains(t.spec_allow(r)),
{
    if right_word(r) == 1 {
        lemma_subset_union(s.word1(), t.word1(), right_value(r));
    } else {
        lemma_subset_union(s.word0(), t.word0(), right_value(r));
    }
}

/// Allowing a right keeps a set well-tagged.
pub proof fn lemma_allow_keeps_wf(s: FileRights, r: Right)
    requires
        s.wf(),
    ensures
        s.spec_allow(r).wf(),
{
    lemma_tag_constants();
    lemma_right_value_parts(r);
    if r != Right::Null {
        if right_word(r) == 1 {
            lemma_or_keeps_tag(s.word1(), right_value(r), WORD1_TAG);
        } else {
            lemma_or_keeps_tag(s.word0(), right_value(r), WORD0_TAG);
        }
    }
}

/// A composite right contains a set built purely from the primitives it
/// implies: growing the empty set by the composite covers growing it by
/// any two implied rights.
pub proof fn lemma_contains_implied_primitives(a: Right, b1: Right, b2: Right)
    requires
        right_implies(a, b1),
        right_implies(a, b2),
    ensures
        FileRights::spec_empty().spec_allow(a).spec_contains(
            FileRights::spec_empty().spec_allow(b1).spec_allow(b2),
        ),
{
    let none = FileRights::spec_empty();
    let s = none.spec_allow(a);
    lemma_tag_constants();
    lemma_allow_keeps_wf(none, a);
    lemma_contains_empty(s);
    lemma_implication_closure(none, a, b1);
    lemma_implication_closure(none, a, b2);
    lemma_contains_allow(s, none, b1);
    lemma_contains_allow(s, none.spec_allow(b1), b2);
}

/// A well-tagged set contained in a valid set is itself valid: narrowing
/// never introduces an unassigned flag.
pub proof fn lemma_contains_keeps_valid(a: FileRights, b: FileRights)
    requires
        a.spec_valid(),
        b.wf(),
        a.spec_contains(b),
    ensures
        b.spec_valid(),
{
    lemma_subset_keeps_clear(a.word0(), b.word0(), !(WORD0_TAG | ALL0_FLAGS));
    lemma_subset_keeps_clear(a.word1(), b.word1(), !(WORD1_TAG | ALL1_FLAGS));
}

/// Every well-tagged set contains the empty set.
pub proof fn lemma_contains_empty(s: FileRights)
    requires
        s.wf(),
    ensures
        s.spec_contains(FileRights::spec_empty()),
{
    lemma_tag_constants();
    lemma_contains_bare_tag(s.word0(), WORD0_TAG);
    lemma_contains_bare_tag(s.word1(), WORD1_TAG);
}

/// The empty set blocks everything: no right with a non-empty pattern
/// tests as set on it.  `Null` is the one empty pattern, and is always
/// permitted.
pub proof fn lemma_empty_denies_all(r: Right)
    requires
        r != Right::Null,
    ensures
        !FileRights::spec_empty().spec_is_set(r),
{
    lemma_tag_constants();
    lemma_right_flags_bounded(r);
    lemma_right_value_parts(r);
    let f = right_flags(r);
    lemma_small_has_no_tag(f);
    if right_word(r) == 1 {
        lemma_bare_tag_contains_nothing(WORD1_TAG, f);
        assert(WORD1_TAG & (WORD1_TAG | f) != (WORD1_TAG | f));
        assert(right_value(r) == WORD1_TAG | f);
    } else {
        lemma_bare_tag_contains_nothing(WORD0_TAG, f);
    }
}

} // verus!
