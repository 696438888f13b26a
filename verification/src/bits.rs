//! Generic bit-level lemmas used by the rights algebra.
//!
//! The rights words pack a 7-bit word tag (bits 57..63) next to a 57-bit
//! flag field; every lemma here is about how `|`, `&` and `!` interact with
//! those two regions or with the subset order `a & b == b`.

use vstd::prelude::*;

verus! {

/// Or-ing two words with the same tag field keeps that tag field.
pub proof fn lemma_or_keeps_tag(x: u64, y: u64, t: u64)
    by (bit_vector)
    requires
        x & 0xFE00000000000000 == t,
        y & 0xFE00000000000000 == t,
    ensures
        (x | y) & 0xFE00000000000000 == t,
{
}

/// Clearing only flag-field bits keeps the tag field.
pub proof fn lemma_clear_keeps_tag(x: u64, y: u64)
    by (bit_vector)
    ensures
        (x & !(y & 0x01FFFFFFFFFFFFFF)) & 0xFE00000000000000 == x & 0xFE00000000000000,
{
}

/// A value that fits in the flag field has an empty tag field.
pub proof fn lemma_small_has_no_tag(f: u64)
    by (bit_vector)
    requires
        f <= 0x01FFFFFFFFFFFFFF,
    ensures
        f & 0xFE00000000000000 == 0,
        f & !(f & 0x01FFFFFFFFFFFFFF) == 0,
{
}

/// Or-ing in a superset of `b` makes `b` a subset of the result.
pub proof fn lemma_or_gains_subset(w: u64, a: u64, b: u64)
    by (bit_vector)
    requires
        a & b == b,
    ensures
        (w | a) & b == b,
{
}

/// Or-ing the same base with two flag sets, one containing the other,
/// keeps the containment.
pub proof fn lemma_or_monotone(x: u64, a: u64, b: u64)
    by (bit_vector)
    requires
        a & b == b,
    ensures
        (x | a) & (x | b) == (x | b),
{
}

/// The subset order is reflexive and transitive.
pub proof fn lemma_subset_order(a: u64, b: u64, c: u64)
    by (bit_vector)
    ensures
        a & a == a,
        (a & b == b && b & c == c) ==> a & c == c,
{
}

/// A bare tag word contains no word with a non-empty flag field.
pub proof fn lemma_bare_tag_contains_nothing(t: u64, f: u64)
    by (bit_vector)
    requires
        t & 0x01FFFFFFFFFFFFFF == 0,
        f & 0xFE00000000000000 == 0,
        f != 0,
    ensures
        t & (t | f) != (t | f),
{
}

/// Or-ing two words that stay inside a known mask stays inside it.
pub proof fn lemma_or_keeps_mask(x: u64, y: u64, m: u64)
    by (bit_vector)
    requires
        x & !m == 0,
        y & !m == 0,
    ensures
        (x | y) & !m == 0,
{
}

/// Clearing a value's flag bits unsets it: a word cleared of `v`'s flag
/// bits no longer holds all of `v`, whenever `v` has any flag bit.
pub proof fn lemma_clear_unsets(x: u64, v: u64)
    by (bit_vector)
    requires
        v & 0x01FFFFFFFFFFFFFF != 0,
    ensures
        (x & !(v & 0x01FFFFFFFFFFFFFF)) & v != v,
{
}

/// A subset of a word that is clear of a mask is itself clear of it.
pub proof fn lemma_subset_keeps_clear(a: u64, b: u64, m: u64)
    by (bit_vector)
    requires
        a & b == b,
        a & m == 0,
    ensures
        b & m == 0,
{
}

/// A union contains both of its operands.
pub proof fn lemma_or_absorb(x: u64, y: u64)
    by (bit_vector)
    ensures
        (x | y) & x == x,
        (x | y) & y == y,
{
}

/// A word whose tag field is exactly `t` contains the bare tag `t`.
pub proof fn lemma_contains_bare_tag(x: u64, t: u64)
    by (bit_vector)
    requires
        x & 0xFE00000000000000 == t,
        t & 0x01FFFFFFFFFFFFFF == 0,
    ensures
        x & t == t,
{
}

/// A word containing both `b` and `c` contains their union.
pub proof fn lemma_subset_union(a: u64, b: u64, c: u64)
    by (bit_vector)
    requires
        a & b == b,
        a & c == c,
    ensures
        a & (b | c) == (b | c),
{
}

/// The seven-bit index field at the top of a raw right selects its word.
pub proof fn lemma_idx_field(raw: u64)
    by (bit_vector)
    ensures
        raw >> 57 == 1 ==> raw & 0xFE00000000000000 == 0x0200000000000000,
        raw >> 57 == 2 ==> raw & 0xFE00000000000000 == 0x0400000000000000,
{
}

} // verus!
