//! Small library of facts about 64-bit masks, proved once with the
//! bit-vector solver and reused throughout the crate.

use vstd::prelude::*;

verus! {

/// True when bit `i` of mask `m` is set.
pub open spec fn nth_bit(m: u64, i: u64) -> bool {
    (m >> i) & 1 == 1
}

/// A mask with exactly one bit set.
pub open spec fn single_bit(m: u64) -> bool {
    exists|i: u64| i < 64 && m == #[trigger] (1u64 << i)
}

/// Testing a mask against a one-bit mask is the same as reading that bit.
pub proof fn lemma_mask_bit(m: u64, i: u64)
    by (bit_vector)
    requires
        i < 64,
    ensures
        (m & (1u64 << i) != 0) == nth_bit(m, i),
        ((1u64 << i) & m != 0) == nth_bit(m, i),
{
}

pub proof fn lemma_bit_or(a: u64, b: u64, i: u64)
    by (bit_vector)
    requires
        i < 64,
    ensures
        nth_bit(a | b, i) == (nth_bit(a, i) || nth_bit(b, i)),
{
}

pub proof fn lemma_bit_and(a: u64, b: u64, i: u64)
    by (bit_vector)
    requires
        i < 64,
    ensures
        nth_bit(a & b, i) == (nth_bit(a, i) && nth_bit(b, i)),
{
}

pub proof fn lemma_bit_not(a: u64, i: u64)
    by (bit_vector)
    requires
        i < 64,
    ensures
        nth_bit(!a, i) == !nth_bit(a, i),
{
}

/// The one-bit mask `1 << k` has exactly bit `k` set.
pub proof fn lemma_bit_single(k: u64, i: u64)
    by (bit_vector)
    requires
        i < 64,
        k < 64,
    ensures
        nth_bit(1u64 << k, i) == (i == k),
{
}

/// Disjoint masks never share a set bit.
pub proof fn lemma_disjoint_bit(a: u64, b: u64, i: u64)
    by (bit_vector)
    requires
        i < 64,
        a & b == 0,
    ensures
        !(nth_bit(a, i) && nth_bit(b, i)),
{
}

/// Clearing a bit that is not set leaves the mask unchanged.
pub proof fn lemma_clear_absent(x: u64, c: u64)
    by (bit_vector)
    requires
        c < 64,
        !nth_bit(x, c),
    ensures
        x & !(1u64 << c) == x,
{
}

/// Setting a bit back after clearing it restores the mask.
pub proof fn lemma_restore_set(x: u64, t: u64)
    by (bit_vector)
    requires
        t < 64,
        nth_bit(x, t),
    ensures
        (x & !(1u64 << t)) | (1u64 << t) == x,
{
}

pub proof fn lemma_zero_and(x: u64)
    by (bit_vector)
    ensures
        0u64 & x == 0,
        x & 0u64 == 0,
        x | 0u64 == x,
        0u64 | x == x,
{
}

/// The zero mask has no bit set.
pub proof fn lemma_zero_bit(i: u64)
    by (bit_vector)
    ensures
        !nth_bit(0u64, i),
{
}

/// Disjointness from a mask is preserved by union.
pub proof fn lemma_or_disjoint(a: u64, b: u64, o: u64)
    by (bit_vector)
    requires
        a & o == 0,
        b & o == 0,
    ensures
        (a | b) & o == 0,
{
}

/// Disjointness from a union gives disjointness from each part.
pub proof fn lemma_split_or_right(y: u64, a: u64, b: u64)
    by (bit_vector)
    requires
        y & (a | b) == 0,
    ensures
        y & a == 0,
        y & b == 0,
{
}

/// Intersecting with a mask disjoint from `o` stays disjoint from `o`.
pub proof fn lemma_and_within(m: u64, p: u64, o: u64)
    by (bit_vector)
    requires
        p & o == 0,
    ensures
        (m & p) & o == 0,
        (p & m) & o == 0,
{
}

pub proof fn lemma_and_not_absorb(x: u64, o: u64)
    by (bit_vector)
    ensures
        (x & !o) & o == 0,
{
}

pub proof fn lemma_disjoint_comm(a: u64, b: u64)
    by (bit_vector)
    ensures
        (a & b == 0) == (b & a == 0),
{
}

/// A one-bit mask on an empty square meets neither occupancy mask.
pub proof fn lemma_single_in_unoccupied(x: u64, a: u64, b: u64)
    by (bit_vector)
    requires
        x < 64,
        (1u64 << x) & !(a | b) != 0,
    ensures
        (1u64 << x) & a == 0,
        (1u64 << x) & b == 0,
{
}

/// Bits of a mask after clearing square `c`.
pub proof fn lemma_bit_eval_clear(x: u64, c: u64, i: u64)
    by (bit_vector)
    requires
        c < 64,
        i < 64,
    ensures
        nth_bit(x & !(1u64 << c), i) == (i != c && nth_bit(x, i)),
{
}

/// Bits of a mask after setting square `t`.
pub proof fn lemma_bit_eval_set(x: u64, t: u64, i: u64)
    by (bit_vector)
    requires
        t < 64,
        i < 64,
    ensures
        nth_bit(x | (1u64 << t), i) == (nth_bit(x, i) || i == t),
{
}

/// Bits of a mask after moving a piece from `c` to `t`.
pub proof fn lemma_bit_eval_move(m: u64, c: u64, t: u64, i: u64)
    by (bit_vector)
    requires
        c < 64,
        t < 64,
        i < 64,
    ensures
        nth_bit((m | (1u64 << t)) & !(1u64 << c), i) == (i != c && (nth_bit(m, i) || i == t)),
{
}

/// A mask a piece was captured from keeps its other bits through the
/// relocation steps and gets the captured bit back on restore.
pub proof fn lemma_captured_chain(j: u64, c: u64, t: u64)
    by (bit_vector)
    requires
        c < 64,
        t < 64,
        c != t,
        !nth_bit(j, c),
        nth_bit(j, t),
    ensures
        (j & !(1u64 << t)) & !(1u64 << c) == j & !(1u64 << t),
        (j & !(1u64 << t)) & !(1u64 << t) == j & !(1u64 << t),
        (j & !(1u64 << t)) | (1u64 << t) == j,
        !nth_bit(j & !(1u64 << t), c),
        !nth_bit(j & !(1u64 << t), t),
{
}

/// Shifting a rook to an empty square and back restores the mask: `u`
/// is the empty destination, `v` the corner it came from.
pub proof fn lemma_castle_rook_roundtrip(x: u64, u: u64, v: u64)
    by (bit_vector)
    requires
        u < 64,
        v < 64,
        u != v,
        !nth_bit(x, u),
        nth_bit(x, v),
    ensures
        (((x | (1u64 << u)) & !(1u64 << v)) & !(1u64 << u)) | (1u64 << v) == x,
{
}

/// Reading one bit through a conjunction of masks.
pub proof fn lemma_masked_bit(x: u64, r: u64, i: u64)
    by (bit_vector)
    requires
        i < 64,
    ensures
        ((((1u64 << i) & x) & r) != 0) == (nth_bit(x, i) && nth_bit(r, i)),
{
}

/// Shifting a one-bit mask down or up one rank.
pub proof fn lemma_ep_shift(t: u64, e: u64)
    by (bit_vector)
    requires
        t < 64,
        e < 64,
        t == e + 8,
    ensures
        (1u64 << t) >> 8 == 1u64 << e,
        (1u64 << e) << 8 == 1u64 << t,
{
}

/// One-bit masks are distinct for distinct squares, and never zero.
pub proof fn lemma_shl_injective(a: u64, b: u64)
    by (bit_vector)
    requires
        a < 64,
        b < 64,
    ensures
        (1u64 << a == 1u64 << b) == (a == b),
        1u64 << a != 0,
{
}

/// A white pawn's two-square advance requires both squares ahead of it
/// to be empty: `un` is the mask of empty squares, `cap` the mask the
/// diagonal captures are checked against.
pub proof fn lemma_pawn_two_step_white(c: u64, t: u64, m: u64, un: u64, cap: u64)
    by (bit_vector)
    requires
        c < 64,
        t < 64,
        t == c + 16,
        m == c + 8,
        nth_bit(
            (((1u64 << c) << 8) & un) | ((((0xFF00u64 << 8) & (((1u64 << c) << 8) & un)) << 8)
                & un) | (cap & (((1u64 << c) & !0x0101_0101_0101_0101u64) << 7)) | (cap & (((1u64
                << c) & !0x8080_8080_8080_8080u64) << 9)),
            t,
        ),
    ensures
        nth_bit(un, m),
        nth_bit(un, t),
{
}

/// A black pawn's two-square advance requires both squares ahead of it
/// to be empty.
pub proof fn lemma_pawn_two_step_black(c: u64, t: u64, m: u64, un: u64, cap: u64)
    by (bit_vector)
    requires
        c < 64,
        t < 64,
        c == t + 16,
        m + 8 == c,
        nth_bit(
            (((1u64 << c) >> 8) & un) | ((((0x00FF_0000_0000_0000u64 >> 8) & (((1u64 << c) >> 8)
                & un)) >> 8) & un) | (cap & (((1u64 << c) & !0x0101_0101_0101_0101u64) >> 9)) | (
            cap & (((1u64 << c) & !0x8080_8080_8080_8080u64) >> 7)),
            t,
        ),
    ensures
        nth_bit(un, m),
        nth_bit(un, t),
{
}

/// Moving a piece from `c` to `t` and then back restores the mask.
pub proof fn lemma_move_roundtrip(m: u64, c: u64, t: u64)
    by (bit_vector)
    requires
        c < 64,
        t < 64,
        c != t,
        nth_bit(m, c),
        !nth_bit(m, t),
    ensures
        ((((m | (1u64 << t)) & !(1u64 << c)) | (1u64 << c)) & !(1u64 << t)) == m,
{
}

} // verus!
