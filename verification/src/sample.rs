//! Canonicalization of hardware-native audio samples.
//!
//! The canonical representation is 16-bit signed integer PCM. Integer-native
//! samples pass through unchanged. A float-native sample in [-1.0, 1.0] is
//! scaled by the greatest positive canonical value outside the library
//! (floating point cannot enter it) and handed in as the integer part of the
//! scaled value; here it is clamped into the canonical range, so that
//! out-of-range input (microphone clipping) saturates instead of wrapping.

use vstd::prelude::*;

verus! {

/// Least canonical sample value.
pub const SAMPLE_MIN: i64 = -32768;

/// Greatest canonical sample value.
pub const SAMPLE_MAX: i64 = 32767;

/// What a scaled float-native sample canonicalizes to: the value clamped
/// into the 16-bit signed range.
pub open spec fn clamp_to_canonical(t: int) -> int {
    if t < SAMPLE_MIN as int {
        SAMPLE_MIN as int
    } else if t > SAMPLE_MAX as int {
        SAMPLE_MAX as int
    } else {
        t
    }
}

/// Canonicalize one scaled float-native sample.
pub fn canonicalize_scaled(t: i64) -> (r: i16)
    ensures
        r as int == clamp_to_canonical(t as int),
{
    if t < SAMPLE_MIN {
        i16::MIN
    } else if t > SAMPLE_MAX {
        i16::MAX
    } else {
        t as i16
    }
}

/// Canonicalize a block of scaled float-native samples, preserving arrival
/// order.
pub fn canonicalize_block(ts: &Vec<i64>) -> (r: Vec<i16>)
    ensures
        r@.len() == ts@.len(),
        forall|i: int| 0 <= i < ts@.len() ==> #[trigger] r@[i] as int == clamp_to_canonical(ts@[i] as int),
{
    let mut r: Vec<i16> = Vec::new();
    let mut i: usize = 0;
    while i < ts.len()
        invariant
            i <= ts@.len(),
            r@.len() == i,
            forall|j: int| 0 <= j < i ==> #[trigger] r@[j] as int == clamp_to_canonical(ts@[j] as int),
        decreases ts@.len() - i,
    {
        let s = canonicalize_scaled(ts[i]);
        r.push(s);
        i = i + 1;
    }
    r
}

/// For every sequence of scaled float-native samples, the canonicalized
/// samples all lie in the 16-bit signed range, keep the relative order of
/// the originals, and keep their signs.
pub proof fn lemma_block_canonical(ts: Seq<i64>, rs: Seq<i16>)
    requires
        rs.len() == ts.len(),
        forall|i: int| 0 <= i < ts.len() ==> #[trigger] rs[i] as int == clamp_to_canonical(
            ts[i] as int,
        ),
    ensures
        forall|i: int|
            0 <= i < rs.len() ==> SAMPLE_MIN as int <= #[trigger] rs[i] as int <= SAMPLE_MAX as int,
        forall|i: int, j: int|
            0 <= i < ts.len() && 0 <= j < ts.len() && ts[i] <= ts[j] ==> #[trigger] rs[i]
                <= #[trigger] rs[j],
        forall|i: int| 0 <= i < ts.len() && ts[i] >= 0 ==> #[trigger] rs[i] >= 0,
        forall|i: int| 0 <= i < ts.len() && ts[i] <= 0 ==> #[trigger] rs[i] <= 0,
{
}

/// Canonical samples always lie in the 16-bit signed range.
pub proof fn lemma_canonical_in_range(t: int)
    ensures
        SAMPLE_MIN as int <= clamp_to_canonical(t) <= SAMPLE_MAX as int,
{
}

/// Canonicalization preserves the relative order of samples.
pub proof fn lemma_canonical_monotone(a: int, b: int)
    requires
        a <= b,
    ensures
        clamp_to_canonical(a) <= clamp_to_canonical(b),
{
}

/// Canonicalization preserves the sign of a sample.
pub proof fn lemma_canonical_sign(t: int)
    ensures
        t >= 0 ==> clamp_to_canonical(t) >= 0,
        t <= 0 ==> clamp_to_canonical(t) <= 0,
{
}

/// Samples already in the canonical range are unchanged.
pub proof fn lemma_canonical_identity(t: int)
    requires
        SAMPLE_MIN as int <= t <= SAMPLE_MAX as int,
    ensures
        clamp_to_canonical(t) == t,
{
}

} // verus!
