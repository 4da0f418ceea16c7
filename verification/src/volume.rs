//! The volume curve.
//!
//! A linear control value is clamped to the unit range and cubed before it is
//! handed to the device sink: amplitude proportional to the cube of the
//! control value approximates equal loudness steps better than a linear
//! amplitude. Volumes are fixed-point here: a control value is given in
//! thousandths (permille) of full volume, the resulting amplitude in
//! billionths, so that `amplitude / 10^9 == (volume / 10^3)^3` exactly.

use vstd::prelude::*;

verus! {

/// The control value that means full volume, in permille.
pub const FULL_VOLUME_PERMILLE: i64 = 1000;

/// The amplitude applied at full volume, in billionths.
pub const FULL_AMPLITUDE: u64 = 1_000_000_000;

/// A control value clamped to the unit range, in permille.
pub open spec fn clamped_permille(volume_permille: i64) -> int {
    if volume_permille < 0 {
        0
    } else if volume_permille > FULL_VOLUME_PERMILLE {
        FULL_VOLUME_PERMILLE as int
    } else {
        volume_permille as int
    }
}

/// The amplitude the curve applies for a control value: clamp, then cube.
pub open spec fn spec_amplitude(volume_permille: i64) -> int {
    clamped_permille(volume_permille) * clamped_permille(volume_permille)
        * clamped_permille(volume_permille)
}

/// Computes the amplitude, in billionths, that the volume curve applies for a
/// control value given in permille. Values outside the unit range are clamped
/// before cubing.
pub fn applied_amplitude(volume_permille: i64) -> (amplitude: u64)
    ensures
        amplitude == spec_amplitude(volume_permille),
        amplitude <= FULL_AMPLITUDE,
{
    let clamped: i64 = if volume_permille < 0 {
        0
    } else if volume_permille > FULL_VOLUME_PERMILLE {
        FULL_VOLUME_PERMILLE
    } else {
        volume_permille
    };
    let c: u64 = clamped as u64;
    proof {
        assert(c * c <= 1_000_000) by (nonlinear_arith)
            requires c <= 1000;
        assert(c * c * c <= 1_000_000_000) by (nonlinear_arith)
            requires c <= 1000;
    }
    c * c * c
}

/// The ends of the curve: any control value at or below zero silences the
/// sink, any value at or above full volume applies the full amplitude.
pub proof fn lemma_amplitude_clamps(volume_permille: i64)
    ensures
        volume_permille <= 0 ==> spec_amplitude(volume_permille) == 0,
        volume_permille >= FULL_VOLUME_PERMILLE ==> spec_amplitude(volume_permille)
            == FULL_AMPLITUDE,
{
    if volume_permille >= FULL_VOLUME_PERMILLE {
        assert(clamped_permille(volume_permille) == 1000);
        assert(1000int * 1000int * 1000int == 1_000_000_000int) by (nonlinear_arith);
    }
}

} // verus!
