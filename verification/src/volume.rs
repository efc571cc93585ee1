//! Perceptual volume curve.
//!
//! A volume level is carried as an integer number of hundredths of a percent,
//! so the full range `0.0..=100.0` maps to `0..=10000`. The gain applied to
//! the audio sink follows a square law with a maximum gain of two: for a level
//! `v` (in percent), the real gain is `(v / 100)^2 * 2`. To keep the library
//! free of floating point, the gain is returned as an integer numerator over
//! the fixed denominator [`GAIN_SCALE`]; the caller divides before handing the
//! value to the audio device.

use vstd::prelude::*;

verus! {

/// Highest accepted volume level: 100.00 percent, in hundredths of a percent.
pub const VOLUME_MAX: u32 = 10000;

/// Denominator of the fixed-point gain: a gain numerator `g` means the real
/// gain `g / GAIN_SCALE`.
pub const GAIN_SCALE: u64 = 100_000_000;

/// A volume level outside `0..=10000` is clamped before the curve is applied.
pub open spec fn clamped_volume(v: int) -> int {
    if v > VOLUME_MAX as int {
        VOLUME_MAX as int
    } else if v < 0 {
        0
    } else {
        v
    }
}

/// The gain numerator for a volume level `v` in hundredths of a percent:
/// `2 * v * v`, which over [`GAIN_SCALE`] equals `(v / 10000)^2 * 2`.
pub open spec fn gain_of(v: int) -> int {
    2 * (clamped_volume(v) * clamped_volume(v))
}

/// Compute the gain numerator applied for the volume level `v`.
pub fn volume_gain(v: u32) -> (g: u64)
    ensures
        g == gain_of(v as int),
        g <= 2 * (VOLUME_MAX as u64) * (VOLUME_MAX as u64),
{
    let c: u64 = if v > VOLUME_MAX { VOLUME_MAX as u64 } else { v as u64 };
    proof {
        assert(c * c <= (VOLUME_MAX as u64) * (VOLUME_MAX as u64)) by (nonlinear_arith)
            requires
                c <= VOLUME_MAX as u64,
        ;
    }
    let cc: u64 = c * c;
    2 * cc
}

/// Law: on the accepted range the curve is exactly the square law `2 * v * v`
/// over [`GAIN_SCALE`], silence stays silence, full volume doubles, and any
/// level outside the range is first clamped to it.
pub proof fn lemma_volume_curve(v: int)
    ensures
        0 <= v <= VOLUME_MAX as int ==> gain_of(v) == 2 * (v * v),
        gain_of(0) == 0,
        gain_of(VOLUME_MAX as int) == 2 * ((VOLUME_MAX as int) * (VOLUME_MAX as int)),
        v > VOLUME_MAX as int ==> gain_of(v) == gain_of(VOLUME_MAX as int),
        v < 0 ==> gain_of(v) == gain_of(0),
{
    assert(clamped_volume(0) == 0);
    assert(gain_of(0) == 0);
    assert(clamped_volume(VOLUME_MAX as int) == VOLUME_MAX as int);
    if 0 <= v <= VOLUME_MAX as int {
        assert(clamped_volume(v) == v);
    }
}

} // verus!
