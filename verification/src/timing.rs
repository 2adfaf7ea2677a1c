use vstd::prelude::*;
use crate::quantize::round_half_up;

verus! {

/// The animation descriptor of the decoded image: the loop count (zero
/// meaning infinite) and the tick rate as ticks-per-second numerator and
/// denominator.
#[derive(Clone, Copy, Debug, PartialEq, Eq, Structural)]
pub struct AnimationMeta {
    pub num_loops: u32,
    pub tps_numerator: u32,
    pub tps_denominator: u32,
}

/// A frame delay as the container carries it: `numer / denom` seconds.
/// Constructed only by the timing conversion below.
#[derive(Clone, Copy, Debug, PartialEq, Eq, Structural)]
pub struct TimingRatio {
    pub numer: u16,
    pub denom: u16,
}

/// A diagnostic raised when a frame delay had to be approximated. Neither
/// kind aborts the transcode.
#[derive(Clone, Copy, Debug, PartialEq, Eq, Structural)]
pub enum TimingWarning {
    /// The exact delay does not fit a 16-bit ratio and was approximated.
    DurationApproximated,
    /// The duration is the multi-page sentinel: the image is a multi-page
    /// still, not a true animation, and the delay was approximated.
    MultiPageSentinel,
}

/// Whether the exact ratio `(tick_denominator * duration) / tick_numerator`
/// fits a 16-bit-over-16-bit fraction.
pub open spec fn delay_exact(duration: int, tps_numerator: int, tps_denominator: int) -> bool {
    tps_denominator * duration < 65536 && tps_numerator < 65536
}

/// The delay ratio emitted for a frame: the exact (unreduced) ratio when it
/// fits, else the rounded approximation over denominator 65535.
pub open spec fn delay_spec(duration: int, tps_numerator: int, tps_denominator: int) -> (int, int)
    recommends
        duration >= 0,
        tps_numerator >= 0,
        tps_denominator >= 0,
{
    let n = tps_denominator * duration;
    if delay_exact(duration, tps_numerator, tps_denominator) {
        (n, tps_numerator)
    } else if tps_numerator == 0 {
        (65535, 65535)
    } else {
        let r = round_half_up(n * 65535, tps_numerator);
        (if r > 65535 {
            65535
        } else {
            r
        }, 65535)
    }
}

/// Converts one frame duration, in ticks, to the container's delay ratio.
/// The ratio is exact (and not reduced) whenever numerator and denominator
/// both fit 16 bits; otherwise it is approximated over denominator 65535,
/// with a warning that distinguishes the multi-page sentinel duration.
pub fn frame_delay(duration: u32, tps_numerator: u32, tps_denominator: u32) -> (r: (
    TimingRatio,
    Option<TimingWarning>,
))
    ensures
        (r.0.numer as int, r.0.denom as int) == delay_spec(
            duration as int,
            tps_numerator as int,
            tps_denominator as int,
        ),
        r.1 is None <==> delay_exact(duration as int, tps_numerator as int, tps_denominator as int),
        r.1 is Some ==> r.0.denom == 65535 && r.0.numer <= 65535,
        r.1 == Some(TimingWarning::MultiPageSentinel) <==> (!delay_exact(
            duration as int,
            tps_numerator as int,
            tps_denominator as int,
        ) && duration == 0xffff_ffffu32),
{
    proof {
        assert((tps_denominator as int) * (duration as int) <= 0xffff_ffff * 0xffff_ffff)
            by (nonlinear_arith)
            requires
                0 <= tps_denominator <= 0xffff_ffffu32,
                0 <= duration <= 0xffff_ffffu32,
        ;
    }
    let n: u64 = (tps_denominator as u64) * (duration as u64);
    if n < 65536 && tps_numerator < 65536 {
        (TimingRatio { numer: n as u16, denom: tps_numerator as u16 }, None)
    } else {
        let warning = if duration == 0xffff_ffff {
            TimingWarning::MultiPageSentinel
        } else {
            TimingWarning::DurationApproximated
        };
        let numer: u16 = if tps_numerator == 0 {
            65535
        } else {
            proof {
                assert((n as int) * 65535 <= 0xffff_ffff * 0xffff_ffff * 65535)
                    by (nonlinear_arith)
                    requires
                        0 <= n <= 0xffff_ffff * 0xffff_ffffu64,
                ;
            }
            let nm: u128 = (n as u128) * 65535;
            let q: u128 = (2 * nm + (tps_numerator as u128)) / (2 * (tps_numerator as u128));
            if q > 65535 {
                65535
            } else {
                q as u16
            }
        };
        (TimingRatio { numer, denom: 65535 }, Some(warning))
    }
}

} // verus!
