use vstd::prelude::*;
use vstd::arithmetic::div_mod::{
    lemma_div_denominator, lemma_div_is_ordered, lemma_div_multiples_vanish,
    lemma_fundamental_div_mod,
};

verus! {

/// A normalized sample, held as an exact rational `num / den` (negated when
/// `neg` is set). The nominal range is [0, 1], but values outside it are
/// legal and are clamped by quantization.
#[derive(Clone, Copy, Debug, PartialEq, Eq, Structural)]
pub struct Sample {
    pub neg: bool,
    pub num: u64,
    pub den: u64,
}

impl Sample {
    /// A sample is well formed when its denominator is positive.
    pub open spec fn wf(self) -> bool {
        self.den >= 1
    }

    /// The numerator with its sign applied.
    pub open spec fn signed_num(self) -> int {
        if self.neg {
            -(self.num as int)
        } else {
            self.num as int
        }
    }

    /// Rational order on samples: `a <= b` as values.
    pub open spec fn le(self, other: Sample) -> bool {
        self.signed_num() * other.den <= other.signed_num() * self.den
    }
}

/// Round-half-up of the fraction `n / d`: the integer nearest to it, with
/// halves rounded toward positive infinity.
pub open spec fn round_half_up(n: int, d: int) -> int
    recommends
        d >= 1,
{
    (2 * n + d) / (2 * d)
}

/// The quantized value of sample `s` at maximum `max`:
/// `clamp(round(value * max), 0, max)`, rounding half up.
pub open spec fn quantized(s: Sample, max: int) -> int
    recommends
        s.wf(),
        max >= 1,
{
    if s.neg {
        0
    } else {
        let r = round_half_up(s.num * max, s.den as int);
        if r > max {
            max
        } else {
            r
        }
    }
}

/// Quantizes one sample to the 8-bit or 16-bit integer range.
pub fn quantize(s: &Sample, sixteen: bool) -> (r: u16)
    requires
        s.wf(),
    ensures
        r == quantized(*s, if sixteen { 65535int } else { 255int }),
        r <= if sixteen { 65535int } else { 255int },
{
    let max: u64 = if sixteen {
        65535
    } else {
        255
    };
    if s.neg {
        return 0;
    }
    proof {
        assert((s.num as int) * (max as int) <= 0xffff_ffff_ffff_ffff * 65535) by (nonlinear_arith)
            requires
                0 <= s.num <= 0xffff_ffff_ffff_ffffu64,
                0 <= max <= 65535,
        ;
    }
    let nm: u128 = (s.num as u128) * (max as u128);
    let n: u128 = 2 * nm + (s.den as u128);
    let d: u128 = 2 * (s.den as u128);
    let q: u128 = n / d;
    if q > max as u128 {
        max as u16
    } else {
        q as u16
    }
}

/// The high byte of a 16-bit sample, serialized big-endian.
pub open spec fn hi_byte(q: int) -> u8
    recommends
        0 <= q <= 65535,
{
    (q / 256) as u8
}

/// The low byte of a 16-bit sample, serialized big-endian.
pub open spec fn lo_byte(q: int) -> u8
    recommends
        0 <= q <= 65535,
{
    (q % 256) as u8
}

/// The byte stream of a frame's samples: one byte per sample at 8 bits,
/// two big-endian bytes per sample at 16 bits, channel order preserved.
pub open spec fn frame_bytes_spec(samples: Seq<Sample>, sixteen: bool) -> Seq<u8> {
    if sixteen {
        Seq::new(
            2 * samples.len(),
            |k: int|
                if k % 2 == 0 {
                    hi_byte(quantized(samples[k / 2], 65535))
                } else {
                    lo_byte(quantized(samples[k / 2], 65535))
                },
        )
    } else {
        Seq::new(samples.len(), |k: int| quantized(samples[k], 255) as u8)
    }
}

/// Serializes a frame's samples as quantized integer bytes.
pub fn frame_bytes(samples: &Vec<Sample>, sixteen: bool) -> (r: Vec<u8>)
    requires
        forall|i: int| 0 <= i < samples@.len() ==> (#[trigger] samples@[i]).wf(),
    ensures
        r@ == frame_bytes_spec(samples@, sixteen),
{
    let mut r: Vec<u8> = Vec::new();
    if sixteen {
        let mut i: usize = 0;
        while i < samples.len()
            invariant
                i <= samples@.len(),
                forall|k: int| 0 <= k < samples@.len() ==> (#[trigger] samples@[k]).wf(),
                r@.len() == 2 * i,
                forall|k: int|
                    0 <= k < 2 * i ==> r@[k] == #[trigger] frame_bytes_spec(samples@, true)[k],
            decreases samples@.len() - i,
        {
            let q = quantize(&samples[i], true);
            r.push((q / 256) as u8);
            r.push((q % 256) as u8);
            i = i + 1;
        }
        assert(r@ =~= frame_bytes_spec(samples@, true));
    } else {
        let mut i: usize = 0;
        while i < samples.len()
            invariant
                i <= samples@.len(),
                forall|k: int| 0 <= k < samples@.len() ==> (#[trigger] samples@[k]).wf(),
                r@.len() == i,
                forall|k: int|
                    0 <= k < i ==> r@[k] == #[trigger] frame_bytes_spec(samples@, false)[k],
            decreases samples@.len() - i,
        {
            let q = quantize(&samples[i], false);
            r.push(q as u8);
            i = i + 1;
        }
        assert(r@ =~= frame_bytes_spec(samples@, false));
    }
    r
}

/// Quantization never leaves the target range.
pub proof fn lemma_quantized_in_range(s: Sample, max: int)
    requires
        s.wf(),
        max >= 1,
    ensures
        0 <= quantized(s, max) <= max,
{
    if !s.neg {
        assert(2 * s.num * max + s.den >= 0);
        lemma_div_is_ordered(0, 2 * s.num * max + s.den, 2 * s.den as int);
    }
}

/// Quantization is monotonic: a sample that is at most another, as a
/// rational value, quantizes to at most the other's quantized value.
pub proof fn lemma_quantize_monotonic(a: Sample, b: Sample, max: int)
    requires
        a.wf(),
        b.wf(),
        max >= 1,
        a.le(b),
    ensures
        quantized(a, max) <= quantized(b, max),
{
    lemma_quantized_in_range(a, max);
    lemma_quantized_in_range(b, max);
    if !a.neg {
        let n1 = a.num as int;
        let d1 = a.den as int;
        let d2 = b.den as int;
        if b.neg {
            // a <= b <= 0 and a is nonnegative, so a's numerator is 0.
            assert(n1 * d2 <= -(b.num as int) * d1);
            assert(-(b.num as int) * d1 <= 0) by (nonlinear_arith)
                requires
                    b.num >= 0,
                    d1 >= 1,
            ;
            assert(n1 * d2 <= 0);
            assert(n1 == 0) by (nonlinear_arith)
                requires
                    n1 >= 0,
                    d2 >= 1,
                    n1 * d2 <= 0,
            ;
            assert(n1 * max == 0) by (nonlinear_arith)
                requires
                    n1 == 0,
            ;
            assert(2 * (n1 * max) + d1 == d1);
            assert(d1 / (2 * d1) == 0) by {
                vstd::arithmetic::div_mod::lemma_basic_div(d1, 2 * d1);
            }
            assert(quantized(a, max) == 0);
        } else {
            let n2 = b.num as int;
            let m1 = n1 * max;
            let m2 = n2 * max;
            let q1 = (2 * m1 + d1) / (2 * d1);
            let q2 = (2 * m2 + d2) / (2 * d2);
            lemma_fundamental_div_mod(2 * m1 + d1, 2 * d1);
            lemma_fundamental_div_mod(2 * m2 + d2, 2 * d2);
            vstd::arithmetic::div_mod::lemma_mod_bound(2 * m1 + d1, 2 * d1);
            vstd::arithmetic::div_mod::lemma_mod_bound(2 * m2 + d2, 2 * d2);
            // From the division identity: q1 * (2 d1) <= 2 m1 + d1.
            assert(q1 * (2 * d1) <= 2 * m1 + d1) by (nonlinear_arith)
                requires
                    2 * m1 + d1 == (2 * d1) * q1 + (2 * m1 + d1) % (2 * d1),
                    (2 * m1 + d1) % (2 * d1) >= 0,
            ;
            // Scale by d2 and use n1 d2 <= n2 d1.
            assert(q1 * (2 * d2) <= 2 * m2 + d2) by (nonlinear_arith)
                requires
                    q1 * (2 * d1) <= 2 * m1 + d1,
                    m1 == n1 * max,
                    m2 == n2 * max,
                    n1 * d2 <= n2 * d1,
                    d1 >= 1,
                    d2 >= 1,
                    max >= 1,
                    n1 >= 0,
                    n2 >= 0,
            ;
            // Hence q1 <= q2.
            assert(q1 <= q2) by (nonlinear_arith)
                requires
                    q1 * (2 * d2) <= 2 * m2 + d2,
                    2 * m2 + d2 == (2 * d2) * q2 + (2 * m2 + d2) % (2 * d2),
                    (2 * m2 + d2) % (2 * d2) < 2 * d2,
                    d2 >= 1,
            ;
            assert(quantized(a, max) <= quantized(b, max));
        }
    }
}

/// Quantization is idempotent at a fixed depth: the exact rational
/// `q / max`, for any already-quantized `q`, quantizes back to `q`.
pub proof fn lemma_quantize_idempotent(q: int, max: int)
    requires
        1 <= max <= 65535,
        0 <= q <= max,
    ensures
        quantized(Sample { neg: false, num: q as u64, den: max as u64 }, max) == q,
{
    let s = Sample { neg: false, num: q as u64, den: max as u64 };
    let m = (s.num as int) * max;
    assert(2 * m + s.den == max * (2 * q + 1)) by (nonlinear_arith)
        requires
            m == q * max,
            s.den == max,
    ;
    assert((max * (2 * q + 1)) / (2 * max) == q) by {
        lemma_div_denominator(max * (2 * q + 1), max, 2);
        lemma_div_multiples_vanish(2 * q + 1, max);
        assert((max * (2 * q + 1)) / max == 2 * q + 1);
        assert((2 * q + 1) / 2 == q);
        assert(max * 2 == 2 * max);
    }
    assert(round_half_up(m, s.den as int) == q);
}

/// The endpoints of quantization: zero maps to zero, one maps to `max`,
/// anything above one clamps to `max`, and negatives clamp to zero.
pub proof fn lemma_quantize_endpoints(s: Sample, max: int)
    requires
        s.wf(),
        max >= 1,
    ensures
        s.num == 0 ==> quantized(s, max) == 0,
        !s.neg && s.num == s.den ==> quantized(s, max) == max,
        !s.neg && s.num > s.den ==> quantized(s, max) == max,
        s.neg ==> quantized(s, max) == 0,
{
    let n = s.num as int;
    let d = s.den as int;
    let m = n * max;
    if !s.neg {
        if s.num == 0 {
            assert(m == 0) by (nonlinear_arith)
                requires
                    n == 0,
                    m == n * max,
            ;
            assert(2 * m + d == d);
            assert(d / (2 * d) == 0) by {
                vstd::arithmetic::div_mod::lemma_basic_div(d, 2 * d);
            }
        } else if s.num >= s.den {
            // The dividend is at least max times the divisor.
            assert(2 * m + d >= max * (2 * d)) by (nonlinear_arith)
                requires
                    m == n * max,
                    n >= d,
                    d >= 1,
                    max >= 1,
            ;
            assert((max * (2 * d)) / (2 * d) == max) by {
                lemma_div_multiples_vanish(max, 2 * d);
                assert(max * (2 * d) == (2 * d) * max);
            }
            lemma_div_is_ordered(max * (2 * d), 2 * m + d, 2 * d);
            assert(round_half_up(m, d) >= max);
            if s.num == s.den {
                assert(2 * m + d == d * (2 * max + 1)) by (nonlinear_arith)
                    requires
                        m == n * max,
                        n == d,
                ;
                assert((d * (2 * max + 1)) / (2 * d) == max) by {
                    lemma_div_denominator(d * (2 * max + 1), d, 2);
                    lemma_div_multiples_vanish(2 * max + 1, d);
                    assert((d * (2 * max + 1)) / d == 2 * max + 1);
                    assert((2 * max + 1) / 2 == max);
                    assert(d * 2 == 2 * d);
                }
            }
        }
    }
}

} // verus!
