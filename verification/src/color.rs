//! RGB radiance triples.
use vstd::prelude::*;
use vstd::arithmetic::power2::*;
use vstd::bits::*;
use crate::binary64::downshift;
use crate::binary64::finite;
use crate::binary64::is_finite;
use crate::binary64::significand;
use crate::binary64::HIDDEN_BIT;
use crate::binary64::INFINITY_BITS;
use crate::binary64::ONE_BITS;
use crate::binary64::ZERO_BITS;

verus! {

/// One pixel of 8-bit samples.
#[derive(Clone, Copy, Debug, PartialEq, Eq, Structural)]
pub struct Rgb8 {
    pub r: u8,
    pub g: u8,
    pub b: u8,
}

/// The 8-bit sample of a channel: the channel's number clamped to `[0, 1]`,
/// times 255, rounded to the nearest integer with halves going up. What is
/// negative or not a number gives 0.
pub open spec fn channel_byte(bits: u64) -> nat {
    if bits > INFINITY_BITS {
        0
    } else if bits >= ONE_BITS {
        255
    } else if bits < HIDDEN_BIT {
        0
    } else {
        (255 * significand(bits) + pow2((downshift(bits) - 1) as nat)) / pow2(downshift(bits))
    }
}

/// Computes `channel_byte`.
pub fn quantize(bits: u64) -> (byte: u8)
    ensures
        byte == channel_byte(bits),
{
    if bits > INFINITY_BITS {
        0
    } else if bits >= ONE_BITS {
        255
    } else if bits < HIDDEN_BIT {
        0
    } else {
        let exponent: u64 = bits / HIDDEN_BIT;
        let m: u64 = HIDDEN_BIT + bits % HIDDEN_BIT;
        let s: u64 = 1075 - exponent;
        assert(53 <= s <= 1074);
        assert(s == downshift(bits) && m == significand(bits));
        proof {
            lemma2_to64_rest();
        }
        if s >= 63 {
            proof {
                if s > 63 {
                    lemma_pow2_strictly_increases(62, (s - 1) as nat);
                }
                lemma_pow2_unfold(s as nat);
                vstd::arithmetic::div_mod::lemma_basic_div(
                    255 * m + pow2((s - 1) as nat),
                    pow2(s as nat) as int,
                );
            }
            0
        } else {
            proof {
                lemma_pow2_strictly_increases((s - 1) as nat, 62);
                lemma_u64_shl_is_mul(1, (s - 1) as u64);
            }
            let half: u64 = 1u64 << (s - 1);
            let sum: u64 = 255 * m + half;
            let q: u64 = sum >> s;
            proof {
                lemma_u64_shr_is_div(sum, s);
                lemma_pow2_unfold(s as nat);
                if s > 53 {
                    lemma_pow2_strictly_increases(53, s as nat);
                }
                let p = pow2(s as nat) as int;
                let x = sum as int;
                assert(x < 256 * p);
                assert(x / p < 256) by (nonlinear_arith)
                    requires
                        0 <= x < 256 * p,
                        p > 0,
                ;
            }
            q as u8
        }
    }
}

/// No channel is written as more than 255.
pub proof fn lemma_channel_byte_fits(bits: u64)
    ensures
        channel_byte(bits) <= 255,
{
    if HIDDEN_BIT <= bits < ONE_BITS {
        let s = downshift(bits);
        let p = pow2(s) as int;
        let x = (255 * significand(bits) + pow2((s - 1) as nat)) as int;
        lemma_pow2_unfold(s);
        lemma2_to64_rest();
        if s > 53 {
            lemma_pow2_strictly_increases(53, s);
        }
        assert(x / p < 256) by (nonlinear_arith)
            requires
                0 <= x < 256 * p,
                p > 0,
        ;
    }
}

/// Brighter channels are never written darker: among the patterns of
/// numbers at or above zero, a greater one gives at least the same byte.
pub proof fn lemma_channel_byte_monotone(a: u64, b: u64)
    requires
        a <= b <= INFINITY_BITS,
    ensures
        channel_byte(a) <= channel_byte(b),
{
    lemma_channel_byte_fits(a);
    if HIDDEN_BIT <= a && b < ONE_BITS {
        let sa = downshift(a);
        let sb = downshift(b);
        let pa = pow2(sa) as int;
        let pb = pow2(sb) as int;
        let xa = (255 * significand(a) + pow2((sa - 1) as nat)) as int;
        let xb = (255 * significand(b) + pow2((sb - 1) as nat)) as int;
        lemma_pow2_pos(sa);
        lemma_pow2_pos(sb);
        if sa == sb {
            vstd::arithmetic::div_mod::lemma_div_is_ordered(xa, xb, pa);
        } else {
            let d = (sa - sb) as nat;
            let c = pow2(d) as int;
            let ma = significand(a) as int;
            let mb = significand(b) as int;
            let hb = pow2((sb - 1) as nat) as int;
            lemma_pow2_adds(d, sb);
            lemma_pow2_adds(d, (sb - 1) as nat);
            lemma_pow2_unfold(d);
            lemma_pow2_pos((d - 1) as nat);
            assert(c * xb == 255 * (c * mb) + c * hb) by (nonlinear_arith)
                requires
                    xb == 255 * mb + hb,
            ;
            assert(c * mb >= ma) by (nonlinear_arith)
                requires
                    c >= 2,
                    2 * mb >= ma,
                    mb >= 0,
            ;
            vstd::arithmetic::div_mod::lemma_div_multiples_vanish_quotient(c, xb, pb);
            vstd::arithmetic::div_mod::lemma_div_is_ordered(xa, c * xb, pa);
        }
    }
}

/// Whether `bits` is the pattern of the binary64 number nearest to `k / 255`.
///
/// For `k` strictly between 0 and 255 this asks two things of a normal
/// pattern below `1.0`, with significand `m` and binary point `s`: that
/// `k / 255` lies in its binade, `2^52 <= (k / 255) * 2^s < 2^53`, and that
/// `m` is within half a unit of `(k / 255) * 2^s`.
pub open spec fn is_unit_fraction(k: u8, bits: u64) -> bool {
    if k == 0 {
        bits == ZERO_BITS
    } else if k == 255 {
        bits == ONE_BITS
    } else {
        &&& HIDDEN_BIT <= bits < ONE_BITS
        &&& 255 * pow2(52) <= k * pow2(downshift(bits)) < 255 * pow2(53)
        &&& 2 * (255 * significand(bits) - k * pow2(downshift(bits))) <= 255
        &&& 2 * (k * pow2(downshift(bits)) - 255 * significand(bits)) <= 255
    }
}

/// The radiance of an 8-bit sample: the pattern of the number nearest to
/// `k / 255`.
pub fn unit_fraction(k: u8) -> (bits: u64)
    ensures
        is_unit_fraction(k, bits),
{
    if k == 0 {
        ZERO_BITS
    } else if k == 255 {
        ONE_BITS
    } else {
        proof {
            lemma2_to64();
            lemma2_to64_rest();
        }
        let mut scaled: u64 = 2 * (k as u64);
        let mut j: u64 = 1;
        while scaled < 255
            invariant
                1 <= j <= 8,
                1 <= k < 255,
                scaled == k * pow2(j as nat),
                2 <= scaled < 510,
                pow2(8) == 256,
            decreases 510 - scaled,
        {
            proof {
                lemma_pow2_unfold((j + 1) as nat);
                if j == 8 {
                    assert(k * pow2(8) >= 256) by (nonlinear_arith)
                        requires
                            pow2(8) == 256,
                            k >= 1,
                    ;
                }
                assert(k * (2 * pow2(j as nat)) == 2 * (k * pow2(j as nat))) by (nonlinear_arith);
            }
            scaled = 2 * scaled;
            j = j + 1;
        }
        let numerator: u64 = scaled * HIDDEN_BIT;
        let m: u64 = (2 * numerator + 255) / 510;
        let bits: u64 = (1023 - j) * HIDDEN_BIT + (m - HIDDEN_BIT);
        proof {
            lemma_pow2_adds(j as nat, 52);
            assert(k * (pow2(j as nat) * pow2(52)) == (k * pow2(j as nat)) * pow2(52))
                by (nonlinear_arith);
            assert(downshift(bits) == 52 + j);
            assert(significand(bits) == m);
            assert(numerator == k * pow2(downshift(bits)));
        }
        bits
    }
}

/// The pattern of the number nearest to `k / 255` is unique.
pub proof fn lemma_unit_fraction_unique(k: u8, a: u64, b: u64)
    requires
        is_unit_fraction(k, a),
        is_unit_fraction(k, b),
    ensures
        a == b,
{
    if 0 < k < 255 {
        let sa = downshift(a);
        let sb = downshift(b);
        lemma2_to64_rest();
        if sa < sb {
            lemma_binades_apart(k as int, sa, sb);
        }
        if sb < sa {
            lemma_binades_apart(k as int, sb, sa);
        }
        assert(sa == sb);
        assert(significand(a) == significand(b));
    }
}

/// An 8-bit sample turned into radiance and written out again is itself.
pub proof fn lemma_sample_round_trip(k: u8, bits: u64)
    requires
        is_unit_fraction(k, bits),
    ensures
        channel_byte(bits) == k,
{
    if 0 < k < 255 {
        let s = downshift(bits);
        let p = pow2(s) as int;
        let h = pow2((s - 1) as nat) as int;
        let r = 255 * significand(bits) - k * p + h;
        lemma_pow2_unfold(s);
        lemma2_to64_rest();
        if s > 53 {
            lemma_pow2_strictly_increases(52, (s - 1) as nat);
        }
        assert((k * p + r) / p == k) by (nonlinear_arith)
            requires
                0 <= r < p,
        ;
    }
}

proof fn lemma_binades_apart(k: int, low: nat, high: nat)
    requires
        k > 0,
        low < high,
        255 * pow2(52) <= k * pow2(low),
    ensures
        255 * pow2(53) <= k * pow2(high),
{
    if low + 1 < high {
        lemma_pow2_strictly_increases(low + 1, high);
    }
    lemma_pow2_unfold(low + 1);
    lemma_pow2_unfold(53);
    let p = pow2(low) as int;
    let q = pow2(high) as int;
    assert(k * q >= 2 * (k * p)) by (nonlinear_arith)
        requires
            k > 0,
            q >= 2 * p,
    ;
}

/// An RGB radiance triple.
///
/// Each channel holds the IEEE-754 binary64 bit pattern of its value, as
/// `f64::to_bits` gives it. Channels are conceptually in `[0, 1]` but may
/// exceed 1 while samples accumulate.
#[derive(Clone, Copy, Debug, PartialEq, Eq, Structural)]
pub struct Color {
    pub r: u64,
    pub g: u64,
    pub b: u64,
}

impl Color {
    /// A colour from the bit patterns of its three channels.
    pub fn new(r: u64, g: u64, b: u64) -> (c: Color)
        ensures
            c == (Color { r, g, b }),
    {
        Color { r, g, b }
    }

    /// The colour whose three channels are `0.0`.
    pub open spec fn black_spec() -> Color {
        Color { r: ZERO_BITS, g: ZERO_BITS, b: ZERO_BITS }
    }

    /// The colour whose three channels are `0.0`.
    #[verifier::when_used_as_spec(black_spec)]
    pub fn black() -> (c: Color)
        ensures
            c == Color::black_spec(),
    {
        Color { r: ZERO_BITS, g: ZERO_BITS, b: ZERO_BITS }
    }

    /// Whether all three channels are numbers, none of them infinite.
    pub open spec fn is_finite(self) -> bool {
        is_finite(self.r) && is_finite(self.g) && is_finite(self.b)
    }

    /// Decides `is_finite`; a colour that is not finite must not reach the
    /// image.
    pub fn finite(&self) -> (r: bool)
        ensures
            r == self.is_finite(),
    {
        finite(self.r) && finite(self.g) && finite(self.b)
    }

    /// Whether this colour is the radiance of `pixel`: each channel the
    /// number nearest to the sample over 255.
    pub open spec fn is_radiance_of(self, pixel: Rgb8) -> bool {
        &&& is_unit_fraction(pixel.r, self.r)
        &&& is_unit_fraction(pixel.g, self.g)
        &&& is_unit_fraction(pixel.b, self.b)
    }

    /// The radiance of an 8-bit pixel: each sample scaled to `[0, 1]`.
    pub fn from_rbg(r: u8, g: u8, b: u8) -> (c: Color)
        ensures
            c.is_radiance_of(Rgb8 { r, g, b }),
    {
        Color { r: unit_fraction(r), g: unit_fraction(g), b: unit_fraction(b) }
    }

    /// The pixel this colour is written as.
    pub open spec fn rgb(self) -> Rgb8 {
        Rgb8 {
            r: channel_byte(self.r) as u8,
            g: channel_byte(self.g) as u8,
            b: channel_byte(self.b) as u8,
        }
    }

    /// The colour as an 8-bit pixel, each channel clamped to `[0, 1]` first.
    pub fn to_rgb(&self) -> (p: Rgb8)
        ensures
            p == self.rgb(),
            p.r == channel_byte(self.r),
            p.g == channel_byte(self.g),
            p.b == channel_byte(self.b),
    {
        Rgb8 { r: quantize(self.r), g: quantize(self.g), b: quantize(self.b) }
    }
}

} // verus!
