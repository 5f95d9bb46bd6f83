//! Re-quantization of a color channel from one bit depth to another.

use vstd::prelude::*;
use vstd::arithmetic::power2::{pow2, lemma_pow2_adds, lemma_pow2_pos, lemma2_to64};
use vstd::arithmetic::power2::lemma_pow2_strictly_increases;
use vstd::arithmetic::div_mod::{lemma_fundamental_div_mod_converse, lemma_small_mod};
use vstd::bits::{lemma_u64_shl_is_mul, lemma_u64_shr_is_div};
use crate::binary_color::BinaryColor;
use crate::gray_color::GrayColor;
use crate::pixel_color::PixelColor;
use crate::rgb_color::RgbColor;

verus! {

/// The value of a channel of `from_bits` bits when it is expressed in
/// `to_bits` bits.
///
/// Narrowing keeps the `to_bits` most significant bits. Widening moves the
/// value to the top of the wider channel and fills the bits that open below
/// it with the value expressed in that many bits, so the source's bit pattern
/// repeats downwards.
pub open spec fn requantize(value: nat, from_bits: nat, to_bits: nat) -> nat
    decreases to_bits,
{
    if from_bits == 0 {
        0
    } else if to_bits <= from_bits {
        value / pow2((from_bits - to_bits) as nat)
    } else {
        value * pow2((to_bits - from_bits) as nat) + requantize(
            value,
            from_bits,
            (to_bits - from_bits) as nat,
        )
    }
}

/// The largest value of a channel of `bits` bits: all ones.
pub open spec fn channel_max(bits: nat) -> nat {
    (pow2(bits) - 1) as nat
}

proof fn lemma_div_below(v: nat, a: nat, b: nat)
    requires
        b > 0,
        v < a * b,
    ensures
        v / b < a,
{
    assert(v / b < a) by (nonlinear_arith)
        requires
            b > 0,
            v < a * b,
    ;
}

proof fn lemma_div_ordered(a: nat, b: nat, d: nat)
    requires
        d > 0,
        a <= b,
    ensures
        a / d <= b / d,
{
    assert(a / d <= b / d) by (nonlinear_arith)
        requires
            d > 0,
            a <= b,
    ;
}

proof fn lemma_max_div(a: nat, b: nat)
    requires
        a > 0,
        b > 0,
    ensures
        (a * b - 1) / (b as int) == a - 1,
{
    assert((a * b - 1) / (b as int) == a - 1) by (nonlinear_arith)
        requires
            a > 0,
            b > 0,
    ;
}

/// A re-quantized channel fits its destination: the result of expressing a
/// value of `from_bits` bits in `to_bits` bits is below `2^to_bits`.
pub proof fn lemma_requantize_fits(value: nat, from_bits: nat, to_bits: nat)
    requires
        value < pow2(from_bits),
    ensures
        requantize(value, from_bits, to_bits) < pow2(to_bits),
    decreases to_bits,
{
    lemma_pow2_pos(to_bits);
    if from_bits == 0 {
    } else if to_bits <= from_bits {
        let k = (from_bits - to_bits) as nat;
        lemma_pow2_adds(to_bits, k);
        lemma_pow2_pos(k);
        lemma_div_below(value, pow2(to_bits), pow2(k));
    } else {
        let k = (to_bits - from_bits) as nat;
        lemma_requantize_fits(value, from_bits, k);
        lemma_pow2_adds(from_bits, k);
        assert(value * pow2(k) + pow2(k) <= pow2(from_bits) * pow2(k)) by (nonlinear_arith)
            requires
                value < pow2(from_bits),
        ;
    }
}

/// Re-quantization preserves order: of two values of one channel, the smaller
/// never comes out above the larger. This holds of narrowing, which drops
/// low bits, and of widening alike.
pub proof fn lemma_requantize_preserves_order(a: nat, b: nat, from_bits: nat, to_bits: nat)
    requires
        a <= b,
    ensures
        requantize(a, from_bits, to_bits) <= requantize(b, from_bits, to_bits),
    decreases to_bits,
{
    if from_bits == 0 {
    } else if to_bits <= from_bits {
        let k = (from_bits - to_bits) as nat;
        lemma_pow2_pos(k);
        lemma_div_ordered(a, b, pow2(k));
    } else {
        let k = (to_bits - from_bits) as nat;
        lemma_requantize_preserves_order(a, b, from_bits, k);
        assert(a * pow2(k) <= b * pow2(k)) by (nonlinear_arith)
            requires
                a <= b,
        ;
    }
}

/// Narrowing preserves order: `a <= b` implies that the narrowed `a` is at
/// most the narrowed `b`.
pub proof fn lemma_narrowing_preserves_order(a: nat, b: nat, from_bits: nat, to_bits: nat)
    requires
        a <= b,
        to_bits <= from_bits,
    ensures
        requantize(a, from_bits, to_bits) <= requantize(b, from_bits, to_bits),
{
    lemma_requantize_preserves_order(a, b, from_bits, to_bits);
}

/// An all-zero channel stays all zero at every destination width.
pub proof fn lemma_requantize_zero(from_bits: nat, to_bits: nat)
    ensures
        requantize(0, from_bits, to_bits) == 0,
    decreases to_bits,
{
    if from_bits == 0 {
    } else if to_bits <= from_bits {
        let k = (from_bits - to_bits) as nat;
        lemma_pow2_pos(k);
        lemma_div_below(0, 1, pow2(k));
    } else {
        let k = (to_bits - from_bits) as nat;
        lemma_requantize_zero(from_bits, k);
        assert(0 * pow2(k) == 0) by (nonlinear_arith);
    }
}

/// An all-ones channel stays all ones: the largest value of `from_bits` bits
/// becomes the largest value of `to_bits` bits, narrowing or widening.
pub proof fn lemma_requantize_max(from_bits: nat, to_bits: nat)
    requires
        from_bits >= 1,
    ensures
        requantize(channel_max(from_bits), from_bits, to_bits) == channel_max(to_bits),
    decreases to_bits,
{
    lemma_pow2_pos(from_bits);
    lemma_pow2_pos(to_bits);
    if to_bits <= from_bits {
        let k = (from_bits - to_bits) as nat;
        lemma_pow2_adds(to_bits, k);
        lemma_pow2_pos(k);
        lemma_max_div(pow2(to_bits), pow2(k));
    } else {
        let k = (to_bits - from_bits) as nat;
        lemma_requantize_max(from_bits, k);
        lemma_pow2_adds(from_bits, k);
        lemma_pow2_pos(k);
        assert((pow2(from_bits) - 1) * pow2(k) + (pow2(k) - 1) == pow2(from_bits) * pow2(k) - 1)
            by (nonlinear_arith);
    }
}

/// A channel expressed at its own width is unchanged.
pub proof fn lemma_requantize_same_width(value: nat, bits: nat)
    requires
        bits >= 1,
    ensures
        requantize(value, bits, bits) == value,
{
    lemma2_to64();
    assert((bits - bits) as nat == 0);
    assert(value / 1 == value);
}

/// Expresses a channel value of `from_bits` bits in `to_bits` bits.
pub fn convert_channel(value: u32, from_bits: u32, to_bits: u32) -> (out: u32)
    requires
        1 <= from_bits <= 32,
        1 <= to_bits <= 32,
        value < pow2(from_bits as nat),
    ensures
        out == requantize(value as nat, from_bits as nat, to_bits as nat),
        out < pow2(to_bits as nat),
{
    proof {
        lemma_requantize_fits(value as nat, from_bits as nat, to_bits as nat);
    }
    let source: u64 = value as u64;
    let width: u64 = from_bits as u64;
    let mut filled: u64 = 0;
    let mut open: u64 = to_bits as u64;
    proof {
        lemma2_to64();
        assert(0 * pow2(open as nat) == 0) by (nonlinear_arith);
    }
    while open > width
        invariant
            1 <= width == from_bits <= 32,
            open <= to_bits <= 32,
            source == value,
            value < pow2(from_bits as nat),
            filled * pow2(open as nat) + requantize(value as nat, from_bits as nat, open as nat)
                == requantize(value as nat, from_bits as nat, to_bits as nat),
            filled < pow2((to_bits - open) as nat),
        decreases open,
    {
        let ghost rest = (open - width) as nat;
        proof {
            let done = (to_bits - open) as nat;
            lemma_pow2_adds(done, width as nat);
            lemma_pow2_adds(rest, width as nat);
            lemma_pow2_adds((done + width) as nat, rest);
            lemma_pow2_pos(rest);
            lemma2_to64();
            assert(pow2((done + width) as nat) <= pow2(32)) by {
                if done + width < 32 {
                    lemma_pow2_strictly_increases(
                        (done + width) as nat,
                        32,
                    );
                }
            }
            assert(filled * pow2(width as nat) + value < pow2(done) * pow2(width as nat))
                by (nonlinear_arith)
                requires
                    filled < pow2(done),
                    value < pow2(width as nat),
            ;
            lemma_u64_shl_is_mul(filled, width);
            assert((filled * pow2(width as nat) + value) * pow2(rest) == filled * (pow2(rest)
                * pow2(width as nat)) + value * pow2(rest)) by (nonlinear_arith);
        }
        filled = (filled << width) + source;
        open = open - width;
    }
    let drop: u64 = width - open;
    proof {
        let done = (to_bits - open) as nat;
        lemma_pow2_adds(done, open as nat);
        lemma_pow2_pos(open as nat);
        lemma2_to64();
        lemma_requantize_fits(value as nat, from_bits as nat, open as nat);
        assert(filled * pow2(open as nat) + pow2(open as nat) <= pow2(done) * pow2(open as nat))
            by (nonlinear_arith)
            requires
                filled < pow2(done),
        ;
        assert(pow2(to_bits as nat) <= pow2(32)) by {
            if to_bits < 32 {
                lemma_pow2_strictly_increases(to_bits as nat, 32);
            }
        }
        lemma_u64_shl_is_mul(filled, open);
        lemma_u64_shr_is_div(source, drop);
    }
    let out: u64 = (filled << open) + (source >> drop);
    out as u32
}

/// Re-quantization loses nothing where it need not: a value widened and then
/// narrowed back to its own width is the value again.
pub proof fn lemma_widening_is_lossless(value: nat, from_bits: nat, to_bits: nat)
    requires
        from_bits >= 1,
        from_bits <= to_bits,
        value < pow2(from_bits),
    ensures
        requantize(requantize(value, from_bits, to_bits), to_bits, from_bits) == value,
{
    if to_bits == from_bits {
        lemma_requantize_same_width(value, from_bits);
    } else {
        let k = (to_bits - from_bits) as nat;
        let fill = requantize(value, from_bits, k);
        lemma_requantize_fits(value, from_bits, k);
        lemma_pow2_pos(k);
        lemma_fundamental_div_mod_converse(
            (value * pow2(k) + fill) as int,
            pow2(k) as int,
            value as int,
            fill as int,
        );
    }
}

/// A channel of at most 8 bits holds less than 256.
proof fn lemma_byte_channel(bits: nat)
    requires
        bits <= 8,
    ensures
        0 < pow2(bits) <= 256,
{
    lemma2_to64();
    lemma_pow2_pos(bits);
    if bits < 8 {
        lemma_pow2_strictly_increases(bits, 8);
    }
}

/// Expresses a channel value of `from_bits` bits in `to_bits` bits, for
/// channels that fit a byte.
pub fn convert_byte_channel(value: u8, from_bits: u32, to_bits: u32) -> (out: u8)
    requires
        1 <= from_bits <= 8,
        1 <= to_bits <= 8,
        value < pow2(from_bits as nat),
    ensures
        out == requantize(value as nat, from_bits as nat, to_bits as nat),
        out < pow2(to_bits as nat),
{
    proof {
        lemma_byte_channel(to_bits as nat);
    }
    let wide: u32 = convert_channel(value as u32, from_bits, to_bits);
    wide as u8
}

/// The intensity that a binary color has in a channel of `bits` bits: the
/// largest for `On`, zero for `Off`.
pub open spec fn binary_level(color: BinaryColor, bits: nat) -> nat {
    if color == BinaryColor::On {
        channel_max(bits)
    } else {
        0
    }
}

/// The level of a binary color in a channel of `to_bits` bits.
fn binary_channel(color: BinaryColor, to_bits: u32) -> (out: u8)
    requires
        1 <= to_bits <= 8,
    ensures
        out == binary_level(color, to_bits as nat),
        out < pow2(to_bits as nat),
{
    proof {
        lemma2_to64();
        lemma_requantize_max(1, to_bits as nat);
        lemma_requantize_zero(1, to_bits as nat);
    }
    let bit: u8 = if color.is_on() {
        1
    } else {
        0
    };
    convert_byte_channel(bit, 1, to_bits)
}

/// A binary color as a gray: white for `On`, black for `Off`.
pub fn binary_to_gray<D: GrayColor>(color: BinaryColor) -> (out: D)
    ensures
        out.valid(),
        out.luma_value() == binary_level(color, D::depth()),
{
    let luma: u8 = binary_channel(color, D::luma_bits());
    proof {
        lemma_small_mod(luma as nat, pow2(D::depth()));
    }
    D::with_luma(luma)
}

/// A binary color as an RGB color: every channel at its largest for `On`, at
/// zero for `Off`.
pub fn binary_to_rgb<D: RgbColor>(color: BinaryColor) -> (out: D)
    ensures
        out.valid(),
        out.red_value() == binary_level(color, D::red_depth()),
        out.green_value() == binary_level(color, D::green_depth()),
        out.blue_value() == binary_level(color, D::blue_depth()),
{
    let bits: (u32, u32, u32) = D::channel_bits();
    let red: u8 = binary_channel(color, bits.0);
    let green: u8 = binary_channel(color, bits.1);
    let blue: u8 = binary_channel(color, bits.2);
    proof {
        lemma_small_mod(red as nat, pow2(D::red_depth()));
        lemma_small_mod(green as nat, pow2(D::green_depth()));
        lemma_small_mod(blue as nat, pow2(D::blue_depth()));
    }
    D::with_channels(red, green, blue)
}

/// A gray at another bit depth: its intensity re-quantized.
pub fn gray_to_gray<S: GrayColor, D: GrayColor>(color: S) -> (out: D)
    ensures
        out.valid(),
        out.luma_value() == requantize(color.luma_value(), S::depth(), D::depth()),
{
    let luma: u8 = convert_byte_channel(color.luma(), S::luma_bits(), D::luma_bits());
    proof {
        lemma_small_mod(luma as nat, pow2(D::depth()));
    }
    D::with_luma(luma)
}

/// A gray as a binary color: its intensity narrowed to one bit, so the upper
/// half of the intensities is `On` and the lower half `Off`.
pub fn gray_to_binary<S: GrayColor>(color: S) -> (out: BinaryColor)
    ensures
        out == BinaryColor::decoding(requantize(color.luma_value(), S::depth(), 1)),
{
    let bit: u8 = convert_byte_channel(color.luma(), S::luma_bits(), 1);
    BinaryColor::from_bool(bit != 0)
}

/// A gray as an RGB color: its intensity in each channel, re-quantized to
/// that channel's width.
pub fn gray_to_rgb<S: GrayColor, D: RgbColor>(color: S) -> (out: D)
    ensures
        out.valid(),
        out.red_value() == requantize(color.luma_value(), S::depth(), D::red_depth()),
        out.green_value() == requantize(color.luma_value(), S::depth(), D::green_depth()),
        out.blue_value() == requantize(color.luma_value(), S::depth(), D::blue_depth()),
{
    let from: u32 = S::luma_bits();
    let to: (u32, u32, u32) = D::channel_bits();
    let luma: u8 = color.luma();
    let red: u8 = convert_byte_channel(luma, from, to.0);
    let green: u8 = convert_byte_channel(luma, from, to.1);
    let blue: u8 = convert_byte_channel(luma, from, to.2);
    proof {
        lemma_small_mod(red as nat, pow2(D::red_depth()));
        lemma_small_mod(green as nat, pow2(D::green_depth()));
        lemma_small_mod(blue as nat, pow2(D::blue_depth()));
    }
    D::with_channels(red, green, blue)
}

/// An RGB color in another RGB format: each channel re-quantized from its
/// width in the source to its width in the destination.
pub fn rgb_to_rgb<S: RgbColor, D: RgbColor>(color: S) -> (out: D)
    ensures
        out.valid(),
        out.red_value() == requantize(color.red_value(), S::red_depth(), D::red_depth()),
        out.green_value() == requantize(color.green_value(), S::green_depth(), D::green_depth()),
        out.blue_value() == requantize(color.blue_value(), S::blue_depth(), D::blue_depth()),
{
    let from: (u32, u32, u32) = S::channel_bits();
    let to: (u32, u32, u32) = D::channel_bits();
    let red: u8 = convert_byte_channel(color.r(), from.0, to.0);
    let green: u8 = convert_byte_channel(color.g(), from.1, to.1);
    let blue: u8 = convert_byte_channel(color.b(), from.2, to.2);
    proof {
        lemma_small_mod(red as nat, pow2(D::red_depth()));
        lemma_small_mod(green as nat, pow2(D::green_depth()));
        lemma_small_mod(blue as nat, pow2(D::blue_depth()));
    }
    D::with_channels(red, green, blue)
}

} // verus!
