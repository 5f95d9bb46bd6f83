//! RGB colors: three channels, red above green above blue in the payload.

use vstd::prelude::*;
use vstd::arithmetic::div_mod::lemma_fundamental_div_mod_converse;
use vstd::arithmetic::power2::{pow2, lemma2_to64};
use vstd::std_specs::convert::FromSpecImpl;
use crate::pixel_color::PixelColor;
use crate::raw::{RawData, RawU16, RawU24};

verus! {

/// A color of a red, a green and a blue channel.
pub trait RgbColor: PixelColor {
    /// The width of the red channel in bits.
    spec fn red_depth() -> nat;

    /// The width of the green channel in bits.
    spec fn green_depth() -> nat;

    /// The width of the blue channel in bits.
    spec fn blue_depth() -> nat;

    /// The red channel, as a number.
    spec fn red_value(self) -> nat;

    /// The green channel, as a number.
    spec fn green_value(self) -> nat;

    /// The blue channel, as a number.
    spec fn blue_value(self) -> nat;

    /// The widths of the red, green and blue channels in bits.
    fn channel_bits() -> (bits: (u32, u32, u32))
        ensures
            bits.0 == Self::red_depth(),
            bits.1 == Self::green_depth(),
            bits.2 == Self::blue_depth(),
            1 <= bits.0 <= 8,
            1 <= bits.1 <= 8,
            1 <= bits.2 <= 8,
    ;

    /// The red channel. It is always below `2^red_depth()`.
    fn r(&self) -> (red: u8)
        ensures
            red == self.red_value(),
            red < pow2(Self::red_depth()),
    ;

    /// The green channel. It is always below `2^green_depth()`.
    fn g(&self) -> (green: u8)
        ensures
            green == self.green_value(),
            green < pow2(Self::green_depth()),
    ;

    /// The blue channel. It is always below `2^blue_depth()`.
    fn b(&self) -> (blue: u8)
        ensures
            blue == self.blue_value(),
            blue < pow2(Self::blue_depth()),
    ;

    /// The color whose channels are the low bits of `red`, `green` and
    /// `blue`, as many of each as the channel is wide.
    fn with_channels(red: u8, green: u8, blue: u8) -> (color: Self)
        ensures
            color.valid(),
            color.red_value() == red as nat % pow2(Self::red_depth()),
            color.green_value() == green as nat % pow2(Self::green_depth()),
            color.blue_value() == blue as nat % pow2(Self::blue_depth()),
    ;
}

/// An RGB color of 5 bits of red, 5 of green and 5 of blue;
/// the top bit of the 16 is unused, written as zero and ignored when read.
#[derive(Clone, Copy, Debug, PartialEq, Eq, Structural, PartialOrd, Ord, Hash)]
pub struct Rgb555 {
    red: u8,
    green: u8,
    blue: u8,
}

impl Rgb555 {
    #[verifier::type_invariant]
    spec fn fits(self) -> bool {
        self.red < 32 && self.green < 32 && self.blue < 32
    }

    /// The red channel, as a number.
    pub closed spec fn red_spec(self) -> nat {
        self.red as nat
    }

    /// The green channel, as a number.
    pub closed spec fn green_spec(self) -> nat {
        self.green as nat
    }

    /// The blue channel, as a number.
    pub closed spec fn blue_spec(self) -> nat {
        self.blue as nat
    }

    /// The color of the given channels; of each, the bits above the
    /// channel's width are dropped.
    pub fn new(red: u8, green: u8, blue: u8) -> (color: Self)
        ensures
            color.valid(),
            color.red_spec() == red % 32,
            color.green_spec() == green % 32,
            color.blue_spec() == blue % 32,
    {
        Rgb555 { red: red % 32, green: green % 32, blue: blue % 32 }
    }

    /// Black: every channel zero.
    pub fn black() -> (color: Self)
        ensures
            color.valid(),
            color.red_spec() == 0,
            color.green_spec() == 0,
            color.blue_spec() == 0,
    {
        Rgb555 { red: 0, green: 0, blue: 0 }
    }

    /// White: every channel at its largest value.
    pub fn white() -> (color: Self)
        ensures
            color.valid(),
            color.red_spec() == 31,
            color.green_spec() == 31,
            color.blue_spec() == 31,
    {
        Rgb555 { red: 31, green: 31, blue: 31 }
    }

    /// A payload decodes channel by channel: blue from its low 5 bits, green
    /// from the 5 above them, red from the 5 above those.
    pub proof fn lemma_decoding(payload: nat)
        ensures
            Self::decoding(payload).valid(),
            Self::decoding(payload).red_spec() == payload / 1024 % 32,
            Self::decoding(payload).green_spec() == payload / 32 % 32,
            Self::decoding(payload).blue_spec() == payload % 32,
    {
    }

    /// Two colors of the same channels are the same color.
    pub proof fn lemma_channels_determine(self, other: Self)
        requires
            self.red_spec() == other.red_spec(),
            self.green_spec() == other.green_spec(),
            self.blue_spec() == other.blue_spec(),
        ensures
            self == other,
    {
    }
}

impl PixelColor for Rgb555 {
    type Raw = RawU16;

    open spec fn valid(self) -> bool {
        &&& self.red_spec() <= 31
        &&& self.green_spec() <= 31
        &&& self.blue_spec() <= 31
    }

    open spec fn encoding(self) -> nat {
        self.red_spec() * 1024 + self.green_spec() * 32 + self.blue_spec()
    }

    closed spec fn decoding(payload: nat) -> Self {
        Rgb555 {
            red: (payload / 1024 % 32) as u8,
            green: (payload / 32 % 32) as u8,
            blue: (payload % 32) as u8,
        }
    }

    fn into_raw(self) -> (raw: RawU16) {
        proof {
            use_type_invariant(&self);
        }
        let red: u16 = self.red as u16;
        let green: u16 = self.green as u16;
        let blue: u16 = self.blue as u16;
        RawU16::new(red * 1024 + green * 32 + blue)
    }

    fn from_raw(raw: RawU16) -> (color: Self)
        ensures
            color.red_spec() == raw.payload() / 1024 % 32,
            color.green_spec() == raw.payload() / 32 % 32,
            color.blue_spec() == raw.payload() % 32,
    {
        let payload: u16 = raw.into_inner();
        Rgb555 {
            red: (payload / 1024 % 32) as u8,
            green: (payload / 32 % 32) as u8,
            blue: (payload % 32) as u8,
        }
    }

    proof fn lemma_encoding_fits(self) {
        lemma2_to64();
    }

    proof fn lemma_round_trip(self) {
        let red = self.red_spec() as int;
        let green = self.green_spec() as int;
        let blue = self.blue_spec() as int;
        let payload = self.encoding() as int;
        lemma_fundamental_div_mod_converse(payload, 1024, red, green * 32 + blue);
        lemma_fundamental_div_mod_converse(payload, 32, red * 32 + green, blue);
        lemma_fundamental_div_mod_converse(red * 32 + green, 32, red, green);
    }

    proof fn lemma_std_conversions(self, raw: RawU16) {
        lemma2_to64();
        RawU16::lemma_of_payload(self.encoding());
    }
}

impl RgbColor for Rgb555 {
    open spec fn red_depth() -> nat {
        5
    }

    open spec fn green_depth() -> nat {
        5
    }

    open spec fn blue_depth() -> nat {
        5
    }

    open spec fn red_value(self) -> nat {
        self.red_spec()
    }

    open spec fn green_value(self) -> nat {
        self.green_spec()
    }

    open spec fn blue_value(self) -> nat {
        self.blue_spec()
    }

    fn channel_bits() -> (bits: (u32, u32, u32)) {
        (5, 5, 5)
    }

    fn r(&self) -> (red: u8)
        ensures
            red <= 31,
    {
        proof {
            use_type_invariant(self);
            lemma2_to64();
        }
        self.red
    }

    fn g(&self) -> (green: u8)
        ensures
            green <= 31,
    {
        proof {
            use_type_invariant(self);
            lemma2_to64();
        }
        self.green
    }

    fn b(&self) -> (blue: u8)
        ensures
            blue <= 31,
    {
        proof {
            use_type_invariant(self);
            lemma2_to64();
        }
        self.blue
    }

    fn with_channels(red: u8, green: u8, blue: u8) -> (color: Self) {
        proof {
            lemma2_to64();
            assert(pow2(5) == 32 && pow2(5) == 32 && pow2(5) == 32);
        }
        Rgb555::new(red, green, blue)
    }
}

impl From<RawU16> for Rgb555 {
    fn from(raw: RawU16) -> (color: Rgb555) {
        Rgb555::from_raw(raw)
    }
}

impl FromSpecImpl<RawU16> for Rgb555 {
    open spec fn obeys_from_spec() -> bool {
        true
    }

    open spec fn from_spec(raw: RawU16) -> Rgb555 {
        Rgb555::decoding(raw.payload())
    }
}

impl From<Rgb555> for RawU16 {
    fn from(color: Rgb555) -> (raw: RawU16) {
        let raw = color.into_raw();
        proof {
            color.lemma_encoding_fits();
            lemma2_to64();
            raw.lemma_from_payload();
        }
        raw
    }
}

impl FromSpecImpl<Rgb555> for RawU16 {
    open spec fn obeys_from_spec() -> bool {
        true
    }

    open spec fn from_spec(color: Rgb555) -> RawU16 {
        RawU16::of_payload(color.encoding())
    }
}

/// An RGB color of 5 bits of red, 6 of green and 5 of blue.
#[derive(Clone, Copy, Debug, PartialEq, Eq, Structural, PartialOrd, Ord, Hash)]
pub struct Rgb565 {
    red: u8,
    green: u8,
    blue: u8,
}

impl Rgb565 {
    #[verifier::type_invariant]
    spec fn fits(self) -> bool {
        self.red < 32 && self.green < 64 && self.blue < 32
    }

    /// The red channel, as a number.
    pub closed spec fn red_spec(self) -> nat {
        self.red as nat
    }

    /// The green channel, as a number.
    pub closed spec fn green_spec(self) -> nat {
        self.green as nat
    }

    /// The blue channel, as a number.
    pub closed spec fn blue_spec(self) -> nat {
        self.blue as nat
    }

    /// The color of the given channels; of each, the bits above the
    /// channel's width are dropped.
    pub fn new(red: u8, green: u8, blue: u8) -> (color: Self)
        ensures
            color.valid(),
            color.red_spec() == red % 32,
            color.green_spec() == green % 64,
            color.blue_spec() == blue % 32,
    {
        Rgb565 { red: red % 32, green: green % 64, blue: blue % 32 }
    }

    /// Black: every channel zero.
    pub fn black() -> (color: Self)
        ensures
            color.valid(),
            color.red_spec() == 0,
            color.green_spec() == 0,
            color.blue_spec() == 0,
    {
        Rgb565 { red: 0, green: 0, blue: 0 }
    }

    /// White: every channel at its largest value.
    pub fn white() -> (color: Self)
        ensures
            color.valid(),
            color.red_spec() == 31,
            color.green_spec() == 63,
            color.blue_spec() == 31,
    {
        Rgb565 { red: 31, green: 63, blue: 31 }
    }

    /// A payload decodes channel by channel: blue from its low 5 bits, green
    /// from the 6 above them, red from the 5 above those.
    pub proof fn lemma_decoding(payload: nat)
        ensures
            Self::decoding(payload).valid(),
            Self::decoding(payload).red_spec() == payload / 2048 % 32,
            Self::decoding(payload).green_spec() == payload / 32 % 64,
            Self::decoding(payload).blue_spec() == payload % 32,
    {
    }

    /// Two colors of the same channels are the same color.
    pub proof fn lemma_channels_determine(self, other: Self)
        requires
            self.red_spec() == other.red_spec(),
            self.green_spec() == other.green_spec(),
            self.blue_spec() == other.blue_spec(),
        ensures
            self == other,
    {
    }
}

impl PixelColor for Rgb565 {
    type Raw = RawU16;

    open spec fn valid(self) -> bool {
        &&& self.red_spec() <= 31
        &&& self.green_spec() <= 63
        &&& self.blue_spec() <= 31
    }

    open spec fn encoding(self) -> nat {
        self.red_spec() * 2048 + self.green_spec() * 32 + self.blue_spec()
    }

    closed spec fn decoding(payload: nat) -> Self {
        Rgb565 {
            red: (payload / 2048 % 32) as u8,
            green: (payload / 32 % 64) as u8,
            blue: (payload % 32) as u8,
        }
    }

    fn into_raw(self) -> (raw: RawU16) {
        proof {
            use_type_invariant(&self);
        }
        let red: u16 = self.red as u16;
        let green: u16 = self.green as u16;
        let blue: u16 = self.blue as u16;
        RawU16::new(red * 2048 + green * 32 + blue)
    }

    fn from_raw(raw: RawU16) -> (color: Self)
        ensures
            color.red_spec() == raw.payload() / 2048 % 32,
            color.green_spec() == raw.payload() / 32 % 64,
            color.blue_spec() == raw.payload() % 32,
    {
        let payload: u16 = raw.into_inner();
        Rgb565 {
            red: (payload / 2048 % 32) as u8,
            green: (payload / 32 % 64) as u8,
            blue: (payload % 32) as u8,
        }
    }

    proof fn lemma_encoding_fits(self) {
        lemma2_to64();
    }

    proof fn lemma_round_trip(self) {
        let red = self.red_spec() as int;
        let green = self.green_spec() as int;
        let blue = self.blue_spec() as int;
        let payload = self.encoding() as int;
        lemma_fundamental_div_mod_converse(payload, 2048, red, green * 32 + blue);
        lemma_fundamental_div_mod_converse(payload, 32, red * 64 + green, blue);
        lemma_fundamental_div_mod_converse(red * 64 + green, 64, red, green);
    }

    proof fn lemma_std_conversions(self, raw: RawU16) {
        lemma2_to64();
        RawU16::lemma_of_payload(self.encoding());
    }
}

impl RgbColor for Rgb565 {
    open spec fn red_depth() -> nat {
        5
    }

    open spec fn green_depth() -> nat {
        6
    }

    open spec fn blue_depth() -> nat {
        5
    }

    open spec fn red_value(self) -> nat {
        self.red_spec()
    }

    open spec fn green_value(self) -> nat {
        self.green_spec()
    }

    open spec fn blue_value(self) -> nat {
        self.blue_spec()
    }

    fn channel_bits() -> (bits: (u32, u32, u32)) {
        (5, 6, 5)
    }

    fn r(&self) -> (red: u8)
        ensures
            red <= 31,
    {
        proof {
            use_type_invariant(self);
            lemma2_to64();
        }
        self.red
    }

    fn g(&self) -> (green: u8)
        ensures
            green <= 63,
    {
        proof {
            use_type_invariant(self);
            lemma2_to64();
        }
        self.green
    }

    fn b(&self) -> (blue: u8)
        ensures
            blue <= 31,
    {
        proof {
            use_type_invariant(self);
            lemma2_to64();
        }
        self.blue
    }

    fn with_channels(red: u8, green: u8, blue: u8) -> (color: Self) {
        proof {
            lemma2_to64();
            assert(pow2(5) == 32 && pow2(6) == 64 && pow2(5) == 32);
        }
        Rgb565::new(red, green, blue)
    }
}

impl From<RawU16> for Rgb565 {
    fn from(raw: RawU16) -> (color: Rgb565) {
        Rgb565::from_raw(raw)
    }
}

impl FromSpecImpl<RawU16> for Rgb565 {
    open spec fn obeys_from_spec() -> bool {
        true
    }

    open spec fn from_spec(raw: RawU16) -> Rgb565 {
        Rgb565::decoding(raw.payload())
    }
}

impl From<Rgb565> for RawU16 {
    fn from(color: Rgb565) -> (raw: RawU16) {
        let raw = color.into_raw();
        proof {
            color.lemma_encoding_fits();
            lemma2_to64();
            raw.lemma_from_payload();
        }
        raw
    }
}

impl FromSpecImpl<Rgb565> for RawU16 {
    open spec fn obeys_from_spec() -> bool {
        true
    }

    open spec fn from_spec(color: Rgb565) -> RawU16 {
        RawU16::of_payload(color.encoding())
    }
}

/// An RGB color of 8 bits of red, 8 of green and 8 of blue.
#[derive(Clone, Copy, Debug, PartialEq, Eq, Structural, PartialOrd, Ord, Hash)]
pub struct Rgb888 {
    red: u8,
    green: u8,
    blue: u8,
}

impl Rgb888 {
    /// The red channel, as a number.
    pub closed spec fn red_spec(self) -> nat {
        self.red as nat
    }

    /// The green channel, as a number.
    pub closed spec fn green_spec(self) -> nat {
        self.green as nat
    }

    /// The blue channel, as a number.
    pub closed spec fn blue_spec(self) -> nat {
        self.blue as nat
    }

    /// The color of the given channels.
    pub fn new(red: u8, green: u8, blue: u8) -> (color: Self)
        ensures
            color.valid(),
            color.red_spec() == red,
            color.green_spec() == green,
            color.blue_spec() == blue,
    {
        Rgb888 { red: red, green: green, blue: blue }
    }

    /// Black: every channel zero.
    pub fn black() -> (color: Self)
        ensures
            color.valid(),
            color.red_spec() == 0,
            color.green_spec() == 0,
            color.blue_spec() == 0,
    {
        Rgb888 { red: 0, green: 0, blue: 0 }
    }

    /// White: every channel at its largest value.
    pub fn white() -> (color: Self)
        ensures
            color.valid(),
            color.red_spec() == 255,
            color.green_spec() == 255,
            color.blue_spec() == 255,
    {
        Rgb888 { red: 255, green: 255, blue: 255 }
    }

    /// A payload decodes channel by channel: blue from its low 8 bits, green
    /// from the 8 above them, red from the 8 above those.
    pub proof fn lemma_decoding(payload: nat)
        ensures
            Self::decoding(payload).valid(),
            Self::decoding(payload).red_spec() == payload / 65536 % 256,
            Self::decoding(payload).green_spec() == payload / 256 % 256,
            Self::decoding(payload).blue_spec() == payload % 256,
    {
    }

    /// Two colors of the same channels are the same color.
    pub proof fn lemma_channels_determine(self, other: Self)
        requires
            self.red_spec() == other.red_spec(),
            self.green_spec() == other.green_spec(),
            self.blue_spec() == other.blue_spec(),
        ensures
            self == other,
    {
    }
}

impl PixelColor for Rgb888 {
    type Raw = RawU24;

    open spec fn valid(self) -> bool {
        &&& self.red_spec() <= 255
        &&& self.green_spec() <= 255
        &&& self.blue_spec() <= 255
    }

    open spec fn encoding(self) -> nat {
        self.red_spec() * 65536 + self.green_spec() * 256 + self.blue_spec()
    }

    closed spec fn decoding(payload: nat) -> Self {
        Rgb888 {
            red: (payload / 65536 % 256) as u8,
            green: (payload / 256 % 256) as u8,
            blue: (payload % 256) as u8,
        }
    }

    fn into_raw(self) -> (raw: RawU24) {
        let red: u32 = self.red as u32;
        let green: u32 = self.green as u32;
        let blue: u32 = self.blue as u32;
        RawU24::new(red * 65536 + green * 256 + blue)
    }

    fn from_raw(raw: RawU24) -> (color: Self)
        ensures
            color.red_spec() == raw.payload() / 65536 % 256,
            color.green_spec() == raw.payload() / 256 % 256,
            color.blue_spec() == raw.payload() % 256,
    {
        let payload: u32 = raw.into_inner();
        Rgb888 {
            red: (payload / 65536 % 256) as u8,
            green: (payload / 256 % 256) as u8,
            blue: (payload % 256) as u8,
        }
    }

    proof fn lemma_encoding_fits(self) {
        lemma2_to64();
    }

    proof fn lemma_round_trip(self) {
        let red = self.red_spec() as int;
        let green = self.green_spec() as int;
        let blue = self.blue_spec() as int;
        let payload = self.encoding() as int;
        lemma_fundamental_div_mod_converse(payload, 65536, red, green * 256 + blue);
        lemma_fundamental_div_mod_converse(payload, 256, red * 256 + green, blue);
        lemma_fundamental_div_mod_converse(red * 256 + green, 256, red, green);
    }

    proof fn lemma_std_conversions(self, raw: RawU24) {
        lemma2_to64();
        RawU24::lemma_of_payload(self.encoding());
    }
}

impl RgbColor for Rgb888 {
    open spec fn red_depth() -> nat {
        8
    }

    open spec fn green_depth() -> nat {
        8
    }

    open spec fn blue_depth() -> nat {
        8
    }

    open spec fn red_value(self) -> nat {
        self.red_spec()
    }

    open spec fn green_value(self) -> nat {
        self.green_spec()
    }

    open spec fn blue_value(self) -> nat {
        self.blue_spec()
    }

    fn channel_bits() -> (bits: (u32, u32, u32)) {
        (8, 8, 8)
    }

    fn r(&self) -> (red: u8)
        ensures
            red <= 255,
    {
        proof {
            lemma2_to64();
        }
        self.red
    }

    fn g(&self) -> (green: u8)
        ensures
            green <= 255,
    {
        proof {
            lemma2_to64();
        }
        self.green
    }

    fn b(&self) -> (blue: u8)
        ensures
            blue <= 255,
    {
        proof {
            lemma2_to64();
        }
        self.blue
    }

    fn with_channels(red: u8, green: u8, blue: u8) -> (color: Self) {
        proof {
            lemma2_to64();
            assert(pow2(8) == 256 && pow2(8) == 256 && pow2(8) == 256);
            assert(red as nat % 256 == red && green as nat % 256 == green && blue as nat % 256
                == blue);
        }
        Rgb888::new(red, green, blue)
    }
}

impl From<RawU24> for Rgb888 {
    fn from(raw: RawU24) -> (color: Rgb888) {
        Rgb888::from_raw(raw)
    }
}

impl FromSpecImpl<RawU24> for Rgb888 {
    open spec fn obeys_from_spec() -> bool {
        true
    }

    open spec fn from_spec(raw: RawU24) -> Rgb888 {
        Rgb888::decoding(raw.payload())
    }
}

impl From<Rgb888> for RawU24 {
    fn from(color: Rgb888) -> (raw: RawU24) {
        let raw = color.into_raw();
        proof {
            color.lemma_encoding_fits();
            lemma2_to64();
            raw.lemma_from_payload();
        }
        raw
    }
}

impl FromSpecImpl<Rgb888> for RawU24 {
    open spec fn obeys_from_spec() -> bool {
        true
    }

    open spec fn from_spec(color: Rgb888) -> RawU24 {
        RawU24::of_payload(color.encoding())
    }
}

} // verus!
