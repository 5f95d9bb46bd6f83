//! Grayscale colors: one channel of intensity, 2, 4 or 8 bits deep, and the
//! 8-bit coverage level that antialiasing blends with.

use vstd::prelude::*;
use vstd::arithmetic::power2::{pow2, lemma2_to64};
use vstd::std_specs::convert::FromSpecImpl;
use crate::pixel_color::PixelColor;
use crate::raw::{RawData, RawU2, RawU4, RawU8};

verus! {

/// A color of one intensity channel.
pub trait GrayColor: PixelColor {
    /// The width of the intensity channel in bits.
    spec fn depth() -> nat;

    /// The intensity, as a number.
    spec fn luma_value(self) -> nat;

    /// The width of the intensity channel in bits.
    fn luma_bits() -> (bits: u32)
        ensures
            bits == Self::depth(),
            1 <= bits <= 8,
    ;

    /// The intensity. It is always below `2^depth()`.
    fn luma(&self) -> (luma: u8)
        ensures
            luma == self.luma_value(),
            luma < pow2(Self::depth()),
    ;

    /// The gray of the intensity that the low `depth()` bits of `luma` give.
    fn with_luma(luma: u8) -> (color: Self)
        ensures
            color.valid(),
            color.luma_value() == luma as nat % pow2(Self::depth()),
    ;
}

/// A grayscale color of 2 bits.
#[derive(Clone, Copy, Debug, PartialEq, Eq, Structural, PartialOrd, Ord, Hash)]
pub struct Gray2 {
    luma: u8,
}

impl Gray2 {
    #[verifier::type_invariant]
    spec fn fits(self) -> bool {
        self.luma < 4
    }

    /// The intensity, as a number.
    pub closed spec fn luma_spec(self) -> nat {
        self.luma as nat
    }

    /// The gray of the intensity `luma`; bits above the low 2 are dropped.
    pub fn new(luma: u8) -> (color: Self)
        ensures
            color.valid(),
            color.luma_spec() == luma % 4,
    {
        Gray2 { luma: luma % 4 }
    }

    /// Black: intensity zero.
    pub fn black() -> (color: Self)
        ensures
            color.valid(),
            color.luma_spec() == 0,
    {
        Gray2 { luma: 0 }
    }

    /// White: the largest intensity.
    pub fn white() -> (color: Self)
        ensures
            color.valid(),
            color.luma_spec() == 3,
    {
        Gray2 { luma: 3 }
    }

    /// A payload decodes to the gray whose intensity is its low 2 bits.
    pub proof fn lemma_decoding(payload: nat)
        ensures
            Self::decoding(payload).valid(),
            Self::decoding(payload).luma_spec() == payload % 4,
    {
    }

    /// Two grays of one intensity are the same color.
    pub proof fn lemma_luma_determines(self, other: Self)
        requires
            self.luma_spec() == other.luma_spec(),
        ensures
            self == other,
    {
    }
}

impl PixelColor for Gray2 {
    type Raw = RawU2;

    open spec fn valid(self) -> bool {
        self.luma_spec() <= 3
    }

    open spec fn encoding(self) -> nat {
        self.luma_spec()
    }

    closed spec fn decoding(payload: nat) -> Self {
        Gray2 { luma: (payload % 4) as u8 }
    }

    fn into_raw(self) -> (raw: RawU2) {
        proof {
            use_type_invariant(&self);
        }
        RawU2::new(self.luma)
    }

    fn from_raw(raw: RawU2) -> (color: Self)
        ensures
            color.luma_spec() == raw.payload(),
    {
        Gray2 { luma: raw.into_inner() }
    }

    proof fn lemma_encoding_fits(self) {
        lemma2_to64();
    }

    proof fn lemma_round_trip(self) {
    }

    proof fn lemma_std_conversions(self, raw: RawU2) {
        lemma2_to64();
        RawU2::lemma_of_payload(self.encoding());
    }
}

impl GrayColor for Gray2 {
    open spec fn depth() -> nat {
        2
    }

    open spec fn luma_value(self) -> nat {
        self.luma_spec()
    }

    fn luma_bits() -> (bits: u32) {
        2
    }

    fn luma(&self) -> (luma: u8)
        ensures
            luma <= 3,
    {
        proof {
            use_type_invariant(self);
            lemma2_to64();
        }
        self.luma
    }

    fn with_luma(luma: u8) -> (color: Self) {
        proof {
            lemma2_to64();
            assert(pow2(2) == 4);
        }
        Gray2::new(luma)
    }
}

impl From<RawU2> for Gray2 {
    fn from(raw: RawU2) -> (color: Gray2) {
        Gray2::from_raw(raw)
    }
}

impl FromSpecImpl<RawU2> for Gray2 {
    open spec fn obeys_from_spec() -> bool {
        true
    }

    open spec fn from_spec(raw: RawU2) -> Gray2 {
        Gray2::decoding(raw.payload())
    }
}

impl From<Gray2> for RawU2 {
    fn from(color: Gray2) -> (raw: RawU2) {
        let raw = color.into_raw();
        proof {
            color.lemma_encoding_fits();
            lemma2_to64();
            raw.lemma_from_payload();
        }
        raw
    }
}

impl FromSpecImpl<Gray2> for RawU2 {
    open spec fn obeys_from_spec() -> bool {
        true
    }

    open spec fn from_spec(color: Gray2) -> RawU2 {
        RawU2::of_payload(color.encoding())
    }
}

/// A grayscale color of 4 bits.
#[derive(Clone, Copy, Debug, PartialEq, Eq, Structural, PartialOrd, Ord, Hash)]
pub struct Gray4 {
    luma: u8,
}

impl Gray4 {
    #[verifier::type_invariant]
    spec fn fits(self) -> bool {
        self.luma < 16
    }

    /// The intensity, as a number.
    pub closed spec fn luma_spec(self) -> nat {
        self.luma as nat
    }

    /// The gray of the intensity `luma`; bits above the low 4 are dropped.
    pub fn new(luma: u8) -> (color: Self)
        ensures
            color.valid(),
            color.luma_spec() == luma % 16,
    {
        Gray4 { luma: luma % 16 }
    }

    /// Black: intensity zero.
    pub fn black() -> (color: Self)
        ensures
            color.valid(),
            color.luma_spec() == 0,
    {
        Gray4 { luma: 0 }
    }

    /// White: the largest intensity.
    pub fn white() -> (color: Self)
        ensures
            color.valid(),
            color.luma_spec() == 15,
    {
        Gray4 { luma: 15 }
    }

    /// A payload decodes to the gray whose intensity is its low 4 bits.
    pub proof fn lemma_decoding(payload: nat)
        ensures
            Self::decoding(payload).valid(),
            Self::decoding(payload).luma_spec() == payload % 16,
    {
    }

    /// Two grays of one intensity are the same color.
    pub proof fn lemma_luma_determines(self, other: Self)
        requires
            self.luma_spec() == other.luma_spec(),
        ensures
            self == other,
    {
    }
}

impl PixelColor for Gray4 {
    type Raw = RawU4;

    open spec fn valid(self) -> bool {
        self.luma_spec() <= 15
    }

    open spec fn encoding(self) -> nat {
        self.luma_spec()
    }

    closed spec fn decoding(payload: nat) -> Self {
        Gray4 { luma: (payload % 16) as u8 }
    }

    fn into_raw(self) -> (raw: RawU4) {
        proof {
            use_type_invariant(&self);
        }
        RawU4::new(self.luma)
    }

    fn from_raw(raw: RawU4) -> (color: Self)
        ensures
            color.luma_spec() == raw.payload(),
    {
        Gray4 { luma: raw.into_inner() }
    }

    proof fn lemma_encoding_fits(self) {
        lemma2_to64();
    }

    proof fn lemma_round_trip(self) {
    }

    proof fn lemma_std_conversions(self, raw: RawU4) {
        lemma2_to64();
        RawU4::lemma_of_payload(self.encoding());
    }
}

impl GrayColor for Gray4 {
    open spec fn depth() -> nat {
        4
    }

    open spec fn luma_value(self) -> nat {
        self.luma_spec()
    }

    fn luma_bits() -> (bits: u32) {
        4
    }

    fn luma(&self) -> (luma: u8)
        ensures
            luma <= 15,
    {
        proof {
            use_type_invariant(self);
            lemma2_to64();
        }
        self.luma
    }

    fn with_luma(luma: u8) -> (color: Self) {
        proof {
            lemma2_to64();
            assert(pow2(4) == 16);
        }
        Gray4::new(luma)
    }
}

impl From<RawU4> for Gray4 {
    fn from(raw: RawU4) -> (color: Gray4) {
        Gray4::from_raw(raw)
    }
}

impl FromSpecImpl<RawU4> for Gray4 {
    open spec fn obeys_from_spec() -> bool {
        true
    }

    open spec fn from_spec(raw: RawU4) -> Gray4 {
        Gray4::decoding(raw.payload())
    }
}

impl From<Gray4> for RawU4 {
    fn from(color: Gray4) -> (raw: RawU4) {
        let raw = color.into_raw();
        proof {
            color.lemma_encoding_fits();
            lemma2_to64();
            raw.lemma_from_payload();
        }
        raw
    }
}

impl FromSpecImpl<Gray4> for RawU4 {
    open spec fn obeys_from_spec() -> bool {
        true
    }

    open spec fn from_spec(color: Gray4) -> RawU4 {
        RawU4::of_payload(color.encoding())
    }
}

/// A grayscale color of 8 bits.
#[derive(Clone, Copy, Debug, PartialEq, Eq, Structural, PartialOrd, Ord, Hash)]
pub struct Gray8 {
    luma: u8,
}

impl Gray8 {
    /// The intensity, as a number.
    pub closed spec fn luma_spec(self) -> nat {
        self.luma as nat
    }

    /// The gray of the intensity `luma`.
    pub fn new(luma: u8) -> (color: Self)
        ensures
            color.valid(),
            color.luma_spec() == luma,
    {
        Gray8 { luma: luma }
    }

    /// Black: intensity zero.
    pub fn black() -> (color: Self)
        ensures
            color.valid(),
            color.luma_spec() == 0,
    {
        Gray8 { luma: 0 }
    }

    /// White: the largest intensity.
    pub fn white() -> (color: Self)
        ensures
            color.valid(),
            color.luma_spec() == 255,
    {
        Gray8 { luma: 255 }
    }

    /// A payload decodes to the gray whose intensity is its low 8 bits.
    pub proof fn lemma_decoding(payload: nat)
        ensures
            Self::decoding(payload).valid(),
            Self::decoding(payload).luma_spec() == payload % 256,
    {
    }

    /// Two grays of one intensity are the same color.
    pub proof fn lemma_luma_determines(self, other: Self)
        requires
            self.luma_spec() == other.luma_spec(),
        ensures
            self == other,
    {
    }
}

impl PixelColor for Gray8 {
    type Raw = RawU8;

    open spec fn valid(self) -> bool {
        self.luma_spec() <= 255
    }

    open spec fn encoding(self) -> nat {
        self.luma_spec()
    }

    closed spec fn decoding(payload: nat) -> Self {
        Gray8 { luma: (payload % 256) as u8 }
    }

    fn into_raw(self) -> (raw: RawU8) {
        RawU8::new(self.luma)
    }

    fn from_raw(raw: RawU8) -> (color: Self)
        ensures
            color.luma_spec() == raw.payload(),
    {
        Gray8 { luma: raw.into_inner() }
    }

    proof fn lemma_encoding_fits(self) {
        lemma2_to64();
    }

    proof fn lemma_round_trip(self) {
    }

    proof fn lemma_std_conversions(self, raw: RawU8) {
        lemma2_to64();
        RawU8::lemma_of_payload(self.encoding());
    }
}

impl GrayColor for Gray8 {
    open spec fn depth() -> nat {
        8
    }

    open spec fn luma_value(self) -> nat {
        self.luma_spec()
    }

    fn luma_bits() -> (bits: u32) {
        8
    }

    fn luma(&self) -> (luma: u8)
        ensures
            luma <= 255,
    {
        proof {
            lemma2_to64();
        }
        self.luma
    }

    fn with_luma(luma: u8) -> (color: Self) {
        proof {
            lemma2_to64();
            assert(pow2(8) == 256);
            assert(luma as nat % 256 == luma);
        }
        Gray8::new(luma)
    }
}

impl From<RawU8> for Gray8 {
    fn from(raw: RawU8) -> (color: Gray8) {
        Gray8::from_raw(raw)
    }
}

impl FromSpecImpl<RawU8> for Gray8 {
    open spec fn obeys_from_spec() -> bool {
        true
    }

    open spec fn from_spec(raw: RawU8) -> Gray8 {
        Gray8::decoding(raw.payload())
    }
}

impl From<Gray8> for RawU8 {
    fn from(color: Gray8) -> (raw: RawU8) {
        let raw = color.into_raw();
        proof {
            color.lemma_encoding_fits();
            lemma2_to64();
            raw.lemma_from_payload();
        }
        raw
    }
}

impl FromSpecImpl<Gray8> for RawU8 {
    open spec fn obeys_from_spec() -> bool {
        true
    }

    open spec fn from_spec(color: Gray8) -> RawU8 {
        RawU8::of_payload(color.encoding())
    }
}

/// A coverage level of 8 bits, for antialiasing: how much of a pixel a shape
/// covers, from none of it at 0 to all of it at 255. It weighs one color
/// against another and is not itself a color to look at.
#[derive(Clone, Copy, Debug, PartialEq, Eq, Structural, PartialOrd, Ord, Hash)]
pub struct Coverage8 {
    luma: u8,
}

impl Coverage8 {
    /// The intensity, as a number.
    pub closed spec fn luma_spec(self) -> nat {
        self.luma as nat
    }

    /// The coverage of the level `luma`.
    pub fn new(luma: u8) -> (color: Self)
        ensures
            color.valid(),
            color.luma_spec() == luma,
    {
        Coverage8 { luma: luma }
    }

    /// No coverage: level zero.
    pub fn none() -> (color: Self)
        ensures
            color.valid(),
            color.luma_spec() == 0,
    {
        Coverage8 { luma: 0 }
    }

    /// Full coverage: the largest level.
    pub fn full() -> (color: Self)
        ensures
            color.valid(),
            color.luma_spec() == 255,
    {
        Coverage8 { luma: 255 }
    }

    /// A payload decodes to the coverage whose level is its low 8 bits.
    pub proof fn lemma_decoding(payload: nat)
        ensures
            Self::decoding(payload).valid(),
            Self::decoding(payload).luma_spec() == payload % 256,
    {
    }

    /// Two coverages of one level are the same.
    pub proof fn lemma_luma_determines(self, other: Self)
        requires
            self.luma_spec() == other.luma_spec(),
        ensures
            self == other,
    {
    }
}

impl PixelColor for Coverage8 {
    type Raw = RawU8;

    open spec fn valid(self) -> bool {
        self.luma_spec() <= 255
    }

    open spec fn encoding(self) -> nat {
        self.luma_spec()
    }

    closed spec fn decoding(payload: nat) -> Self {
        Coverage8 { luma: (payload % 256) as u8 }
    }

    fn into_raw(self) -> (raw: RawU8) {
        RawU8::new(self.luma)
    }

    fn from_raw(raw: RawU8) -> (color: Self)
        ensures
            color.luma_spec() == raw.payload(),
    {
        Coverage8 { luma: raw.into_inner() }
    }

    proof fn lemma_encoding_fits(self) {
        lemma2_to64();
    }

    proof fn lemma_round_trip(self) {
    }

    proof fn lemma_std_conversions(self, raw: RawU8) {
        lemma2_to64();
        RawU8::lemma_of_payload(self.encoding());
    }
}

impl GrayColor for Coverage8 {
    open spec fn depth() -> nat {
        8
    }

    open spec fn luma_value(self) -> nat {
        self.luma_spec()
    }

    fn luma_bits() -> (bits: u32) {
        8
    }

    fn luma(&self) -> (luma: u8)
        ensures
            luma <= 255,
    {
        proof {
            lemma2_to64();
        }
        self.luma
    }

    fn with_luma(luma: u8) -> (color: Self) {
        proof {
            lemma2_to64();
            assert(pow2(8) == 256);
            assert(luma as nat % 256 == luma);
        }
        Coverage8::new(luma)
    }
}

impl From<RawU8> for Coverage8 {
    fn from(raw: RawU8) -> (color: Coverage8) {
        Coverage8::from_raw(raw)
    }
}

impl FromSpecImpl<RawU8> for Coverage8 {
    open spec fn obeys_from_spec() -> bool {
        true
    }

    open spec fn from_spec(raw: RawU8) -> Coverage8 {
        Coverage8::decoding(raw.payload())
    }
}

impl From<Coverage8> for RawU8 {
    fn from(color: Coverage8) -> (raw: RawU8) {
        let raw = color.into_raw();
        proof {
            color.lemma_encoding_fits();
            lemma2_to64();
            raw.lemma_from_payload();
        }
        raw
    }
}

impl FromSpecImpl<Coverage8> for RawU8 {
    open spec fn obeys_from_spec() -> bool {
        true
    }

    open spec fn from_spec(color: Coverage8) -> RawU8 {
        RawU8::of_payload(color.encoding())
    }
}

} // verus!
