//! The binary color: one bit, off or on.

use vstd::prelude::*;
use vstd::arithmetic::power2::lemma2_to64;
use vstd::std_specs::convert::FromSpecImpl;
use crate::pixel_color::PixelColor;
use crate::raw::{RawData, RawU1};

verus! {

/// A color with two states.
#[derive(Clone, Copy, Debug, PartialEq, Eq, Structural, PartialOrd, Ord, Hash)]
pub enum BinaryColor {
    /// The inactive state.
    Off,
    /// The active state.
    On,
}

impl BinaryColor {
    /// The other state.
    pub fn invert(self) -> (out: Self)
        ensures
            out == (if self == BinaryColor::On {
                BinaryColor::Off
            } else {
                BinaryColor::On
            }),
    {
        match self {
            BinaryColor::On => BinaryColor::Off,
            BinaryColor::Off => BinaryColor::On,
        }
    }

    /// Whether the color is `On`.
    pub fn is_on(self) -> (on: bool)
        ensures
            on == (self == BinaryColor::On),
    {
        match self {
            BinaryColor::On => true,
            BinaryColor::Off => false,
        }
    }

    /// Whether the color is `Off`.
    pub fn is_off(self) -> (off: bool)
        ensures
            off == (self == BinaryColor::Off),
    {
        match self {
            BinaryColor::On => false,
            BinaryColor::Off => true,
        }
    }

    /// `On` for `true`, `Off` for `false`.
    pub fn from_bool(on: bool) -> (out: Self)
        ensures
            out == (if on {
                BinaryColor::On
            } else {
                BinaryColor::Off
            }),
    {
        if on {
            BinaryColor::On
        } else {
            BinaryColor::Off
        }
    }
}

impl PixelColor for BinaryColor {
    type Raw = RawU1;

    open spec fn valid(self) -> bool {
        true
    }

    open spec fn encoding(self) -> nat {
        if self == BinaryColor::On {
            1
        } else {
            0
        }
    }

    open spec fn decoding(payload: nat) -> Self {
        if payload == 0 {
            BinaryColor::Off
        } else {
            BinaryColor::On
        }
    }

    fn into_raw(self) -> (raw: RawU1) {
        match self {
            BinaryColor::On => RawU1::new(1),
            BinaryColor::Off => RawU1::new(0),
        }
    }

    fn from_raw(raw: RawU1) -> (color: Self) {
        if raw.into_inner() == 0 {
            BinaryColor::Off
        } else {
            BinaryColor::On
        }
    }

    proof fn lemma_encoding_fits(self) {
        lemma2_to64();
    }

    proof fn lemma_round_trip(self) {
    }

    proof fn lemma_std_conversions(self, raw: RawU1) {
        lemma2_to64();
        RawU1::lemma_of_payload(self.encoding());
    }
}

impl From<RawU1> for BinaryColor {
    fn from(raw: RawU1) -> (color: BinaryColor) {
        BinaryColor::from_raw(raw)
    }
}

impl FromSpecImpl<RawU1> for BinaryColor {
    open spec fn obeys_from_spec() -> bool {
        true
    }

    open spec fn from_spec(raw: RawU1) -> BinaryColor {
        BinaryColor::decoding(raw.payload())
    }
}

impl From<BinaryColor> for RawU1 {
    fn from(color: BinaryColor) -> (raw: RawU1) {
        let raw = color.into_raw();
        proof {
            raw.lemma_from_payload();
        }
        raw
    }
}

impl FromSpecImpl<BinaryColor> for RawU1 {
    open spec fn obeys_from_spec() -> bool {
        true
    }

    open spec fn from_spec(color: BinaryColor) -> RawU1 {
        RawU1::of_payload(color.encoding())
    }
}

} // verus!
