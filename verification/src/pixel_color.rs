//! What every color type offers: a raw storage form, and the way to and from
//! it.

use vstd::prelude::*;
use vstd::arithmetic::power2::pow2;
use vstd::std_specs::convert::{FromSpec, IntoSpec};
use crate::raw::RawData;

verus! {

/// A color that can be drawn: a value with exactly one raw storage form.
pub trait PixelColor: Copy + PartialEq + From<Self::Raw> + Into<Self::Raw> {
    /// The raw storage that represents this color.
    type Raw: RawData;

    /// Whether every channel fits its width, as it does in each color that a
    /// constructor or `from_raw` made.
    spec fn valid(self) -> bool;

    /// The payload that stands for this color.
    spec fn encoding(self) -> nat;

    /// The color that a payload stands for. Where a type uses fewer patterns
    /// than its storage has, this fixes what the others mean.
    spec fn decoding(payload: nat) -> Self;

    /// Encodes the color.
    fn into_raw(self) -> (raw: Self::Raw)
        ensures
            self.valid(),
            raw.payload() == self.encoding(),
    ;

    /// Decodes a raw value. Every payload is some color.
    fn from_raw(raw: Self::Raw) -> (color: Self)
        ensures
            color.valid(),
            color == Self::decoding(raw.payload()),
    ;

    /// The encoding of a color fits its raw storage.
    proof fn lemma_encoding_fits(self)
        requires
            self.valid(),
        ensures
            self.encoding() < pow2(Self::Raw::bits()),
    ;

    /// Decoding undoes encoding: the payload of a color stands for that
    /// color.
    proof fn lemma_round_trip(self)
        requires
            self.valid(),
        ensures
            Self::decoding(self.encoding()) == self,
    ;

    /// `from` and `into` are `from_raw` and `into_raw`: `from` decodes the
    /// payload of a raw value, and `into` gives a color the raw value of its
    /// encoding.
    proof fn lemma_std_conversions(self, raw: Self::Raw)
        ensures
            <Self as FromSpec<Self::Raw>>::obeys_from_spec(),
            <Self as FromSpec<Self::Raw>>::from_spec(raw) == Self::decoding(raw.payload()),
            <Self as IntoSpec<Self::Raw>>::obeys_into_spec(),
            self.valid() ==> <Self as IntoSpec<Self::Raw>>::into_spec(self).payload()
                == self.encoding(),
    ;
}

/// The bare integer behind a color, as a pixel buffer holds it.
pub trait IntoStorage: Sized {
    /// The integer type of the color's raw storage.
    type Storage;

    /// The number that the color is stored as.
    spec fn stored(self) -> nat;

    /// The number that a storage integer holds.
    spec fn storage_number(storage: Self::Storage) -> nat;

    /// The storage integer of the color.
    fn into_storage(self) -> (storage: Self::Storage)
        ensures
            Self::storage_number(storage) == self.stored(),
    ;
}

impl<C: PixelColor> IntoStorage for C {
    type Storage = <<C as PixelColor>::Raw as RawData>::Storage;

    open spec fn stored(self) -> nat {
        self.encoding()
    }

    open spec fn storage_number(storage: Self::Storage) -> nat {
        <C as PixelColor>::Raw::storage_value(storage)
    }

    fn into_storage(self) -> (storage: Self::Storage) {
        self.into_raw().into_inner()
    }
}

} // verus!
