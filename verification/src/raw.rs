//! Raw storage: a payload of a fixed number of bits, held in the smallest
//! unsigned integer that has room for it.

use vstd::prelude::*;
use vstd::arithmetic::power2::{pow2, lemma2_to64};

verus! {

/// A raw storage value: a payload of `bits()` bits.
pub trait RawData: Sized {
    /// The smallest unsigned integer that holds `bits()` bits.
    type Storage;

    /// The width of the payload in bits.
    spec fn bits() -> nat;

    /// The payload, as a number.
    spec fn payload(self) -> nat;

    /// The number that a storage integer holds.
    spec fn storage_value(storage: Self::Storage) -> nat;

    /// The width of the payload in bits.
    fn bits_per_pixel() -> (bits: usize)
        ensures
            bits == Self::bits(),
            1 <= bits <= 32,
    ;

    /// The payload as a bare integer. It is always below `2^bits()`.
    fn into_inner(self) -> (storage: Self::Storage)
        ensures
            Self::storage_value(storage) == self.payload(),
            self.payload() < pow2(Self::bits()),
    ;

    /// The raw value that holds the low `bits()` bits of `value`.
    fn from_u32(value: u32) -> (raw: Self)
        ensures
            raw.payload() == value as nat % pow2(Self::bits()),
    ;
}

/// 1 bit of raw data, held in a `u8`.
#[derive(Clone, Copy, Debug, PartialEq, Eq, Structural, PartialOrd, Ord, Hash)]
pub struct RawU1 {
    value: u8,
}

impl RawU1 {
    #[verifier::type_invariant]
    spec fn fits(self) -> bool {
        self.value < 0x2
    }

    /// The raw value of the payload `payload % 2^1`.
    pub closed spec fn of_payload(payload: nat) -> Self {
        RawU1 { value: (payload % 0x2) as u8 }
    }

    /// `of_payload` keeps the low bit of what it is given.
    pub proof fn lemma_of_payload(payload: nat)
        ensures
            Self::of_payload(payload).payload() == payload % 0x2,
    {
    }

    /// A raw value is the one that `of_payload` makes of its payload.
    pub proof fn lemma_from_payload(self)
        ensures
            self.payload() < 0x2 ==> Self::of_payload(self.payload()) == self,
    {
    }

    /// The raw value that holds the low 1 bit of `value`; higher bits are
    /// dropped.
    pub fn new(value: u8) -> (raw: Self)
        ensures
            raw.payload() == value % 0x2,
    {
        RawU1 { value: value % 0x2 }
    }
}

impl RawData for RawU1 {
    type Storage = u8;

    open spec fn bits() -> nat {
        1
    }

    closed spec fn payload(self) -> nat {
        self.value as nat
    }

    open spec fn storage_value(storage: u8) -> nat {
        storage as nat
    }

    fn bits_per_pixel() -> (bits: usize) {
        1
    }

    fn into_inner(self) -> (storage: u8)
        ensures
            storage == self.payload(),
            storage < 0x2,
    {
        proof {
            use_type_invariant(&self);
            lemma2_to64();
        }
        self.value
    }

    fn from_u32(value: u32) -> (raw: Self)
        ensures
            raw.payload() == value % 0x2,
    {
        proof {
            lemma2_to64();
        }
        RawU1 { value: (value % 0x2) as u8 }
    }
}

/// 2 bits of raw data, held in a `u8`.
#[derive(Clone, Copy, Debug, PartialEq, Eq, Structural, PartialOrd, Ord, Hash)]
pub struct RawU2 {
    value: u8,
}

impl RawU2 {
    #[verifier::type_invariant]
    spec fn fits(self) -> bool {
        self.value < 0x4
    }

    /// The raw value of the payload `payload % 2^2`.
    pub closed spec fn of_payload(payload: nat) -> Self {
        RawU2 { value: (payload % 0x4) as u8 }
    }

    /// `of_payload` keeps the low 2 bits of what it is given.
    pub proof fn lemma_of_payload(payload: nat)
        ensures
            Self::of_payload(payload).payload() == payload % 0x4,
    {
    }

    /// A raw value is the one that `of_payload` makes of its payload.
    pub proof fn lemma_from_payload(self)
        ensures
            self.payload() < 0x4 ==> Self::of_payload(self.payload()) == self,
    {
    }

    /// The raw value that holds the low 2 bits of `value`; higher bits are
    /// dropped.
    pub fn new(value: u8) -> (raw: Self)
        ensures
            raw.payload() == value % 0x4,
    {
        RawU2 { value: value % 0x4 }
    }
}

impl RawData for RawU2 {
    type Storage = u8;

    open spec fn bits() -> nat {
        2
    }

    closed spec fn payload(self) -> nat {
        self.value as nat
    }

    open spec fn storage_value(storage: u8) -> nat {
        storage as nat
    }

    fn bits_per_pixel() -> (bits: usize) {
        2
    }

    fn into_inner(self) -> (storage: u8)
        ensures
            storage == self.payload(),
            storage < 0x4,
    {
        proof {
            use_type_invariant(&self);
            lemma2_to64();
        }
        self.value
    }

    fn from_u32(value: u32) -> (raw: Self)
        ensures
            raw.payload() == value % 0x4,
    {
        proof {
            lemma2_to64();
        }
        RawU2 { value: (value % 0x4) as u8 }
    }
}

/// 4 bits of raw data, held in a `u8`.
#[derive(Clone, Copy, Debug, PartialEq, Eq, Structural, PartialOrd, Ord, Hash)]
pub struct RawU4 {
    value: u8,
}

impl RawU4 {
    #[verifier::type_invariant]
    spec fn fits(self) -> bool {
        self.value < 0x10
    }

    /// The raw value of the payload `payload % 2^4`.
    pub closed spec fn of_payload(payload: nat) -> Self {
        RawU4 { value: (payload % 0x10) as u8 }
    }

    /// `of_payload` keeps the low 4 bits of what it is given.
    pub proof fn lemma_of_payload(payload: nat)
        ensures
            Self::of_payload(payload).payload() == payload % 0x10,
    {
    }

    /// A raw value is the one that `of_payload` makes of its payload.
    pub proof fn lemma_from_payload(self)
        ensures
            self.payload() < 0x10 ==> Self::of_payload(self.payload()) == self,
    {
    }

    /// The raw value that holds the low 4 bits of `value`; higher bits are
    /// dropped.
    pub fn new(value: u8) -> (raw: Self)
        ensures
            raw.payload() == value % 0x10,
    {
        RawU4 { value: value % 0x10 }
    }
}

impl RawData for RawU4 {
    type Storage = u8;

    open spec fn bits() -> nat {
        4
    }

    closed spec fn payload(self) -> nat {
        self.value as nat
    }

    open spec fn storage_value(storage: u8) -> nat {
        storage as nat
    }

    fn bits_per_pixel() -> (bits: usize) {
        4
    }

    fn into_inner(self) -> (storage: u8)
        ensures
            storage == self.payload(),
            storage < 0x10,
    {
        proof {
            use_type_invariant(&self);
            lemma2_to64();
        }
        self.value
    }

    fn from_u32(value: u32) -> (raw: Self)
        ensures
            raw.payload() == value % 0x10,
    {
        proof {
            lemma2_to64();
        }
        RawU4 { value: (value % 0x10) as u8 }
    }
}

/// 8 bits of raw data, held in a `u8`.
#[derive(Clone, Copy, Debug, PartialEq, Eq, Structural, PartialOrd, Ord, Hash)]
pub struct RawU8 {
    value: u8,
}

impl RawU8 {
    /// The raw value of the payload `payload % 2^8`.
    pub closed spec fn of_payload(payload: nat) -> Self {
        RawU8 { value: (payload % 0x100) as u8 }
    }

    /// `of_payload` keeps the low 8 bits of what it is given.
    pub proof fn lemma_of_payload(payload: nat)
        ensures
            Self::of_payload(payload).payload() == payload % 0x100,
    {
    }

    /// A raw value is the one that `of_payload` makes of its payload.
    pub proof fn lemma_from_payload(self)
        ensures
            Self::of_payload(self.payload()) == self,
    {
    }

    /// The raw value that holds the low 8 bits of `value`.
    pub fn new(value: u8) -> (raw: Self)
        ensures
            raw.payload() == value,
    {
        RawU8 { value: value }
    }
}

impl RawData for RawU8 {
    type Storage = u8;

    open spec fn bits() -> nat {
        8
    }

    closed spec fn payload(self) -> nat {
        self.value as nat
    }

    open spec fn storage_value(storage: u8) -> nat {
        storage as nat
    }

    fn bits_per_pixel() -> (bits: usize) {
        8
    }

    fn into_inner(self) -> (storage: u8)
        ensures
            storage == self.payload(),
    {
        proof {
            lemma2_to64();
        }
        self.value
    }

    fn from_u32(value: u32) -> (raw: Self)
        ensures
            raw.payload() == value % 0x100,
    {
        proof {
            lemma2_to64();
        }
        RawU8 { value: (value % 0x100) as u8 }
    }
}

/// 16 bits of raw data, held in a `u16`.
#[derive(Clone, Copy, Debug, PartialEq, Eq, Structural, PartialOrd, Ord, Hash)]
pub struct RawU16 {
    value: u16,
}

impl RawU16 {
    /// The raw value of the payload `payload % 2^16`.
    pub closed spec fn of_payload(payload: nat) -> Self {
        RawU16 { value: (payload % 0x10000) as u16 }
    }

    /// `of_payload` keeps the low 16 bits of what it is given.
    pub proof fn lemma_of_payload(payload: nat)
        ensures
            Self::of_payload(payload).payload() == payload % 0x10000,
    {
    }

    /// A raw value is the one that `of_payload` makes of its payload.
    pub proof fn lemma_from_payload(self)
        ensures
            Self::of_payload(self.payload()) == self,
    {
    }

    /// The raw value that holds the low 16 bits of `value`.
    pub fn new(value: u16) -> (raw: Self)
        ensures
            raw.payload() == value,
    {
        RawU16 { value: value }
    }
}

impl RawData for RawU16 {
    type Storage = u16;

    open spec fn bits() -> nat {
        16
    }

    closed spec fn payload(self) -> nat {
        self.value as nat
    }

    open spec fn storage_value(storage: u16) -> nat {
        storage as nat
    }

    fn bits_per_pixel() -> (bits: usize) {
        16
    }

    fn into_inner(self) -> (storage: u16)
        ensures
            storage == self.payload(),
    {
        proof {
            lemma2_to64();
        }
        self.value
    }

    fn from_u32(value: u32) -> (raw: Self)
        ensures
            raw.payload() == value % 0x10000,
    {
        proof {
            lemma2_to64();
        }
        RawU16 { value: (value % 0x10000) as u16 }
    }
}

/// 24 bits of raw data, held in a `u32`.
#[derive(Clone, Copy, Debug, PartialEq, Eq, Structural, PartialOrd, Ord, Hash)]
pub struct RawU24 {
    value: u32,
}

impl RawU24 {
    #[verifier::type_invariant]
    spec fn fits(self) -> bool {
        self.value < 0x1000000
    }

    /// The raw value of the payload `payload % 2^24`.
    pub closed spec fn of_payload(payload: nat) -> Self {
        RawU24 { value: (payload % 0x1000000) as u32 }
    }

    /// `of_payload` keeps the low 24 bits of what it is given.
    pub proof fn lemma_of_payload(payload: nat)
        ensures
            Self::of_payload(payload).payload() == payload % 0x1000000,
    {
    }

    /// A raw value is the one that `of_payload` makes of its payload.
    pub proof fn lemma_from_payload(self)
        ensures
            self.payload() < 0x1000000 ==> Self::of_payload(self.payload()) == self,
    {
    }

    /// The raw value that holds the low 24 bits of `value`; higher bits are
    /// dropped.
    pub fn new(value: u32) -> (raw: Self)
        ensures
            raw.payload() == value % 0x1000000,
    {
        RawU24 { value: value % 0x1000000 }
    }
}

impl RawData for RawU24 {
    type Storage = u32;

    open spec fn bits() -> nat {
        24
    }

    closed spec fn payload(self) -> nat {
        self.value as nat
    }

    open spec fn storage_value(storage: u32) -> nat {
        storage as nat
    }

    fn bits_per_pixel() -> (bits: usize) {
        24
    }

    fn into_inner(self) -> (storage: u32)
        ensures
            storage == self.payload(),
            storage < 0x1000000,
    {
        proof {
            use_type_invariant(&self);
            lemma2_to64();
        }
        self.value
    }

    fn from_u32(value: u32) -> (raw: Self)
        ensures
            raw.payload() == value % 0x1000000,
    {
        proof {
            lemma2_to64();
        }
        RawU24 { value: value % 0x1000000 }
    }
}

/// 32 bits of raw data, held in a `u32`.
#[derive(Clone, Copy, Debug, PartialEq, Eq, Structural, PartialOrd, Ord, Hash)]
pub struct RawU32 {
    value: u32,
}

impl RawU32 {
    /// The raw value of the payload `payload % 2^32`.
    pub closed spec fn of_payload(payload: nat) -> Self {
        RawU32 { value: (payload % 0x100000000) as u32 }
    }

    /// `of_payload` keeps the low 32 bits of what it is given.
    pub proof fn lemma_of_payload(payload: nat)
        ensures
            Self::of_payload(payload).payload() == payload % 0x100000000,
    {
    }

    /// A raw value is the one that `of_payload` makes of its payload.
    pub proof fn lemma_from_payload(self)
        ensures
            Self::of_payload(self.payload()) == self,
    {
    }

    /// The raw value that holds the low 32 bits of `value`.
    pub fn new(value: u32) -> (raw: Self)
        ensures
            raw.payload() == value,
    {
        RawU32 { value: value }
    }
}

impl RawData for RawU32 {
    type Storage = u32;

    open spec fn bits() -> nat {
        32
    }

    closed spec fn payload(self) -> nat {
        self.value as nat
    }

    open spec fn storage_value(storage: u32) -> nat {
        storage as nat
    }

    fn bits_per_pixel() -> (bits: usize) {
        32
    }

    fn into_inner(self) -> (storage: u32)
        ensures
            storage == self.payload(),
    {
        proof {
            lemma2_to64();
        }
        self.value
    }

    fn from_u32(value: u32) -> (raw: Self)
        ensures
            raw.payload() == value,
    {
        proof {
            lemma2_to64();
        }
        RawU32 { value: value }
    }
}

impl RawU16 {
    /// The payload as bytes, most significant first.
    pub fn to_be_bytes(self) -> (bytes: [u8; 2])
        ensures
            bytes[0] == self.payload() / 0x100,
            bytes[1] == self.payload() % 0x100,
    {
        let value: u16 = self.value;
        [(value / 0x100) as u8, (value % 0x100) as u8]
    }

    /// The payload as bytes, least significant first.
    pub fn to_le_bytes(self) -> (bytes: [u8; 2])
        ensures
            bytes[0] == self.payload() % 0x100,
            bytes[1] == self.payload() / 0x100,
    {
        let value: u16 = self.value;
        [(value % 0x100) as u8, (value / 0x100) as u8]
    }
}

impl RawU24 {
    /// The payload as bytes, most significant first.
    pub fn to_be_bytes(self) -> (bytes: [u8; 3])
        ensures
            bytes[0] == self.payload() / 0x10000 % 0x100,
            bytes[1] == self.payload() / 0x100 % 0x100,
            bytes[2] == self.payload() % 0x100,
    {
        let value: u32 = self.value;
        [(value / 0x10000 % 0x100) as u8, (value / 0x100 % 0x100) as u8, (value % 0x100) as u8]
    }

    /// The payload as bytes, least significant first.
    pub fn to_le_bytes(self) -> (bytes: [u8; 3])
        ensures
            bytes[0] == self.payload() % 0x100,
            bytes[1] == self.payload() / 0x100 % 0x100,
            bytes[2] == self.payload() / 0x10000 % 0x100,
    {
        let value: u32 = self.value;
        [(value % 0x100) as u8, (value / 0x100 % 0x100) as u8, (value / 0x10000 % 0x100) as u8]
    }
}

impl RawU32 {
    /// The payload as bytes, most significant first.
    pub fn to_be_bytes(self) -> (bytes: [u8; 4])
        ensures
            bytes[0] == self.payload() / 0x1000000,
            bytes[1] == self.payload() / 0x10000 % 0x100,
            bytes[2] == self.payload() / 0x100 % 0x100,
            bytes[3] == self.payload() % 0x100,
    {
        let value: u32 = self.value;
        [(value / 0x1000000) as u8, (value / 0x10000 % 0x100) as u8, (value / 0x100 % 0x100) as u8, (value % 0x100) as u8]
    }

    /// The payload as bytes, least significant first.
    pub fn to_le_bytes(self) -> (bytes: [u8; 4])
        ensures
            bytes[0] == self.payload() % 0x100,
            bytes[1] == self.payload() / 0x100 % 0x100,
            bytes[2] == self.payload() / 0x10000 % 0x100,
            bytes[3] == self.payload() / 0x1000000,
    {
        let value: u32 = self.value;
        [(value % 0x100) as u8, (value / 0x100 % 0x100) as u8, (value / 0x10000 % 0x100) as u8, (value / 0x1000000) as u8]
    }
}

} // verus!
