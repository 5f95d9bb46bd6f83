use pixelcolor::raw::{RawData, RawU1, RawU16, RawU2, RawU24, RawU32, RawU4, RawU8};
use pixelcolor::{
    BinaryColor, Coverage8, Gray2, Gray4, Gray8, GrayColor, IntoStorage, PixelColor, Rgb555,
    Rgb565, Rgb888, RgbColor,
};

#[test]
fn rgb565_extracts_to_packed_storage() {
    let color: Rgb565 = Rgb565::new(31, 0, 10);
    let raw: u16 = color.into_storage();
    assert_eq!(raw, 0b11111_000000_01010u16);
}

#[test]
fn rgb565_from_hex_channels() {
    let color: Rgb565 = Rgb565::new(0x1f, 0x00, 0x0a);
    assert_eq!(color.into_storage(), 0b11111_000000_01010u16);
}

#[test]
fn storage_of_other_colors() {
    assert_eq!(BinaryColor::On.into_storage(), 1u8);
    assert_eq!(BinaryColor::Off.into_storage(), 0u8);
    assert_eq!(Gray2::new(2).into_storage(), 2u8);
    assert_eq!(Gray4::new(9).into_storage(), 9u8);
    assert_eq!(Gray8::new(200).into_storage(), 200u8);
    assert_eq!(Rgb555::new(31, 0, 10).into_storage(), 0b0_11111_00000_01010u16);
    assert_eq!(Rgb888::new(0x12, 0x34, 0x56).into_storage(), 0x0012_3456u32);
}

#[test]
fn raw_construction_masks() {
    assert_eq!(RawU1::new(0xff).into_inner(), 1);
    assert_eq!(RawU1::new(0xfe).into_inner(), 0);
    assert_eq!(RawU2::new(0xfe).into_inner(), 2);
    assert_eq!(RawU4::new(0xab).into_inner(), 0xb);
    assert_eq!(RawU8::new(0xab).into_inner(), 0xab);
    assert_eq!(RawU16::new(0xabcd).into_inner(), 0xabcd);
    assert_eq!(RawU24::new(0xff12_3456).into_inner(), 0x12_3456);
    assert_eq!(RawU32::new(0xff12_3456).into_inner(), 0xff12_3456);
}

#[test]
fn raw_from_u32_truncates() {
    assert_eq!(RawU1::from_u32(0xffff_ffff).into_inner(), 1);
    assert_eq!(RawU2::from_u32(0xffff_fffe).into_inner(), 2);
    assert_eq!(RawU4::from_u32(0x1234_5678).into_inner(), 0x8);
    assert_eq!(RawU8::from_u32(0x1234_5678).into_inner(), 0x78);
    assert_eq!(RawU16::from_u32(0x1234_5678).into_inner(), 0x5678);
    assert_eq!(RawU24::from_u32(0x1234_5678).into_inner(), 0x34_5678);
    assert_eq!(RawU32::from_u32(0x1234_5678).into_inner(), 0x1234_5678);
}

#[test]
fn raw_payload_is_below_two_to_the_width() {
    for value in 0..=255u8 {
        assert!(RawU1::new(value).into_inner() < 2);
        assert!(RawU2::new(value).into_inner() < 4);
        assert!(RawU4::new(value).into_inner() < 16);
    }
    for value in [0u32, 1, 0x00ff_ffff, 0x0100_0000, 0x8000_0001, u32::MAX] {
        assert!(RawU24::new(value).into_inner() < (1 << 24));
        assert!(RawU24::from_u32(value).into_inner() < (1 << 24));
        assert!(RawU1::from_u32(value).into_inner() < 2);
        assert!(RawU2::from_u32(value).into_inner() < 4);
        assert!(RawU4::from_u32(value).into_inner() < 16);
    }
}

#[test]
fn raw_widths() {
    assert_eq!(RawU1::bits_per_pixel(), 1);
    assert_eq!(RawU2::bits_per_pixel(), 2);
    assert_eq!(RawU4::bits_per_pixel(), 4);
    assert_eq!(RawU8::bits_per_pixel(), 8);
    assert_eq!(RawU16::bits_per_pixel(), 16);
    assert_eq!(RawU24::bits_per_pixel(), 24);
    assert_eq!(RawU32::bits_per_pixel(), 32);
}

#[test]
fn raw_bytes_in_both_orders() {
    assert_eq!(RawU16::new(0x1234).to_be_bytes(), [0x12, 0x34]);
    assert_eq!(RawU16::new(0x1234).to_le_bytes(), [0x34, 0x12]);
    assert_eq!(RawU24::new(0x12_3456).to_be_bytes(), [0x12, 0x34, 0x56]);
    assert_eq!(RawU24::new(0x12_3456).to_le_bytes(), [0x56, 0x34, 0x12]);
    assert_eq!(RawU32::new(0x1234_5678).to_be_bytes(), [0x12, 0x34, 0x56, 0x78]);
    assert_eq!(RawU32::new(0x1234_5678).to_le_bytes(), [0x78, 0x56, 0x34, 0x12]);
}

#[test]
fn rgb565_bytes_follow_the_chosen_order() {
    let raw: RawU16 = Rgb565::new(31, 0, 10).into_raw();
    assert_eq!(raw.to_be_bytes(), [0b1111_1000, 0b0000_1010]);
    assert_eq!(raw.to_le_bytes(), [0b0000_1010, 0b1111_1000]);
}

#[test]
fn binary_round_trip() {
    assert_eq!(BinaryColor::from_raw(BinaryColor::On.into_raw()), BinaryColor::On);
    assert_eq!(BinaryColor::from_raw(BinaryColor::Off.into_raw()), BinaryColor::Off);
    assert_eq!(BinaryColor::from_raw(RawU1::new(1)), BinaryColor::On);
    assert_eq!(BinaryColor::from_raw(RawU1::new(0)), BinaryColor::Off);
}

#[test]
fn binary_states() {
    assert!(BinaryColor::On.is_on());
    assert!(!BinaryColor::On.is_off());
    assert!(BinaryColor::Off.is_off());
    assert!(!BinaryColor::Off.is_on());
    assert_eq!(BinaryColor::On.invert(), BinaryColor::Off);
    assert_eq!(BinaryColor::Off.invert(), BinaryColor::On);
    assert_eq!(BinaryColor::from_bool(true), BinaryColor::On);
    assert_eq!(BinaryColor::from_bool(false), BinaryColor::Off);
}

#[test]
fn gray_round_trip_for_every_value() {
    for luma in 0..=255u8 {
        let g2: Gray2 = Gray2::new(luma);
        let g4: Gray4 = Gray4::new(luma);
        let g8: Gray8 = Gray8::new(luma);
        assert_eq!(Gray2::from_raw(g2.into_raw()), g2);
        assert_eq!(Gray4::from_raw(g4.into_raw()), g4);
        assert_eq!(Gray8::from_raw(g8.into_raw()), g8);
        let level: Coverage8 = Coverage8::new(luma);
        assert_eq!(Coverage8::from_raw(level.into_raw()), level);
    }
}

#[test]
fn gray_construction_masks() {
    assert_eq!(Gray2::new(0xfe).luma(), 2);
    assert_eq!(Gray4::new(0xab).luma(), 0xb);
    assert_eq!(Gray8::new(0xab).luma(), 0xab);
    assert_eq!(Gray2::with_luma(7).luma(), 3);
    assert_eq!(Gray2::white().luma(), 3);
    assert_eq!(Gray4::white().luma(), 15);
    assert_eq!(Gray8::white().luma(), 255);
    assert_eq!(Gray2::black().luma(), 0);
    assert_eq!(Gray2::luma_bits(), 2);
    assert_eq!(Gray4::luma_bits(), 4);
    assert_eq!(Gray8::luma_bits(), 8);
}

#[test]
fn gray_decodes_every_payload() {
    for value in 0..=255u8 {
        assert_eq!(Gray2::from_raw(RawU2::new(value)).luma(), value % 4);
        assert_eq!(Gray4::from_raw(RawU4::new(value)).luma(), value % 16);
        assert_eq!(Gray8::from_raw(RawU8::new(value)).luma(), value);
    }
}

#[test]
fn rgb565_round_trip_for_every_value() {
    for r in 0..32u8 {
        for g in 0..64u8 {
            for b in 0..32u8 {
                let color: Rgb565 = Rgb565::new(r, g, b);
                assert_eq!((color.r(), color.g(), color.b()), (r, g, b));
                assert_eq!(Rgb565::from_raw(color.into_raw()), color);
            }
        }
    }
}

#[test]
fn rgb565_every_payload_is_a_color() {
    for payload in 0..=u16::MAX {
        let color: Rgb565 = Rgb565::from_raw(RawU16::new(payload));
        assert_eq!(color.into_storage(), payload);
    }
}

#[test]
fn rgb555_round_trip_for_every_value() {
    for r in 0..32u8 {
        for g in 0..32u8 {
            for b in 0..32u8 {
                let color: Rgb555 = Rgb555::new(r, g, b);
                assert_eq!((color.r(), color.g(), color.b()), (r, g, b));
                assert_eq!(Rgb555::from_raw(color.into_raw()), color);
            }
        }
    }
}

#[test]
fn rgb555_ignores_the_unused_bit() {
    let plain: Rgb555 = Rgb555::from_raw(RawU16::new(0b0_10101_00111_11000));
    let marked: Rgb555 = Rgb555::from_raw(RawU16::new(0b1_10101_00111_11000));
    assert_eq!(plain, marked);
    assert_eq!((marked.r(), marked.g(), marked.b()), (0b10101, 0b00111, 0b11000));
    assert_eq!(marked.into_storage(), 0b0_10101_00111_11000);
}

#[test]
fn rgb888_round_trip_samples() {
    for r in [0u8, 1, 0x7f, 0x80, 0xfe, 0xff] {
        for g in [0u8, 3, 0x55, 0xaa, 0xff] {
            for b in 0..=255u8 {
                let color: Rgb888 = Rgb888::new(r, g, b);
                assert_eq!((color.r(), color.g(), color.b()), (r, g, b));
                assert_eq!(Rgb888::from_raw(color.into_raw()), color);
            }
        }
    }
}

#[test]
fn rgb_construction_masks() {
    let color: Rgb565 = Rgb565::new(0xff, 0xff, 0xe1);
    assert_eq!((color.r(), color.g(), color.b()), (31, 63, 1));
    let color: Rgb555 = Rgb555::with_channels(0x20, 0x41, 0xff);
    assert_eq!((color.r(), color.g(), color.b()), (0, 1, 31));
    assert_eq!(Rgb565::channel_bits(), (5, 6, 5));
    assert_eq!(Rgb555::channel_bits(), (5, 5, 5));
    assert_eq!(Rgb888::channel_bits(), (8, 8, 8));
}

#[test]
fn colors_order_by_their_channels() {
    assert!(Gray8::new(3) < Gray8::new(4));
    assert!(Rgb565::new(1, 0, 0) > Rgb565::new(0, 63, 31));
    assert!(Rgb565::new(1, 2, 3) < Rgb565::new(1, 2, 4));
    assert!(BinaryColor::Off < BinaryColor::On);
    assert_eq!(Rgb888::new(1, 2, 3), Rgb888::new(1, 2, 3));
    assert_ne!(Rgb888::new(1, 2, 3), Rgb888::new(1, 2, 4));
}

#[test]
fn coverage_levels() {
    assert_eq!(Coverage8::none().luma(), 0);
    assert_eq!(Coverage8::full().luma(), 255);
    assert_eq!(Coverage8::new(0x80).luma(), 0x80);
    assert_eq!(Coverage8::new(0x80).into_storage(), 0x80u8);
    assert_eq!(Coverage8::from_raw(RawU8::new(77)).luma(), 77);
    assert_eq!(Coverage8::luma_bits(), 8);
}
