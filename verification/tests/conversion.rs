use pixelcolor::conversion::{
    binary_to_gray, binary_to_rgb, convert_byte_channel, convert_channel, gray_to_binary,
    gray_to_gray, gray_to_rgb, rgb_to_rgb,
};
use pixelcolor::{
    BinaryColor, Coverage8, Gray2, Gray4, Gray8, GrayColor, Rgb555, Rgb565, Rgb888, RgbColor,
};

fn max_of(bits: u32) -> u32 {
    if bits == 32 {
        u32::MAX
    } else {
        (1u32 << bits) - 1
    }
}

#[test]
fn gray2_full_widens_to_gray8_full() {
    let wide: Gray8 = gray_to_gray(Gray2::new(0b11));
    assert_eq!(wide.luma(), 0b1111_1111);
    assert_ne!(wide.luma(), 0b1100_0000);
    assert_ne!(wide.luma(), 0b0000_0011);
}

#[test]
fn gray2_mid_widens_by_replication() {
    let wide: Gray8 = gray_to_gray(Gray2::new(0b10));
    assert_eq!(wide.luma(), 0b1010_1010);
    let wide: Gray8 = gray_to_gray(Gray2::new(0b01));
    assert_eq!(wide.luma(), 0b0101_0101);
}

#[test]
fn binary_on_is_white_gray8() {
    let gray: Gray8 = binary_to_gray(BinaryColor::On);
    assert_eq!(gray.luma(), 255);
    assert_eq!(gray, Gray8::white());
}

#[test]
fn binary_off_is_black_gray8() {
    let gray: Gray8 = binary_to_gray(BinaryColor::Off);
    assert_eq!(gray.luma(), 0);
    assert_eq!(gray, Gray8::black());
}

#[test]
fn binary_to_narrow_grays() {
    let on2: Gray2 = binary_to_gray(BinaryColor::On);
    let on4: Gray4 = binary_to_gray(BinaryColor::On);
    let off2: Gray2 = binary_to_gray(BinaryColor::Off);
    let off4: Gray4 = binary_to_gray(BinaryColor::Off);
    assert_eq!(on2.luma(), 3);
    assert_eq!(on4.luma(), 15);
    assert_eq!(off2.luma(), 0);
    assert_eq!(off4.luma(), 0);
}

#[test]
fn binary_to_rgb_fills_every_channel() {
    let on: Rgb565 = binary_to_rgb(BinaryColor::On);
    assert_eq!((on.r(), on.g(), on.b()), (31, 63, 31));
    assert_eq!(on, Rgb565::white());
    let off: Rgb565 = binary_to_rgb(BinaryColor::Off);
    assert_eq!((off.r(), off.g(), off.b()), (0, 0, 0));
    let on: Rgb888 = binary_to_rgb(BinaryColor::On);
    assert_eq!((on.r(), on.g(), on.b()), (255, 255, 255));
    let on: Rgb555 = binary_to_rgb(BinaryColor::On);
    assert_eq!((on.r(), on.g(), on.b()), (31, 31, 31));
}

#[test]
fn narrowing_keeps_the_top_bits() {
    assert_eq!(convert_channel(0b1011_0110, 8, 5), 0b10110);
    assert_eq!(convert_channel(0b1011_0110, 8, 2), 0b10);
    assert_eq!(convert_channel(0b1011_0110, 8, 1), 1);
    assert_eq!(convert_channel(0x80, 8, 5), 16);
    assert_eq!(convert_channel(0xdead_beef, 32, 16), 0xdead);
    assert_eq!(convert_channel(0xdead_beef, 32, 32), 0xdead_beef);
}

#[test]
fn widening_repeats_the_pattern() {
    assert_eq!(convert_channel(0b10101, 5, 8), 0b1010_1101);
    assert_eq!(convert_channel(0b10, 2, 5), 0b10101);
    assert_eq!(convert_channel(0b110, 3, 8), 0b1101_1011);
    assert_eq!(convert_channel(1, 1, 8), 0xff);
    assert_eq!(convert_channel(1, 1, 32), 0xffff_ffff);
    assert_eq!(convert_channel(0xabcd, 16, 32), 0xabcd_abcd);
    assert_eq!(convert_channel(0xabcd, 16, 24), 0xab_cdab);
    assert_eq!(convert_channel(0b01, 2, 3), 0b010);
}

#[test]
fn widening_is_not_zero_fill() {
    assert_ne!(convert_channel(0b11, 2, 8), 0b1100_0000);
    assert_ne!(convert_byte_channel(0b10, 2, 8), 0b1000_0000);
    assert_eq!(convert_byte_channel(0b10, 2, 8), 170);
}

#[test]
fn same_width_is_identity() {
    for bits in 1..=8u32 {
        for value in 0..=max_of(bits) {
            assert_eq!(convert_channel(value, bits, bits), value);
        }
    }
}

#[test]
fn extremes_are_preserved_for_every_width_pair() {
    for from in 1..=32u32 {
        for to in 1..=32u32 {
            assert_eq!(convert_channel(0, from, to), 0);
            assert_eq!(convert_channel(max_of(from), from, to), max_of(to));
        }
    }
}

#[test]
fn results_fit_the_destination() {
    for from in 1..=8u32 {
        for to in 1..=12u32 {
            for value in 0..=max_of(from) {
                assert!(convert_channel(value, from, to) <= max_of(to));
            }
        }
    }
}

#[test]
fn narrowing_preserves_order() {
    for from in 1..=8u32 {
        for to in 1..=from {
            for a in 0..max_of(from) {
                let low: u32 = convert_channel(a, from, to);
                let high: u32 = convert_channel(a + 1, from, to);
                assert!(low <= high);
            }
        }
    }
}

#[test]
fn widening_preserves_order() {
    for from in 1..=8u32 {
        for to in from..=16u32 {
            for a in 0..max_of(from) {
                assert!(convert_channel(a, from, to) < convert_channel(a + 1, from, to));
            }
        }
    }
}

#[test]
fn widening_then_narrowing_gives_the_source() {
    for from in 1..=8u32 {
        for to in from..=8u32 {
            for value in 0..=max_of(from) {
                let wide: u32 = convert_channel(value, from, to);
                assert_eq!(convert_channel(wide, to, from), value);
            }
        }
    }
}

#[test]
fn gray_to_gray_narrows() {
    let narrow: Gray2 = gray_to_gray(Gray8::new(0b1011_0110));
    assert_eq!(narrow.luma(), 0b10);
    let narrow: Gray4 = gray_to_gray(Gray8::new(0b1011_0110));
    assert_eq!(narrow.luma(), 0b1011);
    let wide: Gray4 = gray_to_gray(Gray2::new(0b10));
    assert_eq!(wide.luma(), 0b1010);
}

#[test]
fn gray_to_rgb_uses_one_intensity_for_all_channels() {
    let color: Rgb565 = gray_to_rgb(Gray8::new(0b1011_0110));
    assert_eq!((color.r(), color.g(), color.b()), (0b10110, 0b101101, 0b10110));
    let color: Rgb888 = gray_to_rgb(Gray2::new(0b10));
    assert_eq!((color.r(), color.g(), color.b()), (170, 170, 170));
    let color: Rgb565 = gray_to_rgb(Gray4::new(0b1001));
    assert_eq!((color.r(), color.g(), color.b()), (0b10011, 0b100110, 0b10011));
}

#[test]
fn rgb_to_rgb_requantizes_each_channel() {
    let color: Rgb565 = rgb_to_rgb(Rgb888::new(0xff, 0x80, 0x0f));
    assert_eq!((color.r(), color.g(), color.b()), (31, 32, 1));
    let color: Rgb888 = rgb_to_rgb(Rgb565::new(31, 0, 10));
    assert_eq!((color.r(), color.g(), color.b()), (255, 0, 0b0101_0010));
    let color: Rgb555 = rgb_to_rgb(Rgb565::new(7, 0b101101, 30));
    assert_eq!((color.r(), color.g(), color.b()), (7, 0b10110, 30));
    let color: Rgb565 = rgb_to_rgb(Rgb555::new(7, 0b10110, 30));
    assert_eq!((color.r(), color.g(), color.b()), (7, 0b101101, 30));
}

#[test]
fn rgb_white_and_black_survive_conversion() {
    let white: Rgb565 = rgb_to_rgb(Rgb888::white());
    assert_eq!(white, Rgb565::white());
    let white: Rgb888 = rgb_to_rgb(Rgb555::white());
    assert_eq!(white, Rgb888::white());
    let black: Rgb555 = rgb_to_rgb(Rgb888::black());
    assert_eq!(black, Rgb555::black());
}

#[test]
fn coverage_converts_as_an_eight_bit_level() {
    let level: Coverage8 = gray_to_gray(Gray2::new(0b10));
    assert_eq!(level.luma(), 170);
    let full: Coverage8 = binary_to_gray(BinaryColor::On);
    assert_eq!(full, Coverage8::full());
    let gray: Gray4 = gray_to_gray(Coverage8::new(0xc3));
    assert_eq!(gray.luma(), 0xc);
}

#[test]
fn gray_to_binary_splits_at_the_middle() {
    assert_eq!(gray_to_binary(Gray8::new(0)), BinaryColor::Off);
    assert_eq!(gray_to_binary(Gray8::new(127)), BinaryColor::Off);
    assert_eq!(gray_to_binary(Gray8::new(128)), BinaryColor::On);
    assert_eq!(gray_to_binary(Gray8::new(255)), BinaryColor::On);
    assert_eq!(gray_to_binary(Gray2::new(1)), BinaryColor::Off);
    assert_eq!(gray_to_binary(Gray2::new(2)), BinaryColor::On);
    assert_eq!(gray_to_binary(Gray4::new(7)), BinaryColor::Off);
    assert_eq!(gray_to_binary(Gray4::new(8)), BinaryColor::On);
}

#[test]
fn binary_survives_the_way_through_gray() {
    for color in [BinaryColor::Off, BinaryColor::On] {
        let gray: Gray8 = binary_to_gray(color);
        assert_eq!(gray_to_binary(gray), color);
        let gray: Gray2 = binary_to_gray(color);
        assert_eq!(gray_to_binary(gray), color);
    }
}
