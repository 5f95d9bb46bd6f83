use pixelcolor::raw::{RawData, RawU1, RawU16, RawU2, RawU24, RawU4, RawU8};
use pixelcolor::{
    BinaryColor, Coverage8, Gray2, Gray4, Gray8, GrayColor, PixelColor, Rgb555, Rgb565, Rgb888,
    RgbColor,
};

#[test]
fn rgb565_converts_to_and_from_its_raw_form() {
    let color: Rgb565 = Rgb565::new(31, 0, 10);
    let raw: RawU16 = color.into();
    assert_eq!(raw.into_inner(), 0b11111_000000_01010u16);
    assert_eq!(raw, color.into_raw());
    assert_eq!(Rgb565::from(raw), color);
}

#[test]
fn rgb555_converts_to_and_from_its_raw_form() {
    let color: Rgb555 = Rgb555::from(RawU16::new(0b1_00001_00010_00011));
    assert_eq!((color.r(), color.g(), color.b()), (1, 2, 3));
    assert_eq!(RawU16::from(color).into_inner(), 0b0_00001_00010_00011);
}

#[test]
fn rgb888_converts_to_and_from_its_raw_form() {
    let color: Rgb888 = Rgb888::from(RawU24::new(0x12_3456));
    assert_eq!((color.r(), color.g(), color.b()), (0x12, 0x34, 0x56));
    assert_eq!(RawU24::from(color).into_inner(), 0x12_3456);
}

#[test]
fn grays_convert_to_and_from_their_raw_forms() {
    let gray: Gray8 = Gray8::from(RawU8::new(0x5a));
    assert_eq!(gray.luma(), 0x5a);
    assert_eq!(RawU8::from(gray).into_inner(), 0x5a);
    let gray: Gray4 = Gray4::from(RawU4::new(0x5a));
    assert_eq!(gray.luma(), 0xa);
    assert_eq!(RawU4::from(gray).into_inner(), 0xa);
    let gray: Gray2 = Gray2::from(RawU2::new(0x5a));
    assert_eq!(gray.luma(), 0x2);
    assert_eq!(RawU2::from(gray).into_inner(), 0x2);
    let level: Coverage8 = Coverage8::from(RawU8::new(200));
    assert_eq!(level.luma(), 200);
    assert_eq!(RawU8::from(level).into_inner(), 200);
}

#[test]
fn binary_converts_to_and_from_its_raw_form() {
    assert_eq!(BinaryColor::from(RawU1::new(1)), BinaryColor::On);
    assert_eq!(BinaryColor::from(RawU1::new(0)), BinaryColor::Off);
    assert_eq!(RawU1::from(BinaryColor::On).into_inner(), 1);
    assert_eq!(RawU1::from(BinaryColor::Off).into_inner(), 0);
}
