use rgb::alt::{Gray, GrayAlpha};
use rgb::{Abgr, Argb, Bgr, Bgra, Grb, Rgb, Rgba};

#[test]
fn gray_becomes_each_color_channel() {
    let rgb: Rgb<u8> = Gray(77u8).into();
    assert_eq!(rgb, Rgb { r: 77, g: 77, b: 77 });
    let rgb: Rgb<i32> = Gray(-5).into();
    assert_eq!(rgb, Rgb { r: -5, g: -5, b: -5 });
}

#[test]
fn gray_gains_opaque_alpha() {
    let ga: GrayAlpha<u8, u8> = Gray(1u8).into();
    assert_eq!(ga, GrayAlpha(1, 255));
    let ga: GrayAlpha<u8, u16> = Gray(1u8).into();
    assert_eq!(ga, GrayAlpha(1, 65535));
    let ga: GrayAlpha<u16, u16> = Gray(1u16).into();
    assert_eq!(ga.1, 65535);
    let ga: GrayAlpha<i32, u8> = Gray(-1i32).into();
    assert_eq!(ga, GrayAlpha(-1, 255));
}

#[test]
fn gray_to_color_with_alpha_is_opaque() {
    let rgba: Rgba<u8, u8> = Gray(9u8).into();
    assert_eq!(rgba, Rgba { r: 9, g: 9, b: 9, a: 255 });
    let rgba: Rgba<u8, u16> = Gray(9u8).into();
    assert_eq!(rgba, Rgba { r: 9, g: 9, b: 9, a: 65535 });
}

#[test]
fn gray_alpha_to_color_alpha() {
    let rgba: Rgba<u8> = GrayAlpha(1u8, 2u8).into();
    assert_eq!(rgba.r, 1);
    assert_eq!(rgba.g, 1);
    assert_eq!(rgba.b, 1);
    assert_eq!(rgba.a, 2);
    let rgba: Rgba<u8, u16> = GrayAlpha(200u8, 0u16).into();
    assert_eq!(rgba, Rgba { r: 200, g: 200, b: 200, a: 0 });
}

#[test]
fn value_becomes_gray() {
    let g: Gray<u8> = 200.into();
    assert_eq!(g, Gray(200));
    assert_eq!(Gray::from(3u16), Gray(3u16));
}

#[test]
fn three_channel_orders_convert_by_field() {
    let rgb = Rgb { r: 1u8, g: 2, b: 3 };
    assert_eq!(Bgr::from(rgb), Bgr { b: 3, g: 2, r: 1 });
    assert_eq!(Grb::from(rgb), Grb { g: 2, r: 1, b: 3 });
    assert_eq!(Rgb::from(Bgr::from(rgb)), rgb);
    assert_eq!(Rgb::from(Grb::from(rgb)), rgb);
    assert_eq!(Grb::from(Bgr::from(rgb)), Grb::from(rgb));
    assert_eq!(Bgr::from(Grb::from(rgb)), Bgr::from(rgb));
}

#[test]
fn four_channel_orders_convert_by_field() {
    let rgba = Rgba { r: 1u8, g: 2, b: 3, a: 400u16 };
    assert_eq!(Bgra::from(rgba), Bgra { b: 3, g: 2, r: 1, a: 400 });
    assert_eq!(Argb::from(rgba), Argb { a: 400, r: 1, g: 2, b: 3 });
    assert_eq!(Abgr::from(rgba), Abgr { a: 400, b: 3, g: 2, r: 1 });
    assert_eq!(Rgba::from(Bgra::from(rgba)), rgba);
    assert_eq!(Rgba::from(Argb::from(rgba)), rgba);
    assert_eq!(Rgba::from(Abgr::from(rgba)), rgba);
    assert_eq!(Bgra::from(Argb::from(rgba)), Bgra::from(rgba));
    assert_eq!(Bgra::from(Abgr::from(rgba)), Bgra::from(rgba));
    assert_eq!(Argb::from(Bgra::from(rgba)), Argb::from(rgba));
    assert_eq!(Argb::from(Abgr::from(rgba)), Argb::from(rgba));
    assert_eq!(Abgr::from(Bgra::from(rgba)), Abgr::from(rgba));
    assert_eq!(Abgr::from(Argb::from(rgba)), Abgr::from(rgba));
}

#[test]
fn conversion_does_not_rescale() {
    let rgb = Rgb { r: 0u16, g: 65535, b: 32768 };
    assert_eq!(Bgr::from(rgb), Bgr { b: 32768, g: 65535, r: 0 });
    let rgb: Rgb<u16> = Gray(65535u16).into();
    assert_eq!(rgb, Rgb { r: 65535, g: 65535, b: 65535 });
}
