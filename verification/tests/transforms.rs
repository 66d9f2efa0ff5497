use rgb::alt::{Gray, GrayAlpha};
use rgb::{Abgr, Argb, Bgr, Bgra, ColorComponentMap, ComponentMap, Grb, HetPixel, Rgb, Rgba};

#[test]
fn map_with_identity_is_identity() {
    let rgb = Rgb { r: 1u8, g: 2, b: 3 };
    assert_eq!(rgb.map(|c| c), rgb);
    let bgr = Bgr { b: 1u8, g: 2, r: 3 };
    assert_eq!(bgr.map(|c| c), bgr);
    let grb = Grb { g: 1u8, r: 2, b: 3 };
    assert_eq!(grb.map(|c| c), grb);
    let rgba = Rgba { r: 1u8, g: 2, b: 3, a: 4 };
    assert_eq!(rgba.map(|c| c), rgba);
    let bgra = Bgra { b: 1u8, g: 2, r: 3, a: 4 };
    assert_eq!(bgra.map(|c| c), bgra);
    let argb = Argb { a: 1u8, r: 2, g: 3, b: 4 };
    assert_eq!(argb.map(|c| c), argb);
    let abgr = Abgr { a: 1u8, b: 2, g: 3, r: 4 };
    assert_eq!(abgr.map(|c| c), abgr);
    let gray = Gray(1u8);
    assert_eq!(gray.map(|c| c), gray);
    let ga = GrayAlpha(1u8, 2);
    assert_eq!(ga.map(|c| c), ga);
}

#[test]
fn map_reaches_every_channel() {
    assert_eq!(Rgba { r: 1u8, g: 2, b: 3, a: 4 }.map(|c| c * 10), Rgba { r: 10, g: 20, b: 30, a: 40 });
    assert_eq!(Abgr { a: 1u8, b: 2, g: 3, r: 4 }.map(|c| c * 10), Abgr { a: 10, b: 20, g: 30, r: 40 });
    assert_eq!(GrayAlpha(1u8, 2).map(|c| c * 10), GrayAlpha(10, 20));
}

#[test]
fn map_may_change_the_channel_type() {
    assert_eq!(Rgb { r: 1u8, g: 2, b: 3 }.map(|c| c as u32 * 1000), Rgb { r: 1000u32, g: 2000, b: 3000 });
    assert_eq!(Gray(200u8).map(|c| c > 100), Gray(true));
    assert_eq!(Bgra { b: 1u8, g: 2, r: 3, a: 4 }.map(|c| -(c as i16)), Bgra { b: -1i16, g: -2, r: -3, a: -4 });
}

#[test]
fn map_calls_the_function_once_for_each_channel() {
    let mut calls = 0;
    let out = Rgba { r: 1u8, g: 2, b: 3, a: 4 }.map(|c| {
        calls += 1;
        c
    });
    assert_eq!(calls, 4);
    assert_eq!(out, Rgba { r: 1, g: 2, b: 3, a: 4 });
    let mut calls = 0;
    let _ = Rgba { r: 1u8, g: 2, b: 3, a: 4u16 }.map_c(|c| {
        calls += 1;
        c
    });
    assert_eq!(calls, 3);
}

#[test]
fn halved_brightness() {
    let g = Gray::new(200u8).map(|c| c / 2);
    assert_eq!(g.0, 100);
}

#[test]
fn map_colors_leaves_alpha_unchanged() {
    assert_eq!(Rgba { r: 1u8, g: 2, b: 3, a: 400u16 }.map_c(|c| c + 1), Rgba { r: 2u8, g: 3, b: 4, a: 400u16 });
    assert_eq!(Bgra { b: 1u8, g: 2, r: 3, a: 400u16 }.map_c(|c| c + 1), Bgra { b: 2u8, g: 3, r: 4, a: 400u16 });
    assert_eq!(Argb { a: 400u16, r: 1u8, g: 2, b: 3 }.map_c(|c| c + 1), Argb { a: 400u16, r: 2u8, g: 3, b: 4 });
    assert_eq!(Abgr { a: 400u16, b: 1u8, g: 2, r: 3 }.map_c(|c| c + 1), Abgr { a: 400u16, b: 2u8, g: 3, r: 4 });
    assert_eq!(GrayAlpha(1u8, 400u16).map_c(|c| c + 1), GrayAlpha(2u8, 400u16));
    assert_eq!(Rgba { r: 1u8, g: 2, b: 3, a: 4u8 }.map_colors_same(|c| c * 2), Rgba { r: 2, g: 4, b: 6, a: 4 });
    assert_eq!(GrayAlpha(1u8, 4u8).map_colors_same(|c| c * 2), GrayAlpha(2, 4));
}

#[test]
fn map_colors_without_alpha_maps_every_channel() {
    assert_eq!(Rgb { r: 1u8, g: 2, b: 3 }.map_c(|c| c as i8 - 2), Rgb { r: -1i8, g: 0, b: 1 });
    assert_eq!(Bgr { b: 1u8, g: 2, r: 3 }.map_c(|c| c + 1), Bgr { b: 2, g: 3, r: 4 });
    assert_eq!(Grb { g: 1u8, r: 2, b: 3 }.map_c(|c| c + 1), Grb { g: 2, r: 3, b: 4 });
    assert_eq!(Gray(1u8).map_c(|c| c + 1), Gray(2));
    assert_eq!(Rgb { r: 1u8, g: 2, b: 3 }.map_colors_same(|c| c + 1), Rgb { r: 2, g: 3, b: 4 });
}

#[test]
fn map_alpha_leaves_colors_unchanged() {
    assert_eq!(Rgba { r: 1u8, g: 2, b: 3, a: 4u8 }.map_alpha(|a| a as u16 * 100), Rgba { r: 1u8, g: 2, b: 3, a: 400u16 });
    assert_eq!(Bgra { b: 1u8, g: 2, r: 3, a: 4u8 }.map_alpha(|a| a + 1), Bgra { b: 1, g: 2, r: 3, a: 5 });
    assert_eq!(Argb { a: 4u8, r: 1u8, g: 2, b: 3 }.map_alpha(|a| a + 1), Argb { a: 5, r: 1, g: 2, b: 3 });
    assert_eq!(Abgr { a: 4u8, b: 1u8, g: 2, r: 3 }.map_alpha(|a| a == 4), Abgr { a: true, b: 1u8, g: 2, r: 3 });
    assert_eq!(GrayAlpha(1u8, 4u8).map_alpha(|a| a + 1), GrayAlpha(1, 5));
    assert_eq!(Rgba { r: 1u8, g: 2, b: 3, a: 4u16 }.map_alpha_same(|a| a * 2), Rgba { r: 1, g: 2, b: 3, a: 8 });
    assert_eq!(Argb { a: 4u16, r: 1u8, g: 2, b: 3 }.map_alpha_same(|a| a * 2), Argb { a: 8, r: 1, g: 2, b: 3 });
}

#[test]
fn map_alpha_without_alpha_changes_nothing() {
    let mut calls = 0;
    let out = Rgb { r: 1u8, g: 2, b: 3 }.map_alpha_same(|a| {
        calls += 1;
        a + 1
    });
    assert_eq!(out, Rgb { r: 1, g: 2, b: 3 });
    assert_eq!(calls, 0);
    assert_eq!(Gray(1u8).map_alpha_same(|a| a + 1), Gray(1));
}

#[test]
fn map_gray_keeps_alpha() {
    let ga: GrayAlpha<u8, u8> = GrayAlpha(3, 2);
    let out: GrayAlpha<u16, u16> = ga.map_gray(|g| g as u16 * 100);
    assert_eq!(out, GrayAlpha(300, 2));
}

#[test]
fn scalar_is_added_to_every_channel() {
    assert_eq!(Rgb { r: 1u8, g: 2, b: 3 } + 10, Rgb { r: 11, g: 12, b: 13 });
    assert_eq!(Bgr { b: 1i32, g: 2, r: 3 } + -10, Bgr { b: -9, g: -8, r: -7 });
    assert_eq!(Grb { g: 1u16, r: 2, b: 3 } + 0, Grb { g: 1, r: 2, b: 3 });
}

#[test]
fn map_gray_with_the_same_alpha_type_keeps_alpha() {
    let g2: GrayAlpha<u8> = GrayAlpha(3, 2);
    assert_eq!(g2.map_gray(|g| g + 1), GrayAlpha::<u8>::new(4, 2));
    assert_eq!(g2.map(|g| g + 1), GrayAlpha(4, 3));
    assert_eq!(g2, GrayAlpha(3, 2));
    let p: GrayAlpha<u8, u16> = GrayAlpha(200, 65535);
    let kept: GrayAlpha<u8, u16> = p.map_gray(|g| g / 2);
    assert_eq!(kept, GrayAlpha(100, 65535));
}

#[test]
fn map_gray_agrees_with_map_colors() {
    let p: GrayAlpha<u8, u16> = GrayAlpha(7, 300);
    let by_gray: GrayAlpha<i32, u16> = p.map_gray(|g| g as i32 - 10);
    let by_colors: GrayAlpha<i32, u16> = p.map_c(|g| g as i32 - 10);
    assert_eq!(by_gray, by_colors);
    assert_eq!(by_gray, GrayAlpha(-3, 300));
}
