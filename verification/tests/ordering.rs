use rgb::alt::{Gray, GrayAlpha};
use rgb::{Abgr, Argb, Bgr, Bgra, Grb, Rgb, Rgba};
use std::cmp::Ordering;

#[test]
fn first_channel_weighs_most() {
    assert!(Rgb { r: 1u8, g: 2, b: 3 } < Rgb { r: 2, g: 1, b: 1 });
    assert!(Rgb { r: 1u8, g: 1, b: 2 } < Rgb { r: 1, g: 2, b: 1 });
    assert!(Rgb { r: 1u8, g: 1, b: 1 } < Rgb { r: 1, g: 1, b: 2 });
    assert!(Rgb { r: 2u8, g: 0, b: 0 } > Rgb { r: 1, g: 255, b: 255 });
}

#[test]
fn order_follows_declared_fields() {
    // Blue is declared first in `Bgr`, green in `Grb`, alpha in `Argb`.
    assert!(Bgr { b: 1u8, g: 9, r: 9 } < Bgr { b: 2, g: 0, r: 0 });
    assert!(Bgr { r: 1u8, g: 1, b: 2 } > Bgr { r: 2, g: 1, b: 1 });
    assert!(Grb { g: 1u8, r: 9, b: 9 } < Grb { g: 2, r: 0, b: 0 });
    assert!(Argb { a: 1u8, r: 9, g: 9, b: 9 } < Argb { a: 2, r: 0, g: 0, b: 0 });
    assert!(Abgr { a: 1u8, b: 1, g: 9, r: 9 } < Abgr { a: 1, b: 2, g: 0, r: 0 });
    assert!(Rgba { r: 1u8, g: 1, b: 1, a: 1u16 } < Rgba { r: 1, g: 1, b: 1, a: 2 });
    assert!(Bgra { b: 1u8, g: 1, r: 2, a: 0u16 } > Bgra { b: 1, g: 1, r: 1, a: 9 });
    assert!(Gray(1u8) < Gray(2));
    assert!(GrayAlpha(1u8, 9u8) < GrayAlpha(2, 0));
    assert!(GrayAlpha(1u8, 1u8) < GrayAlpha(1, 2));
}

#[test]
fn partial_cmp_agrees_with_cmp() {
    let pairs = [
        (Rgb { r: 1u8, g: 2, b: 3 }, Rgb { r: 2u8, g: 1, b: 1 }),
        (Rgb { r: 1, g: 1, b: 2 }, Rgb { r: 1, g: 2, b: 1 }),
        (Rgb { r: 5, g: 5, b: 5 }, Rgb { r: 5, g: 5, b: 5 }),
        (Rgb { r: 9, g: 0, b: 0 }, Rgb { r: 1, g: 1, b: 1 }),
    ];
    for (p, q) in pairs {
        assert_eq!(p.partial_cmp(&q), Some(p.cmp(&q)));
    }
    assert_eq!(Rgb { r: 5u8, g: 5, b: 5 }.partial_cmp(&Rgb { r: 5, g: 5, b: 5 }), Some(Ordering::Equal));
    assert_eq!(Rgb { r: 5u8, g: 5, b: 6 }.partial_cmp(&Rgb { r: 5, g: 5, b: 5 }), Some(Ordering::Greater));
}

#[test]
fn incomparable_channel_makes_pixels_incomparable() {
    let nan = f32::NAN;
    assert_eq!(Rgb { r: nan, g: 1.0, b: 1.0 }.partial_cmp(&Rgb { r: 1.0, g: 1.0, b: 1.0 }), None);
    assert_eq!(Rgb { r: 1.0, g: nan, b: 1.0 }.partial_cmp(&Rgb { r: 1.0, g: 1.0, b: 1.0 }), None);
    // An earlier channel that decides hides a later one that cannot be compared.
    assert_eq!(Rgb { r: 0.0, g: nan, b: 1.0 }.partial_cmp(&Rgb { r: 1.0, g: 1.0, b: 1.0 }), Some(Ordering::Less));
}
