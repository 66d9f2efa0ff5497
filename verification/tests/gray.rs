use rgb::alt::{Gray, GrayAlpha, GRAY8, GRAYA16, GRAYA8};
use rgb::{ComponentMap, ComponentSlice};

#[test]
fn gray() {
    let rgb: rgb::RGB<_> = Gray(1).into();
    assert_eq!(rgb.r, 1);
    assert_eq!(rgb.g, 1);
    assert_eq!(rgb.b, 1);

    let rgba: rgb::RGBA<_> = Gray(1u8).into();
    assert_eq!(rgba.r, 1);
    assert_eq!(rgba.g, 1);
    assert_eq!(rgba.b, 1);
    assert_eq!(rgba.a, 255);

    let g: GRAY8 = 200.into();
    let g = g.map(|c| c / 2);
    assert_eq!(110, g.0 + 10);
    assert_eq!(110, 10 + Gray(100).0);

    let ga: GRAYA8 = GrayAlpha(1, 2);
    assert_eq!(ga.gray(), Gray::new(1));
    let mut g2 = ga.clone();
    *g2.gray_mut() = 3;
    assert_eq!(g2.map_gray(|g| g + 1), GRAYA8::new(4, 2));
    assert_eq!(g2.map(|g| g + 1), GrayAlpha(4, 3));
    assert_eq!(g2.0, 3);
    assert_eq!(g2.as_slice(), &[3, 2]);
    assert_eq!(*g2.at_mut(0), 3);
    assert_eq!(*g2.at_mut(1), 2);
    assert_eq!(g2.with_alpha(13), GrayAlpha(3, 13));
    assert_eq!(g2.map_alpha(|x| x + 3), GrayAlpha(3, 5));

    assert_eq!((&[Gray(1u16), Gray(2)][..]).as_slice(), &[1, 2]);
    assert_eq!((&[GrayAlpha(1u16, 2), GrayAlpha(3, 4)][..]).as_slice(), &[1, 2, 3, 4]);

    let rgba: rgb::RGBA<_> = ga.into();
    assert_eq!(rgba.r, 1);
    assert_eq!(rgba.g, 1);
    assert_eq!(rgba.b, 1);
    assert_eq!(rgba.a, 2);

    let ga: GRAYA16 = GrayAlpha(1, 2);
    let rgba: rgb::RGBA<u16, u16> = ga.into();
    assert_eq!(rgba.r, 1);
    assert_eq!(rgba.g, 1);
    assert_eq!(rgba.b, 1);
    assert_eq!(rgba.a, 2);
}
