use rgb::alt::{Gray, GrayAlpha};
use rgb::{Abgr, Argb, Bgr, Bgra, ComponentSlice, Grb, HomPixel, Rgb, Rgba};

#[test]
fn flat_view_lists_fields_in_declared_order() {
    assert_eq!(Rgb { r: 1u8, g: 2, b: 3 }.as_slice(), &[1, 2, 3]);
    assert_eq!(Bgr { b: 1u8, g: 2, r: 3 }.as_slice(), &[1, 2, 3]);
    assert_eq!(Grb { g: 1u8, r: 2, b: 3 }.as_slice(), &[1, 2, 3]);
    assert_eq!(Rgba { r: 1u8, g: 2, b: 3, a: 4 }.as_slice(), &[1, 2, 3, 4]);
    assert_eq!(Bgra { b: 1u8, g: 2, r: 3, a: 4 }.as_slice(), &[1, 2, 3, 4]);
    assert_eq!(Argb { a: 1u8, r: 2, g: 3, b: 4 }.as_slice(), &[1, 2, 3, 4]);
    assert_eq!(Abgr { a: 1u8, b: 2, g: 3, r: 4 }.as_slice(), &[1, 2, 3, 4]);
    assert_eq!(Gray(7u16).as_slice(), &[7]);
    assert_eq!(GrayAlpha(7u16, 9).as_slice(), &[7, 9]);
}

#[test]
fn flat_view_follows_the_order_not_the_colour() {
    // The same colour in two channel orders has two flat views.
    assert_eq!(Rgb { r: 10u8, g: 20, b: 30 }.as_slice(), &[10, 20, 30]);
    assert_eq!(Bgr { r: 10u8, g: 20, b: 30 }.as_slice(), &[30, 20, 10]);
    assert_eq!(Grb { r: 10u8, g: 20, b: 30 }.as_slice(), &[20, 10, 30]);
    assert_eq!(Argb { r: 10u8, g: 20, b: 30, a: 40 }.as_slice(), &[40, 10, 20, 30]);
    assert_eq!(Abgr { r: 10u8, g: 20, b: 30, a: 40 }.as_slice(), &[40, 30, 20, 10]);
}

#[test]
fn component_array_is_the_flat_view() {
    assert_eq!(Rgb { r: 1u8, g: 2, b: 3 }.component_array(), [1, 2, 3]);
    assert_eq!(Argb { a: 1u8, r: 2, g: 3, b: 4 }.component_array(), [1, 2, 3, 4]);
    assert_eq!(Gray(5i32).component_array(), [5]);
    assert_eq!(GrayAlpha(5i32, -6).component_array(), [5, -6]);
}

#[test]
fn writing_a_position_writes_the_field() {
    let mut rgb = Rgb { r: 1u8, g: 2, b: 3 };
    *rgb.at_mut(0) = 10;
    assert_eq!(rgb, Rgb { r: 10, g: 2, b: 3 });
    *rgb.at_mut(1) = 20;
    assert_eq!(rgb, Rgb { r: 10, g: 20, b: 3 });
    *rgb.at_mut(2) = 30;
    assert_eq!(rgb, Rgb { r: 10, g: 20, b: 30 });

    let mut bgr = Bgr { b: 1u8, g: 2, r: 3 };
    *bgr.at_mut(0) = 10;
    assert_eq!(bgr.b, 10);
    *bgr.at_mut(2) = 30;
    assert_eq!(bgr.r, 30);
    assert_eq!(bgr.g, 2);

    let mut grb = Grb { g: 1u8, r: 2, b: 3 };
    *grb.at_mut(0) = 10;
    *grb.at_mut(1) = 20;
    assert_eq!(grb, Grb { g: 10, r: 20, b: 3 });

    let mut rgba = Rgba { r: 1u8, g: 2, b: 3, a: 4 };
    *rgba.at_mut(3) = 40;
    assert_eq!(rgba, Rgba { r: 1, g: 2, b: 3, a: 40 });

    let mut bgra = Bgra { b: 1u8, g: 2, r: 3, a: 4 };
    *bgra.at_mut(0) = 10;
    *bgra.at_mut(3) = 40;
    assert_eq!(bgra, Bgra { b: 10, g: 2, r: 3, a: 40 });

    let mut argb = Argb { a: 1u8, r: 2, g: 3, b: 4 };
    *argb.at_mut(0) = 10;
    *argb.at_mut(1) = 20;
    assert_eq!(argb, Argb { a: 10, r: 20, g: 3, b: 4 });

    let mut abgr = Abgr { a: 1u8, b: 2, g: 3, r: 4 };
    *abgr.at_mut(1) = 20;
    *abgr.at_mut(3) = 40;
    assert_eq!(abgr, Abgr { a: 1, b: 20, g: 3, r: 40 });

    let mut gray = Gray(1u8);
    *gray.at_mut(0) = 9;
    assert_eq!(gray, Gray(9));

    let mut ga = GrayAlpha(1u8, 2);
    *ga.at_mut(1) = 9;
    assert_eq!(ga, GrayAlpha(1, 9));
}

#[test]
fn component_mut_reads_before_it_writes() {
    let mut px = Rgba { r: 1u16, g: 2, b: 3, a: 4 };
    let g = px.component_mut(1);
    assert_eq!(*g, 2);
    *g += 100;
    assert_eq!(px.as_slice(), &[1, 102, 3, 4]);
}

#[test]
fn round_trip_through_the_flat_view() {
    let rgb = Rgb { r: 1u8, g: 2, b: 3 };
    assert_eq!(Rgb::try_from_components(&rgb.as_slice()), Some(rgb));
    let bgr = Bgr { b: 1u8, g: 2, r: 3 };
    assert_eq!(Bgr::try_from_components(&bgr.as_slice()), Some(bgr));
    let grb = Grb { g: 1u8, r: 2, b: 3 };
    assert_eq!(Grb::try_from_components(&grb.as_slice()), Some(grb));
    let rgba = Rgba { r: 1u8, g: 2, b: 3, a: 4 };
    assert_eq!(Rgba::try_from_components(&rgba.as_slice()), Some(rgba));
    let bgra = Bgra { b: 1u8, g: 2, r: 3, a: 4 };
    assert_eq!(Bgra::try_from_components(&bgra.as_slice()), Some(bgra));
    let argb = Argb { a: 1u8, r: 2, g: 3, b: 4 };
    assert_eq!(Argb::try_from_components(&argb.as_slice()), Some(argb));
    let abgr = Abgr { a: 1u8, b: 2, g: 3, r: 4 };
    assert_eq!(Abgr::try_from_components(&abgr.as_slice()), Some(abgr));
    let gray = Gray(1u8);
    assert_eq!(Gray::try_from_components(&gray.as_slice()), Some(gray));
    let ga = GrayAlpha(1u8, 2);
    assert_eq!(GrayAlpha::try_from_components(&ga.as_slice()), Some(ga));
}

#[test]
fn too_few_components_build_no_pixel() {
    assert_eq!(Rgb::<u8>::try_from_components(&[]), None);
    assert_eq!(Rgb::<u8>::try_from_components(&[1, 2]), None);
    assert_eq!(Rgba::<u8>::try_from_components(&[1, 2, 3]), None);
    assert_eq!(Argb::<u8>::try_from_components(&[1, 2, 3]), None);
    assert_eq!(Gray::<u8>::try_from_components(&[]), None);
    assert_eq!(GrayAlpha::<u8>::try_from_components(&[1]), None);
}

#[test]
fn components_past_the_last_channel_are_left_out() {
    assert_eq!(Rgb::try_from_components(&[1u8, 2, 3, 4, 5]), Some(Rgb { r: 1, g: 2, b: 3 }));
    assert_eq!(Abgr::try_from_components(&[1u8, 2, 3, 4, 5]), Some(Abgr { a: 1, b: 2, g: 3, r: 4 }));
    assert_eq!(Gray::try_from_components(&[1u8, 2]), Some(Gray(1)));
}

#[test]
fn run_of_pixels_is_flattened_pixel_by_pixel() {
    let run = [Rgb { r: 1u8, g: 2, b: 3 }, Rgb { r: 4, g: 5, b: 6 }, Rgb { r: 7, g: 8, b: 9 }];
    assert_eq!(run[..].as_slice(), &[1, 2, 3, 4, 5, 6, 7, 8, 9]);
    let run = vec![Argb { a: 1u16, r: 2, g: 3, b: 4 }, Argb { a: 5, r: 6, g: 7, b: 8 }];
    assert_eq!(run[..].as_slice(), &[1, 2, 3, 4, 5, 6, 7, 8]);
    let run = [Bgr { r: 1u8, g: 2, b: 3 }];
    assert_eq!(run[..].as_slice(), &[3, 2, 1]);
}

#[test]
fn empty_run_has_an_empty_flat_view() {
    let run: [Rgb<u8>; 0] = [];
    assert_eq!(run[..].as_slice(), Vec::<u8>::new());
}

#[test]
fn writing_a_position_of_a_run_writes_one_pixel() {
    let mut run = vec![Rgb { r: 1u8, g: 2, b: 3 }, Rgb { r: 4, g: 5, b: 6 }];
    *run[..].at_mut(4) = 50;
    assert_eq!(run, vec![Rgb { r: 1, g: 2, b: 3 }, Rgb { r: 4, g: 50, b: 6 }]);
    *run[..].at_mut(0) = 10;
    *run[..].at_mut(5) = 60;
    assert_eq!(run[..].as_slice(), &[10, 2, 3, 4, 50, 60]);

    let mut run = [GrayAlpha(1u8, 2), GrayAlpha(3, 4), GrayAlpha(5, 6)];
    assert_eq!(*run[..].at_mut(3), 4);
    *run[..].at_mut(3) = 40;
    assert_eq!(run, [GrayAlpha(1, 2), GrayAlpha(3, 40), GrayAlpha(5, 6)]);
}

#[test]
fn three_channel_pixel_and_its_alpha_form() {
    let px = Rgb::new(255u8, 0, 100);
    assert_eq!(px.as_slice(), &[255, 0, 100]);
    assert_eq!(px.with_alpha(253).as_slice(), &[255, 0, 100, 253]);
}

#[test]
fn checked_position_of_a_pixel() {
    let mut rgb = Rgb { r: 1u8, g: 2, b: 3 };
    match rgb.checked_at_mut(2) {
        Some(c) => {
            assert_eq!(*c, 3);
            *c = 30;
        }
        None => panic!("the last channel is in range"),
    }
    assert_eq!(rgb, Rgb { r: 1, g: 2, b: 30 });
    assert!(rgb.checked_at_mut(3).is_none());
    assert!(rgb.checked_at_mut(usize::MAX).is_none());
    assert_eq!(rgb, Rgb { r: 1, g: 2, b: 30 });

    let mut argb = Argb { a: 1u8, r: 2, g: 3, b: 4 };
    *argb.checked_component_mut(0).unwrap() = 10;
    *argb.checked_component_mut(3).unwrap() = 40;
    assert_eq!(argb, Argb { a: 10, r: 2, g: 3, b: 40 });
    assert!(argb.checked_component_mut(4).is_none());
    assert_eq!(argb, Argb { a: 10, r: 2, g: 3, b: 40 });

    let mut gray = Gray(1u8);
    *gray.checked_component_mut(0).unwrap() = 9;
    assert_eq!(gray, Gray(9));
    assert!(gray.checked_component_mut(1).is_none());

    let mut ga = GrayAlpha(1u8, 2);
    *ga.checked_at_mut(1).unwrap() = 20;
    assert_eq!(ga, GrayAlpha(1, 20));
    assert!(ga.checked_at_mut(2).is_none());

    let mut bgr = Bgr { b: 1u8, g: 2, r: 3 };
    assert!(bgr.checked_component_mut(3).is_none());
    let mut grb = Grb { g: 1u8, r: 2, b: 3 };
    assert!(grb.checked_component_mut(3).is_none());
    let mut rgba = Rgba { r: 1u8, g: 2, b: 3, a: 4 };
    assert!(rgba.checked_component_mut(4).is_none());
    let mut bgra = Bgra { b: 1u8, g: 2, r: 3, a: 4 };
    assert!(bgra.checked_component_mut(4).is_none());
    let mut abgr = Abgr { a: 1u8, b: 2, g: 3, r: 4 };
    assert!(abgr.checked_component_mut(4).is_none());
    *abgr.checked_component_mut(1).unwrap() = 20;
    assert_eq!(abgr, Abgr { a: 1, b: 20, g: 3, r: 4 });
}

#[test]
fn checked_position_of_a_run() {
    let mut run = vec![Rgb { r: 1u8, g: 2, b: 3 }, Rgb { r: 4, g: 5, b: 6 }];
    *run[..].checked_at_mut(5).unwrap() = 60;
    *run[..].checked_at_mut(0).unwrap() = 10;
    assert_eq!(run, vec![Rgb { r: 10, g: 2, b: 3 }, Rgb { r: 4, g: 5, b: 60 }]);
    assert!(run[..].checked_at_mut(6).is_none());
    assert!(run[..].checked_at_mut(usize::MAX).is_none());
    assert_eq!(run, vec![Rgb { r: 10, g: 2, b: 3 }, Rgb { r: 4, g: 5, b: 60 }]);

    let mut none: Vec<GrayAlpha<u8>> = Vec::new();
    assert!(none[..].checked_at_mut(0).is_none());
}

#[test]
fn flat_view_is_written_back_whole() {
    let mut rgb = Rgb { r: 1u8, g: 2, b: 3 };
    assert!(rgb.write_flat(&[7, 8, 9]));
    assert_eq!(rgb, Rgb { r: 7, g: 8, b: 9 });
    assert!(!rgb.write_flat(&[1, 2]));
    assert!(!rgb.write_flat(&[1, 2, 3, 4]));
    assert!(!rgb.write_flat(&[]));
    assert_eq!(rgb, Rgb { r: 7, g: 8, b: 9 });

    let mut argb = Argb { a: 1u8, r: 2, g: 3, b: 4 };
    assert!(argb.write_flat(&[10, 20, 30, 40]));
    assert_eq!(argb, Argb { a: 10, r: 20, g: 30, b: 40 });

    let mut run = vec![Bgr { b: 1u16, g: 2, r: 3 }, Bgr { b: 4, g: 5, r: 6 }];
    assert!(run[..].write_flat(&[10, 20, 30, 40, 50, 60]));
    assert_eq!(run, vec![Bgr { b: 10, g: 20, r: 30 }, Bgr { b: 40, g: 50, r: 60 }]);
    assert!(!run[..].write_flat(&[1, 2, 3, 4, 5]));
    assert!(!run[..].write_flat(&[1, 2, 3, 4, 5, 6, 7]));
    assert!(!run[..].write_flat(&[1, 2, 3]));
    assert_eq!(run, vec![Bgr { b: 10, g: 20, r: 30 }, Bgr { b: 40, g: 50, r: 60 }]);
    let back = run[..].as_slice();
    assert!(run[..].write_flat(&back));
    assert_eq!(run[..].as_slice(), back);

    let mut none: Vec<Gray<u8>> = Vec::new();
    assert!(none[..].write_flat(&[]));
    assert!(!none[..].write_flat(&[1]));
}
