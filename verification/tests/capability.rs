use rgb::alt::{Gray, GrayAlpha, BGR};
use rgb::{
    Abgr, Argb, ArrayLike, Bgr, Bgra, ComponentSlice, Grb, HetPixel, HomPixel, Rgb, Rgba,
};

#[test]
fn channel_counts() {
    assert_eq!(<Rgb<u8> as HetPixel>::NUM_COMPONENTS, 3);
    assert_eq!(<Rgb<u8> as HetPixel>::NUM_COLOR_COMPONENTS, 3);
    assert_eq!(<Bgr<u8> as HetPixel>::NUM_COMPONENTS, 3);
    assert_eq!(<Grb<u8> as HetPixel>::NUM_COMPONENTS, 3);
    assert_eq!(<Rgba<u8, u16> as HetPixel>::NUM_COMPONENTS, 4);
    assert_eq!(<Rgba<u8, u16> as HetPixel>::NUM_COLOR_COMPONENTS, 3);
    assert_eq!(<Bgra<u8> as HetPixel>::NUM_COMPONENTS, 4);
    assert_eq!(<Argb<u8> as HetPixel>::NUM_COMPONENTS, 4);
    assert_eq!(<Abgr<u8> as HetPixel>::NUM_COLOR_COMPONENTS, 3);
    assert_eq!(<Gray<u8> as HetPixel>::NUM_COMPONENTS, 1);
    assert_eq!(<Gray<u8> as HetPixel>::NUM_COLOR_COMPONENTS, 1);
    assert_eq!(<GrayAlpha<u8, u16> as HetPixel>::NUM_COMPONENTS, 2);
    assert_eq!(<GrayAlpha<u8, u16> as HetPixel>::NUM_COLOR_COMPONENTS, 1);
}

#[test]
fn constructors_take_channels_in_declared_order() {
    assert_eq!(Rgb::new(1, 2, 3), Rgb { r: 1, g: 2, b: 3 });
    assert_eq!(Bgr::new_bgr(1, 2, 3), Bgr { b: 1, g: 2, r: 3 });
    assert_eq!(Grb::new_grb(1, 2, 3), Grb { g: 1, r: 2, b: 3 });
    assert_eq!(Rgba::new(1, 2, 3, 4u16), Rgba { r: 1, g: 2, b: 3, a: 4u16 });
    assert_eq!(Bgra::new_bgra(1, 2, 3, 4), Bgra { b: 1, g: 2, r: 3, a: 4 });
    assert_eq!(Argb::new_argb(1, 2, 3, 4), Argb { a: 1, r: 2, g: 3, b: 4 });
    assert_eq!(Abgr::new_abgr(1, 2, 3, 4), Abgr { a: 1, b: 2, g: 3, r: 4 });
    assert_eq!(Gray::new(5), Gray(5));
    assert_eq!(GrayAlpha::new(5, 6u16), GrayAlpha(5, 6u16));
}

#[test]
fn upper_case_bgr_constructor_takes_declared_order() {
    assert_eq!(BGR::new(255u8, 1, 0), Bgr { b: 255, g: 1, r: 0 });
    assert_eq!(BGR::new(255u8, 1, 0).as_slice(), &[255u8, 1, 0]);
    assert_eq!(BGR::new(1, 2, 3), Bgr::new_bgr(1, 2, 3));
}

#[test]
fn default_is_every_channel_default() {
    assert_eq!(Rgb::<u8>::default(), Rgb { r: 0, g: 0, b: 0 });
    assert_eq!(Bgra::<u8, bool>::default(), Bgra { b: 0, g: 0, r: 0, a: false });
    assert_eq!(Argb::<i16>::default(), Argb { a: 0, r: 0, g: 0, b: 0 });
    assert_eq!(Gray::<u16>::default(), Gray(0));
    assert_eq!(GrayAlpha::<u16, u8>::default(), GrayAlpha(0, 0));
}

#[test]
fn color_array_leaves_alpha_out() {
    assert_eq!(Rgb { r: 1u8, g: 2, b: 3 }.color_array(), [1, 2, 3]);
    assert_eq!(Bgr { r: 1u8, g: 2, b: 3 }.color_array(), [3, 2, 1]);
    assert_eq!(Grb { r: 1u8, g: 2, b: 3 }.color_array(), [2, 1, 3]);
    assert_eq!(Rgba { r: 1u8, g: 2, b: 3, a: 4u16 }.color_array(), [1, 2, 3]);
    assert_eq!(Bgra { r: 1u8, g: 2, b: 3, a: 4u16 }.color_array(), [3, 2, 1]);
    assert_eq!(Argb { r: 1u8, g: 2, b: 3, a: 4u16 }.color_array(), [1, 2, 3]);
    assert_eq!(Abgr { r: 1u8, g: 2, b: 3, a: 4u16 }.color_array(), [3, 2, 1]);
    assert_eq!(Gray(9u8).color_array(), [9]);
    assert_eq!(GrayAlpha(9u8, 4u16).color_array(), [9]);
}

#[test]
fn alpha_opt_is_some_only_with_alpha() {
    assert_eq!(Rgb { r: 1u8, g: 2, b: 3 }.alpha_opt(), None);
    assert_eq!(Bgr { r: 1u8, g: 2, b: 3 }.alpha_opt(), None);
    assert_eq!(Grb { r: 1u8, g: 2, b: 3 }.alpha_opt(), None);
    assert_eq!(Gray(1u8).alpha_opt(), None);
    assert_eq!(Rgba { r: 1u8, g: 2, b: 3, a: 400u16 }.alpha_opt(), Some(400));
    assert_eq!(Bgra { r: 1u8, g: 2, b: 3, a: 4u8 }.alpha_opt(), Some(4));
    assert_eq!(Argb { r: 1u8, g: 2, b: 3, a: 4u8 }.alpha_opt(), Some(4));
    assert_eq!(Abgr { r: 1u8, g: 2, b: 3, a: 4u8 }.alpha_opt(), Some(4));
    assert_eq!(GrayAlpha(1u8, 5u8).alpha_opt(), Some(5));
}

#[test]
fn alpha_opt_mut_writes_alpha_in_place() {
    let mut px = Rgba { r: 1u8, g: 2, b: 3, a: 400u16 };
    match px.alpha_opt_mut() {
        Some(a) => *a = 500,
        None => panic!("a pixel with alpha lends it out"),
    }
    assert_eq!(px, Rgba { r: 1, g: 2, b: 3, a: 500 });

    let mut px = Argb { a: 4u8, r: 1u8, g: 2, b: 3 };
    *px.alpha_opt_mut().unwrap() = 7;
    assert_eq!(px, Argb { a: 7, r: 1, g: 2, b: 3 });

    let mut px = GrayAlpha(1u8, 2u8);
    *px.alpha_opt_mut().unwrap() = 9;
    assert_eq!(px, GrayAlpha(1, 9));

    let mut px = Rgb { r: 1u8, g: 2, b: 3 };
    assert!(px.alpha_opt_mut().is_none());
    assert_eq!(px, Rgb { r: 1, g: 2, b: 3 });
    let mut px = Gray(1u8);
    assert!(px.alpha_opt_mut().is_none());
}

#[test]
fn pixel_from_colors_and_alpha() {
    assert_eq!(
        Rgba::<u8, u16>::try_from_colors_alpha([1, 2, 3], Some(400)),
        Some(Rgba { r: 1, g: 2, b: 3, a: 400 })
    );
    assert_eq!(
        Bgra::<u8, u16>::try_from_colors_alpha([1, 2, 3], Some(400)),
        Some(Bgra { b: 1, g: 2, r: 3, a: 400 })
    );
    assert_eq!(
        Argb::<u8>::try_from_colors_alpha([1, 2, 3], Some(4)),
        Some(Argb { a: 4, r: 1, g: 2, b: 3 })
    );
    assert_eq!(
        Abgr::<u8>::try_from_colors_alpha([1, 2, 3], Some(4)),
        Some(Abgr { a: 4, b: 1, g: 2, r: 3 })
    );
    assert_eq!(GrayAlpha::<u8>::try_from_colors_alpha([1], Some(4)), Some(GrayAlpha(1, 4)));
}

#[test]
fn pixel_with_alpha_needs_an_alpha_value() {
    assert_eq!(Rgba::<u8, u16>::try_from_colors_alpha([1, 2, 3], None), None);
    assert_eq!(Bgra::<u8>::try_from_colors_alpha([1, 2, 3], None), None);
    assert_eq!(Argb::<u8>::try_from_colors_alpha([1, 2, 3], None), None);
    assert_eq!(Abgr::<u8>::try_from_colors_alpha([1, 2, 3], None), None);
    assert_eq!(GrayAlpha::<u8>::try_from_colors_alpha([1], None), None);
}

#[test]
fn pixel_without_alpha_ignores_an_alpha_value() {
    assert_eq!(Rgb::<u8>::try_from_colors_alpha([1, 2, 3], None), Some(Rgb { r: 1, g: 2, b: 3 }));
    assert_eq!(Rgb::<u8>::try_from_colors_alpha([1, 2, 3], Some(9)), Some(Rgb { r: 1, g: 2, b: 3 }));
    assert_eq!(Bgr::<u8>::try_from_colors_alpha([1, 2, 3], Some(9)), Some(Bgr { b: 1, g: 2, r: 3 }));
    assert_eq!(Grb::<u8>::try_from_colors_alpha([1, 2, 3], None), Some(Grb { g: 1, r: 2, b: 3 }));
    assert_eq!(Gray::<u8>::try_from_colors_alpha([1], Some(9)), Some(Gray(1)));
}

#[test]
fn array_access_is_bounds_checked() {
    let a = [10u8, 20, 30];
    assert_eq!(a.count(), 3);
    assert_eq!(a.at(0), 10);
    assert_eq!(a.at(2), 30);
    assert_eq!(a.checked_at(0), Some(10));
    assert_eq!(a.checked_at(2), Some(30));
    assert_eq!(a.checked_at(3), None);
    assert_eq!(a.checked_at(usize::MAX), None);
    let empty: [u8; 0] = [];
    assert_eq!(empty.count(), 0);
    assert_eq!(empty.checked_at(0), None);
}

#[test]
fn alpha_less_part_of_a_pixel() {
    assert_eq!(Rgba { r: 1u8, g: 2, b: 3, a: 4u16 }.rgb(), Rgb { r: 1, g: 2, b: 3 });
    assert_eq!(Argb { r: 1u8, g: 2, b: 3, a: 4u16 }.rgb(), Rgb { r: 1, g: 2, b: 3 });
    assert_eq!(Bgra { r: 1u8, g: 2, b: 3, a: 4u16 }.bgr(), Bgr { r: 1, g: 2, b: 3 });
    assert_eq!(Abgr { r: 1u8, g: 2, b: 3, a: 4u16 }.bgr(), Bgr { r: 1, g: 2, b: 3 });
    assert_eq!(GrayAlpha(1u8, 4u16).gray(), Gray(1));
}

#[test]
fn alpha_is_added_and_replaced_by_value() {
    assert_eq!(Rgb { r: 1u8, g: 2, b: 3 }.with_alpha(4), Rgba { r: 1, g: 2, b: 3, a: 4 });
    assert_eq!(Rgb { r: 1u8, g: 2, b: 3 }.alpha(4), Rgba { r: 1, g: 2, b: 3, a: 4 });
    assert_eq!(Rgb { r: 1u8, g: 2, b: 3 }.new_alpha(400u16), Rgba { r: 1, g: 2, b: 3, a: 400u16 });
    assert_eq!(Bgr { r: 1u8, g: 2, b: 3 }.with_alpha(4), Bgra { r: 1, g: 2, b: 3, a: 4 });
    assert_eq!(Bgr { r: 1u8, g: 2, b: 3 }.alpha(4), Bgra { r: 1, g: 2, b: 3, a: 4 });
    assert_eq!(Bgr { r: 1u8, g: 2, b: 3 }.new_alpha(true), Bgra { r: 1, g: 2, b: 3, a: true });
    assert_eq!(Rgba { r: 1u8, g: 2, b: 3, a: 4u16 }.with_alpha(5), Rgba { r: 1, g: 2, b: 3, a: 5 });
    assert_eq!(Bgra { r: 1u8, g: 2, b: 3, a: 4u16 }.with_alpha(5), Bgra { r: 1, g: 2, b: 3, a: 5 });
    assert_eq!(Argb { r: 1u8, g: 2, b: 3, a: 4u16 }.with_alpha(5), Argb { r: 1, g: 2, b: 3, a: 5 });
    assert_eq!(Abgr { r: 1u8, g: 2, b: 3, a: 4u16 }.with_alpha(5), Abgr { r: 1, g: 2, b: 3, a: 5 });
    assert_eq!(GrayAlpha(1u8, 4u16).with_alpha(5), GrayAlpha(1, 5));
    assert_eq!(GrayAlpha(1u8, 4u16).alpha(5), GrayAlpha(1, 5));
}

#[test]
fn iter_hands_out_the_channels_in_declared_order() {
    assert_eq!(Rgb { r: 1u8, g: 2, b: 3 }.iter(), vec![1, 2, 3]);
    assert_eq!(Bgr { r: 1u8, g: 2, b: 3 }.iter(), vec![3, 2, 1]);
    assert_eq!(Grb { r: 1u8, g: 2, b: 3 }.iter(), vec![2, 1, 3]);
    let sum: u32 = Rgb { r: 1u32, g: 2, b: 3 }.iter().into_iter().sum();
    assert_eq!(sum, 6);
}

#[test]
fn pixel_from_the_first_three_items() {
    assert_eq!(Rgb::from_iter(vec![1u8, 2, 3].into_iter()), Rgb { r: 1, g: 2, b: 3 });
    assert_eq!(Rgb::from_iter([7u16, 8, 9, 10, 11].into_iter()), Rgb { r: 7, g: 8, b: 9 });
    assert_eq!(Rgb::from_iter(1u8..), Rgb { r: 1, g: 2, b: 3 });
}

#[test]
fn pixel_from_a_borrowed_iterator_takes_three_items() {
    let mut it = [1u8, 2, 3, 4, 5].into_iter();
    assert_eq!(Rgb::from_iter_mut(&mut it), Rgb { r: 1, g: 2, b: 3 });
    assert_eq!(it.next(), Some(4));
    assert_eq!(it.next(), Some(5));
    assert_eq!(it.next(), None);

    let mut it = vec![10u16, 20, 30, 40, 50, 60].into_iter();
    let first = Rgb::from_iter_mut(&mut it);
    let second = Rgb::from_iter_mut(&mut it);
    assert_eq!(first, Rgb { r: 10, g: 20, b: 30 });
    assert_eq!(second, Rgb { r: 40, g: 50, b: 60 });
    assert_eq!(it.next(), None);

    let mut it = [1u8, 2, 3, 4, 5].into_iter();
    assert_eq!(Rgb::from_iter(it.by_ref()), Rgb { r: 1, g: 2, b: 3 });
    assert_eq!(it.next(), Some(4));
}

#[test]
fn map_same_keeps_the_type() {
    assert_eq!(Rgb { r: 1u8, g: 2, b: 3 }.map_same(|c| c * 2), Rgb { r: 2, g: 4, b: 6 });
    assert_eq!(Argb { a: 1u8, r: 2, g: 3, b: 4 }.map_same(|c| c + 1), Argb { a: 2, r: 3, g: 4, b: 5 });
    assert_eq!(GrayAlpha(1u8, 2).map_same(|c| c + 1), GrayAlpha(2, 3));
}
