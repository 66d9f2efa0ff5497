//! What the conversions do, stated over the channels of their results.
use crate::formats::abgr::Abgr;
use crate::formats::argb::Argb;
use crate::formats::bgr::Bgr;
use crate::formats::bgra::Bgra;
use crate::formats::gray::Gray;
use crate::formats::gray_alpha::GrayAlpha;
use crate::formats::grb::Grb;
use crate::formats::rgb::Rgb;
use crate::formats::rgba::Rgba;
use crate::pixel::het_pixel::HetPixel;
use crate::pixel::meta_traits::PixelComponent;
use vstd::prelude::*;
use vstd::std_specs::convert::FromSpec;

verus! {

/// From grayscale to colour, each of the three colour channels is the
/// brightness.
pub proof fn lemma_gray_to_color<T: PixelComponent>(v: T)
    ensures
        Rgb::<T>::from_spec(Gray(v)).colors() == seq![v, v, v],
        Rgba::<T, u8>::from_spec(Gray(v)).colors() == seq![v, v, v],
        Rgba::<T, u16>::from_spec(Gray(v)).colors() == seq![v, v, v],
{
}

/// Grayscale that gains an alpha channel is fully opaque: alpha is 255 where
/// it has 8 bits and 65535 where it has 16, and the brightness stays.
pub proof fn lemma_gray_gains_opaque_alpha<T: PixelComponent>(v: T)
    ensures
        GrayAlpha::<T, u8>::from_spec(Gray(v)) == GrayAlpha(v, 255u8),
        GrayAlpha::<T, u16>::from_spec(Gray(v)) == GrayAlpha(v, 65535u16),
        Rgba::<T, u8>::from_spec(Gray(v)).opacity() == Some(255u8),
        Rgba::<T, u16>::from_spec(Gray(v)).opacity() == Some(65535u16),
{
}

/// From grayscale with alpha to colour with alpha, each of the three colour
/// channels is the brightness and alpha is carried over.
pub proof fn lemma_gray_alpha_to_color<T: Copy, A>(v: T, a: A)
    ensures
        Rgba::<T, A>::from_spec(GrayAlpha(v, a)) == (Rgba { r: v, g: v, b: v, a }),
{
}

/// Changing the channel order and changing it back gives the pixel back: a
/// reordering moves values and changes none.
pub proof fn lemma_reorder_round_trip<T, A>(p: Rgb<T>, q: Rgba<T, A>)
    ensures
        Rgb::<T>::from_spec(Bgr::<T>::from_spec(p)) == p,
        Rgb::<T>::from_spec(Grb::<T>::from_spec(p)) == p,
        Rgba::<T, A>::from_spec(Bgra::<T, A>::from_spec(q)) == q,
        Rgba::<T, A>::from_spec(Argb::<T, A>::from_spec(q)) == q,
        Rgba::<T, A>::from_spec(Abgr::<T, A>::from_spec(q)) == q,
{
}

} // verus!
