//! Conversions between pixel types. All of them are total: they copy channel
//! values to their new places and never change one.
//!
//! Between two channel orders a conversion is a permutation of the fields.
//! From grayscale to colour the brightness becomes each of the three colour
//! channels. Where grayscale gains an alpha channel, the pixel is taken to be
//! fully opaque: alpha is the largest value of its type, which is defined for
//! 8-bit and 16-bit alpha. Colour gains alpha only through `with_alpha` and
//! `new_alpha`, where the caller names the value.
use crate::formats::abgr::Abgr;
use crate::formats::argb::Argb;
use crate::formats::bgr::Bgr;
use crate::formats::bgra::Bgra;
use crate::formats::gray::Gray;
use crate::formats::gray_alpha::GrayAlpha;
use crate::formats::grb::Grb;
use crate::formats::rgb::Rgb;
use crate::formats::rgba::Rgba;
use vstd::prelude::*;
use vstd::std_specs::convert::FromSpecImpl;

pub mod lemmas;

verus! {

/// The alpha value of a fully opaque pixel with 8-bit alpha.
pub const OPAQUE_U8: u8 = 0xFF;

/// The alpha value of a fully opaque pixel with 16-bit alpha.
pub const OPAQUE_U16: u16 = 0xFFFF;

/// std's conversion of a value to its own type, `From<T> for T`, hands the
/// value back. Contracts that end in a conversion to a type asked for by the
/// caller, such as the alpha of `GrayAlpha::map_gray`, rest on this where the
/// type is kept.
pub assume_specification<Q>[ <Q as core::convert::From<Q>>::from ](t: Q) -> (r: Q)
    ensures
        r == t,
;

impl<T> From<Bgr<T>> for Rgb<T> {
    /// The same channel values in the order of `Rgb`.
    fn from(other: Bgr<T>) -> (out: Self)
        ensures
            out == (Rgb { r: other.r, g: other.g, b: other.b }),
    {
        Rgb { r: other.r, g: other.g, b: other.b }
    }
}

impl<T> FromSpecImpl<Bgr<T>> for Rgb<T> {
    open spec fn obeys_from_spec() -> bool {
        true
    }

    open spec fn from_spec(other: Bgr<T>) -> Self {
        Rgb { r: other.r, g: other.g, b: other.b }
    }
}

impl<T> From<Grb<T>> for Rgb<T> {
    /// The same channel values in the order of `Rgb`.
    fn from(other: Grb<T>) -> (out: Self)
        ensures
            out == (Rgb { r: other.r, g: other.g, b: other.b }),
    {
        Rgb { r: other.r, g: other.g, b: other.b }
    }
}

impl<T> FromSpecImpl<Grb<T>> for Rgb<T> {
    open spec fn obeys_from_spec() -> bool {
        true
    }

    open spec fn from_spec(other: Grb<T>) -> Self {
        Rgb { r: other.r, g: other.g, b: other.b }
    }
}

impl<T> From<Rgb<T>> for Bgr<T> {
    /// The same channel values in the order of `Bgr`.
    fn from(other: Rgb<T>) -> (out: Self)
        ensures
            out == (Bgr { b: other.b, g: other.g, r: other.r }),
    {
        Bgr { b: other.b, g: other.g, r: other.r }
    }
}

impl<T> FromSpecImpl<Rgb<T>> for Bgr<T> {
    open spec fn obeys_from_spec() -> bool {
        true
    }

    open spec fn from_spec(other: Rgb<T>) -> Self {
        Bgr { b: other.b, g: other.g, r: other.r }
    }
}

impl<T> From<Grb<T>> for Bgr<T> {
    /// The same channel values in the order of `Bgr`.
    fn from(other: Grb<T>) -> (out: Self)
        ensures
            out == (Bgr { b: other.b, g: other.g, r: other.r }),
    {
        Bgr { b: other.b, g: other.g, r: other.r }
    }
}

impl<T> FromSpecImpl<Grb<T>> for Bgr<T> {
    open spec fn obeys_from_spec() -> bool {
        true
    }

    open spec fn from_spec(other: Grb<T>) -> Self {
        Bgr { b: other.b, g: other.g, r: other.r }
    }
}

impl<T> From<Rgb<T>> for Grb<T> {
    /// The same channel values in the order of `Grb`.
    fn from(other: Rgb<T>) -> (out: Self)
        ensures
            out == (Grb { g: other.g, r: other.r, b: other.b }),
    {
        Grb { g: other.g, r: other.r, b: other.b }
    }
}

impl<T> FromSpecImpl<Rgb<T>> for Grb<T> {
    open spec fn obeys_from_spec() -> bool {
        true
    }

    open spec fn from_spec(other: Rgb<T>) -> Self {
        Grb { g: other.g, r: other.r, b: other.b }
    }
}

impl<T> From<Bgr<T>> for Grb<T> {
    /// The same channel values in the order of `Grb`.
    fn from(other: Bgr<T>) -> (out: Self)
        ensures
            out == (Grb { g: other.g, r: other.r, b: other.b }),
    {
        Grb { g: other.g, r: other.r, b: other.b }
    }
}

impl<T> FromSpecImpl<Bgr<T>> for Grb<T> {
    open spec fn obeys_from_spec() -> bool {
        true
    }

    open spec fn from_spec(other: Bgr<T>) -> Self {
        Grb { g: other.g, r: other.r, b: other.b }
    }
}

impl<T, A> From<Bgra<T, A>> for Rgba<T, A> {
    /// The same channel values in the order of `Rgba`.
    fn from(other: Bgra<T, A>) -> (out: Self)
        ensures
            out == (Rgba { r: other.r, g: other.g, b: other.b, a: other.a }),
    {
        Rgba { r: other.r, g: other.g, b: other.b, a: other.a }
    }
}

impl<T, A> FromSpecImpl<Bgra<T, A>> for Rgba<T, A> {
    open spec fn obeys_from_spec() -> bool {
        true
    }

    open spec fn from_spec(other: Bgra<T, A>) -> Self {
        Rgba { r: other.r, g: other.g, b: other.b, a: other.a }
    }
}

impl<T, A> From<Argb<T, A>> for Rgba<T, A> {
    /// The same channel values in the order of `Rgba`.
    fn from(other: Argb<T, A>) -> (out: Self)
        ensures
            out == (Rgba { r: other.r, g: other.g, b: other.b, a: other.a }),
    {
        Rgba { r: other.r, g: other.g, b: other.b, a: other.a }
    }
}

impl<T, A> FromSpecImpl<Argb<T, A>> for Rgba<T, A> {
    open spec fn obeys_from_spec() -> bool {
        true
    }

    open spec fn from_spec(other: Argb<T, A>) -> Self {
        Rgba { r: other.r, g: other.g, b: other.b, a: other.a }
    }
}

impl<T, A> From<Abgr<T, A>> for Rgba<T, A> {
    /// The same channel values in the order of `Rgba`.
    fn from(other: Abgr<T, A>) -> (out: Self)
        ensures
            out == (Rgba { r: other.r, g: other.g, b: other.b, a: other.a }),
    {
        Rgba { r: other.r, g: other.g, b: other.b, a: other.a }
    }
}

impl<T, A> FromSpecImpl<Abgr<T, A>> for Rgba<T, A> {
    open spec fn obeys_from_spec() -> bool {
        true
    }

    open spec fn from_spec(other: Abgr<T, A>) -> Self {
        Rgba { r: other.r, g: other.g, b: other.b, a: other.a }
    }
}

impl<T, A> From<Rgba<T, A>> for Bgra<T, A> {
    /// The same channel values in the order of `Bgra`.
    fn from(other: Rgba<T, A>) -> (out: Self)
        ensures
            out == (Bgra { b: other.b, g: other.g, r: other.r, a: other.a }),
    {
        Bgra { b: other.b, g: other.g, r: other.r, a: other.a }
    }
}

impl<T, A> FromSpecImpl<Rgba<T, A>> for Bgra<T, A> {
    open spec fn obeys_from_spec() -> bool {
        true
    }

    open spec fn from_spec(other: Rgba<T, A>) -> Self {
        Bgra { b: other.b, g: other.g, r: other.r, a: other.a }
    }
}

impl<T, A> From<Argb<T, A>> for Bgra<T, A> {
    /// The same channel values in the order of `Bgra`.
    fn from(other: Argb<T, A>) -> (out: Self)
        ensures
            out == (Bgra { b: other.b, g: other.g, r: other.r, a: other.a }),
    {
        Bgra { b: other.b, g: other.g, r: other.r, a: other.a }
    }
}

impl<T, A> FromSpecImpl<Argb<T, A>> for Bgra<T, A> {
    open spec fn obeys_from_spec() -> bool {
        true
    }

    open spec fn from_spec(other: Argb<T, A>) -> Self {
        Bgra { b: other.b, g: other.g, r: other.r, a: other.a }
    }
}

impl<T, A> From<Abgr<T, A>> for Bgra<T, A> {
    /// The same channel values in the order of `Bgra`.
    fn from(other: Abgr<T, A>) -> (out: Self)
        ensures
            out == (Bgra { b: other.b, g: other.g, r: other.r, a: other.a }),
    {
        Bgra { b: other.b, g: other.g, r: other.r, a: other.a }
    }
}

impl<T, A> FromSpecImpl<Abgr<T, A>> for Bgra<T, A> {
    open spec fn obeys_from_spec() -> bool {
        true
    }

    open spec fn from_spec(other: Abgr<T, A>) -> Self {
        Bgra { b: other.b, g: other.g, r: other.r, a: other.a }
    }
}

impl<T, A> From<Rgba<T, A>> for Argb<T, A> {
    /// The same channel values in the order of `Argb`.
    fn from(other: Rgba<T, A>) -> (out: Self)
        ensures
            out == (Argb { a: other.a, r: other.r, g: other.g, b: other.b }),
    {
        Argb { a: other.a, r: other.r, g: other.g, b: other.b }
    }
}

impl<T, A> FromSpecImpl<Rgba<T, A>> for Argb<T, A> {
    open spec fn obeys_from_spec() -> bool {
        true
    }

    open spec fn from_spec(other: Rgba<T, A>) -> Self {
        Argb { a: other.a, r: other.r, g: other.g, b: other.b }
    }
}

impl<T, A> From<Bgra<T, A>> for Argb<T, A> {
    /// The same channel values in the order of `Argb`.
    fn from(other: Bgra<T, A>) -> (out: Self)
        ensures
            out == (Argb { a: other.a, r: other.r, g: other.g, b: other.b }),
    {
        Argb { a: other.a, r: other.r, g: other.g, b: other.b }
    }
}

impl<T, A> FromSpecImpl<Bgra<T, A>> for Argb<T, A> {
    open spec fn obeys_from_spec() -> bool {
        true
    }

    open spec fn from_spec(other: Bgra<T, A>) -> Self {
        Argb { a: other.a, r: other.r, g: other.g, b: other.b }
    }
}

impl<T, A> From<Abgr<T, A>> for Argb<T, A> {
    /// The same channel values in the order of `Argb`.
    fn from(other: Abgr<T, A>) -> (out: Self)
        ensures
            out == (Argb { a: other.a, r: other.r, g: other.g, b: other.b }),
    {
        Argb { a: other.a, r: other.r, g: other.g, b: other.b }
    }
}

impl<T, A> FromSpecImpl<Abgr<T, A>> for Argb<T, A> {
    open spec fn obeys_from_spec() -> bool {
        true
    }

    open spec fn from_spec(other: Abgr<T, A>) -> Self {
        Argb { a: other.a, r: other.r, g: other.g, b: other.b }
    }
}

impl<T, A> From<Rgba<T, A>> for Abgr<T, A> {
    /// The same channel values in the order of `Abgr`.
    fn from(other: Rgba<T, A>) -> (out: Self)
        ensures
            out == (Abgr { a: other.a, b: other.b, g: other.g, r: other.r }),
    {
        Abgr { a: other.a, b: other.b, g: other.g, r: other.r }
    }
}

impl<T, A> FromSpecImpl<Rgba<T, A>> for Abgr<T, A> {
    open spec fn obeys_from_spec() -> bool {
        true
    }

    open spec fn from_spec(other: Rgba<T, A>) -> Self {
        Abgr { a: other.a, b: other.b, g: other.g, r: other.r }
    }
}

impl<T, A> From<Bgra<T, A>> for Abgr<T, A> {
    /// The same channel values in the order of `Abgr`.
    fn from(other: Bgra<T, A>) -> (out: Self)
        ensures
            out == (Abgr { a: other.a, b: other.b, g: other.g, r: other.r }),
    {
        Abgr { a: other.a, b: other.b, g: other.g, r: other.r }
    }
}

impl<T, A> FromSpecImpl<Bgra<T, A>> for Abgr<T, A> {
    open spec fn obeys_from_spec() -> bool {
        true
    }

    open spec fn from_spec(other: Bgra<T, A>) -> Self {
        Abgr { a: other.a, b: other.b, g: other.g, r: other.r }
    }
}

impl<T, A> From<Argb<T, A>> for Abgr<T, A> {
    /// The same channel values in the order of `Abgr`.
    fn from(other: Argb<T, A>) -> (out: Self)
        ensures
            out == (Abgr { a: other.a, b: other.b, g: other.g, r: other.r }),
    {
        Abgr { a: other.a, b: other.b, g: other.g, r: other.r }
    }
}

impl<T, A> FromSpecImpl<Argb<T, A>> for Abgr<T, A> {
    open spec fn obeys_from_spec() -> bool {
        true
    }

    open spec fn from_spec(other: Argb<T, A>) -> Self {
        Abgr { a: other.a, b: other.b, g: other.g, r: other.r }
    }
}

impl<T: Copy> From<T> for Gray<T> {
    /// A grayscale pixel of that brightness.
    fn from(other: T) -> (out: Self)
        ensures
            out == (Gray(other)),
    {
        Gray(other)
    }
}

impl<T: Copy> FromSpecImpl<T> for Gray<T> {
    open spec fn obeys_from_spec() -> bool {
        true
    }

    open spec fn from_spec(other: T) -> Self {
        Gray(other)
    }
}

impl<T: Copy> From<Gray<T>> for Rgb<T> {
    /// The brightness as each of the three colour channels.
    fn from(other: Gray<T>) -> (out: Self)
        ensures
            out == (Rgb { r: other.0, g: other.0, b: other.0 }),
    {
        Rgb { r: other.0, g: other.0, b: other.0 }
    }
}

impl<T: Copy> FromSpecImpl<Gray<T>> for Rgb<T> {
    open spec fn obeys_from_spec() -> bool {
        true
    }

    open spec fn from_spec(other: Gray<T>) -> Self {
        Rgb { r: other.0, g: other.0, b: other.0 }
    }
}

impl<T: Copy> From<Gray<T>> for GrayAlpha<T, u8> {
    /// The same brightness, fully opaque.
    fn from(other: Gray<T>) -> (out: Self)
        ensures
            out == (GrayAlpha(other.0, OPAQUE_U8)),
    {
        GrayAlpha(other.0, OPAQUE_U8)
    }
}

impl<T: Copy> FromSpecImpl<Gray<T>> for GrayAlpha<T, u8> {
    open spec fn obeys_from_spec() -> bool {
        true
    }

    open spec fn from_spec(other: Gray<T>) -> Self {
        GrayAlpha(other.0, OPAQUE_U8)
    }
}

impl<T: Copy> From<Gray<T>> for GrayAlpha<T, u16> {
    /// The same brightness, fully opaque.
    fn from(other: Gray<T>) -> (out: Self)
        ensures
            out == (GrayAlpha(other.0, OPAQUE_U16)),
    {
        GrayAlpha(other.0, OPAQUE_U16)
    }
}

impl<T: Copy> FromSpecImpl<Gray<T>> for GrayAlpha<T, u16> {
    open spec fn obeys_from_spec() -> bool {
        true
    }

    open spec fn from_spec(other: Gray<T>) -> Self {
        GrayAlpha(other.0, OPAQUE_U16)
    }
}

impl<T: Copy> From<Gray<T>> for Rgba<T, u8> {
    /// The brightness as each of the three colour channels, fully opaque.
    fn from(other: Gray<T>) -> (out: Self)
        ensures
            out == (Rgba { r: other.0, g: other.0, b: other.0, a: OPAQUE_U8 }),
    {
        Rgba { r: other.0, g: other.0, b: other.0, a: OPAQUE_U8 }
    }
}

impl<T: Copy> FromSpecImpl<Gray<T>> for Rgba<T, u8> {
    open spec fn obeys_from_spec() -> bool {
        true
    }

    open spec fn from_spec(other: Gray<T>) -> Self {
        Rgba { r: other.0, g: other.0, b: other.0, a: OPAQUE_U8 }
    }
}

impl<T: Copy> From<Gray<T>> for Rgba<T, u16> {
    /// The brightness as each of the three colour channels, fully opaque.
    fn from(other: Gray<T>) -> (out: Self)
        ensures
            out == (Rgba { r: other.0, g: other.0, b: other.0, a: OPAQUE_U16 }),
    {
        Rgba { r: other.0, g: other.0, b: other.0, a: OPAQUE_U16 }
    }
}

impl<T: Copy> FromSpecImpl<Gray<T>> for Rgba<T, u16> {
    open spec fn obeys_from_spec() -> bool {
        true
    }

    open spec fn from_spec(other: Gray<T>) -> Self {
        Rgba { r: other.0, g: other.0, b: other.0, a: OPAQUE_U16 }
    }
}

impl<T: Copy, A> From<GrayAlpha<T, A>> for Rgba<T, A> {
    /// The brightness as each of the three colour channels, with the same alpha.
    fn from(other: GrayAlpha<T, A>) -> (out: Self)
        ensures
            out == (Rgba { r: other.0, g: other.0, b: other.0, a: other.1 }),
    {
        Rgba { r: other.0, g: other.0, b: other.0, a: other.1 }
    }
}

impl<T: Copy, A> FromSpecImpl<GrayAlpha<T, A>> for Rgba<T, A> {
    open spec fn obeys_from_spec() -> bool {
        true
    }

    open spec fn from_spec(other: GrayAlpha<T, A>) -> Self {
        Rgba { r: other.0, g: other.0, b: other.0, a: other.1 }
    }
}

} // verus!
