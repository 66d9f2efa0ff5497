//! Pixel value types with a fixed channel order, and a layer of traits through
//! which generic code reads, builds, transforms and converts them whatever
//! their channel count, channel order or channel type.
//!
//! Every pixel is a plain value. Its channels are modelled as sequences: the
//! colour channels and the optional alpha channel of [`HetPixel`], and the flat
//! view of [`HomPixel`], which lists all channels in declared field order.
//!
//! The flat and byte views are copies: a struct with named fields cannot be
//! lent out as a slice in safe code. Reading a view costs one copy of the
//! channels. Writing goes through [`ComponentSlice::at_mut`] and
//! [`HomPixel::component_mut`], which borrow one channel in place, so that the
//! pixel holds what was written, or through [`ComponentSlice::write_flat`] and
//! [`ComponentBytes::copy_from_bytes`], which write a whole view back.
use vstd::prelude::*;

pub mod alt;
pub mod bytes;
pub mod convert;
pub mod flat;
pub mod formats;
pub mod ops;
pub mod order;
pub mod pixel;
pub mod text;
pub mod transform;

pub use crate::bytes::{ByteComponent, ComponentBytes};
pub use crate::flat::ComponentSlice;
pub use crate::formats::abgr::Abgr;
pub use crate::formats::argb::Argb;
pub use crate::formats::bgr::Bgr;
pub use crate::formats::bgra::Bgra;
pub use crate::formats::gray::Gray;
pub use crate::formats::gray_alpha::GrayAlpha;
pub use crate::formats::grb::Grb;
pub use crate::formats::rgb::Rgb;
pub use crate::formats::rgb::Rgb as RGB;
pub use crate::formats::rgba::Rgba;
pub use crate::formats::rgba::Rgba as RGBA;
pub use crate::pixel::het_pixel::HetPixel;
pub use crate::pixel::hom_pixel::HomPixel;
pub use crate::pixel::meta_traits::{
    ArrayLike, HetPixelSuper, HomPixelSuper, MathTraits, PixelComponent,
};
pub use crate::transform::{ColorComponentMap, ComponentMap};

verus! {

/// 8-bit RGB.
pub type RGB8 = Rgb<u8>;

/// 16-bit RGB, each channel in the byte order of the machine.
pub type RGB16 = Rgb<u16>;

/// 8-bit RGBA. 0 is transparent, 255 opaque.
pub type RGBA8 = Rgba<u8>;

/// 16-bit RGBA, each channel in the byte order of the machine. 0 is
/// transparent, 65535 opaque.
pub type RGBA16 = Rgba<u16>;

} // verus!
