//! Upper-case names for the pixel types, and names for their common 8-bit and
//! 16-bit forms. A 16-bit channel is in the byte order of the machine.
pub use crate::formats::abgr::Abgr as ABGR;
pub use crate::formats::argb::Argb as ARGB;
pub use crate::formats::bgr::Bgr as BGR;
pub use crate::formats::bgra::Bgra as BGRA;
pub use crate::formats::gray::Gray;
pub use crate::formats::gray_alpha::GrayAlpha;
pub use crate::formats::grb::Grb as GRB;
use vstd::prelude::*;

verus! {

/// 8-bit BGR.
pub type BGR8 = crate::formats::bgr::Bgr<u8>;

/// 16-bit BGR.
pub type BGR16 = crate::formats::bgr::Bgr<u16>;

/// 8-bit BGRA.
pub type BGRA8 = crate::formats::bgra::Bgra<u8>;

/// 16-bit BGRA.
pub type BGRA16 = crate::formats::bgra::Bgra<u16>;

/// 8-bit ABGR, alpha first. 0 is transparent, 255 opaque.
pub type ABGR8 = crate::formats::abgr::Abgr<u8>;

/// 16-bit ABGR, alpha first. 0 is transparent, 65535 opaque.
pub type ABGR16 = crate::formats::abgr::Abgr<u16>;

/// 8-bit ARGB, alpha first. 0 is transparent, 255 opaque.
pub type ARGB8 = crate::formats::argb::Argb<u8>;

/// 16-bit ARGB, alpha first. 0 is transparent, 65535 opaque.
pub type ARGB16 = crate::formats::argb::Argb<u16>;

/// 8-bit GRB.
pub type GRB8 = crate::formats::grb::Grb<u8>;

/// 8-bit gray.
pub type GRAY8 = Gray<u8>;

/// 16-bit gray.
pub type GRAY16 = Gray<u16>;

/// 8-bit gray with alpha.
pub type GRAYA8 = GrayAlpha<u8>;

/// 16-bit gray with alpha.
pub type GRAYA16 = GrayAlpha<u16>;

impl<T> BGR<T> {
    /// A pixel from its channels in declared order: blue, green, red. The
    /// same as `new_bgr`.
    pub fn new(b: T, g: T, r: T) -> (out: Self)
        ensures
            out == (BGR { b, g, r }),
    {
        BGR { b, g, r }
    }
}

} // verus!
