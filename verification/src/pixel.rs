//! The component model and the two capability traits.
pub mod het_pixel;
pub mod hom_pixel;
pub mod meta_traits;
