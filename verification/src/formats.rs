//! The pixel types, one module for each channel order.
pub mod abgr;
pub mod argb;
pub mod bgr;
pub mod bgra;
pub mod gray;
pub mod gray_alpha;
pub mod grb;
pub mod rgb;
pub mod rgba;
