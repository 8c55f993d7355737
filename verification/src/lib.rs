//! Container-box scanning and pixel-layout normalisation for JPEG XL images.
//!
//! The crate holds the logic that sits between a JPEG XL codec and a raster-image
//! library: recovering the metadata boxes of a container file, and turning decoded
//! samples into the byte layout and mode that the image library expects.

pub mod container;
pub mod ieee754;
pub mod pixels;
pub mod decode;
pub mod encode;
