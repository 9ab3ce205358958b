//! Fits still images onto a character-cell display surface.
//!
//! The crate decodes raster and vector image files into one uniform RGBA
//! pixel buffer and negotiates a final `(width, height)` render target from
//! the image's native size, optional explicit dimensions, optional maximum
//! caps, and the live surface size. The sizing arithmetic is exact integer
//! round-half-up and is verified; decoding is delegated to the `image`,
//! `usvg` and `resvg` crates behind a few trusted wrappers.

pub mod acquire;
pub mod filter;
pub mod pixel;
pub mod size;
