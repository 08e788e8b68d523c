//! Glyph rendering support: outline assembly, pixel placement and the
//! coverage bitmap that a rasterized glyph is delivered in.
//!
//! The outline builder is generic over the point type, so that the same
//! verified assembly logic serves whatever coordinate representation the
//! caller draws with.

pub mod outline;
pub mod bitmap;
pub mod placement;
pub mod canvas;
