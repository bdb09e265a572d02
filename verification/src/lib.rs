//! Layout and readback logic for a four-player board background.
//!
//! The board is authored once, in one quadrant's local coordinates, and
//! repeated four times under quarter-turn transforms. This crate builds that
//! drawing as an ordered list of fill and stroke commands, lays out the
//! row-padded buffer a GPU copies a rendered texture into, strips that padding
//! again, and frames the packed pixels as a PNG stream.
//!
//! Lengths are exact integers counted in twentieths of a pixel, so that every
//! coordinate and radius of the board has an exact value for any cell size.

pub mod color;
pub mod geometry;
pub mod scene;
pub mod board;
pub mod encode;
pub mod error;
pub mod pipeline;
pub mod readback;
