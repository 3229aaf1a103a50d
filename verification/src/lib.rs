//! Decoder for the iNES cartridge container format.
//!
//! The library parses a cartridge image held in memory into its program and
//! tile regions, and decodes the tile region into a two-bit-per-pixel
//! composite bitmap laid out as a fixed-width grid of 8x8 tiles.

pub mod bitmap;
pub mod casette;
