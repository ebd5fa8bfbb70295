//! Skin asset pipeline for a skinnable media-player interface.
//!
//! A catalog declares, per atlas file, which rectangles hold which named
//! sprite. The catalog is compiled into a closed set of sprite identifiers
//! and an ordered load table; the loader opens a packaged skin, resolves the
//! table's file names without regard to case, decodes each atlas and crops it
//! into one pixel buffer per sprite.

pub mod archive;
pub mod atlas;
pub mod builtin;
pub mod bundle;
pub mod catalog;
pub mod compiler;
pub mod decode;
pub mod laws;
pub mod loader;
pub mod skin;
pub mod sprites;
pub mod table;
pub mod text;
pub mod unique;
pub mod widgets;
