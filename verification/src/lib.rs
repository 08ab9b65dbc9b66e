//! Window sizing logic: size values and their textual grammar, the predicate
//! that selects target windows, and the per-window transform procedure.
//!
//! - [`size`]: the `Size` value, its arithmetic and its text form;
//! - [`geometry`]: measured rectangles and native sizes;
//! - [`text`]: case folding, substring search and decimal numerals;
//! - [`resolution`]: the table of named resolutions;
//! - [`parse`]: the grammar of size specifications;
//! - [`target`]: the selection of target windows by title and path;
//! - [`style`]: frame styles, placement flags and corner preferences;
//! - [`transform`]: the procedure that is run on each window.

pub mod geometry;
pub mod parse;
pub mod resolution;
pub mod size;
pub mod style;
pub mod target;
pub mod text;
pub mod transform;
