//! Unicode-aware column alignment for terminal output.
//!
//! The heart of the crate is a width calculator that measures how many
//! terminal columns a string occupies under the East Asian Width model,
//! and a padding formatter that truncates and aligns text against a
//! format specification (minimum width, fill character, alignment,
//! precision).

pub mod auto_pad_str;
pub mod config;
pub mod db_path;
pub mod listing;
pub mod width;
