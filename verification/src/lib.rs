//! Maps a wallpaper colour palette onto the roles of a desktop theme.
//!
//! The palette arrives as a JSON document, the role mapping as a TOML
//! document. [`colors`] reads the palette, [`config`] reads the mapping and
//! resolves each of the eight roles to a colour, and [`daemon`] decides what
//! the program does next: which file to read, what to hand to the theme
//! store, when to watch and when to stop. The library reads no file and
//! writes none; its caller does, and tells it what came of it.
//!
//! Colours are kept as three bytes. A channel's normalised value is its byte
//! divided by 255.

pub mod text;
pub mod json_doc;
pub mod toml_doc;
pub mod colors;
pub mod config;
pub mod daemon;
