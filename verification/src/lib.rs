//! Construction of solid-color RGB images.
//!
//! The library validates the three inputs of an image request — a width and a
//! height given as decimal strings, and a color given as six hexadecimal
//! digits — and builds the pixel buffer that an image encoder consumes: a byte
//! sequence of length `width * height * 3` holding the red, green and blue
//! channel of that one color at every pixel.

pub mod buffer;
pub mod color;
pub mod dims;
pub mod plan;
