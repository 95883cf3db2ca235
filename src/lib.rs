//! Decoding of the header of a GIF image: the signature and version block,
//! the logical screen descriptor and the optional global color table.

pub mod color;
pub mod gif;
pub mod laws;
