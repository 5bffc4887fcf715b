//! Circuit description for proving knowledge of two bytes whose XOR is a third,
//! with a four-bit XOR lookup table in place of a bit-by-bit decomposition.

pub mod circuit;
pub mod engine;
pub mod gates;
pub mod nibble;
pub mod session;
pub mod table;
