//! Validation and classification of four-byte chunk type codes, the tags
//! that identify chunks in a length-prefixed binary container format.
//!
//! A type code is four ASCII letters. Bit index 5 (value 32) of each byte
//! carries a semantic flag: byte 0 the ancillary/critical flag, byte 1 the
//! private/public flag, byte 2 the reserved bit (must read as clear in a
//! well-formed code), byte 3 the safe-to-copy flag.

pub mod chunk_type;

pub use chunk_type::ChunkType;
pub use chunk_type::ChunkTypeError;
pub use chunk_type::Type;
