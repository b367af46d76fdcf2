//! A verified model of the 4-byte chunk-type identifier used by PNG-style
//! container streams: parsing from raw bytes or text, bit-level
//! classification, and exact round-trip formatting.

pub mod chunk_type;
