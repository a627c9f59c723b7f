//! Protocol Buffers wire primitives shared by the envelope and payload codecs.

pub mod field;
pub mod text;
pub mod varint;
