//! Fence headers: the language tag and the attribute block of a code fence.

pub mod attributes;
pub mod code_chunk;
pub mod config;

pub use attributes::Attributes;
pub use code_chunk::CodeChunk;
