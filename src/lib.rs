//! Chunk-scan-and-export core of a Bedrock world block extractor.
//!
//! The world database itself is read elsewhere; this library decides which
//! chunk columns and sub-chunk slots are visited, turns decoded sub-chunk
//! volumes into block records with world coordinates, and prepares the
//! text or compressed binary output for one column.
pub mod text;
pub mod scan;
pub mod extract;
pub mod export;
