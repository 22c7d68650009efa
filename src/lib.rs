//! Driver logic for a 4x4x4 LED cube: the mapping from cube positions to
//! bits of a 16-byte pattern, and the in-memory pattern that is sent to the
//! cube's controller.
pub mod addressing;
pub mod cube;
pub mod error;
