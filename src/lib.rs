//! Turns a short Rust snippet into a throwaway Cargo project (manifest and
//! wrapped source), and decides the steps of building, running and caching it.

pub mod pattern;
pub mod text;
pub mod manifest;
pub mod wrap;
pub mod session;
pub mod cache;
