//! Decoding of BPM binary meshes and their conversion into an indexed
//! triangle mesh (shared position / normal / UV arrays plus index triples).

pub mod vector;
pub mod bpm;
pub mod decompiler;
