//! Host-side data pipeline of a progressive compute raytracer.
//!
//! Each frame the pipeline turns a scene snapshot (entities carrying a
//! transform, a mesh identity and a material identity) into flat GPU-ready
//! buffers, advances a progressive-accumulation counter, assembles the fixed
//! binding set and decides whether a compute dispatch is issued.
//!
//! Scalar GPU payloads (positions, normals, colors, matrices) are carried as
//! raw 32-bit patterns: the host never interprets them, it only copies them
//! into place, so every table and every byte of the wire format is specified
//! exactly.
pub mod binding;
pub mod extract;
pub mod layout;
pub mod node;
pub mod pipeline;
pub mod stage;
pub mod types;
