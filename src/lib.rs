//! Turns a web article into a series of spoken audio parts.
//!
//! The verified core is a line-respecting text chunker and the per-request
//! pipeline that sequences extraction, rewriting, chunking, speech synthesis
//! and delivery, reporting a stage-labelled error on the first failure.
pub mod chunker;
pub mod lines;
pub mod pipeline;
pub mod remote;
pub mod text;
