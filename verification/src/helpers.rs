//! Small helpers that several tasks share.
pub mod encoding;
pub mod network;
pub mod parsing;
pub mod patterns;
pub mod text;
