//! The texture graph resolver and lump encoders.

pub mod laws;
pub mod lumps;
pub mod pipeline;
pub mod resolve;
pub mod types;
