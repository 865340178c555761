//! JSON-facing mesh and constant exports.

pub mod babylon;
pub mod geom;
