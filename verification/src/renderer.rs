//! What the core prepares for the render collaborator.

pub mod atlas;
pub mod buffer;
