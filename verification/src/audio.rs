//! Sound descriptors handed to the audio collaborator.

pub mod basic;
