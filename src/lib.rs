//! Searches for the largest rendering of an image, or of an animated frame
//! sequence, whose encoding fits within a byte budget.

pub mod engine;
pub mod laws;
pub mod media;
pub mod search;
pub mod size_label;
