//! Application-wide errors and helpers for image files.

pub mod error;
pub mod image;
