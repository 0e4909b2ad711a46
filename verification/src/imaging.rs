//! Image formats, the operations that can be applied to an image, and the
//! service that runs them.

pub mod operations;
pub mod processor;
