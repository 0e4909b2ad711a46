//! What a file is, judged by the extension of its name, and what is needed
//! to show it in a preview.

pub mod file_type;
pub mod preview;
