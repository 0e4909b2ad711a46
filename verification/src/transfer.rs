//! The transport layer: uploading, downloading and listing files on a remote
//! host through `scp`, `ssh` and `rsync`.

pub mod command;
pub mod listing;
pub mod method;
pub mod probe;
pub mod rsync;
pub mod ssh;
pub mod target;
