//! Previews of files: what is known of a file before it is shown, the size
//! up to which a text is shown, and the naming of temporary files.
//!
//! Sizes, contents, the clock and the temporary directory are the caller's
//! to find out. They come in as plain values.

use crate::files::file_type::{
    get_file_type_info, info_of_extension, FileType, FileTypeInfo, FileTypeModel,
};
use crate::paths::{joined_path, lower_extension_of, path_join};
use crate::text::{decimal, push_decimal};
use vstd::prelude::*;
use vstd::string::StringExecFns;

verus! {

/// The largest size, in bytes, of a text file that is shown in a preview:
/// five mebibytes.
pub const MAX_TEXT_PREVIEW_SIZE: u64 = 5 * 1024 * 1024;

/// What is known of a file before it is shown.
#[derive(Debug, Clone, PartialEq, Eq)]
pub struct PreviewInfo {
    /// The path of the file.
    pub path: String,
    /// What its name tells about it.
    pub file_type_info: FileTypeInfo,
    /// Its size in bytes.
    pub size: u64,
    /// Why no preview could be made, if none could.
    pub error: Option<String>,
}

/// The mathematical value of a [`PreviewInfo`].
pub struct PreviewModel {
    pub path: Seq<char>,
    pub file_type_info: FileTypeModel,
    pub size: u64,
    pub error: Option<Seq<char>>,
}

impl View for PreviewInfo {
    type V = PreviewModel;

    open spec fn view(&self) -> PreviewModel {
        PreviewModel {
            path: self.path@,
            file_type_info: self.file_type_info@,
            size: self.size,
            error: self.error.deep_view(),
        }
    }
}

/// The way in which a file is shown.
#[derive(Debug, Clone, Copy, PartialEq, Eq, Structural)]
pub enum PreviewKind {
    /// As a picture.
    Image,
    /// As text.
    Text,
    /// Not at all.
    Unsupported,
}

/// The way in which a file of the given type is shown: images as pictures;
/// texts, source code and documents as text; nothing else.
pub open spec fn preview_kind_of(file_type: FileType) -> PreviewKind {
    match file_type {
        FileType::Image => PreviewKind::Image,
        FileType::Text | FileType::Code | FileType::Document => PreviewKind::Text,
        _ => PreviewKind::Unsupported,
    }
}

/// The message for a text file of `size` bytes that is too large to show.
pub open spec fn too_large_message(size: u64) -> Seq<char> {
    "File too large for preview ("@ + decimal(size as nat) + " bytes). Maximum size is "@
        + decimal(MAX_TEXT_PREVIEW_SIZE as nat) + " bytes."@
}

/// The name of a temporary file: `preview_`, the time stamp, the suffix.
pub open spec fn temp_file_name(timestamp_millis: u64, suffix: Seq<char>) -> Seq<char> {
    "preview_"@ + decimal(timestamp_millis as nat) + suffix
}

/// The way in which a file of the given type is shown.
pub fn preview_kind(file_type: FileType) -> (kind: PreviewKind)
    ensures
        kind == preview_kind_of(file_type),
{
    match file_type {
        FileType::Image => PreviewKind::Image,
        FileType::Text | FileType::Code | FileType::Document => PreviewKind::Text,
        _ => PreviewKind::Unsupported,
    }
}

/// Tells whether a text file of `size` bytes is shown in a preview. It is
/// refused, with a message, if and only if it is larger than
/// [`MAX_TEXT_PREVIEW_SIZE`].
pub fn check_preview_size(size: u64) -> (result: Result<(), String>)
    ensures
        size <= MAX_TEXT_PREVIEW_SIZE ==> result is Ok,
        size > MAX_TEXT_PREVIEW_SIZE ==> (result matches Err(message) && message@
            == too_large_message(size)),
{
    if size > MAX_TEXT_PREVIEW_SIZE {
        let mut message = String::from_str("File too large for preview (");
        push_decimal(&mut message, size);
        message.append(" bytes). Maximum size is ");
        push_decimal(&mut message, MAX_TEXT_PREVIEW_SIZE);
        message.append(" bytes.");
        Err(message)
    } else {
        Ok(())
    }
}

/// What is known of the file at `path`, whose size is `size` bytes. A file
/// whose size could not be found out is given the size 0.
pub fn get_preview_info(path: &str, size: u64) -> (info: PreviewInfo)
    ensures
        info@ == (PreviewModel {
            path: path@,
            file_type_info: info_of_extension(lower_extension_of(path@)),
            size,
            error: None,
        }),
{
    PreviewInfo {
        path: path.to_owned(),
        file_type_info: get_file_type_info(path),
        size,
        error: None,
    }
}

/// The path of a new temporary file in `temp_dir`, named after the time in
/// milliseconds and the suffix.
pub fn create_temp_file(temp_dir: &str, timestamp_millis: u64, suffix: &str) -> (path: String)
    ensures
        path@ == joined_path(temp_dir@, temp_file_name(timestamp_millis, suffix@)),
{
    let mut name = String::from_str("preview_");
    push_decimal(&mut name, timestamp_millis);
    name.append(suffix);
    path_join(temp_dir, name.as_str())
}

} // verus!
