//! File types and MIME types by extension.
//!
//! The extension is compared in lower case. A path without an extension is
//! of no known type.

use crate::paths::{lower_extension, lower_extension_of};
use crate::text::str_eq;
use vstd::prelude::*;
use vstd::string::StringExecFns;

verus! {

/// The kinds of file that the browser tells apart.
#[derive(Debug, Clone, Copy, PartialEq, Eq, Structural)]
pub enum FileType {
    /// Image files (jpg, png, ...).
    Image,
    /// Text files (txt, md, ...).
    Text,
    /// Document files (pdf, doc, ...).
    Document,
    /// Source code files.
    Code,
    /// Archive files (zip, tar, ...).
    Archive,
    /// Audio and video files.
    Media,
    /// Anything else.
    Other,
}

/// What is known of a file from its name.
#[derive(Debug, Clone, PartialEq, Eq)]
pub struct FileTypeInfo {
    /// Whether the file can be shown in a preview.
    pub previewable: bool,
    /// The kind of file.
    pub file_type: FileType,
    /// The MIME type, where it is known.
    pub mime_type: Option<String>,
}

/// The mathematical value of a [`FileTypeInfo`].
pub struct FileTypeModel {
    pub previewable: bool,
    pub file_type: FileType,
    pub mime_type: Option<Seq<char>>,
}

impl View for FileTypeInfo {
    type V = FileTypeModel;

    open spec fn view(&self) -> FileTypeModel {
        FileTypeModel {
            previewable: self.previewable,
            file_type: self.file_type,
            mime_type: self.mime_type.deep_view(),
        }
    }
}

/// The extensions of image files.
pub open spec fn is_image_extension(extension: Seq<char>) -> bool {
    extension == "jpg"@ || extension == "jpeg"@ || extension == "png"@ || extension == "gif"@
        || extension == "bmp"@ || extension == "tiff"@ || extension == "tif"@ || extension
        == "webp"@ || extension == "svg"@
}

/// The extensions of text files.
pub open spec fn is_text_extension(extension: Seq<char>) -> bool {
    extension == "txt"@ || extension == "md"@ || extension == "csv"@ || extension == "json"@
        || extension == "xml"@ || extension == "html"@ || extension == "css"@ || extension
        == "log"@
}

/// The extensions of source code files.
pub open spec fn is_code_extension(extension: Seq<char>) -> bool {
    extension == "rs"@ || extension == "py"@ || extension == "js"@ || extension == "ts"@
        || extension == "c"@ || extension == "cpp"@ || extension == "h"@ || extension == "hpp"@
        || extension == "java"@ || extension == "sh"@ || extension == "toml"@ || extension
        == "yaml"@ || extension == "yml"@
}

/// The extensions of document files.
pub open spec fn is_document_extension(extension: Seq<char>) -> bool {
    extension == "pdf"@ || extension == "doc"@ || extension == "docx"@ || extension == "rtf"@
        || extension == "odt"@ || extension == "xlsx"@ || extension == "pptx"@
}

/// The kind of file that a lower-case extension stands for. Where an
/// extension is in more than one list, the first of image, text, code and
/// document decides.
pub open spec fn kind_of_extension(extension: Seq<char>) -> FileType {
    if is_image_extension(extension) {
        FileType::Image
    } else if is_text_extension(extension) {
        FileType::Text
    } else if is_code_extension(extension) {
        FileType::Code
    } else if is_document_extension(extension) {
        FileType::Document
    } else {
        FileType::Other
    }
}

/// The MIME type that a lower-case extension stands for, where one is
/// known.
pub open spec fn mime_of_extension(extension: Seq<char>) -> Option<Seq<char>> {
    if extension == "jpg"@ || extension == "jpeg"@ {
        Some("image/jpeg"@)
    } else if extension == "png"@ {
        Some("image/png"@)
    } else if extension == "gif"@ {
        Some("image/gif"@)
    } else if extension == "bmp"@ {
        Some("image/bmp"@)
    } else if extension == "tif"@ || extension == "tiff"@ {
        Some("image/tiff"@)
    } else if extension == "webp"@ {
        Some("image/webp"@)
    } else if extension == "svg"@ {
        Some("image/svg+xml"@)
    } else if extension == "txt"@ {
        Some("text/plain"@)
    } else if extension == "md"@ {
        Some("text/markdown"@)
    } else if extension == "html"@ || extension == "htm"@ {
        Some("text/html"@)
    } else if extension == "css"@ {
        Some("text/css"@)
    } else if extension == "csv"@ {
        Some("text/csv"@)
    } else if extension == "xml"@ {
        Some("text/xml"@)
    } else if extension == "json"@ {
        Some("application/json"@)
    } else if extension == "rs"@ {
        Some("text/x-rust"@)
    } else if extension == "py"@ {
        Some("text/x-python"@)
    } else if extension == "js"@ {
        Some("text/javascript"@)
    } else if extension == "ts"@ {
        Some("text/typescript"@)
    } else if extension == "sh"@ {
        Some("text/x-sh"@)
    } else if extension == "pdf"@ {
        Some("application/pdf"@)
    } else if extension == "doc"@ {
        Some("application/msword"@)
    } else if extension == "docx"@ {
        Some("application/vnd.openxmlformats-officedocument.wordprocessingml.document"@)
    } else if extension == "xls"@ {
        Some("application/vnd.ms-excel"@)
    } else if extension == "xlsx"@ {
        Some("application/vnd.openxmlformats-officedocument.spreadsheetml.sheet"@)
    } else if extension == "zip"@ {
        Some("application/zip"@)
    } else if extension == "tar"@ {
        Some("application/x-tar"@)
    } else if extension == "gz"@ {
        Some("application/gzip"@)
    } else {
        None
    }
}

/// What is known of a file whose lower-case extension is `extension`. A
/// file is previewable if it is an image, a text, source code or a
/// document.
pub open spec fn info_of_extension(extension: Option<Seq<char>>) -> FileTypeModel {
    match extension {
        Some(extension) => FileTypeModel {
            previewable: kind_of_extension(extension) != FileType::Other,
            file_type: kind_of_extension(extension),
            mime_type: mime_of_extension(extension),
        },
        None => FileTypeModel { previewable: false, file_type: FileType::Other, mime_type: None },
    }
}

/// Whether `extension`, in lower case, is that of an image file.
pub fn image_extension(extension: &str) -> (r: bool)
    ensures
        r == is_image_extension(extension@),
{
    str_eq(extension, "jpg") || str_eq(extension, "jpeg") || str_eq(extension, "png") || str_eq(
        extension,
        "gif",
    ) || str_eq(extension, "bmp") || str_eq(extension, "tiff") || str_eq(extension, "tif")
        || str_eq(extension, "webp") || str_eq(extension, "svg")
}

/// Whether `extension`, in lower case, is that of a text file.
pub fn text_extension(extension: &str) -> (r: bool)
    ensures
        r == is_text_extension(extension@),
{
    str_eq(extension, "txt") || str_eq(extension, "md") || str_eq(extension, "csv") || str_eq(
        extension,
        "json",
    ) || str_eq(extension, "xml") || str_eq(extension, "html") || str_eq(extension, "css")
        || str_eq(extension, "log")
}

/// Whether `extension`, in lower case, is that of a source code file.
pub fn code_extension(extension: &str) -> (r: bool)
    ensures
        r == is_code_extension(extension@),
{
    str_eq(extension, "rs") || str_eq(extension, "py") || str_eq(extension, "js") || str_eq(
        extension,
        "ts",
    ) || str_eq(extension, "c") || str_eq(extension, "cpp") || str_eq(extension, "h") || str_eq(
        extension,
        "hpp",
    ) || str_eq(extension, "java") || str_eq(extension, "sh") || str_eq(extension, "toml")
        || str_eq(extension, "yaml") || str_eq(extension, "yml")
}

/// Whether `extension`, in lower case, is that of a document file.
pub fn document_extension(extension: &str) -> (r: bool)
    ensures
        r == is_document_extension(extension@),
{
    str_eq(extension, "pdf") || str_eq(extension, "doc") || str_eq(extension, "docx") || str_eq(
        extension,
        "rtf",
    ) || str_eq(extension, "odt") || str_eq(extension, "xlsx") || str_eq(extension, "pptx")
}

/// The MIME type for `extension`, in lower case, where one is known.
pub fn mime_type_for_extension(extension: &str) -> (mime: Option<String>)
    ensures
        mime.deep_view() == mime_of_extension(extension@),
{
    let e = extension;
    let found: Option<&'static str> = if str_eq(e, "jpg") || str_eq(e, "jpeg") {
        Some("image/jpeg")
    } else if str_eq(e, "png") {
        Some("image/png")
    } else if str_eq(e, "gif") {
        Some("image/gif")
    } else if str_eq(e, "bmp") {
        Some("image/bmp")
    } else if str_eq(e, "tif") || str_eq(e, "tiff") {
        Some("image/tiff")
    } else if str_eq(e, "webp") {
        Some("image/webp")
    } else if str_eq(e, "svg") {
        Some("image/svg+xml")
    } else if str_eq(e, "txt") {
        Some("text/plain")
    } else if str_eq(e, "md") {
        Some("text/markdown")
    } else if str_eq(e, "html") || str_eq(e, "htm") {
        Some("text/html")
    } else if str_eq(e, "css") {
        Some("text/css")
    } else if str_eq(e, "csv") {
        Some("text/csv")
    } else if str_eq(e, "xml") {
        Some("text/xml")
    } else if str_eq(e, "json") {
        Some("application/json")
    } else if str_eq(e, "rs") {
        Some("text/x-rust")
    } else if str_eq(e, "py") {
        Some("text/x-python")
    } else if str_eq(e, "js") {
        Some("text/javascript")
    } else if str_eq(e, "ts") {
        Some("text/typescript")
    } else if str_eq(e, "sh") {
        Some("text/x-sh")
    } else if str_eq(e, "pdf") {
        Some("application/pdf")
    } else if str_eq(e, "doc") {
        Some("application/msword")
    } else if str_eq(e, "docx") {
        Some("application/vnd.openxmlformats-officedocument.wordprocessingml.document")
    } else if str_eq(e, "xls") {
        Some("application/vnd.ms-excel")
    } else if str_eq(e, "xlsx") {
        Some("application/vnd.openxmlformats-officedocument.spreadsheetml.sheet")
    } else if str_eq(e, "zip") {
        Some("application/zip")
    } else if str_eq(e, "tar") {
        Some("application/x-tar")
    } else if str_eq(e, "gz") {
        Some("application/gzip")
    } else {
        None
    };
    match found {
        Some(mime) => Some(String::from_str(mime)),
        None => None,
    }
}

/// What is known of a file whose extension, in lower case, is `extension`.
pub fn file_type_info_for(extension: Option<&str>) -> (info: FileTypeInfo)
    ensures
        info@ == info_of_extension(
            match extension {
                Some(e) => Some(e@),
                None => None,
            },
        ),
{
    match extension {
        Some(e) => {
            let file_type = if image_extension(e) {
                FileType::Image
            } else if text_extension(e) {
                FileType::Text
            } else if code_extension(e) {
                FileType::Code
            } else if document_extension(e) {
                FileType::Document
            } else {
                FileType::Other
            };
            FileTypeInfo {
                previewable: file_type != FileType::Other,
                file_type,
                mime_type: mime_type_for_extension(e),
            }
        },
        None => FileTypeInfo { previewable: false, file_type: FileType::Other, mime_type: None },
    }
}

/// Whether the extension of `path` is that of an image file.
pub fn is_image_file(path: &str) -> (r: bool)
    ensures
        r == (lower_extension_of(path@) matches Some(e) && is_image_extension(e)),
{
    match lower_extension(path) {
        Some(extension) => image_extension(extension.as_str()),
        None => false,
    }
}

/// Whether the extension of `path` is that of a text file.
pub fn is_text_file(path: &str) -> (r: bool)
    ensures
        r == (lower_extension_of(path@) matches Some(e) && is_text_extension(e)),
{
    match lower_extension(path) {
        Some(extension) => text_extension(extension.as_str()),
        None => false,
    }
}

/// Whether the extension of `path` is that of a source code file.
pub fn is_code_file(path: &str) -> (r: bool)
    ensures
        r == (lower_extension_of(path@) matches Some(e) && is_code_extension(e)),
{
    match lower_extension(path) {
        Some(extension) => code_extension(extension.as_str()),
        None => false,
    }
}

/// Whether the extension of `path` is that of a document file.
pub fn is_document_file(path: &str) -> (r: bool)
    ensures
        r == (lower_extension_of(path@) matches Some(e) && is_document_extension(e)),
{
    match lower_extension(path) {
        Some(extension) => document_extension(extension.as_str()),
        None => false,
    }
}

/// The MIME type of `path`, judged by its extension.
pub fn get_mime_type_for_path(path: &str) -> (mime: Option<String>)
    ensures
        mime.deep_view() == (match lower_extension_of(path@) {
            Some(e) => mime_of_extension(e),
            None => None,
        }),
{
    match lower_extension(path) {
        Some(extension) => mime_type_for_extension(extension.as_str()),
        None => None,
    }
}

/// What is known of the file at `path`, judged by its extension.
pub fn get_file_type_info(path: &str) -> (info: FileTypeInfo)
    ensures
        info@ == info_of_extension(lower_extension_of(path@)),
{
    match lower_extension(path) {
        Some(extension) => file_type_info_for(Some(extension.as_str())),
        None => file_type_info_for(None),
    }
}

/// The paths among `paths` whose files can be shown in a preview, in their
/// order.
pub fn find_previewable_files(paths: &Vec<String>) -> (kept: Vec<String>)
    ensures
        kept.deep_view() == paths.deep_view().filter(
            |path: Seq<char>| info_of_extension(lower_extension_of(path)).previewable,
        ),
{
    let ghost keep = |path: Seq<char>| info_of_extension(lower_extension_of(path)).previewable;
    let mut kept: Vec<String> = Vec::new();
    let mut i: usize = 0;
    proof {
        assert(paths.deep_view().take(0) == Seq::<Seq<char>>::empty());
        assert(kept.deep_view() == Seq::<Seq<char>>::empty());
        reveal(Seq::filter);
    }
    while i < paths.len()
        invariant
            i <= paths.len(),
            keep == |path: Seq<char>| info_of_extension(lower_extension_of(path)).previewable,
            kept.deep_view() == paths.deep_view().take(i as int).filter(keep),
        decreases paths.len() - i,
    {
        let ghost before = kept.deep_view();
        let info = get_file_type_info(paths[i].as_str());
        proof {
            let head = paths.deep_view().take(i as int);
            let next = paths.deep_view().take(i + 1);
            assert(next == head.push(paths[i as int]@));
            assert(next.drop_last() == head);
            reveal(Seq::filter);
        }
        if info.previewable {
            kept.push(paths[i].clone());
            assert(kept.deep_view() == before.push(paths[i as int]@));
        }
        i += 1;
    }
    proof {
        assert(paths.deep_view().take(paths.len() as int) == paths.deep_view());
    }
    kept
}

} // verus!
