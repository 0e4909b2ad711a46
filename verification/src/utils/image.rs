//! Helpers for image files: recognising them by extension and naming the
//! file that a conversion writes.

use crate::imaging::processor::{format_of_extension, ImageFormat};
use crate::paths::{
    file_stem_of, joined_path, lower_extension, lower_extension_of, parent_of, path_file_stem,
    path_join, path_parent,
};
use crate::text::str_eq;
use vstd::prelude::*;
use vstd::string::StringExecFns;

verus! {

/// The extensions of the raster image files that can be processed.
pub open spec fn is_raster_extension(extension: Seq<char>) -> bool {
    extension == "jpg"@ || extension == "jpeg"@ || extension == "png"@ || extension == "gif"@
        || extension == "bmp"@ || extension == "tiff"@ || extension == "tif"@ || extension
        == "webp"@
}

/// The name of the file that a conversion writes: the stem of the input, or
/// `output` without one; then `_` and the suffix, if one is given; then a
/// dot and the extension of the format.
pub open spec fn output_name(
    stem: Option<Seq<char>>,
    format: ImageFormat,
    suffix: Option<Seq<char>>,
) -> Seq<char> {
    (match stem {
        Some(stem) => stem,
        None => "output"@,
    }) + (match suffix {
        Some(suffix) => "_"@ + suffix,
        None => Seq::empty(),
    }) + "."@ + format.extension_text()
}

/// The directory that a conversion writes into: the parent of the input, or
/// `.` without one.
pub open spec fn output_directory(parent: Option<Seq<char>>) -> Seq<char> {
    match parent {
        Some(parent) => parent,
        None => "."@,
    }
}

/// Whether `extension`, in lower case, is that of a raster image file.
pub fn raster_extension(extension: &str) -> (r: bool)
    ensures
        r == is_raster_extension(extension@),
{
    str_eq(extension, "jpg") || str_eq(extension, "jpeg") || str_eq(extension, "png") || str_eq(
        extension,
        "gif",
    ) || str_eq(extension, "bmp") || str_eq(extension, "tiff") || str_eq(extension, "tif")
        || str_eq(extension, "webp")
}

/// Whether the extension of `path` is that of a raster image file.
pub fn is_image_file(path: &str) -> (r: bool)
    ensures
        r == (lower_extension_of(path@) matches Some(e) && is_raster_extension(e)),
{
    match lower_extension(path) {
        Some(extension) => raster_extension(extension.as_str()),
        None => false,
    }
}

/// The image format that the extension of `path` stands for, if the path
/// has an extension.
pub fn get_image_format(path: &str) -> (format: Option<ImageFormat>)
    ensures
        format == (match lower_extension_of(path@) {
            Some(e) => Some(format_of_extension(e)),
            None => None,
        }),
{
    match lower_extension(path) {
        Some(extension) => Some(ImageFormat::from_lowercase_extension(extension.as_str())),
        None => None,
    }
}

/// The name of the file that a conversion of a file with the given stem
/// writes.
pub fn output_file_name(stem: Option<&str>, output_format: ImageFormat, suffix: Option<&str>) -> (name:
    String)
    ensures
        name@ == output_name(
            match stem {
                Some(s) => Some(s@),
                None => None,
            },
            output_format,
            match suffix {
                Some(s) => Some(s@),
                None => None,
            },
        ),
{
    let mut name = match stem {
        Some(stem) => String::from_str(stem),
        None => String::from_str("output"),
    };
    match suffix {
        Some(suffix) => {
            name.append("_");
            name.append(suffix);
        },
        None => {
            assert(name@ + Seq::<char>::empty() == name@);
        },
    }
    name.append(".");
    name.append(output_format.extension());
    name
}

/// The path of the file that a conversion of `input_path` to
/// `output_format` writes: beside the input, under the name that
/// [`output_name`] gives.
pub fn generate_output_filename(
    input_path: &str,
    output_format: ImageFormat,
    suffix: Option<&str>,
) -> (path: String)
    ensures
        path@ == joined_path(
            output_directory(parent_of(input_path@)),
            output_name(
                file_stem_of(input_path@),
                output_format,
                match suffix {
                    Some(s) => Some(s@),
                    None => None,
                },
            ),
        ),
{
    let stem = path_file_stem(input_path);
    let name = match &stem {
        Some(stem) => output_file_name(Some(stem.as_str()), output_format, suffix),
        None => output_file_name(None, output_format, suffix),
    };
    match path_parent(input_path) {
        Some(parent) => path_join(parent.as_str(), name.as_str()),
        None => path_join(".", name.as_str()),
    }
}

} // verus!
