//! Paths as text.
//!
//! The library takes and gives paths as strings. Finding the file name and
//! the parent of a path, and joining two paths, is left to the standard
//! library, which follows the conventions of the platform that the library
//! is built for. Its results are named here and not spelled out. So is
//! lower-casing, which follows the Unicode tables. The extension and the
//! stem are worked out here from the file name, as the standard library
//! documents them.

use crate::text::{chars_of, string_of};
use vstd::prelude::*;

verus! {

/// The file name that `std::path::Path::file_name` finds in `path`.
pub uninterp spec fn file_name_of(path: Seq<char>) -> Option<Seq<char>>;

/// The parent that `std::path::Path::parent` finds for `path`.
pub uninterp spec fn parent_of(path: Seq<char>) -> Option<Seq<char>>;

/// The path that `std::path::Path::join` makes of `base` and `name`.
pub uninterp spec fn joined_path(base: Seq<char>, name: Seq<char>) -> Seq<char>;

/// The text that `str::to_lowercase` makes of `text`.
pub uninterp spec fn lowercase_of(text: Seq<char>) -> Seq<char>;

/// The index of the last dot in `name`, or -1 if it holds none.
pub open spec fn last_dot(name: Seq<char>) -> int
    decreases name.len(),
{
    if name.len() == 0 {
        -1
    } else if name.last() == '.' {
        name.len() - 1
    } else {
        last_dot(name.drop_last())
    }
}

/// Whether a file name divides into a stem and an extension: it holds a dot
/// that is not its first character, and it is not `..`.
pub open spec fn has_extension(name: Seq<char>) -> bool {
    last_dot(name) > 0 && name != seq!['.', '.']
}

/// The extension of a file name: what follows its last dot, if the name
/// divides.
pub open spec fn extension_in(name: Option<Seq<char>>) -> Option<Seq<char>> {
    match name {
        Some(name) if has_extension(name) => Some(name.skip(last_dot(name) + 1)),
        _ => None,
    }
}

/// The stem of a file name: what stands before its last dot if the name
/// divides, else the whole name.
pub open spec fn stem_in(name: Option<Seq<char>>) -> Option<Seq<char>> {
    match name {
        Some(name) => if has_extension(name) {
            Some(name.take(last_dot(name)))
        } else {
            Some(name)
        },
        None => None,
    }
}

/// The extension of the file that `path` names.
pub open spec fn extension_of(path: Seq<char>) -> Option<Seq<char>> {
    extension_in(file_name_of(path))
}

/// The stem of the file that `path` names.
pub open spec fn file_stem_of(path: Seq<char>) -> Option<Seq<char>> {
    stem_in(file_name_of(path))
}

/// The extension of `path`, in lower case.
pub open spec fn lower_extension_of(path: Seq<char>) -> Option<Seq<char>> {
    match extension_of(path) {
        Some(extension) => Some(lowercase_of(extension)),
        None => None,
    }
}

/// Calls `std::path::Path::file_name` on the path that `path` spells. The
/// result is whatever the standard library finds; nothing is claimed of it
/// but that it depends on the path alone.
#[verifier::external_body]
pub(crate) fn path_file_name(path: &str) -> (name: Option<String>)
    ensures
        name.deep_view() == file_name_of(path@),
{
    std::path::PathBuf::from(path).file_name().map(|part| part.to_string_lossy().into_owned())
}

/// Calls `std::path::Path::parent` on the path that `path` spells. The
/// result is whatever the standard library finds; nothing is claimed of it
/// but that it depends on the path alone.
#[verifier::external_body]
pub(crate) fn path_parent(path: &str) -> (parent: Option<String>)
    ensures
        parent.deep_view() == parent_of(path@),
{
    std::path::PathBuf::from(path).parent().map(|part| part.to_string_lossy().into_owned())
}

/// Calls `std::path::Path::join` on the paths that `base` and `name` spell.
/// The result is whatever the standard library makes of them; nothing is
/// claimed of it but that it depends on the two alone.
#[verifier::external_body]
pub(crate) fn path_join(base: &str, name: &str) -> (path: String)
    ensures
        path@ == joined_path(base@, name@),
{
    std::path::PathBuf::from(base).join(name).to_string_lossy().into_owned()
}

/// Calls `str::to_lowercase`. The result is whatever the standard library
/// makes of the text; nothing is claimed of it but that it depends on the
/// text alone.
#[verifier::external_body]
pub(crate) fn lowercase(text: &str) -> (lower: String)
    ensures
        lower@ == lowercase_of(text@),
{
    text.to_lowercase()
}

/// The index of the last dot in `name`, if it holds one.
fn find_last_dot(name: &Vec<char>) -> (found: Option<usize>)
    ensures
        match found {
            Some(index) => index < name.len() && index == last_dot(name@) && name@[index as int]
                == '.',
            None => last_dot(name@) == -1,
        },
{
    let mut end: usize = name.len();
    proof {
        assert(name@.take(end as int) == name@);
    }
    while end > 0
        invariant
            end <= name.len(),
            last_dot(name@) == last_dot(name@.take(end as int)),
        decreases end,
    {
        let ghost head = name@.take(end as int);
        proof {
            assert(head.last() == name@[end - 1]);
            assert(head.drop_last() == name@.take(end - 1));
        }
        if name[end - 1] == '.' {
            return Some(end - 1);
        }
        end -= 1;
    }
    None
}

/// Whether the file name divides into a stem and an extension, and if so,
/// where its last dot stands.
fn dividing_dot(name: &Vec<char>) -> (found: Option<usize>)
    ensures
        found is Some <==> has_extension(name@),
        found matches Some(index) ==> 0 < index < name.len() && index == last_dot(name@),
{
    match find_last_dot(name) {
        Some(index) => {
            if index == 0 || (name.len() == 2 && name[0] == '.') {
                proof {
                    if index > 0 {
                        assert(name@ == seq!['.', '.']);
                    }
                }
                None
            } else {
                proof {
                    if name@ == seq!['.', '.'] {
                        assert(name@[0] == '.');
                    }
                }
                Some(index)
            }
        },
        None => None,
    }
}

/// The extension of the file name `name`: what follows its last dot, if
/// the name holds a dot that is not its first character and is not `..`.
pub fn extension_of_name(name: &str) -> (extension: Option<String>)
    ensures
        extension.deep_view() == extension_in(Some(name@)),
{
    let chars = chars_of(name);
    match dividing_dot(&chars) {
        Some(index) => {
            proof {
                assert(chars@.skip(index + 1) == chars@.subrange(index + 1, chars.len() as int));
            }
            Some(string_of(&chars, index + 1, chars.len()))
        },
        None => None,
    }
}

/// The stem of the file name `name`: what stands before its last dot, if
/// the name holds a dot that is not its first character and is not `..`;
/// else the whole name.
pub fn stem_of_name(name: &str) -> (stem: String)
    ensures
        Some(stem@) == stem_in(Some(name@)),
{
    let chars = chars_of(name);
    match dividing_dot(&chars) {
        Some(index) => {
            proof {
                assert(chars@.take(index as int) == chars@.subrange(0, index as int));
            }
            string_of(&chars, 0, index)
        },
        None => name.to_owned(),
    }
}

/// The extension of the file that `path` names, as
/// `std::path::Path::extension` documents it: none without a file name,
/// without a dot in the file name, or with a leading dot as the only one;
/// otherwise what follows the last dot of the file name.
pub fn path_extension(path: &str) -> (extension: Option<String>)
    ensures
        extension.deep_view() == extension_of(path@),
{
    match path_file_name(path) {
        Some(name) => extension_of_name(name.as_str()),
        None => None,
    }
}

/// The stem of the file that `path` names, as `std::path::Path::file_stem`
/// documents it: none without a file name; the whole file name if that
/// holds no dot, or a leading dot as the only one; otherwise what stands
/// before the last dot of the file name.
pub fn path_file_stem(path: &str) -> (stem: Option<String>)
    ensures
        stem.deep_view() == file_stem_of(path@),
{
    match path_file_name(path) {
        Some(name) => Some(stem_of_name(name.as_str())),
        None => None,
    }
}

/// The extension of `path` in lower case, if it has one.
pub fn lower_extension(path: &str) -> (extension: Option<String>)
    ensures
        extension.deep_view() == lower_extension_of(path@),
{
    match path_extension(path) {
        Some(extension) => Some(lowercase(extension.as_str())),
        None => None,
    }
}

} // verus!
