//! The rules of the file browser: how entries are shown, what a chosen
//! line means, and where a transfer of a chosen file goes by default.
//!
//! The download directory of the user is the caller's to find out.

use crate::paths::{file_name_of, path_file_name};
use crate::text::{chars_of, string_of};
use crate::transfer::listing::{EntryModel, RemoteEntry};
use vstd::prelude::*;
use vstd::string::StringExecFns;

verus! {

/// What a chosen line of the browser stands for.
#[derive(Debug, Clone, PartialEq, Eq)]
pub enum Selection {
    /// The line `..`: go to the parent directory.
    Parent,
    /// A line that starts with a dot: go into the directory of that name.
    Directory(String),
    /// Any other line: the file of that name.
    File(String),
}

/// The mathematical value of a [`Selection`].
pub enum SelectionModel {
    Parent,
    Directory(Seq<char>),
    File(Seq<char>),
}

impl View for Selection {
    type V = SelectionModel;

    open spec fn view(&self) -> SelectionModel {
        match self {
            Selection::Parent => SelectionModel::Parent,
            Selection::Directory(name) => SelectionModel::Directory(name@),
            Selection::File(name) => SelectionModel::File(name@),
        }
    }
}

/// The line that shows an entry: its name, with a dot in front for a
/// directory.
pub open spec fn display_line(entry: EntryModel) -> Seq<char> {
    if entry.is_directory {
        seq!['.'] + entry.name
    } else {
        entry.name
    }
}

/// What the line `line` stands for.
pub open spec fn selection_of(line: Seq<char>) -> SelectionModel {
    if line == seq!['.', '.'] {
        SelectionModel::Parent
    } else if line.len() > 0 && line[0] == '.' {
        SelectionModel::Directory(line.skip(1))
    } else {
        SelectionModel::File(line)
    }
}

/// Whether the browser offers the line `..` in `directory`: everywhere but
/// in the root and in the empty path.
pub open spec fn offers_parent(directory: Seq<char>) -> bool {
    directory != seq!['/'] && directory.len() > 0
}

/// The name under which a transferred file arrives: the file name of the
/// source, or `file` if the source has none.
pub open spec fn arriving_name(file_name: Option<Seq<char>>) -> Seq<char> {
    match file_name {
        Some(name) => name,
        None => "file"@,
    }
}

/// Where a file goes by default. A local file goes to the home directory
/// of the user on the host, `/home/<user>/<name>`. A remote file goes to
/// the download directory, or to `.` where none is known:
/// `<downloads>/<name>`.
pub open spec fn destination_for(
    file_name: Option<Seq<char>>,
    is_local: bool,
    username: Seq<char>,
    downloads: Option<Seq<char>>,
) -> Seq<char> {
    if is_local {
        "/home/"@ + username + "/"@ + arriving_name(file_name)
    } else {
        (match downloads {
            Some(directory) => directory,
            None => "."@,
        }) + "/"@ + arriving_name(file_name)
    }
}

/// The line that shows `entry` in the browser.
pub fn display_name(entry: &RemoteEntry) -> (line: String)
    ensures
        line@ == display_line(entry.deep_view()),
{
    if entry.is_directory {
        let mut line = String::new();
        line.push('.');
        line.append(entry.name.as_str());
        line
    } else {
        entry.name.clone()
    }
}

/// Tells what a chosen line of the browser stands for.
pub fn read_selection(line: &str) -> (selection: Selection)
    ensures
        selection@ == selection_of(line@),
{
    let t = chars_of(line);
    if t.len() == 2 && t[0] == '.' && t[1] == '.' {
        assert(t@ == seq!['.', '.']);
        Selection::Parent
    } else if t.len() > 0 && t[0] == '.' {
        let name = string_of(&t, 1, t.len());
        assert(t@.skip(1) == t@.subrange(1, t.len() as int));
        Selection::Directory(name)
    } else {
        Selection::File(line.to_owned())
    }
}

/// Whether the browser offers the line `..` in `directory`.
pub fn has_parent_entry(directory: &str) -> (r: bool)
    ensures
        r == offers_parent(directory@),
{
    let t = chars_of(directory);
    if t.len() == 0 {
        false
    } else if t.len() == 1 && t[0] == '/' {
        assert(t@ == seq!['/']);
        false
    } else {
        true
    }
}

/// Where a file with the given file name goes by default.
pub fn destination_in(
    file_name: Option<&str>,
    is_local: bool,
    username: &str,
    downloads: Option<&str>,
) -> (path: String)
    ensures
        path@ == destination_for(
            match file_name {
                Some(name) => Some(name@),
                None => None,
            },
            is_local,
            username@,
            match downloads {
                Some(directory) => Some(directory@),
                None => None,
            },
        ),
{
    let mut path = if is_local {
        String::from_str("/home/").concat(username)
    } else {
        match downloads {
            Some(directory) => String::from_str(directory),
            None => String::from_str("."),
        }
    };
    path.append("/");
    match file_name {
        Some(name) => path.append(name),
        None => path.append("file"),
    }
    path
}

/// Where the file at `source_path` goes by default: under its file name,
/// to the home directory of `username` on the host if it is local, else to
/// the download directory `downloads`, or to `.` where none is known.
pub fn suggest_destination(
    source_path: &str,
    is_local: bool,
    username: &str,
    downloads: Option<&str>,
) -> (path: String)
    ensures
        path@ == destination_for(
            file_name_of(source_path@),
            is_local,
            username@,
            match downloads {
                Some(directory) => Some(directory@),
                None => None,
            },
        ),
{
    match path_file_name(source_path) {
        Some(name) => destination_in(Some(name.as_str()), is_local, username, downloads),
        None => destination_in(None, is_local, username, downloads),
    }
}

} // verus!
