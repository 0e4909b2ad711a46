//! Parsing of long-format directory listings, as printed by `ls -la`.
//!
//! The first line of a listing (the `total` line) is skipped. Every other
//! line is split into fields at white space. A line with at least nine
//! fields describes an entry: the first character of its first field tells
//! whether it is a directory (`d`), and its ninth field is the name. Lines
//! with fewer fields are passed over, and so are the entries `.` and `..`.
//!
//! A name that holds white space is cut at its first white space: the ninth
//! field is taken as it stands.

use crate::text::{chars_of, is_space, is_space_char, string_of};
use vstd::prelude::*;

verus! {

/// One file or directory reported by a remote listing.
#[derive(Debug, Clone, PartialEq, Eq)]
pub struct RemoteEntry {
    pub name: String,
    pub is_directory: bool,
}

/// The mathematical value of a [`RemoteEntry`].
pub struct EntryModel {
    pub name: Seq<char>,
    pub is_directory: bool,
}

impl DeepView for RemoteEntry {
    type V = EntryModel;

    open spec fn deep_view(&self) -> EntryModel {
        EntryModel { name: self.name@, is_directory: self.is_directory }
    }
}

/// The number of characters before the first line feed of `text`, or the
/// length of `text` if it holds none.
pub open spec fn line_end(text: Seq<char>) -> nat
    decreases text.len(),
{
    if text.len() == 0 || text[0] == '\n' {
        0
    } else {
        1 + line_end(text.skip(1))
    }
}

/// The lines of `text`: the pieces between its line feeds. A text without a
/// line feed is one line; a text that ends in a line feed has an empty last
/// line.
pub open spec fn lines_of(text: Seq<char>) -> Seq<Seq<char>>
    decreases text.len(),
{
    let k = line_end(text);
    if k >= text.len() {
        seq![text]
    } else {
        seq![text.take(k as int)] + lines_of(text.skip(k + 1 as int))
    }
}

/// The number of characters before the first white space of `line`, or the
/// length of `line` if it holds none.
pub open spec fn word_end(line: Seq<char>) -> nat
    decreases line.len(),
{
    if line.len() == 0 || is_space(line[0]) {
        0
    } else {
        1 + word_end(line.skip(1))
    }
}

/// The fields of `line`: its maximal runs of characters that are not white
/// space, from left to right.
pub open spec fn fields_of(line: Seq<char>) -> Seq<Seq<char>>
    decreases line.len(),
{
    if line.len() == 0 {
        Seq::empty()
    } else if is_space(line[0]) {
        fields_of(line.skip(1))
    } else {
        let n = word_end(line);
        proof {
            lemma_word_end_bound(line);
        }
        seq![line.take(n as int)] + fields_of(line.skip(n as int))
    }
}

/// Whether `name` is one of the two entries that every directory holds.
pub open spec fn is_dot_entry(name: Seq<char>) -> bool {
    name == seq!['.'] || name == seq!['.', '.']
}

/// Whether `line` has the nine fields of a listing line.
pub open spec fn is_well_formed(line: Seq<char>) -> bool {
    fields_of(line).len() >= 9
}

/// The entry that `line` describes, if it is well formed and names neither
/// `.` nor `..`.
pub open spec fn entry_of(line: Seq<char>) -> Option<EntryModel> {
    let fields = fields_of(line);
    if is_well_formed(line) && !is_dot_entry(fields[8]) {
        Some(EntryModel { name: fields[8], is_directory: fields[0][0] == 'd' })
    } else {
        None
    }
}

/// The entries that `lines` describe, in order.
pub open spec fn entries_of(lines: Seq<Seq<char>>) -> Seq<EntryModel>
    decreases lines.len(),
{
    if lines.len() == 0 {
        Seq::empty()
    } else {
        match entry_of(lines[0]) {
            Some(entry) => seq![entry] + entries_of(lines.skip(1)),
            None => entries_of(lines.skip(1)),
        }
    }
}

/// The entries of a long-format listing: those of its lines after the first.
pub open spec fn parse_listing(text: Seq<char>) -> Seq<EntryModel> {
    entries_of(lines_of(text).skip(1))
}

/// The number of lines in `lines` that yield an entry.
pub open spec fn count_entries(lines: Seq<Seq<char>>) -> nat
    decreases lines.len(),
{
    if lines.len() == 0 {
        0
    } else {
        (if entry_of(lines[0]) is Some {
            1nat
        } else {
            0nat
        }) + count_entries(lines.skip(1))
    }
}

/// The number of lines in `lines` that are well formed.
pub open spec fn count_well_formed(lines: Seq<Seq<char>>) -> nat
    decreases lines.len(),
{
    if lines.len() == 0 {
        0
    } else {
        (if is_well_formed(lines[0]) {
            1nat
        } else {
            0nat
        }) + count_well_formed(lines.skip(1))
    }
}

/// The number of lines in `lines` that are well formed and name `.` or `..`.
pub open spec fn count_dot_entries(lines: Seq<Seq<char>>) -> nat
    decreases lines.len(),
{
    if lines.len() == 0 {
        0
    } else {
        (if is_well_formed(lines[0]) && is_dot_entry(fields_of(lines[0])[8]) {
            1nat
        } else {
            0nat
        }) + count_dot_entries(lines.skip(1))
    }
}

/// The first word of a line ends within the line, and holds at least one
/// character if the line starts with one that is not white space.
pub proof fn lemma_word_end_bound(line: Seq<char>)
    ensures
        word_end(line) <= line.len(),
        line.len() > 0 && !is_space(line[0]) ==> word_end(line) >= 1,
    decreases line.len(),
{
    if line.len() > 0 && !is_space(line[0]) {
        lemma_word_end_bound(line.skip(1));
    }
}

/// None of `s[0..k]` is a line feed, and `s[k]` is one (or `k` is the end).
proof fn lemma_line_end(s: Seq<char>, k: int)
    requires
        0 <= k <= s.len(),
        forall|j: int| 0 <= j < k ==> s[j] != '\n',
        k < s.len() ==> s[k] == '\n',
    ensures
        line_end(s) == k,
    decreases k,
{
    if k > 0 {
        let rest = s.skip(1);
        assert forall|j: int| 0 <= j < k - 1 implies rest[j] != '\n' by {
            assert(rest[j] == s[j + 1]);
        }
        lemma_line_end(rest, k - 1);
    }
}

/// None of `s[0..k]` is white space, and `s[k]` is (or `k` is the end).
proof fn lemma_word_end(s: Seq<char>, k: int)
    requires
        0 <= k <= s.len(),
        forall|j: int| 0 <= j < k ==> !is_space(s[j]),
        k < s.len() ==> is_space(s[k]),
    ensures
        word_end(s) == k,
    decreases k,
{
    if k > 0 {
        let rest = s.skip(1);
        assert forall|j: int| 0 <= j < k - 1 implies !is_space(rest[j]) by {
            assert(rest[j] == s[j + 1]);
        }
        lemma_word_end(rest, k - 1);
    }
}

/// Leading white space does not change the fields of a line.
proof fn lemma_fields_skip_spaces(s: Seq<char>, k: int)
    requires
        0 <= k <= s.len(),
        forall|j: int| 0 <= j < k ==> is_space(s[j]),
    ensures
        fields_of(s) == fields_of(s.skip(k)),
    decreases k,
{
    if k == 0 {
        assert(s.skip(0) == s);
    } else {
        let rest = s.skip(1);
        assert forall|j: int| 0 <= j < k - 1 implies is_space(rest[j]) by {
            assert(rest[j] == s[j + 1]);
        }
        lemma_fields_skip_spaces(rest, k - 1);
        assert(rest.skip(k - 1) == s.skip(k));
    }
}

/// The entries of a text are those of its first line followed by those of
/// the text after the first line feed.
proof fn lemma_entries_unfold(text: Seq<char>)
    ensures
        entries_of(lines_of(text)) == (match entry_of(text.take(line_end(text) as int)) {
            Some(entry) => seq![entry],
            None => Seq::empty(),
        }) + (if line_end(text) >= text.len() {
            Seq::empty()
        } else {
            entries_of(lines_of(text.skip(line_end(text) + 1 as int)))
        }),
{
    let k = line_end(text);
    lemma_line_end_bound(text);
    let lines = lines_of(text);
    if k >= text.len() {
        assert(text.take(k as int) == text);
        assert(lines.skip(1) == Seq::<Seq<char>>::empty());
        assert(entries_of(lines.skip(1)) == Seq::<EntryModel>::empty());
    } else {
        assert(lines.skip(1) == lines_of(text.skip(k + 1 as int)));
    }
}

/// The first line of a text ends within the text.
pub proof fn lemma_line_end_bound(text: Seq<char>)
    ensures
        line_end(text) <= text.len(),
    decreases text.len(),
{
    if text.len() > 0 && text[0] != '\n' {
        lemma_line_end_bound(text.skip(1));
    }
}

/// The listing parser returns one entry for each well-formed line after the
/// first, except those that name `.` or `..`: with N well-formed lines, of
/// which D name `.` or `..`, and any number of malformed lines, it returns
/// exactly N - D entries.
pub proof fn lemma_parse_listing_count(text: Seq<char>)
    ensures
        parse_listing(text).len() == count_well_formed(lines_of(text).skip(1)) - count_dot_entries(
            lines_of(text).skip(1),
        ),
{
    lemma_entries_count(lines_of(text).skip(1));
}

/// As many entries come out of `lines` as it has well-formed lines that name
/// neither `.` nor `..`.
pub proof fn lemma_entries_count(lines: Seq<Seq<char>>)
    ensures
        entries_of(lines).len() == count_entries(lines),
        count_entries(lines) == count_well_formed(lines) - count_dot_entries(lines),
        count_dot_entries(lines) <= count_well_formed(lines),
    decreases lines.len(),
{
    if lines.len() > 0 {
        lemma_entries_count(lines.skip(1));
    }
}

/// Reads the line `t[from..to]` of a listing.
fn parse_line(t: &Vec<char>, from: usize, to: usize) -> (r: Option<RemoteEntry>)
    requires
        from <= to <= t.len(),
    ensures
        r.deep_view() == entry_of(t@.subrange(from as int, to as int)),
{
    let ghost line = t@.subrange(from as int, to as int);
    let ghost mut done: Seq<Seq<char>> = Seq::empty();
    let mut count: usize = 0;
    let mut is_directory = false;
    let mut name_from: usize = from;
    let mut name_to: usize = from;
    let mut i: usize = from;
    proof {
        assert(line.skip(0) == line);
    }
    while count < 9
        invariant
            from <= i <= to <= t.len(),
            line == t@.subrange(from as int, to as int),
            count <= 9,
            count <= i - from,
            done.len() == count,
            fields_of(line) == done + fields_of(line.skip(i - from)),
            count >= 1 ==> is_directory == (done[0][0] == 'd'),
            count >= 9 ==> from <= name_from <= name_to <= to && done[8] == t@.subrange(
                name_from as int,
                name_to as int,
            ),
        decreases 9 - count,
    {
        let ghost rest = line.skip(i - from);
        let start_of_gap = i;
        while i < to && is_space_char(t[i])
            invariant
                from <= start_of_gap <= i <= to <= t.len(),
                line == t@.subrange(from as int, to as int),
                forall|j: int| start_of_gap <= j < i ==> is_space(t@[j]),
            decreases to - i,
        {
            i += 1;
        }
        proof {
            assert forall|j: int| 0 <= j < i - start_of_gap implies is_space(rest[j]) by {
                assert(rest[j] == t@[j + start_of_gap]);
            }
            lemma_fields_skip_spaces(rest, i - start_of_gap);
            assert(rest.skip(i - start_of_gap) == line.skip(i - from));
        }
        if i == to {
            proof {
                assert(line.skip(i - from).len() == 0);
                assert(fields_of(line) == done);
            }
            return None;
        }
        let start = i;
        let ghost word_rest = line.skip(start - from);
        while i < to && !is_space_char(t[i])
            invariant
                from <= start <= i <= to <= t.len(),
                start < to,
                line == t@.subrange(from as int, to as int),
                forall|j: int| start <= j < i ==> !is_space(t@[j]),
            decreases to - i,
        {
            i += 1;
        }
        proof {
            assert(word_rest[0] == t@[start as int]);
            assert forall|j: int| 0 <= j < i - start implies !is_space(word_rest[j]) by {
                assert(word_rest[j] == t@[j + start]);
            }
            if i < to {
                assert(word_rest[i - start] == t@[i as int]);
            }
            lemma_word_end(word_rest, i - start);
            let word = word_rest.take(i - start);
            assert(word == t@.subrange(start as int, i as int));
            assert(word_rest.skip(i - start) == line.skip(i - from));
            assert(fields_of(word_rest) == seq![word] + fields_of(line.skip(i - from)));
            assert(done + (seq![word] + fields_of(line.skip(i - from))) == done.push(word)
                + fields_of(line.skip(i - from)));
            done = done.push(word);
        }
        if count == 0 {
            is_directory = t[start] == 'd';
        }
        if count == 8 {
            name_from = start;
            name_to = i;
        }
        count += 1;
    }
    let single = name_to - name_from == 1 && t[name_from] == '.';
    let double = name_to - name_from == 2 && t[name_from] == '.' && t[name_from + 1] == '.';
    proof {
        let name = t@.subrange(name_from as int, name_to as int);
        assert(fields_of(line)[8] == name);
        assert(fields_of(line)[0] == done[0]);
        if single {
            assert(name == seq!['.']);
        }
        if double {
            assert(name == seq!['.', '.']);
        }
        if name == seq!['.'] {
            assert(name.len() == 1 && name[0] == '.');
        }
        if name == seq!['.', '.'] {
            assert(name.len() == 2 && name[0] == '.' && name[1] == '.');
        }
    }
    if single || double {
        None
    } else {
        Some(RemoteEntry { name: string_of(t, name_from, name_to), is_directory })
    }
}

/// Parses the output of a long-format directory listing.
///
/// The entries come out in the order of their lines. The first line is
/// skipped, lines with fewer than nine fields are passed over, and so are
/// the entries `.` and `..`.
pub fn parse_directory_listing(text: &str) -> (entries: Vec<RemoteEntry>)
    ensures
        entries.deep_view() == parse_listing(text@),
        entries.len() == count_well_formed(lines_of(text@).skip(1)) - count_dot_entries(
            lines_of(text@).skip(1),
        ),
{
    let entries = parse_lines(text);
    proof {
        lemma_parse_listing_count(text@);
    }
    entries
}

/// Reads the lines of a listing after the first.
fn parse_lines(text: &str) -> (entries: Vec<RemoteEntry>)
    ensures
        entries.deep_view() == parse_listing(text@),
{
    let t = chars_of(text);
    let mut entries: Vec<RemoteEntry> = Vec::new();
    let mut i: usize = 0;
    while i < t.len() && t[i] != '\n'
        invariant
            i <= t.len(),
            forall|j: int| 0 <= j < i ==> t@[j] != '\n',
        decreases t.len() - i,
    {
        i += 1;
    }
    proof {
        lemma_line_end(t@, i as int);
    }
    if i == t.len() {
        proof {
            assert(lines_of(t@).skip(1) == Seq::<Seq<char>>::empty());
            assert(entries.deep_view() == Seq::<EntryModel>::empty());
        }
        return entries;
    }
    i += 1;
    proof {
        assert(lines_of(t@).skip(1) == lines_of(t@.skip(i as int)));
        assert(entries.deep_view() == Seq::<EntryModel>::empty());
    }
    loop
        invariant
            i <= t.len(),
            t@ == text@,
            parse_listing(text@) == entries.deep_view() + entries_of(lines_of(t@.skip(i as int))),
        decreases t.len() - i,
    {
        let ghost rest = t@.skip(i as int);
        let ghost before = entries.deep_view();
        let start = i;
        while i < t.len() && t[i] != '\n'
            invariant
                start <= i <= t.len(),
                forall|j: int| start <= j < i ==> t@[j] != '\n',
            decreases t.len() - i,
        {
            i += 1;
        }
        proof {
            assert forall|j: int| 0 <= j < i - start implies rest[j] != '\n' by {
                assert(rest[j] == t@[j + start]);
            }
            if i < t.len() {
                assert(rest[i - start] == t@[i as int]);
            }
            lemma_line_end(rest, i - start);
            lemma_entries_unfold(rest);
            assert(rest.take(i - start) == t@.subrange(start as int, i as int));
        }
        let found = parse_line(&t, start, i);
        match found {
            Some(entry) => {
                entries.push(entry);
                proof {
                    assert(entries.deep_view() == before + seq![entry.deep_view()]);
                }
            },
            None => {
                proof {
                    assert(entries.deep_view() == before);
                }
            },
        }
        if i == t.len() {
            return entries;
        }
        i += 1;
        proof {
            assert(rest.skip(i - start) == t@.skip(i as int));
        }
    }
}

} // verus!
