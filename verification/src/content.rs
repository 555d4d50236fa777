//! The note's text, or what is shown in its place when the note cannot be read.

use vstd::prelude::*;

verus! {

/// The document shown in place of a note that cannot be read: a title, and a line that
/// names the path where the note is expected.
pub open spec fn placeholder_note(path: Seq<char>) -> Seq<char> {
    "# Glint\nNo note found. Create one at "@ + path
}

/// What is shown for a note: its text where reading gave one, the placeholder otherwise.
pub open spec fn note_text(read: Option<Seq<char>>, path: Seq<char>) -> Seq<char> {
    match read {
        Some(text) => text,
        None => placeholder_note(path),
    }
}

/// The placeholder document for a note expected at `path`.
pub fn placeholder(path: &str) -> (out: String)
    ensures
        out@ == placeholder_note(path@),
{
    let mut out = "# Glint\nNo note found. Create one at ".to_owned();
    out.append(path);
    out
}

/// The text to show for the note at `path`: `read` is what reading the file gave, `None`
/// when it could not be read.
pub fn note_content(read: Option<String>, path: &str) -> (out: String)
    ensures
        out@ == note_text(read.deep_view(), path@),
{
    match read {
        Some(text) => text,
        None => placeholder(path),
    }
}

} // verus!
