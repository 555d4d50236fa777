//! Where things live: the configuration file, the default note, a note path with its
//! tilde expanded, and the directories to watch for changes.
//!
//! Paths are plain strings. The per-user configuration directory and the home directory
//! are arguments, never looked up here.

use crate::text::to_chars;
use vstd::prelude::*;

verus! {

/// `rel` below the directory `base`: a separator is put between them unless `base` is
/// empty or already ends with one.
pub open spec fn joined_path(base: Seq<char>, rel: Seq<char>) -> Seq<char> {
    if base.len() == 0 {
        rel
    } else if base.last() == '/' {
        base + rel
    } else {
        base + seq!['/'] + rel
    }
}

/// The application's own directory below the per-user configuration directory.
pub open spec fn app_dir_in(config_dir: Seq<char>) -> Seq<char> {
    joined_path(config_dir, "glint"@)
}

/// The configuration file below the per-user configuration directory.
pub open spec fn config_file_in(config_dir: Seq<char>) -> Seq<char> {
    joined_path(config_dir, "glint/config.toml"@)
}

/// The note that is shown when the configuration names no other.
pub open spec fn default_note_in(config_dir: Seq<char>) -> Seq<char> {
    joined_path(config_dir, "glint/notes.md"@)
}

/// The characters of an optional string.
pub open spec fn optional_text(text: Option<&str>) -> Option<Seq<char>> {
    match text {
        Some(t) => Some(t@),
        None => None,
    }
}

/// A path with a leading `~` replaced by the home directory. Only a `~` that stands alone
/// or before a `/` is replaced, and only when a home directory is known.
pub open spec fn tilde_expanded(path: Seq<char>, home: Option<Seq<char>>) -> Seq<char> {
    if path.len() > 0 && path[0] == '~' && (path.len() == 1 || path[1] == '/') && home is Some {
        home->0 + path.skip(1)
    } else {
        path
    }
}

/// The index of the last `/` in `path`, or -1 if it has none.
pub open spec fn last_slash(path: Seq<char>) -> int
    decreases path.len(),
{
    if path.len() == 0 {
        -1
    } else if path.last() == '/' {
        path.len() - 1
    } else {
        last_slash(path.drop_last())
    }
}

/// Whether every platform takes `path` apart in the same way: it holds neither `\` nor
/// `:`, and does not start with two separators.
pub open spec fn is_portable(path: Seq<char>) -> bool {
    &&& forall|i: int| 0 <= i < path.len() ==> path[i] != '\\' && path[i] != ':'
    &&& !(path.len() >= 2 && path[0] == '/' && path[1] == '/')
}

/// The directory that holds `path`, where every platform agrees on it: for a portable
/// path made of a directory, one `/` and a name, the directory. The name is not empty and
/// neither `.` nor `..`; the directory is not empty and ends in neither `/` nor `.`.
/// For any other path this says nothing.
pub open spec fn plain_parent(path: Seq<char>) -> Option<Seq<char>> {
    let k = last_slash(path);
    let name = path.skip(k + 1);
    if is_portable(path) && k >= 1 && path[k - 1] != '/' && path[k - 1] != '.' && name.len() > 0
        && name != seq!['.'] && name != seq!['.', '.'] {
        Some(path.take(k))
    } else {
        None
    }
}

/// What is known of the directory that holds `path`, on every platform: an empty path
/// has none; where there is one it is a beginning of `path`, shorter than `path`; and
/// where `plain_parent` names one, that is it.
pub open spec fn is_parent_of(dir: Option<Seq<char>>, path: Seq<char>) -> bool {
    &&& path.len() == 0 ==> dir is None
    &&& dir matches Some(d) ==> d.len() < path.len() && d.is_prefix_of(path)
    &&& plain_parent(path) is Some ==> dir == plain_parent(path)
}

/// Puts `rel` below the directory `base`.
pub fn join_path(base: &str, rel: &str) -> (out: String)
    ensures
        out@ == joined_path(base@, rel@),
{
    let chars = to_chars(base);
    let mut out = String::new();
    out.append(base);
    if chars.len() > 0 && chars[chars.len() - 1] != '/' {
        out.push('/');
    }
    out.append(rel);
    out
}

/// The application's own directory below `config_dir`.
pub fn app_dir(config_dir: &str) -> (out: String)
    ensures
        out@ == app_dir_in(config_dir@),
{
    join_path(config_dir, "glint")
}

/// The default note below `config_dir`.
pub fn default_note_path(config_dir: &str) -> (out: String)
    ensures
        out@ == default_note_in(config_dir@),
{
    join_path(config_dir, "glint/notes.md")
}

/// Calls `shellexpand::tilde_with_context` with a context that answers `home`. As the
/// crate documents it, an input that does not start with `~`, or whose `~` is followed
/// by anything but `/` or the end of the input, comes back as it is, and so does every
/// input when no home directory is known; otherwise the `~` is replaced by the home
/// directory. On Windows the crate also takes a `\` after the `~`, so of an input that
/// starts with `~\` only this is claimed: it comes back as it is or with the `~` replaced.
#[verifier::external_body]
fn tilde_with_home(path: &str, home: Option<&str>) -> (out: String)
    ensures
        !(path@.len() > 1 && path@[0] == '~' && path@[1] == '\\') ==> out@ == tilde_expanded(
            path@,
            optional_text(home),
        ),
        out@ == path@ || (home is Some && out@ == home->0@ + path@.skip(1)),
{
    shellexpand::tilde_with_context(path, || home).into_owned()
}

/// Expands a leading `~` in `path` to `home`.
pub fn expand_tilde(path: &str, home: Option<&str>) -> (out: String)
    ensures
        out@ == tilde_expanded(path@, optional_text(home)),
{
    let chars = to_chars(path);
    if chars.len() > 1 && chars[0] == '~' && chars[1] == '\\' {
        path.to_owned()
    } else {
        tilde_with_home(path, home)
    }
}

/// Calls `std::path::Path::parent`, which gives the path without its final component:
/// nothing for the empty path and for a path that ends in a root, and otherwise a
/// beginning of the path that is shorter than the path. Which characters part the
/// components depends on the platform: `/` does everywhere, `\` on Windows too, where a
/// path may also start with a prefix that holds `:` or begins with two separators. As std
/// documents components, repeated separators, a separator at the end and a `.` between
/// separators do not count. So for a path without `\` and `:` that does not start with two
/// separators, and that ends in a single `/` and a name other than `.` and `..` after a
/// directory that ends in neither `/` nor `.`, the result is that directory on every
/// platform; for other paths only the first two facts are claimed.
#[verifier::external_body]
fn parent_of(path: &str) -> (dir: Option<String>)
    ensures
        is_parent_of(dir.deep_view(), path@),
{
    std::path::Path::new(path).parent().and_then(|dir| dir.to_str()).map(|dir| dir.to_owned())
}

/// The directory that holds the note at `note_path`, whose leading `~` stands for `home`,
/// if the path names one.
pub fn note_dir(note_path: &str, home: Option<&str>) -> (dir: Option<String>)
    ensures
        is_parent_of(dir.deep_view(), tilde_expanded(note_path@, optional_text(home))),
{
    let note = expand_tilde(note_path, home);
    parent_of(note.as_str())
}

/// The directories to watch: the application's configuration directory, and the
/// directory of the note if its path names one.
#[derive(Clone, Debug, PartialEq, Eq)]
pub struct WatchRoots {
    pub config_dir: String,
    pub note_dir: Option<String>,
}

/// The mathematical value of a [`WatchRoots`].
pub struct WatchRootsModel {
    pub config_dir: Seq<char>,
    pub note_dir: Option<Seq<char>>,
}

impl View for WatchRoots {
    type V = WatchRootsModel;

    open spec fn view(&self) -> WatchRootsModel {
        WatchRootsModel { config_dir: self.config_dir@, note_dir: self.note_dir.deep_view() }
    }
}

/// The directories to watch when the per-user configuration directory is `config_dir`
/// and the note lies in `note_dir`.
pub fn roots_in(config_dir: &str, note_dir: Option<String>) -> (roots: WatchRoots)
    ensures
        roots@ == (WatchRootsModel {
            config_dir: app_dir_in(config_dir@),
            note_dir: note_dir.deep_view(),
        }),
{
    WatchRoots { config_dir: app_dir(config_dir), note_dir }
}

/// The directories to watch for a note at `note_path`, whose leading `~` stands for
/// `home`, with the per-user configuration directory `config_dir`.
pub fn watch_roots(config_dir: &str, note_path: &str, home: Option<&str>) -> (roots: WatchRoots)
    ensures
        roots@.config_dir == app_dir_in(config_dir@),
        is_parent_of(roots@.note_dir, tilde_expanded(note_path@, optional_text(home))),
{
    roots_in(config_dir, note_dir(note_path, home))
}

} // verus!
