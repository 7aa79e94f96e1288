//! Filesystem paths.
//!
//! A path is kept as std keeps it, with whatever bytes it holds, and std takes it apart. A path
//! belongs to the platform that it was made on, whose conventions decide how it splits into its
//! components: where text becomes a path, the platform is an argument, and from there on the path
//! carries it.
use std::path::PathBuf;

use vstd::prelude::*;

verus! {

/// An owned path of std, in the form and with the conventions of its platform.
#[verifier::external_type_specification]
#[verifier::external_body]
pub struct ExPathBuf(PathBuf);

/// The path that a text spells on the platform of this operating system.
pub uninterp spec fn path_of(text: Seq<char>, os: Seq<char>) -> PathBuf;

/// The text of a path, with what is not Unicode replaced.
pub uninterp spec fn lossy_text(path: PathBuf) -> Seq<char>;

/// A path as it is displayed.
pub uninterp spec fn displayed(path: PathBuf) -> Seq<char>;

/// The path of `relative` below `base`.
pub uninterp spec fn joined_path(base: PathBuf, relative: Seq<char>) -> PathBuf;

/// `path` with `extension` added to its file name.
pub uninterp spec fn extended_path(path: PathBuf, extension: Seq<char>) -> PathBuf;

/// `path` ends in the name of a file.
pub uninterp spec fn has_file_name(path: PathBuf) -> bool;

/// `path` without its last component, where it has one.
pub uninterp spec fn parent_path(path: PathBuf) -> Option<PathBuf>;

/// `PathBuf::from` of std: the path that the text spells. `os` is the operating system that the
/// program runs on, as `std::env::consts::OS` names it.
#[verifier::external_body]
pub(crate) fn path_from(text: &str, os: &str) -> (path: PathBuf)
    ensures
        path == path_of(text@, os@),
{
    PathBuf::from(text)
}

/// `Path::to_string_lossy` of std: the text of the path, with what is not Unicode replaced.
#[verifier::external_body]
pub(crate) fn text_of(path: &PathBuf) -> (text: String)
    ensures
        text@ == lossy_text(*path),
{
    path.to_string_lossy().into_owned()
}

/// `Path::display` of std: the path as text for a message.
#[verifier::external_body]
pub(crate) fn display_of(path: &PathBuf) -> (text: String)
    ensures
        text@ == displayed(*path),
{
    path.display().to_string()
}

/// `Path::join` of std: `relative` below `base`, by the conventions of the platform of `base`.
#[verifier::external_body]
pub(crate) fn join_path(base: &PathBuf, relative: &str) -> (joined: PathBuf)
    ensures
        joined == joined_path(*base, relative@),
{
    base.join(relative)
}

/// `Path::with_added_extension` of std: the path with the extension added to its file name, which
/// is the path itself if and only if it has no file name. The call panics where the extension holds
/// a separator.
#[verifier::external_body]
pub(crate) fn add_extension(path: &PathBuf, extension: &str) -> (extended: PathBuf)
    requires
        extension@.len() > 0,
        forall|i: int| 0 <= i < extension@.len() ==> extension@[i] != '/' && extension@[i] != '\\',
    ensures
        extended == extended_path(*path, extension@),
        extended == *path <==> !has_file_name(*path),
{
    path.with_added_extension(extension)
}

/// `Path::parent` of std: the path without its last component, where it has one.
#[verifier::external_body]
pub(crate) fn parent_of(path: &PathBuf) -> (parent: Option<PathBuf>)
    ensures
        parent == parent_path(*path),
{
    path.parent().map(std::path::Path::to_path_buf)
}

} // verus!
