//! Paths as text. The standard library takes paths apart and puts them
//! together; this module hands its answers to the rest of the crate under
//! names that contracts can speak of.

use vstd::prelude::*;

verus! {

/// The final component that `Path::file_name` finds in a path, as the
/// standard library parses paths on the platform the crate is built for.
pub uninterp spec fn path_file_name(path: Seq<char>) -> Option<Seq<char>>;

/// The path without its final component, as `Path::parent` gives it.
pub uninterp spec fn path_parent(path: Seq<char>) -> Option<Seq<char>>;

/// The final component without its extension, as `Path::file_stem` gives it.
pub uninterp spec fn path_file_stem(path: Seq<char>) -> Option<Seq<char>>;

/// The extension of the final component, as `Path::extension` gives it.
pub uninterp spec fn path_extension(path: Seq<char>) -> Option<Seq<char>>;

/// `child` placed under `base`, as `Path::join` gives it.
pub uninterp spec fn path_join(base: Seq<char>, child: Seq<char>) -> Seq<char>;

/// The view of an optional owned text.
pub open spec fn text_of(value: Option<String>) -> Option<Seq<char>> {
    match value {
        Some(text) => Some(text@),
        None => None,
    }
}

/// Calls `Path::file_name`: the final component of `path`, named by
/// [`path_file_name`], or `None` where the standard library finds none.
#[verifier::external_body]
pub(crate) fn file_name(path: &str) -> (name: Option<String>)
    ensures
        text_of(name) == path_file_name(path@),
{
    match std::path::Path::new(path).file_name() {
        Some(name) => name.to_str().map(String::from),
        None => None,
    }
}

/// Calls `Path::parent`: `path` without its final component, named by
/// [`path_parent`], or `None` where the path has no parent.
#[verifier::external_body]
pub(crate) fn parent(path: &str) -> (dir: Option<String>)
    ensures
        text_of(dir) == path_parent(path@),
{
    match std::path::Path::new(path).parent() {
        Some(dir) => dir.to_str().map(String::from),
        None => None,
    }
}

/// Calls `Path::file_stem`: the final component of `path` without its
/// extension, named by [`path_file_stem`].
#[verifier::external_body]
pub(crate) fn file_stem(path: &str) -> (stem: Option<String>)
    ensures
        text_of(stem) == path_file_stem(path@),
{
    match std::path::Path::new(path).file_stem() {
        Some(stem) => stem.to_str().map(String::from),
        None => None,
    }
}

/// Calls `Path::extension`: the extension of the final component of `path`,
/// named by [`path_extension`].
#[verifier::external_body]
pub(crate) fn extension(path: &str) -> (ext: Option<String>)
    ensures
        text_of(ext) == path_extension(path@),
{
    match std::path::Path::new(path).extension() {
        Some(ext) => ext.to_str().map(String::from),
        None => None,
    }
}

/// Calls `Path::join`: `child` placed under `base`, named by [`path_join`].
#[verifier::external_body]
pub(crate) fn join(base: &str, child: &str) -> (joined: String)
    ensures
        joined@ == path_join(base@, child@),
{
    std::path::Path::new(base).join(child).to_string_lossy().into_owned()
}

/// Calls `std::path::absolute`. The answer depends on the directory the
/// process is in, so nothing is claimed of it; `None` stands for the
/// failure the standard library reports.
#[verifier::external_body]
pub(crate) fn absolute(path: &str) -> (resolved: Option<String>)
{
    match std::path::absolute(path) {
        Ok(resolved) => resolved.to_str().map(String::from),
        Err(_) => None,
    }
}

} // verus!
