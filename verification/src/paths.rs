//! Where a finished download lies on this machine, and where it belongs.
//!
//! A server reports the directory of a download as it sees it. The part of
//! that directory which only the server knows (`path_prefix`) is cut off, and
//! what is left is looked up under the local `root_path`. Paths are joined and
//! cut by the standard library's `Path`.

use crate::config::Categories;
use std::path::Path;
use vstd::prelude::*;

verus! {

/// The path that `Path::join` makes of `base` and `tail`.
pub uninterp spec fn path_join(base: Seq<char>, tail: Seq<char>) -> Seq<char>;

/// What `Path::strip_prefix` leaves of `path` behind `prefix`; nothing where
/// `prefix` does not lead `path`.
pub uninterp spec fn path_strip_prefix(path: Seq<char>, prefix: Seq<char>) -> Option<Seq<char>>;

/// The characters of an optional string.
pub open spec fn text_of(value: Option<String>) -> Option<Seq<char>> {
    match value {
        Some(s) => Some(s@),
        None => None,
    }
}

/// Calls `std::path::Path::join` on two paths given as text and hands back
/// the joined path as text. Both parts are valid UTF-8 and joining adds at
/// most a separator, so nothing is lost when the path is turned into a
/// `String` again. What the joined path is, is not proved here: the contract
/// only gives it the name `path_join`, and so takes on trust that the call
/// returns the same path for the same two texts.
#[verifier::external_body]
fn join(base: &str, tail: &str) -> (joined: String)
    ensures
        joined@ == path_join(base@, tail@),
{
    Path::new(base).join(tail).to_string_lossy().into_owned()
}

/// Calls `std::path::Path::strip_prefix` on two paths given as text and hands
/// back what is left as text, a part of `path`, or nothing where the call
/// reports that `prefix` is no prefix of `path`. What is left, and when the
/// prefix fits, is not proved here: the contract only gives the outcome the
/// name `path_strip_prefix`, and so takes on trust that the call returns the
/// same outcome for the same two texts.
#[verifier::external_body]
fn strip_prefix(path: &str, prefix: &str) -> (rest: Option<String>)
    ensures
        text_of(rest) == path_strip_prefix(path@, prefix@),
{
    match Path::new(path).strip_prefix(prefix) {
        Ok(rest) => Some(rest.to_string_lossy().into_owned()),
        Err(_) => None,
    }
}

/// The reported directory was expected under `path_prefix` and is not.
#[derive(Debug, Clone, Copy, PartialEq, Eq, Structural)]
pub struct PathPrefixMismatch;

/// The directory of a download relative to the local root: `save_path`
/// without the prefix, or all of it where no prefix is set.
pub open spec fn relative_dir(save_path: Seq<char>, path_prefix: Option<Seq<char>>) -> Option<
    Seq<char>,
> {
    match path_prefix {
        Some(prefix) => path_strip_prefix(save_path, prefix),
        None => Some(save_path),
    }
}

/// The local root, which is the empty path where none is set.
pub open spec fn root_dir(root_path: Option<Seq<char>>) -> Seq<char> {
    match root_path {
        Some(root) => root,
        None => Seq::empty(),
    }
}

/// Local path of the download `name`: root, relative directory and name
/// joined; nothing where the prefix does not fit.
pub open spec fn source_path(
    save_path: Seq<char>,
    name: Seq<char>,
    root_path: Option<Seq<char>>,
    path_prefix: Option<Seq<char>>,
) -> Option<Seq<char>> {
    match relative_dir(save_path, path_prefix) {
        Some(dir) => Some(path_join(path_join(root_dir(root_path), dir), name)),
        None => None,
    }
}

/// Path the download `name` of `category` is moved to; nothing where the
/// category has no directory.
pub open spec fn destination_path(
    category: Seq<char>,
    name: Seq<char>,
    categories: Map<Seq<char>, Seq<char>>,
) -> Option<Seq<char>> {
    if categories.contains_key(category) {
        Some(path_join(categories[category], name))
    } else {
        None
    }
}

/// The directory of a download relative to the local root: `save_path`
/// without `path_prefix`, or all of it where no prefix is set. Nothing where
/// the prefix does not lead `save_path`.
pub fn relative_directory(save_path: &str, path_prefix: &Option<String>) -> (directory: Option<
    String,
>)
    ensures
        text_of(directory) == relative_dir(save_path@, text_of(*path_prefix)),
{
    match path_prefix {
        Some(prefix) => strip_prefix(save_path, prefix.as_str()),
        None => Some(save_path.to_owned()),
    }
}

/// Where the download `name` lies whose directory relative to the local root
/// is `relative`. Fails where there is no such directory, and only there.
pub fn source_under_root(relative: Option<String>, name: &str, root_path: &Option<String>) -> (source:
    Result<String, PathPrefixMismatch>)
    ensures
        match relative {
            Some(directory) => source matches Ok(path) && path@ == path_join(
                path_join(root_dir(text_of(*root_path)), directory@),
                name@,
            ),
            None => source == Err::<String, PathPrefixMismatch>(PathPrefixMismatch),
        },
{
    match relative {
        Some(directory) => {
            let under_root = match root_path {
                Some(root) => join(root.as_str(), directory.as_str()),
                None => {
                    proof {
                        reveal_strlit("");
                        assert(""@ =~= Seq::<char>::empty());
                    }
                    join("", directory.as_str())
                },
            };
            Ok(join(under_root.as_str(), name))
        },
        None => Err(PathPrefixMismatch),
    }
}

/// Computes where the download `name`, reported in `save_path`, lies on this
/// machine. Fails where a prefix is set that does not lead `save_path`:
/// the path is then not guessed.
pub fn compute_source(
    save_path: &str,
    name: &str,
    root_path: &Option<String>,
    path_prefix: &Option<String>,
) -> (source: Result<String, PathPrefixMismatch>)
    ensures
        match source {
            Ok(path) => source_path(save_path@, name@, text_of(*root_path), text_of(*path_prefix))
                == Some(path@),
            Err(_) => source_path(save_path@, name@, text_of(*root_path), text_of(*path_prefix))
                is None,
        },
{
    source_under_root(relative_directory(save_path, path_prefix), name, root_path)
}

/// Computes where the download `name` of `category` is moved to. Returns
/// nothing where the category has no directory: such a download stays.
pub fn compute_destination(category: &str, name: &str, categories: &Categories) -> (destination:
    Option<String>)
    ensures
        text_of(destination) == destination_path(category@, name@, categories@),
{
    match categories.get(category) {
        Some(directory) => Some(join(directory.as_str(), name)),
        None => None,
    }
}

} // verus!
