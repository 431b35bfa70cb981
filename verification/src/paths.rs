//! Paths as strings: slash normalisation, and the operations of `std::path`
//! that the resolution of a configuration needs.
//!
//! What `std::path` makes of a path depends on the platform that the library
//! is built for, so its results are not spelled out here: each has a name,
//! and the contracts say where these names go.

use std::path::Path;
use vstd::prelude::*;

verus! {

/// The view of an optional string slice.
pub open spec fn opt_view(s: Option<&str>) -> Option<Seq<char>> {
    match s {
        Some(s) => Some(s@),
        None => None,
    }
}

/// A path with every backslash turned into a forward slash.
pub open spec fn slashed(path: Seq<char>) -> Seq<char> {
    path.map_values(|c: char| if c == '\\' { '/' } else { c })
}

/// `str::replace`, for a pattern and a replacement of one character each:
/// every occurrence of the pattern's character becomes the replacement's
/// character, and every other character stays where it is.
#[verifier::external_body]
fn replace_char(text: &str, from: &str, to: &str) -> (r: String)
    requires
        from@.len() == 1,
        to@.len() == 1,
    ensures
        r@ == text@.map_values(|c: char| if c == from@[0] { to@[0] } else { c }),
{
    text.replace(from, to)
}

/// Turns every backslash of `path` into a forward slash.
pub fn to_slashes(path: &str) -> (r: String)
    ensures
        r@ == slashed(path@),
{
    proof {
        reveal_strlit("\\");
        reveal_strlit("/");
    }
    let r = replace_char(path, "\\", "/");
    r
}

/// What `Path::strip_prefix` leaves of `path` once the leading components
/// that make up `base` are taken away, or `None` where `base` is no prefix
/// of `path` by whole components.
pub uninterp spec fn path_below(path: Seq<char>, base: Seq<char>) -> Option<Seq<char>>;

/// `Path::strip_prefix` on paths given as strings. The result is the named
/// remainder; it is a slice of `path`, so it is a string again.
#[verifier::external_body]
fn strip_prefix<'a>(path: &'a str, base: &str) -> (r: Option<&'a str>)
    ensures
        opt_view(r) == path_below(path@, base@),
{
    Path::new(path).strip_prefix(Path::new(base)).ok().and_then(|rest| rest.to_str())
}

/// The slashed form of what is left of a path after its prefix was taken
/// away, or of the whole path where nothing was taken away.
pub open spec fn slashed_remainder(path: Seq<char>, below: Option<Seq<char>>) -> Seq<char> {
    match below {
        Some(rest) => slashed(rest),
        None => slashed(path),
    }
}

/// Slash-normalises the remainder of `path` where there is one, and `path`
/// itself where there is none.
pub fn slash_remainder(path: &str, below: Option<&str>) -> (r: String)
    ensures
        r@ == slashed_remainder(path@, opt_view(below)),
{
    match below {
        Some(rest) => to_slashes(rest),
        None => to_slashes(path),
    }
}

/// A path relative to `prefix` where it lies under `prefix`, and unchanged
/// otherwise; with forward slashes either way.
pub open spec fn normalized(path: Seq<char>, prefix: Seq<char>) -> Seq<char> {
    slashed_remainder(path, path_below(path, prefix))
}

/// Removes `prefix` from `path` where `path` lies under it, and turns every
/// backslash of the result into a forward slash.
pub fn get_slashed_path_without_prefix(path: &str, prefix: &str) -> (r: String)
    ensures
        r@ == normalized(path@, prefix@),
{
    slash_remainder(path, strip_prefix(path, prefix))
}

/// Whether `Path::is_relative` holds of a path: it is not absolute.
pub uninterp spec fn path_is_relative(path: Seq<char>) -> bool;

/// The path that `Path::join` makes of `base` and `path`.
pub uninterp spec fn path_join(base: Seq<char>, path: Seq<char>) -> Seq<char>;

/// `Path::is_relative` on a path given as a string.
#[verifier::external_body]
fn is_relative(path: &str) -> (b: bool)
    ensures
        b == path_is_relative(path@),
{
    Path::new(path).is_relative()
}

/// `Path::join` on paths given as strings. Both are strings, so the joined
/// path is one too.
#[verifier::external_body]
pub(crate) fn join(base: &str, path: &str) -> (r: String)
    ensures
        r@ == path_join(base@, path@),
{
    Path::new(base).join(path).to_string_lossy().into_owned()
}

/// A path as it is where it is absolute, and joined to `base` where it is
/// relative.
pub open spec fn resolved(base: Seq<char>, path: Seq<char>) -> Seq<char> {
    if path_is_relative(path) {
        path_join(base, path)
    } else {
        path
    }
}

/// Resolves `path` against `base`: a relative path is joined to `base`, an
/// absolute one is kept.
pub fn resolve(base: &str, path: &str) -> (r: String)
    ensures
        r@ == resolved(base@, path@),
{
    if is_relative(path) {
        join(base, path)
    } else {
        path.to_owned()
    }
}

/// The extension that `Path::extension` finds in a path: what follows the
/// last dot of its file name, without the dot; `None` where the path has no
/// file name, or its file name has no dot or only one at its start.
pub uninterp spec fn path_extension(path: Seq<char>) -> Option<Seq<char>>;

/// `Path::extension` on a path given as a string. The extension is a slice
/// of `path`, so it is a string again.
#[verifier::external_body]
pub(crate) fn extension<'a>(path: &'a str) -> (r: Option<&'a str>)
    ensures
        opt_view(r) == path_extension(path@),
{
    Path::new(path).extension().and_then(|ext| ext.to_str())
}

} // verus!
