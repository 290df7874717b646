//! Where things live: the home directory, the repository inside it, and the
//! form in which a file is named to the repository's index.
//!
//! Paths are carried as text. All path arithmetic is lexical, by the path
//! syntax of the platform the crate is built for: nothing here looks at the
//! filesystem or follows links.

use crate::error::{DotsError, DotsErrorView};
use vstd::prelude::*;
use vstd::string::*;

verus! {

/// What `pathdiff::diff_paths(path, base)` returns for the two paths: the
/// relative path that leads from `base` to `path`, or `None` where it finds none.
pub uninterp spec fn diff_paths_result(path: Seq<char>, base: Seq<char>) -> Option<Seq<char>>;

/// What `std::path::Path::join` returns for `base` extended by `child`.
pub uninterp spec fn joined_path(base: Seq<char>, child: Seq<char>) -> Seq<char>;

/// What `std::path::Path::starts_with` returns for `path` and `base`:
/// whether the components of `base` are the leading components of `path`.
pub uninterp spec fn path_starts_with(path: Seq<char>, base: Seq<char>) -> bool;

/// How the `Debug` formatting of `std::path::Path` renders `path`: quoted,
/// with special characters escaped.
pub uninterp spec fn quoted_path(path: Seq<char>) -> Seq<char>;

/// The text held by an optional string.
pub open spec fn text_of(value: Option<String>) -> Option<Seq<char>> {
    match value {
        Some(text) => Some(text@),
        None => None,
    }
}

/// Calls `pathdiff::diff_paths`. Trusted: the result is whatever that
/// function computes from the two paths alone. It compares the paths
/// component by component and never touches the filesystem.
#[verifier::external_body]
pub(crate) fn diff_paths(path: &str, base: &str) -> (diff: Option<String>)
    ensures
        text_of(diff) == diff_paths_result(path@, base@),
{
    match pathdiff::diff_paths(path, base) {
        Some(relative) => Some(relative.to_string_lossy().into_owned()),
        None => None,
    }
}

/// Calls `std::path::Path::starts_with`. Trusted: the result is whatever
/// that method computes from the two paths alone. It matches whole
/// components only and never touches the filesystem.
#[verifier::external_body]
pub(crate) fn starts_with_path(path: &str, base: &str) -> (under: bool)
    ensures
        under == path_starts_with(path@, base@),
{
    std::path::Path::new(path).starts_with(base)
}

/// Calls `std::path::Path::join`. Trusted: the result is whatever that
/// method computes from the two paths alone.
#[verifier::external_body]
pub(crate) fn join_path(base: &str, child: &str) -> (joined: String)
    ensures
        joined@ == joined_path(base@, child@),
{
    std::path::Path::new(base).join(child).to_string_lossy().into_owned()
}

/// Formats a path with the `Debug` implementation of `std::path::Path`.
/// Trusted: the result is a function of the path's text alone.
#[verifier::external_body]
pub(crate) fn quote_path(path: &str) -> (quoted: String)
    ensures
        quoted@ == quoted_path(path@),
{
    format!("{:?}", std::path::Path::new(path))
}

/// What the environment answers when asked for the home directory.
#[derive(Debug, Clone, PartialEq, Eq)]
pub enum HomeLookup {
    /// There is a home directory and its name is text.
    Found(String),
    /// There is a home directory, but its name is not valid Unicode.
    Unreadable,
    /// There is no home directory.
    Missing,
}

/// Calls `dirs::home_dir`. Nothing is promised of the result: it depends on
/// the environment of the process.
#[verifier::external_body]
pub(crate) fn home_dir() -> HomeLookup {
    match dirs::home_dir() {
        Some(home) => match home.into_os_string().into_string() {
            Ok(text) => HomeLookup::Found(text),
            Err(_) => HomeLookup::Unreadable,
        },
        None => HomeLookup::Missing,
    }
}

/// Name of the repository directory inside the home directory.
pub open spec fn dots_name() -> Seq<char> {
    ".dots"@
}

/// The repository's location for a given home directory.
pub open spec fn dots_dir_spec(home: Seq<char>) -> Seq<char> {
    joined_path(home, dots_name())
}

/// The name under which `path` is handed to the index, given whether the
/// path lies under the home directory (`under`) and the outcome `diff` of
/// looking for a relative path from the home directory.
///
/// A path under the home directory goes by its relative form. Every other
/// path, and one for which no relative form was found, goes by `path`
/// itself, unchanged.
pub open spec fn relative_or_given(path: Seq<char>, under: bool, diff: Option<Seq<char>>) -> Seq<
    char,
> {
    match diff {
        Some(relative) if under => relative,
        _ => path,
    }
}

/// The name under which `path` is handed to the index when the home
/// directory is `home`.
pub open spec fn to_relative_spec(path: Seq<char>, home: Seq<char>) -> Seq<char> {
    relative_or_given(path, path_starts_with(path, home), diff_paths_result(path, home))
}

/// Chooses between a relative path that was found and the path as given:
/// the relative path for a path under the home directory, the path as given
/// otherwise.
pub fn prefer_relative(path: &str, under: bool, diff: Option<String>) -> (chosen: String)
    ensures
        chosen@ == relative_or_given(path@, under, text_of(diff)),
{
    match diff {
        Some(relative) => {
            if under {
                relative
            } else {
                String::from_str(path)
            }
        },
        None => String::from_str(path),
    }
}

/// Expresses `path` relative to `home`, lexically. A path that does not lie
/// under `home`, or for which no relative form exists, is returned as it was
/// given.
pub fn to_relative(path: &str, home: &str) -> (relative: String)
    ensures
        relative@ == to_relative_spec(path@, home@),
{
    let under = starts_with_path(path, home);
    prefer_relative(path, under, diff_paths(path, home))
}

/// The repository's location: `.dots` directly inside `home`.
pub fn dots_dir(home: &str) -> (dots: String)
    ensures
        dots@ == dots_dir_spec(home@),
{
    join_path(home, ".dots")
}

/// The home directory that a lookup yields, if it yields one that can be
/// worked with.
pub open spec fn usable_home_spec(lookup: HomeLookup) -> Option<Seq<char>> {
    match lookup {
        HomeLookup::Found(home) => Some(home@),
        HomeLookup::Unreadable => None,
        HomeLookup::Missing => None,
    }
}

/// The home directory that a lookup yields. Paths are handled as text, so a
/// home directory whose name is not valid Unicode counts as none.
pub fn usable_home(lookup: HomeLookup) -> (home: Option<String>)
    ensures
        text_of(home) == usable_home_spec(lookup),
{
    match lookup {
        HomeLookup::Found(home) => Some(home),
        HomeLookup::Unreadable => None,
        HomeLookup::Missing => None,
    }
}

/// What a lookup of the home directory amounts to: the directory, or the
/// failure to report when there is none.
pub open spec fn home_or_error(found: Option<Seq<char>>) -> Result<Seq<char>, DotsErrorView> {
    match found {
        Some(home) => Ok(home),
        None => Err(DotsErrorView::EnvironmentUnavailable),
    }
}

/// The text or failure held by the outcome of a home directory lookup.
pub open spec fn home_view(home: Result<String, DotsError>) -> Result<Seq<char>, DotsErrorView> {
    match home {
        Ok(dir) => Ok(dir@),
        Err(error) => Err(error@),
    }
}

/// Turns the outcome of asking for the home directory into a result.
pub fn require_home(found: Option<String>) -> (home: Result<String, DotsError>)
    ensures
        home_view(home) == home_or_error(text_of(found)),
{
    match found {
        Some(dir) => Ok(dir),
        None => Err(DotsError::EnvironmentUnavailable),
    }
}

/// A path that does not lie under the home directory is handed on as it
/// was given, whatever relative form may exist for it.
pub proof fn outside_home_is_identity(path: Seq<char>, home: Seq<char>)
    requires
        !path_starts_with(path, home),
    ensures
        to_relative_spec(path, home) == path,
{
}

/// A path for which no relative form exists is handed on as it was given.
pub proof fn fallback_is_identity(path: Seq<char>, home: Seq<char>)
    requires
        diff_paths_result(path, home) is None,
    ensures
        to_relative_spec(path, home) == path,
{
}

/// A path under the home directory for which a relative form exists is
/// handed on in that form.
pub proof fn relative_form_is_used(path: Seq<char>, home: Seq<char>)
    requires
        path_starts_with(path, home),
        diff_paths_result(path, home) is Some,
    ensures
        Some(to_relative_spec(path, home)) == diff_paths_result(path, home),
{
}

} // verus!
