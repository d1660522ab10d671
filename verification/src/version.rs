//! The version fallback: a mod without a stored version takes the first
//! `<digits>.<digits>` that its directory name holds.

use vstd::prelude::*;

verus! {

/// The pattern that finds a version in a directory name: an optional `v`, an
/// optional `.`, then the version itself as the first group.
pub const VERSION_PATTERN: &'static str = r"(?i)v?\.?(\d+\.\d+)";

/// The text that the first group of `pattern` takes in the leftmost match of
/// `pattern` in `haystack`, as the `regex` crate finds it. `None` where the
/// pattern does not compile, where nothing matches, and where the group has no
/// part in the match.
pub uninterp spec fn first_group_match(pattern: Seq<char>, haystack: Seq<char>) -> Option<
    Seq<char>,
>;

/// Compiles `pattern` with `regex::Regex::new`, searches `haystack` with
/// `Regex::captures` and returns the text of group 1 (`Captures::get`,
/// `Match::as_str`). The outcome depends on the two texts alone.
#[verifier::external_body]
pub(crate) fn first_group(pattern: &str, haystack: &str) -> (found: Option<String>)
    ensures
        found.deep_view() == first_group_match(pattern@, haystack@),
{
    let compiled = regex::Regex::new(pattern).ok()?;
    compiled.captures(haystack)?.get(1).map(|m| m.as_str().to_string())
}

/// The version of a mod: the stored one where it is set, else what was found
/// in the directory name, else unset.
pub open spec fn version_or(stored: Seq<char>, found: Option<Seq<char>>) -> Seq<char> {
    if stored.len() > 0 {
        stored
    } else {
        match found {
            Some(version) => version,
            None => Seq::empty(),
        }
    }
}

/// The version of a mod whose sidecar stores `stored` and in whose directory
/// name `found` was found.
pub fn version_from(stored: String, found: Option<String>) -> (version: String)
    ensures
        version@ == version_or(stored@, found.deep_view()),
{
    if !stored.as_str().is_empty() {
        stored
    } else {
        match found {
            Some(version) => version,
            None => String::new(),
        }
    }
}

/// The version of a mod whose sidecar stores `stored` and whose directory has
/// the base name `folder`. The directory name is searched only where nothing
/// is stored.
pub fn derive_version(stored: String, folder: &str) -> (version: String)
    ensures
        version@ == version_or(stored@, first_group_match(VERSION_PATTERN@, folder@)),
{
    if !stored.as_str().is_empty() {
        stored
    } else {
        version_from(stored, first_group(VERSION_PATTERN, folder))
    }
}

} // verus!
