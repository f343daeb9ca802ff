//! Calls into outside crates.
use vstd::prelude::*;

verus! {

/// Whether the regular expression `pattern` matches somewhere in `text`;
/// `None` when `pattern` is not a valid expression.
pub uninterp spec fn regex_match(pattern: Seq<char>, text: Seq<char>) -> Option<bool>;

/// Relies on `regex::Regex::new` (compiles `pattern`, or fails on an invalid
/// one) and `regex::Regex::is_match` (whether it matches anywhere in `text`).
#[verifier::external_body]
pub(crate) fn regex_is_match(pattern: &str, text: &str) -> (r: Option<bool>)
    ensures
        r == regex_match(pattern@, text@),
{
    match regex::Regex::new(pattern) {
        Ok(re) => Some(re.is_match(text)),
        Err(_) => None,
    }
}

/// Relies on `std::path::PathBuf::join` and `path_slash::PathBufExt::to_slash_lossy`:
/// `file` joined onto `dir`, written with `/` separators. The result depends
/// on the platform's path rules, so nothing is stated of it.
#[verifier::external_body]
pub(crate) fn slash_joined_path(dir: &str, file: &str) -> (r: String) {
    path_slash::PathBufExt::to_slash_lossy(&std::path::PathBuf::from(dir).join(file)).to_string()
}

} // verus!
