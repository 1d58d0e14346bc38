//! The final component of a file path, as `std::path::Path::file_name` gives it.

use vstd::prelude::*;

verus! {

/// What `std::path::Path::file_name` yields for a path given as text: the last
/// component, or nothing when the path ends in `..` or is a bare root or prefix.
pub uninterp spec fn path_file_name(path: Seq<char>) -> Option<Seq<char>>;

/// Calls `std::path::Path::new(path).file_name()` and views the `OsStr` it
/// borrows from `path` as a `&str`.
///
/// Trusted: the result is taken to be exactly `path_file_name(path@)`. A name cut
/// from a `&str` path at separators is itself valid UTF-8, so the conversion to
/// `&str` succeeds whenever `file_name` gives a name.
#[verifier::external_body]
pub(crate) fn file_name<'a>(path: &'a str) -> (res: Option<&'a str>)
    ensures
        match res {
            Some(name) => path_file_name(path@) == Some(name@),
            None => path_file_name(path@) is None,
        },
{
    match std::path::Path::new(path).file_name() {
        Some(name) => name.to_str(),
        None => None,
    }
}

} // verus!
