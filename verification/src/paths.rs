//! File paths as strings, read through the standard library's path rules.

use vstd::prelude::*;

verus! {

/// What `std::path::Path::file_stem` gives for `path`: the final component
/// without its extension, or `None` where the path has no final component
/// (an empty path, a root, a path that ends in `..`). The standard library
/// reads the path by the syntax of the platform the crate is built for.
pub uninterp spec fn path_file_stem(path: Seq<char>) -> Option<Seq<char>>;

/// What is left in a `std::path::PathBuf` made from `path` after
/// `set_file_name(file_name)`: the path with its final component replaced,
/// or with `file_name` added where it had none.
pub uninterp spec fn path_with_file_name(path: Seq<char>, file_name: Seq<char>) -> Seq<char>;

/// Calls `std::path::Path::file_stem` on `path` and hands the stem out as
/// a string. Trusted: the result is the one named `path_file_stem`.
#[verifier::external_body]
pub(crate) fn file_stem(path: &str) -> (stem: Option<String>)
    ensures
        stem.deep_view() == path_file_stem(path@),
{
    std::path::Path::new(path).file_stem().map(|stem| stem.to_string_lossy().into_owned())
}

/// Calls `std::path::PathBuf::set_file_name` on a buffer made from `path`
/// and hands the buffer out as a string. Trusted: the result is the one
/// named `path_with_file_name`.
#[verifier::external_body]
pub(crate) fn with_file_name(path: &str, file_name: &str) -> (r: String)
    ensures
        r@ == path_with_file_name(path@, file_name@),
{
    let mut buffer = std::path::PathBuf::from(path);
    buffer.set_file_name(file_name);
    buffer.to_string_lossy().into_owned()
}

} // verus!
