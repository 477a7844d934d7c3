//! File-system path arithmetic delegated to `std::path`.
//!
//! `std::path` parses paths by the rules of the platform the crate is built
//! for (separators, prefixes); a build applies one set of rules, so within it
//! each of these results is a function of the text it is given. No file is
//! read.

use vstd::prelude::*;

verus! {

/// The extension of the path's file name, as `Path::extension` gives it.
pub uninterp spec fn std_path_extension(p: Seq<char>) -> Option<Seq<char>>;

/// The file name of the path without its extension, as `Path::file_stem`
/// gives it.
pub uninterp spec fn std_path_file_stem(p: Seq<char>) -> Option<Seq<char>>;

/// The path without its final component, as `Path::parent` gives it.
pub uninterp spec fn std_path_parent(p: Seq<char>) -> Option<Seq<char>>;

/// `base` joined with `name`, as `Path::join` gives it.
pub uninterp spec fn std_path_join(base: Seq<char>, name: Seq<char>) -> Seq<char>;

/// Calls `Path::extension` on `p` and converts the result to a string (it is
/// valid UTF-8, being part of a `str`). Claimed: the result is
/// `std_path_extension(p)`.
#[verifier::external_body]
pub(crate) fn path_extension(p: &str) -> (r: Option<String>)
    ensures
        match r {
            Some(e) => std_path_extension(p@) == Some(e@),
            None => std_path_extension(p@) is None,
        },
{
    std::path::Path::new(p).extension().and_then(|e| e.to_str()).map(|e| e.to_string())
}

/// Calls `Path::file_stem` on `p` and converts the result to a string.
/// Claimed: the result is `std_path_file_stem(p)`.
#[verifier::external_body]
pub(crate) fn path_file_stem(p: &str) -> (r: Option<String>)
    ensures
        match r {
            Some(e) => std_path_file_stem(p@) == Some(e@),
            None => std_path_file_stem(p@) is None,
        },
{
    std::path::Path::new(p).file_stem().and_then(|e| e.to_str()).map(|e| e.to_string())
}

/// Calls `Path::parent` on `p` and converts the result to a string.
/// Claimed: the result is `std_path_parent(p)`.
#[verifier::external_body]
pub(crate) fn path_parent(p: &str) -> (r: Option<String>)
    ensures
        match r {
            Some(e) => std_path_parent(p@) == Some(e@),
            None => std_path_parent(p@) is None,
        },
{
    std::path::Path::new(p).parent().and_then(|e| e.to_str()).map(|e| e.to_string())
}

/// Calls `Path::join` and converts the joined path to a string (lossless, as
/// both parts are `str`). Claimed: the result is `std_path_join(base, name)`.
#[verifier::external_body]
pub(crate) fn path_join(base: &str, name: &str) -> (r: String)
    ensures
        r@ == std_path_join(base@, name@),
{
    std::path::Path::new(base).join(name).to_string_lossy().to_string()
}

/// Reads `std::path::MAIN_SEPARATOR`, the platform's path separator. Claimed:
/// it is a slash or a backslash, as std documents (a slash on Unix, a
/// backslash on Windows); which of the two depends on the platform.
#[verifier::external_body]
pub(crate) fn main_separator() -> (r: char)
    ensures
        r == '/' || r == '\\',
{
    std::path::MAIN_SEPARATOR
}

} // verus!
