//! Trusted boundary: the few computations this library takes from `reqwest`'s
//! URL type and from `std::path`. Each result is named, never re-derived here.
use vstd::prelude::*;

verus! {

/// The text of the absolute URL that results from resolving `input` against the
/// base URL whose text is `base` (WHATWG URL rules), or `None` where `base` is not an
/// absolute URL or `input` cannot be resolved against it.
pub uninterp spec fn url_join_result(base: Seq<char>, input: Seq<char>) -> Option<Seq<char>>;

/// The text of `base` joined with `name` by `std::path::Path::join`.
pub uninterp spec fn path_join_result(base: Seq<char>, name: Seq<char>) -> Seq<char>;

/// The final component of the path `path`, as `std::path::Path::file_name` gives it.
pub uninterp spec fn path_file_name_result(path: Seq<char>) -> Option<Seq<char>>;

/// The `Debug` rendering of the path `path` (a quoted, escaped string).
pub uninterp spec fn path_debug_result(path: Seq<char>) -> Seq<char>;

/// Calls `reqwest::Url::parse` on `base` and then `reqwest::Url::join` with `input`
/// on the parsed URL, handing back the text of the joined URL (`Url::as_str`).
/// Claimed: the result is exactly `url_join_result(base, input)`; a parse or join
/// failure comes back as `None`. Nothing else is claimed of the resolution rules.
#[verifier::external_body]
pub(crate) fn url_join(base: &str, input: &str) -> (joined: Option<String>)
    ensures
        joined matches Some(s) ==> url_join_result(base@, input@) == Some(s@),
        joined is None ==> url_join_result(base@, input@) is None,
{
    match reqwest::Url::parse(base) {
        Ok(url) => match url.join(input) {
            Ok(out) => Some(out.as_str().to_string()),
            Err(_) => None,
        },
        Err(_) => None,
    }
}

/// Calls `std::path::Path::join` (on `Path::new(base)`) and returns the joined path
/// as text. Both operands are UTF-8, so the text is lossless.
/// Claimed: the result is `path_join_result(base, name)`.
#[verifier::external_body]
pub(crate) fn path_join(base: &str, name: &str) -> (joined: String)
    ensures
        joined@ == path_join_result(base@, name@),
{
    std::path::Path::new(base).join(name).to_string_lossy().into_owned()
}

/// Calls `std::path::Path::file_name` (on `Path::new(path)`) and returns the final
/// component as text, or `None` when the path has none (it ends in `..` or is a root).
/// Claimed: the result is `path_file_name_result(path)`.
#[verifier::external_body]
pub(crate) fn path_file_name(path: &str) -> (name: Option<String>)
    ensures
        name matches Some(s) ==> path_file_name_result(path@) == Some(s@),
        name is None ==> path_file_name_result(path@) is None,
{
    match std::path::Path::new(path).file_name() {
        Some(n) => Some(n.to_string_lossy().into_owned()),
        None => None,
    }
}

/// Formats `std::path::Path::new(path)` with its `Debug` impl.
/// Claimed: the result is `path_debug_result(path)`.
#[verifier::external_body]
pub(crate) fn path_debug(path: &str) -> (text: String)
    ensures
        text@ == path_debug_result(path@),
{
    format!("{:?}", std::path::Path::new(path))
}

} // verus!
