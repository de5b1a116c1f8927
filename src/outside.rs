//! Trusted contracts of the outside functions this library calls.

use vstd::prelude::*;

verus! {

#[verifier::external_type_specification]
#[verifier::external_body]
pub struct ExRegexError(regex::Error);

#[verifier::external_type_specification]
#[verifier::external_body]
pub struct ExRegex(regex::Regex);

#[verifier::external_type_specification]
#[verifier::external_body]
pub struct ExUrlParseError(url::ParseError);

/// Whether `regex::Regex::new` accepts the pattern.
pub uninterp spec fn regex_compiles(pattern: Seq<char>) -> bool;

/// What `regex::Regex::is_match` answers for the compiled pattern on a haystack.
pub uninterp spec fn regex_is_match(pattern: Seq<char>, haystack: Seq<char>) -> bool;

/// Whether `url::Url::parse` accepts the text.
pub uninterp spec fn url_parses(text: Seq<char>) -> bool;

/// The path component (`url::Url::path`) of the parsed URL.
pub uninterp spec fn url_path(text: Seq<char>) -> Seq<char>;

/// The serialization of the parsed URL after `url::Url::set_path(path)`.
pub uninterp spec fn url_with_path(text: Seq<char>, path: Seq<char>) -> Seq<char>;

/// What `<u64 as core::str::FromStr>::from_str` gives for the text.
pub uninterp spec fn parsed_u64(text: Seq<char>) -> Option<u64>;

/// Relies on `regex::Regex::new`: it fails exactly on the patterns it refuses.
#[verifier::external_body]
pub(crate) fn compile_regex(pattern: &str) -> (r: Result<regex::Regex, regex::Error>)
    ensures
        r.is_ok() == regex_compiles(pattern@),
{
    regex::Regex::new(pattern)
}

/// Relies on `regex::Regex::new` followed by `regex::Regex::is_match`: the
/// answer depends on the pattern and the haystack alone.
#[verifier::external_body]
pub(crate) fn regex_match(pattern: &str, haystack: &str) -> (r: Result<bool, regex::Error>)
    ensures
        r.is_ok() == regex_compiles(pattern@),
        r matches Ok(b) ==> b == regex_is_match(pattern@, haystack@),
{
    match regex::Regex::new(pattern) {
        Ok(re) => Ok(re.is_match(haystack)),
        Err(e) => Err(e),
    }
}

/// Relies on `url::Url::parse` and `url::Url::path`: the path of the parsed
/// URL, or the parse error.
#[verifier::external_body]
pub(crate) fn parse_url_path(text: &str) -> (r: Result<String, url::ParseError>)
    ensures
        r.is_ok() == url_parses(text@),
        r matches Ok(p) ==> p@ == url_path(text@),
{
    match url::Url::parse(text) {
        Ok(u) => Ok(u.path().to_string()),
        Err(e) => Err(e),
    }
}

/// Relies on `url::Url::parse`, `url::Url::set_path` and the `Display` of
/// `url::Url`: the URL with its path replaced, keeping scheme, host, port and
/// query. `set_path` panics once the serialization passes `u32::MAX` bytes;
/// the bound on the lengths keeps every input far below that.
#[verifier::external_body]
pub(crate) fn replace_url_path(text: &str, path: &str) -> (r: Result<String, url::ParseError>)
    requires
        text@.len() + path@.len() <= 100_000_000,
    ensures
        r.is_ok() == url_parses(text@),
        r matches Ok(s) ==> s@ == url_with_path(text@, path@),
{
    match url::Url::parse(text) {
        Ok(mut u) => {
            u.set_path(path);
            Ok(u.to_string())
        },
        Err(e) => Err(e),
    }
}

/// Relies on `str::parse::<u64>`: the result depends on the text alone.
#[verifier::external_body]
pub(crate) fn parse_u64(text: &str) -> (r: Option<u64>)
    ensures
        r == parsed_u64(text@),
{
    text.parse::<u64>().ok()
}

} // verus!
