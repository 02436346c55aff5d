//! Declarations of the `url` crate's types and thin trusted wrappers around
//! the calls the library makes into it. URL values are opaque here: every
//! property the verified logic depends on is carried as plain strings.

use vstd::prelude::*;

verus! {

#[verifier::external_type_specification]
#[verifier::external_body]
pub struct ExUrl(url::Url);

#[verifier::external_type_specification]
#[verifier::external_body]
pub struct ExParseError(url::ParseError);

/// Whether `url::Url::parse` accepts a string: the URL grammar is the
/// `url` crate's, and parsing is deterministic, so acceptance is a
/// function of the string alone.
pub uninterp spec fn url_parse_ok(s: Seq<char>) -> bool;

/// Relies on `url::Url::parse`: deterministic, so it succeeds exactly on
/// the strings named by [`url_parse_ok`].
#[verifier::external_body]
pub(crate) fn url_parse(input: &str) -> (r: Result<url::Url, url::ParseError>)
    ensures
        r is Ok <==> url_parse_ok(input@),
{
    url::Url::parse(input)
}

/// Relies on `url::Url::host_str`: the URL's host, absent for URLs
/// without one (such as `data:` URLs).
#[verifier::external_body]
pub(crate) fn url_host(u: &url::Url) -> (r: Option<String>) {
    match u.host_str() {
        Some(h) => Some(h.to_owned()),
        None => None,
    }
}

/// Relies on `url::Url::path`: the URL's path component.
#[verifier::external_body]
pub(crate) fn url_path(u: &url::Url) -> (r: String) {
    u.path().to_owned()
}

/// Relies on `url::Url::join`: resolves `href` relative to `base`,
/// `None` when the reference cannot be resolved.
#[verifier::external_body]
pub(crate) fn url_join(base: &url::Url, href: &str) -> (r: Option<url::Url>) {
    match base.join(href) {
        Ok(u) => Some(u),
        Err(_) => None,
    }
}

/// Relies on `url::Url`'s derived `Clone`: a field-for-field copy, so the
/// clone equals the original.
pub assume_specification[ <url::Url as core::clone::Clone>::clone ](u: &url::Url) -> (r: url::Url)
    ensures
        r == *u,
;

} // verus!
