//! Resolving a free-form location string into an absolute URL: the scheme
//! rules are the library's own logic, the URL grammar is the `url`
//! crate's.

use vstd::prelude::*;
use vstd::string::*;
use crate::error::WebIdentityError;
use crate::strutil::str_eq;
use crate::urls::{url_parse, url_parse_ok};

verus! {

/// The scheme separator `://` starts at index `i` of `s`.
pub open spec fn has_sep_at(s: Seq<char>, i: int) -> bool {
    &&& 0 <= i
    &&& i + 3 <= s.len()
    &&& s[i] == ':'
    &&& s[i + 1] == '/'
    &&& s[i + 2] == '/'
}

/// `s` contains the scheme separator `://` somewhere.
pub open spec fn contains_sep(s: Seq<char>) -> bool {
    exists|i: int| has_sep_at(s, i)
}

/// The index of the first scheme separator at or after `i`, or the
/// length of `s` when there is none.
pub open spec fn first_sep_from(s: Seq<char>, i: int) -> int
    decreases s.len() - i,
{
    if i + 3 > s.len() {
        s.len() as int
    } else if has_sep_at(s, i) {
        i
    } else {
        first_sep_from(s, i + 1)
    }
}

/// The scheme token: everything before the first scheme separator.
pub open spec fn scheme_of(s: Seq<char>) -> Seq<char> {
    s.take(first_sep_from(s, 0))
}

/// Only `http` and `https` are accepted schemes.
pub open spec fn scheme_supported(scheme: Seq<char>) -> bool {
    scheme == "http"@ || scheme == "https"@
}

/// `first_sep_from` returns the position of the first separator.
proof fn lemma_first_sep_from(s: Seq<char>, k: int, i: int)
    requires
        0 <= k <= i,
        has_sep_at(s, i),
        forall|j: int| k <= j < i ==> !has_sep_at(s, j),
    ensures
        first_sep_from(s, k) == i,
    decreases i - k,
{
    if k < i {
        lemma_first_sep_from(s, k + 1, i);
    }
}

/// Finds the first scheme separator, if any.
fn find_scheme_sep(s: &str) -> (r: Option<usize>)
    ensures
        r matches Some(i) ==> has_sep_at(s@, i as int) && first_sep_from(s@, 0) == i as int,
        r is None ==> !contains_sep(s@),
{
    let len = s.unicode_len();
    let mut i: usize = 0;
    while len >= 3 && i <= len - 3
        invariant
            len == s@.len(),
            i <= len,
            forall|j: int| 0 <= j < i ==> !has_sep_at(s@, j),
        decreases len - i,
    {
        if s.get_char(i) == ':' && s.get_char(i + 1) == '/' && s.get_char(i + 2) == '/' {
            proof {
                lemma_first_sep_from(s@, 0, i as int);
            }
            return Some(i);
        }
        i = i + 1;
    }
    proof {
        assert forall|j: int| !(#[trigger] has_sep_at(s@, j)) by {
            if 0 <= j < i {
                assert(!has_sep_at(s@, j));
            }
        };
    }
    None
}

/// Resolves a location string into an absolute `http` or `https` URL.
///
/// A string with a scheme separator must name the scheme `http` or
/// `https`, and is parsed as it stands; any other scheme is rejected
/// with [`WebIdentityError::UnsupportedProtocol`] carrying the scheme
/// token. A string without a separator is parsed with `https://`
/// prepended. Parse failures come back as
/// [`WebIdentityError::UrlParse`].
pub fn resolve_location_url(location: &str) -> (r: Result<url::Url, WebIdentityError>)
    ensures
        r is Ok <==> (if contains_sep(location@) {
            scheme_supported(scheme_of(location@)) && url_parse_ok(location@)
        } else {
            url_parse_ok("https://"@ + location@)
        }),
        contains_sep(location@) && !scheme_supported(scheme_of(location@)) <==> (r matches Err(
            WebIdentityError::UnsupportedProtocol(sch),
        ) && sch@ == scheme_of(location@)),
        r matches Err(e) ==> (e matches WebIdentityError::UrlParse(_) || e matches
            WebIdentityError::UnsupportedProtocol(_)),
{
    match find_scheme_sep(location) {
        Some(i) => {
            let scheme = location.substring_char(0, i);
            proof {
                assert(scheme@ =~= scheme_of(location@));
            }
            if str_eq(scheme, "http") || str_eq(scheme, "https") {
                match url_parse(location) {
                    Ok(u) => Ok(u),
                    Err(e) => Err(WebIdentityError::UrlParse(e)),
                }
            } else {
                Err(WebIdentityError::UnsupportedProtocol(scheme.to_owned()))
            }
        },
        None => {
            let mut full = "https://".to_owned();
            full.append(location);
            proof {
                assert(full@ == "https://"@ + location@);
            }
            match url_parse(full.as_str()) {
                Ok(u) => Ok(u),
                Err(e) => Err(WebIdentityError::UrlParse(e)),
            }
        },
    }
}

} // verus!
