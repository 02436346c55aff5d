//! Building and verifying the canonical signed-request headers: the exact
//! canonical string, the three wire headers, freshness checking, and the
//! laws that signing and verifying round-trip and that path normalization
//! keeps the canonical string stable.

use vstd::prelude::*;
use vstd::string::*;
use vstd::utf8::encode_utf8;
use crate::crypto::{
    ed25519_key_ok, ed25519_public_key, ed25519_public_of, ed25519_sign, ed25519_signature_of,
    ed25519_verifies, ed25519_verify, ed25519_check_key, sha256, sha256_of,
};
use crate::decimal::{
    dec_u64_val, decimal_of, is_dec_u64, lemma_decimal_round_trip, parse_u64, u64_to_dec_string,
};
use crate::error::{SignatureError, WebIdentityError};
use crate::hexcode::{hex_decode, hex_decoded, hex_encode, hex_of, is_hex_seq, lemma_hex_round_trip};
use crate::strutil::{str_eq, strip_trailing_slashes, trim_trailing_slashes};

verus! {

/// The name of the header carrying the location claim.
pub open spec fn loc_key() -> Seq<char> {
    "WebIdentity-Location"@
}

/// The name of the header carrying the decimal timestamp.
pub open spec fn ts_key() -> Seq<char> {
    "WebIdentity-Timestamp"@
}

/// The name of the header carrying the hex-encoded signature.
pub open spec fn sig_key() -> Seq<char> {
    "WebIdentity-Signature"@
}

/// A source of header values, looked up by name.
pub trait HeaderProvider {
    /// The abstract mapping from header names to values.
    spec fn contents(&self) -> Map<Seq<char>, Seq<char>>;

    /// Looks a header up by name.
    fn get_header<'a>(&'a self, name: &str) -> (r: Option<&'a str>)
        ensures
            match r {
                Some(v) => self.contents().contains_key(name@) && v@ == self.contents()[name@],
                None => !self.contents().contains_key(name@),
            },
    ;
}

/// The mapping written by a sequence of name/value insertions, later
/// insertions overwriting earlier ones.
pub open spec fn map_of(entries: Seq<(String, String)>) -> Map<Seq<char>, Seq<char>>
    decreases entries.len(),
{
    if entries.len() == 0 {
        Map::empty()
    } else {
        map_of(entries.drop_last()).insert(entries.last().0@, entries.last().1@)
    }
}

/// A simple list-backed header source.
pub struct SimpleHeaderProvider {
    entries: Vec<(String, String)>,
}

impl SimpleHeaderProvider {
    /// An empty header source.
    pub fn new() -> (r: SimpleHeaderProvider)
        ensures
            r.contents() == Map::<Seq<char>, Seq<char>>::empty(),
    {
        SimpleHeaderProvider { entries: Vec::new() }
    }

    /// Sets a header, overwriting any earlier value under the same name.
    pub fn insert(&mut self, name: String, value: String)
        ensures
            final(self).contents() == old(self).contents().insert(name@, value@),
    {
        proof {
            let ghost entries = self.entries@.push((name, value));
            assert(entries.drop_last() =~= self.entries@);
        }
        self.entries.push((name, value));
    }
}

impl HeaderProvider for SimpleHeaderProvider {
    closed spec fn contents(&self) -> Map<Seq<char>, Seq<char>> {
        map_of(self.entries@)
    }

    fn get_header<'a>(&'a self, name: &str) -> (r: Option<&'a str>) {
        let ghost whole = self.entries@;
        let mut i: usize = self.entries.len();
        proof {
            assert(whole.take(i as int) =~= whole);
        }
        while i > 0
            invariant
                i <= whole.len(),
                whole == self.entries@,
                map_of(whole).contains_key(name@) == map_of(whole.take(i as int)).contains_key(
                    name@,
                ),
                map_of(whole).contains_key(name@) ==> map_of(whole.take(i as int))[name@] == map_of(
                    whole,
                )[name@],
            decreases i,
        {
            proof {
                assert(whole.take(i as int).drop_last() =~= whole.take(i - 1));
                assert(whole.take(i as int).last() == whole[i - 1]);
            }
            let entry = &self.entries[i - 1];
            if str_eq(entry.0.as_str(), name) {
                return Some(entry.1.as_str());
            }
            i = i - 1;
        }
        proof {
            assert(whole.take(0) =~= Seq::<(String, String)>::empty());
        }
        None
    }
}

/// The uppercase form of a string, as `str::to_uppercase` computes it:
/// a function of the characters alone.
pub uninterp spec fn upper_of(s: Seq<char>) -> Seq<char>;

/// Relies on `str::to_uppercase`: the result depends on the characters
/// alone.
#[verifier::external_body]
pub(crate) fn to_upper(s: &str) -> (r: String)
    ensures
        r@ == upper_of(s@),
{
    s.to_uppercase()
}

/// Relies on `std::time::SystemTime::now`: the current wall clock as
/// whole seconds since the epoch. Nothing is claimed about its value.
#[verifier::external_body]
fn now_unix_secs() -> u64 {
    match std::time::SystemTime::now().duration_since(std::time::UNIX_EPOCH) {
        Ok(d) => d.as_secs(),
        Err(_) => 0,
    }
}

/// The path as it enters the canonical string: kept as it is when it is
/// exactly `/`, otherwise with every trailing slash stripped.
pub open spec fn clean_path(p: Seq<char>) -> Seq<char> {
    if p.len() == 1 && p[0] == '/' {
        p
    } else {
        strip_trailing_slashes(p)
    }
}

/// The canonical string: uppercased method, host, cleaned path, body
/// hash, location claim and timestamp, joined by newlines in this order.
pub open spec fn canonical_view(
    method: Seq<char>,
    host: Seq<char>,
    path: Seq<char>,
    body_hash: Seq<char>,
    location: Seq<char>,
    timestamp: Seq<char>,
) -> Seq<char> {
    upper_of(method) + "\n"@ + host + "\n"@ + clean_path(path) + "\n"@ + body_hash + "\n"@
        + location + "\n"@ + timestamp
}

/// The bytes that are signed: the canonical string built from the
/// request attributes and the asserted location and timestamp, encoded
/// as UTF-8.
pub open spec fn canonical_msg(
    method: Seq<char>,
    host: Seq<char>,
    path: Seq<char>,
    body: Seq<u8>,
    location: Seq<char>,
    timestamp: Seq<char>,
) -> Seq<u8> {
    encode_utf8(canonical_view(method, host, path, hex_of(sha256_of(body)), location, timestamp))
}

/// Builds the canonical string from its six parts.
pub fn build_canonical_string(
    method: &str,
    host: &str,
    path: &str,
    body_hash: &str,
    location: &str,
    timestamp: &str,
) -> (r: String)
    ensures
        r@ == canonical_view(method@, host@, path@, body_hash@, location@, timestamp@),
{
    let is_root = path.unicode_len() == 1 && path.get_char(0) == '/';
    let clean: String = if is_root {
        path.to_owned()
    } else {
        trim_trailing_slashes(path)
    };
    let mut out = to_upper(method);
    out.append("\n");
    out.append(host);
    out.append("\n");
    out.append(clean.as_str());
    out.append("\n");
    out.append(body_hash);
    out.append("\n");
    out.append(location);
    out.append("\n");
    out.append(timestamp);
    proof {
        assert(out@ =~= canonical_view(method@, host@, path@, body_hash@, location@, timestamp@));
    }
    out
}

/// The hex-encoded SHA-256 of the request body.
pub fn hash_body(body: &[u8]) -> (r: String)
    ensures
        r@ == hex_of(sha256_of(body@)),
        r@.len() == 64,
{
    let digest = sha256(body);
    hex_encode(digest.as_slice())
}

/// Signs a byte string, failing when the signing key is not 32 bytes.
/// The signature verifies under the signing key's own verification key.
pub fn sign_bytes(signing_key: &[u8], bytes: &[u8]) -> (r: Result<Vec<u8>, WebIdentityError>)
    ensures
        r is Ok <==> signing_key@.len() == 32,
        r matches Ok(sig) ==> sig@ == ed25519_signature_of(signing_key@, bytes@) && sig@.len()
            == 64,
        r matches Ok(sig) ==> ed25519_public_of(signing_key@).len() == 32 && ed25519_key_ok(
            ed25519_public_of(signing_key@),
        ) && ed25519_verifies(ed25519_public_of(signing_key@), bytes@, sig@),
        r matches Err(e) ==> e matches WebIdentityError::Signature(
            SignatureError::SignatureMismatch,
        ),
{
    if signing_key.len() != 32 {
        return Err(WebIdentityError::Signature(SignatureError::SignatureMismatch));
    }
    Ok(ed25519_sign(signing_key, bytes))
}

/// The verification key belonging to a signing key, failing when the
/// signing key is not 32 bytes.
pub fn pubkey_of(signing_key: &[u8]) -> (r: Result<Vec<u8>, WebIdentityError>)
    ensures
        r is Ok <==> signing_key@.len() == 32,
        r matches Ok(pk) ==> pk@ == ed25519_public_of(signing_key@) && pk@.len() == 32
            && ed25519_key_ok(pk@),
        r matches Err(e) ==> e matches WebIdentityError::Crypto(_),
{
    if signing_key.len() != 32 {
        return Err(WebIdentityError::Crypto("signing key must be 32 bytes".to_owned()));
    }
    Ok(ed25519_public_key(signing_key))
}

/// Checks a signature over a byte string. Succeeds exactly when the key
/// is a valid 32-byte key, the signature is 64 bytes, and the signature
/// verifies; every failure collapses to `SignatureMismatch`.
pub fn verify_signature(public_key: &[u8], original_bytes: &[u8], signature: &[u8]) -> (r: Result<
    (),
    WebIdentityError,
>)
    ensures
        r is Ok <==> (public_key@.len() == 32 && ed25519_key_ok(public_key@) && signature@.len()
            == 64 && ed25519_verifies(public_key@, original_bytes@, signature@)),
        r matches Err(e) ==> e matches WebIdentityError::Signature(
            SignatureError::SignatureMismatch,
        ),
{
    if public_key.len() != 32 {
        return Err(WebIdentityError::Signature(SignatureError::SignatureMismatch));
    }
    if !ed25519_check_key(public_key) {
        return Err(WebIdentityError::Signature(SignatureError::SignatureMismatch));
    }
    if signature.len() != 64 {
        return Err(WebIdentityError::Signature(SignatureError::SignatureMismatch));
    }
    if ed25519_verify(public_key, original_bytes, signature) {
        Ok(())
    } else {
        Err(WebIdentityError::Signature(SignatureError::SignatureMismatch))
    }
}

/// `a - b`, saturating at zero.
pub open spec fn sat_sub(a: u64, b: u64) -> u64 {
    if a >= b {
        (a - b) as u64
    } else {
        0u64
    }
}

/// All three required headers are present.
pub open spec fn headers_present(m: Map<Seq<char>, Seq<char>>) -> bool {
    m.contains_key(loc_key()) && m.contains_key(ts_key()) && m.contains_key(sig_key())
}

/// The asserted timestamp is no older than `max_age` seconds at `now`;
/// a timestamp in the future is never stale.
pub open spec fn fresh_at(m: Map<Seq<char>, Seq<char>>, max_age: u64, now: u64) -> bool {
    sat_sub(now, dec_u64_val(m[ts_key()]) as u64) <= max_age
}

/// The asserted signature is acceptable: it decodes from hex to 64
/// bytes, the key is a valid 32-byte key, and the signature verifies
/// over the canonical string rebuilt from the request attributes and the
/// asserted location and timestamp.
pub open spec fn signature_acceptable(
    m: Map<Seq<char>, Seq<char>>,
    method: Seq<char>,
    host: Seq<char>,
    path: Seq<char>,
    body: Seq<u8>,
    pk: Seq<u8>,
) -> bool {
    &&& is_hex_seq(m[sig_key()])
    &&& m[sig_key()].len() == 128
    &&& pk.len() == 32
    &&& ed25519_key_ok(pk)
    &&& ed25519_verifies(
        pk,
        canonical_msg(method, host, path, body, m[loc_key()], m[ts_key()]),
        hex_decoded(m[sig_key()]),
    )
}

/// Verification succeeds exactly when the three headers are present, the
/// timestamp is a decimal `u64` and fresh, and the signature is
/// acceptable.
pub open spec fn spec_verify_ok(
    m: Map<Seq<char>, Seq<char>>,
    method: Seq<char>,
    host: Seq<char>,
    path: Seq<char>,
    body: Seq<u8>,
    pk: Seq<u8>,
    max_age: u64,
    now: u64,
) -> bool {
    &&& headers_present(m)
    &&& is_dec_u64(m[ts_key()])
    &&& fresh_at(m, max_age, now)
    &&& signature_acceptable(m, method, host, path, body, pk)
}

/// The full outcome of verification at time `now`: success exactly on
/// [`spec_verify_ok`], and each failure with its own error, checked in
/// the order missing headers, timestamp syntax, freshness, signature.
pub open spec fn verify_outcome(
    m: Map<Seq<char>, Seq<char>>,
    method: Seq<char>,
    host: Seq<char>,
    path: Seq<char>,
    body: Seq<u8>,
    pk: Seq<u8>,
    max_age: u64,
    now: u64,
    r: Result<(), WebIdentityError>,
) -> bool {
    &&& (r is Ok <==> spec_verify_ok(m, method, host, path, body, pk, max_age, now))
    &&& (!m.contains_key(loc_key()) ==> (r matches Err(
        WebIdentityError::Signature(SignatureError::MissingHeader(n)),
    ) && n@ == loc_key()))
    &&& (m.contains_key(loc_key()) && !m.contains_key(ts_key()) ==> (r matches Err(
        WebIdentityError::Signature(SignatureError::MissingHeader(n)),
    ) && n@ == ts_key()))
    &&& (m.contains_key(loc_key()) && m.contains_key(ts_key()) && !m.contains_key(sig_key())
        ==> (r matches Err(WebIdentityError::Signature(SignatureError::MissingHeader(n))) && n@
        == sig_key()))
    &&& (headers_present(m) && !is_dec_u64(m[ts_key()]) ==> (r matches Err(
        WebIdentityError::Signature(SignatureError::InvalidTimestamp(s)),
    ) && s@ == m[ts_key()]))
    &&& (headers_present(m) && is_dec_u64(m[ts_key()]) && !fresh_at(m, max_age, now)
        ==> r matches Err(WebIdentityError::Signature(SignatureError::TimestampExpired)))
    &&& (headers_present(m) && is_dec_u64(m[ts_key()]) && fresh_at(m, max_age, now)
        && !signature_acceptable(m, method, host, path, body, pk) ==> r matches Err(
        WebIdentityError::Signature(SignatureError::SignatureMismatch),
    ))
}

/// Verifies a signed request against a public key, taking the current
/// time as an argument. Freshness uses saturating subtraction, so only
/// staleness is checked: a timestamp in the future is never rejected.
pub fn verify_request_at<H: HeaderProvider>(
    http_method: &str,
    host: &str,
    path: &str,
    body: &[u8],
    headers: &H,
    public_key_bytes: &[u8],
    max_age: u64,
    now: u64,
) -> (r: Result<(), WebIdentityError>)
    ensures
        verify_outcome(
            headers.contents(),
            http_method@,
            host@,
            path@,
            body@,
            public_key_bytes@,
            max_age,
            now,
            r,
        ),
{
    let location = match headers.get_header("WebIdentity-Location") {
        Some(v) => v,
        None => {
            return Err(
                WebIdentityError::Signature(
                    SignatureError::MissingHeader("WebIdentity-Location".to_owned()),
                ),
            );
        },
    };
    let timestamp_str = match headers.get_header("WebIdentity-Timestamp") {
        Some(v) => v,
        None => {
            return Err(
                WebIdentityError::Signature(
                    SignatureError::MissingHeader("WebIdentity-Timestamp".to_owned()),
                ),
            );
        },
    };
    let signature_hex = match headers.get_header("WebIdentity-Signature") {
        Some(v) => v,
        None => {
            return Err(
                WebIdentityError::Signature(
                    SignatureError::MissingHeader("WebIdentity-Signature".to_owned()),
                ),
            );
        },
    };
    let timestamp = match parse_u64(timestamp_str) {
        Some(t) => t,
        None => {
            return Err(
                WebIdentityError::Signature(SignatureError::InvalidTimestamp(timestamp_str.to_owned())),
            );
        },
    };
    let age = if now >= timestamp {
        now - timestamp
    } else {
        0
    };
    if age > max_age {
        return Err(WebIdentityError::Signature(SignatureError::TimestampExpired));
    }
    let body_hash = hash_body(body);
    let canonical = build_canonical_string(
        http_method,
        host,
        path,
        body_hash.as_str(),
        location,
        timestamp_str,
    );
    let signature = match hex_decode(signature_hex) {
        Some(s) => s,
        None => {
            return Err(WebIdentityError::Signature(SignatureError::SignatureMismatch));
        },
    };
    verify_signature(public_key_bytes, canonical.as_str().as_bytes(), signature.as_slice())
}

/// Verifies a signed request against a public key, reading the clock for
/// the freshness check. Apart from freshness, the outcome does not
/// depend on the clock.
pub fn verify_request<H: HeaderProvider>(
    http_method: &str,
    host: &str,
    path: &str,
    body: &[u8],
    headers: &H,
    public_key_bytes: &[u8],
    max_age: u64,
) -> (r: Result<(), WebIdentityError>)
    ensures
        exists|now: u64|
            verify_outcome(
                headers.contents(),
                http_method@,
                host@,
                path@,
                body@,
                public_key_bytes@,
                max_age,
                now,
                r,
            ),
        r is Ok ==> headers_present(headers.contents()) && is_dec_u64(
            headers.contents()[ts_key()],
        ) && signature_acceptable(
            headers.contents(),
            http_method@,
            host@,
            path@,
            body@,
            public_key_bytes@,
        ),
        !headers_present(headers.contents()) ==> r matches Err(
            WebIdentityError::Signature(SignatureError::MissingHeader(_)),
        ),
        headers_present(headers.contents()) && !is_dec_u64(headers.contents()[ts_key()])
            ==> r matches Err(WebIdentityError::Signature(SignatureError::InvalidTimestamp(_))),
{
    let now = now_unix_secs();
    let r = verify_request_at(http_method, host, path, body, headers, public_key_bytes, max_age, now);
    proof {
        assert(verify_outcome(
            headers.contents(),
            http_method@,
            host@,
            path@,
            body@,
            public_key_bytes@,
            max_age,
            now,
            r,
        ));
    }
    r
}

/// The headers produced by signing at timestamp `ts`: the location claim
/// verbatim, the decimal timestamp, and the hex-encoded signature over
/// the canonical string.
pub open spec fn signed_header_map(
    location: Seq<char>,
    method: Seq<char>,
    host: Seq<char>,
    path: Seq<char>,
    body: Seq<u8>,
    key: Seq<u8>,
    ts: u64,
) -> Map<Seq<char>, Seq<char>> {
    Map::<Seq<char>, Seq<char>>::empty().insert(loc_key(), location).insert(
        ts_key(),
        decimal_of(ts as nat),
    ).insert(
        sig_key(),
        hex_of(
            ed25519_signature_of(
                key,
                canonical_msg(method, host, path, body, location, decimal_of(ts as nat)),
            ),
        ),
    )
}

/// Builds the three signed-request headers for a given timestamp. The
/// signing and verifying round-trip law is part of the contract: the
/// produced headers verify under the signing key's verification key for
/// the same method, host, path and body, at any time within the
/// freshness window.
pub fn create_signed_headers_at(
    location: &str,
    http_method: &str,
    host: &str,
    path: &str,
    body: &[u8],
    signing_key: &[u8],
    timestamp: u64,
) -> (r: Result<SimpleHeaderProvider, WebIdentityError>)
    ensures
        r is Ok <==> signing_key@.len() == 32,
        r matches Ok(h) ==> h.contents() == signed_header_map(
            location@,
            http_method@,
            host@,
            path@,
            body@,
            signing_key@,
            timestamp,
        ),
        r matches Ok(h) ==> forall|max_age: u64, now2: u64|
            sat_sub(now2, timestamp) <= max_age ==> spec_verify_ok(
                h.contents(),
                http_method@,
                host@,
                path@,
                body@,
                ed25519_public_of(signing_key@),
                max_age,
                now2,
            ),
        r matches Err(e) ==> e matches WebIdentityError::Crypto(_),
{
    if signing_key.len() != 32 {
        return Err(WebIdentityError::Crypto("signing key must be 32 bytes".to_owned()));
    }
    let ts_str = u64_to_dec_string(timestamp);
    let body_hash = hash_body(body);
    let canonical = build_canonical_string(
        http_method,
        host,
        path,
        body_hash.as_str(),
        location,
        ts_str.as_str(),
    );
    let signature = ed25519_sign(signing_key, canonical.as_str().as_bytes());
    let signature_hex = hex_encode(signature.as_slice());
    let mut headers = SimpleHeaderProvider::new();
    headers.insert("WebIdentity-Location".to_owned(), location.to_owned());
    headers.insert("WebIdentity-Timestamp".to_owned(), ts_str);
    headers.insert("WebIdentity-Signature".to_owned(), signature_hex);
    proof {
        reveal_strlit("WebIdentity-Location");
        reveal_strlit("WebIdentity-Timestamp");
        reveal_strlit("WebIdentity-Signature");
        assert(("WebIdentity-Location"@).len() == 20);
        assert(("WebIdentity-Timestamp"@).len() == 21);
        assert(loc_key() != ts_key());
        assert(loc_key() != sig_key());
        assert(("WebIdentity-Timestamp"@)[12] == 'T');
        assert(("WebIdentity-Signature"@)[12] == 'S');
        assert(ts_key() != sig_key());
        lemma_decimal_round_trip(timestamp);
        lemma_hex_round_trip(signature@);
        let m = headers.contents();
        assert(m.contains_key(loc_key()) && m[loc_key()] == location@);
        assert(m.contains_key(ts_key()) && m[ts_key()] == decimal_of(timestamp as nat));
        assert(m.contains_key(sig_key()) && m[sig_key()] == hex_of(signature@));
        assert(signature_acceptable(
            m,
            http_method@,
            host@,
            path@,
            body@,
            ed25519_public_of(signing_key@),
        ));
        assert forall|max_age: u64, now2: u64| sat_sub(now2, timestamp) <= max_age implies
            spec_verify_ok(
                m,
                http_method@,
                host@,
                path@,
                body@,
                ed25519_public_of(signing_key@),
                max_age,
                now2,
            ) by {
            assert(dec_u64_val(m[ts_key()]) == timestamp as nat);
        };
    }
    Ok(headers)
}

/// Builds the three signed-request headers, reading the clock for the
/// timestamp.
pub fn create_signed_headers(
    location: &str,
    http_method: &str,
    host: &str,
    path: &str,
    body: &[u8],
    signing_key: &[u8],
) -> (r: Result<SimpleHeaderProvider, WebIdentityError>)
    ensures
        r is Ok <==> signing_key@.len() == 32,
        r matches Ok(h) ==> exists|ts: u64|
            h.contents() == signed_header_map(
                location@,
                http_method@,
                host@,
                path@,
                body@,
                signing_key@,
                ts,
            ),
        r matches Err(e) ==> e matches WebIdentityError::Crypto(_),
{
    let now = now_unix_secs();
    let r = create_signed_headers_at(location, http_method, host, path, body, signing_key, now);
    proof {
        if r is Ok {
            assert((r->Ok_0).contents() == signed_header_map(
                location@,
                http_method@,
                host@,
                path@,
                body@,
                signing_key@,
                now,
            ));
        }
    }
    r
}

/// Law: a trailing slash on a non-root, non-empty path does not change
/// the canonical string, while the root path `/` is kept as it is.
pub proof fn lemma_path_normalization(
    method: Seq<char>,
    host: Seq<char>,
    path: Seq<char>,
    body_hash: Seq<char>,
    location: Seq<char>,
    timestamp: Seq<char>,
)
    requires
        path.len() > 0,
        !(path.len() == 1 && path[0] == '/'),
    ensures
        canonical_view(method, host, path.push('/'), body_hash, location, timestamp)
            == canonical_view(method, host, path, body_hash, location, timestamp),
        clean_path(seq!['/']) == seq!['/'],
{
    assert(path.push('/').drop_last() =~= path);
    assert(path.push('/').last() == '/');
    assert(clean_path(path.push('/')) == strip_trailing_slashes(path));
}

} // verus!
