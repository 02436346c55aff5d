//! Error taxonomy shared by location resolution, identity parsing, and
//! request signing/verification.

use vstd::prelude::*;

verus! {

/// Errors raised while resolving a location or parsing an identity document,
/// with signature failures wrapped in [`WebIdentityError::Signature`].
#[derive(Debug)]
pub enum WebIdentityError {
    /// URL parsing failed; carries the parser's own error value.
    UrlParse(url::ParseError),
    /// The location names a scheme other than `http` or `https`;
    /// carries the offending scheme.
    UnsupportedProtocol(String),
    /// The required `identity:public-key` meta tag was not found.
    MissingPublicKey,
    /// The public key value has the wrong prefix, is not hex,
    /// has the wrong length, or is not a valid key; carries a reason.
    InvalidPublicKeyFormat(String),
    /// No fallback source yielded a display name. The location fallback
    /// always succeeds, so this variant is never produced; it is kept as
    /// part of the error taxonomy.
    MissingDisplayName,
    /// A signed request failed verification.
    Signature(SignatureError),
    /// A cryptographic operation could not be carried out, for instance
    /// because a signing key has the wrong length; carries a reason.
    Crypto(String),
}

/// Errors raised while checking a signed request.
#[derive(Debug)]
pub enum SignatureError {
    /// A required header was absent; carries the header name.
    MissingHeader(String),
    /// The timestamp header is not a decimal `u64`; carries its value.
    InvalidTimestamp(String),
    /// The request timestamp is older than the freshness window allows.
    TimestampExpired,
    /// The signature does not match the request. All cryptographic and
    /// formatting failures collapse into this one variant.
    SignatureMismatch,
}

} // verus!
