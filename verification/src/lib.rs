//! Resolving, parsing, and verifying WebIdentity documents.
//!
//! WebIdentity lets a party use a web page it controls as a decentralized
//! identity: the page carries a public key, and control of the page's
//! location is proved by signing outgoing requests. This crate resolves
//! location strings to URLs, parses identity documents into identity
//! records, and builds and checks the canonical signed-request headers.

pub mod crypto;
pub mod decimal;
pub mod error;
pub mod hexcode;
pub mod identity;
pub mod resolve;
pub mod scan;
pub mod sign;
pub mod strutil;
pub mod urls;

pub use error::{SignatureError, WebIdentityError};
pub use identity::{get_identity, Identity};
pub use resolve::resolve_location_url;
pub use scan::TagEvent;
pub use sign::{
    build_canonical_string, create_signed_headers, create_signed_headers_at, pubkey_of,
    sign_bytes, verify_request, verify_request_at, verify_signature, HeaderProvider,
    SimpleHeaderProvider,
};
