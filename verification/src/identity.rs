//! Parsing an identity document into a normalized identity record: a fold
//! of the extracted tag events into an accumulator, then a resolution pass
//! with the fallback rules, the public-key checks, and the derived
//! identifier and location.

use vstd::prelude::*;
use vstd::string::*;
use crate::crypto::{ed25519_check_key, ed25519_key_ok, sha256, sha256_of};
use crate::error::WebIdentityError;
use crate::hexcode::{hex_decode, hex_decoded, hex_encode, hex_of, is_hex_seq};
use crate::scan::{scan_tags, scanned_tags, TagEvent};
use crate::strutil::{
    lemma_strip_no_trailing_slash, opt_nonempty, opt_view, str_eq, strip_trailing_slashes,
    trim_trailing_slashes,
};
use crate::urls::{url_host, url_join, url_path};

verus! {

/// A parsed identity record. `public_key` always holds a structurally
/// valid 32-byte key, and `id` is the hex-encoded SHA-256 of those bytes.
#[derive(Debug, Clone)]
pub struct Identity {
    /// Hex-encoded SHA-256 of the raw public-key bytes.
    pub id: String,
    /// The raw 32-byte verification key.
    pub public_key: Vec<u8>,
    /// Human-readable name; falls back to `location` when no source yields one.
    pub display_name: String,
    /// Resolved absolute URL of a profile image, when one resolved.
    pub avatar: Option<url::Url>,
    /// Free-text description, when one was given.
    pub description: Option<String>,
    /// The URL the document was fetched from, as supplied by the caller.
    pub location_url: url::Url,
    /// `host + path` of `location_url`, trailing slashes stripped.
    pub location: String,
}

impl Identity {
    /// The record's structural invariant: a valid key of the scheme's
    /// length, and the identifier derived from it.
    pub open spec fn well_formed(self) -> bool {
        &&& self.public_key@.len() == 32
        &&& ed25519_key_ok(self.public_key@)
        &&& self.id@ == hex_of(sha256_of(self.public_key@))
    }
}

/// The accumulator filled by one pass over the tag events.
struct RawIdentityData {
    public_key: Option<String>,
    display_name: Option<String>,
    author: Option<String>,
    og_author: Option<String>,
    og_title: Option<String>,
    avatar: Option<String>,
    og_image: Option<String>,
    favicon: Option<String>,
    description: Option<String>,
    og_description: Option<String>,
}

/// The abstract value of the accumulator: one optional string per
/// recognized metadata source.
pub ghost struct RawView {
    pub public_key: Option<Seq<char>>,
    pub display_name: Option<Seq<char>>,
    pub author: Option<Seq<char>>,
    pub og_author: Option<Seq<char>>,
    pub og_title: Option<Seq<char>>,
    pub avatar: Option<Seq<char>>,
    pub og_image: Option<Seq<char>>,
    pub favicon: Option<Seq<char>>,
    pub description: Option<Seq<char>>,
    pub og_description: Option<Seq<char>>,
}

impl View for RawIdentityData {
    type V = RawView;

    closed spec fn view(&self) -> RawView {
        RawView {
            public_key: opt_view(self.public_key),
            display_name: opt_view(self.display_name),
            author: opt_view(self.author),
            og_author: opt_view(self.og_author),
            og_title: opt_view(self.og_title),
            avatar: opt_view(self.avatar),
            og_image: opt_view(self.og_image),
            favicon: opt_view(self.favicon),
            description: opt_view(self.description),
            og_description: opt_view(self.og_description),
        }
    }
}

/// The accumulator with every source absent.
pub open spec fn empty_raw() -> RawView {
    RawView {
        public_key: None,
        display_name: None,
        author: None,
        og_author: None,
        og_title: None,
        avatar: None,
        og_image: None,
        favicon: None,
        description: None,
        og_description: None,
    }
}

/// The key under which a meta tag's content is recorded: the `property`
/// attribute when present, else the `name` attribute.
pub open spec fn meta_key(property: Option<String>, name: Option<String>) -> Option<Seq<char>> {
    match property {
        Some(p) => Some(p@),
        None => match name {
            Some(n) => Some(n@),
            None => None,
        },
    }
}

/// Records one meta tag's content under its key; unrecognized keys are
/// ignored. Both `identity:description` and `description` feed the same
/// description slot.
pub open spec fn apply_meta(acc: RawView, key: Seq<char>, content: Seq<char>) -> RawView {
    if key == "identity:public-key"@ {
        RawView { public_key: Some(content), ..acc }
    } else if key == "identity:display-name"@ {
        RawView { display_name: Some(content), ..acc }
    } else if key == "identity:avatar"@ {
        RawView { avatar: Some(content), ..acc }
    } else if key == "identity:description"@ {
        RawView { description: Some(content), ..acc }
    } else if key == "author"@ {
        RawView { author: Some(content), ..acc }
    } else if key == "og:author"@ {
        RawView { og_author: Some(content), ..acc }
    } else if key == "og:title"@ {
        RawView { og_title: Some(content), ..acc }
    } else if key == "og:image"@ {
        RawView { og_image: Some(content), ..acc }
    } else if key == "og:description"@ {
        RawView { og_description: Some(content), ..acc }
    } else if key == "description"@ {
        RawView { description: Some(content), ..acc }
    } else {
        acc
    }
}

/// Folds one tag event into the accumulator: meta tags with a content
/// attribute are recorded under their key, link tags whose `rel` is
/// `icon` or `shortcut icon` record their `href` as the favicon.
pub open spec fn apply_event(acc: RawView, t: TagEvent) -> RawView {
    match t {
        TagEvent::Meta { name, property, content } => match content {
            Some(c) => match meta_key(property, name) {
                Some(k) => apply_meta(acc, k, c@),
                None => acc,
            },
            None => acc,
        },
        TagEvent::Link { rel, href } => match rel {
            Some(r) => if r@ == "icon"@ || r@ == "shortcut icon"@ {
                match href {
                    Some(h) => RawView { favicon: Some(h@), ..acc },
                    None => acc,
                }
            } else {
                acc
            },
            None => acc,
        },
    }
}

/// The accumulator after folding all tag events in document order; later
/// occurrences of a key overwrite earlier ones.
pub open spec fn folded(tags: Seq<TagEvent>) -> RawView
    decreases tags.len(),
{
    if tags.len() == 0 {
        empty_raw()
    } else {
        apply_event(folded(tags.drop_last()), tags.last())
    }
}

/// Folds the extracted tag events into the accumulator.
fn fold_tags(tags: &Vec<TagEvent>) -> (r: RawIdentityData)
    ensures
        r@ == folded(tags@),
{
    let mut raw = RawIdentityData {
        public_key: None,
        display_name: None,
        author: None,
        og_author: None,
        og_title: None,
        avatar: None,
        og_image: None,
        favicon: None,
        description: None,
        og_description: None,
    };
    let mut i: usize = 0;
    while i < tags.len()
        invariant
            i <= tags@.len(),
            raw@ == folded(tags@.take(i as int)),
        decreases tags@.len() - i,
    {
        proof {
            assert(tags@.take(i + 1).drop_last() =~= tags@.take(i as int));
            assert(tags@.take(i + 1).last() == tags@[i as int]);
        }
        match &tags[i] {
            TagEvent::Meta { name, property, content } => {
                if let Some(c) = content {
                    let key: Option<&String> = match property {
                        Some(p) => Some(p),
                        None => match name {
                            Some(n) => Some(n),
                            None => None,
                        },
                    };
                    if let Some(k) = key {
                        if str_eq(k.as_str(), "identity:public-key") {
                            raw.public_key = Some(c.clone());
                        } else if str_eq(k.as_str(), "identity:display-name") {
                            raw.display_name = Some(c.clone());
                        } else if str_eq(k.as_str(), "identity:avatar") {
                            raw.avatar = Some(c.clone());
                        } else if str_eq(k.as_str(), "identity:description") {
                            raw.description = Some(c.clone());
                        } else if str_eq(k.as_str(), "author") {
                            raw.author = Some(c.clone());
                        } else if str_eq(k.as_str(), "og:author") {
                            raw.og_author = Some(c.clone());
                        } else if str_eq(k.as_str(), "og:title") {
                            raw.og_title = Some(c.clone());
                        } else if str_eq(k.as_str(), "og:image") {
                            raw.og_image = Some(c.clone());
                        } else if str_eq(k.as_str(), "og:description") {
                            raw.og_description = Some(c.clone());
                        } else if str_eq(k.as_str(), "description") {
                            raw.description = Some(c.clone());
                        }
                    }
                }
            },
            TagEvent::Link { rel, href } => {
                if let Some(rl) = rel {
                    if str_eq(rl.as_str(), "icon") || str_eq(rl.as_str(), "shortcut icon") {
                        if let Some(h) = href {
                            raw.favicon = Some(h.clone());
                        }
                    }
                }
            },
        }
        i = i + 1;
    }
    proof {
        assert(tags@.take(tags@.len() as int) =~= tags@);
    }
    raw
}

/// Holds when a recorded public-key value starts with the scheme prefix.
pub open spec fn pk_has_prefix(s: Seq<char>) -> bool {
    s.len() >= "ed25519-pub:"@.len() && s.take("ed25519-pub:"@.len() as int) == "ed25519-pub:"@
}

/// The hex digits after the scheme prefix.
pub open spec fn pk_hex_part(s: Seq<char>) -> Seq<char> {
    s.skip("ed25519-pub:"@.len() as int)
}

/// Holds when a recorded public-key value is acceptable: the prefix, then
/// hex digits decoding to exactly 32 bytes that form a valid key.
pub open spec fn pk_well_formed(s: Seq<char>) -> bool {
    &&& pk_has_prefix(s)
    &&& is_hex_seq(pk_hex_part(s))
    &&& hex_decoded(pk_hex_part(s)).len() == 32
    &&& ed25519_key_ok(hex_decoded(pk_hex_part(s)))
}

/// The key bytes a well-formed public-key value decodes to.
pub open spec fn pk_bytes_of(s: Seq<char>) -> Seq<u8> {
    hex_decoded(pk_hex_part(s))
}

/// Checks the recorded public-key value and decodes the key bytes,
/// reporting exactly why an unacceptable value was rejected.
pub fn parse_public_key(pk: &Option<String>) -> (r: Result<Vec<u8>, WebIdentityError>)
    ensures
        r is Ok <==> (opt_view(*pk) matches Some(s) && pk_well_formed(s)),
        opt_view(*pk) is None <==> r matches Err(WebIdentityError::MissingPublicKey),
        (opt_view(*pk) matches Some(s) && !pk_well_formed(s)) <==> r matches Err(
            WebIdentityError::InvalidPublicKeyFormat(_),
        ),
        r matches Ok(v) ==> opt_view(*pk) matches Some(s) && v@ == pk_bytes_of(s),
{
    proof {
        reveal_strlit("ed25519-pub:");
    }
    let value = match pk {
        Some(v) => v,
        None => {
            return Err(WebIdentityError::MissingPublicKey);
        },
    };
    let len = value.as_str().unicode_len();
    if len < 12 || !str_eq(value.as_str().substring_char(0, 12), "ed25519-pub:") {
        proof {
            if len >= 12 {
                assert(value@.subrange(0, 12) =~= value@.take(12));
            }
        }
        return Err(
            WebIdentityError::InvalidPublicKeyFormat(
                "This server only supports keys that start with 'ed25519-pub:'.".to_owned(),
            ),
        );
    }
    proof {
        assert(value@.subrange(0, 12) =~= value@.take(12));
        assert(value@.subrange(12, value@.len() as int) =~= pk_hex_part(value@));
    }
    let hex_part = value.as_str().substring_char(12, len);
    let decoded = match hex_decode(hex_part) {
        Some(d) => d,
        None => {
            return Err(WebIdentityError::InvalidPublicKeyFormat("Invalid hex encoding.".to_owned()));
        },
    };
    if decoded.len() != 32 {
        return Err(WebIdentityError::InvalidPublicKeyFormat("Wrong key size".to_owned()));
    }
    if !ed25519_check_key(decoded.as_slice()) {
        return Err(
            WebIdentityError::InvalidPublicKeyFormat("Not a valid Ed25519 public key.".to_owned()),
        );
    }
    Ok(decoded)
}

/// The stable identifier of a public key: the hex-encoded SHA-256 of the
/// raw key bytes. Deterministic: equal key bytes give equal identifiers.
pub fn identity_id(public_key: &[u8]) -> (r: String)
    ensures
        r@ == hex_of(sha256_of(public_key@)),
        r@.len() == 64,
{
    let digest = sha256(public_key);
    hex_encode(digest.as_slice())
}

/// The normalized location string: host, then path, trailing slashes
/// stripped.
pub open spec fn location_of(host: Seq<char>, path: Seq<char>) -> Seq<char> {
    strip_trailing_slashes(host + path)
}

/// Concatenates host and path and strips trailing slashes.
pub fn derive_location(host: &str, path: &str) -> (r: String)
    ensures
        r@ == location_of(host@, path@),
{
    let mut joined = host.to_owned();
    joined.append(path);
    trim_trailing_slashes(joined.as_str())
}

/// The display name: the first non-empty value among the display-name,
/// author, OpenGraph author and OpenGraph title sources, else the
/// location string. Empty strings count as absent at every step.
pub open spec fn display_name_of(raw: RawView, location: Seq<char>) -> Seq<char> {
    if opt_nonempty(raw.display_name) {
        raw.display_name->0
    } else if opt_nonempty(raw.author) {
        raw.author->0
    } else if opt_nonempty(raw.og_author) {
        raw.og_author->0
    } else if opt_nonempty(raw.og_title) {
        raw.og_title->0
    } else {
        location
    }
}

/// Picks the display name by the fallback chain.
fn choose_display_name(raw: &RawIdentityData, location: &String) -> (r: String)
    ensures
        r@ == display_name_of(raw@, location@),
{
    if let Some(s) = &raw.display_name {
        if s.as_str().unicode_len() > 0 {
            return s.clone();
        }
    }
    if let Some(s) = &raw.author {
        if s.as_str().unicode_len() > 0 {
            return s.clone();
        }
    }
    if let Some(s) = &raw.og_author {
        if s.as_str().unicode_len() > 0 {
            return s.clone();
        }
    }
    if let Some(s) = &raw.og_title {
        if s.as_str().unicode_len() > 0 {
            return s.clone();
        }
    }
    location.clone()
}

/// The avatar source: the first recorded value among the avatar,
/// OpenGraph image and favicon sources.
pub open spec fn avatar_candidate_of(raw: RawView) -> Option<Seq<char>> {
    if raw.avatar is Some {
        raw.avatar
    } else if raw.og_image is Some {
        raw.og_image
    } else {
        raw.favicon
    }
}

/// Picks the avatar source by the fallback chain.
fn choose_avatar(raw: &RawIdentityData) -> (r: Option<String>)
    ensures
        opt_view(r) == avatar_candidate_of(raw@),
{
    if let Some(s) = &raw.avatar {
        Some(s.clone())
    } else if let Some(s) = &raw.og_image {
        Some(s.clone())
    } else if let Some(s) = &raw.favicon {
        Some(s.clone())
    } else {
        None
    }
}

/// The description: the description slot when recorded, else the
/// OpenGraph description.
pub open spec fn description_of(raw: RawView) -> Option<Seq<char>> {
    if raw.description is Some {
        raw.description
    } else {
        raw.og_description
    }
}

/// Picks the description by the fallback chain.
fn choose_description(raw: &RawIdentityData) -> (r: Option<String>)
    ensures
        opt_view(r) == description_of(raw@),
{
    if let Some(s) = &raw.description {
        Some(s.clone())
    } else if let Some(s) = &raw.og_description {
        Some(s.clone())
    } else {
        None
    }
}

/// Parses an identity document fetched from `source_url` into an
/// [`Identity`]: one extraction pass over the markup, then the resolution
/// pass. Fails exactly when the public key is absent or unacceptable.
pub fn get_identity(source_url: &url::Url, content: &str) -> (r: Result<Identity, WebIdentityError>)
    ensures
        r is Ok <==> (folded(scanned_tags(content@)).public_key matches Some(s) && pk_well_formed(
            s,
        )),
        folded(scanned_tags(content@)).public_key is None <==> r matches Err(
            WebIdentityError::MissingPublicKey,
        ),
        (folded(scanned_tags(content@)).public_key matches Some(s) && !pk_well_formed(s))
            <==> r matches Err(WebIdentityError::InvalidPublicKeyFormat(_)),
        r matches Ok(ident) ==> ({
            let raw = folded(scanned_tags(content@));
            &&& raw.public_key matches Some(s) && ident.public_key@ == pk_bytes_of(s)
            &&& ident.well_formed()
            &&& ident.display_name@ == display_name_of(raw, ident.location@)
            &&& opt_view(ident.description) == description_of(raw)
            &&& (avatar_candidate_of(raw) is None ==> ident.avatar is None)
            &&& (ident.location@.len() == 0 || ident.location@.last() != '/')
            &&& ident.location_url == *source_url
        }),
{
    let tags = scan_tags(content);
    let raw = fold_tags(&tags);
    let public_key = match parse_public_key(&raw.public_key) {
        Ok(v) => v,
        Err(e) => {
            return Err(e);
        },
    };
    let id = identity_id(public_key.as_slice());
    let host = match url_host(source_url) {
        Some(h) => h,
        None => String::new(),
    };
    let path = url_path(source_url);
    let location = derive_location(host.as_str(), path.as_str());
    proof {
        lemma_strip_no_trailing_slash(host@ + path@);
    }
    let display_name = choose_display_name(&raw, &location);
    let avatar = match choose_avatar(&raw) {
        Some(href) => url_join(source_url, href.as_str()),
        None => None,
    };
    let description = choose_description(&raw);
    Ok(
        Identity {
            id,
            public_key,
            display_name,
            avatar,
            description,
            location_url: source_url.clone(),
            location,
        },
    )
}

} // verus!
