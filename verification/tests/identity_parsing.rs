use webidentity::get_identity;

fn valid_pk_hex() -> String {
    hex::encode(
        ed25519_dalek::SigningKey::from_bytes(&[9u8; 32])
            .verifying_key()
            .to_bytes(),
    )
}

fn doc_with(extra: &str) -> String {
    format!(
        "<html><head><meta name=\"identity:public-key\" content=\"ed25519-pub:{}\">{}</head><body></body></html>",
        valid_pk_hex(),
        extra
    )
}

fn at(url: &str) -> url::Url {
    url::Url::parse(url).unwrap()
}

#[test]
fn location_strips_trailing_slash() {
    let ident = get_identity(&at("https://example.com/v1/"), &doc_with("")).unwrap();
    assert_eq!(ident.location, "example.com/v1");
}

#[test]
fn location_of_bare_host_has_no_slash() {
    let ident = get_identity(&at("https://example.com"), &doc_with("")).unwrap();
    assert_eq!(ident.location, "example.com");
}

#[test]
fn property_attribute_wins_over_name() {
    let doc = doc_with(
        "<meta name=\"identity:display-name\" property=\"og:title\" content=\"Titled\">",
    );
    let ident = get_identity(&at("https://example.com/id"), &doc).unwrap();
    // The value was recorded under og:title, not under the display name.
    assert_eq!(ident.display_name, "Titled");
    let doc2 = doc_with(
        "<meta name=\"identity:display-name\" property=\"og:title\" content=\"Titled\">\
         <meta name=\"author\" content=\"An Author\">",
    );
    let ident2 = get_identity(&at("https://example.com/id"), &doc2).unwrap();
    assert_eq!(ident2.display_name, "An Author");
}

#[test]
fn later_tags_overwrite_earlier_ones() {
    let doc = doc_with(
        "<meta property=\"og:title\" content=\"First\">\
         <meta property=\"og:title\" content=\"Second\">",
    );
    let ident = get_identity(&at("https://example.com/id"), &doc).unwrap();
    assert_eq!(ident.display_name, "Second");
}

#[test]
fn avatar_resolves_relative_to_source() {
    let doc = doc_with("<meta name=\"identity:avatar\" content=\"/me.png\">");
    let ident = get_identity(&at("https://example.com/people/id"), &doc).unwrap();
    assert_eq!(ident.avatar.unwrap().as_str(), "https://example.com/me.png");
}

#[test]
fn avatar_falls_back_to_og_image_then_favicon() {
    let doc = doc_with("<link rel=\"icon\" href=\"favicon.ico\">");
    let ident = get_identity(&at("https://example.com/id"), &doc).unwrap();
    assert_eq!(
        ident.avatar.as_ref().unwrap().as_str(),
        "https://example.com/favicon.ico"
    );
    let doc2 = doc_with(
        "<link rel=\"icon\" href=\"favicon.ico\">\
         <meta property=\"og:image\" content=\"og.png\">",
    );
    let ident2 = get_identity(&at("https://example.com/id"), &doc2).unwrap();
    assert_eq!(
        ident2.avatar.as_ref().unwrap().as_str(),
        "https://example.com/og.png"
    );
    let doc3 = doc_with(
        "<link rel=\"icon\" href=\"favicon.ico\">\
         <meta property=\"og:image\" content=\"og.png\">\
         <meta name=\"identity:avatar\" content=\"me.png\">",
    );
    let ident3 = get_identity(&at("https://example.com/id"), &doc3).unwrap();
    assert_eq!(
        ident3.avatar.as_ref().unwrap().as_str(),
        "https://example.com/me.png"
    );
}

#[test]
fn shortcut_icon_is_a_favicon_and_other_rels_are_not() {
    let doc = doc_with("<link rel=\"shortcut icon\" href=\"s.ico\">");
    let ident = get_identity(&at("https://example.com/id"), &doc).unwrap();
    assert_eq!(
        ident.avatar.as_ref().unwrap().as_str(),
        "https://example.com/s.ico"
    );
    let doc2 = doc_with("<link rel=\"stylesheet\" href=\"style.css\">");
    let ident2 = get_identity(&at("https://example.com/id"), &doc2).unwrap();
    assert!(ident2.avatar.is_none());
}

#[test]
fn description_falls_back_to_og_description() {
    let doc = doc_with("<meta property=\"og:description\" content=\"OG text\">");
    let ident = get_identity(&at("https://example.com/id"), &doc).unwrap();
    assert_eq!(ident.description.as_deref(), Some("OG text"));
    let doc2 = doc_with(
        "<meta property=\"og:description\" content=\"OG text\">\
         <meta name=\"description\" content=\"Plain text\">",
    );
    let ident2 = get_identity(&at("https://example.com/id"), &doc2).unwrap();
    assert_eq!(ident2.description.as_deref(), Some("Plain text"));
    let ident3 = get_identity(&at("https://example.com/id"), &doc_with("")).unwrap();
    assert!(ident3.description.is_none());
}

#[test]
fn identity_description_and_description_share_a_slot() {
    let doc = doc_with(
        "<meta name=\"identity:description\" content=\"Mine\">\
         <meta name=\"description\" content=\"Later\">",
    );
    let ident = get_identity(&at("https://example.com/id"), &doc).unwrap();
    assert_eq!(ident.description.as_deref(), Some("Later"));
}

#[test]
fn unrecognized_keys_are_ignored() {
    let doc = doc_with("<meta name=\"viewport\" content=\"width=device-width\">");
    let ident = get_identity(&at("https://example.com/id"), &doc).unwrap();
    assert_eq!(ident.display_name, "example.com/id");
}

#[test]
fn location_url_is_kept() {
    let ident = get_identity(&at("https://example.com/id"), &doc_with("")).unwrap();
    assert_eq!(ident.location_url.as_str(), "https://example.com/id");
}
