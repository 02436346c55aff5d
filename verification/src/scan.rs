//! The streaming extraction pass over an identity document's markup.
//! The traversal itself is done by `lol_html`; it reports each `meta` and
//! `link` tag as a plain [`TagEvent`], and everything the library decides
//! about those events is verified downstream.

use vstd::prelude::*;
use vstd::string::*;
use crate::strutil::str_eq;

verus! {

/// One tag reported by the markup traversal, in document order:
/// a `meta` tag with its `name`, `property` and `content` attributes, or
/// a `link` tag with its `rel` and `href` attributes.
#[derive(Debug, Clone)]
pub enum TagEvent {
    Meta { name: Option<String>, property: Option<String>, content: Option<String> },
    Link { rel: Option<String>, href: Option<String> },
}

/// The tag events the markup traversal reports for a document. The
/// traversal is deterministic, so the sequence is a function of the
/// document text alone.
pub uninterp spec fn scanned_tags(content: Seq<char>) -> Seq<TagEvent>;

/// Appends the event for one reported element: `meta` and `link` tags are
/// recorded with their attributes, anything else is ignored.
pub(crate) fn record_tag(
    events: &mut Vec<TagEvent>,
    tag: String,
    name: Option<String>,
    property: Option<String>,
    content: Option<String>,
    rel: Option<String>,
    href: Option<String>,
)
    ensures
        tag@ == "meta"@ ==> final(events)@ == old(events)@.push(
            TagEvent::Meta { name, property, content },
        ),
        tag@ != "meta"@ && tag@ == "link"@ ==> final(events)@ == old(events)@.push(
            TagEvent::Link { rel, href },
        ),
        tag@ != "meta"@ && tag@ != "link"@ ==> final(events)@ == old(events)@,
{
    if str_eq(tag.as_str(), "meta") {
        events.push(TagEvent::Meta { name, property, content });
    } else if str_eq(tag.as_str(), "link") {
        events.push(TagEvent::Link { rel, href });
    }
}

/// Relies on `lol_html::HtmlRewriter` (non-strict settings, one handler
/// for `meta, link`): it traverses the document's markup once and calls
/// the handler for each matching element in document order, so the events
/// collected are a function of the document text alone.
#[verifier::external_body]
pub(crate) fn scan_tags(content: &str) -> (r: Vec<TagEvent>)
    ensures
        r@ == scanned_tags(content@),
{
    let mut events: Vec<TagEvent> = Vec::new();
    let handler = lol_html::ElementContentHandlers::default().element(|el: &mut lol_html::html_content::Element| {
        record_tag(&mut events, el.tag_name(), el.get_attribute("name"), el.get_attribute("property"),
            el.get_attribute("content"), el.get_attribute("rel"), el.get_attribute("href"));
        Ok(())
    });
    let selector = std::borrow::Cow::Owned("meta, link".parse::<lol_html::Selector>().unwrap());
    let settings = lol_html::Settings::new().with_strict(false).append_element_content_handler((selector, handler));
    let mut rewriter = lol_html::HtmlRewriter::new(settings, |_: &[u8]| {});
    let _ = rewriter.write(content.as_bytes());
    let _ = rewriter.end();
    events
}

} // verus!
