//! The URL matcher: finds the web addresses in a piece of text.

use vstd::prelude::*;

verus! {

/// What a span of text that the link finder reports is.
#[derive(Clone, Copy, Debug, PartialEq, Eq, Structural)]
pub enum SpanKind {
    /// A web address with a scheme.
    Url,
    /// An e-mail address.
    Email,
    /// A kind that this library gives no meaning to.
    Other,
}

/// A link found in a text: the matched substring and where it stands.
#[derive(Debug)]
pub struct FoundLink {
    /// The matched substring.
    pub text: String,
    /// Byte offset of the first byte of the match within the text searched.
    pub start: usize,
    /// Byte offset just past the match.
    pub end: usize,
    /// What the match is.
    pub kind: SpanKind,
}

/// Mathematical model of a [`FoundLink`].
pub struct FoundLinkView {
    pub text: Seq<char>,
    pub start: nat,
    pub end: nat,
    pub kind: SpanKind,
}

impl View for FoundLink {
    type V = FoundLinkView;

    open spec fn view(&self) -> FoundLinkView {
        FoundLinkView {
            text: self.text@,
            start: self.start as nat,
            end: self.end as nat,
            kind: self.kind,
        }
    }
}

impl DeepView for FoundLink {
    type V = FoundLinkView;

    open spec fn deep_view(&self) -> FoundLinkView {
        self@
    }
}

impl Clone for FoundLink {
    fn clone(&self) -> (copy: FoundLink)
        ensures
            copy == *self,
    {
        FoundLink { text: self.text.clone(), start: self.start, end: self.end, kind: self.kind }
    }
}

impl FoundLink {
    /// Puts the parts of a link together.
    pub fn new(text: String, start: usize, end: usize, kind: SpanKind) -> (link: FoundLink)
        ensures
            link == (FoundLink { text, start, end, kind }),
    {
        FoundLink { text, start, end, kind }
    }
}

/// Every link that the finder of `linkify` reports in `text`, in the order of the text.
pub uninterp spec fn found_links(text: Seq<char>) -> Seq<FoundLinkView>;

/// The first `n` links of `found`, without those that are no web addresses.
pub open spec fn urls_among(found: Seq<FoundLinkView>, n: nat) -> Seq<FoundLinkView>
    decreases n,
{
    if n == 0 {
        Seq::empty()
    } else {
        let before = urls_among(found, (n - 1) as nat);
        if found[n - 1].kind == SpanKind::Url {
            before.push(found[n - 1])
        } else {
            before
        }
    }
}

/// The web addresses in `text`, in the order of the text.
pub open spec fn urls_in(text: Seq<char>) -> Seq<FoundLinkView> {
    urls_among(found_links(text), found_links(text).len())
}

/// Runs `linkify::LinkFinder::links` with the default finder over `content` and hands out
/// each link that it yields: its text, its byte offsets and its kind. What comes back
/// depends on the text alone.
#[verifier::external_body]
fn find_links(content: &str) -> (links: Vec<FoundLink>)
    ensures
        links.deep_view() == found_links(content@),
{
    linkify::LinkFinder::new()
        .links(content)
        .map(|link| FoundLink::new(link.as_str().to_string(), link.start(), link.end(), match link.kind() {
            linkify::LinkKind::Url => SpanKind::Url,
            linkify::LinkKind::Email => SpanKind::Email,
            _ => SpanKind::Other,
        }))
        .collect()
}

/// Keeps the web addresses among the links that the finder reported.
pub fn keep_urls(found: Vec<FoundLink>) -> (urls: Vec<FoundLink>)
    ensures
        urls.deep_view() == urls_among(found.deep_view(), found.len() as nat),
{
    let mut urls: Vec<FoundLink> = Vec::new();
    let mut i: usize = 0;
    while i < found.len()
        invariant
            i <= found.len(),
            urls.deep_view() == urls_among(found.deep_view(), i as nat),
        decreases found.len() - i,
    {
        let link = &found[i];
        if link.kind == SpanKind::Url {
            urls.push(link.clone());
        }
        i += 1;
    }
    urls
}

/// Finds all web addresses in a text. E-mail addresses are not reported.
pub fn find_urls(content: &str) -> (urls: Vec<FoundLink>)
    ensures
        urls.deep_view() == urls_in(content@),
{
    keep_urls(find_links(content))
}

} // verus!
