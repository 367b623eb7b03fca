//! Links in vector graphics, named in the words of that format.

use crate::formats::xml::{
    XmlLink, XmlLinkType, XmlLinkTypeView, XmlLinkView, XmlScrapingError, XmlScrapingErrorView,
};
use crate::markup::{Attribute, AttributeView, TextPosition};
use crate::views::result_view;
use vstd::prelude::*;

verus! {

/// Why a vector graphic could not be scraped.
#[derive(Debug)]
pub enum SvgScrapingError {
    /// The markup could not be scraped.
    XmlScrapingError(XmlScrapingError),
}

/// Mathematical model of an [`SvgScrapingError`]: which error it is.
pub enum SvgScrapingErrorView {
    XmlScrapingError(XmlScrapingErrorView),
}

impl View for SvgScrapingError {
    type V = SvgScrapingErrorView;

    open spec fn view(&self) -> SvgScrapingErrorView {
        match self {
            SvgScrapingError::XmlScrapingError(error) => SvgScrapingErrorView::XmlScrapingError(
                error@,
            ),
        }
    }
}

impl DeepView for SvgScrapingError {
    type V = SvgScrapingErrorView;

    open spec fn deep_view(&self) -> SvgScrapingErrorView {
        self@
    }
}

/// Where in a vector graphic a link was found.
#[derive(Debug)]
pub enum SvgLinkKind {
    /// The link is inside the value of an attribute, as in
    /// `<a href="https://link.example.com">`.
    Attribute(Attribute),
    /// The link is inside a comment.
    Comment,
    /// The link is inside a plain-text portion.
    Text,
    /// The link is inside a script portion.
    Script,
    /// The link is the URI of a namespace; holds the prefix bound to it.
    NameSpace(String),
}

/// Mathematical model of an [`SvgLinkKind`].
pub enum SvgLinkKindView {
    Attribute(AttributeView),
    Comment,
    Text,
    Script,
    NameSpace(Seq<char>),
}

impl View for SvgLinkKind {
    type V = SvgLinkKindView;

    open spec fn view(&self) -> SvgLinkKindView {
        match self {
            SvgLinkKind::Attribute(attribute) => SvgLinkKindView::Attribute(attribute@),
            SvgLinkKind::Comment => SvgLinkKindView::Comment,
            SvgLinkKind::Text => SvgLinkKindView::Text,
            SvgLinkKind::Script => SvgLinkKindView::Script,
            SvgLinkKind::NameSpace(prefix) => SvgLinkKindView::NameSpace(prefix@),
        }
    }
}

impl DeepView for SvgLinkKind {
    type V = SvgLinkKindView;

    open spec fn deep_view(&self) -> SvgLinkKindView {
        self@
    }
}

impl Clone for SvgLinkKind {
    fn clone(&self) -> (copy: SvgLinkKind)
        ensures
            copy == *self,
    {
        match self {
            SvgLinkKind::Attribute(attribute) => SvgLinkKind::Attribute(attribute.clone()),
            SvgLinkKind::Comment => SvgLinkKind::Comment,
            SvgLinkKind::Text => SvgLinkKind::Text,
            SvgLinkKind::Script => SvgLinkKind::Script,
            SvgLinkKind::NameSpace(prefix) => SvgLinkKind::NameSpace(prefix.clone()),
        }
    }
}

/// A link found in a vector graphic.
#[derive(Debug)]
pub struct SvgLink {
    /// The link as it stands in the graphic.
    pub url: String,
    /// Where the reader stood when it had read what holds the link.
    pub location: TextPosition,
    /// In what the link was found.
    pub kind: SvgLinkKind,
}

/// Mathematical model of an [`SvgLink`].
pub struct SvgLinkView {
    pub url: Seq<char>,
    pub location: TextPosition,
    pub kind: SvgLinkKindView,
}

impl View for SvgLink {
    type V = SvgLinkView;

    open spec fn view(&self) -> SvgLinkView {
        SvgLinkView { url: self.url@, location: self.location, kind: self.kind@ }
    }
}

impl DeepView for SvgLink {
    type V = SvgLinkView;

    open spec fn deep_view(&self) -> SvgLinkView {
        self@
    }
}

impl Clone for SvgLink {
    fn clone(&self) -> (copy: SvgLink)
        ensures
            copy == *self,
    {
        SvgLink { url: self.url.clone(), location: self.location, kind: self.kind.clone() }
    }
}

impl SvgLink {
    /// The link as text: its URL.
    pub fn to_string(&self) -> (text: String)
        ensures
            text@ == self.url@,
    {
        self.url.clone()
    }
}

/// A place in a named file.
#[derive(Debug)]
pub struct SvgLinkLocation {
    /// The name of the file.
    pub file: String,
    /// The place in it.
    pub position: TextPosition,
}

/// The kind of a markup link in the words of vector graphics: character data is text,
/// and embedded data is script.
pub open spec fn svg_kind(kind: XmlLinkTypeView) -> SvgLinkKindView {
    match kind {
        XmlLinkTypeView::Attribute(attribute) => SvgLinkKindView::Attribute(attribute),
        XmlLinkTypeView::Comment => SvgLinkKindView::Comment,
        XmlLinkTypeView::PlainText(_) => SvgLinkKindView::Text,
        XmlLinkTypeView::CData(_) => SvgLinkKindView::Script,
        XmlLinkTypeView::NameSpace(prefix) => SvgLinkKindView::NameSpace(prefix),
    }
}

/// A markup link as a link of a vector graphic.
pub open spec fn svg_link(link: XmlLinkView) -> SvgLinkView {
    SvgLinkView { url: link.url, location: link.location, kind: svg_kind(link.kind) }
}

/// The first `n` markup links as links of a vector graphic.
pub open spec fn svg_links(links: Seq<XmlLinkView>, n: nat) -> Seq<SvgLinkView> {
    Seq::new(n, |i: int| svg_link(links[i]))
}

/// Names a markup link in the words of vector graphics.
pub fn relabel(link: &XmlLink) -> (relabelled: SvgLink)
    ensures
        relabelled@ == svg_link(link@),
{
    let kind = match &link.kind {
        XmlLinkType::Attribute(attribute) => SvgLinkKind::Attribute(attribute.clone()),
        XmlLinkType::Comment => SvgLinkKind::Comment,
        XmlLinkType::PlainText(_) => SvgLinkKind::Text,
        XmlLinkType::CData(_) => SvgLinkKind::Script,
        XmlLinkType::NameSpace(prefix) => SvgLinkKind::NameSpace(prefix.clone()),
    };
    SvgLink { url: link.url.clone(), location: link.location, kind }
}

/// Names each markup link in the words of vector graphics.
pub fn relabel_all(links: &Vec<XmlLink>) -> (relabelled: Vec<SvgLink>)
    ensures
        relabelled.deep_view() == svg_links(links.deep_view(), links.len() as nat),
{
    let mut relabelled: Vec<SvgLink> = Vec::new();
    let mut i: usize = 0;
    while i < links.len()
        invariant
            i <= links.len(),
            relabelled.deep_view() == svg_links(links.deep_view(), i as nat),
        decreases links.len() - i,
    {
        let ghost earlier = relabelled.deep_view();
        relabelled.push(relabel(&links[i]));
        assert(relabelled.deep_view() =~= earlier.push(svg_link(links.deep_view()[i as int])));
        i += 1;
    }
    relabelled
}

/// What scraping a vector graphic comes to: what scraping its markup comes to, with
/// each link named in the words of the format.
pub open spec fn scrape_outcome(bytes: Seq<u8>) -> Result<Seq<SvgLinkView>, SvgScrapingErrorView> {
    match crate::formats::xml::scrape_outcome(bytes) {
        Ok(links) => Ok(svg_links(links, links.len())),
        Err(error) => Err(SvgScrapingErrorView::XmlScrapingError(error)),
    }
}

/// Scrapes links from a vector graphic: the links of its markup, each named in the
/// words of the format. Where the markup is malformed an error comes back, and no link.
pub fn scrape(bytes: &[u8]) -> (res: Result<Vec<SvgLink>, SvgScrapingError>)
    ensures
        result_view(res) == scrape_outcome(bytes@),
{
    match crate::formats::xml::scrape(bytes) {
        Ok(links) => Ok(relabel_all(&links)),
        Err(error) => Err(SvgScrapingError::XmlScrapingError(error)),
    }
}

} // verus!
