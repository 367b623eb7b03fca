//! The dispatcher: finds out what kind of document some bytes are and scrapes the links
//! with the extractor for that kind. Use it only where the format is not known.

use crate::formats::image::{ImageLink, ImageLinkView, ImageScrapingError, ImageScrapingErrorView};
use crate::formats::odf::{OdfLink, OdfLinkView, OdfScrapingError, OdfScrapingErrorView};
use crate::formats::ooxml::{OoxmlLink, OoxmlLinkView, OoxmlScrapingError, OoxmlScrapingErrorView};
use crate::formats::pdf::{PdfLink, PdfLinkView, PdfScrapingError};
use crate::formats::plaintext::{
    TextFileLink, TextFileLinkView, TextFileScrapingError, TextFileScrapingErrorView,
};
use crate::formats::rtf::{RtfLink, RtfLinkView, RtfScrapingError, RtfScrapingErrorView};
use crate::formats::xml::svg::{SvgLink, SvgLinkView, SvgScrapingError, SvgScrapingErrorView};
use crate::formats::xml::{XmlLink, XmlLinkView, XmlScrapingError, XmlScrapingErrorView};
use crate::helpers::{find_urls, urls_in, FoundLinkView};
use crate::text::{decode, str_eq};
use crate::views::result_view;
use vstd::prelude::*;
use vstd::string::StringExecFns;
use vstd::utf8::{decode_utf8, valid_utf8};

verus! {

/// A link found in a document, with what the extractor of its format says of it.
#[derive(Debug)]
pub enum Link {
    /// A link found in bytes of no known format, read as text.
    StringLink(String),
    /// A link found in a plain text.
    TextFileLink(TextFileLink),
    /// A link found in an office document of the OpenDocument kind.
    OdfLink(OdfLink),
    /// A link found in a paged document.
    PdfLink(PdfLink),
    /// A link found in an office document of the OOXML kind.
    OoxmlLink(OoxmlLink),
    /// A link found in a rich-text document.
    RtfLink(RtfLink),
    /// A link found in a markup document.
    XmlLink(XmlLink),
    /// A link found in a vector graphic.
    SvgLink(SvgLink),
    /// A link found in an image.
    ImageLink(ImageLink),
}

/// Mathematical model of a [`Link`].
pub enum LinkView {
    StringLink(Seq<char>),
    TextFileLink(TextFileLinkView),
    OdfLink(OdfLinkView),
    PdfLink(PdfLinkView),
    OoxmlLink(OoxmlLinkView),
    RtfLink(RtfLinkView),
    XmlLink(XmlLinkView),
    SvgLink(SvgLinkView),
    ImageLink(ImageLinkView),
}

impl View for Link {
    type V = LinkView;

    open spec fn view(&self) -> LinkView {
        match self {
            Link::StringLink(url) => LinkView::StringLink(url@),
            Link::TextFileLink(link) => LinkView::TextFileLink(link@),
            Link::OdfLink(link) => LinkView::OdfLink(link@),
            Link::PdfLink(link) => LinkView::PdfLink(link@),
            Link::OoxmlLink(link) => LinkView::OoxmlLink(link@),
            Link::RtfLink(link) => LinkView::RtfLink(link@),
            Link::XmlLink(link) => LinkView::XmlLink(link@),
            Link::SvgLink(link) => LinkView::SvgLink(link@),
            Link::ImageLink(link) => LinkView::ImageLink(link@),
        }
    }
}

impl DeepView for Link {
    type V = LinkView;

    open spec fn deep_view(&self) -> LinkView {
        self@
    }
}

impl Clone for Link {
    fn clone(&self) -> (copy: Link)
        ensures
            copy == *self,
    {
        match self {
            Link::StringLink(url) => Link::StringLink(url.clone()),
            Link::TextFileLink(link) => Link::TextFileLink(link.clone()),
            Link::OdfLink(link) => Link::OdfLink(link.clone()),
            Link::PdfLink(link) => Link::PdfLink(link.clone()),
            Link::OoxmlLink(link) => Link::OoxmlLink(link.clone()),
            Link::RtfLink(link) => Link::RtfLink(link.clone()),
            Link::XmlLink(link) => Link::XmlLink(link.clone()),
            Link::SvgLink(link) => Link::SvgLink(link.clone()),
            Link::ImageLink(link) => Link::ImageLink(link.clone()),
        }
    }
}

/// The URL of a link.
pub open spec fn url_of(link: LinkView) -> Seq<char> {
    match link {
        LinkView::StringLink(url) => url,
        LinkView::TextFileLink(link) => link.url,
        LinkView::OdfLink(link) => link.url,
        LinkView::PdfLink(link) => link.url,
        LinkView::OoxmlLink(link) => link.url,
        LinkView::RtfLink(link) => link.url,
        LinkView::XmlLink(link) => link.url,
        LinkView::SvgLink(link) => link.url,
        LinkView::ImageLink(link) => link.url,
    }
}

/// The name of the kind of a link.
pub open spec fn kind_name(link: LinkView) -> Seq<char> {
    match link {
        LinkView::StringLink(_) => "StringLink"@,
        LinkView::TextFileLink(_) => "TextFileLink"@,
        LinkView::OdfLink(_) => "OdfLink"@,
        LinkView::PdfLink(_) => "PdfLink"@,
        LinkView::OoxmlLink(_) => "OoxmlLink"@,
        LinkView::RtfLink(_) => "RtfLink"@,
        LinkView::XmlLink(_) => "XmlLink"@,
        LinkView::SvgLink(_) => "SvgLink"@,
        LinkView::ImageLink(_) => "ImageLink"@,
    }
}

/// A link as text: the name of its kind, and its URL in round brackets.
pub open spec fn link_text(link: LinkView) -> Seq<char> {
    kind_name(link) + "("@ + url_of(link) + ")"@
}

/// `url` in round brackets behind `name`.
pub fn bracketed(name: &str, url: &str) -> (text: String)
    ensures
        text@ == name@ + "("@ + url@ + ")"@,
{
    String::from_str(name).concat("(").concat(url).concat(")")
}

impl Link {
    /// The link as text: the name of its kind, and its URL in round brackets.
    pub fn to_string(&self) -> (text: String)
        ensures
            text@ == link_text(self@),
    {
        match self {
            Link::StringLink(url) => bracketed("StringLink", url.as_str()),
            Link::TextFileLink(link) => bracketed("TextFileLink", link.url.as_str()),
            Link::OdfLink(link) => bracketed("OdfLink", link.url.as_str()),
            Link::PdfLink(link) => bracketed("PdfLink", link.url.as_str()),
            Link::OoxmlLink(link) => bracketed("OoxmlLink", link.url.as_str()),
            Link::RtfLink(link) => bracketed("RtfLink", link.url.as_str()),
            Link::XmlLink(link) => bracketed("XmlLink", link.url.as_str()),
            Link::SvgLink(link) => bracketed("SvgLink", link.url.as_str()),
            Link::ImageLink(link) => bracketed("ImageLink", link.url.as_str()),
        }
    }
}

/// Why some bytes could not be scraped.
#[derive(Debug)]
pub enum LinkScrapingError {
    /// The bytes are of no known format and are no valid UTF-8; holds the decoder's
    /// error.
    IoError(core::str::Utf8Error),
    /// The extractor for plain text failed.
    TextFileScrapingError(TextFileScrapingError),
    /// The extractor for office documents of the OOXML kind failed.
    OoxmlScrapingError(OoxmlScrapingError),
    /// The extractor for office documents of the OpenDocument kind failed.
    OdtScrapingError(OdfScrapingError),
    /// The extractor for paged documents failed.
    PdfScrapingError(PdfScrapingError),
    /// The extractor for rich-text documents failed.
    RtfScrapingError(RtfScrapingError),
    /// The extractor for markup documents failed.
    XmlScrapingError(XmlScrapingError),
    /// The extractor for vector graphics failed.
    SvgScrapingError(SvgScrapingError),
    /// The extractor for images failed.
    ImageScrapingError(ImageScrapingError),
    /// The format was recognized, but its extractor is not enabled; holds a message
    /// that names the format.
    FeatureNotEnabledError(String),
    /// The format was recognized, but there is no extractor for it; holds the format's
    /// name, or a message.
    FileTypeNotImplemented(String),
    /// An extractor failed for a reason of its own; holds a message.
    ScrapingFailedError(String),
}

/// Mathematical model of a [`LinkScrapingError`].
pub enum LinkScrapingErrorView {
    IoError,
    TextFileScrapingError(TextFileScrapingErrorView),
    OoxmlScrapingError(OoxmlScrapingErrorView),
    OdtScrapingError(OdfScrapingErrorView),
    PdfScrapingError(PdfScrapingError),
    RtfScrapingError(RtfScrapingErrorView),
    XmlScrapingError(XmlScrapingErrorView),
    SvgScrapingError(SvgScrapingErrorView),
    ImageScrapingError(ImageScrapingErrorView),
    FeatureNotEnabledError(Seq<char>),
    FileTypeNotImplemented(Seq<char>),
    ScrapingFailedError(Seq<char>),
}

impl View for LinkScrapingError {
    type V = LinkScrapingErrorView;

    open spec fn view(&self) -> LinkScrapingErrorView {
        match self {
            LinkScrapingError::IoError(_) => LinkScrapingErrorView::IoError,
            LinkScrapingError::TextFileScrapingError(error) => LinkScrapingErrorView::TextFileScrapingError(error@),
            LinkScrapingError::OoxmlScrapingError(error) => LinkScrapingErrorView::OoxmlScrapingError(error@),
            LinkScrapingError::OdtScrapingError(error) => LinkScrapingErrorView::OdtScrapingError(error@),
            LinkScrapingError::PdfScrapingError(error) => LinkScrapingErrorView::PdfScrapingError(*error),
            LinkScrapingError::RtfScrapingError(error) => LinkScrapingErrorView::RtfScrapingError(error@),
            LinkScrapingError::XmlScrapingError(error) => LinkScrapingErrorView::XmlScrapingError(error@),
            LinkScrapingError::SvgScrapingError(error) => LinkScrapingErrorView::SvgScrapingError(error@),
            LinkScrapingError::ImageScrapingError(error) => LinkScrapingErrorView::ImageScrapingError(error@),
            LinkScrapingError::FeatureNotEnabledError(message) => LinkScrapingErrorView::FeatureNotEnabledError(message@),
            LinkScrapingError::FileTypeNotImplemented(message) => LinkScrapingErrorView::FileTypeNotImplemented(message@),
            LinkScrapingError::ScrapingFailedError(message) => LinkScrapingErrorView::ScrapingFailedError(message@),
        }
    }
}

impl DeepView for LinkScrapingError {
    type V = LinkScrapingErrorView;

    open spec fn deep_view(&self) -> LinkScrapingErrorView {
        self@
    }
}

/// What comes of scraping: the links, or the error.
pub type Outcome = Result<Seq<LinkView>, LinkScrapingErrorView>;

/// The kinds of document that the dispatcher tells apart.
#[derive(Clone, Copy, Debug, PartialEq, Eq, Structural)]
pub enum FormatKind {
    /// Plain text, and formats that are read as plain text.
    PlainText,
    /// An office document of the OpenDocument kind.
    Odf,
    /// An office document of the OOXML kind.
    Ooxml,
    /// A compressed container that may be an office document of either kind.
    Zip,
    /// A paged document.
    Pdf,
    /// A rich-text document.
    Rtf,
    /// A vector graphic.
    Svg,
    /// A markup document.
    Xml,
    /// An image that may hold descriptive data.
    Image,
    /// A format for which there is no extractor.
    Unknown,
}

/// The extractors that are enabled.
#[derive(Clone, Copy, Debug, PartialEq, Eq, Structural)]
pub struct Capabilities {
    /// Plain text, and the formats that are read as plain text.
    pub plaintext: bool,
    /// Office documents of the OOXML kind.
    pub ooxml: bool,
    /// Office documents of the OpenDocument kind.
    pub odf: bool,
    /// Rich-text documents.
    pub rtf: bool,
    /// Markup documents.
    pub xml: bool,
    /// Vector graphics.
    pub svg: bool,
    /// Images with descriptive data.
    pub image: bool,
}

impl Capabilities {
    /// Every extractor that this library holds. The extractor for paged documents
    /// works on pages that were read already and is none of them.
    pub open spec fn spec_all() -> Capabilities {
        Capabilities {
            plaintext: true,
            ooxml: true,
            odf: true,
            rtf: true,
            xml: true,
            svg: true,
            image: true,
        }
    }

    /// Every extractor that this library holds.
    #[verifier::when_used_as_spec(spec_all)]
    pub fn all() -> (capabilities: Capabilities)
        ensures
            capabilities == Capabilities::spec_all(),
    {
        Capabilities {
            plaintext: true,
            ooxml: true,
            odf: true,
            rtf: true,
            xml: true,
            svg: true,
            image: true,
        }
    }
}

/// The signature-based name of the format of some bytes, as `infer::get` tells it;
/// `None` where it knows no signature that fits.
pub uninterp spec fn sniffed_mime(bytes: Seq<u8>) -> Option<Seq<char>>;

/// Calls `infer::get` on the bytes and hands out the MIME type of what it found. What
/// comes back depends on the bytes alone.
#[verifier::external_body]
fn sniff(prefix: &[u8]) -> (mime: Option<String>)
    ensures
        mime.deep_view() == sniffed_mime(prefix@),
{
    infer::get(prefix).map(|kind| kind.mime_type().to_string())
}

/// The kind of document that a MIME type stands for.
pub open spec fn format_of(mime: Seq<char>) -> FormatKind {
    if mime == "text/plain"@ || mime == "text/csv"@ || mime == "text/css"@ || mime
        == "application/json"@ {
        FormatKind::PlainText
    } else if mime == "application/vnd.oasis.opendocument.text"@ || mime
        == "application/vnd.oasis.opendocument.spreadsheet"@ || mime
        == "application/vnd.oasis.opendocument.template"@ || mime
        == "application/vnd.oasis.opendocument.presentation"@ {
        FormatKind::Odf
    } else if mime == "application/vnd.openxmlformats-officedocument.spreadsheetml.sheet"@ || mime
        == "application/vnd.openxmlformats-officedocument.spreadsheetml.template"@ || mime
        == "application/vnd.openxmlformats-officedocument.wordprocessingml.document"@ || mime
        == "application/vnd.openxmlformats-officedocument.wordprocessingml.template"@ || mime
        == "application/vnd.openxmlformats-officedocument.presentationml.presentation"@ || mime
        == "application/vnd.openxmlformats-officedocument.presentationml.template"@ || mime
        == "application/vnd.openxmlformats-officedocument.presentationml.slideshow"@ {
        FormatKind::Ooxml
    } else if mime == "application/zip"@ {
        FormatKind::Zip
    } else if mime == "application/pdf"@ {
        FormatKind::Pdf
    } else if mime == "application/rtf"@ {
        FormatKind::Rtf
    } else if mime == "image/svg+xml"@ {
        FormatKind::Svg
    } else if mime == "text/xml"@ || mime == "text/html"@ {
        FormatKind::Xml
    } else if mime == "image/jpeg"@ || mime == "image/png"@ || mime == "image/tiff"@ || mime
        == "image/webp"@ || mime == "image/heic"@ || mime == "image/heif"@ {
        FormatKind::Image
    } else {
        FormatKind::Unknown
    }
}

/// Tells the kind of document that a MIME type stands for.
pub fn classify(mime: &str) -> (kind: FormatKind)
    ensures
        kind == format_of(mime@),
{
    if str_eq(mime, "text/plain") || str_eq(mime, "text/csv") || str_eq(mime, "text/css") || str_eq(
        mime,
        "application/json",
    ) {
        FormatKind::PlainText
    } else if str_eq(mime, "application/vnd.oasis.opendocument.text") || str_eq(
        mime,
        "application/vnd.oasis.opendocument.spreadsheet",
    ) || str_eq(mime, "application/vnd.oasis.opendocument.template") || str_eq(
        mime,
        "application/vnd.oasis.opendocument.presentation",
    ) {
        FormatKind::Odf
    } else if str_eq(mime, "application/vnd.openxmlformats-officedocument.spreadsheetml.sheet")
        || str_eq(mime, "application/vnd.openxmlformats-officedocument.spreadsheetml.template")
        || str_eq(mime, "application/vnd.openxmlformats-officedocument.wordprocessingml.document")
        || str_eq(mime, "application/vnd.openxmlformats-officedocument.wordprocessingml.template")
        || str_eq(
        mime,
        "application/vnd.openxmlformats-officedocument.presentationml.presentation",
    ) || str_eq(mime, "application/vnd.openxmlformats-officedocument.presentationml.template")
        || str_eq(mime, "application/vnd.openxmlformats-officedocument.presentationml.slideshow") {
        FormatKind::Ooxml
    } else if str_eq(mime, "application/zip") {
        FormatKind::Zip
    } else if str_eq(mime, "application/pdf") {
        FormatKind::Pdf
    } else if str_eq(mime, "application/rtf") {
        FormatKind::Rtf
    } else if str_eq(mime, "image/svg+xml") {
        FormatKind::Svg
    } else if str_eq(mime, "text/xml") || str_eq(mime, "text/html") {
        FormatKind::Xml
    } else if str_eq(mime, "image/jpeg") || str_eq(mime, "image/png") || str_eq(mime, "image/tiff")
        || str_eq(mime, "image/webp") || str_eq(mime, "image/heic") || str_eq(mime, "image/heif") {
        FormatKind::Image
    } else {
        FormatKind::Unknown
    }
}

/// The message for a format whose extractor is not enabled. `feature` names the
/// extractor.
pub open spec fn feature_message(feature: Seq<char>) -> Seq<char> {
    "Detected \""@ + feature
        + "\"-file but the corresponding feature is not enabled. Please enable it in your dependencies."@
}

/// The message for a vector graphic where the extractor for vector graphics is not
/// enabled.
pub open spec fn svg_message() -> Seq<char> {
    "Detected svg-file but the corresponding feature is not enabled. Please enable it in your dependencies."@
}

/// The message for a compressed container where not both of the extractors for office
/// documents are enabled, and none that is enabled could read it.
pub open spec fn zip_not_enabled_message() -> Seq<char> {
    "Detected zip-file but the corresponding feature is not enabled. Please enable it in your dependencies."@
}

/// The message for a compressed container that is no office document of either kind.
pub open spec fn zip_not_supported_message() -> Seq<char> {
    "Detected zip-file but the corresponding type is not supported!"@
}

/// The error for a format whose extractor is not enabled.
pub fn feature_not_enabled(feature: &str) -> (error: LinkScrapingError)
    ensures
        error@ == LinkScrapingErrorView::FeatureNotEnabledError(feature_message(feature@)),
{
    LinkScrapingError::FeatureNotEnabledError(
        String::from_str("Detected \"").concat(feature).concat(
            "\"-file but the corresponding feature is not enabled. Please enable it in your dependencies.",
        ),
    )
}

/// The first `n` links of a plain text, as links of any format.
pub open spec fn wrapped_plaintext_links(links: Seq<TextFileLinkView>, n: nat) -> Seq<LinkView> {
    Seq::new(n, |i: int| LinkView::TextFileLink(links[i]))
}

/// Marks each link of a plain text as such.
pub fn wrap_plaintext_links(links: &Vec<TextFileLink>) -> (wrapped: Vec<Link>)
    ensures
        wrapped.deep_view() == wrapped_plaintext_links(links.deep_view(), links.len() as nat),
{
    let mut wrapped: Vec<Link> = Vec::new();
    let mut i: usize = 0;
    while i < links.len()
        invariant
            i <= links.len(),
            wrapped.deep_view() == wrapped_plaintext_links(links.deep_view(), i as nat),
        decreases links.len() - i,
    {
        let ghost earlier = wrapped.deep_view();
        wrapped.push(Link::TextFileLink(links[i].clone()));
        assert(wrapped.deep_view() =~= earlier.push(LinkView::TextFileLink(links.deep_view()[i as int])));
        i += 1;
    }
    wrapped
}

/// What the extractor for a plain text comes to, where it is enabled.
pub open spec fn try_text_file_outcome(bytes: Seq<u8>, enabled: bool) -> Outcome {
    if !enabled {
        Err(LinkScrapingErrorView::FeatureNotEnabledError(feature_message("plaintext"@)))
    } else {
        match crate::formats::plaintext::scrape_outcome(bytes) {
            Ok(links) => Ok(wrapped_plaintext_links(links, links.len())),
            Err(error) => Err(LinkScrapingErrorView::TextFileScrapingError(error)),
        }
    }
}

/// Scrapes a plain text, where the extractor for it is enabled.
pub fn try_text_file(bytes: &[u8], enabled: bool) -> (res: Result<Vec<Link>, LinkScrapingError>)
    ensures
        result_view(res) == try_text_file_outcome(bytes@, enabled),
{
    if !enabled {
        return Err(feature_not_enabled("plaintext"));
    }
    match crate::formats::plaintext::scrape(bytes) {
        Ok(links) => Ok(wrap_plaintext_links(&links)),
        Err(error) => Err(LinkScrapingError::TextFileScrapingError(error)),
    }
}

/// The first `n` links of an office document of the OpenDocument kind, as links of any format.
pub open spec fn wrapped_odf_links(links: Seq<OdfLinkView>, n: nat) -> Seq<LinkView> {
    Seq::new(n, |i: int| LinkView::OdfLink(links[i]))
}

/// Marks each link of an office document of the OpenDocument kind as such.
pub fn wrap_odf_links(links: &Vec<OdfLink>) -> (wrapped: Vec<Link>)
    ensures
        wrapped.deep_view() == wrapped_odf_links(links.deep_view(), links.len() as nat),
{
    let mut wrapped: Vec<Link> = Vec::new();
    let mut i: usize = 0;
    while i < links.len()
        invariant
            i <= links.len(),
            wrapped.deep_view() == wrapped_odf_links(links.deep_view(), i as nat),
        decreases links.len() - i,
    {
        let ghost earlier = wrapped.deep_view();
        wrapped.push(Link::OdfLink(links[i].clone()));
        assert(wrapped.deep_view() =~= earlier.push(LinkView::OdfLink(links.deep_view()[i as int])));
        i += 1;
    }
    wrapped
}

/// What the extractor for an office document of the OpenDocument kind comes to, where it is enabled.
pub open spec fn try_odf_outcome(bytes: Seq<u8>, enabled: bool) -> Outcome {
    if !enabled {
        Err(LinkScrapingErrorView::FeatureNotEnabledError(feature_message("odf"@)))
    } else {
        match crate::formats::odf::scrape_outcome(bytes) {
            Ok(links) => Ok(wrapped_odf_links(links, links.len())),
            Err(error) => Err(LinkScrapingErrorView::OdtScrapingError(error)),
        }
    }
}

/// Scrapes an office document of the OpenDocument kind, where the extractor for it is enabled.
pub fn try_odf(bytes: &[u8], enabled: bool) -> (res: Result<Vec<Link>, LinkScrapingError>)
    ensures
        result_view(res) == try_odf_outcome(bytes@, enabled),
{
    if !enabled {
        return Err(feature_not_enabled("odf"));
    }
    match crate::formats::odf::scrape(bytes) {
        Ok(links) => Ok(wrap_odf_links(&links)),
        Err(error) => Err(LinkScrapingError::OdtScrapingError(error)),
    }
}

/// The first `n` links of an office document of the OOXML kind, as links of any format.
pub open spec fn wrapped_ooxml_links(links: Seq<OoxmlLinkView>, n: nat) -> Seq<LinkView> {
    Seq::new(n, |i: int| LinkView::OoxmlLink(links[i]))
}

/// Marks each link of an office document of the OOXML kind as such.
pub fn wrap_ooxml_links(links: &Vec<OoxmlLink>) -> (wrapped: Vec<Link>)
    ensures
        wrapped.deep_view() == wrapped_ooxml_links(links.deep_view(), links.len() as nat),
{
    let mut wrapped: Vec<Link> = Vec::new();
    let mut i: usize = 0;
    while i < links.len()
        invariant
            i <= links.len(),
            wrapped.deep_view() == wrapped_ooxml_links(links.deep_view(), i as nat),
        decreases links.len() - i,
    {
        let ghost earlier = wrapped.deep_view();
        wrapped.push(Link::OoxmlLink(links[i].clone()));
        assert(wrapped.deep_view() =~= earlier.push(LinkView::OoxmlLink(links.deep_view()[i as int])));
        i += 1;
    }
    wrapped
}

/// What the extractor for an office document of the OOXML kind comes to, where it is enabled.
pub open spec fn try_ooxml_outcome(bytes: Seq<u8>, enabled: bool) -> Outcome {
    if !enabled {
        Err(LinkScrapingErrorView::FeatureNotEnabledError(feature_message("ooxml"@)))
    } else {
        match crate::formats::ooxml::scrape_outcome(bytes) {
            Ok(links) => Ok(wrapped_ooxml_links(links, links.len())),
            Err(error) => Err(LinkScrapingErrorView::OoxmlScrapingError(error)),
        }
    }
}

/// Scrapes an office document of the OOXML kind, where the extractor for it is enabled.
pub fn try_ooxml(bytes: &[u8], enabled: bool) -> (res: Result<Vec<Link>, LinkScrapingError>)
    ensures
        result_view(res) == try_ooxml_outcome(bytes@, enabled),
{
    if !enabled {
        return Err(feature_not_enabled("ooxml"));
    }
    match crate::formats::ooxml::scrape(bytes) {
        Ok(links) => Ok(wrap_ooxml_links(&links)),
        Err(error) => Err(LinkScrapingError::OoxmlScrapingError(error)),
    }
}

/// The first `n` links of a rich-text document, as links of any format.
pub open spec fn wrapped_rtf_links(links: Seq<RtfLinkView>, n: nat) -> Seq<LinkView> {
    Seq::new(n, |i: int| LinkView::RtfLink(links[i]))
}

/// Marks each link of a rich-text document as such.
pub fn wrap_rtf_links(links: &Vec<RtfLink>) -> (wrapped: Vec<Link>)
    ensures
        wrapped.deep_view() == wrapped_rtf_links(links.deep_view(), links.len() as nat),
{
    let mut wrapped: Vec<Link> = Vec::new();
    let mut i: usize = 0;
    while i < links.len()
        invariant
            i <= links.len(),
            wrapped.deep_view() == wrapped_rtf_links(links.deep_view(), i as nat),
        decreases links.len() - i,
    {
        let ghost earlier = wrapped.deep_view();
        wrapped.push(Link::RtfLink(links[i].clone()));
        assert(wrapped.deep_view() =~= earlier.push(LinkView::RtfLink(links.deep_view()[i as int])));
        i += 1;
    }
    wrapped
}

/// What the extractor for a rich-text document comes to, where it is enabled.
pub open spec fn try_rtf_outcome(bytes: Seq<u8>, enabled: bool) -> Outcome {
    if !enabled {
        Err(LinkScrapingErrorView::FeatureNotEnabledError(feature_message("rtf"@)))
    } else {
        match crate::formats::rtf::scrape_outcome(bytes) {
            Ok(links) => Ok(wrapped_rtf_links(links, links.len())),
            Err(error) => Err(LinkScrapingErrorView::RtfScrapingError(error)),
        }
    }
}

/// Scrapes a rich-text document, where the extractor for it is enabled.
pub fn try_rtf(bytes: &[u8], enabled: bool) -> (res: Result<Vec<Link>, LinkScrapingError>)
    ensures
        result_view(res) == try_rtf_outcome(bytes@, enabled),
{
    if !enabled {
        return Err(feature_not_enabled("rtf"));
    }
    match crate::formats::rtf::scrape(bytes) {
        Ok(links) => Ok(wrap_rtf_links(&links)),
        Err(error) => Err(LinkScrapingError::RtfScrapingError(error)),
    }
}

/// The first `n` links of a markup document, as links of any format.
pub open spec fn wrapped_xml_links(links: Seq<XmlLinkView>, n: nat) -> Seq<LinkView> {
    Seq::new(n, |i: int| LinkView::XmlLink(links[i]))
}

/// Marks each link of a markup document as such.
pub fn wrap_xml_links(links: &Vec<XmlLink>) -> (wrapped: Vec<Link>)
    ensures
        wrapped.deep_view() == wrapped_xml_links(links.deep_view(), links.len() as nat),
{
    let mut wrapped: Vec<Link> = Vec::new();
    let mut i: usize = 0;
    while i < links.len()
        invariant
            i <= links.len(),
            wrapped.deep_view() == wrapped_xml_links(links.deep_view(), i as nat),
        decreases links.len() - i,
    {
        let ghost earlier = wrapped.deep_view();
        wrapped.push(Link::XmlLink(links[i].clone()));
        assert(wrapped.deep_view() =~= earlier.push(LinkView::XmlLink(links.deep_view()[i as int])));
        i += 1;
    }
    wrapped
}

/// What the extractor for a markup document comes to, where it is enabled.
pub open spec fn try_xml_outcome(bytes: Seq<u8>, enabled: bool) -> Outcome {
    if !enabled {
        Err(LinkScrapingErrorView::FeatureNotEnabledError(feature_message("xml"@)))
    } else {
        match crate::formats::xml::scrape_outcome(bytes) {
            Ok(links) => Ok(wrapped_xml_links(links, links.len())),
            Err(error) => Err(LinkScrapingErrorView::XmlScrapingError(error)),
        }
    }
}

/// Scrapes a markup document, where the extractor for it is enabled.
pub fn try_xml(bytes: &[u8], enabled: bool) -> (res: Result<Vec<Link>, LinkScrapingError>)
    ensures
        result_view(res) == try_xml_outcome(bytes@, enabled),
{
    if !enabled {
        return Err(feature_not_enabled("xml"));
    }
    match crate::formats::xml::scrape(bytes) {
        Ok(links) => Ok(wrap_xml_links(&links)),
        Err(error) => Err(LinkScrapingError::XmlScrapingError(error)),
    }
}

/// The first `n` links of a vector graphic, as links of any format.
pub open spec fn wrapped_svg_links(links: Seq<SvgLinkView>, n: nat) -> Seq<LinkView> {
    Seq::new(n, |i: int| LinkView::SvgLink(links[i]))
}

/// Marks each link of a vector graphic as such.
pub fn wrap_svg_links(links: &Vec<SvgLink>) -> (wrapped: Vec<Link>)
    ensures
        wrapped.deep_view() == wrapped_svg_links(links.deep_view(), links.len() as nat),
{
    let mut wrapped: Vec<Link> = Vec::new();
    let mut i: usize = 0;
    while i < links.len()
        invariant
            i <= links.len(),
            wrapped.deep_view() == wrapped_svg_links(links.deep_view(), i as nat),
        decreases links.len() - i,
    {
        let ghost earlier = wrapped.deep_view();
        wrapped.push(Link::SvgLink(links[i].clone()));
        assert(wrapped.deep_view() =~= earlier.push(LinkView::SvgLink(links.deep_view()[i as int])));
        i += 1;
    }
    wrapped
}

/// What the extractor for a vector graphic comes to, where it is enabled.
pub open spec fn try_svg_outcome(bytes: Seq<u8>, enabled: bool) -> Outcome {
    if !enabled {
        Err(LinkScrapingErrorView::FeatureNotEnabledError(svg_message()))
    } else {
        match crate::formats::xml::svg::scrape_outcome(bytes) {
            Ok(links) => Ok(wrapped_svg_links(links, links.len())),
            Err(error) => Err(LinkScrapingErrorView::SvgScrapingError(error)),
        }
    }
}

/// Scrapes a vector graphic, where the extractor for it is enabled.
pub fn try_svg(bytes: &[u8], enabled: bool) -> (res: Result<Vec<Link>, LinkScrapingError>)
    ensures
        result_view(res) == try_svg_outcome(bytes@, enabled),
{
    if !enabled {
        return Err(
            LinkScrapingError::FeatureNotEnabledError(
                String::from_str(
                    "Detected svg-file but the corresponding feature is not enabled. Please enable it in your dependencies.",
                ),
            ),
        );
    }
    match crate::formats::xml::svg::scrape(bytes) {
        Ok(links) => Ok(wrap_svg_links(&links)),
        Err(error) => Err(LinkScrapingError::SvgScrapingError(error)),
    }
}

/// The first `n` links of an image, as links of any format.
pub open spec fn wrapped_image_links(links: Seq<ImageLinkView>, n: nat) -> Seq<LinkView> {
    Seq::new(n, |i: int| LinkView::ImageLink(links[i]))
}

/// Marks each link of an image as such.
pub fn wrap_image_links(links: &Vec<ImageLink>) -> (wrapped: Vec<Link>)
    ensures
        wrapped.deep_view() == wrapped_image_links(links.deep_view(), links.len() as nat),
{
    let mut wrapped: Vec<Link> = Vec::new();
    let mut i: usize = 0;
    while i < links.len()
        invariant
            i <= links.len(),
            wrapped.deep_view() == wrapped_image_links(links.deep_view(), i as nat),
        decreases links.len() - i,
    {
        let ghost earlier = wrapped.deep_view();
        wrapped.push(Link::ImageLink(links[i].clone()));
        assert(wrapped.deep_view() =~= earlier.push(LinkView::ImageLink(links.deep_view()[i as int])));
        i += 1;
    }
    wrapped
}

/// What the extractor for an image comes to, where it is enabled.
pub open spec fn try_image_outcome(bytes: Seq<u8>, enabled: bool) -> Outcome {
    if !enabled {
        Err(LinkScrapingErrorView::FeatureNotEnabledError(feature_message("image"@)))
    } else {
        match crate::formats::image::scrape_outcome(bytes) {
            Ok(links) => Ok(wrapped_image_links(links, links.len())),
            Err(error) => Err(LinkScrapingErrorView::ImageScrapingError(error)),
        }
    }
}

/// Scrapes an image, where the extractor for it is enabled.
pub fn try_image(bytes: &[u8], enabled: bool) -> (res: Result<Vec<Link>, LinkScrapingError>)
    ensures
        result_view(res) == try_image_outcome(bytes@, enabled),
{
    if !enabled {
        return Err(feature_not_enabled("image"));
    }
    match crate::formats::image::scrape(bytes) {
        Ok(links) => Ok(wrap_image_links(&links)),
        Err(error) => Err(LinkScrapingError::ImageScrapingError(error)),
    }
}

/// What scraping a paged document comes to: this library reads no pages from bytes,
/// so the extractor for them is never enabled here.
pub open spec fn try_pdf_outcome() -> Outcome {
    Err(LinkScrapingErrorView::FeatureNotEnabledError(feature_message("pdf"@)))
}

/// Refuses a paged document: the extractor for it works on pages that were read
/// already, see [`crate::formats::pdf::scrape`].
pub fn try_pdf() -> (res: Result<Vec<Link>, LinkScrapingError>)
    ensures
        result_view(res) == try_pdf_outcome(),
{
    Err(feature_not_enabled("pdf"))
}

/// What scraping a compressed container comes to. The container is first read as an
/// office document of the OOXML kind; where that fails, as one of the OpenDocument
/// kind. The first that succeeds decides, also where it finds no link; the error of a
/// kind that fails is dropped.
pub open spec fn try_zip_outcome(bytes: Seq<u8>, capabilities: Capabilities) -> Outcome {
    if capabilities.ooxml && try_ooxml_outcome(bytes, true) is Ok {
        try_ooxml_outcome(bytes, true)
    } else if capabilities.odf && try_odf_outcome(bytes, true) is Ok {
        try_odf_outcome(bytes, true)
    } else if capabilities.ooxml && capabilities.odf {
        Err(LinkScrapingErrorView::FileTypeNotImplemented(zip_not_supported_message()))
    } else {
        Err(LinkScrapingErrorView::FeatureNotEnabledError(zip_not_enabled_message()))
    }
}

/// Scrapes a compressed container that may be an office document of either kind.
pub fn try_zip(bytes: &[u8], capabilities: &Capabilities) -> (res: Result<Vec<Link>, LinkScrapingError>)
    ensures
        result_view(res) == try_zip_outcome(bytes@, *capabilities),
{
    if capabilities.ooxml {
        if let Ok(links) = try_ooxml(bytes, true) {
            return Ok(links);
        }
    }
    if capabilities.odf {
        if let Ok(links) = try_odf(bytes, true) {
            return Ok(links);
        }
    }
    if capabilities.ooxml && capabilities.odf {
        Err(
            LinkScrapingError::FileTypeNotImplemented(
                String::from_str("Detected zip-file but the corresponding type is not supported!"),
            ),
        )
    } else {
        Err(
            LinkScrapingError::FeatureNotEnabledError(
                String::from_str(
                    "Detected zip-file but the corresponding feature is not enabled. Please enable it in your dependencies.",
                ),
            ),
        )
    }
}

/// What scraping bytes of a recognized format comes to. `mime` is the format's name.
pub open spec fn dispatch_outcome(mime: Seq<char>, bytes: Seq<u8>, capabilities: Capabilities) -> Outcome {
    match format_of(mime) {
        FormatKind::PlainText => try_text_file_outcome(bytes, capabilities.plaintext),
        FormatKind::Odf => try_odf_outcome(bytes, capabilities.odf),
        FormatKind::Ooxml => try_ooxml_outcome(bytes, capabilities.ooxml),
        FormatKind::Zip => try_zip_outcome(bytes, capabilities),
        FormatKind::Pdf => try_pdf_outcome(),
        FormatKind::Rtf => try_rtf_outcome(bytes, capabilities.rtf),
        FormatKind::Svg => try_svg_outcome(bytes, capabilities.svg),
        FormatKind::Xml => try_xml_outcome(bytes, capabilities.xml),
        FormatKind::Image => try_image_outcome(bytes, capabilities.image),
        FormatKind::Unknown => Err(LinkScrapingErrorView::FileTypeNotImplemented(mime)),
    }
}

/// Scrapes bytes whose format was recognized, with the extractor for that format.
pub fn scrape_from_buffer(bytes: &[u8], mime: &str, capabilities: &Capabilities) -> (res: Result<
    Vec<Link>,
    LinkScrapingError,
>)
    ensures
        result_view(res) == dispatch_outcome(mime@, bytes@, *capabilities),
{
    match classify(mime) {
        FormatKind::PlainText => try_text_file(bytes, capabilities.plaintext),
        FormatKind::Odf => try_odf(bytes, capabilities.odf),
        FormatKind::Ooxml => try_ooxml(bytes, capabilities.ooxml),
        FormatKind::Zip => try_zip(bytes, capabilities),
        FormatKind::Pdf => try_pdf(),
        FormatKind::Rtf => try_rtf(bytes, capabilities.rtf),
        FormatKind::Svg => try_svg(bytes, capabilities.svg),
        FormatKind::Xml => try_xml(bytes, capabilities.xml),
        FormatKind::Image => try_image(bytes, capabilities.image),
        FormatKind::Unknown => Err(LinkScrapingError::FileTypeNotImplemented(mime.to_owned())),
    }
}

/// The first `n` web addresses of a text, as links without structure.
pub open spec fn string_links(matches: Seq<FoundLinkView>, n: nat) -> Seq<LinkView> {
    Seq::new(n, |i: int| LinkView::StringLink(matches[i].text))
}

/// What scraping bytes of no recognized format comes to: they are read as one text.
pub open spec fn fallback_outcome(bytes: Seq<u8>) -> Outcome {
    if valid_utf8(bytes) {
        Ok(string_links(urls_in(decode_utf8(bytes)), urls_in(decode_utf8(bytes)).len()))
    } else {
        Err(LinkScrapingErrorView::IoError)
    }
}

/// Scrapes bytes of no recognized format: reads them as one text and reports the web
/// addresses in it.
pub fn scrape_as_text(bytes: &[u8]) -> (res: Result<Vec<Link>, LinkScrapingError>)
    ensures
        result_view(res) == fallback_outcome(bytes@),
{
    let text = match decode(bytes) {
        Ok(text) => text,
        Err(error) => {
            return Err(LinkScrapingError::IoError(error));
        },
    };
    let matches = find_urls(text);
    let mut links: Vec<Link> = Vec::new();
    let mut i: usize = 0;
    while i < matches.len()
        invariant
            i <= matches.len(),
            links.deep_view() == string_links(matches.deep_view(), i as nat),
        decreases matches.len() - i,
    {
        let ghost earlier = links.deep_view();
        links.push(Link::StringLink(matches[i].text.clone()));
        assert(links.deep_view() =~= earlier.push(
            LinkView::StringLink(matches.deep_view()[i as int].text),
        ));
        i += 1;
    }
    Ok(links)
}

/// The number of bytes that signature matching must be given before its failure to
/// recognize a format can be trusted, unless the input is shorter.
pub const SNIFF_LENGTH: usize = 8192;

/// What a caller that reads a stream through a buffer does next.
#[derive(Debug)]
pub enum SniffStep {
    /// The input is empty: report no link.
    Empty,
    /// The format was recognized: scrape the whole input with [`scrape_from_buffer`];
    /// holds the format's name.
    Dispatch(String),
    /// The format was not recognized in fewer bytes than are asked for: fill the buffer
    /// up to [`SNIFF_LENGTH`] bytes and ask again.
    Refill,
    /// The format was not recognized: scrape the whole input with [`scrape_as_text`].
    Fallback,
}

/// Mathematical model of a [`SniffStep`].
pub enum SniffStepView {
    Empty,
    Dispatch(Seq<char>),
    Refill,
    Fallback,
}

impl View for SniffStep {
    type V = SniffStepView;

    open spec fn view(&self) -> SniffStepView {
        match self {
            SniffStep::Empty => SniffStepView::Empty,
            SniffStep::Dispatch(mime) => SniffStepView::Dispatch(mime@),
            SniffStep::Refill => SniffStepView::Refill,
            SniffStep::Fallback => SniffStepView::Fallback,
        }
    }
}

/// The next step of a caller that holds `buffered` as the beginning of its input.
/// `refilled` tells whether the buffer was filled up already.
pub open spec fn next_step(buffered: Seq<u8>, refilled: bool) -> SniffStepView {
    if buffered.len() == 0 {
        SniffStepView::Empty
    } else {
        match sniffed_mime(buffered) {
            Some(mime) => SniffStepView::Dispatch(mime),
            None => if buffered.len() < SNIFF_LENGTH && !refilled {
                SniffStepView::Refill
            } else {
                SniffStepView::Fallback
            },
        }
    }
}

/// Decides what a caller that reads a stream through a buffer does next: signature
/// matching is tried on what is buffered; where it fails on fewer than
/// [`SNIFF_LENGTH`] bytes the caller fills the buffer up once and asks again.
pub fn sniff_step(buffered: &[u8], refilled: bool) -> (step: SniffStep)
    ensures
        step@ == next_step(buffered@, refilled),
{
    if buffered.len() == 0 {
        return SniffStep::Empty;
    }
    match sniff(buffered) {
        Some(mime) => SniffStep::Dispatch(mime),
        None => if buffered.len() < SNIFF_LENGTH && !refilled {
            SniffStep::Refill
        } else {
            SniffStep::Fallback
        },
    }
}

/// What scraping some bytes comes to: no link for an empty input; for bytes of a
/// recognized format what the extractor for that format finds; and for all other bytes
/// the web addresses in them, read as one text.
pub open spec fn scan(bytes: Seq<u8>, capabilities: Capabilities) -> Outcome {
    if bytes.len() == 0 {
        Ok(Seq::empty())
    } else {
        match sniffed_mime(bytes) {
            Some(mime) => dispatch_outcome(mime, bytes, capabilities),
            None => fallback_outcome(bytes),
        }
    }
}

/// Guesses the format of the bytes and scrapes links from them, with the extractors
/// that `capabilities` enables.
pub fn scrape_with(bytes: &[u8], capabilities: &Capabilities) -> (res: Result<Vec<Link>, LinkScrapingError>)
    ensures
        result_view(res) == scan(bytes@, *capabilities),
{
    let first = sniff_step(bytes, false);
    let step = match first {
        SniffStep::Refill => sniff_step(bytes, true),
        other => other,
    };
    match step {
        SniffStep::Empty => {
            let links: Vec<Link> = Vec::new();
            assert(links.deep_view() =~= Seq::empty());
            Ok(links)
        },
        SniffStep::Dispatch(mime) => scrape_from_buffer(bytes, mime.as_str(), capabilities),
        SniffStep::Refill => scrape_as_text(bytes),
        SniffStep::Fallback => scrape_as_text(bytes),
    }
}

/// Guesses the format of the bytes and scrapes links from them.
pub fn scrape(bytes: &[u8]) -> (res: Result<Vec<Link>, LinkScrapingError>)
    ensures
        result_view(res) == scan(bytes@, Capabilities::all()),
{
    scrape_with(bytes, &Capabilities::all())
}

/// Guesses the format of the bytes in a buffer and scrapes links from them.
pub fn scrape_from_slice(buffer: &[u8]) -> (res: Result<Vec<Link>, LinkScrapingError>)
    ensures
        result_view(res) == scan(buffer@, Capabilities::all()),
{
    scrape(buffer)
}

/// An empty input holds no link, and is no error.
pub proof fn lemma_empty_input_has_no_links(capabilities: Capabilities)
    ensures
        scan(Seq::<u8>::empty(), capabilities) == Ok::<Seq<LinkView>, LinkScrapingErrorView>(
            Seq::empty(),
        ),
{
}

/// Bytes without a recognizable signature are no error on that account: they are read
/// as one text, and what comes back is the web addresses in that text, or the decoding
/// error where the bytes are no valid UTF-8. It depends on no capability.
pub proof fn lemma_unrecognized_is_read_as_text(bytes: Seq<u8>, capabilities: Capabilities)
    requires
        bytes.len() > 0,
        sniffed_mime(bytes) is None,
    ensures
        scan(bytes, capabilities) == fallback_outcome(bytes),
        valid_utf8(bytes) ==> scan(bytes, capabilities) is Ok,
        !valid_utf8(bytes) ==> scan(bytes, capabilities) == Err::<
            Seq<LinkView>,
            LinkScrapingErrorView,
        >(LinkScrapingErrorView::IoError),
{
}

} // verus!
