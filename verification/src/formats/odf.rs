//! Links in office documents of the OpenDocument kind: `.odt`, `.ods`, `.odp`.

use crate::container::{
    archive_parts, container_parts, gather, lemma_gather_prefix, open_archive, part_bytes,
    part_count, part_header, FailureKind, PartOutcome, PartView,
};
use crate::helpers::{find_urls, urls_in, FoundLinkView};
use crate::markup::{
    events_of, is_malformed, markup_steps, read_events, Attribute, AttributeView, MarkupEvent,
    MarkupEventView, PositionedEvent, PositionedEventView, TextPosition,
};
use crate::text::{ends_with, str_eq, text_ends_with};
use crate::views::result_view;
use vstd::prelude::*;

verus! {

/// Why an office document could not be scraped.
#[derive(Debug)]
pub enum OdfScrapingError {
    /// A part holds malformed markup; holds the reader's error.
    XmlReaderError(::xml::reader::Error),
    /// The container or one of its parts cannot be read; holds the container reader's
    /// error.
    ZipError(zip::result::ZipError),
}

/// Mathematical model of an [`OdfScrapingError`]: which error it is.
pub enum OdfScrapingErrorView {
    XmlReaderError,
    ZipError,
}

impl View for OdfScrapingError {
    type V = OdfScrapingErrorView;

    open spec fn view(&self) -> OdfScrapingErrorView {
        match self {
            OdfScrapingError::XmlReaderError(_) => OdfScrapingErrorView::XmlReaderError,
            OdfScrapingError::ZipError(_) => OdfScrapingErrorView::ZipError,
        }
    }
}

impl DeepView for OdfScrapingError {
    type V = OdfScrapingErrorView;

    open spec fn deep_view(&self) -> OdfScrapingErrorView {
        self@
    }
}

/// How a link stands in an office document.
#[derive(Clone, Copy, Debug, PartialEq, Eq, Structural)]
pub enum OdfLinkKind {
    /// The link is contained as text or as a comment inside the document.
    PlainText,
    /// The link is contained as a hyperlink inside the document.
    Hyperlink,
}

/// Where a link stands in the unpacked structure of the document.
#[derive(Debug)]
pub struct OdfLinkLocation {
    /// The name of the part.
    pub file: String,
    /// Where the reader stood in the part when it had read what holds the link.
    pub position: TextPosition,
}

/// Mathematical model of an [`OdfLinkLocation`].
pub struct OdfLinkLocationView {
    pub file: Seq<char>,
    pub position: TextPosition,
}

impl View for OdfLinkLocation {
    type V = OdfLinkLocationView;

    open spec fn view(&self) -> OdfLinkLocationView {
        OdfLinkLocationView { file: self.file@, position: self.position }
    }
}

impl DeepView for OdfLinkLocation {
    type V = OdfLinkLocationView;

    open spec fn deep_view(&self) -> OdfLinkLocationView {
        self@
    }
}

impl PartialEq for OdfLinkLocation {
    fn eq(&self, other: &OdfLinkLocation) -> (same: bool)
    {
        self.file == other.file && self.position == other.position
    }
}

impl vstd::std_specs::cmp::PartialEqSpecImpl for OdfLinkLocation {
    open spec fn obeys_eq_spec() -> bool {
        true
    }

    open spec fn eq_spec(&self, other: &OdfLinkLocation) -> bool {
        self.file@ == other.file@ && self.position == other.position
    }
}

impl Clone for OdfLinkLocation {
    fn clone(&self) -> (copy: OdfLinkLocation)
        ensures
            copy == *self,
    {
        OdfLinkLocation { file: self.file.clone(), position: self.position }
    }
}

/// A link found in an office document.
#[derive(Debug)]
pub struct OdfLink {
    /// The link as it stands in the document.
    pub url: String,
    /// Where it stands.
    pub location: OdfLinkLocation,
    /// How it stands there.
    pub kind: OdfLinkKind,
}

/// Mathematical model of an [`OdfLink`].
pub struct OdfLinkView {
    pub url: Seq<char>,
    pub location: OdfLinkLocationView,
    pub kind: OdfLinkKind,
}

impl View for OdfLink {
    type V = OdfLinkView;

    open spec fn view(&self) -> OdfLinkView {
        OdfLinkView { url: self.url@, location: self.location@, kind: self.kind }
    }
}

impl DeepView for OdfLink {
    type V = OdfLinkView;

    open spec fn deep_view(&self) -> OdfLinkView {
        self@
    }
}

impl PartialEq for OdfLink {
    fn eq(&self, other: &OdfLink) -> (same: bool)
    {
        self.url == other.url && self.location == other.location && self.kind == other.kind
    }
}

impl vstd::std_specs::cmp::PartialEqSpecImpl for OdfLink {
    open spec fn obeys_eq_spec() -> bool {
        true
    }

    open spec fn eq_spec(&self, other: &OdfLink) -> bool {
        self.url@ == other.url@ && self.location@ == other.location@ && self.kind == other.kind
    }
}

impl Clone for OdfLink {
    fn clone(&self) -> (copy: OdfLink)
        ensures
            copy == *self,
    {
        OdfLink { url: self.url.clone(), location: self.location.clone(), kind: self.kind }
    }
}

impl OdfLink {
    /// The link as text: its URL.
    pub fn to_string(&self) -> (text: String)
        ensures
            text@ == self.url@,
    {
        self.url.clone()
    }
}

/// The first `n` web addresses found in a text, each as a plain-text link in the part
/// `file` at `position`.
pub open spec fn links_of_matches(
    matches: Seq<FoundLinkView>,
    n: nat,
    file: Seq<char>,
    position: TextPosition,
) -> Seq<OdfLinkView> {
    Seq::new(
        n,
        |i: int|
            OdfLinkView {
                url: matches[i].text,
                location: OdfLinkLocationView { file, position },
                kind: OdfLinkKind::PlainText,
            },
    )
}

/// The value of the first attribute named `href` among the first `n`.
pub open spec fn first_href(attributes: Seq<AttributeView>, n: nat) -> Option<Seq<char>>
    decreases n,
{
    if n == 0 {
        None
    } else {
        match first_href(attributes, (n - 1) as nat) {
            Some(value) => Some(value),
            None => if attributes[n - 1].name.local_name == "href"@ {
                Some(attributes[n - 1].value)
            } else {
                None
            },
        }
    }
}

/// The links that one event of a markup part holds: an element `a` gives the whole
/// value of its `href` attribute as a hyperlink, and character data gives the web
/// addresses in it as plain text.
pub open spec fn links_of_event(event: PositionedEventView, file: Seq<char>) -> Seq<OdfLinkView> {
    match event.event {
        MarkupEventView::StartElement { name, attributes, .. } => if name.local_name == "a"@ {
            match first_href(attributes, attributes.len()) {
                Some(value) => seq![
                    OdfLinkView {
                        url: value,
                        location: OdfLinkLocationView { file, position: event.position },
                        kind: OdfLinkKind::Hyperlink,
                    },
                ],
                None => Seq::empty(),
            }
        } else {
            Seq::empty()
        },
        MarkupEventView::Characters(text) => links_of_matches(
            urls_in(text),
            urls_in(text).len(),
            file,
            event.position,
        ),
        _ => Seq::empty(),
    }
}

/// The links that the first `n` events of a markup part hold.
pub open spec fn part_links(events: Seq<PositionedEventView>, n: nat, file: Seq<char>) -> Seq<OdfLinkView>
    decreases n,
{
    if n == 0 {
        Seq::empty()
    } else {
        part_links(events, (n - 1) as nat, file) + links_of_event(events[n - 1], file)
    }
}

/// The part is a markup part.
pub open spec fn is_markup_part(file: Seq<char>) -> bool {
    text_ends_with(file, ".xml"@)
}

/// What one part of the container comes to: a part declared empty and a part that is
/// no markup part are passed over without being read.
pub open spec fn outcome_of_part(part: PartView) -> PartOutcome<OdfLinkView> {
    match part.header {
        None => PartOutcome::Failed(FailureKind::Archive),
        Some(header) => if header.size == 0 || !is_markup_part(header.name) {
            PartOutcome::Ignored
        } else {
            match part.content {
                None => PartOutcome::Failed(FailureKind::Archive),
                Some(content) => {
                    let steps = markup_steps(content, true);
                    if is_malformed(steps) {
                        PartOutcome::Failed(FailureKind::Markup)
                    } else {
                        PartOutcome::Links(
                            part_links(events_of(steps), events_of(steps).len(), header.name),
                        )
                    }
                },
            }
        },
    }
}

/// What each part of the container comes to.
pub open spec fn outcomes(parts: Seq<PartView>) -> Seq<PartOutcome<OdfLinkView>> {
    Seq::new(parts.len(), |i: int| outcome_of_part(parts[i]))
}

/// The value of the first attribute named `href`.
pub fn find_href(attributes: &Vec<Attribute>) -> (href: Option<&Attribute>)
    ensures
        match href {
            Some(attribute) => first_href(attributes.deep_view(), attributes.len() as nat) == Some(
                attribute.value@,
            ),
            None => first_href(attributes.deep_view(), attributes.len() as nat) is None,
        },
{
    let mut i: usize = 0;
    while i < attributes.len()
        invariant
            i <= attributes.len(),
            first_href(attributes.deep_view(), i as nat) is None,
        decreases attributes.len() - i,
    {
        if str_eq(attributes[i].name.local_name.as_str(), "href") {
            proof {
                lemma_first_href_stays(attributes.deep_view(), (i + 1) as nat, attributes.len() as nat);
            }
            return Some(&attributes[i]);
        }
        i += 1;
    }
    None
}

/// Once an attribute named `href` is found, attributes behind it change nothing.
proof fn lemma_first_href_stays(attributes: Seq<AttributeView>, n: nat, m: nat)
    requires
        n <= m,
        first_href(attributes, n) is Some,
    ensures
        first_href(attributes, m) == first_href(attributes, n),
    decreases m,
{
    if n < m {
        lemma_first_href_stays(attributes, n, (m - 1) as nat);
    }
}

/// Scrapes the links from the events of a markup part, behind those that `collector`
/// holds.
pub fn scrape_from_events(events: &Vec<PositionedEvent>, filename: &str, collector: &mut Vec<OdfLink>)
    ensures
        final(collector).deep_view() == old(collector).deep_view() + part_links(
            events.deep_view(),
            events.len() as nat,
            filename@,
        ),
{
    let mut i: usize = 0;
    while i < events.len()
        invariant
            i <= events.len(),
            collector.deep_view() == old(collector).deep_view() + part_links(
                events.deep_view(),
                i as nat,
                filename@,
            ),
        decreases events.len() - i,
    {
        assert(events.deep_view()[i as int] == events[i as int]@);
        let position = events[i].position;
        let ghost earlier = collector.deep_view();
        match &events[i].event {
            MarkupEvent::StartElement { name, attributes, .. } => {
                if str_eq(name.local_name.as_str(), "a") {
                    if let Some(href) = find_href(attributes) {
                        let link = OdfLink {
                            url: href.value.clone(),
                            location: OdfLinkLocation { file: filename.to_owned(), position },
                            kind: OdfLinkKind::Hyperlink,
                        };
                        let ghost pushed = link@;
                        collector.push(link);
                        assert(collector.deep_view() =~= earlier + seq![pushed]);
                    }
                }
            },
            MarkupEvent::Characters(text) => {
                let matches = find_urls(text.as_str());
                let mut k: usize = 0;
                while k < matches.len()
                    invariant
                        k <= matches.len(),
                        collector.deep_view() == earlier + links_of_matches(
                            matches.deep_view(),
                            k as nat,
                            filename@,
                            position,
                        ),
                    decreases matches.len() - k,
                {
                    let ghost sofar = collector.deep_view();
                    let link = OdfLink {
                        url: matches[k].text.clone(),
                        location: OdfLinkLocation { file: filename.to_owned(), position },
                        kind: OdfLinkKind::PlainText,
                    };
                    let ghost pushed = link@;
                    collector.push(link);
                    proof {
                        assert(collector.deep_view() =~= sofar.push(pushed));
                        assert(collector.deep_view() =~= earlier + links_of_matches(
                            matches.deep_view(),
                            (k + 1) as nat,
                            filename@,
                            position,
                        ));
                    }
                    k += 1;
                }
            },
            _ => {},
        }
        i += 1;
    }
}

/// Scrapes links from the bytes of a markup part. Where the part is malformed the
/// reader's error is returned and the collector is left as it was.
pub fn scrape_from_xml_file(data: &[u8], filename: &str, collector: &mut Vec<OdfLink>) -> (res: Result<
    (),
    OdfScrapingError,
>)
    ensures
        res is Err <==> is_malformed(markup_steps(data@, true)),
        res is Err ==> res->Err_0 is XmlReaderError && *final(collector) == *old(collector),
        res is Ok ==> final(collector).deep_view() == old(collector).deep_view() + part_links(
            events_of(markup_steps(data@, true)),
            events_of(markup_steps(data@, true)).len(),
            filename@,
        ),
{
    match read_events(data, true) {
        Ok(events) => {
            scrape_from_events(&events, filename, collector);
            Ok(())
        },
        Err(error) => Err(OdfScrapingError::XmlReaderError(error)),
    }
}

/// What scraping an office document comes to: the links of its parts, or the error of
/// the first part that fails.
pub open spec fn scrape_outcome(bytes: Seq<u8>) -> Result<Seq<OdfLinkView>, OdfScrapingErrorView> {
    match container_parts(bytes) {
        None => Err(OdfScrapingErrorView::ZipError),
        Some(parts) => match gather(outcomes(parts), parts.len()) {
            Ok(links) => Ok(links),
            Err(FailureKind::Archive) => Err(OdfScrapingErrorView::ZipError),
            Err(FailureKind::Markup) => Err(OdfScrapingErrorView::XmlReaderError),
        },
    }
}

/// Scrapes all links from an office document.
///
/// Each part of the container is taken once, in the order of the container. A part
/// declared empty and a part that is no markup part are passed over unread. Where the
/// bytes are no container, or a part cannot be read or is malformed, an error comes
/// back and no link.
pub fn scrape(bytes: &[u8]) -> (res: Result<Vec<OdfLink>, OdfScrapingError>)
    ensures
        result_view(res) == scrape_outcome(bytes@),
{
    let mut archive = match open_archive(bytes) {
        Ok(archive) => archive,
        Err(error) => {
            return Err(OdfScrapingError::ZipError(error));
        },
    };
    let ghost parts = archive_parts(archive);
    let count = part_count(&archive);
    let mut links: Vec<OdfLink> = Vec::new();
    assert(links.deep_view() =~= Seq::empty());
    let mut i: usize = 0;
    while i < count
        invariant
            i <= count == parts.len(),
            container_parts(bytes@) == Some(parts),
            archive_parts(archive) == parts,
            gather(outcomes(parts), i as nat) == Ok::<Seq<OdfLinkView>, FailureKind>(
                links.deep_view(),
            ),
        decreases count - i,
    {
        proof {
            lemma_gather_prefix(outcomes(parts), (i + 1) as nat, parts.len());
        }
        let header = match part_header(&mut archive, i) {
            Ok(header) => header,
            Err(error) => {
                return Err(OdfScrapingError::ZipError(error));
            },
        };
        if header.size != 0 && ends_with(header.name.as_str(), ".xml") {
            let content = match part_bytes(&mut archive, i) {
                Ok(content) => content,
                Err(error) => {
                    return Err(OdfScrapingError::ZipError(error));
                },
            };
            match scrape_from_xml_file(content.as_slice(), header.name.as_str(), &mut links) {
                Ok(()) => {},
                Err(error) => {
                    return Err(error);
                },
            }
        }
        i += 1;
    }
    Ok(links)
}

/// What scraping every part of an office document comes to.
pub open spec fn unfiltered_outcome(bytes: Seq<u8>) -> Result<Seq<Seq<char>>, OdfScrapingErrorView> {
    match crate::container::unfiltered_outcome(bytes) {
        Some(links) => Ok(links),
        None => Err(OdfScrapingErrorView::ZipError),
    }
}

/// Scrapes all links from an office document, whatever its parts are.
///
/// To leave out the URLs that belong to the format use [`scrape`].
pub fn scrape_unfiltered(bytes: &[u8]) -> (res: Result<Vec<String>, OdfScrapingError>)
    ensures
        result_view(res) == unfiltered_outcome(bytes@),
{
    match crate::container::scrape_unfiltered(bytes) {
        Ok(links) => Ok(links),
        Err(error) => Err(OdfScrapingError::ZipError(error)),
    }
}

/// Extraction is complete or yields nothing: where one part of a container cannot be
/// read or is malformed, scraping the container gives an error, and never the links
/// of the other parts alone.
pub proof fn lemma_scrape_is_complete_or_nothing(bytes: Seq<u8>, failed: int)
    requires
        container_parts(bytes) is Some,
        0 <= failed < container_parts(bytes)->Some_0.len(),
        outcome_of_part(container_parts(bytes)->Some_0[failed]) is Failed,
    ensures
        scrape_outcome(bytes) is Err,
{
    let parts = container_parts(bytes)->Some_0;
    crate::container::lemma_gather_complete_or_nothing(outcomes(parts), parts.len(), failed);
}

} // verus!
