//! Links in office documents of the OOXML kind: `.docx`, `.pptx`, `.xlsx`.

use crate::container::{
    archive_parts, container_parts, gather, lemma_gather_prefix, open_archive, part_bytes, part_count, part_header,
    FailureKind, PartOutcome, PartView,
};
use crate::helpers::{find_urls, urls_in, FoundLinkView};
use crate::markup::{
    events_of, is_malformed, markup_steps, read_events, AttributeView, MarkupEvent,
    MarkupEventView, PositionedEvent, PositionedEventView, TextPosition,
};
use crate::text::{contains, ends_with, str_eq, text_contains, text_ends_with};
use crate::views::result_view;
use vstd::prelude::*;

verus! {

/// Why an office document could not be scraped.
#[derive(Debug)]
pub enum OoxmlScrapingError {
    /// A part holds malformed markup; holds the reader's error.
    XmlReaderError(::xml::reader::Error),
    /// The container or one of its parts cannot be read; holds the container reader's
    /// error.
    ZipError(zip::result::ZipError),
}

/// Mathematical model of an [`OoxmlScrapingError`]: which error it is.
pub enum OoxmlScrapingErrorView {
    XmlReaderError,
    ZipError,
}

impl View for OoxmlScrapingError {
    type V = OoxmlScrapingErrorView;

    open spec fn view(&self) -> OoxmlScrapingErrorView {
        match self {
            OoxmlScrapingError::XmlReaderError(_) => OoxmlScrapingErrorView::XmlReaderError,
            OoxmlScrapingError::ZipError(_) => OoxmlScrapingErrorView::ZipError,
        }
    }
}

impl DeepView for OoxmlScrapingError {
    type V = OoxmlScrapingErrorView;

    open spec fn deep_view(&self) -> OoxmlScrapingErrorView {
        self@
    }
}

/// How a link stands in an office document.
#[derive(Clone, Copy, Debug, PartialEq, Eq, Structural)]
pub enum OoxmlLinkKind {
    /// The link is contained as text inside the document.
    PlainText,
    /// The link is contained as a hyperlink inside the document.
    Hyperlink,
    /// The link is contained in a comment added to the document.
    Comment,
}

/// Where a link stands in the unpacked structure of the document.
#[derive(Debug)]
pub struct OoxmlLinkLocation {
    /// The name of the part.
    pub file: String,
    /// Where the reader stood in the part when it had read what holds the link.
    pub position: TextPosition,
}

/// Mathematical model of an [`OoxmlLinkLocation`].
pub struct OoxmlLinkLocationView {
    pub file: Seq<char>,
    pub position: TextPosition,
}

impl View for OoxmlLinkLocation {
    type V = OoxmlLinkLocationView;

    open spec fn view(&self) -> OoxmlLinkLocationView {
        OoxmlLinkLocationView { file: self.file@, position: self.position }
    }
}

impl DeepView for OoxmlLinkLocation {
    type V = OoxmlLinkLocationView;

    open spec fn deep_view(&self) -> OoxmlLinkLocationView {
        self@
    }
}

impl Clone for OoxmlLinkLocation {
    fn clone(&self) -> (copy: OoxmlLinkLocation)
        ensures
            copy == *self,
    {
        OoxmlLinkLocation { file: self.file.clone(), position: self.position }
    }
}

/// A link found in an office document.
#[derive(Debug)]
pub struct OoxmlLink {
    /// The link as it stands in the document.
    pub url: String,
    /// Where it stands.
    pub location: OoxmlLinkLocation,
    /// How it stands there.
    pub kind: OoxmlLinkKind,
}

/// Mathematical model of an [`OoxmlLink`].
pub struct OoxmlLinkView {
    pub url: Seq<char>,
    pub location: OoxmlLinkLocationView,
    pub kind: OoxmlLinkKind,
}

impl View for OoxmlLink {
    type V = OoxmlLinkView;

    open spec fn view(&self) -> OoxmlLinkView {
        OoxmlLinkView { url: self.url@, location: self.location@, kind: self.kind }
    }
}

impl DeepView for OoxmlLink {
    type V = OoxmlLinkView;

    open spec fn deep_view(&self) -> OoxmlLinkView {
        self@
    }
}

impl Clone for OoxmlLink {
    fn clone(&self) -> (copy: OoxmlLink)
        ensures
            copy == *self,
    {
        OoxmlLink { url: self.url.clone(), location: self.location.clone(), kind: self.kind }
    }
}

impl OoxmlLink {
    /// The link as text: its URL.
    pub fn to_string(&self) -> (text: String)
        ensures
            text@ == self.url@,
    {
        self.url.clone()
    }
}

/// The first `n` web addresses found in a text, each as a link of kind `kind` in the
/// part `file` at `position`.
pub open spec fn links_of_matches(
    matches: Seq<FoundLinkView>,
    n: nat,
    file: Seq<char>,
    position: TextPosition,
    kind: OoxmlLinkKind,
) -> Seq<OoxmlLinkView> {
    Seq::new(
        n,
        |i: int|
            OoxmlLinkView {
                url: matches[i].text,
                location: OoxmlLinkLocationView { file, position },
                kind,
            },
    )
}

/// The web addresses in `text`, each as a link of kind `kind` in the part `file` at
/// `position`.
pub open spec fn links_in_text(
    text: Seq<char>,
    file: Seq<char>,
    position: TextPosition,
    kind: OoxmlLinkKind,
) -> Seq<OoxmlLinkView> {
    links_of_matches(urls_in(text), urls_in(text).len(), file, position, kind)
}

/// The hyperlinks in the first `n` attributes of an element of a relationship part. The
/// attribute `Type` is left out: its value is a URL that belongs to the format.
pub open spec fn relationship_attribute_links(
    attributes: Seq<AttributeView>,
    n: nat,
    file: Seq<char>,
    position: TextPosition,
) -> Seq<OoxmlLinkView>
    decreases n,
{
    if n == 0 {
        Seq::empty()
    } else {
        let before = relationship_attribute_links(attributes, (n - 1) as nat, file, position);
        if attributes[n - 1].name.local_name == "Type"@ {
            before
        } else {
            before + links_in_text(attributes[n - 1].value, file, position, OoxmlLinkKind::Hyperlink)
        }
    }
}

/// The hyperlinks in the first `n` events of a relationship part.
pub open spec fn relationship_links(events: Seq<PositionedEventView>, n: nat, file: Seq<char>) -> Seq<
    OoxmlLinkView,
>
    decreases n,
{
    if n == 0 {
        Seq::empty()
    } else {
        let before = relationship_links(events, (n - 1) as nat, file);
        match events[n - 1].event {
            MarkupEventView::StartElement { attributes, .. } => before + relationship_attribute_links(
                attributes,
                attributes.len(),
                file,
                events[n - 1].position,
            ),
            _ => before,
        }
    }
}

/// How the links in the text of a markup part are classified, by the part's name: a
/// part of comments holds comments, a part under a relationship directory holds
/// hyperlinks, and every other part holds plain text.
pub open spec fn kind_of_part(file: Seq<char>) -> OoxmlLinkKind {
    if text_contains(file, "/comment"@) {
        OoxmlLinkKind::Comment
    } else if text_contains(file, "/_rels/"@) {
        OoxmlLinkKind::Hyperlink
    } else {
        OoxmlLinkKind::PlainText
    }
}

/// The links in the character data and whitespace among the first `n` events of a
/// markup part. Tags and attributes are passed over.
pub open spec fn text_links(events: Seq<PositionedEventView>, n: nat, file: Seq<char>) -> Seq<
    OoxmlLinkView,
>
    decreases n,
{
    if n == 0 {
        Seq::empty()
    } else {
        let before = text_links(events, (n - 1) as nat, file);
        match events[n - 1].event {
            MarkupEventView::Characters(text) => before + links_in_text(
                text,
                file,
                events[n - 1].position,
                kind_of_part(file),
            ),
            MarkupEventView::Whitespace(text) => before + links_in_text(
                text,
                file,
                events[n - 1].position,
                kind_of_part(file),
            ),
            _ => before,
        }
    }
}

/// The part is a relationship part.
pub open spec fn is_relationship_part(file: Seq<char>) -> bool {
    text_ends_with(file, ".rels"@)
}

/// The part is a markup part.
pub open spec fn is_markup_part(file: Seq<char>) -> bool {
    text_ends_with(file, ".xml"@)
}

/// What the bytes of a relationship part or of a markup part come to.
pub open spec fn outcome_of_content(file: Seq<char>, content: Seq<u8>) -> PartOutcome<OoxmlLinkView> {
    let steps = markup_steps(content, true);
    if is_malformed(steps) {
        PartOutcome::Failed(FailureKind::Markup)
    } else if is_relationship_part(file) {
        PartOutcome::Links(relationship_links(events_of(steps), events_of(steps).len(), file))
    } else {
        PartOutcome::Links(text_links(events_of(steps), events_of(steps).len(), file))
    }
}

/// What one part of the container comes to: a part declared empty and a part that is
/// neither a relationship part nor a markup part are passed over without being read.
pub open spec fn outcome_of_part(part: PartView) -> PartOutcome<OoxmlLinkView> {
    match part.header {
        None => PartOutcome::Failed(FailureKind::Archive),
        Some(header) => if header.size == 0 {
            PartOutcome::Ignored
        } else if is_relationship_part(header.name) || is_markup_part(header.name) {
            match part.content {
                None => PartOutcome::Failed(FailureKind::Archive),
                Some(content) => outcome_of_content(header.name, content),
            }
        } else {
            PartOutcome::Ignored
        },
    }
}

/// What each part of the container comes to.
pub open spec fn outcomes(parts: Seq<PartView>) -> Seq<PartOutcome<OoxmlLinkView>> {
    Seq::new(parts.len(), |i: int| outcome_of_part(parts[i]))
}

/// The links of a text, each of kind `kind` in the part `file` at `position`, behind
/// those that `collector` holds.
pub fn scrape_from_text(
    text: &str,
    file: &str,
    position: TextPosition,
    kind: OoxmlLinkKind,
    collector: &mut Vec<OoxmlLink>,
)
    ensures
        final(collector).deep_view() == old(collector).deep_view() + links_in_text(
            text@,
            file@,
            position,
            kind,
        ),
{
    let matches = find_urls(text);
    let mut i: usize = 0;
    while i < matches.len()
        invariant
            i <= matches.len(),
            collector.deep_view() == old(collector).deep_view() + links_of_matches(
                matches.deep_view(),
                i as nat,
                file@,
                position,
                kind,
            ),
        decreases matches.len() - i,
    {
        let ghost earlier = collector.deep_view();
        let link = OoxmlLink {
            url: matches[i].text.clone(),
            location: OoxmlLinkLocation { file: file.to_owned(), position },
            kind,
        };
        let ghost pushed = link@;
        collector.push(link);
        proof {
            assert(collector.deep_view() =~= earlier.push(pushed));
            assert(collector.deep_view() =~= old(collector).deep_view() + links_of_matches(
                matches.deep_view(),
                (i + 1) as nat,
                file@,
                position,
                kind,
            ));
        }
        i += 1;
    }
}

/// Scrapes the hyperlinks from the events of a relationship part.
pub fn scrape_from_relationship_events(
    events: &Vec<PositionedEvent>,
    file_name: &str,
    collector: &mut Vec<OoxmlLink>,
)
    ensures
        final(collector).deep_view() == old(collector).deep_view() + relationship_links(
            events.deep_view(),
            events.len() as nat,
            file_name@,
        ),
{
    let mut i: usize = 0;
    while i < events.len()
        invariant
            i <= events.len(),
            collector.deep_view() == old(collector).deep_view() + relationship_links(
                events.deep_view(),
                i as nat,
                file_name@,
            ),
        decreases events.len() - i,
    {
        assert(events.deep_view()[i as int] == events[i as int]@);
        match &events[i].event {
            MarkupEvent::StartElement { attributes, .. } => {
                let position = events[i].position;
                let ghost start = collector.deep_view();
                let mut k: usize = 0;
                while k < attributes.len()
                    invariant
                        k <= attributes.len(),
                        collector.deep_view() == start + relationship_attribute_links(
                            attributes.deep_view(),
                            k as nat,
                            file_name@,
                            position,
                        ),
                    decreases attributes.len() - k,
                {
                    let attribute = &attributes[k];
                    if !str_eq(attribute.name.local_name.as_str(), "Type") {
                        scrape_from_text(
                            attribute.value.as_str(),
                            file_name,
                            position,
                            OoxmlLinkKind::Hyperlink,
                            collector,
                        );
                    }
                    k += 1;
                }
            },
            _ => {},
        }
        i += 1;
    }
}

/// How the links in the text of the markup part `file_name` are classified.
pub fn classify_part(file_name: &str) -> (kind: OoxmlLinkKind)
    ensures
        kind == kind_of_part(file_name@),
{
    if contains(file_name, "/comment") {
        OoxmlLinkKind::Comment
    } else if contains(file_name, "/_rels/") {
        OoxmlLinkKind::Hyperlink
    } else {
        OoxmlLinkKind::PlainText
    }
}

/// Scrapes the links from the text among the events of a markup part.
pub fn scrape_from_text_events(
    events: &Vec<PositionedEvent>,
    file_name: &str,
    collector: &mut Vec<OoxmlLink>,
)
    ensures
        final(collector).deep_view() == old(collector).deep_view() + text_links(
            events.deep_view(),
            events.len() as nat,
            file_name@,
        ),
{
    let kind = classify_part(file_name);
    let mut i: usize = 0;
    while i < events.len()
        invariant
            i <= events.len(),
            kind == kind_of_part(file_name@),
            collector.deep_view() == old(collector).deep_view() + text_links(
                events.deep_view(),
                i as nat,
                file_name@,
            ),
        decreases events.len() - i,
    {
        assert(events.deep_view()[i as int] == events[i as int]@);
        match &events[i].event {
            MarkupEvent::Characters(text) => {
                scrape_from_text(text.as_str(), file_name, events[i].position, kind, collector);
            },
            MarkupEvent::Whitespace(text) => {
                scrape_from_text(text.as_str(), file_name, events[i].position, kind, collector);
            },
            _ => {},
        }
        i += 1;
    }
}

/// Scrapes links from the bytes of a relationship part: the URLs in the attribute
/// values of its elements, but for the attribute `Type`. Where the part is malformed
/// the reader's error is returned and the collector is left as it was.
pub fn scrape_from_rels_file(data: &[u8], file_name: &str, collector: &mut Vec<OoxmlLink>) -> (res:
    Result<(), OoxmlScrapingError>)
    ensures
        res is Err <==> is_malformed(markup_steps(data@, true)),
        res is Err ==> res->Err_0 is XmlReaderError && *final(collector) == *old(collector),
        res is Ok ==> final(collector).deep_view() == old(collector).deep_view() + relationship_links(
            events_of(markup_steps(data@, true)),
            events_of(markup_steps(data@, true)).len(),
            file_name@,
        ),
{
    match read_events(data, true) {
        Ok(events) => {
            scrape_from_relationship_events(&events, file_name, collector);
            Ok(())
        },
        Err(error) => Err(OoxmlScrapingError::XmlReaderError(error)),
    }
}

/// Scrapes links from the bytes of a markup part: the URLs in its text. Tags and
/// attributes are passed over, which leaves out the URLs that belong to the format.
/// Where the part is malformed the reader's error is returned and the collector is
/// left as it was.
pub fn scrape_from_xml_file(data: &[u8], file_name: &str, collector: &mut Vec<OoxmlLink>) -> (res:
    Result<(), OoxmlScrapingError>)
    ensures
        res is Err <==> is_malformed(markup_steps(data@, true)),
        res is Err ==> res->Err_0 is XmlReaderError && *final(collector) == *old(collector),
        res is Ok ==> final(collector).deep_view() == old(collector).deep_view() + text_links(
            events_of(markup_steps(data@, true)),
            events_of(markup_steps(data@, true)).len(),
            file_name@,
        ),
{
    match read_events(data, true) {
        Ok(events) => {
            scrape_from_text_events(&events, file_name, collector);
            Ok(())
        },
        Err(error) => Err(OoxmlScrapingError::XmlReaderError(error)),
    }
}

/// What scraping an office document comes to: the links of its parts, or the error of
/// the first part that fails.
pub open spec fn scrape_outcome(bytes: Seq<u8>) -> Result<Seq<OoxmlLinkView>, OoxmlScrapingErrorView> {
    match container_parts(bytes) {
        None => Err(OoxmlScrapingErrorView::ZipError),
        Some(parts) => match gather(outcomes(parts), parts.len()) {
            Ok(links) => Ok(links),
            Err(FailureKind::Archive) => Err(OoxmlScrapingErrorView::ZipError),
            Err(FailureKind::Markup) => Err(OoxmlScrapingErrorView::XmlReaderError),
        },
    }
}

/// Scrapes all links from an office document.
///
/// Each part of the container is taken once, in the order of the container. A part
/// declared empty is passed over; a relationship part gives hyperlinks, a markup part
/// gives the links in its text, and every other part is passed over unread. Where the
/// bytes are no container, or a part cannot be read or is malformed, an error comes
/// back and no link.
pub fn scrape(bytes: &[u8]) -> (res: Result<Vec<OoxmlLink>, OoxmlScrapingError>)
    ensures
        result_view(res) == scrape_outcome(bytes@),
{
    let mut archive = match open_archive(bytes) {
        Ok(archive) => archive,
        Err(error) => {
            return Err(OoxmlScrapingError::ZipError(error));
        },
    };
    let ghost parts = archive_parts(archive);
    let count = part_count(&archive);
    let mut links: Vec<OoxmlLink> = Vec::new();
    assert(links.deep_view() =~= Seq::empty());
    let mut i: usize = 0;
    while i < count
        invariant
            i <= count == parts.len(),
            container_parts(bytes@) == Some(parts),
            archive_parts(archive) == parts,
            gather(outcomes(parts), i as nat) == Ok::<Seq<OoxmlLinkView>, FailureKind>(
                links.deep_view(),
            ),
        decreases count - i,
    {
        let ghost before = links.deep_view();
        proof {
            lemma_gather_prefix(outcomes(parts), (i + 1) as nat, parts.len());
        }
        let header = match part_header(&mut archive, i) {
            Ok(header) => header,
            Err(error) => {
                return Err(OoxmlScrapingError::ZipError(error));
            },
        };
        if header.size != 0 {
            let relationships = ends_with(header.name.as_str(), ".rels");
            if relationships || ends_with(header.name.as_str(), ".xml") {
                let content = match part_bytes(&mut archive, i) {
                    Ok(content) => content,
                    Err(error) => {
                        return Err(OoxmlScrapingError::ZipError(error));
                    },
                };
                let scraped = if relationships {
                    scrape_from_rels_file(content.as_slice(), header.name.as_str(), &mut links)
                } else {
                    scrape_from_xml_file(content.as_slice(), header.name.as_str(), &mut links)
                };
                match scraped {
                    Ok(()) => {},
                    Err(error) => {
                        return Err(error);
                    },
                }
            }
        }
        i += 1;
    }
    Ok(links)
}

/// What scraping every part of an office document comes to.
pub open spec fn unfiltered_outcome(bytes: Seq<u8>) -> Result<Seq<Seq<char>>, OoxmlScrapingErrorView> {
    match crate::container::unfiltered_outcome(bytes) {
        Some(links) => Ok(links),
        None => Err(OoxmlScrapingErrorView::ZipError),
    }
}

/// Scrapes all links from an office document, whatever its parts are.
///
/// To leave out the URLs that belong to the format use [`scrape`].
pub fn scrape_unfiltered(bytes: &[u8]) -> (res: Result<Vec<String>, OoxmlScrapingError>)
    ensures
        result_view(res) == unfiltered_outcome(bytes@),
{
    match crate::container::scrape_unfiltered(bytes) {
        Ok(links) => Ok(links),
        Err(error) => Err(OoxmlScrapingError::ZipError(error)),
    }
}

/// Scrapes all links from an office document in a buffer, whatever its parts are.
///
/// To leave out the URLs that belong to the format use [`scrape`].
pub fn scrape_unfiltered_from_slice(bytes: &[u8]) -> (res: Result<Vec<String>, OoxmlScrapingError>)
    ensures
        result_view(res) == unfiltered_outcome(bytes@),
{
    scrape_unfiltered(bytes)
}

/// Extraction is complete or yields nothing: where one part of a container cannot be
/// read or is malformed, scraping the container gives an error, and never the links
/// of the other parts alone.
pub proof fn lemma_scrape_is_complete_or_nothing(bytes: Seq<u8>, failed: int)
    requires
        container_parts(bytes) is Some,
        0 <= failed < container_parts(bytes)->Some_0.len(),
        outcome_of_part(container_parts(bytes)->Some_0[failed]) is Failed,
    ensures
        scrape_outcome(bytes) is Err,
{
    let parts = container_parts(bytes)->Some_0;
    crate::container::lemma_gather_complete_or_nothing(outcomes(parts), parts.len(), failed);
}

} // verus!
