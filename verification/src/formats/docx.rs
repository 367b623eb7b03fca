//! Links in word-processing documents of the OOXML kind, listed as plain URLs.

use crate::container::{
    archive_parts, container_parts, gather, lemma_gather_prefix, open_archive, part_bytes,
    part_count, part_header, FailureKind, PartOutcome, PartView,
};
use crate::container::{append_texts, texts_of, url_texts};
use crate::helpers::urls_in;
use crate::markup::{
    events_of, is_malformed, markup_steps, read_events, AttributeView, MarkupEvent,
    MarkupEventView, PositionedEvent, PositionedEventView,
};
use crate::text::{ends_with, str_eq, text_ends_with};
use crate::views::result_view;
use vstd::prelude::*;
use vstd::string::StringExecFns;

verus! {

/// Why a word-processing document could not be read.
#[derive(Debug)]
pub enum DocxExtractionError {
    /// A part holds malformed markup; holds the reader's error.
    XmlReaderError(::xml::reader::Error),
    /// The container or one of its parts cannot be read; holds the container reader's
    /// error.
    ZipError(zip::result::ZipError),
}

/// Mathematical model of a [`DocxExtractionError`]: which error it is.
pub enum DocxExtractionErrorView {
    XmlReaderError,
    ZipError,
}

impl View for DocxExtractionError {
    type V = DocxExtractionErrorView;

    open spec fn view(&self) -> DocxExtractionErrorView {
        match self {
            DocxExtractionError::XmlReaderError(_) => DocxExtractionErrorView::XmlReaderError,
            DocxExtractionError::ZipError(_) => DocxExtractionErrorView::ZipError,
        }
    }
}

impl DeepView for DocxExtractionError {
    type V = DocxExtractionErrorView;

    open spec fn deep_view(&self) -> DocxExtractionErrorView {
        self@
    }
}

/// The web addresses in `text`.
pub open spec fn urls_of_text(text: Seq<char>) -> Seq<Seq<char>> {
    texts_of(urls_in(text), urls_in(text).len())
}

/// The links in the first `n` attributes of an element of a relationship part, but for
/// the attribute `Type`.
pub open spec fn relationship_attribute_links(attributes: Seq<AttributeView>, n: nat) -> Seq<Seq<char>>
    decreases n,
{
    if n == 0 {
        Seq::empty()
    } else {
        let before = relationship_attribute_links(attributes, (n - 1) as nat);
        if attributes[n - 1].name.local_name == "Type"@ {
            before
        } else {
            before + urls_of_text(attributes[n - 1].value)
        }
    }
}

/// The links in the first `n` events of a relationship part.
pub open spec fn relationship_links(events: Seq<PositionedEventView>, n: nat) -> Seq<Seq<char>>
    decreases n,
{
    if n == 0 {
        Seq::empty()
    } else {
        let before = relationship_links(events, (n - 1) as nat);
        match events[n - 1].event {
            MarkupEventView::StartElement { attributes, .. } => before + relationship_attribute_links(
                attributes,
                attributes.len(),
            ),
            _ => before,
        }
    }
}

/// The text of the first `n` events of a markup part: its character data and its
/// whitespace, put together.
pub open spec fn raw_text(events: Seq<PositionedEventView>, n: nat) -> Seq<char>
    decreases n,
{
    if n == 0 {
        Seq::empty()
    } else {
        let before = raw_text(events, (n - 1) as nat);
        match events[n - 1].event {
            MarkupEventView::Characters(text) => before + text,
            MarkupEventView::Whitespace(text) => before + text,
            _ => before,
        }
    }
}

/// What one part of the document comes to. Every part is read; a relationship part
/// gives the links in its attributes, a markup part those in its text.
pub open spec fn outcome_of_part(part: PartView) -> PartOutcome<Seq<char>> {
    match (part.header, part.content) {
        (Some(header), Some(content)) => {
            let steps = markup_steps(content, true);
            if text_ends_with(header.name, ".rels"@) {
                if is_malformed(steps) {
                    PartOutcome::Failed(FailureKind::Markup)
                } else {
                    PartOutcome::Links(relationship_links(events_of(steps), events_of(steps).len()))
                }
            } else if text_ends_with(header.name, ".xml"@) {
                if is_malformed(steps) {
                    PartOutcome::Failed(FailureKind::Markup)
                } else {
                    PartOutcome::Links(
                        urls_of_text(raw_text(events_of(steps), events_of(steps).len())),
                    )
                }
            } else {
                PartOutcome::Ignored
            }
        },
        _ => PartOutcome::Failed(FailureKind::Archive),
    }
}

/// What each part of the document comes to.
pub open spec fn outcomes(parts: Seq<PartView>) -> Seq<PartOutcome<Seq<char>>> {
    Seq::new(parts.len(), |i: int| outcome_of_part(parts[i]))
}

/// What listing the links of a word-processing document comes to.
pub open spec fn extract_outcome(bytes: Seq<u8>) -> Result<Seq<Seq<char>>, DocxExtractionErrorView> {
    match container_parts(bytes) {
        None => Err(DocxExtractionErrorView::ZipError),
        Some(parts) => match gather(outcomes(parts), parts.len()) {
            Ok(links) => Ok(links),
            Err(FailureKind::Archive) => Err(DocxExtractionErrorView::ZipError),
            Err(FailureKind::Markup) => Err(DocxExtractionErrorView::XmlReaderError),
        },
    }
}

/// Lists the links in the events of a relationship part, behind those that `collector`
/// holds.
pub fn extract_links_from_rels_events(events: &Vec<PositionedEvent>, collector: &mut Vec<String>)
    ensures
        final(collector).deep_view() == old(collector).deep_view() + relationship_links(
            events.deep_view(),
            events.len() as nat,
        ),
{
    let mut i: usize = 0;
    while i < events.len()
        invariant
            i <= events.len(),
            collector.deep_view() == old(collector).deep_view() + relationship_links(
                events.deep_view(),
                i as nat,
            ),
        decreases events.len() - i,
    {
        assert(events.deep_view()[i as int] == events[i as int]@);
        match &events[i].event {
            MarkupEvent::StartElement { attributes, .. } => {
                let ghost start = collector.deep_view();
                let mut k: usize = 0;
                while k < attributes.len()
                    invariant
                        k <= attributes.len(),
                        collector.deep_view() == start + relationship_attribute_links(
                            attributes.deep_view(),
                            k as nat,
                        ),
                    decreases attributes.len() - k,
                {
                    let attribute = &attributes[k];
                    if !str_eq(attribute.name.local_name.as_str(), "Type") {
                        append_texts(collector, url_texts(attribute.value.as_str()));
                    }
                    k += 1;
                }
            },
            _ => {},
        }
        i += 1;
    }
}

/// Puts the character data and the whitespace of the events together.
pub fn join_raw_text(events: &Vec<PositionedEvent>) -> (text: String)
    ensures
        text@ == raw_text(events.deep_view(), events.len() as nat),
{
    let mut text = String::new();
    let mut i: usize = 0;
    while i < events.len()
        invariant
            i <= events.len(),
            text@ == raw_text(events.deep_view(), i as nat),
        decreases events.len() - i,
    {
        assert(events.deep_view()[i as int] == events[i as int]@);
        match &events[i].event {
            MarkupEvent::Characters(run) => {
                text.append(run.as_str());
            },
            MarkupEvent::Whitespace(run) => {
                text.append(run.as_str());
            },
            _ => {},
        }
        i += 1;
    }
    text
}

/// Lists links from the bytes of a relationship part. Where the part is malformed the
/// reader's error is returned and the collector is left as it was.
pub fn extract_links_from_rels_file(data: &[u8], collector: &mut Vec<String>) -> (res: Result<
    (),
    DocxExtractionError,
>)
    ensures
        res is Err <==> is_malformed(markup_steps(data@, true)),
        res is Err ==> res->Err_0 is XmlReaderError && *final(collector) == *old(collector),
        res is Ok ==> final(collector).deep_view() == old(collector).deep_view() + relationship_links(
            events_of(markup_steps(data@, true)),
            events_of(markup_steps(data@, true)).len(),
        ),
{
    match read_events(data, true) {
        Ok(events) => {
            extract_links_from_rels_events(&events, collector);
            Ok(())
        },
        Err(error) => Err(DocxExtractionError::XmlReaderError(error)),
    }
}

/// Lists links from the bytes of a markup part: the text of the part is put together
/// and searched as one. Tags and attributes are passed over. Where the part is
/// malformed the reader's error is returned and the collector is left as it was.
pub fn extract_links_from_xml_file(data: &[u8], collector: &mut Vec<String>) -> (res: Result<
    (),
    DocxExtractionError,
>)
    ensures
        res is Err <==> is_malformed(markup_steps(data@, true)),
        res is Err ==> res->Err_0 is XmlReaderError && *final(collector) == *old(collector),
        res is Ok ==> final(collector).deep_view() == old(collector).deep_view() + urls_of_text(
            raw_text(
                events_of(markup_steps(data@, true)),
                events_of(markup_steps(data@, true)).len(),
            ),
        ),
{
    match read_events(data, true) {
        Ok(events) => {
            let text = join_raw_text(&events);
            append_texts(collector, url_texts(text.as_str()));
            Ok(())
        },
        Err(error) => Err(DocxExtractionError::XmlReaderError(error)),
    }
}

/// Lists all links of a word-processing document, without the URLs that belong to the
/// format. Every part is read; where the bytes are no container, or a part cannot be
/// read or is malformed, an error comes back and no link.
pub fn extract_links(bytes: &[u8]) -> (res: Result<Vec<String>, DocxExtractionError>)
    ensures
        result_view(res) == extract_outcome(bytes@),
{
    let mut archive = match open_archive(bytes) {
        Ok(archive) => archive,
        Err(error) => {
            return Err(DocxExtractionError::ZipError(error));
        },
    };
    let ghost parts = archive_parts(archive);
    let count = part_count(&archive);
    let mut links: Vec<String> = Vec::new();
    assert(links.deep_view() =~= Seq::empty());
    let mut i: usize = 0;
    while i < count
        invariant
            i <= count == parts.len(),
            container_parts(bytes@) == Some(parts),
            archive_parts(archive) == parts,
            gather(outcomes(parts), i as nat) == Ok::<Seq<Seq<char>>, FailureKind>(links.deep_view()),
        decreases count - i,
    {
        proof {
            lemma_gather_prefix(outcomes(parts), (i + 1) as nat, parts.len());
        }
        let header = match part_header(&mut archive, i) {
            Ok(header) => header,
            Err(error) => {
                return Err(DocxExtractionError::ZipError(error));
            },
        };
        let content = match part_bytes(&mut archive, i) {
            Ok(content) => content,
            Err(error) => {
                return Err(DocxExtractionError::ZipError(error));
            },
        };
        if ends_with(header.name.as_str(), ".rels") {
            match extract_links_from_rels_file(content.as_slice(), &mut links) {
                Ok(()) => {},
                Err(error) => {
                    return Err(error);
                },
            }
        } else if ends_with(header.name.as_str(), ".xml") {
            match extract_links_from_xml_file(content.as_slice(), &mut links) {
                Ok(()) => {},
                Err(error) => {
                    return Err(error);
                },
            }
        }
        i += 1;
    }
    Ok(links)
}

/// What listing the links of every part comes to.
pub open spec fn unfiltered_outcome(bytes: Seq<u8>) -> Result<Seq<Seq<char>>, DocxExtractionErrorView> {
    match crate::container::unfiltered_outcome(bytes) {
        Some(links) => Ok(links),
        None => Err(DocxExtractionErrorView::ZipError),
    }
}

/// Lists all links of a word-processing document, whatever its parts are.
///
/// To leave out the URLs that belong to the format use [`extract_links`].
pub fn extract_links_unfiltered(bytes: &[u8]) -> (res: Result<Vec<String>, DocxExtractionError>)
    ensures
        result_view(res) == unfiltered_outcome(bytes@),
{
    match crate::container::scrape_unfiltered(bytes) {
        Ok(links) => Ok(links),
        Err(error) => Err(DocxExtractionError::ZipError(error)),
    }
}

} // verus!
