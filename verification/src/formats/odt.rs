//! Links in text documents of the OpenDocument kind, listed as plain URLs.

use crate::container::{
    archive_parts, container_parts, gather, lemma_gather_prefix, open_archive, part_bytes,
    part_count, part_header, FailureKind, PartOutcome, PartView,
};
use crate::container::{append_texts, url_texts};
use crate::formats::docx::{urls_of_text, DocxExtractionError};
use crate::formats::odf::{find_href, first_href};
use crate::markup::{
    events_of, is_malformed, markup_steps, read_events, MarkupEvent, MarkupEventView,
    PositionedEvent, PositionedEventView,
};
use crate::text::{ends_with, str_eq, text_ends_with};
use crate::views::result_view;
use vstd::prelude::*;

verus! {

/// Why a text document could not be read.
#[derive(Debug)]
pub enum OdtExtractionError {
    /// A part holds malformed markup; holds the reader's error.
    XmlReaderError(::xml::reader::Error),
    /// The container or one of its parts cannot be read; holds the container reader's
    /// error.
    ZipError(zip::result::ZipError),
}

/// Mathematical model of an [`OdtExtractionError`]: which error it is.
pub enum OdtExtractionErrorView {
    XmlReaderError,
    ZipError,
}

impl View for OdtExtractionError {
    type V = OdtExtractionErrorView;

    open spec fn view(&self) -> OdtExtractionErrorView {
        match self {
            OdtExtractionError::XmlReaderError(_) => OdtExtractionErrorView::XmlReaderError,
            OdtExtractionError::ZipError(_) => OdtExtractionErrorView::ZipError,
        }
    }
}

impl DeepView for OdtExtractionError {
    type V = OdtExtractionErrorView;

    open spec fn deep_view(&self) -> OdtExtractionErrorView {
        self@
    }
}

/// The links that one event of a markup part holds: those in the `href` attribute of
/// an element `a`, and those in character data and whitespace.
pub open spec fn links_of_event(event: PositionedEventView) -> Seq<Seq<char>> {
    match event.event {
        MarkupEventView::StartElement { name, attributes, .. } => if name.local_name == "a"@ {
            match first_href(attributes, attributes.len()) {
                Some(value) => urls_of_text(value),
                None => Seq::empty(),
            }
        } else {
            Seq::empty()
        },
        MarkupEventView::Characters(text) => urls_of_text(text),
        MarkupEventView::Whitespace(text) => urls_of_text(text),
        _ => Seq::empty(),
    }
}

/// The links that the first `n` events of a markup part hold.
pub open spec fn part_links(events: Seq<PositionedEventView>, n: nat) -> Seq<Seq<char>>
    decreases n,
{
    if n == 0 {
        Seq::empty()
    } else {
        part_links(events, (n - 1) as nat) + links_of_event(events[n - 1])
    }
}

/// What one part of the document comes to. Every part is read; a markup part gives
/// its links.
pub open spec fn outcome_of_part(part: PartView) -> PartOutcome<Seq<char>> {
    match (part.header, part.content) {
        (Some(header), Some(content)) => {
            let steps = markup_steps(content, true);
            if !text_ends_with(header.name, ".xml"@) {
                PartOutcome::Ignored
            } else if is_malformed(steps) {
                PartOutcome::Failed(FailureKind::Markup)
            } else {
                PartOutcome::Links(part_links(events_of(steps), events_of(steps).len()))
            }
        },
        _ => PartOutcome::Failed(FailureKind::Archive),
    }
}

/// What each part of the document comes to.
pub open spec fn outcomes(parts: Seq<PartView>) -> Seq<PartOutcome<Seq<char>>> {
    Seq::new(parts.len(), |i: int| outcome_of_part(parts[i]))
}

/// What listing the links of a text document comes to.
pub open spec fn extract_outcome(bytes: Seq<u8>) -> Result<Seq<Seq<char>>, OdtExtractionErrorView> {
    match container_parts(bytes) {
        None => Err(OdtExtractionErrorView::ZipError),
        Some(parts) => match gather(outcomes(parts), parts.len()) {
            Ok(links) => Ok(links),
            Err(FailureKind::Archive) => Err(OdtExtractionErrorView::ZipError),
            Err(FailureKind::Markup) => Err(OdtExtractionErrorView::XmlReaderError),
        },
    }
}

/// Lists the links in the events of a markup part, behind those that `collector` holds.
pub fn extract_links_from_events(events: &Vec<PositionedEvent>, collector: &mut Vec<String>)
    ensures
        final(collector).deep_view() == old(collector).deep_view() + part_links(
            events.deep_view(),
            events.len() as nat,
        ),
{
    let mut i: usize = 0;
    while i < events.len()
        invariant
            i <= events.len(),
            collector.deep_view() == old(collector).deep_view() + part_links(
                events.deep_view(),
                i as nat,
            ),
        decreases events.len() - i,
    {
        assert(events.deep_view()[i as int] == events[i as int]@);
        let ghost earlier = collector.deep_view();
        match &events[i].event {
            MarkupEvent::StartElement { name, attributes, .. } => {
                let mut found = false;
                if str_eq(name.local_name.as_str(), "a") {
                    if let Some(href) = find_href(attributes) {
                        append_texts(collector, url_texts(href.value.as_str()));
                        found = true;
                    }
                }
                if !found {
                    assert(earlier + Seq::<Seq<char>>::empty() =~= earlier);
                }
            },
            MarkupEvent::Characters(text) => {
                append_texts(collector, url_texts(text.as_str()));
            },
            MarkupEvent::Whitespace(text) => {
                append_texts(collector, url_texts(text.as_str()));
            },
            _ => {
                assert(earlier + Seq::<Seq<char>>::empty() =~= earlier);
            },
        }
        i += 1;
    }
}

/// Lists links from the bytes of a markup part. Where the part is malformed the
/// reader's error is returned and the collector is left as it was.
pub fn extract_links_from_xml_file(data: &[u8], collector: &mut Vec<String>) -> (res: Result<
    (),
    OdtExtractionError,
>)
    ensures
        res is Err <==> is_malformed(markup_steps(data@, true)),
        res is Err ==> res->Err_0 is XmlReaderError && *final(collector) == *old(collector),
        res is Ok ==> final(collector).deep_view() == old(collector).deep_view() + part_links(
            events_of(markup_steps(data@, true)),
            events_of(markup_steps(data@, true)).len(),
        ),
{
    match read_events(data, true) {
        Ok(events) => {
            extract_links_from_events(&events, collector);
            Ok(())
        },
        Err(error) => Err(OdtExtractionError::XmlReaderError(error)),
    }
}

/// Lists all links of a text document, without the URLs that belong to the format.
/// Every part is read; where the bytes are no container, or a part cannot be read or
/// is malformed, an error comes back and no link.
pub fn extract_links(bytes: &[u8]) -> (res: Result<Vec<String>, OdtExtractionError>)
    ensures
        result_view(res) == extract_outcome(bytes@),
{
    let mut archive = match open_archive(bytes) {
        Ok(archive) => archive,
        Err(error) => {
            return Err(OdtExtractionError::ZipError(error));
        },
    };
    let ghost parts = archive_parts(archive);
    let count = part_count(&archive);
    let mut links: Vec<String> = Vec::new();
    assert(links.deep_view() =~= Seq::empty());
    let mut i: usize = 0;
    while i < count
        invariant
            i <= count == parts.len(),
            container_parts(bytes@) == Some(parts),
            archive_parts(archive) == parts,
            gather(outcomes(parts), i as nat) == Ok::<Seq<Seq<char>>, FailureKind>(links.deep_view()),
        decreases count - i,
    {
        proof {
            lemma_gather_prefix(outcomes(parts), (i + 1) as nat, parts.len());
        }
        let header = match part_header(&mut archive, i) {
            Ok(header) => header,
            Err(error) => {
                return Err(OdtExtractionError::ZipError(error));
            },
        };
        let content = match part_bytes(&mut archive, i) {
            Ok(content) => content,
            Err(error) => {
                return Err(OdtExtractionError::ZipError(error));
            },
        };
        if ends_with(header.name.as_str(), ".xml") {
            match extract_links_from_xml_file(content.as_slice(), &mut links) {
                Ok(()) => {},
                Err(error) => {
                    return Err(error);
                },
            }
        }
        i += 1;
    }
    Ok(links)
}

/// Lists all links of a text document, whatever its parts are.
///
/// To leave out the URLs that belong to the format use [`extract_links`].
pub fn extract_links_unfiltered(bytes: &[u8]) -> (res: Result<Vec<String>, DocxExtractionError>)
    ensures
        result_view(res) == crate::formats::docx::unfiltered_outcome(bytes@),
{
    crate::formats::docx::extract_links_unfiltered(bytes)
}

} // verus!
