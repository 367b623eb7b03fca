//! Links in any plain text, found line by line.

use crate::helpers::{find_urls, urls_in, FoundLinkView};
use crate::text::decode;
use crate::views::result_view;
use vstd::prelude::*;
use vstd::slice::slice_subrange;
use vstd::utf8::{decode_utf8, valid_utf8};

verus! {

/// Why a text could not be scraped.
#[derive(Debug)]
pub enum TextFileScrapingError {
    /// A line of the text is no valid UTF-8; holds the decoder's error.
    IoError(core::str::Utf8Error),
}

/// Mathematical model of a [`TextFileScrapingError`]: which error it is.
pub enum TextFileScrapingErrorView {
    IoError,
}

impl View for TextFileScrapingError {
    type V = TextFileScrapingErrorView;

    open spec fn view(&self) -> TextFileScrapingErrorView {
        match self {
            TextFileScrapingError::IoError(_) => TextFileScrapingErrorView::IoError,
        }
    }
}

impl DeepView for TextFileScrapingError {
    type V = TextFileScrapingErrorView;

    open spec fn deep_view(&self) -> TextFileScrapingErrorView {
        self@
    }
}

/// Where a link stands in a text.
#[derive(Clone, Copy, Debug, PartialEq, Eq, Structural)]
pub struct TextFileLinkLocation {
    /// The line, counted from one.
    pub line: usize,
    /// The byte offset of the link within its line.
    pub pos: usize,
}

/// A link found in a text.
#[derive(Debug)]
pub struct TextFileLink {
    /// The link as it stands in the text.
    pub url: String,
    /// Where it stands.
    pub location: TextFileLinkLocation,
}

/// Mathematical model of a [`TextFileLink`].
pub struct TextFileLinkView {
    pub url: Seq<char>,
    pub line: nat,
    pub pos: nat,
}

impl View for TextFileLink {
    type V = TextFileLinkView;

    open spec fn view(&self) -> TextFileLinkView {
        TextFileLinkView {
            url: self.url@,
            line: self.location.line as nat,
            pos: self.location.pos as nat,
        }
    }
}

impl DeepView for TextFileLink {
    type V = TextFileLinkView;

    open spec fn deep_view(&self) -> TextFileLinkView {
        self@
    }
}

impl Clone for TextFileLink {
    fn clone(&self) -> (copy: TextFileLink)
        ensures
            copy == *self,
    {
        TextFileLink { url: self.url.clone(), location: self.location }
    }
}

impl TextFileLink {
    /// The link as text: its URL.
    pub fn to_string(&self) -> (text: String)
        ensures
            text@ == self.url@,
    {
        self.url.clone()
    }
}

/// The byte of a line feed.
pub const LINE_FEED: u8 = 10;

/// Where the line that begins at `from` ends: just behind its line feed, or at the end
/// of the text where no line feed follows.
pub open spec fn line_end(bytes: Seq<u8>, from: int) -> int
    decreases bytes.len() - from,
{
    if from < 0 || from >= bytes.len() {
        bytes.len() as int
    } else if bytes[from] == LINE_FEED {
        from + 1
    } else {
        line_end(bytes, from + 1)
    }
}

/// The first `n` web addresses of a line, as links in line `number`.
pub open spec fn links_of_matches(matches: Seq<FoundLinkView>, n: nat, number: nat) -> Seq<
    TextFileLinkView,
> {
    Seq::new(n, |i: int| TextFileLinkView { url: matches[i].text, line: number, pos: matches[i].start })
}

/// The links of one line. `number` is the line's number.
pub open spec fn line_links(line: Seq<u8>, number: nat) -> Seq<TextFileLinkView> {
    let matches = urls_in(decode_utf8(line));
    links_of_matches(matches, matches.len(), number)
}

/// The links of the text from the byte `from` on, where a line begins whose number is
/// `number`; `None` where one of these lines is no valid UTF-8.
pub open spec fn links_from(bytes: Seq<u8>, from: int, number: nat) -> Option<Seq<TextFileLinkView>>
    decreases bytes.len() - from,
{
    if from < 0 || from >= bytes.len() {
        Some(Seq::empty())
    } else {
        let end = line_end(bytes, from);
        let line = bytes.subrange(from, end);
        if from < end <= bytes.len() && valid_utf8(line) {
            match links_from(bytes, end, number + 1) {
                Some(rest) => Some(line_links(line, number) + rest),
                None => None,
            }
        } else {
            None
        }
    }
}

/// The links of a text: those of each line, in the order of the lines, or `None` where
/// a line is no valid UTF-8.
pub open spec fn text_file_links(bytes: Seq<u8>) -> Option<Seq<TextFileLinkView>> {
    links_from(bytes, 0, 1)
}

/// What scraping a text comes to.
pub open spec fn scrape_outcome(bytes: Seq<u8>) -> Result<Seq<TextFileLinkView>, TextFileScrapingErrorView> {
    match text_file_links(bytes) {
        Some(links) => Ok(links),
        None => Err(TextFileScrapingErrorView::IoError),
    }
}

/// A line ends behind where it begins, and within the text.
pub proof fn lemma_line_end_bounds(bytes: Seq<u8>, from: int)
    requires
        0 <= from < bytes.len(),
    ensures
        from < line_end(bytes, from) <= bytes.len(),
    decreases bytes.len() - from,
{
    if bytes[from] != LINE_FEED {
        if from + 1 < bytes.len() {
            lemma_line_end_bounds(bytes, from + 1);
        } else {
            assert(line_end(bytes, from + 1) == bytes.len());
        }
    }
}

/// Finds the end of the line that begins at `from`.
pub fn find_line_end(bytes: &[u8], from: usize) -> (end: usize)
    requires
        from < bytes@.len(),
    ensures
        end == line_end(bytes@, from as int),
        from < end <= bytes@.len(),
{
    let total: usize = bytes.len();
    let mut at: usize = from;
    while at < total
        invariant
            from <= at <= total == bytes@.len(),
            line_end(bytes@, from as int) == line_end(bytes@, at as int),
        decreases total - at,
    {
        if bytes[at] == LINE_FEED {
            proof {
                lemma_line_end_bounds(bytes@, from as int);
            }
            return at + 1;
        }
        at += 1;
    }
    proof {
        lemma_line_end_bounds(bytes@, from as int);
    }
    at
}

/// `rest` behind `links`, where there is a rest.
pub open spec fn followed_by(links: Seq<TextFileLinkView>, rest: Option<Seq<TextFileLinkView>>) -> Option<
    Seq<TextFileLinkView>,
> {
    match rest {
        Some(more) => Some(links + more),
        None => None,
    }
}

/// Scrapes the links from a text. The text is read line by line; each link is reported
/// with the number of its line, counted from one, and its byte offset in that line.
/// Where a line is no valid UTF-8 the decoder's error is returned, and no link.
pub fn scrape(bytes: &[u8]) -> (res: Result<Vec<TextFileLink>, TextFileScrapingError>)
    ensures
        result_view(res) == scrape_outcome(bytes@),
{
    let total: usize = bytes.len();
    let mut collector: Vec<TextFileLink> = Vec::new();
    let mut start: usize = 0;
    let mut done: usize = 0;
    assert(collector.deep_view() + Seq::<TextFileLinkView>::empty() =~= Seq::empty());
    while start < total
        invariant
            done <= start <= total == bytes@.len(),
            text_file_links(bytes@) == followed_by(
                collector.deep_view(),
                links_from(bytes@, start as int, (done + 1) as nat),
            ),
        decreases total - start,
    {
        let end = find_line_end(bytes, start);
        let line = slice_subrange(bytes, start, end);
        let text = match decode(line) {
            Ok(text) => text,
            Err(error) => {
                return Err(TextFileScrapingError::IoError(error));
            },
        };
        let ghost earlier = collector.deep_view();
        let ghost rest = links_from(bytes@, end as int, (done + 2) as nat);
        let matches = find_urls(text);
        let mut i: usize = 0;
        while i < matches.len()
            invariant
                i <= matches.len(),
                done < usize::MAX,
                collector.deep_view() == earlier + links_of_matches(
                    matches.deep_view(),
                    i as nat,
                    (done + 1) as nat,
                ),
            decreases matches.len() - i,
        {
            let ghost sofar = collector.deep_view();
            let link = TextFileLink {
                url: matches[i].text.clone(),
                location: TextFileLinkLocation { line: done + 1, pos: matches[i].start },
            };
            let ghost pushed = link@;
            collector.push(link);
            proof {
                assert(collector.deep_view() =~= sofar.push(pushed));
                assert(collector.deep_view() =~= earlier + links_of_matches(
                    matches.deep_view(),
                    (i + 1) as nat,
                    (done + 1) as nat,
                ));
            }
            i += 1;
        }
        proof {
            let here = line_links(bytes@.subrange(start as int, end as int), (done + 1) as nat);
            assert(collector.deep_view() == earlier + here);
            if let Some(more) = rest {
                assert((earlier + here) + more =~= earlier + (here + more));
            }
        }
        start = end;
        done += 1;
    }
    assert(collector.deep_view() + Seq::<TextFileLinkView>::empty() =~= collector.deep_view());
    Ok(collector)
}

} // verus!
