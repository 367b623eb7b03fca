//! Links in paged documents: in the text of each page and in its hyperlinks. The pages
//! are handed in as plain values; reading them from a file is left to the caller.

use crate::helpers::{find_urls, urls_in, FoundLinkView};
use crate::text::str_eq;
use crate::views::result_view;
use vstd::prelude::*;

/// The operators of content streams.
pub mod pdf_operator;

verus! {

/// Why a paged document could not be scraped.
#[derive(Clone, Copy, Debug, PartialEq, Eq, Structural)]
pub enum PdfScrapingError {
    /// The file was encrypted, but no password was given.
    FileEncryptedError,
    /// You tried to decrypt a non-encrypted file.
    FileNotEncryptedError,
    /// Given file was not a PDF.
    NotAPdfError,
}

impl View for PdfScrapingError {
    type V = PdfScrapingError;

    open spec fn view(&self) -> PdfScrapingError {
        *self
    }
}

impl DeepView for PdfScrapingError {
    type V = PdfScrapingError;

    open spec fn deep_view(&self) -> PdfScrapingError {
        *self
    }
}

/// Why the links of a paged document could not be listed.
#[derive(Clone, Copy, Debug, PartialEq, Eq, Structural)]
pub enum PdfExtractionError {
    /// The file was encrypted, but no password was given.
    FileEncryptedError,
    /// You tried to decrypt a non-encrypted file.
    FileNotEncryptedError,
    /// Given file was not a PDF.
    NotAPdfError,
}

impl View for PdfExtractionError {
    type V = PdfExtractionError;

    open spec fn view(&self) -> PdfExtractionError {
        *self
    }
}

impl DeepView for PdfExtractionError {
    type V = PdfExtractionError;

    open spec fn deep_view(&self) -> PdfExtractionError {
        *self
    }
}

/// Where a link stands in a paged document.
#[derive(Clone, Copy, Debug, PartialEq, Eq, Structural)]
pub struct PdfLinkLocation {
    /// The page, counted from one.
    pub page: usize,
}

/// How a link stands on a page.
#[derive(Clone, Copy, Debug, PartialEq, Eq, Structural)]
pub enum PdfLinkKind {
    /// The link is part of the page's text.
    PlainText,
    /// The link is the target of a hyperlink on the page.
    Hyperlink,
}

/// A link found in a paged document.
#[derive(Debug)]
pub struct PdfLink {
    /// The link as it stands in the document.
    pub url: String,
    /// Where it stands.
    pub location: PdfLinkLocation,
    /// How it stands there.
    pub kind: PdfLinkKind,
}

/// Mathematical model of a [`PdfLink`].
pub struct PdfLinkView {
    pub url: Seq<char>,
    pub page: nat,
    pub kind: PdfLinkKind,
}

impl View for PdfLink {
    type V = PdfLinkView;

    open spec fn view(&self) -> PdfLinkView {
        PdfLinkView { url: self.url@, page: self.location.page as nat, kind: self.kind }
    }
}

impl DeepView for PdfLink {
    type V = PdfLinkView;

    open spec fn deep_view(&self) -> PdfLinkView {
        self@
    }
}

impl PartialEq for PdfLink {
    fn eq(&self, other: &PdfLink) -> (same: bool)
    {
        self.url == other.url && self.location == other.location && self.kind == other.kind
    }
}

impl vstd::std_specs::cmp::PartialEqSpecImpl for PdfLink {
    open spec fn obeys_eq_spec() -> bool {
        true
    }

    open spec fn eq_spec(&self, other: &PdfLink) -> bool {
        self.url@ == other.url@ && self.location == other.location && self.kind == other.kind
    }
}

impl Clone for PdfLink {
    fn clone(&self) -> (copy: PdfLink)
        ensures
            copy == *self,
    {
        PdfLink { url: self.url.clone(), location: self.location, kind: self.kind }
    }
}

impl PdfLink {
    /// The link as text: its URL.
    pub fn to_string(&self) -> (text: String)
        ensures
            text@ == self.url@,
    {
        self.url.clone()
    }
}

/// What one page holds.
#[derive(Debug)]
pub struct PdfPage {
    /// The text of the page.
    pub text: String,
    /// The target of each hyperlink on the page, in the order of the page.
    pub link_uris: Vec<String>,
}

/// Mathematical model of a [`PdfPage`].
pub struct PdfPageView {
    pub text: Seq<char>,
    pub link_uris: Seq<Seq<char>>,
}

impl View for PdfPage {
    type V = PdfPageView;

    open spec fn view(&self) -> PdfPageView {
        PdfPageView { text: self.text@, link_uris: self.link_uris.deep_view() }
    }
}

impl DeepView for PdfPage {
    type V = PdfPageView;

    open spec fn deep_view(&self) -> PdfPageView {
        self@
    }
}

/// A paged document as its reader shows it.
#[derive(Debug)]
pub struct PdfDocument {
    /// Whether the file is a PDF.
    pub is_pdf: bool,
    /// Whether the file is encrypted.
    pub needs_password: bool,
    /// The pages, in their order.
    pub pages: Vec<PdfPage>,
}

/// Mathematical model of a [`PdfDocument`].
pub struct PdfDocumentView {
    pub is_pdf: bool,
    pub needs_password: bool,
    pub pages: Seq<PdfPageView>,
}

impl View for PdfDocument {
    type V = PdfDocumentView;

    open spec fn view(&self) -> PdfDocumentView {
        PdfDocumentView {
            is_pdf: self.is_pdf,
            needs_password: self.needs_password,
            pages: self.pages.deep_view(),
        }
    }
}

impl DeepView for PdfDocument {
    type V = PdfDocumentView;

    open spec fn deep_view(&self) -> PdfDocumentView {
        self@
    }
}

/// The first `n` web addresses of a text, as links of kind `kind` on the page `page`.
pub open spec fn links_of_matches(matches: Seq<FoundLinkView>, n: nat, page: nat, kind: PdfLinkKind) -> Seq<
    PdfLinkView,
> {
    Seq::new(n, |i: int| PdfLinkView { url: matches[i].text, page, kind })
}

/// The web addresses in `text`, as links of kind `kind` on the page `page`.
pub open spec fn links_in_text(text: Seq<char>, page: nat, kind: PdfLinkKind) -> Seq<PdfLinkView> {
    links_of_matches(urls_in(text), urls_in(text).len(), page, kind)
}

/// The links in the first `n` hyperlink targets of the page `page`.
pub open spec fn hyperlinks(uris: Seq<Seq<char>>, n: nat, page: nat) -> Seq<PdfLinkView>
    decreases n,
{
    if n == 0 {
        Seq::empty()
    } else {
        hyperlinks(uris, (n - 1) as nat, page) + links_in_text(
            uris[n - 1],
            page,
            PdfLinkKind::Hyperlink,
        )
    }
}

/// The links of one page: those in its text, then those in its hyperlinks.
pub open spec fn links_of_page(page: PdfPageView, number: nat) -> Seq<PdfLinkView> {
    links_in_text(page.text, number, PdfLinkKind::PlainText) + hyperlinks(
        page.link_uris,
        page.link_uris.len(),
        number,
    )
}

/// The links of the first `n` pages, in the order of the pages.
pub open spec fn links_of_pages(pages: Seq<PdfPageView>, n: nat) -> Seq<PdfLinkView>
    decreases n,
{
    if n == 0 {
        Seq::empty()
    } else {
        links_of_pages(pages, (n - 1) as nat) + links_of_page(pages[n - 1], n)
    }
}

/// What scraping a paged document comes to.
pub open spec fn scrape_outcome(doc: PdfDocumentView) -> Result<Seq<PdfLinkView>, PdfScrapingError> {
    if !doc.is_pdf {
        Err(PdfScrapingError::NotAPdfError)
    } else if doc.needs_password {
        Err(PdfScrapingError::FileEncryptedError)
    } else {
        Ok(links_of_pages(doc.pages, doc.pages.len()))
    }
}

/// The links of a text, each of kind `kind` on the page `page`, behind those that
/// `links` holds.
pub fn scrape_from_text(text: &str, page: usize, kind: PdfLinkKind, links: &mut Vec<PdfLink>)
    ensures
        final(links).deep_view() == old(links).deep_view() + links_in_text(text@, page as nat, kind),
{
    let matches = find_urls(text);
    let mut i: usize = 0;
    while i < matches.len()
        invariant
            i <= matches.len(),
            links.deep_view() == old(links).deep_view() + links_of_matches(
                matches.deep_view(),
                i as nat,
                page as nat,
                kind,
            ),
        decreases matches.len() - i,
    {
        let ghost earlier = links.deep_view();
        let link = PdfLink { url: matches[i].text.clone(), location: PdfLinkLocation { page }, kind };
        let ghost pushed = link@;
        links.push(link);
        proof {
            assert(links.deep_view() =~= earlier.push(pushed));
            assert(links.deep_view() =~= old(links).deep_view() + links_of_matches(
                matches.deep_view(),
                (i + 1) as nat,
                page as nat,
                kind,
            ));
        }
        i += 1;
    }
}

/// Finds plaintext links on a page.
pub fn find_text_links(page: &PdfPage, page_number: usize, links: &mut Vec<PdfLink>)
    ensures
        final(links).deep_view() == old(links).deep_view() + links_in_text(
            page.text@,
            page_number as nat,
            PdfLinkKind::PlainText,
        ),
{
    scrape_from_text(page.text.as_str(), page_number, PdfLinkKind::PlainText, links);
}

/// Finds hyperlinks on a page.
pub fn find_hyperlinks(page: &PdfPage, page_number: usize, links: &mut Vec<PdfLink>)
    ensures
        final(links).deep_view() == old(links).deep_view() + hyperlinks(
            page.link_uris.deep_view(),
            page.link_uris.len() as nat,
            page_number as nat,
        ),
{
    let mut i: usize = 0;
    while i < page.link_uris.len()
        invariant
            i <= page.link_uris.len(),
            links.deep_view() == old(links).deep_view() + hyperlinks(
                page.link_uris.deep_view(),
                i as nat,
                page_number as nat,
            ),
        decreases page.link_uris.len() - i,
    {
        scrape_from_text(page.link_uris[i].as_str(), page_number, PdfLinkKind::Hyperlink, links);
        i += 1;
    }
}

/// Scrapes the links from the pages of a document.
pub fn scrape_from_pages(pages: &Vec<PdfPage>) -> (links: Vec<PdfLink>)
    ensures
        links.deep_view() == links_of_pages(pages.deep_view(), pages.len() as nat),
{
    let mut links: Vec<PdfLink> = Vec::new();
    let mut i: usize = 0;
    while i < pages.len()
        invariant
            i <= pages.len(),
            links.deep_view() == links_of_pages(pages.deep_view(), i as nat),
        decreases pages.len() - i,
    {
        let ghost earlier = links.deep_view();
        assert(pages.deep_view()[i as int] == pages[i as int]@);
        find_text_links(&pages[i], i + 1, &mut links);
        find_hyperlinks(&pages[i], i + 1, &mut links);
        assert(links.deep_view() =~= earlier + links_of_page(pages[i as int]@, (i + 1) as nat));
        i += 1;
    }
    links
}

/// Scrapes all links from a paged document that is not encrypted.
///
/// For encrypted files use [`scrape_encrypted`].
pub fn scrape(doc: &PdfDocument) -> (res: Result<Vec<PdfLink>, PdfScrapingError>)
    ensures
        result_view(res) == scrape_outcome(doc@),
{
    if !doc.is_pdf {
        return Err(PdfScrapingError::NotAPdfError);
    }
    if doc.needs_password {
        return Err(PdfScrapingError::FileEncryptedError);
    }
    Ok(scrape_from_pages(&doc.pages))
}

/// What scraping an encrypted document comes to. `locked` is the document as it was
/// opened, `unlocked` the document as it is shown once the password was given.
pub open spec fn encrypted_outcome(locked: PdfDocumentView, unlocked: PdfDocumentView) -> Result<
    Seq<PdfLinkView>,
    PdfScrapingError,
> {
    if !locked.needs_password {
        Err(PdfScrapingError::FileNotEncryptedError)
    } else {
        scrape_outcome(unlocked)
    }
}

/// Like [`scrape`] for encrypted files: refuses a document that was not encrypted, and
/// scrapes the document as it is shown once the password was given.
pub fn scrape_encrypted(locked: &PdfDocument, unlocked: &PdfDocument) -> (res: Result<
    Vec<PdfLink>,
    PdfScrapingError,
>)
    ensures
        result_view(res) == encrypted_outcome(locked@, unlocked@),
{
    if !locked.needs_password {
        return Err(PdfScrapingError::FileNotEncryptedError);
    }
    scrape(unlocked)
}

/// `text` stands among the first `n` texts.
pub open spec fn is_among(texts: Seq<Seq<char>>, n: int, text: Seq<char>) -> bool {
    exists|i: int| 0 <= i < n && #[trigger] texts[i] == text
}

/// The first `n` texts without repetitions: each text where it stands first.
pub open spec fn unique(texts: Seq<Seq<char>>, n: nat) -> Seq<Seq<char>>
    decreases n,
{
    if n == 0 {
        Seq::empty()
    } else {
        let before = unique(texts, (n - 1) as nat);
        if is_among(before, before.len() as int, texts[n - 1]) {
            before
        } else {
            before.push(texts[n - 1])
        }
    }
}

/// The URLs of the first `n` links.
pub open spec fn urls_of(links: Seq<PdfLinkView>, n: nat) -> Seq<Seq<char>> {
    Seq::new(n, |i: int| links[i].url)
}

/// What listing the links of a paged document comes to: the URL of each link, once.
pub open spec fn extract_outcome(doc: PdfDocumentView) -> Result<Seq<Seq<char>>, PdfExtractionError> {
    if !doc.is_pdf {
        Err(PdfExtractionError::NotAPdfError)
    } else if doc.needs_password {
        Err(PdfExtractionError::FileEncryptedError)
    } else {
        let links = links_of_pages(doc.pages, doc.pages.len());
        let urls = urls_of(links, links.len());
        Ok(unique(urls, urls.len()))
    }
}

/// Whether `text` stands among `texts`.
pub fn holds_text(texts: &Vec<String>, text: &str) -> (found: bool)
    ensures
        found == is_among(texts.deep_view(), texts.len() as int, text@),
{
    let mut i: usize = 0;
    while i < texts.len()
        invariant
            i <= texts.len(),
            !is_among(texts.deep_view(), i as int, text@),
        decreases texts.len() - i,
    {
        if str_eq(texts[i].as_str(), text) {
            assert(texts.deep_view()[i as int] == text@);
            return true;
        }
        i += 1;
    }
    false
}

/// Lists the URLs of the links, each once, where it stands first.
pub fn unique_urls(links: &Vec<PdfLink>) -> (urls: Vec<String>)
    ensures
        urls.deep_view() == unique(
            urls_of(links.deep_view(), links.len() as nat),
            links.len() as nat,
        ),
{
    let ghost all = urls_of(links.deep_view(), links.len() as nat);
    let mut urls: Vec<String> = Vec::new();
    let mut i: usize = 0;
    while i < links.len()
        invariant
            i <= links.len(),
            all == urls_of(links.deep_view(), links.len() as nat),
            urls.deep_view() == unique(all, i as nat),
        decreases links.len() - i,
    {
        assert(all[i as int] == links[i as int].url@);
        if !holds_text(&urls, links[i].url.as_str()) {
            let ghost earlier = urls.deep_view();
            urls.push(links[i].url.clone());
            assert(urls.deep_view() =~= earlier.push(all[i as int]));
        }
        i += 1;
    }
    urls
}

/// Lists all links of a paged document that is not encrypted, each once.
///
/// For encrypted files use [`extract_links_encrypted`].
pub fn extract_links(doc: &PdfDocument) -> (res: Result<Vec<String>, PdfExtractionError>)
    ensures
        result_view(res) == extract_outcome(doc@),
{
    if !doc.is_pdf {
        return Err(PdfExtractionError::NotAPdfError);
    }
    if doc.needs_password {
        return Err(PdfExtractionError::FileEncryptedError);
    }
    let links = scrape_from_pages(&doc.pages);
    Ok(unique_urls(&links))
}

/// Like [`extract_links`] for encrypted files: refuses a document that was not
/// encrypted, and lists the links of the document as it is shown once the password
/// was given.
pub fn extract_links_encrypted(locked: &PdfDocument, unlocked: &PdfDocument) -> (res: Result<
    Vec<String>,
    PdfExtractionError,
>)
    ensures
        !locked@.needs_password ==> res == Err::<Vec<String>, PdfExtractionError>(
            PdfExtractionError::FileNotEncryptedError,
        ),
        locked@.needs_password ==> result_view(res) == extract_outcome(unlocked@),
{
    if !locked.needs_password {
        return Err(PdfExtractionError::FileNotEncryptedError);
    }
    extract_links(unlocked)
}

} // verus!
