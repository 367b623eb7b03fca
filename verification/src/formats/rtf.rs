//! Links in the plain text of rich-text documents. Hyperlinks and comments are not
//! looked at.

use crate::helpers::{find_urls, urls_in, FoundLinkView};
use crate::text::decode;
use crate::views::result_view;
use vstd::prelude::*;
use vstd::string::StringExecFns;
use vstd::utf8::{decode_utf8, valid_utf8};

verus! {

/// The error of the lexer of `rtf_parser`.
#[verifier::external_type_specification]
#[verifier::external_body]
pub struct ExLexerError(rtf_parser::lexer::LexerError);

/// Why a rich-text document could not be scraped.
#[derive(Debug)]
pub enum RtfScrapingError {
    /// The document is no valid UTF-8; holds the decoder's error.
    Utf8Error(core::str::Utf8Error),
    /// The lexer refused the document; holds its error.
    LexerError(rtf_parser::lexer::LexerError),
}

/// Mathematical model of an [`RtfScrapingError`]: which error it is.
pub enum RtfScrapingErrorView {
    Utf8Error,
    LexerError,
}

impl View for RtfScrapingError {
    type V = RtfScrapingErrorView;

    open spec fn view(&self) -> RtfScrapingErrorView {
        match self {
            RtfScrapingError::Utf8Error(_) => RtfScrapingErrorView::Utf8Error,
            RtfScrapingError::LexerError(_) => RtfScrapingErrorView::LexerError,
        }
    }
}

impl DeepView for RtfScrapingError {
    type V = RtfScrapingErrorView;

    open spec fn deep_view(&self) -> RtfScrapingErrorView {
        self@
    }
}

/// A link found in a rich-text document.
#[derive(Debug)]
pub struct RtfLink {
    /// The link as it stands in the document.
    pub url: String,
}

/// Mathematical model of an [`RtfLink`].
pub struct RtfLinkView {
    pub url: Seq<char>,
}

impl View for RtfLink {
    type V = RtfLinkView;

    open spec fn view(&self) -> RtfLinkView {
        RtfLinkView { url: self.url@ }
    }
}

impl DeepView for RtfLink {
    type V = RtfLinkView;

    open spec fn deep_view(&self) -> RtfLinkView {
        self@
    }
}

impl Clone for RtfLink {
    fn clone(&self) -> (copy: RtfLink)
        ensures
            copy == *self,
    {
        RtfLink { url: self.url.clone() }
    }
}

impl RtfLink {
    /// The link as text: its URL.
    pub fn to_string(&self) -> (text: String)
        ensures
            text@ == self.url@,
    {
        self.url.clone()
    }
}

/// A token of a rich-text document, as far as this library looks at it.
#[derive(Debug)]
pub enum RtfToken {
    /// A run of plain text.
    PlainText(String),
    /// A bracket, a control word or another token that holds no text.
    Other,
}

/// Mathematical model of an [`RtfToken`].
pub enum RtfTokenView {
    PlainText(Seq<char>),
    Other,
}

impl View for RtfToken {
    type V = RtfTokenView;

    open spec fn view(&self) -> RtfTokenView {
        match self {
            RtfToken::PlainText(text) => RtfTokenView::PlainText(text@),
            RtfToken::Other => RtfTokenView::Other,
        }
    }
}

impl DeepView for RtfToken {
    type V = RtfTokenView;

    open spec fn deep_view(&self) -> RtfTokenView {
        self@
    }
}

impl RtfToken {
    /// The token of a run of plain text.
    pub fn plain_text(text: String) -> (token: RtfToken)
        ensures
            token == RtfToken::PlainText(text),
    {
        RtfToken::PlainText(text)
    }
}

/// The tokens that `rtf_parser::lexer::Lexer::scan` makes of a text; `None` where it
/// refuses the text.
pub uninterp spec fn rtf_tokens(text: Seq<char>) -> Option<Seq<RtfTokenView>>;

/// Calls `rtf_parser::lexer::Lexer::scan` on the text and hands out its tokens: the text
/// of each plain-text token, and for every other token only that it is there. What
/// comes back depends on the text alone.
#[verifier::external_body]
fn lex(text: &str) -> (res: Result<Vec<RtfToken>, rtf_parser::lexer::LexerError>)
    ensures
        res is Ok <==> rtf_tokens(text@) is Some,
        res matches Ok(tokens) ==> Some(tokens.deep_view()) == rtf_tokens(text@),
{
    Ok(rtf_parser::lexer::Lexer::scan(text)?.into_iter().map(|token| match token {
        rtf_parser::tokens::Token::PlainText(run) => RtfToken::plain_text(run.to_string()),
        _ => RtfToken::Other,
    }).collect())
}

/// The plain text of the first `n` tokens: each run, with one space behind it.
pub open spec fn plain_text_of(tokens: Seq<RtfTokenView>, n: nat) -> Seq<char>
    decreases n,
{
    if n == 0 {
        Seq::empty()
    } else {
        let before = plain_text_of(tokens, (n - 1) as nat);
        match tokens[n - 1] {
            RtfTokenView::PlainText(run) => before + run + " "@,
            RtfTokenView::Other => before,
        }
    }
}

/// The first `n` web addresses as links.
pub open spec fn links_of_matches(matches: Seq<FoundLinkView>, n: nat) -> Seq<RtfLinkView> {
    Seq::new(n, |i: int| RtfLinkView { url: matches[i].text })
}

/// The links in the plain text of the tokens.
pub open spec fn links_of_tokens(tokens: Seq<RtfTokenView>) -> Seq<RtfLinkView> {
    let matches = urls_in(plain_text_of(tokens, tokens.len()));
    links_of_matches(matches, matches.len())
}

/// What scraping a rich-text document that is given as text comes to.
pub open spec fn string_outcome(text: Seq<char>) -> Result<Seq<RtfLinkView>, RtfScrapingErrorView> {
    match rtf_tokens(text) {
        Some(tokens) => Ok(links_of_tokens(tokens)),
        None => Err(RtfScrapingErrorView::LexerError),
    }
}

/// What scraping a rich-text document that is given as bytes comes to.
pub open spec fn scrape_outcome(bytes: Seq<u8>) -> Result<Seq<RtfLinkView>, RtfScrapingErrorView> {
    if valid_utf8(bytes) {
        string_outcome(decode_utf8(bytes))
    } else {
        Err(RtfScrapingErrorView::Utf8Error)
    }
}

/// Puts the plain text of the tokens together, with one space behind each run.
pub fn join_plain_text(tokens: &Vec<RtfToken>) -> (text: String)
    ensures
        text@ == plain_text_of(tokens.deep_view(), tokens.len() as nat),
{
    let mut text = String::new();
    let mut i: usize = 0;
    while i < tokens.len()
        invariant
            i <= tokens.len(),
            text@ == plain_text_of(tokens.deep_view(), i as nat),
        decreases tokens.len() - i,
    {
        assert(tokens.deep_view()[i as int] == tokens[i as int]@);
        match &tokens[i] {
            RtfToken::PlainText(run) => {
                text.append(run.as_str());
                text.append(" ");
            },
            RtfToken::Other => {},
        }
        i += 1;
    }
    text
}

/// Scrapes the links from the tokens of a rich-text document.
pub fn scrape_from_tokens(tokens: &Vec<RtfToken>) -> (links: Vec<RtfLink>)
    ensures
        links.deep_view() == links_of_tokens(tokens.deep_view()),
{
    let text = join_plain_text(tokens);
    let matches = find_urls(text.as_str());
    let mut links: Vec<RtfLink> = Vec::new();
    let mut i: usize = 0;
    while i < matches.len()
        invariant
            i <= matches.len(),
            links.deep_view() == links_of_matches(matches.deep_view(), i as nat),
        decreases matches.len() - i,
    {
        let ghost earlier = links.deep_view();
        links.push(RtfLink { url: matches[i].text.clone() });
        assert(links.deep_view() =~= earlier.push(
            RtfLinkView { url: matches.deep_view()[i as int].text },
        ));
        i += 1;
    }
    links
}

/// Scrapes links from a rich-text document that is given as text. Only the plain text
/// is searched.
pub fn scrape_from_string(s: &str) -> (res: Result<Vec<RtfLink>, RtfScrapingError>)
    ensures
        result_view(res) == string_outcome(s@),
{
    match lex(s) {
        Ok(tokens) => Ok(scrape_from_tokens(&tokens)),
        Err(error) => Err(RtfScrapingError::LexerError(error)),
    }
}

/// Scrapes links from a rich-text document that is given as bytes. Returns an error
/// where the bytes are no valid UTF-8.
pub fn scrape_from_slice(bytes: &[u8]) -> (res: Result<Vec<RtfLink>, RtfScrapingError>)
    ensures
        result_view(res) == scrape_outcome(bytes@),
{
    match decode(bytes) {
        Ok(text) => scrape_from_string(text),
        Err(error) => Err(RtfScrapingError::Utf8Error(error)),
    }
}

/// Scrapes links from a rich-text document that was read whole.
pub fn scrape(bytes: &[u8]) -> (res: Result<Vec<RtfLink>, RtfScrapingError>)
    ensures
        result_view(res) == scrape_outcome(bytes@),
{
    scrape_from_slice(bytes)
}

} // verus!
