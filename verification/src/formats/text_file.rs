//! Links in text files.

pub use crate::formats::plaintext::{
    TextFileLink, TextFileLinkLocation, TextFileLinkView, TextFileScrapingError,
    TextFileScrapingErrorView,
};
use crate::views::result_view;
use vstd::prelude::*;

verus! {

/// Scrapes the links from a text file, line by line.
pub fn scrape(bytes: &[u8]) -> (res: Result<Vec<TextFileLink>, TextFileScrapingError>)
    ensures
        result_view(res) == crate::formats::plaintext::scrape_outcome(bytes@),
{
    crate::formats::plaintext::scrape(bytes)
}

} // verus!
