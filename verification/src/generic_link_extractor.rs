//! Lists the links of a document of any format.

pub use crate::any_format_scraper::{Link, LinkScrapingError};
use crate::any_format_scraper::{scan, Capabilities};
use crate::views::result_view;
use vstd::prelude::*;

verus! {

/// Why the links of some bytes could not be listed.
pub type LinkExtractionError = LinkScrapingError;

/// Guesses the format of the bytes and lists the links in them.
pub fn extract_links(bytes: &[u8]) -> (res: Result<Vec<Link>, LinkExtractionError>)
    ensures
        result_view(res) == scan(bytes@, Capabilities::all()),
{
    crate::any_format_scraper::scrape(bytes)
}

} // verus!
