//! Links in the source text of web pages.

use crate::container::{texts_of, url_texts};
use crate::helpers::urls_in;
use vstd::prelude::*;

verus! {

/// Lists the links in the source text of a web page: every web address in it, in the
/// order of the text.
pub fn extract_links_from_html(html_byte_array: &str) -> (links: Vec<String>)
    ensures
        links.deep_view() == texts_of(urls_in(html_byte_array@), urls_in(html_byte_array@).len()),
{
    url_texts(html_byte_array)
}

} // verus!
