//! Links of the XML Linking Language.

pub use crate::formats::xml::xlink::{XLinkFormatError, XLinkLink, XLinkLinkType};
pub use crate::formats::xml::XmlStartElement;
use crate::views::result_view;
use vstd::prelude::*;

verus! {

/// Lists the links of the XML Linking Language in a markup document.
pub fn extract_links(bytes: &[u8]) -> (res: Result<Vec<XLinkLink>, XLinkFormatError>)
    ensures
        result_view(res) == crate::formats::xml::xlink::scrape_outcome(bytes@),
{
    crate::formats::xml::xlink::scrape(bytes)
}

} // verus!
