//! Extracts the URLs embedded in documents and classifies each by the structure it was
//! found in: an attribute, a comment, plain text, embedded data, a namespace
//! declaration, or a hyperlink record.
//!
//! The `scrape` functions of the modules under [`formats`] take the bytes of a document
//! of one format. Where the format is not known, [`any_format_scraper::scrape`] finds it
//! out and hands the bytes to the extractor for it.

/// Use only if you're not sure what format your file will be.
pub mod any_format_scraper;
/// Reads compressed containers of named parts.
pub mod container;
/// A general error of an extraction.
pub mod error;
/// Contains format-specific scrape-functions. Prefer over [`any_format_scraper`].
pub mod formats;
/// Lists the links of a document of any format.
pub mod generic_link_extractor;
/// Helper functions: the matcher for web addresses.
pub mod helpers;
/// Puts lists of links in order.
pub mod link_extractor;
/// Reads markup documents into events.
pub mod markup;
/// A matcher for web addresses that goes by a fixed pattern.
pub mod parser;
/// Comparisons on strings.
pub mod text;
/// The mathematical model of a result.
pub mod views;
