//! The extractors, one for each format.

/// Word-processing documents of the OOXML kind, as plain URLs.
pub mod docx;
/// Images with descriptive data.
pub mod image;
/// Office documents of the OpenDocument kind: `.odt`, `.ods`, `.odp`.
pub mod odf;
/// Text documents of the OpenDocument kind, as plain URLs.
pub mod odt;
/// Office documents of the OOXML kind: `.docx`, `.pptx`, `.xlsx`.
pub mod ooxml;
/// Paged documents.
pub mod pdf;
/// Any plain text.
pub mod plaintext;
/// Rich-text documents.
pub mod rtf;
/// Text files.
pub mod text_file;
/// Web pages.
pub mod websites;
/// The XML Linking Language.
pub mod xlink;
/// Markup documents, and the formats built on markup.
pub mod xml;
