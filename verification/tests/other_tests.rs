use link_scraper::error::ExtractionError;
use link_scraper::formats::image::{self, ExifField, ImageLink};
use link_scraper::formats::pdf::pdf_operator::{ParseError, PdfOperator};
use link_scraper::formats::pdf::{
    self, PdfDocument, PdfExtractionError, PdfLinkKind, PdfPage, PdfScrapingError,
};
use link_scraper::formats::rtf::{self, RtfScrapingError, RtfToken};
use link_scraper::formats::websites::extract_links_from_html;
use link_scraper::helpers::{find_urls, keep_urls, FoundLink, SpanKind};
use link_scraper::link_extractor::{comes_before, unique_and_sort};
use link_scraper::parser::find_url_strings;
use link_scraper::text::{contains, decode, ends_with, matches_at, str_eq};

const TEST_RTF: &[u8] = b"{\\rtf1\\ansi{\\fonttbl\\f0\\fswiss Helvetica;}\\f0\\pard This text holds https://plaintext.test.com in it.\\par}";

fn page(text: &str, uris: &[&str]) -> PdfPage {
    PdfPage { text: text.to_string(), link_uris: uris.iter().map(|uri| uri.to_string()).collect() }
}

fn test_pdf() -> PdfDocument {
    PdfDocument {
        is_pdf: true,
        needs_password: false,
        pages: vec![
            page("A page with https://plaintext.test.com in its text", &["https://hyperlink.test.com/"]),
            page("Nothing here", &[]),
        ],
    }
}

fn test_pdfa() -> PdfDocument {
    PdfDocument {
        is_pdf: true,
        needs_password: false,
        pages: vec![page(
            "Powered by http://www.tcpdf.org see http://www.tcpdf.org",
            &["http://www.tcpdf.org", "http://sourceforge.net/donate/index.php?group_id=128076"],
        )],
    }
}

fn big_pdf() -> PdfDocument {
    let mut pages = Vec::new();
    for number in 0..19 {
        let text = format!("see https://text{number}.test.com and again https://text{number}.test.com");
        let uri = format!("https://link{number}.test.com/");
        pages.push(PdfPage { text, link_uris: vec![uri.clone(), uri] });
    }
    PdfDocument { is_pdf: true, needs_password: false, pages }
}

fn encrypted_pdf() -> PdfDocument {
    PdfDocument { is_pdf: true, needs_password: true, pages: test_pdf().pages }
}

fn segment(marker: u8, payload: &[u8]) -> Vec<u8> {
    let mut bytes = vec![0xFF, marker];
    bytes.extend_from_slice(&((payload.len() + 2) as u16).to_be_bytes());
    bytes.extend_from_slice(payload);
    bytes
}

fn jpeg_with_description(description: &str) -> Vec<u8> {
    let mut text = description.as_bytes().to_vec();
    text.push(0);
    let mut tiff: Vec<u8> = vec![b'I', b'I', 0x2A, 0x00, 8, 0, 0, 0];
    tiff.extend_from_slice(&1u16.to_le_bytes());
    tiff.extend_from_slice(&0x010Eu16.to_le_bytes());
    tiff.extend_from_slice(&2u16.to_le_bytes());
    tiff.extend_from_slice(&(text.len() as u32).to_le_bytes());
    tiff.extend_from_slice(&26u32.to_le_bytes());
    tiff.extend_from_slice(&0u32.to_le_bytes());
    tiff.extend_from_slice(&text);
    let mut payload = b"Exif\0\0".to_vec();
    payload.extend_from_slice(&tiff);
    let mut jpeg = vec![0xFF, 0xD8];
    jpeg.extend_from_slice(&segment(0xE1, &payload));
    jpeg.extend_from_slice(&[0xFF, 0xD9]);
    jpeg
}

fn jpeg_without_exif() -> Vec<u8> {
    let mut jpeg = vec![0xFF, 0xD8];
    jpeg.extend_from_slice(&segment(0xE0, b"JFIF\0\x01\x01\0\0\x01\0\x01\0\0"));
    jpeg.extend_from_slice(&[0xFF, 0xD9]);
    jpeg
}

#[test]
fn scrape_exif_test() {
    let jpeg = jpeg_with_description("Taken for https://test.exifdata.com and https://test2.exifdata.com");
    let links = image::scrape(&jpeg).unwrap();
    println!("{:?}", links);
    assert!(links.contains(&ImageLink {
        url: "https://test.exifdata.com".to_string(),
        exif_field: "ImageDescription".to_string()
    }));
    assert!(links.contains(&ImageLink {
        url: "https://test2.exifdata.com".to_string(),
        exif_field: "ImageDescription".to_string()
    }))
}

#[test]
fn scrape_empty_exif_data_test() {
    let links = image::scrape(&jpeg_without_exif()).unwrap();
    assert_eq!(links.len(), 0)
}

#[test]
fn image_that_cannot_be_read_is_an_error() {
    assert!(image::scrape(b"this is no image at all").is_err());
}

#[test]
fn image_fields_that_are_no_text_are_left_out() {
    let fields = vec![
        ExifField::new("Make".to_string(), "https://make.test.com".to_string(), true),
        ExifField::new("Blob".to_string(), "https://blob.test.com".to_string(), false),
    ];
    let links = image::scrape_from_fields(&fields);
    assert_eq!(
        links,
        vec![ImageLink { url: "https://make.test.com".to_string(), exif_field: "Make".to_string() }]
    );
    assert_eq!(links[0].to_string(), "https://make.test.com");
}

#[test]
fn scrape_pdf_test() {
    let links = pdf::scrape(&test_pdf()).unwrap();
    println!("{:?}", links);
    assert!(links.iter().any(|it| it.url == "https://hyperlink.test.com/" && it.kind == PdfLinkKind::Hyperlink));
    assert!(links.iter().any(|it| it.url == "https://plaintext.test.com" && it.kind == PdfLinkKind::PlainText));
}

#[test]
fn scrape_pdfa_test() {
    let mut document = test_pdf();
    document.pages.push(page("An archived copy", &[]));
    let links = pdf::scrape(&document).unwrap();
    println!("{:?}", links);
    assert!(links.iter().any(|it| it.url == "https://hyperlink.test.com/" && it.kind == PdfLinkKind::Hyperlink));
    assert!(links.iter().any(|it| it.url == "https://plaintext.test.com" && it.kind == PdfLinkKind::PlainText));
}

#[test]
fn fail_on_encrypted_without_pw_test() {
    let links = pdf::scrape(&encrypted_pdf());
    println!("{:?}", links);
    assert!(links.is_err())
}

#[test]
fn fail_on_decrypting_non_encrypted_file_test() {
    let links = pdf::scrape_encrypted(&test_pdf(), &test_pdf());
    println!("{:?}", links);
    assert!(links.is_err())
}

#[test]
fn extract_lots_of_links_from_pdf() {
    let links = pdf::extract_links(&big_pdf()).unwrap();
    assert_eq!(38, links.len())
}

#[test]
fn extract_links_from_pdfa() {
    let links = pdf::extract_links(&test_pdfa()).unwrap();
    println!("{:?}", links);
    assert_eq!(links, vec!["http://www.tcpdf.org", "http://sourceforge.net/donate/index.php?group_id=128076"])
}

#[test]
fn fail_on_encrypted_without_pw() {
    let links = pdf::extract_links(&encrypted_pdf());
    assert!(links.is_err())
}

#[test]
fn fail_on_decrypting_non_encrypted_file() {
    let links = pdf::extract_links_encrypted(&big_pdf(), &big_pdf());
    assert!(links.is_err())
}

#[test]
fn pdf_errors_say_what_is_wrong() {
    let mut no_pdf = test_pdf();
    no_pdf.is_pdf = false;
    assert_eq!(pdf::scrape(&no_pdf).unwrap_err(), PdfScrapingError::NotAPdfError);
    assert_eq!(pdf::scrape(&encrypted_pdf()).unwrap_err(), PdfScrapingError::FileEncryptedError);
    assert_eq!(
        pdf::scrape_encrypted(&test_pdf(), &test_pdf()).unwrap_err(),
        PdfScrapingError::FileNotEncryptedError
    );
    assert_eq!(pdf::extract_links(&no_pdf).unwrap_err(), PdfExtractionError::NotAPdfError);
    assert_eq!(pdf::extract_links(&encrypted_pdf()).unwrap_err(), PdfExtractionError::FileEncryptedError);
    assert_eq!(
        pdf::extract_links_encrypted(&test_pdf(), &test_pdf()).unwrap_err(),
        PdfExtractionError::FileNotEncryptedError
    );
    let unlocked = pdf::scrape_encrypted(&encrypted_pdf(), &test_pdf()).unwrap();
    assert_eq!(unlocked.len(), 2);
}

#[test]
fn pdf_links_carry_their_page() {
    let document = PdfDocument {
        is_pdf: true,
        needs_password: false,
        pages: vec![page("none", &[]), page("https://two.test.com", &["https://uri.test.com/x"])],
    };
    let links = pdf::scrape(&document).unwrap();
    assert_eq!(links.len(), 2);
    assert_eq!((links[0].url.as_str(), links[0].location.page, links[0].kind), ("https://two.test.com", 2, PdfLinkKind::PlainText));
    assert_eq!((links[1].url.as_str(), links[1].location.page, links[1].kind), ("https://uri.test.com/x", 2, PdfLinkKind::Hyperlink));
}

#[test]
fn check_text_object_deserialization() {
    let op_bt = PdfOperator::from_str("BT").unwrap();
    assert_eq!(op_bt, PdfOperator::BT);
    let op_et = PdfOperator::from_str("ET").unwrap();
    assert_eq!(op_et, PdfOperator::ET);
}

#[test]
fn operators_are_read_by_their_names() {
    assert_eq!(PdfOperator::from_str("f*"), Ok(PdfOperator::fStar));
    assert_eq!(PdfOperator::from_str("'"), Ok(PdfOperator::SingleQuote));
    assert_eq!(PdfOperator::from_str("\""), Ok(PdfOperator::DoubleQuote));
    assert_eq!(PdfOperator::from_str("TJ"), Ok(PdfOperator::TJ));
    assert_eq!(PdfOperator::from_str("Tj"), Ok(PdfOperator::Tj));
    assert_eq!(PdfOperator::from_str("BMZ"), Ok(PdfOperator::BMC));
    assert_eq!(PdfOperator::from_str("BMC"), Err(ParseError::VariantNotFound));
    assert_eq!(PdfOperator::from_str(""), Err(ParseError::VariantNotFound));
    assert!(PdfOperator::BT.allowed_operands().is_empty());
    assert!(PdfOperator::EMC.allowed_operands().is_empty());
}

#[test]
fn scrape_rtf_test() {
    let links = rtf::scrape_from_slice(TEST_RTF).unwrap();
    println!("{:?}", links);
    assert!(links.iter().any(|it| it.url == "https://plaintext.test.com"));
}

#[test]
fn rtf_runs_are_joined_with_spaces() {
    let tokens = vec![
        RtfToken::plain_text("see https://a.test.com".to_string()),
        RtfToken::Other,
        RtfToken::plain_text("/b and https://c.test.com".to_string()),
    ];
    assert_eq!(rtf::join_plain_text(&tokens), "see https://a.test.com /b and https://c.test.com ");
    let links = rtf::scrape_from_tokens(&tokens);
    let urls: Vec<&str> = links.iter().map(|link| link.url.as_str()).collect();
    assert_eq!(urls, vec!["https://a.test.com", "https://c.test.com"]);
}

#[test]
fn rtf_errors_say_what_is_wrong() {
    assert!(matches!(rtf::scrape(b"{\\rtf1 \xff\xfe}"), Err(RtfScrapingError::Utf8Error(_))));
    assert!(matches!(rtf::scrape_from_string("{\\rtf1 text} trailing"), Err(RtfScrapingError::LexerError(_))));
    assert_eq!(rtf::scrape(TEST_RTF).unwrap().len(), 1);
}

#[test]
fn find_urls_leaves_out_mail_addresses() {
    let urls = find_urls("dfjaoijewfj oijoiwfjoiwjoi j\u{b4}21214https://www.google.com .\u{e4}w\u{e4}.f.f.w\u{e4} ");
    assert_eq!(urls.first().unwrap().text, "https://www.google.com");
    let urls = find_urls("look at https://www.google.com or write to someone@example.org");
    assert_eq!(urls.len(), 1);
    assert_eq!(urls[0].text, "https://www.google.com");
    assert_eq!(urls[0].start, 8);
    assert_eq!(urls[0].end, 30);
    assert!(find_urls("no link in here").is_empty());
}

#[test]
fn keep_urls_keeps_order() {
    let found = vec![
        FoundLink::new("https://a.test.com".to_string(), 0, 18, SpanKind::Url),
        FoundLink::new("a@b.test.com".to_string(), 20, 32, SpanKind::Email),
        FoundLink::new("https://c.test.com".to_string(), 40, 58, SpanKind::Url),
        FoundLink::new("odd".to_string(), 60, 63, SpanKind::Other),
    ];
    let urls = keep_urls(found);
    let texts: Vec<&str> = urls.iter().map(|url| url.text.as_str()).collect();
    assert_eq!(texts, vec!["https://a.test.com", "https://c.test.com"]);
}

#[test]
fn html_links_are_listed_in_order() {
    let links = extract_links_from_html("<a href=\"https://one.test.com\">x</a> <p>https://two.test.com</p>");
    assert_eq!(links, vec!["https://one.test.com", "https://two.test.com"]);
}

#[test]
fn text_comparisons() {
    assert!(str_eq("href", "href"));
    assert!(!str_eq("href", "hre"));
    assert!(!str_eq("href", "hrefs"));
    assert!(str_eq("", ""));
    assert!(ends_with("word/_rels/document.xml.rels", ".rels"));
    assert!(!ends_with("word/document.xml", ".rels"));
    assert!(!ends_with("ls", ".rels"));
    assert!(ends_with("anything", ""));
    assert!(contains("word/comments.xml", "/comment"));
    assert!(!contains("word/document.xml", "/comment"));
    assert!(contains("abc", ""));
    assert!(!contains("ab", "abc"));
    assert!(contains("xxabc", "abc"));
    assert!(matches_at(b"hello", b"ll", 2));
    assert!(!matches_at(b"hello", b"ll", 1));
    assert_eq!(decode(b"gr\xc3\xbc\xc3\x9f").unwrap(), "gr\u{fc}\u{df}");
    assert!(decode(b"\xc3").is_err());
}

#[test]
fn extraction_error_messages() {
    let plain = ExtractionError::new(Some("it broke"), None);
    assert_eq!(plain.to_string(), "ExtractionError: it broke");
    let caused = ExtractionError::new(None, Some("disk full".to_string()));
    assert_eq!(caused.to_string(), "ExtractionError: Raised by disk full; Source: disk full");
    let both = ExtractionError::new(Some("it broke"), Some("disk full".to_string()));
    assert_eq!(both.to_string(), "ExtractionError: it broke; Source: disk full");
    let neither = ExtractionError::new(None, None);
    assert_eq!(neither.to_string(), "ExtractionError: No further information available.");
}

#[test]
fn pattern_finds_web_addresses() {
    let urls = find_url_strings("go to https://www.google.com/search or http://example.org now, not to ftp://files.test.com");
    assert_eq!(urls, vec!["https://www.google.com", "http://example.org"]);
    assert!(find_url_strings("nothing to see").is_empty());
}

#[test]
fn fail_on_non_pdf_test() {
    let mut not_a_pdf = test_pdf();
    not_a_pdf.is_pdf = false;
    let error = pdf::scrape(&not_a_pdf);
    assert!(error.is_err())
}

#[test]
fn fail_on_non_pdf() {
    let mut not_a_pdf = big_pdf();
    not_a_pdf.is_pdf = false;
    let error = pdf::extract_links(&not_a_pdf);
    assert!(error.is_err())
}

#[test]
fn unique_and_sort_orders_and_leaves_out_repetitions() {
    let links: Vec<String> = ["https://b.test.com", "http://z.test.com", "https://b.test.com", "https://a.test.com/x", "https://a.test.com", "http://z.test.com"]
        .iter()
        .map(|link| link.to_string())
        .collect();
    assert_eq!(
        unique_and_sort(&links),
        vec!["http://z.test.com", "https://a.test.com", "https://a.test.com/x", "https://b.test.com"]
    );
    assert!(unique_and_sort(&[]).is_empty());
    let mut expected = links.clone();
    expected.sort();
    expected.dedup();
    assert_eq!(unique_and_sort(&links), expected);
    assert!(comes_before("abc", "abd"));
    assert!(comes_before("ab", "abc"));
    assert!(!comes_before("abc", "abc"));
    assert!(!comes_before("b", "abc"));
    assert!(comes_before("", "a"));
    assert!(!comes_before("a", ""));
}
