use link_scraper::any_format_scraper::{
    classify, scrape, scrape_from_buffer, scrape_from_slice, scrape_with, sniff_step, Capabilities,
    FormatKind, Link, LinkScrapingError, SniffStep,
};
use link_scraper::container;
use link_scraper::formats::docx;
use link_scraper::formats::odf::{self, OdfLinkKind, OdfScrapingError};
use link_scraper::formats::odt;
use link_scraper::formats::ooxml::{self, OoxmlLinkKind, OoxmlScrapingError};
use link_scraper::formats::xml::XmlLinkType;
use link_scraper::generic_link_extractor;
use link_scraper::link_extractor::unique_and_sort;
use std::io::Write;

fn archive(parts: &[(&str, &[u8])]) -> Vec<u8> {
    let mut writer = zip::ZipWriter::new(std::io::Cursor::new(Vec::new()));
    let options =
        zip::write::SimpleFileOptions::default().compression_method(zip::CompressionMethod::Stored);
    for (name, content) in parts {
        writer.start_file(*name, options).unwrap();
        writer.write_all(content).unwrap();
    }
    writer.finish().unwrap().into_inner()
}

fn corrupt(mut container: Vec<u8>, marker: &[u8]) -> Vec<u8> {
    let at = container.windows(marker.len()).position(|window| window == marker).unwrap();
    container[at] ^= 0x20;
    container
}

fn attributes(count: usize, stem: &str) -> String {
    let mut text = String::new();
    for number in 0..count {
        text.push_str(&format!(" a{number}=\"http://{stem}.test.com/{number}\""));
    }
    text
}

const RELATIONSHIPS: &[u8] = b"<?xml version=\"1.0\" encoding=\"UTF-8\" standalone=\"yes\"?>
<Relationships xmlns=\"http://schemas.openxmlformats.org/package/2006/relationships\"><Relationship Id=\"rId1\" Type=\"http://schemas.openxmlformats.org/officeDocument/2006/relationships/hyperlink\" Target=\"https://hyperlink.test.com/\" TargetMode=\"External\"/></Relationships>";

fn body(text: &str) -> Vec<u8> {
    format!(
        "<?xml version=\"1.0\" encoding=\"UTF-8\" standalone=\"yes\"?>
<w:document xmlns:w=\"http://schemas.openxmlformats.org/wordprocessingml/2006/main\"><w:body><w:p><w:r><w:t>{text}</w:t></w:r></w:p></w:body></w:document>"
    )
    .into_bytes()
}

fn test_docx() -> Vec<u8> {
    archive(&[
        ("word/document.xml", &body("Some text with https://plaintext.test.com inside")),
        ("word/comments.xml", &body("A comment on https://comment.test.com here")),
        ("word/_rels/document.xml.rels", RELATIONSHIPS),
        ("word/styles.xml", format!("<styles{}/>", attributes(43, "style")).as_bytes()),
        ("word/media/image1.png", b"\x89PNG not really"),
        ("word/empty.xml", b""),
    ])
}

fn test_pptx() -> Vec<u8> {
    archive(&[
        ("ppt/slides/slide1.xml", &body("Some text with https://plaintext.test.com inside")),
        ("ppt/comments/comment1.xml", &body("A comment on https://comment.test.com/ here")),
        ("ppt/slides/_rels/slide1.xml.rels", RELATIONSHIPS),
    ])
}

fn test_xlsx() -> Vec<u8> {
    archive(&[
        ("xl/sharedStrings.xml", &body("Some text with https://plaintext.test.com inside")),
        ("xl/comments1.xml", &body("A comment on https://comment.test.com here")),
        ("xl/worksheets/_rels/sheet1.xml.rels", RELATIONSHIPS),
    ])
}

fn content(extra: usize) -> Vec<u8> {
    format!(
        "<?xml version=\"1.0\" encoding=\"UTF-8\"?>
<office:document-content xmlns:office=\"urn:oasis:names:tc:opendocument:xmlns:office:1.0\" xmlns:text=\"urn:oasis:names:tc:opendocument:xmlns:text:1.0\" xmlns:xlink=\"http://www.w3.org/1999/xlink\"{}><office:body><text:p>Some text with https://plaintext.test.com inside and <text:a xlink:type=\"simple\" xlink:href=\"https://hyperlink.test.com/\">a hyperlink</text:a></text:p></office:body></office:document-content>",
        attributes(extra, "odf")
    )
    .into_bytes()
}

fn open_document(mimetype: &str, extra: usize) -> Vec<u8> {
    archive(&[
        ("mimetype", mimetype.as_bytes()),
        ("content.xml", &content(extra)),
        ("Thumbnails/thumbnail.png", b"\x89PNG not really"),
    ])
}

fn test_odt() -> Vec<u8> {
    open_document("application/vnd.oasis.opendocument.text", 44)
}

fn word_document() -> Vec<u8> {
    archive(&[
        (
            "word/document.xml",
            &body("Get it at http://calibre-ebook.com/download or see http://iam.also.here and listen to https://music.youtube.com/watch?v=fsJ2QVjzwtQ&amp;si=S4UQH23jwXIiZdad today"),
        ),
        ("word/comments.xml", &body("A comment on http://test.comment.link here")),
        (
            "word/_rels/document.xml.rels",
            b"<?xml version=\"1.0\"?><Relationships xmlns=\"http://schemas.openxmlformats.org/package/2006/relationships\"><Relationship Id=\"rId1\" Type=\"http://schemas.openxmlformats.org/officeDocument/2006/relationships/hyperlink\" Target=\"http://embedded.link.de/\" TargetMode=\"External\"/></Relationships>",
        ),
        ("word/styles.xml", format!("<styles{}/>", attributes(121, "style")).as_bytes()),
    ])
}

fn text_document() -> Vec<u8> {
    let text = format!(
        "<?xml version=\"1.0\" encoding=\"UTF-8\"?>
<office:document-content xmlns:office=\"urn:oasis:names:tc:opendocument:xmlns:office:1.0\" xmlns:text=\"urn:oasis:names:tc:opendocument:xmlns:text:1.0\" xmlns:xlink=\"http://www.w3.org/1999/xlink\"{}><office:body><text:p>Plain https://plaintext.link.test/ and <text:a xlink:href=\"https://hyperlink.test.de/\">a hyperlink</text:a> made with https://products.office.com/en-us/word <office:annotation><text:p>http://comment.link.test and <text:a xlink:href=\"https://hyperlink.in.comment.test/\">more</text:a></text:p></office:annotation> and again https://plaintext.link.test/</text:p></office:body></office:document-content>",
        attributes(22, "odt")
    );
    archive(&[
        ("mimetype", b"application/vnd.oasis.opendocument.text"),
        ("content.xml", text.as_bytes()),
    ])
}

fn urls(links: &[Link]) -> Vec<String> {
    links
        .iter()
        .map(|link| match link {
            Link::StringLink(url) => url.clone(),
            Link::TextFileLink(link) => link.url.clone(),
            Link::OdfLink(link) => link.url.clone(),
            Link::PdfLink(link) => link.url.clone(),
            Link::OoxmlLink(link) => link.url.clone(),
            Link::RtfLink(link) => link.url.clone(),
            Link::XmlLink(link) => link.url.clone(),
            Link::SvgLink(link) => link.url.clone(),
            Link::ImageLink(link) => link.url.clone(),
        })
        .collect()
}

fn generic(slice: &[u8], is_active: bool) {
    if is_active {
        let links = scrape_from_slice(slice).expect("Failed to scrape a specific format!");
        let shown: Vec<String> = links.iter().map(|link| link.to_string()).collect();
        println!("[\"{}\"]", shown.join("\", \""));
    } else {
        scrape_from_slice(slice).expect_err("Expected to fail!");
    }
}

#[test]
fn scrape_generic_file_test() {
    generic(b"https://test.com/", true);
    generic(&test_docx(), true);
    generic(&test_pptx(), true);
    generic(&test_xlsx(), true);
    generic(&test_odt(), true);
    generic(&open_document("application/vnd.oasis.opendocument.spreadsheet", 0), true);
    generic(&open_document("application/vnd.oasis.opendocument.text-template", 0), true);
    generic(&open_document("application/vnd.oasis.opendocument.presentation", 0), true);
    generic(b"%PDF-1.4\n1 0 obj\n<< >>\nendobj\n", false);
    generic(b"{\\rtf1\\ansi This text holds https://plaintext.test.com in it.\\par}", true);
    generic(b"<?xml version=\"1.0\"?><root link=\"https://attribute.test.com\">text</root>", true);
    generic(b"<?xml version=\"1.0\"?><svg xmlns=\"http://www.w3.org/2000/svg\"><text>https://text.test.com</text></svg>", true);
    generic(b"\xFF\xD8\xFF\xE0\x00\x10JFIF\x00\x01\x01\x00\x00\x01\x00\x01\x00\x00\xFF\xD9", true);
}

#[test]
fn generic_extraction_test() {
    let shown = |bytes: &[u8]| {
        let links = generic_link_extractor::extract_links(bytes).unwrap();
        let texts: Vec<String> = links.iter().map(|link| link.to_string()).collect();
        println!("[{}]", texts.join(", "));
        texts
    };
    assert_eq!(shown(b"http://test.com/"), vec!["StringLink(http://test.com/)"]);
    assert!(!shown(&test_docx()).is_empty());
    assert!(!shown(&test_pptx()).is_empty());
    assert!(!shown(&test_xlsx()).is_empty());
    assert!(!shown(&test_odt()).is_empty());
    assert!(!shown(b"{\\rtf1\\ansi This text holds https://plaintext.test.com in it.\\par}").is_empty());
    assert!(!shown(b"<?xml version=\"1.0\"?><root link=\"https://attribute.test.com\">text</root>").is_empty());
}

#[test]
fn scrape_docx_test() {
    let links = ooxml::scrape(&test_docx()).unwrap();
    println!("{:?}", links);
    assert!(links.iter().any(|it| it.url == "https://hyperlink.test.com/" && it.kind == OoxmlLinkKind::Hyperlink));
    assert!(links.iter().any(|it| it.url == "https://comment.test.com" && it.kind == OoxmlLinkKind::Comment));
    assert!(links.iter().any(|it| it.url == "https://plaintext.test.com" && it.kind == OoxmlLinkKind::PlainText));
}

#[test]
fn scrape_pptx_test() {
    let links = ooxml::scrape(&test_pptx()).unwrap();
    println!("{:?}", links);
    assert!(links.iter().any(|it| it.url == "https://hyperlink.test.com/" && it.kind == OoxmlLinkKind::Hyperlink));
    assert!(links.iter().any(|it| it.url == "https://comment.test.com/" && it.kind == OoxmlLinkKind::Comment));
    assert!(links.iter().any(|it| it.url == "https://plaintext.test.com" && it.kind == OoxmlLinkKind::PlainText));
}

#[test]
fn scrape_xlsx_test() {
    let links = ooxml::scrape(&test_xlsx()).unwrap();
    println!("{:?}", links);
    assert!(links.iter().any(|it| it.url == "https://hyperlink.test.com/" && it.kind == OoxmlLinkKind::Hyperlink));
    assert!(links.iter().any(|it| it.url == "https://comment.test.com" && it.kind == OoxmlLinkKind::Comment));
    assert!(links.iter().any(|it| it.url == "https://plaintext.test.com" && it.kind == OoxmlLinkKind::PlainText));
}

#[test]
fn ooxml_scrape_unfiltered_test() {
    let mut links = ooxml::scrape_unfiltered_from_slice(&test_docx()).unwrap();
    links.sort();
    assert_eq!(links.len(), 50);
}

#[test]
fn scrape_odt_test() {
    let links = odf::scrape(&test_odt()).unwrap();
    println!("{:?}", links);
    assert!(links.iter().any(|it| it.url == "https://plaintext.test.com" && it.kind == OdfLinkKind::PlainText));
    assert!(links.iter().any(|it| it.url == "https://hyperlink.test.com/" && it.kind == OdfLinkKind::Hyperlink));
}

#[test]
fn scrape_ods_test() {
    let links = odf::scrape(&open_document("application/vnd.oasis.opendocument.spreadsheet", 3)).unwrap();
    println!("{:?}", links);
    assert!(links.iter().any(|it| it.url == "https://plaintext.test.com" && it.kind == OdfLinkKind::PlainText));
    assert!(links.iter().any(|it| it.url == "https://hyperlink.test.com/" && it.kind == OdfLinkKind::Hyperlink));
}

#[test]
fn scrape_odp_test() {
    let links = odf::scrape(&open_document("application/vnd.oasis.opendocument.presentation", 5)).unwrap();
    println!("{:?}", links);
    assert!(links.iter().any(|it| it.url == "https://plaintext.test.com" && it.kind == OdfLinkKind::PlainText));
    assert!(links.iter().any(|it| it.url == "https://hyperlink.test.com/" && it.kind == OdfLinkKind::Hyperlink));
}

#[test]
fn scrape_ott_test() {
    let links = odf::scrape(&open_document("application/vnd.oasis.opendocument.text-template", 7)).unwrap();
    println!("{:?}", links);
    assert!(links.iter().any(|it| it.url == "https://plaintext.test.com" && it.kind == OdfLinkKind::PlainText));
    assert!(links.iter().any(|it| it.url == "https://hyperlink.test.com/" && it.kind == OdfLinkKind::Hyperlink));
}

#[test]
fn odf_scrape_unfiltered_test() {
    let links = odf::scrape_unfiltered(&test_odt()).unwrap();
    assert_eq!(links.len(), 47);
}

#[test]
fn extraction_test() {
    let mut links = docx::extract_links(&word_document()).unwrap();
    links.sort();
    assert_eq!(links, vec!["http://calibre-ebook.com/download", "http://embedded.link.de/", "http://iam.also.here", "http://test.comment.link", "https://music.youtube.com/watch?v=fsJ2QVjzwtQ&si=S4UQH23jwXIiZdad"]);
}

#[test]
fn mod_unfiltered_extraction_test() {
    let mut links = docx::extract_links_unfiltered(&word_document()).unwrap();
    links.sort();
    assert_eq!(links.len(), 130);
    let links = odt::extract_links_unfiltered(&text_document()).unwrap();
    let links = unique_and_sort(&links);
    assert_eq!(links.len(), 28);
}

#[test]
fn docx_extraction_test() {
    let links = odt::extract_links(&text_document()).unwrap();
    assert_eq!(
        unique_and_sort(links.as_slice()),
        vec!["http://comment.link.test", "https://hyperlink.in.comment.test/", "https://hyperlink.test.de/", "https://plaintext.link.test/", "https://products.office.com/en-us/word"]);
}

#[test]
fn comments_and_body_are_never_swapped() {
    let document = archive(&[
        ("word/document.xml", &body("The body holds https://body.test.com only")),
        ("word/comments.xml", &body("The comment holds https://remark.test.com only")),
    ]);
    let links = ooxml::scrape(&document).unwrap();
    assert_eq!(links.len(), 2);
    assert_eq!(links[0].url, "https://body.test.com");
    assert_eq!(links[0].kind, OoxmlLinkKind::PlainText);
    assert_eq!(links[0].location.file, "word/document.xml");
    assert_eq!(links[1].url, "https://remark.test.com");
    assert_eq!(links[1].kind, OoxmlLinkKind::Comment);
    assert_eq!(links[1].location.file, "word/comments.xml");
    assert_eq!(links[1].to_string(), "https://remark.test.com");
}

#[test]
fn relationship_type_is_left_out() {
    let document = archive(&[("word/_rels/document.xml.rels", RELATIONSHIPS)]);
    let links = ooxml::scrape(&document).unwrap();
    let found: Vec<&str> = links.iter().map(|link| link.url.as_str()).collect();
    assert_eq!(found, vec!["https://hyperlink.test.com/"]);
    assert!(links.iter().all(|link| link.kind == OoxmlLinkKind::Hyperlink));
}

#[test]
fn markup_under_a_relationship_directory_holds_hyperlinks() {
    let document = archive(&[("word/_rels/notes.xml", &body("see https://note.test.com"))]);
    let links = ooxml::scrape(&document).unwrap();
    assert_eq!(links.len(), 1);
    assert_eq!(links[0].kind, OoxmlLinkKind::Hyperlink);
}

#[test]
fn parts_keep_the_order_of_the_container() {
    let document = archive(&[
        ("z/last.xml", &body("https://first.test.com")),
        ("a/first.xml", &body("https://second.test.com")),
        ("m/none.txt", b"https://ignored.test.com"),
        ("m/empty.xml", b""),
    ]);
    let links = ooxml::scrape(&document).unwrap();
    let found: Vec<&str> = links.iter().map(|link| link.url.as_str()).collect();
    assert_eq!(found, vec!["https://first.test.com", "https://second.test.com"]);
    let links = odf::scrape(&document).unwrap();
    let found: Vec<&str> = links.iter().map(|link| link.url.as_str()).collect();
    assert_eq!(found, vec!["https://first.test.com", "https://second.test.com"]);
    let all = container::scrape_unfiltered(&document).unwrap();
    assert_eq!(all.len(), 5);
    assert_eq!(all[4], "https://ignored.test.com");
}

#[test]
fn one_corrupted_part_fails_the_whole_container() {
    let good = archive(&[
        ("word/document.xml", &body("The body holds https://body.test.com only")),
        ("word/comments.xml", &body("The comment holds MARKER-HERE only")),
    ]);
    assert_eq!(ooxml::scrape(&good).unwrap().len(), 1);
    let bad = corrupt(good, b"MARKER-HERE");
    assert!(matches!(ooxml::scrape(&bad), Err(OoxmlScrapingError::ZipError(_))));
    assert!(matches!(odf::scrape(&bad), Err(OdfScrapingError::ZipError(_))));
    assert!(docx::extract_links(&bad).is_err());
    assert!(odt::extract_links(&bad).is_err());
}

#[test]
fn one_malformed_part_fails_the_whole_container() {
    let document = archive(&[
        ("word/document.xml", &body("The body holds https://body.test.com only")),
        ("word/comments.xml", b"<w:comments><open>https://lost.test.com</w:comments>"),
    ]);
    assert!(matches!(ooxml::scrape(&document), Err(OoxmlScrapingError::XmlReaderError(_))));
    assert!(matches!(odf::scrape(&document), Err(OdfScrapingError::XmlReaderError(_))));
    assert!(matches!(docx::extract_links(&document), Err(docx::DocxExtractionError::XmlReaderError(_))));
    assert!(matches!(odt::extract_links(&document), Err(odt::OdtExtractionError::XmlReaderError(_))));
}

#[test]
fn corrupted_part_that_is_passed_over_does_no_harm() {
    let good = archive(&[
        ("word/document.xml", &body("The body holds https://body.test.com only")),
        ("word/media/image1.bin", b"some bytes with MARKER-HERE inside"),
    ]);
    let bad = corrupt(good, b"MARKER-HERE");
    assert_eq!(ooxml::scrape(&bad).unwrap().len(), 1);
    assert_eq!(odf::scrape(&bad).unwrap().len(), 1);
    assert_eq!(ooxml::scrape_unfiltered(&bad).unwrap().len(), 2);
}

#[test]
fn bytes_that_are_no_container_are_an_error() {
    assert!(matches!(ooxml::scrape(b"this is no container"), Err(OoxmlScrapingError::ZipError(_))));
    assert!(matches!(odf::scrape(b"this is no container"), Err(OdfScrapingError::ZipError(_))));
    assert!(ooxml::scrape_unfiltered(b"this is no container").is_err());
    assert!(container::scrape_unfiltered(b"").is_err());
}

#[test]
fn plain_text_scenario() {
    let links = scrape(b"see https://example.com/x for details").unwrap();
    assert_eq!(links.len(), 1);
    match &links[0] {
        Link::StringLink(url) => assert_eq!(url, "https://example.com/x"),
        other => panic!("expected a link without structure, found {:?}", other),
    }
    assert_eq!(links[0].to_string(), "StringLink(https://example.com/x)");
}

#[test]
fn empty_input_holds_no_link() {
    assert!(scrape(b"").unwrap().is_empty());
    assert!(scrape_from_slice(&[]).unwrap().is_empty());
    assert!(matches!(sniff_step(b"", false), SniffStep::Empty));
}

#[test]
fn unrecognized_bytes_are_read_as_text() {
    let links = scrape(b"\x01\x02 binary-ish but valid text https://a.test.com and https://b.test.com").unwrap();
    assert_eq!(urls(&links), vec!["https://a.test.com", "https://b.test.com"]);
    assert!(links.iter().all(|link| matches!(link, Link::StringLink(_))));
    assert!(matches!(scrape(b"\x01\x02\xff\xfe\xfd not valid"), Err(LinkScrapingError::IoError(_))));
}

#[test]
fn markup_scenario_through_the_dispatcher() {
    let links =
        scrape(b"<a href=\"https://h.example.com\">https://t.example.com</a><!--https://c.example.com-->").unwrap();
    assert_eq!(links.len(), 3);
    let kinds: Vec<&XmlLinkType> = links
        .iter()
        .map(|link| match link {
            Link::XmlLink(link) => &link.kind,
            other => panic!("expected a markup link, found {:?}", other),
        })
        .collect();
    assert!(matches!(kinds[0], XmlLinkType::Attribute(_)));
    assert!(matches!(kinds[1], XmlLinkType::PlainText(_)));
    assert!(matches!(kinds[2], XmlLinkType::Comment));
    assert_eq!(urls(&links), vec!["https://h.example.com", "https://t.example.com", "https://c.example.com"]);
}

#[test]
fn zip_that_is_no_ooxml_is_read_as_odf() {
    let document = archive(&[
        ("notes/bad.rels", b"<Relationships><open></Relationships>"),
        ("notes/content.xml", &body("The text holds https://odf.test.com only")),
    ]);
    assert!(ooxml::scrape(&document).is_err());
    let links = scrape(&document).unwrap();
    assert_eq!(links.len(), 1);
    match &links[0] {
        Link::OdfLink(link) => {
            assert_eq!(link.url, "https://odf.test.com");
            assert_eq!(link.kind, OdfLinkKind::PlainText);
        }
        other => panic!("expected a link of the second kind, found {:?}", other),
    }
}

#[test]
fn zip_first_success_decides_even_without_links() {
    let document = archive(&[("readme.txt", b"https://ignored.test.com")]);
    assert!(scrape(&document).unwrap().is_empty());
    let both = archive(&[("data/part.xml", &body("see https://both.test.com"))]);
    let links = scrape(&both).unwrap();
    assert_eq!(links.len(), 1);
    assert!(matches!(links[0], Link::OoxmlLink(_)));
}

#[test]
fn zip_that_is_neither_kind_is_not_implemented() {
    let document = archive(&[("data/part.xml", b"<root><open></root>")]);
    match scrape(&document) {
        Err(LinkScrapingError::FileTypeNotImplemented(message)) => {
            assert_eq!(message, "Detected zip-file but the corresponding type is not supported!")
        }
        other => panic!("expected an unsupported type, found {:?}", other),
    }
}

#[test]
fn capabilities_that_are_off_are_named() {
    let mut capabilities = Capabilities::all();
    capabilities.xml = false;
    capabilities.ooxml = false;
    match scrape_with(b"<?xml version=\"1.0\"?><root/>", &capabilities) {
        Err(LinkScrapingError::FeatureNotEnabledError(message)) => assert_eq!(
            message,
            "Detected \"xml\"-file but the corresponding feature is not enabled. Please enable it in your dependencies."
        ),
        other => panic!("expected a missing feature, found {:?}", other),
    }
    assert!(matches!(scrape_with(&test_docx(), &capabilities), Err(LinkScrapingError::FeatureNotEnabledError(_))));
    let document = archive(&[("data/part.xml", &body("see https://both.test.com"))]);
    let links = scrape_with(&document, &capabilities).unwrap();
    assert!(matches!(links[0], Link::OdfLink(_)));
    capabilities.odf = false;
    match scrape_with(&document, &capabilities) {
        Err(LinkScrapingError::FeatureNotEnabledError(message)) => assert_eq!(
            message,
            "Detected zip-file but the corresponding feature is not enabled. Please enable it in your dependencies."
        ),
        other => panic!("expected a missing feature, found {:?}", other),
    }
    capabilities.svg = false;
    match scrape_from_buffer(b"<svg/>", "image/svg+xml", &capabilities) {
        Err(LinkScrapingError::FeatureNotEnabledError(message)) => assert_eq!(
            message,
            "Detected svg-file but the corresponding feature is not enabled. Please enable it in your dependencies."
        ),
        other => panic!("expected a missing feature, found {:?}", other),
    }
    match scrape(b"%PDF-1.4\n1 0 obj\n<< >>\nendobj\n") {
        Err(LinkScrapingError::FeatureNotEnabledError(message)) => assert_eq!(
            message,
            "Detected \"pdf\"-file but the corresponding feature is not enabled. Please enable it in your dependencies."
        ),
        other => panic!("expected a missing feature, found {:?}", other),
    }
}

#[test]
fn formats_without_extractor_are_named() {
    match scrape(b"GIF89a\x01\x00\x01\x00\x00\x00\x00;") {
        Err(LinkScrapingError::FileTypeNotImplemented(mime)) => assert_eq!(mime, "image/gif"),
        other => panic!("expected an unsupported type, found {:?}", other),
    }
}

#[test]
fn mime_types_are_classified() {
    assert_eq!(classify("text/plain"), FormatKind::PlainText);
    assert_eq!(classify("text/csv"), FormatKind::PlainText);
    assert_eq!(classify("application/json"), FormatKind::PlainText);
    assert_eq!(classify("application/vnd.oasis.opendocument.text"), FormatKind::Odf);
    assert_eq!(classify("application/vnd.oasis.opendocument.template"), FormatKind::Odf);
    assert_eq!(classify("application/vnd.openxmlformats-officedocument.wordprocessingml.document"), FormatKind::Ooxml);
    assert_eq!(classify("application/vnd.openxmlformats-officedocument.presentationml.slideshow"), FormatKind::Ooxml);
    assert_eq!(classify("application/zip"), FormatKind::Zip);
    assert_eq!(classify("application/pdf"), FormatKind::Pdf);
    assert_eq!(classify("application/rtf"), FormatKind::Rtf);
    assert_eq!(classify("image/svg+xml"), FormatKind::Svg);
    assert_eq!(classify("text/xml"), FormatKind::Xml);
    assert_eq!(classify("text/html"), FormatKind::Xml);
    assert_eq!(classify("image/jpeg"), FormatKind::Image);
    assert_eq!(classify("image/heif"), FormatKind::Image);
    assert_eq!(classify("image/gif"), FormatKind::Unknown);
    assert_eq!(classify(""), FormatKind::Unknown);
}

#[test]
fn text_like_formats_are_read_line_by_line() {
    let links = scrape_from_buffer(b"a,b\nc,https://csv.test.com\n", "text/csv", &Capabilities::all()).unwrap();
    assert_eq!(links.len(), 1);
    match &links[0] {
        Link::TextFileLink(link) => {
            assert_eq!(link.url, "https://csv.test.com");
            assert_eq!(link.location.line, 2);
            assert_eq!(link.location.pos, 2);
        }
        other => panic!("expected a link of a text, found {:?}", other),
    }
}

#[test]
fn sniffing_asks_for_more_once() {
    assert!(matches!(sniff_step(b"plain words", false), SniffStep::Refill));
    assert!(matches!(sniff_step(b"plain words", true), SniffStep::Fallback));
    let long = vec![b'a'; 8192];
    assert!(matches!(sniff_step(&long, false), SniffStep::Fallback));
    match sniff_step(b"%PDF-1.4", false) {
        SniffStep::Dispatch(mime) => assert_eq!(mime, "application/pdf"),
        other => panic!("expected a recognized format, found {:?}", other),
    }
}

#[test]
fn errors_of_extractors_are_passed_on() {
    let all = Capabilities::all();
    assert!(matches!(
        scrape_from_buffer(b"a,b\n\xff\xfe", "text/csv", &all),
        Err(LinkScrapingError::TextFileScrapingError(_))
    ));
    assert!(matches!(
        scrape_from_buffer(b"no container", "application/vnd.oasis.opendocument.text", &all),
        Err(LinkScrapingError::OdtScrapingError(OdfScrapingError::ZipError(_)))
    ));
    let malformed = archive(&[("word/document.xml", b"<w:document><open></w:document>")]);
    assert!(matches!(
        scrape(&malformed),
        Err(LinkScrapingError::OoxmlScrapingError(OoxmlScrapingError::XmlReaderError(_)))
    ));
    assert!(matches!(
        scrape(b"{\\rtf1 text} trailing"),
        Err(LinkScrapingError::RtfScrapingError(_))
    ));
    assert!(matches!(
        scrape(b"<?xml version=\"1.0\"?><root><open></root>"),
        Err(LinkScrapingError::XmlScrapingError(_))
    ));
    assert!(matches!(
        scrape_from_buffer(b"<svg><open></svg>", "image/svg+xml", &all),
        Err(LinkScrapingError::SvgScrapingError(_))
    ));
    assert!(matches!(
        scrape_from_buffer(b"no image", "image/png", &all),
        Err(LinkScrapingError::ImageScrapingError(_))
    ));
}
