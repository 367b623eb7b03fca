use link_scraper::formats::plaintext;
use link_scraper::formats::text_file;
use link_scraper::formats::xlink;
use link_scraper::formats::xml::svg::{self, SvgLinkKind};
use link_scraper::formats::xml::xlink::{self as xml_xlink, XLinkFormatError, XLinkLinkType};
use link_scraper::formats::xml::{self, XmlLinkType, XmlScrapingError};
use link_scraper::markup::{
    read_events, Attribute, MarkupEvent, Name, NamespaceBinding, PositionedEvent, TextPosition,
};

const TEST_XML: &[u8] = b"<?xml version=\"1.0\" encoding=\"UTF-8\"?>
<root xmlns:ns=\"https://ns.test.com\">
    <!-- A comment with https://comment.test.com inside -->
    <ns:item link=\"https://attribute.test.com\">Some text with https://plaintext.test.com inside</ns:item>
    <script><![CDATA[ var link = \"https://cdata.test.com\"; ]]></script>
</root>
";

const TEST_XLINK: &[u8] = b"<?xml version=\"1.0\" encoding=\"UTF-8\"?>
<root xmlns:xlink=\"http://www.w3.org/1999/xlink\">
    <!-- see https://comment.test.com -->
    <link xlink:type=\"simple\" xlink:href=\"https://simple.test.com\" xlink:role=\"https://role.test.com\">https://plaintext.test.com</link>
    <script><![CDATA[ var link = \"https://cdata.test.com\"; ]]></script>
</root>
";

const PLACEHOLDER_XML: &[u8] = b"<?xml version=\"1.0\" encoding=\"UTF-8\"?>
<root xmlns=\"http://www.placeholder-name-here.com/schema/\">
    <child>Some text without any link</child>
</root>
";

const TEST_SVG: &[u8] = b"<?xml version=\"1.0\" encoding=\"UTF-8\"?>
<svg xmlns=\"http://www.w3.org/2000/svg\" width=\"10\" height=\"10\">
    <script type=\"text/ecmascript\"><![CDATA[
        var scriptLink = \"https://cdata.test.com/insideACodeSnippet\";
    ]]></script>
    <text x=\"0\" y=\"5\">Visit https://text.test.com now</text>
</svg>
";

const SCENARIO_XML: &[u8] =
    b"<a href=\"https://h.example.com\">https://t.example.com</a><!--https://c.example.com-->";

fn name(local_name: &str) -> Name {
    Name::new(local_name.to_string(), None, None)
}

fn xlink_attribute(local_name: &str, value: &str) -> Attribute {
    Attribute::new(
        local_name.to_string(),
        Some("http://www.w3.org/1999/xlink".to_string()),
        Some("xlink".to_string()),
        value.to_string(),
    )
}

fn start(local_name: &str, attributes: Vec<Attribute>, row: u64) -> PositionedEvent {
    PositionedEvent {
        event: MarkupEvent::start_element(name(local_name), attributes, Vec::new()),
        position: TextPosition::new(row, 0),
    }
}

fn end(local_name: &str, row: u64) -> PositionedEvent {
    PositionedEvent {
        event: MarkupEvent::end_element(name(local_name)),
        position: TextPosition::new(row, 0),
    }
}

#[test]
fn scrape_test() {
    let links = plaintext::scrape(TEST_XML).unwrap();
    println!("{:?}", links);
    assert!(links.iter().any(|it| it.url == "https://attribute.test.com"));
    assert!(links.iter().any(|it| it.url == "https://plaintext.test.com"));
    assert!(links.iter().any(|it| it.url == "https://comment.test.com"));
    assert!(links.iter().any(|it| it.url == "https://cdata.test.com"));
    assert!(links.iter().any(|it| it.url == "https://ns.test.com"));
}

#[test]
fn scrape_text_file_test() {
    let links = text_file::scrape(PLACEHOLDER_XML).unwrap();
    println!("{:?}", links);
    assert_eq!(links.len(), 1)
}

#[test]
fn scrape_text_file_from_file_test() {
    let contents: Vec<u8> = PLACEHOLDER_XML.to_vec();
    let links = text_file::scrape(&contents).unwrap();
    println!("{:?}", links);
    assert_eq!(links.len(), 1)
}

#[test]
fn xml_get_some_website() {
    let links = xml::extract_links(PLACEHOLDER_XML).unwrap();
    assert_eq!(links, vec!["http://www.placeholder-name-here.com/schema/"])
}

#[test]
fn scrape_hrefs_test() {
    let links = xml::scrape_from_href_tags(TEST_XLINK).unwrap();
    println!("{:?}", links);
    assert_eq!(1, links.len())
}

#[test]
fn scrape_all_test() {
    let links = xml::scrape(TEST_XLINK).unwrap();
    println!("{:?}", links);
    assert_eq!(6, links.len())
}

#[test]
fn scrape_svg_test() {
    let links = svg::scrape(TEST_SVG).unwrap();
    println!("{:?}", links);
    assert!(links
        .iter()
        .any(|it| it.url == "https://cdata.test.com/insideACodeSnippet"
            && matches!(it.kind, SvgLinkKind::Script)));
    assert!(links
        .iter()
        .any(|it| it.url == "http://www.w3.org/2000/svg" && matches!(it.kind, SvgLinkKind::NameSpace(_))));
}

#[test]
fn scrape_xlink_test() {
    let links = xml_xlink::scrape(TEST_XLINK).unwrap();
    println!("{:?}", links);
    assert_eq!(2, links.len())
}

#[test]
fn extract_lots_of_links_from_xlink() {
    let links = xlink::extract_links(TEST_XLINK).unwrap();
    println!("{:?}", links);
    assert_eq!(2, links.len())
}

#[test]
fn markup_scenario_yields_three_kinds() {
    let links = xml::scrape(SCENARIO_XML).unwrap();
    println!("{:?}", links);
    assert_eq!(links.len(), 3);
    assert_eq!(links[0].url, "https://h.example.com");
    match &links[0].kind {
        XmlLinkType::Attribute(attribute) => {
            assert_eq!(attribute.name.local_name, "href");
            assert_eq!(attribute.value, "https://h.example.com");
        }
        other => panic!("expected an attribute, found {:?}", other),
    }
    assert_eq!(links[1].url, "https://t.example.com");
    match &links[1].kind {
        XmlLinkType::PlainText(parent) => {
            assert_eq!(parent.parent_tag_name.as_ref().unwrap().local_name, "a");
        }
        other => panic!("expected plain text, found {:?}", other),
    }
    assert_eq!(links[2].url, "https://c.example.com");
    assert!(matches!(links[2].kind, XmlLinkType::Comment));
}

#[test]
fn markup_positions_never_go_back() {
    let links = xml::scrape(TEST_XML).unwrap();
    let located: Vec<_> = links
        .iter()
        .filter(|link| !matches!(link.kind, XmlLinkType::NameSpace(_)))
        .collect();
    assert!(located.len() >= 4);
    for pair in located.windows(2) {
        let (a, b) = (pair[0].location, pair[1].location);
        assert!(a.row < b.row || (a.row == b.row && a.column <= b.column));
    }
}

#[test]
fn namespace_repeated_on_many_elements_is_reported_once() {
    let mut document = String::from("<?xml version=\"1.0\"?><root xmlns:n=\"https://ns.test.com/one\">");
    for _ in 0..25 {
        document.push_str("<n:item xmlns:n=\"https://ns.test.com/one\">text</n:item>");
    }
    document.push_str("</root>");
    let links = xml::scrape(document.as_bytes()).unwrap();
    let namespaces: Vec<_> = links
        .iter()
        .filter(|link| matches!(&link.kind, XmlLinkType::NameSpace(prefix) if prefix == "n"))
        .collect();
    assert_eq!(namespaces.len(), 1);
    assert_eq!(namespaces[0].url, "https://ns.test.com/one");
    assert_eq!(links.len(), 1);
}

#[test]
fn namespace_without_web_address_is_left_out() {
    let links = xml::scrape(b"<?xml version=\"1.0\"?><root xmlns:u=\"urn:example:thing\"/>").unwrap();
    assert!(links.is_empty());
}

#[test]
fn embedded_data_names_its_parent() {
    let links = xml::scrape(TEST_XML).unwrap();
    let cdata = links.iter().find(|link| link.url == "https://cdata.test.com").unwrap();
    match &cdata.kind {
        XmlLinkType::CData(parent) => {
            assert_eq!(parent.parent_tag_name.as_ref().unwrap().local_name, "script");
        }
        other => panic!("expected embedded data, found {:?}", other),
    }
    let namespace = links.iter().find(|link| link.url == "https://ns.test.com").unwrap();
    assert!(matches!(&namespace.kind, XmlLinkType::NameSpace(prefix) if prefix == "ns"));
    assert_eq!(links.last().unwrap().url, "https://ns.test.com");
}

#[test]
fn malformed_markup_is_an_error() {
    let result = xml::scrape(b"<root><open>https://lost.test.com</root>");
    assert!(matches!(result, Err(XmlScrapingError::XmlReaderError(_))));
    assert!(xml::scrape_from_href_tags(b"<root href=\"https://a.test.com\">").is_err());
    assert!(matches!(
        xml_xlink::scrape(b"<root><open></root>"),
        Err(XLinkFormatError::XmlReaderError(_))
    ));
    assert!(svg::scrape(b"<svg>").is_err());
}

#[test]
fn reader_reports_comments_on_request_only() {
    let with = read_events(SCENARIO_XML, false).unwrap();
    let without = read_events(SCENARIO_XML, true).unwrap();
    assert!(with.iter().any(|it| matches!(it.event, MarkupEvent::Comment(_))));
    assert!(!without.iter().any(|it| matches!(it.event, MarkupEvent::Comment(_))));
    assert!(matches!(with[1].event, MarkupEvent::StartElement { .. }));
    match &with[1].event {
        MarkupEvent::StartElement { name, attributes, namespaces } => {
            assert_eq!(name.local_name, "a");
            assert_eq!(attributes.len(), 1);
            assert_eq!(attributes[0].value, "https://h.example.com");
            assert!(namespaces.iter().any(|binding| binding.prefix == "xml"));
        }
        _ => unreachable!(),
    }
    assert!(read_events(b"<a>", false).is_err());
}

#[test]
fn scrape_from_events_takes_hand_made_events() {
    let events = vec![
        PositionedEvent {
            event: MarkupEvent::start_element(
                name("p"),
                vec![Attribute::new("cite".to_string(), None, None, "https://a.test.com".to_string())],
                vec![NamespaceBinding::from_pair(("x".to_string(), "https://x.test.com".to_string()))],
            ),
            position: TextPosition::new(3, 7),
        },
        PositionedEvent {
            event: MarkupEvent::Characters("go to https://b.test.com".to_string()),
            position: TextPosition::new(3, 30),
        },
    ];
    let links = xml::scrape_from_events(&events);
    assert_eq!(links.len(), 3);
    assert_eq!(links[0].url, "https://a.test.com");
    assert_eq!(links[0].location, TextPosition::new(3, 7));
    assert_eq!(links[1].url, "https://b.test.com");
    assert_eq!(links[1].location, TextPosition::new(3, 30));
    assert_eq!(links[2].url, "https://x.test.com");
    assert_eq!(links[2].location, TextPosition::new(3, 7));
    assert_eq!(links[1].to_string(), "https://b.test.com");
}

#[test]
fn plain_text_reports_line_and_offset() {
    let links = plaintext::scrape(b"first line\nsee https://example.com/x for details\n\nhttps://last.test.com").unwrap();
    assert_eq!(links.len(), 2);
    assert_eq!(links[0].url, "https://example.com/x");
    assert_eq!(links[0].location.line, 2);
    assert_eq!(links[0].location.pos, 4);
    assert_eq!(links[1].url, "https://last.test.com");
    assert_eq!(links[1].location.line, 4);
    assert_eq!(links[1].location.pos, 0);
    assert!(plaintext::scrape(b"").unwrap().is_empty());
    assert!(plaintext::scrape(b"ok https://a.test.com\n\xff\xfe broken").is_err());
}

#[test]
fn xlink_extended_link_collects_its_children() {
    let events = vec![
        start("links", vec![xlink_attribute("type", "extended"), xlink_attribute("role", "https://role.test.com")], 1),
        start("loc", vec![xlink_attribute("type", "locator"), xlink_attribute("href", "target.xml")], 2),
        end("loc", 2),
        start("go", vec![xlink_attribute("type", "arc"), xlink_attribute("arcrole", "https://arc.test.com")], 3),
        end("go", 3),
        start("plain", vec![], 4),
        end("plain", 4),
        end("links", 5),
        start("after", vec![xlink_attribute("href", "https://after.test.com")], 6),
        end("after", 6),
    ];
    let links = xml_xlink::scrape_from_events(&events).unwrap();
    let found: Vec<(&str, XLinkLinkType, u64)> =
        links.iter().map(|link| (link.url.as_str(), link.kind, link.location.row)).collect();
    assert_eq!(
        found,
        vec![
            ("https://role.test.com", XLinkLinkType::Role, 1),
            ("target.xml", XLinkLinkType::External, 2),
            ("https://arc.test.com", XLinkLinkType::ArcRole, 3),
            ("https://after.test.com", XLinkLinkType::Simple, 6),
        ]
    );
}

#[test]
fn xlink_errors_name_what_is_wrong() {
    let locator = vec![start("loc", vec![xlink_attribute("type", "locator"), xlink_attribute("href", "x")], 1)];
    assert!(matches!(
        xml_xlink::scrape_from_events(&locator),
        Err(XLinkFormatError::LocatorOutsideOfExtendedError)
    ));
    let arc = vec![start("arc", vec![xlink_attribute("type", "arc")], 1)];
    assert!(matches!(xml_xlink::scrape_from_events(&arc), Err(XLinkFormatError::ArcOutsideOfExtendedError)));
    let resource = vec![start("res", vec![xlink_attribute("type", "resource")], 1)];
    assert!(matches!(
        xml_xlink::scrape_from_events(&resource),
        Err(XLinkFormatError::ResourceOutsideOfExtendedError)
    ));
    let unknown = vec![start("odd", vec![xlink_attribute("type", "strange")], 1)];
    match xml_xlink::scrape_from_events(&unknown) {
        Err(XLinkFormatError::UnknownTypeError(value)) => assert_eq!(value, "strange"),
        other => panic!("expected an unknown type, found {:?}", other),
    }
    let simple_inside = vec![
        start("links", vec![xlink_attribute("type", "extended")], 1),
        start("inner", vec![xlink_attribute("type", "simple")], 2),
    ];
    assert!(matches!(
        xml_xlink::scrape_from_events(&simple_inside),
        Err(XLinkFormatError::SimpleInsideOfExtendedError)
    ));
    let extended_inside = vec![
        start("links", vec![xlink_attribute("type", "extended")], 1),
        start("inner", vec![xlink_attribute("type", "extended")], 2),
    ];
    assert!(matches!(
        xml_xlink::scrape_from_events(&extended_inside),
        Err(XLinkFormatError::ExtendedInsideOfExtendedError)
    ));
    let no_href = vec![
        start("links", vec![xlink_attribute("type", "extended")], 1),
        start("loc", vec![xlink_attribute("type", "locator")], 2),
    ];
    match xml_xlink::scrape_from_events(&no_href) {
        Err(XLinkFormatError::MissingRequiredAttributeError(attribute)) => assert_eq!(attribute, "href"),
        other => panic!("expected a missing attribute, found {:?}", other),
    }
    let title = vec![start("t", vec![xlink_attribute("type", "title")], 1), end("t", 1)];
    assert!(xml_xlink::scrape_from_events(&title).unwrap().is_empty());
}

#[test]
fn links_carry_the_position_of_their_event() {
    let links = xml::scrape(TEST_XML).unwrap();
    let found: Vec<(&str, u64, u64)> =
        links.iter().map(|link| (link.url.as_str(), link.location.row, link.location.column)).collect();
    assert_eq!(
        found,
        vec![
            ("https://comment.test.com", 2, 4),
            ("https://attribute.test.com", 3, 4),
            ("https://plaintext.test.com", 3, 47),
            ("https://cdata.test.com", 4, 12),
            ("https://ns.test.com", 1, 0),
        ]
    );
}

#[test]
fn plain_text_scenario_is_on_line_one() {
    let links = plaintext::scrape(b"see https://example.com/x for details").unwrap();
    assert_eq!(links.len(), 1);
    assert_eq!(links[0].url, "https://example.com/x");
    assert_eq!(links[0].location.line, 1);
    assert_eq!(links[0].location.pos, 4);
    assert_eq!(links[0].to_string(), "https://example.com/x");
}

#[test]
fn markup_text_that_is_no_text_is_an_error() {
    assert!(matches!(xml::extract_links(b"<a>\xff\xfe</a>"), Err(xml::XmlExtractionError::IoError(_))));
    assert_eq!(
        xml::extract_links(b"<a href=\"https://a.test.com\">https://b.test.com</a>").unwrap(),
        vec!["https://a.test.com", "https://b.test.com"]
    );
}

#[test]
fn xlink_get_some_website() {
    let links = xlink::extract_links(
        b"<?xml version=\"1.0\"?><root xmlns:xlink=\"http://www.w3.org/1999/xlink\" xlink:href=\"http://www.placeholder-name-here.com/schema/\"/>",
    )
    .unwrap();
    let links: Vec<&str> = links.iter().map(|link| link.url.as_str()).collect();
    assert_eq!(links, vec!["http://www.placeholder-name-here.com/schema/"])
}
