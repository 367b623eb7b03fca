//! Links of the XML Linking Language: simple links, and extended links with their
//! locators, arcs and resources.

use crate::formats::xml::xlink::elements::{
    element_of, XlinkElement, XlinkElementView, XlinkExtendedElement, XlinkSimpleElement,
};
use crate::formats::xml::{XmlStartElement, XmlStartElementView};
use crate::helpers::{find_urls, urls_in, FoundLinkView};
use crate::markup::{
    events_of, is_malformed, markup_steps, read_events, Attribute, AttributeView, MarkupEvent,
    MarkupEventView, NameView, PositionedEvent, PositionedEventView, TextPosition,
};
use crate::text::str_eq;
use crate::views::result_view;
use vstd::prelude::*;

/// The linking elements.
pub mod elements;

verus! {

/// Why the links of a document could not be scraped.
#[derive(Debug)]
pub enum XLinkFormatError {
    /// Unknown xlink:type value.
    UnknownTypeError(String),
    /// Xlink-element is missing a required attribute.
    MissingRequiredAttributeError(String),
    /// Found a locator-element outside of an extended element.
    LocatorOutsideOfExtendedError,
    /// Found an arc-element outside of an extended element.
    ArcOutsideOfExtendedError,
    /// Found a resource-element outside of an extended element.
    ResourceOutsideOfExtendedError,
    /// Found a simple-element inside of an extended element.
    SimpleInsideOfExtendedError,
    /// Found a extended-element inside of an extended element.
    ExtendedInsideOfExtendedError,
    /// The markup is malformed; holds the reader's error.
    XmlReaderError(::xml::reader::Error),
}

/// Mathematical model of an [`XLinkFormatError`].
pub enum XLinkFormatErrorView {
    UnknownTypeError(Seq<char>),
    MissingRequiredAttributeError(Seq<char>),
    LocatorOutsideOfExtendedError,
    ArcOutsideOfExtendedError,
    ResourceOutsideOfExtendedError,
    SimpleInsideOfExtendedError,
    ExtendedInsideOfExtendedError,
    XmlReaderError,
}

impl View for XLinkFormatError {
    type V = XLinkFormatErrorView;

    open spec fn view(&self) -> XLinkFormatErrorView {
        match self {
            XLinkFormatError::UnknownTypeError(value) => XLinkFormatErrorView::UnknownTypeError(
                value@,
            ),
            XLinkFormatError::MissingRequiredAttributeError(name) => XLinkFormatErrorView::MissingRequiredAttributeError(
                name@,
            ),
            XLinkFormatError::LocatorOutsideOfExtendedError => XLinkFormatErrorView::LocatorOutsideOfExtendedError,
            XLinkFormatError::ArcOutsideOfExtendedError => XLinkFormatErrorView::ArcOutsideOfExtendedError,
            XLinkFormatError::ResourceOutsideOfExtendedError => XLinkFormatErrorView::ResourceOutsideOfExtendedError,
            XLinkFormatError::SimpleInsideOfExtendedError => XLinkFormatErrorView::SimpleInsideOfExtendedError,
            XLinkFormatError::ExtendedInsideOfExtendedError => XLinkFormatErrorView::ExtendedInsideOfExtendedError,
            XLinkFormatError::XmlReaderError(_) => XLinkFormatErrorView::XmlReaderError,
        }
    }
}

impl DeepView for XLinkFormatError {
    type V = XLinkFormatErrorView;

    open spec fn deep_view(&self) -> XLinkFormatErrorView {
        self@
    }
}

/// What a link is in the linking language.
#[derive(Clone, Copy, Debug, PartialEq, Eq, Structural)]
pub enum XLinkLinkType {
    /// The address of a simple link.
    Simple,
    /// The address of a locator.
    External,
    /// A link in a `role` attribute.
    Role,
    /// A link in an `arcrole` attribute.
    ArcRole,
}

/// A link of the linking language.
#[derive(Debug)]
pub struct XLinkLink {
    /// The link as it stands in the document.
    pub url: String,
    /// Where the reader stood when it had read the element that holds the link.
    pub location: TextPosition,
    /// What the link is.
    pub kind: XLinkLinkType,
}

/// Mathematical model of an [`XLinkLink`].
pub struct XLinkLinkView {
    pub url: Seq<char>,
    pub location: TextPosition,
    pub kind: XLinkLinkType,
}

impl View for XLinkLink {
    type V = XLinkLinkView;

    open spec fn view(&self) -> XLinkLinkView {
        XLinkLinkView { url: self.url@, location: self.location, kind: self.kind }
    }
}

impl DeepView for XLinkLink {
    type V = XLinkLinkView;

    open spec fn deep_view(&self) -> XLinkLinkView {
        self@
    }
}

/// The namespace of the linking language.
pub open spec fn xlink_namespace() -> Seq<char> {
    "http://www.w3.org/1999/xlink"@
}

/// The attribute is the linking attribute `key`.
pub open spec fn is_xlink_attribute(attribute: AttributeView, key: Seq<char>) -> bool {
    attribute.name.local_name == key && attribute.name.namespace == Some(xlink_namespace())
}

/// The value of the first among the first `n` attributes that is the linking attribute
/// `key`.
pub open spec fn xlink_value(attributes: Seq<AttributeView>, n: nat, key: Seq<char>) -> Option<Seq<char>>
    decreases n,
{
    if n == 0 {
        None
    } else {
        match xlink_value(attributes, (n - 1) as nat, key) {
            Some(value) => Some(value),
            None => if is_xlink_attribute(attributes[n - 1], key) {
                Some(attributes[n - 1].value)
            } else {
                None
            },
        }
    }
}

/// Once the attribute is found, attributes behind it change nothing.
proof fn lemma_xlink_value_stays(attributes: Seq<AttributeView>, n: nat, m: nat, key: Seq<char>)
    requires
        n <= m,
        xlink_value(attributes, n, key) is Some,
    ensures
        xlink_value(attributes, m, key) == xlink_value(attributes, n, key),
    decreases m,
{
    if n < m {
        lemma_xlink_value_stays(attributes, n, (m - 1) as nat, key);
    }
}

/// The value of the attribute `key` of the linking language, where the element has it.
pub fn get_xlink_attribute_value(key: &str, attributes: &Vec<Attribute>) -> (value: Option<String>)
    ensures
        value.deep_view() == xlink_value(attributes.deep_view(), attributes.len() as nat, key@),
{
    let mut i: usize = 0;
    while i < attributes.len()
        invariant
            i <= attributes.len(),
            xlink_value(attributes.deep_view(), i as nat, key@) is None,
        decreases attributes.len() - i,
    {
        let attribute = &attributes[i];
        assert(attributes.deep_view()[i as int] == attribute@);
        let in_namespace = match &attribute.name.namespace {
            Some(namespace) => str_eq(namespace.as_str(), "http://www.w3.org/1999/xlink"),
            None => false,
        };
        if in_namespace && str_eq(attribute.name.local_name.as_str(), key) {
            proof {
                lemma_xlink_value_stays(
                    attributes.deep_view(),
                    (i + 1) as nat,
                    attributes.len() as nat,
                    key@,
                );
            }
            return Some(attribute.value.clone());
        }
        i += 1;
    }
    None
}

/// The first `n` web addresses of a text, as links of kind `kind` at `location`.
pub open spec fn links_of_matches(
    matches: Seq<FoundLinkView>,
    n: nat,
    kind: XLinkLinkType,
    location: TextPosition,
) -> Seq<XLinkLinkView> {
    Seq::new(n, |i: int| XLinkLinkView { url: matches[i].text, location, kind })
}

/// The links in the value of an attribute that may be absent.
pub open spec fn option_links(value: Option<Seq<char>>, kind: XLinkLinkType, location: TextPosition) -> Seq<
    XLinkLinkView,
> {
    match value {
        Some(text) => links_of_matches(urls_in(text), urls_in(text).len(), kind, location),
        None => Seq::empty(),
    }
}

/// Scrapes the links from the value of an attribute that may be absent.
pub fn scrape_from_option_string(role: &Option<String>, link_type: XLinkLinkType, position: TextPosition) -> (links:
    Vec<XLinkLink>)
    ensures
        links.deep_view() == option_links(role.deep_view(), link_type, position),
{
    let mut links: Vec<XLinkLink> = Vec::new();
    let text = match role {
        Some(text) => text,
        None => {
            assert(links.deep_view() =~= Seq::empty());
            return links;
        },
    };
    let matches = find_urls(text.as_str());
    let mut i: usize = 0;
    while i < matches.len()
        invariant
            i <= matches.len(),
            links.deep_view() == links_of_matches(matches.deep_view(), i as nat, link_type, position),
        decreases matches.len() - i,
    {
        let ghost earlier = links.deep_view();
        links.push(XLinkLink { url: matches[i].text.clone(), location: position, kind: link_type });
        assert(links.deep_view() =~= earlier.push(
            XLinkLinkView { url: matches.deep_view()[i as int].text, location: position, kind: link_type },
        ));
        i += 1;
    }
    links
}

/// Moves the links of `more` behind those of `links`.
pub fn append_links(links: &mut Vec<XLinkLink>, more: Vec<XLinkLink>)
    ensures
        final(links).deep_view() == old(links).deep_view() + more.deep_view(),
{
    let mut more = more;
    let ghost moved = more.deep_view();
    links.append(&mut more);
    assert(links.deep_view() =~= old(links).deep_view() + moved);
}

/// The links of a simple link: those of its address, of its arc role and of its role.
pub open spec fn simple_links(
    href: Option<Seq<char>>,
    role: Option<Seq<char>>,
    arcrole: Option<Seq<char>>,
    location: TextPosition,
) -> Seq<XLinkLinkView> {
    option_links(href, XLinkLinkType::Simple, location) + option_links(
        arcrole,
        XLinkLinkType::ArcRole,
        location,
    ) + option_links(role, XLinkLinkType::Role, location)
}

/// Scrapes the links of a simple link that was read at `position`.
pub fn scrape_from_xlink_simple(xlink_element: &XlinkSimpleElement, position: TextPosition) -> (links: Vec<
    XLinkLink,
>)
    ensures
        links.deep_view() == simple_links(
            xlink_element.href.deep_view(),
            xlink_element.role.deep_view(),
            xlink_element.arcrole.deep_view(),
            position,
        ),
{
    let mut ret = scrape_from_option_string(&xlink_element.href, XLinkLinkType::Simple, position);
    append_links(
        &mut ret,
        scrape_from_option_string(&xlink_element.arcrole, XLinkLinkType::ArcRole, position),
    );
    append_links(&mut ret, scrape_from_option_string(&xlink_element.role, XLinkLinkType::Role, position));
    ret
}

/// The links that an element inside an extended link holds; the error where the
/// element may not stand there.
pub open spec fn inner_links(element: XlinkElementView, location: TextPosition) -> Result<
    Seq<XLinkLinkView>,
    XLinkFormatErrorView,
> {
    match element {
        XlinkElementView::Simple { .. } => Err(XLinkFormatErrorView::SimpleInsideOfExtendedError),
        XlinkElementView::Extended { .. } => Err(XLinkFormatErrorView::ExtendedInsideOfExtendedError),
        XlinkElementView::Locator { href, role } => Ok(
            seq![XLinkLinkView { url: href, location, kind: XLinkLinkType::External }] + option_links(
                role,
                XLinkLinkType::Role,
                location,
            ),
        ),
        XlinkElementView::Arc { arcrole } => Ok(option_links(arcrole, XLinkLinkType::ArcRole, location)),
        XlinkElementView::Resource { role } => Ok(option_links(role, XLinkLinkType::Role, location)),
        XlinkElementView::Title => Ok(Seq::empty()),
    }
}

/// What the walk through an extended link has come to.
pub struct Walk {
    /// The links found so far, or the first error.
    pub found: Result<Seq<XLinkLinkView>, XLinkFormatErrorView>,
    /// The index of the event at which the walk goes on.
    pub next: int,
}

/// The links inside an extended link named `name`, from the event at `from` on: those
/// of the linking elements up to the first end tag named `name`. The walk ends behind
/// that end tag, at the first error, or at the end of the document.
pub open spec fn extended_walk(events: Seq<PositionedEventView>, from: int, name: NameView) -> Walk
    decreases events.len() - from,
{
    if from < 0 || from >= events.len() {
        Walk { found: Ok(Seq::empty()), next: events.len() as int }
    } else {
        match events[from].event {
            MarkupEventView::EndElement { name: closed } => if closed == name {
                Walk { found: Ok(Seq::empty()), next: from + 1 }
            } else {
                extended_walk(events, from + 1, name)
            },
            MarkupEventView::StartElement { name: opened, attributes, namespaces } => match element_of(
                XmlStartElementView { name: opened, attributes, namespaces },
            ) {
                Err(error) => Walk { found: Err(error), next: from },
                Ok(None) => extended_walk(events, from + 1, name),
                Ok(Some(element)) => match inner_links(element, events[from].position) {
                    Err(error) => Walk { found: Err(error), next: from },
                    Ok(links) => {
                        let rest = extended_walk(events, from + 1, name);
                        match rest.found {
                            Ok(more) => Walk { found: Ok(links + more), next: rest.next },
                            Err(error) => rest,
                        }
                    },
                },
            },
            _ => extended_walk(events, from + 1, name),
        }
    }
}

/// What one start tag outside of an extended link gives: its links, and the index of
/// the event at which the document goes on. An extended link is walked through to
/// behind its end tag.
pub open spec fn start_step(events: Seq<PositionedEventView>, at: int, start: XmlStartElementView) -> Result<
    (Seq<XLinkLinkView>, int),
    XLinkFormatErrorView,
> {
    let location = events[at].position;
    match element_of(start) {
        Err(error) => Err(error),
        Ok(None) => Ok((Seq::empty(), at + 1)),
        Ok(Some(XlinkElementView::Title)) => Ok((Seq::empty(), at + 1)),
        Ok(Some(XlinkElementView::Simple { href, role, arcrole })) => Ok(
            (simple_links(href, role, arcrole, location), at + 1),
        ),
        Ok(Some(XlinkElementView::Extended { role, start: opened })) => {
            let walk = extended_walk(events, at + 1, opened.name);
            match walk.found {
                Err(error) => Err(error),
                Ok(inner) => Ok((option_links(role, XLinkLinkType::Role, location) + inner, walk.next)),
            }
        },
        Ok(Some(XlinkElementView::Locator { .. })) => Err(
            XLinkFormatErrorView::LocatorOutsideOfExtendedError,
        ),
        Ok(Some(XlinkElementView::Arc { .. })) => Err(XLinkFormatErrorView::ArcOutsideOfExtendedError),
        Ok(Some(XlinkElementView::Resource { .. })) => Err(
            XLinkFormatErrorView::ResourceOutsideOfExtendedError,
        ),
    }
}

/// The links of a document from the event at `from` on; the first error where a
/// linking element is not valid or stands where it may not.
pub open spec fn links_from(events: Seq<PositionedEventView>, from: int) -> Result<
    Seq<XLinkLinkView>,
    XLinkFormatErrorView,
>
    decreases events.len() - from,
{
    if from < 0 || from >= events.len() {
        Ok(Seq::empty())
    } else {
        match events[from].event {
            MarkupEventView::StartElement { name, attributes, namespaces } => match start_step(
                events,
                from,
                XmlStartElementView { name, attributes, namespaces },
            ) {
                Err(error) => Err(error),
                Ok((links, next)) => if from < next <= events.len() {
                    followed_by(links, links_from(events, next))
                } else {
                    Ok(links)
                },
            },
            _ => links_from(events, from + 1),
        }
    }
}

/// `rest` behind `links`, where the rest is no error.
pub open spec fn followed_by(
    links: Seq<XLinkLinkView>,
    rest: Result<Seq<XLinkLinkView>, XLinkFormatErrorView>,
) -> Result<Seq<XLinkLinkView>, XLinkFormatErrorView> {
    match rest {
        Ok(more) => Ok(links + more),
        Err(error) => Err(error),
    }
}

/// What scraping the links of the linking language from a markup document comes to.
pub open spec fn scrape_outcome(bytes: Seq<u8>) -> Result<Seq<XLinkLinkView>, XLinkFormatErrorView> {
    let steps = markup_steps(bytes, false);
    if is_malformed(steps) {
        Err(XLinkFormatErrorView::XmlReaderError)
    } else {
        links_from(events_of(steps), 0)
    }
}

/// `rest` behind `links`, where the rest of the walk is no error.
pub open spec fn walk_after(links: Seq<XLinkLinkView>, rest: Walk) -> Walk {
    match rest.found {
        Ok(more) => Walk { found: Ok(links + more), next: rest.next },
        Err(error) => rest,
    }
}

/// Scrapes the links inside an extended link. `from` is the index of the event behind
/// the start tag of the extended link, which was read at `position`. Returns the links
/// of the extended link's role and of the linking elements inside it, and the index of
/// the event behind its end tag.
pub fn scrape_from_xlink_extended(
    xlink_extended_element: &XlinkExtendedElement,
    position: TextPosition,
    events: &Vec<PositionedEvent>,
    from: usize,
) -> (res: Result<(Vec<XLinkLink>, usize), XLinkFormatError>)
    requires
        from <= events.len(),
    ensures
        match extended_walk(events.deep_view(), from as int, xlink_extended_element.xml.name@).found {
            Ok(inner) => {
                &&& res is Ok
                &&& res->Ok_0.0.deep_view() == option_links(
                    xlink_extended_element.role.deep_view(),
                    XLinkLinkType::Role,
                    position,
                ) + inner
                &&& res->Ok_0.1 == extended_walk(
                    events.deep_view(),
                    from as int,
                    xlink_extended_element.xml.name@,
                ).next
                &&& from <= res->Ok_0.1 <= events.len()
            },
            Err(error) => res is Err && res->Err_0@ == error,
        },
{
    let ghost name = xlink_extended_element.xml.name@;
    let ghost all = events.deep_view();
    let ghost role_links = option_links(
        xlink_extended_element.role.deep_view(),
        XLinkLinkType::Role,
        position,
    );
    let ghost whole = extended_walk(all, from as int, name);
    let mut ret: Vec<XLinkLink> = scrape_from_option_string(
        &xlink_extended_element.role,
        XLinkLinkType::Role,
        position,
    );
    let ghost mut inner: Seq<XLinkLinkView> = Seq::empty();
    let mut i: usize = from;
    proof {
        assert(role_links + inner =~= role_links);
        assert(whole.found is Ok ==> Seq::<XLinkLinkView>::empty() + whole.found->Ok_0
            =~= whole.found->Ok_0);
    }
    while i < events.len()
        invariant
            from <= i <= events.len(),
            all == events.deep_view(),
            name == xlink_extended_element.xml.name@,
            role_links == option_links(
                xlink_extended_element.role.deep_view(),
                XLinkLinkType::Role,
                position,
            ),
            whole == extended_walk(all, from as int, name),
            whole == walk_after(inner, extended_walk(all, i as int, name)),
            ret.deep_view() == role_links + inner,
        decreases events.len() - i,
    {
        let ghost rest = extended_walk(all, (i + 1) as int, name);
        assert(all[i as int] == events[i as int]@);
        match &events[i].event {
            MarkupEvent::EndElement { name: closed } => {
                if closed.same_as(xlink_extended_element.xml.name) {
                    proof {
                        assert(inner + Seq::<XLinkLinkView>::empty() =~= inner);
                        assert(all[i as int].event == MarkupEventView::EndElement { name: closed@ });
                        assert(extended_walk(all, i as int, name) == Walk {
                            found: Ok(Seq::empty()),
                            next: i + 1,
                        });
                    }
                    return Ok((ret, i + 1));
                }
            },
            MarkupEvent::StartElement { name: opened, attributes, namespaces } => {
                let start = XmlStartElement { name: opened, attributes, namespaces };
                let at = events[i].position;
                let element = match XlinkElement::try_from_xml_start_element(start) {
                    Ok(element) => element,
                    Err(error) => {
                        return Err(error);
                    },
                };
                if let Some(xlink_element) = element {
                    let ghost here = inner_links(xlink_element@, at);
                    let links = match xlink_element {
                        XlinkElement::Simple(_) => {
                            return Err(XLinkFormatError::SimpleInsideOfExtendedError);
                        },
                        XlinkElement::Extended(_) => {
                            return Err(XLinkFormatError::ExtendedInsideOfExtendedError);
                        },
                        XlinkElement::Locator(element) => {
                            let mut locator_links: Vec<XLinkLink> = Vec::new();
                            locator_links.push(
                                XLinkLink {
                                    url: element.href,
                                    location: at,
                                    kind: XLinkLinkType::External,
                                },
                            );
                            assert(locator_links.deep_view() =~= seq![
                                XLinkLinkView {
                                    url: element.href@,
                                    location: at,
                                    kind: XLinkLinkType::External,
                                },
                            ]);
                            append_links(
                                &mut locator_links,
                                scrape_from_option_string(&element.role, XLinkLinkType::Role, at),
                            );
                            locator_links
                        },
                        XlinkElement::Arc(element) => scrape_from_option_string(
                            &element.arcrole,
                            XLinkLinkType::ArcRole,
                            at,
                        ),
                        XlinkElement::Resource(element) => scrape_from_option_string(
                            &element.role,
                            XLinkLinkType::Role,
                            at,
                        ),
                        XlinkElement::Title(_) => {
                            let none: Vec<XLinkLink> = Vec::new();
                            assert(none.deep_view() =~= Seq::empty());
                            none
                        },
                    };
                    proof {
                        let found = here->Ok_0;
                        assert(links.deep_view() == found);
                        assert(role_links + (inner + found) =~= (role_links + inner) + found);
                        if let Ok(more) = rest.found {
                            assert(inner + (found + more) =~= (inner + found) + more);
                        }
                        inner = inner + found;
                    }
                    append_links(&mut ret, links);
                }
            },
            _ => {},
        }
        i += 1;
    }
    proof {
        assert(inner + Seq::<XLinkLinkView>::empty() =~= inner);
    }
    Ok((ret, i))
}

/// Scrapes the links of the element whose start tag is the event at `at`, outside of
/// an extended link. Returns its links and the index of the event at which the
/// document goes on.
pub fn scrape_from_start_element(
    xml_start_element: XmlStartElement,
    events: &Vec<PositionedEvent>,
    at: usize,
) -> (res: Result<(Vec<XLinkLink>, usize), XLinkFormatError>)
    requires
        at < events.len(),
    ensures
        match start_step(events.deep_view(), at as int, xml_start_element@) {
            Ok((links, next)) => {
                &&& res is Ok
                &&& res->Ok_0.0.deep_view() == links
                &&& res->Ok_0.1 == next
                &&& at < next <= events.len()
            },
            Err(error) => res is Err && res->Err_0@ == error,
        },
{
    let position = events[at].position;
    assert(events.deep_view()[at as int] == events[at as int]@);
    let element = match XlinkElement::try_from_xml_start_element(xml_start_element) {
        Ok(element) => element,
        Err(error) => {
            return Err(error);
        },
    };
    let xlink_element = match element {
        Some(xlink_element) => xlink_element,
        None => {
            let none: Vec<XLinkLink> = Vec::new();
            assert(none.deep_view() =~= Seq::empty());
            return Ok((none, at + 1));
        },
    };
    match xlink_element {
        XlinkElement::Simple(element) => Ok((scrape_from_xlink_simple(&element, position), at + 1)),
        XlinkElement::Extended(element) => scrape_from_xlink_extended(
            &element,
            position,
            events,
            at + 1,
        ),
        XlinkElement::Locator(_) => Err(XLinkFormatError::LocatorOutsideOfExtendedError),
        XlinkElement::Arc(_) => Err(XLinkFormatError::ArcOutsideOfExtendedError),
        XlinkElement::Resource(_) => Err(XLinkFormatError::ResourceOutsideOfExtendedError),
        XlinkElement::Title(_) => {
            let none: Vec<XLinkLink> = Vec::new();
            assert(none.deep_view() =~= Seq::empty());
            Ok((none, at + 1))
        },
    }
}

/// Scrapes the links of the linking language from the events of a document.
pub fn scrape_from_events(events: &Vec<PositionedEvent>) -> (res: Result<Vec<XLinkLink>, XLinkFormatError>)
    ensures
        result_view(res) == links_from(events.deep_view(), 0),
{
    let ghost all = events.deep_view();
    let mut collector: Vec<XLinkLink> = Vec::new();
    let mut i: usize = 0;
    proof {
        assert(collector.deep_view() =~= Seq::empty());
        assert(links_from(all, 0) is Ok ==> Seq::<XLinkLinkView>::empty() + links_from(all, 0)->Ok_0
            =~= links_from(all, 0)->Ok_0);
    }
    while i < events.len()
        invariant
            i <= events.len(),
            all == events.deep_view(),
            links_from(all, 0) == followed_by(collector.deep_view(), links_from(all, i as int)),
        decreases events.len() - i,
    {
        assert(all[i as int] == events[i as int]@);
        let ghost earlier = collector.deep_view();
        match &events[i].event {
            MarkupEvent::StartElement { name, attributes, namespaces } => {
                let start = XmlStartElement { name, attributes, namespaces };
                let (list, next) = match scrape_from_start_element(start, events, i) {
                    Ok(step) => step,
                    Err(error) => {
                        return Err(error);
                    },
                };
                proof {
                    let found = list.deep_view();
                    if let Ok(more) = links_from(all, next as int) {
                        assert(earlier + (found + more) =~= (earlier + found) + more);
                    }
                }
                append_links(&mut collector, list);
                i = next;
            },
            _ => {
                i += 1;
            },
        }
    }
    proof {
        assert(collector.deep_view() + Seq::<XLinkLinkView>::empty() =~= collector.deep_view());
    }
    Ok(collector)
}

/// Scrapes the links of the XML Linking Language from a markup document. A malformed
/// document gives the reader's error; a linking element that is not valid, or that
/// stands where it may not, gives an error that says so.
pub fn scrape(bytes: &[u8]) -> (res: Result<Vec<XLinkLink>, XLinkFormatError>)
    ensures
        result_view(res) == scrape_outcome(bytes@),
{
    match read_events(bytes, false) {
        Ok(events) => scrape_from_events(&events),
        Err(error) => Err(XLinkFormatError::XmlReaderError(error)),
    }
}

} // verus!
