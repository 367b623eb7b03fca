//! Links in markup documents, classified by the structure they were found in.

use crate::helpers::{find_urls, urls_in, FoundLinkView};
use crate::markup::{
    events_of, is_malformed, markup_steps, read_events, Attribute, AttributeView, MarkupEvent,
    MarkupEventView, Name, NameView, NamespaceBinding, NamespaceBindingView, PositionedEvent,
    PositionedEventView, TextPosition,
};
use crate::text::{decode, str_eq};
use crate::views::result_view;
use vstd::prelude::*;
use vstd::utf8::{decode_utf8, valid_utf8};

/// Vector graphics.
pub mod svg;
/// The XML Linking Language.
pub mod xlink;

verus! {

/// Why a markup document could not be scraped.
#[derive(Debug)]
pub enum XmlScrapingError {
    /// The markup is malformed; holds the reader's error.
    XmlReaderError(::xml::reader::Error),
}

/// Mathematical model of an [`XmlScrapingError`]: which error it is.
pub enum XmlScrapingErrorView {
    XmlReaderError,
}

impl View for XmlScrapingError {
    type V = XmlScrapingErrorView;

    open spec fn view(&self) -> XmlScrapingErrorView {
        match self {
            XmlScrapingError::XmlReaderError(_) => XmlScrapingErrorView::XmlReaderError,
        }
    }
}

impl DeepView for XmlScrapingError {
    type V = XmlScrapingErrorView;

    open spec fn deep_view(&self) -> XmlScrapingErrorView {
        self@
    }
}

/// The element that encloses a piece of text.
#[derive(Debug)]
pub struct ParentInformation {
    /// The name of the element opened last before the text; `None` before the first
    /// element.
    pub parent_tag_name: Option<Name>,
}

/// Mathematical model of a [`ParentInformation`].
pub struct ParentInformationView {
    pub parent_tag_name: Option<NameView>,
}

impl View for ParentInformation {
    type V = ParentInformationView;

    open spec fn view(&self) -> ParentInformationView {
        ParentInformationView { parent_tag_name: self.parent_tag_name.deep_view() }
    }
}

impl DeepView for ParentInformation {
    type V = ParentInformationView;

    open spec fn deep_view(&self) -> ParentInformationView {
        self@
    }
}

/// A copy of a name that may be absent.
pub fn clone_optional_name(name: &Option<Name>) -> (copy: Option<Name>)
    ensures
        copy == *name,
{
    match name {
        Some(present) => Some(present.clone()),
        None => None,
    }
}

impl Clone for ParentInformation {
    fn clone(&self) -> (copy: ParentInformation)
        ensures
            copy == *self,
    {
        ParentInformation { parent_tag_name: clone_optional_name(&self.parent_tag_name) }
    }
}

/// Where in the structure of a markup document a link was found.
#[derive(Debug)]
pub enum XmlLinkType {
    /// The link is inside the value of an attribute, as in
    /// `<a href="https://link.example.com">`.
    Attribute(Attribute),
    /// The link is inside a comment.
    Comment,
    /// The link is inside character data.
    PlainText(ParentInformation),
    /// The link is inside an embedded-data block.
    CData(ParentInformation),
    /// The link is the URI of a namespace; holds the prefix bound to it.
    NameSpace(String),
}

/// Mathematical model of an [`XmlLinkType`].
pub enum XmlLinkTypeView {
    Attribute(AttributeView),
    Comment,
    PlainText(ParentInformationView),
    CData(ParentInformationView),
    NameSpace(Seq<char>),
}

impl View for XmlLinkType {
    type V = XmlLinkTypeView;

    open spec fn view(&self) -> XmlLinkTypeView {
        match self {
            XmlLinkType::Attribute(attribute) => XmlLinkTypeView::Attribute(attribute@),
            XmlLinkType::Comment => XmlLinkTypeView::Comment,
            XmlLinkType::PlainText(parent) => XmlLinkTypeView::PlainText(parent@),
            XmlLinkType::CData(parent) => XmlLinkTypeView::CData(parent@),
            XmlLinkType::NameSpace(prefix) => XmlLinkTypeView::NameSpace(prefix@),
        }
    }
}

impl DeepView for XmlLinkType {
    type V = XmlLinkTypeView;

    open spec fn deep_view(&self) -> XmlLinkTypeView {
        self@
    }
}

impl Clone for XmlLinkType {
    fn clone(&self) -> (copy: XmlLinkType)
        ensures
            copy == *self,
    {
        match self {
            XmlLinkType::Attribute(attribute) => XmlLinkType::Attribute(attribute.clone()),
            XmlLinkType::Comment => XmlLinkType::Comment,
            XmlLinkType::PlainText(parent) => XmlLinkType::PlainText(parent.clone()),
            XmlLinkType::CData(parent) => XmlLinkType::CData(parent.clone()),
            XmlLinkType::NameSpace(prefix) => XmlLinkType::NameSpace(prefix.clone()),
        }
    }
}

/// A link found in a markup document.
#[derive(Debug)]
pub struct XmlLink {
    /// The link as it stands in the document.
    pub url: String,
    /// Where the reader stood when it had read what holds the link.
    pub location: TextPosition,
    /// In what the link was found.
    pub kind: XmlLinkType,
}

/// Mathematical model of an [`XmlLink`].
pub struct XmlLinkView {
    pub url: Seq<char>,
    pub location: TextPosition,
    pub kind: XmlLinkTypeView,
}

impl View for XmlLink {
    type V = XmlLinkView;

    open spec fn view(&self) -> XmlLinkView {
        XmlLinkView { url: self.url@, location: self.location, kind: self.kind@ }
    }
}

impl DeepView for XmlLink {
    type V = XmlLinkView;

    open spec fn deep_view(&self) -> XmlLinkView {
        self@
    }
}

impl Clone for XmlLink {
    fn clone(&self) -> (copy: XmlLink)
        ensures
            copy == *self,
    {
        XmlLink { url: self.url.clone(), location: self.location, kind: self.kind.clone() }
    }
}

impl XmlLink {
    /// The link as text: its URL.
    pub fn to_string(&self) -> (text: String)
        ensures
            text@ == self.url@,
    {
        self.url.clone()
    }
}

/// The opening tag of an element: what the start-element event holds.
pub struct XmlStartElement<'a> {
    pub name: &'a Name,
    pub attributes: &'a Vec<Attribute>,
    pub namespaces: &'a Vec<NamespaceBinding>,
}

/// Mathematical model of an [`XmlStartElement`].
pub struct XmlStartElementView {
    pub name: NameView,
    pub attributes: Seq<AttributeView>,
    pub namespaces: Seq<NamespaceBindingView>,
}

impl<'a> View for XmlStartElement<'a> {
    type V = XmlStartElementView;

    open spec fn view(&self) -> XmlStartElementView {
        XmlStartElementView {
            name: self.name@,
            attributes: self.attributes.deep_view(),
            namespaces: self.namespaces.deep_view(),
        }
    }
}

/// The first `n` web addresses found in a text, each as a link of kind `kind` at
/// `location`.
pub open spec fn links_of_matches(
    matches: Seq<FoundLinkView>,
    n: nat,
    location: TextPosition,
    kind: XmlLinkTypeView,
) -> Seq<XmlLinkView> {
    Seq::new(n, |i: int| XmlLinkView { url: matches[i].text, location, kind })
}

/// The web addresses in `text`, each as a link of kind `kind` at `location`.
pub open spec fn links_in_text(text: Seq<char>, location: TextPosition, kind: XmlLinkTypeView) -> Seq<
    XmlLinkView,
> {
    links_of_matches(urls_in(text), urls_in(text).len(), location, kind)
}

/// The links in the values of the first `n` attributes of an element read at `location`.
pub open spec fn attribute_links(attributes: Seq<AttributeView>, n: nat, location: TextPosition) -> Seq<
    XmlLinkView,
>
    decreases n,
{
    if n == 0 {
        Seq::empty()
    } else {
        attribute_links(attributes, (n - 1) as nat, location) + links_in_text(
            attributes[n - 1].value,
            location,
            XmlLinkTypeView::Attribute(attributes[n - 1]),
        )
    }
}

/// The name of the element opened last among the first `n` events.
pub open spec fn parent_before(events: Seq<PositionedEventView>, n: nat) -> Option<NameView>
    decreases n,
{
    if n == 0 {
        None
    } else {
        match events[n - 1].event {
            MarkupEventView::StartElement { name, .. } => Some(name),
            _ => parent_before(events, (n - 1) as nat),
        }
    }
}

/// The links that one event holds. `parent` is the element opened last before it.
pub open spec fn links_of_event(event: PositionedEventView, parent: Option<NameView>) -> Seq<
    XmlLinkView,
> {
    match event.event {
        MarkupEventView::StartElement { attributes, .. } => attribute_links(
            attributes,
            attributes.len(),
            event.position,
        ),
        MarkupEventView::Comment(text) => links_in_text(
            text,
            event.position,
            XmlLinkTypeView::Comment,
        ),
        MarkupEventView::Characters(text) => links_in_text(
            text,
            event.position,
            XmlLinkTypeView::PlainText(ParentInformationView { parent_tag_name: parent }),
        ),
        MarkupEventView::CData(text) => links_in_text(
            text,
            event.position,
            XmlLinkTypeView::CData(ParentInformationView { parent_tag_name: parent }),
        ),
        _ => Seq::empty(),
    }
}

/// The links that the first `n` events hold, in the order of the events.
pub open spec fn event_links(events: Seq<PositionedEventView>, n: nat) -> Seq<XmlLinkView>
    decreases n,
{
    if n == 0 {
        Seq::empty()
    } else {
        event_links(events, (n - 1) as nat) + links_of_event(
            events[n - 1],
            parent_before(events, (n - 1) as nat),
        )
    }
}

/// The links of a text, each of kind `kind` at `location`.
pub fn scrape_from_text(text: &str, location: TextPosition, kind: &XmlLinkType) -> (links: Vec<XmlLink>)
    ensures
        links.deep_view() == links_in_text(text@, location, kind@),
{
    let matches = find_urls(text);
    let mut links: Vec<XmlLink> = Vec::new();
    let mut i: usize = 0;
    while i < matches.len()
        invariant
            i <= matches.len(),
            links.deep_view() == links_of_matches(matches.deep_view(), i as nat, location, kind@),
        decreases matches.len() - i,
    {
        let ghost earlier = links.deep_view();
        let link = XmlLink { url: matches[i].text.clone(), location, kind: kind.clone() };
        let ghost pushed = link@;
        links.push(link);
        proof {
            assert(pushed == XmlLinkView {
                url: matches.deep_view()[i as int].text,
                location,
                kind: kind@,
            });
            assert(links.deep_view() =~= earlier.push(pushed));
            assert(links.deep_view() =~= links_of_matches(
                matches.deep_view(),
                (i + 1) as nat,
                location,
                kind@,
            ));
        }
        i += 1;
    }
    links
}

/// Moves the links of `more` behind those of `links`.
pub fn append_links(links: &mut Vec<XmlLink>, more: Vec<XmlLink>)
    ensures
        final(links).deep_view() == old(links).deep_view() + more.deep_view(),
{
    let mut more = more;
    let ghost moved = more.deep_view();
    links.append(&mut more);
    assert(links.deep_view() =~= old(links).deep_view() + moved);
}

/// The links in the attribute values of one element that was read at `location`.
pub fn scrape_from_xml_start_element_attributes(
    attributes: &Vec<Attribute>,
    location: TextPosition,
) -> (links: Vec<XmlLink>)
    ensures
        links.deep_view() == attribute_links(attributes.deep_view(), attributes.len() as nat, location),
{
    let mut links: Vec<XmlLink> = Vec::new();
    let mut i: usize = 0;
    while i < attributes.len()
        invariant
            i <= attributes.len(),
            links.deep_view() == attribute_links(attributes.deep_view(), i as nat, location),
        decreases attributes.len() - i,
    {
        let attribute = &attributes[i];
        let kind = XmlLinkType::Attribute(attribute.clone());
        let found = scrape_from_text(attribute.value.as_str(), location, &kind);
        append_links(&mut links, found);
        i += 1;
    }
    links
}

/// A namespace binding and the place where it was seen first.
#[derive(Debug)]
pub struct NamespaceOccurrence {
    /// The prefix.
    pub namespace: String,
    /// The URI bound to the prefix.
    pub namespace_uri: String,
    /// The position of the first element in whose scope the binding was.
    pub first_occurrence: TextPosition,
}

/// Mathematical model of a [`NamespaceOccurrence`].
pub struct NamespaceOccurrenceView {
    pub namespace: Seq<char>,
    pub namespace_uri: Seq<char>,
    pub first_occurrence: TextPosition,
}

impl View for NamespaceOccurrence {
    type V = NamespaceOccurrenceView;

    open spec fn view(&self) -> NamespaceOccurrenceView {
        NamespaceOccurrenceView {
            namespace: self.namespace@,
            namespace_uri: self.namespace_uri@,
            first_occurrence: self.first_occurrence,
        }
    }
}

impl DeepView for NamespaceOccurrence {
    type V = NamespaceOccurrenceView;

    open spec fn deep_view(&self) -> NamespaceOccurrenceView {
        self@
    }
}

/// The prefixes `xml` and `xmlns` are bound by definition: the reader reports them in
/// the scope of every element, and no document declares them.
pub open spec fn is_reserved_prefix(prefix: Seq<char>) -> bool {
    prefix == "xml"@ || prefix == "xmlns"@
}

/// The pair of `prefix` and `uri` stands among the first `n` occurrences.
pub open spec fn is_known(
    seen: Seq<NamespaceOccurrenceView>,
    n: int,
    prefix: Seq<char>,
    uri: Seq<char>,
) -> bool {
    exists|i: int| 0 <= i < n && (#[trigger] seen[i]).namespace == prefix && seen[i].namespace_uri == uri
}

/// `seen` after the first `n` bindings of an element at `location` were recorded: each
/// pair that is new and not reserved is put behind the others.
pub open spec fn record_bindings(
    seen: Seq<NamespaceOccurrenceView>,
    bindings: Seq<NamespaceBindingView>,
    n: nat,
    location: TextPosition,
) -> Seq<NamespaceOccurrenceView>
    decreases n,
{
    if n == 0 {
        seen
    } else {
        let before = record_bindings(seen, bindings, (n - 1) as nat, location);
        let binding = bindings[n - 1];
        if is_reserved_prefix(binding.prefix) || is_known(
            before,
            before.len() as int,
            binding.prefix,
            binding.uri,
        ) {
            before
        } else {
            before.push(
                NamespaceOccurrenceView {
                    namespace: binding.prefix,
                    namespace_uri: binding.uri,
                    first_occurrence: location,
                },
            )
        }
    }
}

/// The namespace bindings declared in the first `n` events, each once, in the order in
/// which they were seen first.
pub open spec fn namespaces_seen(events: Seq<PositionedEventView>, n: nat) -> Seq<
    NamespaceOccurrenceView,
>
    decreases n,
{
    if n == 0 {
        Seq::empty()
    } else {
        let before = namespaces_seen(events, (n - 1) as nat);
        match events[n - 1].event {
            MarkupEventView::StartElement { namespaces, .. } => record_bindings(
                before,
                namespaces,
                namespaces.len(),
                events[n - 1].position,
            ),
            _ => before,
        }
    }
}

/// The link that stands for a namespace occurrence: the whole URI, at the place where
/// the binding was seen first.
pub open spec fn namespace_link(occurrence: NamespaceOccurrenceView) -> XmlLinkView {
    XmlLinkView {
        url: occurrence.namespace_uri,
        location: occurrence.first_occurrence,
        kind: XmlLinkTypeView::NameSpace(occurrence.namespace),
    }
}

/// The links for the first `n` occurrences: one for each whose URI holds a web address.
pub open spec fn namespace_links(seen: Seq<NamespaceOccurrenceView>, n: nat) -> Seq<XmlLinkView>
    decreases n,
{
    if n == 0 {
        Seq::empty()
    } else {
        let before = namespace_links(seen, (n - 1) as nat);
        if urls_in(seen[n - 1].namespace_uri).len() > 0 {
            before.push(namespace_link(seen[n - 1]))
        } else {
            before
        }
    }
}

/// Every link of a markup document: those that its events hold, in the order of the
/// events, and behind them those of its namespaces.
pub open spec fn xml_links(events: Seq<PositionedEventView>) -> Seq<XmlLinkView> {
    let seen = namespaces_seen(events, events.len());
    event_links(events, events.len()) + namespace_links(seen, seen.len())
}

/// Whether `prefix` is one of the two prefixes that are bound by definition.
pub fn reserved_prefix(prefix: &str) -> (reserved: bool)
    ensures
        reserved == is_reserved_prefix(prefix@),
{
    str_eq(prefix, "xml") || str_eq(prefix, "xmlns")
}

/// Whether the pair of `prefix` and `uri` was recorded already.
pub fn known_namespace(seen: &Vec<NamespaceOccurrence>, prefix: &str, uri: &str) -> (known: bool)
    ensures
        known == is_known(seen.deep_view(), seen.len() as int, prefix@, uri@),
{
    let mut i: usize = 0;
    while i < seen.len()
        invariant
            i <= seen.len(),
            !is_known(seen.deep_view(), i as int, prefix@, uri@),
        decreases seen.len() - i,
    {
        if str_eq(seen[i].namespace.as_str(), prefix) && str_eq(seen[i].namespace_uri.as_str(), uri) {
            assert(seen.deep_view()[i as int].namespace == prefix@);
            return true;
        }
        i += 1;
    }
    false
}

/// Records the namespace bindings in scope at an element that was read at `location`.
pub fn record_namespaces(
    seen: &mut Vec<NamespaceOccurrence>,
    bindings: &Vec<NamespaceBinding>,
    location: TextPosition,
)
    ensures
        final(seen).deep_view() == record_bindings(
            old(seen).deep_view(),
            bindings.deep_view(),
            bindings.len() as nat,
            location,
        ),
{
    let mut i: usize = 0;
    while i < bindings.len()
        invariant
            i <= bindings.len(),
            seen.deep_view() == record_bindings(
                old(seen).deep_view(),
                bindings.deep_view(),
                i as nat,
                location,
            ),
        decreases bindings.len() - i,
    {
        let binding = &bindings[i];
        if !reserved_prefix(binding.prefix.as_str()) && !known_namespace(
            seen,
            binding.prefix.as_str(),
            binding.uri.as_str(),
        ) {
            let ghost earlier = seen.deep_view();
            seen.push(
                NamespaceOccurrence {
                    namespace: binding.prefix.clone(),
                    namespace_uri: binding.uri.clone(),
                    first_occurrence: location,
                },
            );
            assert(seen.deep_view() =~= earlier.push(
                NamespaceOccurrenceView {
                    namespace: binding.prefix@,
                    namespace_uri: binding.uri@,
                    first_occurrence: location,
                },
            ));
        }
        i += 1;
    }
}

/// The links for the namespaces that were seen: one for each whose URI holds a web
/// address.
pub fn scrape_from_namespaces(seen: &Vec<NamespaceOccurrence>) -> (links: Vec<XmlLink>)
    ensures
        links.deep_view() == namespace_links(seen.deep_view(), seen.len() as nat),
{
    let mut links: Vec<XmlLink> = Vec::new();
    let mut i: usize = 0;
    while i < seen.len()
        invariant
            i <= seen.len(),
            links.deep_view() == namespace_links(seen.deep_view(), i as nat),
        decreases seen.len() - i,
    {
        let occurrence = &seen[i];
        if find_urls(occurrence.namespace_uri.as_str()).len() > 0 {
            let ghost earlier = links.deep_view();
            links.push(
                XmlLink {
                    url: occurrence.namespace_uri.clone(),
                    location: occurrence.first_occurrence,
                    kind: XmlLinkType::NameSpace(occurrence.namespace.clone()),
                },
            );
            assert(links.deep_view() =~= earlier.push(namespace_link(seen.deep_view()[i as int])));
        }
        i += 1;
    }
    links
}

/// Scrapes the links from the events of a markup document: for each event in turn the
/// links in its attribute values, its comment, its character data or its embedded
/// data; then one link for each namespace whose URI holds a web address.
pub fn scrape_from_events(events: &Vec<PositionedEvent>) -> (links: Vec<XmlLink>)
    ensures
        links.deep_view() == xml_links(events.deep_view()),
{
    let mut links: Vec<XmlLink> = Vec::new();
    let mut namespaces: Vec<NamespaceOccurrence> = Vec::new();
    let mut current_parent: Option<Name> = None;
    let mut i: usize = 0;
    while i < events.len()
        invariant
            i <= events.len(),
            links.deep_view() == event_links(events.deep_view(), i as nat),
            namespaces.deep_view() == namespaces_seen(events.deep_view(), i as nat),
            current_parent.deep_view() == parent_before(events.deep_view(), i as nat),
        decreases events.len() - i,
    {
        let at = events[i].position;
        let ghost parent = current_parent.deep_view();
        assert(events.deep_view()[i as int] == events[i as int]@);
        match &events[i].event {
            MarkupEvent::StartElement { name, attributes, namespaces: bindings } => {
                record_namespaces(&mut namespaces, bindings, at);
                current_parent = Some(name.clone());
                append_links(&mut links, scrape_from_xml_start_element_attributes(attributes, at));
            },
            MarkupEvent::Comment(text) => {
                append_links(&mut links, scrape_from_text(text.as_str(), at, &XmlLinkType::Comment));
            },
            MarkupEvent::Characters(text) => {
                let kind = XmlLinkType::PlainText(
                    ParentInformation { parent_tag_name: clone_optional_name(&current_parent) },
                );
                append_links(&mut links, scrape_from_text(text.as_str(), at, &kind));
            },
            MarkupEvent::CData(text) => {
                let kind = XmlLinkType::CData(
                    ParentInformation { parent_tag_name: clone_optional_name(&current_parent) },
                );
                append_links(&mut links, scrape_from_text(text.as_str(), at, &kind));
            },
            _ => {
                assert(links.deep_view() + Seq::<XmlLinkView>::empty() =~= links.deep_view());
            },
        }
        i += 1;
    }
    append_links(&mut links, scrape_from_namespaces(&namespaces));
    links
}

/// What scraping a markup document comes to: the links of its events, or the reader's
/// error where the document is malformed.
pub open spec fn scrape_outcome(bytes: Seq<u8>) -> Result<Seq<XmlLinkView>, XmlScrapingErrorView> {
    let steps = markup_steps(bytes, false);
    if is_malformed(steps) {
        Err(XmlScrapingErrorView::XmlReaderError)
    } else {
        Ok(xml_links(events_of(steps)))
    }
}

/// Scrapes links from any document with a markup structure. The document is read
/// whole; where it is malformed the reader's error is returned, and no link.
pub fn scrape(bytes: &[u8]) -> (res: Result<Vec<XmlLink>, XmlScrapingError>)
    ensures
        result_view(res) == scrape_outcome(bytes@),
{
    match read_events(bytes, false) {
        Ok(events) => Ok(scrape_from_events(&events)),
        Err(error) => Err(XmlScrapingError::XmlReaderError(error)),
    }
}

/// The links in the values of those among the first `n` attributes that are named
/// `href`, whatever their namespace.
pub open spec fn href_attribute_links(
    attributes: Seq<AttributeView>,
    n: nat,
    location: TextPosition,
) -> Seq<XmlLinkView>
    decreases n,
{
    if n == 0 {
        Seq::empty()
    } else {
        let before = href_attribute_links(attributes, (n - 1) as nat, location);
        if attributes[n - 1].name.local_name == "href"@ {
            before + links_in_text(
                attributes[n - 1].value,
                location,
                XmlLinkTypeView::Attribute(attributes[n - 1]),
            )
        } else {
            before
        }
    }
}

/// The links in the `href` attributes of the elements among the first `n` events.
pub open spec fn href_links(events: Seq<PositionedEventView>, n: nat) -> Seq<XmlLinkView>
    decreases n,
{
    if n == 0 {
        Seq::empty()
    } else {
        let before = href_links(events, (n - 1) as nat);
        match events[n - 1].event {
            MarkupEventView::StartElement { attributes, .. } => before + href_attribute_links(
                attributes,
                attributes.len(),
                events[n - 1].position,
            ),
            _ => before,
        }
    }
}

/// The links in the `href` attributes of one element that was read at `location`.
pub fn scrape_from_href_attributes(attributes: &Vec<Attribute>, location: TextPosition) -> (links: Vec<
    XmlLink,
>)
    ensures
        links.deep_view() == href_attribute_links(
            attributes.deep_view(),
            attributes.len() as nat,
            location,
        ),
{
    let mut links: Vec<XmlLink> = Vec::new();
    let mut i: usize = 0;
    while i < attributes.len()
        invariant
            i <= attributes.len(),
            links.deep_view() == href_attribute_links(attributes.deep_view(), i as nat, location),
        decreases attributes.len() - i,
    {
        let attribute = &attributes[i];
        if str_eq(attribute.name.local_name.as_str(), "href") {
            let kind = XmlLinkType::Attribute(attribute.clone());
            append_links(&mut links, scrape_from_text(attribute.value.as_str(), location, &kind));
        }
        i += 1;
    }
    links
}

/// The links in the `href` attributes of the elements among `events`.
pub fn scrape_hrefs_from_events(events: &Vec<PositionedEvent>) -> (links: Vec<XmlLink>)
    ensures
        links.deep_view() == href_links(events.deep_view(), events.len() as nat),
{
    let mut links: Vec<XmlLink> = Vec::new();
    let mut i: usize = 0;
    while i < events.len()
        invariant
            i <= events.len(),
            links.deep_view() == href_links(events.deep_view(), i as nat),
        decreases events.len() - i,
    {
        assert(events.deep_view()[i as int] == events[i as int]@);
        match &events[i].event {
            MarkupEvent::StartElement { attributes, .. } => {
                append_links(
                    &mut links,
                    scrape_from_href_attributes(attributes, events[i].position),
                );
            },
            _ => {},
        }
        i += 1;
    }
    links
}

/// What scraping the `href` attributes of a markup document comes to.
pub open spec fn href_outcome(bytes: Seq<u8>) -> Result<Seq<XmlLinkView>, XmlScrapingErrorView> {
    let steps = markup_steps(bytes, false);
    if is_malformed(steps) {
        Err(XmlScrapingErrorView::XmlReaderError)
    } else {
        Ok(href_links(events_of(steps), events_of(steps).len()))
    }
}

/// Scrapes all links from `href` attributes, whatever their namespace or the name of
/// their element. Where the document is malformed the reader's error is returned.
pub fn scrape_from_href_tags(bytes: &[u8]) -> (res: Result<Vec<XmlLink>, XmlScrapingError>)
    ensures
        result_view(res) == href_outcome(bytes@),
{
    match read_events(bytes, false) {
        Ok(events) => Ok(scrape_hrefs_from_events(&events)),
        Err(error) => Err(XmlScrapingError::XmlReaderError(error)),
    }
}

/// No two of the first `n` occurrences hold the same pair of prefix and URI.
pub open spec fn pairs_distinct(seen: Seq<NamespaceOccurrenceView>) -> bool {
    forall|i: int, j: int|
        0 <= i < j < seen.len() ==> !((#[trigger] seen[i]).namespace == (#[trigger] seen[j]).namespace
            && seen[i].namespace_uri == seen[j].namespace_uri)
}

proof fn lemma_record_keeps_distinct(
    seen: Seq<NamespaceOccurrenceView>,
    bindings: Seq<NamespaceBindingView>,
    n: nat,
    location: TextPosition,
)
    requires
        pairs_distinct(seen),
    ensures
        pairs_distinct(record_bindings(seen, bindings, n, location)),
    decreases n,
{
    if n > 0 {
        lemma_record_keeps_distinct(seen, bindings, (n - 1) as nat, location);
    }
}

/// A namespace binding is recorded once: however often a document repeats a
/// declaration, no two recorded occurrences hold the same prefix and URI.
pub proof fn lemma_namespaces_recorded_once(events: Seq<PositionedEventView>, n: nat)
    ensures
        pairs_distinct(namespaces_seen(events, n)),
    decreases n,
{
    if n > 0 {
        lemma_namespaces_recorded_once(events, (n - 1) as nat);
        match events[n - 1].event {
            MarkupEventView::StartElement { namespaces, .. } => {
                lemma_record_keeps_distinct(
                    namespaces_seen(events, (n - 1) as nat),
                    namespaces,
                    namespaces.len(),
                    events[n - 1].position,
                );
            },
            _ => {},
        }
    }
}

/// Each link is the link of one of the first `n` occurrences, and the links stand in
/// the order of their occurrences.
spec fn drawn_in_order(links: Seq<XmlLinkView>, seen: Seq<NamespaceOccurrenceView>, n: nat) -> bool {
    exists|source: Seq<int>|
        #![trigger source.len()]
        {
            &&& source.len() == links.len()
            &&& forall|a: int| 0 <= a < links.len() ==> 0 <= #[trigger] source[a] < n
            &&& forall|a: int| 0 <= a < links.len() ==> links[a] == namespace_link(seen[#[trigger] source[a]])
            &&& forall|a: int, b: int| 0 <= a < b < links.len() ==> #[trigger] source[a] < #[trigger] source[b]
        }
}

proof fn lemma_namespace_links_drawn(seen: Seq<NamespaceOccurrenceView>, n: nat)
    ensures
        drawn_in_order(namespace_links(seen, n), seen, n),
    decreases n,
{
    if n == 0 {
        let source = Seq::<int>::empty();
        assert(source.len() == namespace_links(seen, n).len());
    } else {
        lemma_namespace_links_drawn(seen, (n - 1) as nat);
        let before = namespace_links(seen, (n - 1) as nat);
        let earlier = choose|source: Seq<int>|
            #![trigger source.len()]
            {
                &&& source.len() == before.len()
                &&& forall|a: int| 0 <= a < before.len() ==> 0 <= #[trigger] source[a] < n - 1
                &&& forall|a: int|
                    0 <= a < before.len() ==> before[a] == namespace_link(seen[#[trigger] source[a]])
                &&& forall|a: int, b: int|
                    0 <= a < b < before.len() ==> #[trigger] source[a] < #[trigger] source[b]
            };
        if urls_in(seen[n - 1].namespace_uri).len() > 0 {
            let source = earlier.push(n - 1);
            assert(source.len() == namespace_links(seen, n).len());
        } else {
            assert(earlier.len() == namespace_links(seen, n).len());
        }
    }
}

/// Namespace links are reported once for each pair of prefix and URI: no two namespace
/// links of a document hold the same prefix and the same URI.
pub proof fn lemma_namespace_links_unique(events: Seq<PositionedEventView>, i: int, j: int)
    requires
        0 <= i < j < namespace_links(
            namespaces_seen(events, events.len()),
            namespaces_seen(events, events.len()).len(),
        ).len(),
    ensures
        ({
            let seen = namespaces_seen(events, events.len());
            let links = namespace_links(seen, seen.len());
            !(links[i].url == links[j].url && links[i].kind == links[j].kind)
        }),
{
    let seen = namespaces_seen(events, events.len());
    let links = namespace_links(seen, seen.len());
    lemma_namespaces_recorded_once(events, events.len());
    lemma_namespace_links_drawn(seen, seen.len());
    let source = choose|source: Seq<int>|
        #![trigger source.len()]
        {
            &&& source.len() == links.len()
            &&& forall|a: int| 0 <= a < links.len() ==> 0 <= #[trigger] source[a] < seen.len()
            &&& forall|a: int| 0 <= a < links.len() ==> links[a] == namespace_link(seen[#[trigger] source[a]])
            &&& forall|a: int, b: int| 0 <= a < b < links.len() ==> #[trigger] source[a] < #[trigger] source[b]
        };
    assert(links[i] == namespace_link(seen[source[i]]));
    assert(links[j] == namespace_link(seen[source[j]]));
    assert(source[i] < source[j]);
}

/// Why the links of a markup text could not be listed.
#[derive(Debug)]
pub enum XmlExtractionError {
    /// The text is no valid UTF-8; holds the decoder's error.
    IoError(core::str::Utf8Error),
}

/// Mathematical model of an [`XmlExtractionError`]: which error it is.
pub enum XmlExtractionErrorView {
    IoError,
}

impl View for XmlExtractionError {
    type V = XmlExtractionErrorView;

    open spec fn view(&self) -> XmlExtractionErrorView {
        XmlExtractionErrorView::IoError
    }
}

impl DeepView for XmlExtractionError {
    type V = XmlExtractionErrorView;

    open spec fn deep_view(&self) -> XmlExtractionErrorView {
        self@
    }
}

/// What listing the links of a markup text comes to: the text is searched as it
/// stands, tags and all.
pub open spec fn extract_outcome(bytes: Seq<u8>) -> Result<Seq<Seq<char>>, XmlExtractionErrorView> {
    if valid_utf8(bytes) {
        Ok(
            crate::container::texts_of(
                urls_in(decode_utf8(bytes)),
                urls_in(decode_utf8(bytes)).len(),
            ),
        )
    } else {
        Err(XmlExtractionErrorView::IoError)
    }
}

/// Lists every web address in a markup text, without reading its structure.
pub fn extract_links(bytes: &[u8]) -> (res: Result<Vec<String>, XmlExtractionError>)
    ensures
        result_view(res) == extract_outcome(bytes@),
{
    match decode(bytes) {
        Ok(text) => Ok(crate::container::url_texts(text)),
        Err(error) => Err(XmlExtractionError::IoError(error)),
    }
}

/// The positions of the events never go back: an event stands in the source where
/// the events before it stand, or behind them.
pub open spec fn positions_ordered(events: Seq<PositionedEventView>) -> bool {
    forall|i: int, j: int|
        0 <= i <= j < events.len() ==> (#[trigger] events[i]).position.at_or_before(
            (#[trigger] events[j]).position,
        )
}

/// For each link that the first `n` events hold, the index of the event that holds it.
pub open spec fn link_sources(events: Seq<PositionedEventView>, n: nat) -> Seq<int>
    decreases n,
{
    if n == 0 {
        Seq::empty()
    } else {
        link_sources(events, (n - 1) as nat) + Seq::new(
            links_of_event(events[n - 1], parent_before(events, (n - 1) as nat)).len(),
            |k: int| n - 1,
        )
    }
}

proof fn lemma_attribute_links_located(attributes: Seq<AttributeView>, n: nat, location: TextPosition)
    ensures
        forall|k: int|
            0 <= k < attribute_links(attributes, n, location).len() ==> (#[trigger] attribute_links(
                attributes,
                n,
                location,
            )[k]).location == location,
    decreases n,
{
    if n > 0 {
        lemma_attribute_links_located(attributes, (n - 1) as nat, location);
    }
}

proof fn lemma_links_of_event_located(event: PositionedEventView, parent: Option<NameView>)
    ensures
        forall|k: int|
            0 <= k < links_of_event(event, parent).len() ==> (#[trigger] links_of_event(
                event,
                parent,
            )[k]).location == event.position,
{
    match event.event {
        MarkupEventView::StartElement { attributes, .. } => {
            lemma_attribute_links_located(attributes, attributes.len(), event.position);
        },
        _ => {},
    }
}

proof fn lemma_link_sources(events: Seq<PositionedEventView>, n: nat)
    requires
        n <= events.len(),
    ensures
        link_sources(events, n).len() == event_links(events, n).len(),
        forall|a: int|
            0 <= a < event_links(events, n).len() ==> 0 <= (#[trigger] link_sources(events, n)[a]) < n,
        forall|a: int|
            0 <= a < event_links(events, n).len() ==> (#[trigger] event_links(events, n)[a]).location
                == events[link_sources(events, n)[a]].position,
        forall|a: int, b: int|
            0 <= a <= b < event_links(events, n).len() ==> (#[trigger] link_sources(events, n)[a]) <= (
            #[trigger] link_sources(events, n)[b]),
    decreases n,
{
    if n > 0 {
        lemma_link_sources(events, (n - 1) as nat);
        lemma_links_of_event_located(events[n - 1], parent_before(events, (n - 1) as nat));
    }
}

/// The position of a link never goes back: of two links that the events of a document
/// hold, the one that is reported first stands in the source where the other stands,
/// or before it. This holds where the positions of the events themselves never go
/// back. It is said of the links that the events hold; the links of the namespaces are
/// reported behind them, each at the place where its namespace was seen first.
pub proof fn lemma_link_positions_advance(events: Seq<PositionedEventView>, a: int, b: int)
    requires
        positions_ordered(events),
        0 <= a <= b < event_links(events, events.len()).len(),
    ensures
        event_links(events, events.len())[a].location.at_or_before(
            event_links(events, events.len())[b].location,
        ),
{
    lemma_link_sources(events, events.len());
    let sources = link_sources(events, events.len());
    assert(sources[a] <= sources[b]);
    assert(events[sources[a]].position.at_or_before(events[sources[b]].position));
}

/// `longer` begins with `shorter`.
spec fn begins_with(longer: Seq<NamespaceOccurrenceView>, shorter: Seq<NamespaceOccurrenceView>) -> bool {
    &&& shorter.len() <= longer.len()
    &&& forall|i: int| 0 <= i < shorter.len() ==> #[trigger] longer[i] == shorter[i]
}

proof fn lemma_record_extends(
    seen: Seq<NamespaceOccurrenceView>,
    bindings: Seq<NamespaceBindingView>,
    n: nat,
    location: TextPosition,
)
    ensures
        begins_with(record_bindings(seen, bindings, n, location), seen),
    decreases n,
{
    if n > 0 {
        lemma_record_extends(seen, bindings, (n - 1) as nat, location);
    }
}

proof fn lemma_record_knows(
    seen: Seq<NamespaceOccurrenceView>,
    bindings: Seq<NamespaceBindingView>,
    n: nat,
    location: TextPosition,
    k: int,
)
    requires
        0 <= k < n,
        !is_reserved_prefix(bindings[k].prefix),
    ensures
        is_known(
            record_bindings(seen, bindings, n, location),
            record_bindings(seen, bindings, n, location).len() as int,
            bindings[k].prefix,
            bindings[k].uri,
        ),
    decreases n,
{
    let before = record_bindings(seen, bindings, (n - 1) as nat, location);
    let after = record_bindings(seen, bindings, n, location);
    if k < n - 1 {
        lemma_record_knows(seen, bindings, (n - 1) as nat, location, k);
        let i = choose|i: int|
            0 <= i < before.len() && (#[trigger] before[i]).namespace == bindings[k].prefix
                && before[i].namespace_uri == bindings[k].uri;
        assert(after[i] == before[i]);
    } else {
        if is_known(before, before.len() as int, bindings[k].prefix, bindings[k].uri) {
            assert(after == before);
        } else {
            assert(after[before.len() as int].namespace == bindings[k].prefix);
        }
    }
}

proof fn lemma_seen_extends(events: Seq<PositionedEventView>, n: nat, m: nat)
    requires
        n <= m,
    ensures
        begins_with(namespaces_seen(events, m), namespaces_seen(events, n)),
    decreases m,
{
    if n < m {
        lemma_seen_extends(events, n, (m - 1) as nat);
        match events[m - 1].event {
            MarkupEventView::StartElement { namespaces, .. } => {
                lemma_record_extends(
                    namespaces_seen(events, (m - 1) as nat),
                    namespaces,
                    namespaces.len(),
                    events[m - 1].position,
                );
            },
            _ => {},
        }
    }
}

proof fn lemma_namespace_link_present(seen: Seq<NamespaceOccurrenceView>, n: nat, i: int)
    requires
        0 <= i < n,
        urls_in(seen[i].namespace_uri).len() > 0,
    ensures
        exists|a: int|
            0 <= a < namespace_links(seen, n).len() && #[trigger] namespace_links(seen, n)[a]
                == namespace_link(seen[i]),
    decreases n,
{
    let links = namespace_links(seen, n);
    if i < n - 1 {
        lemma_namespace_link_present(seen, (n - 1) as nat, i);
        let before = namespace_links(seen, (n - 1) as nat);
        let a = choose|a: int| 0 <= a < before.len() && #[trigger] before[a] == namespace_link(seen[i]);
        assert(links[a] == namespace_link(seen[i]));
    } else {
        assert(links[links.len() - 1] == namespace_link(seen[i]));
    }
}

/// A namespace that a document declares is reported: where a binding is in the scope
/// of an element, its prefix is not reserved and its URI holds a web address, the
/// links of the document's namespaces hold one with that prefix and that URI.
pub proof fn lemma_declared_namespace_is_reported(
    events: Seq<PositionedEventView>,
    at: int,
    prefix: Seq<char>,
    uri: Seq<char>,
)
    requires
        0 <= at < events.len(),
        events[at].event matches MarkupEventView::StartElement { namespaces, .. } && exists|k: int|
            0 <= k < namespaces.len() && (#[trigger] namespaces[k]).prefix == prefix && namespaces[k].uri
                == uri,
        !is_reserved_prefix(prefix),
        urls_in(uri).len() > 0,
    ensures
        ({
            let seen = namespaces_seen(events, events.len());
            let links = namespace_links(seen, seen.len());
            exists|a: int|
                0 <= a < links.len() && (#[trigger] links[a]).url == uri && links[a].kind
                    == XmlLinkTypeView::NameSpace(prefix)
        }),
{
    let bindings = events[at].event->StartElement_namespaces;
    let k = choose|k: int|
        0 <= k < bindings.len() && (#[trigger] bindings[k]).prefix == prefix && bindings[k].uri == uri;
    let early = namespaces_seen(events, (at + 1) as nat);
    let seen = namespaces_seen(events, events.len());
    lemma_record_knows(
        namespaces_seen(events, at as nat),
        bindings,
        bindings.len(),
        events[at].position,
        k,
    );
    let i = choose|i: int|
        0 <= i < early.len() && (#[trigger] early[i]).namespace == prefix && early[i].namespace_uri == uri;
    lemma_seen_extends(events, (at + 1) as nat, events.len());
    assert(seen[i] == early[i]);
    lemma_namespace_link_present(seen, seen.len(), i);
    let links = namespace_links(seen, seen.len());
    let a = choose|a: int| 0 <= a < links.len() && #[trigger] links[a] == namespace_link(seen[i]);
    assert(links[a].url == uri);
}

} // verus!
