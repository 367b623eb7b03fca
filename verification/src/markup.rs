//! The markup event reader: turns the bytes of a markup document into a list of events,
//! each with the place in the source where it was read.

use vstd::prelude::*;
use xml::common::Position;
use xml::reader::XmlEvent::{
    CData, Characters, Comment, EndDocument, EndElement, StartElement, Whitespace,
};

verus! {

/// A place in a markup source, counted from zero.
#[derive(Clone, Copy, Debug, PartialEq, Eq, Structural)]
pub struct TextPosition {
    /// The line.
    pub row: u64,
    /// The column within the line.
    pub column: u64,
}

impl TextPosition {
    /// `self` stands in the source where `other` stands, or before it.
    pub open spec fn at_or_before(self, other: TextPosition) -> bool {
        self.row < other.row || (self.row == other.row && self.column <= other.column)
    }

    /// Puts a line and a column together.
    pub fn new(row: u64, column: u64) -> (position: TextPosition)
        ensures
            position == (TextPosition { row, column }),
    {
        TextPosition { row, column }
    }
}

impl View for TextPosition {
    type V = TextPosition;

    open spec fn view(&self) -> TextPosition {
        *self
    }
}

impl DeepView for TextPosition {
    type V = TextPosition;

    open spec fn deep_view(&self) -> TextPosition {
        *self
    }
}

/// The qualified name of an element or of an attribute.
#[derive(Debug)]
pub struct Name {
    /// The name without its prefix.
    pub local_name: String,
    /// The namespace URI that the prefix stands for, if the name has a namespace.
    pub namespace: Option<String>,
    /// The prefix as written in the source, if there is one.
    pub prefix: Option<String>,
}

/// Mathematical model of a [`Name`].
pub struct NameView {
    pub local_name: Seq<char>,
    pub namespace: Option<Seq<char>>,
    pub prefix: Option<Seq<char>>,
}

impl View for Name {
    type V = NameView;

    open spec fn view(&self) -> NameView {
        NameView {
            local_name: self.local_name@,
            namespace: self.namespace.deep_view(),
            prefix: self.prefix.deep_view(),
        }
    }
}

impl DeepView for Name {
    type V = NameView;

    open spec fn deep_view(&self) -> NameView {
        self@
    }
}

/// A copy of a text that may be absent.
pub fn clone_optional_text(text: &Option<String>) -> (copy: Option<String>)
    ensures
        copy == *text,
{
    match text {
        Some(present) => Some(present.clone()),
        None => None,
    }
}

impl PartialEq for Name {
    fn eq(&self, other: &Name) -> (same: bool)
    {
        self.same_as(other)
    }
}

impl vstd::std_specs::cmp::PartialEqSpecImpl for Name {
    open spec fn obeys_eq_spec() -> bool {
        true
    }

    open spec fn eq_spec(&self, other: &Name) -> bool {
        self@ == other@
    }
}

impl Clone for Name {
    fn clone(&self) -> (copy: Name)
        ensures
            copy == *self,
    {
        Name {
            local_name: self.local_name.clone(),
            namespace: clone_optional_text(&self.namespace),
            prefix: clone_optional_text(&self.prefix),
        }
    }
}

/// Whether two texts that may be absent are the same.
pub fn same_optional_text(a: &Option<String>, b: &Option<String>) -> (same: bool)
    ensures
        same == (a.deep_view() == b.deep_view()),
{
    match (a, b) {
        (Some(x), Some(y)) => crate::text::str_eq(x.as_str(), y.as_str()),
        (None, None) => true,
        _ => false,
    }
}

impl Name {
    /// Whether two names are the same: in local name, in namespace and in prefix.
    pub fn same_as(&self, other: &Name) -> (same: bool)
        ensures
            same == (self@ == other@),
    {
        crate::text::str_eq(self.local_name.as_str(), other.local_name.as_str())
            && same_optional_text(&self.namespace, &other.namespace) && same_optional_text(
            &self.prefix,
            &other.prefix,
        )
    }

    /// Puts the parts of a name together.
    pub fn new(local_name: String, namespace: Option<String>, prefix: Option<String>) -> (name: Name)
        ensures
            name == (Name { local_name, namespace, prefix }),
    {
        Name { local_name, namespace, prefix }
    }
}

/// An attribute of an element.
#[derive(Debug)]
pub struct Attribute {
    /// The attribute's name.
    pub name: Name,
    /// The attribute's value, with entities resolved.
    pub value: String,
}

/// Mathematical model of an [`Attribute`].
pub struct AttributeView {
    pub name: NameView,
    pub value: Seq<char>,
}

impl View for Attribute {
    type V = AttributeView;

    open spec fn view(&self) -> AttributeView {
        AttributeView { name: self.name@, value: self.value@ }
    }
}

impl DeepView for Attribute {
    type V = AttributeView;

    open spec fn deep_view(&self) -> AttributeView {
        self@
    }
}

impl PartialEq for Attribute {
    fn eq(&self, other: &Attribute) -> (same: bool)
    {
        self.name.same_as(&other.name) && self.value == other.value
    }
}

impl vstd::std_specs::cmp::PartialEqSpecImpl for Attribute {
    open spec fn obeys_eq_spec() -> bool {
        true
    }

    open spec fn eq_spec(&self, other: &Attribute) -> bool {
        self.name@ == other.name@ && self.value@ == other.value@
    }
}

impl Clone for Attribute {
    fn clone(&self) -> (copy: Attribute)
        ensures
            copy == *self,
    {
        Attribute { name: self.name.clone(), value: self.value.clone() }
    }
}

impl Attribute {
    /// Puts the parts of an attribute together.
    pub fn new(
        local_name: String,
        namespace: Option<String>,
        prefix: Option<String>,
        value: String,
    ) -> (attribute: Attribute)
        ensures
            attribute == (Attribute { name: Name { local_name, namespace, prefix }, value }),
    {
        Attribute { name: Name { local_name, namespace, prefix }, value }
    }
}

/// A prefix and the namespace URI that it stands for.
#[derive(Debug)]
pub struct NamespaceBinding {
    /// The prefix; empty for the default namespace.
    pub prefix: String,
    /// The namespace URI.
    pub uri: String,
}

/// Mathematical model of a [`NamespaceBinding`].
pub struct NamespaceBindingView {
    pub prefix: Seq<char>,
    pub uri: Seq<char>,
}

impl View for NamespaceBinding {
    type V = NamespaceBindingView;

    open spec fn view(&self) -> NamespaceBindingView {
        NamespaceBindingView { prefix: self.prefix@, uri: self.uri@ }
    }
}

impl DeepView for NamespaceBinding {
    type V = NamespaceBindingView;

    open spec fn deep_view(&self) -> NamespaceBindingView {
        self@
    }
}

impl NamespaceBinding {
    /// Makes a binding of a pair of a prefix and a URI.
    pub fn from_pair(pair: (String, String)) -> (binding: NamespaceBinding)
        ensures
            binding == (NamespaceBinding { prefix: pair.0, uri: pair.1 }),
    {
        NamespaceBinding { prefix: pair.0, uri: pair.1 }
    }
}

/// One thing that a markup document holds. The end of the document is no event: it is
/// where the list of events ends.
#[derive(Debug)]
pub enum MarkupEvent {
    /// An opening tag, or a tag without a body.
    StartElement {
        /// The element's name.
        name: Name,
        /// The element's attributes, in the order of the source.
        attributes: Vec<Attribute>,
        /// Every namespace binding in scope at this element, ordered by prefix.
        namespaces: Vec<NamespaceBinding>,
    },
    /// A closing tag, or the end of a tag without a body.
    EndElement {
        /// The element's name.
        name: Name,
    },
    /// A comment.
    Comment(String),
    /// Character data outside of tags.
    Characters(String),
    /// An embedded-data block, not unescaped.
    CData(String),
    /// Whitespace outside of tags.
    Whitespace(String),
    /// The document declaration, a processing instruction or a document type.
    Other,
}

/// Mathematical model of a [`MarkupEvent`].
pub enum MarkupEventView {
    StartElement {
        name: NameView,
        attributes: Seq<AttributeView>,
        namespaces: Seq<NamespaceBindingView>,
    },
    EndElement { name: NameView },
    Comment(Seq<char>),
    Characters(Seq<char>),
    CData(Seq<char>),
    Whitespace(Seq<char>),
    Other,
}

impl View for MarkupEvent {
    type V = MarkupEventView;

    open spec fn view(&self) -> MarkupEventView {
        match self {
            MarkupEvent::StartElement { name, attributes, namespaces } => MarkupEventView::StartElement {
                name: name@,
                attributes: attributes.deep_view(),
                namespaces: namespaces.deep_view(),
            },
            MarkupEvent::EndElement { name } => MarkupEventView::EndElement { name: name@ },
            MarkupEvent::Comment(text) => MarkupEventView::Comment(text@),
            MarkupEvent::Characters(text) => MarkupEventView::Characters(text@),
            MarkupEvent::CData(text) => MarkupEventView::CData(text@),
            MarkupEvent::Whitespace(text) => MarkupEventView::Whitespace(text@),
            MarkupEvent::Other => MarkupEventView::Other,
        }
    }
}

impl DeepView for MarkupEvent {
    type V = MarkupEventView;

    open spec fn deep_view(&self) -> MarkupEventView {
        self@
    }
}

impl MarkupEvent {
    /// The event of an opening tag.
    pub fn start_element(
        name: Name,
        attributes: Vec<Attribute>,
        namespaces: Vec<NamespaceBinding>,
    ) -> (event: MarkupEvent)
        ensures
            event == (MarkupEvent::StartElement { name, attributes, namespaces }),
    {
        MarkupEvent::StartElement { name, attributes, namespaces }
    }

    /// The event of a closing tag.
    pub fn end_element(name: Name) -> (event: MarkupEvent)
        ensures
            event == (MarkupEvent::EndElement { name }),
    {
        MarkupEvent::EndElement { name }
    }
}

/// An event and the place in the source that the reader reported for it.
#[derive(Debug)]
pub struct PositionedEvent {
    /// The event.
    pub event: MarkupEvent,
    /// Where the reader stood when it had produced the event.
    pub position: TextPosition,
}

/// Mathematical model of a [`PositionedEvent`].
pub struct PositionedEventView {
    pub event: MarkupEventView,
    pub position: TextPosition,
}

impl View for PositionedEvent {
    type V = PositionedEventView;

    open spec fn view(&self) -> PositionedEventView {
        PositionedEventView { event: self.event@, position: self.position }
    }
}

impl DeepView for PositionedEvent {
    type V = PositionedEventView;

    open spec fn deep_view(&self) -> PositionedEventView {
        self@
    }
}

/// The error of `xml::reader`.
#[verifier::external_type_specification]
#[verifier::external_body]
pub struct ExReaderError(xml::reader::Error);

/// Holds an `xml::reader::EventReader` over the bytes of one document. The reader's
/// type is bound by `std::io::Read`, which cannot be declared to Verus, so the reader
/// is kept behind this type and reached through [`open_reader`], [`next_event`] and
/// [`position_of`] alone.
#[verifier::external_body]
pub struct MarkupReader<'a> {
    inner: xml::reader::EventReader<&'a [u8]>,
}

/// What `xml::reader::EventReader` reads from a document, step by step: each event
/// before the end of the document with its position, and `None` where the reader
/// fails. The reader hands out nothing that stands behind a `None`.
pub uninterp spec fn markup_steps(bytes: Seq<u8>, ignore_comments: bool) -> Seq<Option<PositionedEventView>>;

/// The steps that a reader has not taken yet.
pub uninterp spec fn reader_steps(reader: MarkupReader) -> Seq<Option<PositionedEventView>>;

/// The position of the event that a reader produced last.
pub uninterp spec fn reader_position(reader: MarkupReader) -> TextPosition;

/// Calls `xml::reader::EventReader::new_with_config` on the bytes, with the default
/// configuration but for `ignore_comments`. Nothing is read yet; what the reader will
/// find depends on the bytes and the configuration alone.
#[verifier::external_body]
fn open_reader<'a>(bytes: &'a [u8], ignore_comments: bool) -> (reader: MarkupReader<'a>)
    ensures
        reader_steps(reader) == markup_steps(bytes@, ignore_comments),
{
    let config = xml::reader::ParserConfig::new().ignore_comments(ignore_comments);
    MarkupReader { inner: xml::reader::EventReader::new_with_config(bytes, config) }
}

/// Calls `xml::reader::EventReader::next` and converts the event. The reader takes its
/// next step: an event is handed out and is then behind the reader. At the end of the
/// document it returns `None`, and where it fails it returns the error; from then on
/// every call returns the same.
#[verifier::external_body]
fn next_event(reader: &mut MarkupReader) -> (res: Result<Option<MarkupEvent>, xml::reader::Error>)
    ensures
        match res {
            Ok(Some(event)) => {
                &&& reader_steps(*old(reader)).len() > 0
                &&& reader_steps(*old(reader))[0] == Some(
                    PositionedEventView { event: event@, position: reader_position(*final(reader)) },
                )
                &&& reader_steps(*final(reader)) == reader_steps(*old(reader)).drop_first()
            },
            Ok(None) => {
                &&& reader_steps(*old(reader)).len() == 0
                &&& reader_steps(*final(reader)) == reader_steps(*old(reader))
            },
            Err(_) => {
                &&& reader_steps(*old(reader)).len() > 0
                &&& reader_steps(*old(reader))[0] is None
                &&& reader_steps(*final(reader)) == reader_steps(*old(reader))
            },
        },
{
    Ok(Some(match reader.inner.next()? {
        StartElement { name, attributes, namespace } => MarkupEvent::start_element(
            Name::new(name.local_name, name.namespace, name.prefix),
            attributes.into_iter().map(|a| Attribute::new(a.name.local_name, a.name.namespace, a.name.prefix, a.value)).collect(),
            namespace.0.into_iter().map(NamespaceBinding::from_pair).collect(),
        ),
        EndElement { name } => MarkupEvent::end_element(Name::new(name.local_name, name.namespace, name.prefix)),
        Comment(text) => MarkupEvent::Comment(text),
        Characters(text) => MarkupEvent::Characters(text),
        CData(text) => MarkupEvent::CData(text),
        Whitespace(text) => MarkupEvent::Whitespace(text),
        EndDocument => return Ok(None),
        _ => MarkupEvent::Other,
    }))
}

/// Calls `xml::common::Position::position` on the reader: the position of the event
/// that it produced last.
#[verifier::external_body]
fn position_of(reader: &MarkupReader) -> (position: TextPosition)
    ensures
        position == reader_position(*reader),
{
    let at = reader.inner.position();
    TextPosition::new(at.row, at.column)
}

/// No step among the first `n` is a failure.
pub open spec fn steps_succeed(steps: Seq<Option<PositionedEventView>>, n: int) -> bool {
    forall|i: int| 0 <= i < n ==> (#[trigger] steps[i]) is Some
}

/// The reader fails somewhere in the document.
pub open spec fn is_malformed(steps: Seq<Option<PositionedEventView>>) -> bool {
    !steps_succeed(steps, steps.len() as int)
}

/// The events of a document in which the reader fails nowhere.
pub open spec fn events_of(steps: Seq<Option<PositionedEventView>>) -> Seq<PositionedEventView> {
    Seq::new(steps.len(), |i: int| steps[i]->Some_0)
}

/// Reads a whole markup document. Returns every event before the end of the document,
/// in the order of the source; where the reader fails, its error, and no event.
pub fn read_events(bytes: &[u8], ignore_comments: bool) -> (res: Result<Vec<PositionedEvent>, xml::reader::Error>)
    ensures
        res is Err <==> is_malformed(markup_steps(bytes@, ignore_comments)),
        res matches Ok(events) ==> events.deep_view() == events_of(markup_steps(bytes@, ignore_comments)),
{
    let ghost steps = markup_steps(bytes@, ignore_comments);
    let mut reader = open_reader(bytes, ignore_comments);
    let mut events: Vec<PositionedEvent> = Vec::new();
    loop
        invariant
            steps == markup_steps(bytes@, ignore_comments),
            events.len() <= steps.len(),
            reader_steps(reader) == steps.skip(events.len() as int),
            steps_succeed(steps, events.len() as int),
            events.deep_view() == Seq::new(events.len() as nat, |i: int| steps[i]->Some_0),
        decreases steps.len() - events.len(),
    {
        let ghost before = events.len() as int;
        match next_event(&mut reader) {
            Ok(Some(event)) => {
                let position = position_of(&reader);
                let ghost earlier = events.deep_view();
                let ghost read = PositionedEventView { event: event@, position };
                events.push(PositionedEvent { event, position });
                proof {
                    assert(steps.skip(before)[0] == steps[before]);
                    assert(steps.skip(before).drop_first() == steps.skip(before + 1));
                    assert(steps[before] == Some(read));
                    assert(events.deep_view() =~= earlier.push(read));
                    assert(events.deep_view() =~= Seq::new(
                        events.len() as nat,
                        |i: int| steps[i]->Some_0,
                    ));
                }
            },
            Ok(None) => {
                assert(events.len() == steps.len());
                return Ok(events);
            },
            Err(error) => {
                assert(steps.skip(before)[0] == steps[before]);
                assert(steps[before] is None);
                return Err(error);
            },
        }
    }
}

} // verus!
