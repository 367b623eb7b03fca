//! The elements of the XML Linking Language, as their start tags describe them.

use crate::formats::xml::xlink::{
    get_xlink_attribute_value, xlink_value, XLinkFormatError, XLinkFormatErrorView,
};
use crate::formats::xml::{XmlStartElement, XmlStartElementView};
use crate::text::str_eq;
use vstd::prelude::*;

verus! {

/// The kinds of linking element.
#[derive(Clone, Copy, Debug, PartialEq, Eq, Structural)]
pub enum XLinkType {
    Simple,
    Extended,
    Locator,
    Arc,
    Resource,
    Title,
}

/// The kind of linking element that the value of a `type` attribute names.
pub open spec fn type_named(value: Seq<char>) -> Option<XLinkType> {
    if value == "simple"@ {
        Some(XLinkType::Simple)
    } else if value == "extended"@ {
        Some(XLinkType::Extended)
    } else if value == "locator"@ {
        Some(XLinkType::Locator)
    } else if value == "arc"@ {
        Some(XLinkType::Arc)
    } else if value == "resource"@ {
        Some(XLinkType::Resource)
    } else if value == "title"@ {
        Some(XLinkType::Title)
    } else {
        None
    }
}

impl XLinkType {
    /// Reads the kind of linking element from the value of a `type` attribute. A value
    /// that names no kind is an error that holds the value.
    pub fn try_from(value: &str) -> (res: Result<XLinkType, XLinkFormatError>)
        ensures
            match type_named(value@) {
                Some(kind) => res == Ok::<XLinkType, XLinkFormatError>(kind),
                None => res is Err && res->Err_0@ == XLinkFormatErrorView::UnknownTypeError(value@),
            },
    {
        if str_eq(value, "simple") {
            Ok(XLinkType::Simple)
        } else if str_eq(value, "extended") {
            Ok(XLinkType::Extended)
        } else if str_eq(value, "locator") {
            Ok(XLinkType::Locator)
        } else if str_eq(value, "arc") {
            Ok(XLinkType::Arc)
        } else if str_eq(value, "resource") {
            Ok(XLinkType::Resource)
        } else if str_eq(value, "title") {
            Ok(XLinkType::Title)
        } else {
            Err(XLinkFormatError::UnknownTypeError(value.to_owned()))
        }
    }
}

/// A simple link.
pub struct XlinkSimpleElement<'a> {
    pub href: Option<String>,
    pub role: Option<String>,
    pub arcrole: Option<String>,
    pub title: Option<String>,
    pub show: Option<String>,
    pub actuate: Option<String>,
    pub xml: XmlStartElement<'a>,
}

/// An extended link, which holds locators, arcs, resources and titles.
pub struct XlinkExtendedElement<'a> {
    pub role: Option<String>,
    pub title: Option<String>,
    pub xml: XmlStartElement<'a>,
}

/// A locator: the address of a remote resource that takes part in an extended link.
pub struct XlinkLocatorElement<'a> {
    pub href: String,
    pub role: Option<String>,
    pub title: Option<String>,
    pub xml: XmlStartElement<'a>,
}

/// An arc: a rule for going from one resource of an extended link to another.
pub struct XlinkArcElement<'a> {
    pub arcrole: Option<String>,
    pub title: Option<String>,
    pub show: Option<String>,
    pub actuate: Option<String>,
    pub from: Option<String>,
    pub to: Option<String>,
    pub xml: XmlStartElement<'a>,
}

/// A local resource that takes part in an extended link.
pub struct XlinkResourceElement<'a> {
    pub role: Option<String>,
    pub title: Option<String>,
    pub label: Option<String>,
    pub xml: XmlStartElement<'a>,
}

/// A title of an extended link, of a locator or of an arc.
pub struct XlinkTitleElement<'a> {
    pub xml: XmlStartElement<'a>,
}

/// A linking element.
pub enum XlinkElement<'a> {
    Simple(XlinkSimpleElement<'a>),
    Extended(XlinkExtendedElement<'a>),
    Locator(XlinkLocatorElement<'a>),
    Arc(XlinkArcElement<'a>),
    Resource(XlinkResourceElement<'a>),
    Title(XlinkTitleElement<'a>),
}

/// Mathematical model of an [`XlinkElement`]: its kind and the values of its linking
/// attributes that hold links.
#[allow(inconsistent_fields)]
pub enum XlinkElementView {
    Simple { href: Option<Seq<char>>, role: Option<Seq<char>>, arcrole: Option<Seq<char>> },
    Extended { role: Option<Seq<char>>, start: XmlStartElementView },
    Locator { href: Seq<char>, role: Option<Seq<char>> },
    Arc { arcrole: Option<Seq<char>> },
    Resource { role: Option<Seq<char>> },
    Title,
}

impl<'a> View for XlinkElement<'a> {
    type V = XlinkElementView;

    open spec fn view(&self) -> XlinkElementView {
        match self {
            XlinkElement::Simple(element) => XlinkElementView::Simple {
                href: element.href.deep_view(),
                role: element.role.deep_view(),
                arcrole: element.arcrole.deep_view(),
            },
            XlinkElement::Extended(element) => XlinkElementView::Extended {
                role: element.role.deep_view(),
                start: element.xml@,
            },
            XlinkElement::Locator(element) => XlinkElementView::Locator {
                href: element.href@,
                role: element.role.deep_view(),
            },
            XlinkElement::Arc(element) => XlinkElementView::Arc { arcrole: element.arcrole.deep_view() },
            XlinkElement::Resource(element) => XlinkElementView::Resource {
                role: element.role.deep_view(),
            },
            XlinkElement::Title(_) => XlinkElementView::Title,
        }
    }
}

/// The value of the linking attribute `key` of an element.
pub open spec fn value_of(start: XmlStartElementView, key: Seq<char>) -> Option<Seq<char>> {
    xlink_value(start.attributes, start.attributes.len(), key)
}

/// The kind of linking element that a start tag opens: the kind that its `type`
/// attribute names; without that attribute a simple link where it has a `href`
/// attribute, and else no linking element. `None` where the `type` attribute names no
/// kind.
pub open spec fn kind_of(start: XmlStartElementView) -> Option<Option<XLinkType>> {
    match value_of(start, "type"@) {
        Some(value) => match type_named(value) {
            Some(kind) => Some(Some(kind)),
            None => None,
        },
        None => if value_of(start, "href"@) is Some {
            Some(Some(XLinkType::Simple))
        } else {
            Some(None)
        },
    }
}

/// The linking element that a start tag opens, if it opens one; the error where the
/// tag is no valid linking element.
pub open spec fn element_of(start: XmlStartElementView) -> Result<
    Option<XlinkElementView>,
    XLinkFormatErrorView,
> {
    match kind_of(start) {
        None => Err(XLinkFormatErrorView::UnknownTypeError(value_of(start, "type"@)->Some_0)),
        Some(None) => Ok(None),
        Some(Some(XLinkType::Simple)) => Ok(
            Some(
                XlinkElementView::Simple {
                    href: value_of(start, "href"@),
                    role: value_of(start, "role"@),
                    arcrole: value_of(start, "arcrole"@),
                },
            ),
        ),
        Some(Some(XLinkType::Extended)) => Ok(
            Some(XlinkElementView::Extended { role: value_of(start, "role"@), start }),
        ),
        Some(Some(XLinkType::Locator)) => match value_of(start, "href"@) {
            Some(href) => Ok(Some(XlinkElementView::Locator { href, role: value_of(start, "role"@) })),
            None => Err(XLinkFormatErrorView::MissingRequiredAttributeError("href"@)),
        },
        Some(Some(XLinkType::Arc)) => Ok(
            Some(XlinkElementView::Arc { arcrole: value_of(start, "arcrole"@) }),
        ),
        Some(Some(XLinkType::Resource)) => Ok(
            Some(XlinkElementView::Resource { role: value_of(start, "role"@) }),
        ),
        Some(Some(XLinkType::Title)) => Ok(Some(XlinkElementView::Title)),
    }
}

/// The model of what reading a linking element comes to.
pub open spec fn reading_view(res: Result<Option<XlinkElement>, XLinkFormatError>) -> Result<
    Option<XlinkElementView>,
    XLinkFormatErrorView,
> {
    match res {
        Ok(Some(element)) => Ok(Some(element@)),
        Ok(None) => Ok(None),
        Err(error) => Err(error@),
    }
}

impl<'a> XlinkSimpleElement<'a> {
    /// Reads a simple link from its start tag.
    pub fn try_from(xml_start_element: XmlStartElement<'a>) -> (res: Result<
        XlinkSimpleElement<'a>,
        XLinkFormatError,
    >)
        ensures
            res is Ok,
            res->Ok_0.xml == xml_start_element,
            res->Ok_0.href.deep_view() == value_of(xml_start_element@, "href"@),
            res->Ok_0.role.deep_view() == value_of(xml_start_element@, "role"@),
            res->Ok_0.arcrole.deep_view() == value_of(xml_start_element@, "arcrole"@),
            res->Ok_0.title.deep_view() == value_of(xml_start_element@, "title"@),
            res->Ok_0.show.deep_view() == value_of(xml_start_element@, "show"@),
            res->Ok_0.actuate.deep_view() == value_of(xml_start_element@, "actuate"@),
    {
        Ok(
            XlinkSimpleElement {
                href: get_xlink_attribute_value("href", xml_start_element.attributes),
                role: get_xlink_attribute_value("role", xml_start_element.attributes),
                arcrole: get_xlink_attribute_value("arcrole", xml_start_element.attributes),
                title: get_xlink_attribute_value("title", xml_start_element.attributes),
                show: get_xlink_attribute_value("show", xml_start_element.attributes),
                actuate: get_xlink_attribute_value("actuate", xml_start_element.attributes),
                xml: xml_start_element,
            },
        )
    }
}

impl<'a> XlinkExtendedElement<'a> {
    /// Reads an extended link from its start tag.
    pub fn try_from(xml_start_element: XmlStartElement<'a>) -> (res: Result<
        XlinkExtendedElement<'a>,
        XLinkFormatError,
    >)
        ensures
            res is Ok,
            res->Ok_0.xml == xml_start_element,
            res->Ok_0.role.deep_view() == value_of(xml_start_element@, "role"@),
            res->Ok_0.title.deep_view() == value_of(xml_start_element@, "title"@),
    {
        Ok(
            XlinkExtendedElement {
                role: get_xlink_attribute_value("role", xml_start_element.attributes),
                title: get_xlink_attribute_value("title", xml_start_element.attributes),
                xml: xml_start_element,
            },
        )
    }
}

impl<'a> XlinkLocatorElement<'a> {
    /// Reads a locator from its start tag. A locator must have a `href` attribute.
    pub fn try_from(xml_start_element: XmlStartElement<'a>) -> (res: Result<
        XlinkLocatorElement<'a>,
        XLinkFormatError,
    >)
        ensures
            match value_of(xml_start_element@, "href"@) {
                Some(href) => {
                    &&& res is Ok
                    &&& res->Ok_0.xml == xml_start_element
                    &&& res->Ok_0.href@ == href
                    &&& res->Ok_0.role.deep_view() == value_of(xml_start_element@, "role"@)
                    &&& res->Ok_0.title.deep_view() == value_of(xml_start_element@, "title"@)
                },
                None => res is Err && res->Err_0@ == XLinkFormatErrorView::MissingRequiredAttributeError(
                    "href"@,
                ),
            },
    {
        let href = match get_xlink_attribute_value("href", xml_start_element.attributes) {
            Some(href) => href,
            None => {
                return Err(XLinkFormatError::MissingRequiredAttributeError("href".to_owned()));
            },
        };
        Ok(
            XlinkLocatorElement {
                href,
                role: get_xlink_attribute_value("role", xml_start_element.attributes),
                title: get_xlink_attribute_value("title", xml_start_element.attributes),
                xml: xml_start_element,
            },
        )
    }
}

impl<'a> XlinkArcElement<'a> {
    /// Reads an arc from its start tag.
    pub fn try_from(xml_start_element: XmlStartElement<'a>) -> (res: Result<
        XlinkArcElement<'a>,
        XLinkFormatError,
    >)
        ensures
            res is Ok,
            res->Ok_0.xml == xml_start_element,
            res->Ok_0.arcrole.deep_view() == value_of(xml_start_element@, "arcrole"@),
            res->Ok_0.title.deep_view() == value_of(xml_start_element@, "title"@),
            res->Ok_0.show.deep_view() == value_of(xml_start_element@, "show"@),
            res->Ok_0.actuate.deep_view() == value_of(xml_start_element@, "actuate"@),
            res->Ok_0.from.deep_view() == value_of(xml_start_element@, "from"@),
            res->Ok_0.to.deep_view() == value_of(xml_start_element@, "to"@),
    {
        Ok(
            XlinkArcElement {
                arcrole: get_xlink_attribute_value("arcrole", xml_start_element.attributes),
                title: get_xlink_attribute_value("title", xml_start_element.attributes),
                show: get_xlink_attribute_value("show", xml_start_element.attributes),
                actuate: get_xlink_attribute_value("actuate", xml_start_element.attributes),
                from: get_xlink_attribute_value("from", xml_start_element.attributes),
                to: get_xlink_attribute_value("to", xml_start_element.attributes),
                xml: xml_start_element,
            },
        )
    }
}

impl<'a> XlinkResourceElement<'a> {
    /// Reads a resource from its start tag.
    pub fn try_from(xml_start_element: XmlStartElement<'a>) -> (res: Result<
        XlinkResourceElement<'a>,
        XLinkFormatError,
    >)
        ensures
            res is Ok,
            res->Ok_0.xml == xml_start_element,
            res->Ok_0.role.deep_view() == value_of(xml_start_element@, "role"@),
            res->Ok_0.title.deep_view() == value_of(xml_start_element@, "title"@),
            res->Ok_0.label.deep_view() == value_of(xml_start_element@, "label"@),
    {
        Ok(
            XlinkResourceElement {
                role: get_xlink_attribute_value("role", xml_start_element.attributes),
                title: get_xlink_attribute_value("title", xml_start_element.attributes),
                label: get_xlink_attribute_value("label", xml_start_element.attributes),
                xml: xml_start_element,
            },
        )
    }
}

impl<'a> XlinkTitleElement<'a> {
    /// Reads a title from its start tag.
    pub fn try_from(xml_start_element: XmlStartElement<'a>) -> (res: Result<
        XlinkTitleElement<'a>,
        XLinkFormatError,
    >)
        ensures
            res is Ok,
            res->Ok_0.xml == xml_start_element,
    {
        Ok(XlinkTitleElement { xml: xml_start_element })
    }
}

impl<'a> XlinkElement<'a> {
    /// Reads the linking element that a start tag opens, if it opens one.
    ///
    /// The kind is the one that the `type` attribute names; an element without that
    /// attribute is a simple link where it has a `href` attribute, and else no linking
    /// element. A `type` attribute that names no kind is an error, and so is a locator
    /// without a `href` attribute.
    pub fn try_from_xml_start_element(xml_start_element: XmlStartElement<'a>) -> (res: Result<
        Option<XlinkElement<'a>>,
        XLinkFormatError,
    >)
        ensures
            reading_view(res) == element_of(xml_start_element@),
    {
        let xlink_href = get_xlink_attribute_value("href", xml_start_element.attributes);
        let mut xlink_type_option = match get_xlink_attribute_value(
            "type",
            xml_start_element.attributes,
        ) {
            Some(type_value) => match XLinkType::try_from(type_value.as_str()) {
                Ok(kind) => Some(kind),
                Err(error) => {
                    return Err(error);
                },
            },
            None => None,
        };
        if xlink_href.is_some() && xlink_type_option.is_none() {
            xlink_type_option = Some(XLinkType::Simple);
        }
        match xlink_type_option {
            None => Ok(None),
            Some(XLinkType::Simple) => match XlinkSimpleElement::try_from(xml_start_element) {
                Ok(element) => Ok(Some(XlinkElement::Simple(element))),
                Err(error) => Err(error),
            },
            Some(XLinkType::Extended) => match XlinkExtendedElement::try_from(xml_start_element) {
                Ok(element) => Ok(Some(XlinkElement::Extended(element))),
                Err(error) => Err(error),
            },
            Some(XLinkType::Locator) => match XlinkLocatorElement::try_from(xml_start_element) {
                Ok(element) => Ok(Some(XlinkElement::Locator(element))),
                Err(error) => Err(error),
            },
            Some(XLinkType::Arc) => match XlinkArcElement::try_from(xml_start_element) {
                Ok(element) => Ok(Some(XlinkElement::Arc(element))),
                Err(error) => Err(error),
            },
            Some(XLinkType::Resource) => match XlinkResourceElement::try_from(xml_start_element) {
                Ok(element) => Ok(Some(XlinkElement::Resource(element))),
                Err(error) => Err(error),
            },
            Some(XLinkType::Title) => match XlinkTitleElement::try_from(xml_start_element) {
                Ok(element) => Ok(Some(XlinkElement::Title(element))),
                Err(error) => Err(error),
            },
        }
    }
}

} // verus!
