//! Links in the descriptive fields that a camera or a program wrote into an image.

use crate::helpers::{find_urls, urls_in, FoundLinkView};
use crate::views::result_view;
use vstd::prelude::*;

verus! {

/// The error of the `exif` crate.
#[verifier::external_type_specification]
#[verifier::external_body]
pub struct ExExifError(exif::Error);

/// Why an image could not be scraped.
#[derive(Debug)]
pub enum ImageScrapingError {
    /// The descriptive data of the image cannot be read; holds the reader's error.
    ExifError(exif::Error),
}

/// Mathematical model of an [`ImageScrapingError`]: which error it is.
pub enum ImageScrapingErrorView {
    ExifError,
}

impl View for ImageScrapingError {
    type V = ImageScrapingErrorView;

    open spec fn view(&self) -> ImageScrapingErrorView {
        ImageScrapingErrorView::ExifError
    }
}

impl DeepView for ImageScrapingError {
    type V = ImageScrapingErrorView;

    open spec fn deep_view(&self) -> ImageScrapingErrorView {
        self@
    }
}

/// A link found in an image.
#[derive(Debug)]
pub struct ImageLink {
    /// The link as it stands in the field.
    pub url: String,
    /// The name of the field.
    pub exif_field: String,
}

/// Mathematical model of an [`ImageLink`].
pub struct ImageLinkView {
    pub url: Seq<char>,
    pub exif_field: Seq<char>,
}

impl View for ImageLink {
    type V = ImageLinkView;

    open spec fn view(&self) -> ImageLinkView {
        ImageLinkView { url: self.url@, exif_field: self.exif_field@ }
    }
}

impl DeepView for ImageLink {
    type V = ImageLinkView;

    open spec fn deep_view(&self) -> ImageLinkView {
        self@
    }
}

impl Clone for ImageLink {
    fn clone(&self) -> (copy: ImageLink)
        ensures
            copy == *self,
    {
        ImageLink { url: self.url.clone(), exif_field: self.exif_field.clone() }
    }
}

impl PartialEq for ImageLink {
    fn eq(&self, other: &ImageLink) -> (same: bool)
    {
        self.url == other.url && self.exif_field == other.exif_field
    }
}

impl vstd::std_specs::cmp::PartialEqSpecImpl for ImageLink {
    open spec fn obeys_eq_spec() -> bool {
        true
    }

    open spec fn eq_spec(&self, other: &ImageLink) -> bool {
        self.url@ == other.url@ && self.exif_field@ == other.exif_field@
    }
}

impl ImageLink {
    /// The link as text: its URL.
    pub fn to_string(&self) -> (text: String)
        ensures
            text@ == self.url@,
    {
        self.url.clone()
    }
}

/// One descriptive field of an image.
#[derive(Debug)]
pub struct ExifField {
    /// The field's name.
    pub tag: String,
    /// The field's value as it is shown to a reader.
    pub text: String,
    /// Whether the value is text.
    pub is_text: bool,
}

/// Mathematical model of an [`ExifField`].
pub struct ExifFieldView {
    pub tag: Seq<char>,
    pub text: Seq<char>,
    pub is_text: bool,
}

impl View for ExifField {
    type V = ExifFieldView;

    open spec fn view(&self) -> ExifFieldView {
        ExifFieldView { tag: self.tag@, text: self.text@, is_text: self.is_text }
    }
}

impl DeepView for ExifField {
    type V = ExifFieldView;

    open spec fn deep_view(&self) -> ExifFieldView {
        self@
    }
}

impl ExifField {
    /// Puts the parts of a field together.
    pub fn new(tag: String, text: String, is_text: bool) -> (field: ExifField)
        ensures
            field == (ExifField { tag, text, is_text }),
    {
        ExifField { tag, text, is_text }
    }
}

/// What the reader of the `exif` crate finds in an image.
pub enum ExifReading {
    /// The image cannot be read.
    Failed,
    /// The image holds no descriptive data.
    Absent,
    /// The fields of the image, in the order of the reader.
    Fields(Seq<ExifFieldView>),
}

/// What `exif::Reader::read_from_container` finds in the bytes of an image.
pub uninterp spec fn exif_reading(bytes: Seq<u8>) -> ExifReading;

/// Calls `exif::Reader::read_from_container` with a new reader on a cursor over the
/// bytes and hands out each field: its name, its value as shown and whether the value
/// is text. An image without descriptive data gives `None`. What comes back depends on
/// the bytes alone.
#[verifier::external_body]
fn read_fields(bytes: &[u8]) -> (res: Result<Option<Vec<ExifField>>, exif::Error>)
    ensures
        match res {
            Ok(Some(fields)) => exif_reading(bytes@) == ExifReading::Fields(fields.deep_view()),
            Ok(None) => exif_reading(bytes@) is Absent,
            Err(_) => exif_reading(bytes@) is Failed,
        },
{
    match exif::Reader::new().read_from_container(&mut std::io::Cursor::new(bytes)) {
        Ok(data) => Ok(Some(data.fields().map(|field| ExifField::new(
            field.tag.to_string(),
            field.display_value().to_string(),
            matches!(field.value, exif::Value::Ascii(_)),
        )).collect())),
        Err(exif::Error::NotFound(_)) => Ok(None),
        Err(error) => Err(error),
    }
}

/// The first `n` web addresses of a field's value, as links of the field `tag`.
pub open spec fn links_of_matches(matches: Seq<FoundLinkView>, n: nat, tag: Seq<char>) -> Seq<
    ImageLinkView,
> {
    Seq::new(n, |i: int| ImageLinkView { url: matches[i].text, exif_field: tag })
}

/// The links of the first `n` fields: those in the values that are text.
pub open spec fn links_of_fields(fields: Seq<ExifFieldView>, n: nat) -> Seq<ImageLinkView>
    decreases n,
{
    if n == 0 {
        Seq::empty()
    } else {
        let before = links_of_fields(fields, (n - 1) as nat);
        let field = fields[n - 1];
        if field.is_text {
            before + links_of_matches(urls_in(field.text), urls_in(field.text).len(), field.tag)
        } else {
            before
        }
    }
}

/// What scraping an image comes to. An image without descriptive data holds no link.
pub open spec fn scrape_outcome(bytes: Seq<u8>) -> Result<Seq<ImageLinkView>, ImageScrapingErrorView> {
    match exif_reading(bytes) {
        ExifReading::Failed => Err(ImageScrapingErrorView::ExifError),
        ExifReading::Absent => Ok(Seq::empty()),
        ExifReading::Fields(fields) => Ok(links_of_fields(fields, fields.len())),
    }
}

/// Scrapes the links from the fields of an image.
pub fn scrape_from_fields(fields: &Vec<ExifField>) -> (links: Vec<ImageLink>)
    ensures
        links.deep_view() == links_of_fields(fields.deep_view(), fields.len() as nat),
{
    let mut links: Vec<ImageLink> = Vec::new();
    let mut i: usize = 0;
    while i < fields.len()
        invariant
            i <= fields.len(),
            links.deep_view() == links_of_fields(fields.deep_view(), i as nat),
        decreases fields.len() - i,
    {
        let field = &fields[i];
        assert(fields.deep_view()[i as int] == field@);
        if field.is_text {
            let ghost earlier = links.deep_view();
            let matches = find_urls(field.text.as_str());
            let mut k: usize = 0;
            while k < matches.len()
                invariant
                    k <= matches.len(),
                    links.deep_view() == earlier + links_of_matches(
                        matches.deep_view(),
                        k as nat,
                        field.tag@,
                    ),
                decreases matches.len() - k,
            {
                let ghost sofar = links.deep_view();
                let link = ImageLink { url: matches[k].text.clone(), exif_field: field.tag.clone() };
                let ghost pushed = link@;
                links.push(link);
                proof {
                    assert(links.deep_view() =~= sofar.push(pushed));
                    assert(links.deep_view() =~= earlier + links_of_matches(
                        matches.deep_view(),
                        (k + 1) as nat,
                        field.tag@,
                    ));
                }
                k += 1;
            }
        }
        i += 1;
    }
    links
}

/// Scrapes links from the descriptive data of an image. An image that holds none gives
/// no link and no error.
pub fn scrape(bytes: &[u8]) -> (res: Result<Vec<ImageLink>, ImageScrapingError>)
    ensures
        result_view(res) == scrape_outcome(bytes@),
{
    match read_fields(bytes) {
        Ok(Some(fields)) => Ok(scrape_from_fields(&fields)),
        Ok(None) => {
            let links: Vec<ImageLink> = Vec::new();
            assert(links.deep_view() =~= Seq::empty());
            Ok(links)
        },
        Err(error) => Err(ImageScrapingError::ExifError(error)),
    }
}

} // verus!
