//! The container reader: opens a compressed container of named parts and hands out each
//! part's name, size and bytes.

use crate::helpers::{find_urls, urls_in, FoundLinkView};
use crate::text::decode;
use std::io::Read;
use vstd::prelude::*;
use vstd::utf8::{decode_utf8, valid_utf8};

verus! {

/// The error of the `zip` crate.
#[verifier::external_type_specification]
#[verifier::external_body]
pub struct ExZipError(zip::result::ZipError);

/// A reader over bytes in memory.
#[verifier::external_type_specification]
#[verifier::external_body]
#[verifier::reject_recursive_types(T)]
pub struct ExCursor<T>(std::io::Cursor<T>);

/// An open archive of the `zip` crate.
#[verifier::external_type_specification]
#[verifier::external_body]
#[verifier::reject_recursive_types(R)]
pub struct ExZipArchive<R>(zip::ZipArchive<R>);

/// What the directory of a container says of one part.
#[derive(Debug)]
pub struct PartHeader {
    /// The part's name, with its path inside the container.
    pub name: String,
    /// The length that the part is declared to have when decompressed.
    pub size: u64,
}

/// Mathematical model of a [`PartHeader`].
pub struct PartHeaderView {
    pub name: Seq<char>,
    pub size: nat,
}

impl View for PartHeader {
    type V = PartHeaderView;

    open spec fn view(&self) -> PartHeaderView {
        PartHeaderView { name: self.name@, size: self.size as nat }
    }
}

impl DeepView for PartHeader {
    type V = PartHeaderView;

    open spec fn deep_view(&self) -> PartHeaderView {
        self@
    }
}

impl PartHeader {
    /// Puts a name and a size together.
    pub fn new(name: String, size: u64) -> (header: PartHeader)
        ensures
            header == (PartHeader { name, size }),
    {
        PartHeader { name, size }
    }
}

/// One part of a container, as the reader finds it.
pub struct PartView {
    /// Name and declared size; `None` where the part cannot be opened.
    pub header: Option<PartHeaderView>,
    /// The decompressed bytes; `None` where reading the part fails.
    pub content: Option<Seq<u8>>,
}

/// The container as we hold it: an archive over bytes in memory.
pub type Archive<'a> = zip::ZipArchive<std::io::Cursor<&'a [u8]>>;

/// The parts that `zip::ZipArchive` finds in a container, in the order of its directory;
/// `None` where the bytes are no container that it can open.
pub uninterp spec fn container_parts(bytes: Seq<u8>) -> Option<Seq<PartView>>;

/// The parts of an open archive.
pub uninterp spec fn archive_parts(archive: zip::ZipArchive<std::io::Cursor<&[u8]>>) -> Seq<PartView>;

/// Calls `zip::ZipArchive::new` on a cursor over the bytes. It reads the directory of the
/// container; whether it succeeds and what it finds depend on the bytes alone.
#[verifier::external_body]
pub(crate) fn open_archive<'a>(bytes: &'a [u8]) -> (res: Result<Archive<'a>, zip::result::ZipError>)
    ensures
        res is Ok <==> container_parts(bytes@) is Some,
        res matches Ok(archive) ==> Some(archive_parts(archive)) == container_parts(bytes@),
{
    zip::ZipArchive::new(std::io::Cursor::new(bytes))
}

/// Calls `zip::ZipArchive::len`: the number of parts in the directory.
#[verifier::external_body]
pub(crate) fn part_count(archive: &Archive) -> (count: usize)
    ensures
        count == archive_parts(*archive).len(),
{
    archive.len()
}

/// Calls `zip::ZipArchive::by_index`, then `name` and `size` on the part: opens the part
/// at `index` without reading it. The archive holds the same parts afterwards.
#[verifier::external_body]
pub(crate) fn part_header(archive: &mut Archive, index: usize) -> (res: Result<
    PartHeader,
    zip::result::ZipError,
>)
    requires
        index < archive_parts(*old(archive)).len(),
    ensures
        archive_parts(*final(archive)) == archive_parts(*old(archive)),
        res is Ok <==> archive_parts(*old(archive))[index as int].header is Some,
        res matches Ok(header) ==> Some(header@) == archive_parts(*old(archive))[index as int].header,
{
    let part = archive.by_index(index)?;
    Ok(PartHeader::new(part.name()?.into_owned(), part.size()))
}

/// Calls `zip::ZipArchive::by_index` and reads the part to its end with
/// `std::io::Read::read_to_end`: the decompressed bytes of the part at `index`. The
/// archive holds the same parts afterwards.
#[verifier::external_body]
pub(crate) fn part_bytes(archive: &mut Archive, index: usize) -> (res: Result<
    Vec<u8>,
    zip::result::ZipError,
>)
    requires
        index < archive_parts(*old(archive)).len(),
    ensures
        archive_parts(*final(archive)) == archive_parts(*old(archive)),
        res is Ok <==> archive_parts(*old(archive))[index as int].content is Some,
        res matches Ok(bytes) ==> Some(bytes@) == archive_parts(*old(archive))[index as int].content,
{
    let mut bytes = Vec::new();
    archive.by_index(index)?.read_to_end(&mut bytes)?;
    Ok(bytes)
}

/// The texts of the first `n` links.
pub open spec fn texts_of(found: Seq<FoundLinkView>, n: nat) -> Seq<Seq<char>> {
    Seq::new(n, |i: int| found[i].text)
}

/// The web addresses in a part, read as one text. A part that cannot be read, or that
/// is no valid UTF-8, holds none.
pub open spec fn unfiltered_part_links(part: PartView) -> Seq<Seq<char>> {
    match part.content {
        Some(content) => if valid_utf8(content) {
            texts_of(urls_in(decode_utf8(content)), urls_in(decode_utf8(content)).len())
        } else {
            Seq::empty()
        },
        None => Seq::empty(),
    }
}

/// Every one of the first `n` parts can be opened.
pub open spec fn parts_open(parts: Seq<PartView>, n: int) -> bool {
    forall|i: int| 0 <= i < n ==> (#[trigger] parts[i]).header is Some
}

/// The web addresses in the first `n` parts, in the order of the parts.
pub open spec fn unfiltered_links(parts: Seq<PartView>, n: nat) -> Seq<Seq<char>>
    decreases n,
{
    if n == 0 {
        Seq::empty()
    } else {
        unfiltered_links(parts, (n - 1) as nat) + unfiltered_part_links(parts[n - 1])
    }
}

/// What scraping every part of a container comes to: the web addresses of the parts, or
/// `None` where the bytes are no container or a part cannot be opened.
pub open spec fn unfiltered_outcome(bytes: Seq<u8>) -> Option<Seq<Seq<char>>> {
    match container_parts(bytes) {
        Some(parts) => if parts_open(parts, parts.len() as int) {
            Some(unfiltered_links(parts, parts.len()))
        } else {
            None
        },
        None => None,
    }
}

/// The texts of the web addresses in `text`.
pub fn url_texts(text: &str) -> (urls: Vec<String>)
    ensures
        urls.deep_view() == texts_of(urls_in(text@), urls_in(text@).len()),
{
    let found = find_urls(text);
    let mut urls: Vec<String> = Vec::new();
    let mut i: usize = 0;
    while i < found.len()
        invariant
            i <= found.len(),
            urls.deep_view() == texts_of(found.deep_view(), i as nat),
        decreases found.len() - i,
    {
        let ghost earlier = urls.deep_view();
        urls.push(found[i].text.clone());
        assert(urls.deep_view() =~= earlier.push(found.deep_view()[i as int].text));
        i += 1;
    }
    urls
}

/// Moves the texts of `more` behind those of `texts`.
pub fn append_texts(texts: &mut Vec<String>, more: Vec<String>)
    ensures
        final(texts).deep_view() == old(texts).deep_view() + more.deep_view(),
{
    let mut more = more;
    let ghost moved = more.deep_view();
    texts.append(&mut more);
    assert(texts.deep_view() =~= old(texts).deep_view() + moved);
}

/// Scrapes all links from a container, whatever its parts are: each part that is valid
/// UTF-8 is searched as one text. Fails where the bytes are no container, or where a
/// part cannot be opened; a part that cannot be read to its end is passed over.
pub fn scrape_unfiltered(bytes: &[u8]) -> (res: Result<Vec<String>, zip::result::ZipError>)
    ensures
        res is Ok <==> unfiltered_outcome(bytes@) is Some,
        res matches Ok(links) ==> Some(links.deep_view()) == unfiltered_outcome(bytes@),
{
    let mut archive = match open_archive(bytes) {
        Ok(archive) => archive,
        Err(error) => {
            return Err(error);
        },
    };
    let ghost parts = archive_parts(archive);
    let count = part_count(&archive);
    let mut links: Vec<String> = Vec::new();
    let mut i: usize = 0;
    while i < count
        invariant
            i <= count == parts.len(),
            container_parts(bytes@) == Some(parts),
            archive_parts(archive) == parts,
            parts_open(parts, i as int),
            links.deep_view() == unfiltered_links(parts, i as nat),
        decreases count - i,
    {
        match part_header(&mut archive, i) {
            Ok(_) => {},
            Err(error) => {
                return Err(error);
            },
        }
        match part_bytes(&mut archive, i) {
            Ok(content) => {
                match decode(content.as_slice()) {
                    Ok(text) => {
                        append_texts(&mut links, url_texts(text));
                    },
                    Err(_) => {
                        assert(links.deep_view() + Seq::<Seq<char>>::empty() =~= links.deep_view());
                    },
                }
            },
            Err(_) => {
                assert(links.deep_view() + Seq::<Seq<char>>::empty() =~= links.deep_view());
            },
        }
        i += 1;
    }
    Ok(links)
}

/// What made the extraction from a container fail.
#[derive(Clone, Copy, Debug, PartialEq, Eq, Structural)]
pub enum FailureKind {
    /// A part could not be opened or read.
    Archive,
    /// A part holds malformed markup.
    Markup,
}

/// What the extraction from one part comes to.
pub enum PartOutcome<L> {
    /// The part is passed over.
    Ignored,
    /// The part was read; holds its links.
    Links(Seq<L>),
    /// The part could not be read or is malformed.
    Failed(FailureKind),
}

/// The links of the first `n` parts, in the order of the parts; the first failure
/// among them where there is one.
pub open spec fn gather<L>(outcomes: Seq<PartOutcome<L>>, n: nat) -> Result<Seq<L>, FailureKind>
    decreases n,
{
    if n == 0 {
        Ok(Seq::empty())
    } else {
        match gather(outcomes, (n - 1) as nat) {
            Err(kind) => Err(kind),
            Ok(links) => match outcomes[n - 1] {
                PartOutcome::Ignored => Ok(links),
                PartOutcome::Links(more) => Ok(links + more),
                PartOutcome::Failed(kind) => Err(kind),
            },
        }
    }
}

/// Extraction from a container is complete or yields nothing: where one part fails, no
/// list of links comes back, whatever the other parts hold.
pub proof fn lemma_gather_complete_or_nothing<L>(outcomes: Seq<PartOutcome<L>>, n: nat, failed: int)
    requires
        0 <= failed < n,
        outcomes[failed] is Failed,
    ensures
        gather(outcomes, n) is Err,
    decreases n,
{
    if failed < n - 1 {
        lemma_gather_complete_or_nothing(outcomes, (n - 1) as nat, failed);
    }
}

/// Where the first `n` parts fail, so do more of them.
pub proof fn lemma_gather_prefix<L>(outcomes: Seq<PartOutcome<L>>, n: nat, m: nat)
    requires
        n <= m,
    ensures
        gather(outcomes, n) is Err ==> gather(outcomes, m) == gather(outcomes, n),
    decreases m,
{
    if n < m {
        lemma_gather_prefix(outcomes, n, (m - 1) as nat);
    }
}

} // verus!
