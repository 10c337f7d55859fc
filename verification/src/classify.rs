//! Classification of raw input: each item names an existing local file, is a
//! well-formed URL, or is neither.

use url::Url;
use vstd::prelude::*;

verus! {

/// One input item after classification. Each variant keeps the item as it was
/// given.
#[derive(Clone, Debug, PartialEq, Eq)]
pub enum ClassifiedItem {
    /// The item is the path of something that exists on disk.
    LocalFile(String),
    /// The item does not exist on disk and parses as an absolute URL.
    RemoteURL(String),
    /// The item is neither.
    Invalid(String),
}

/// The three kinds of item.
#[derive(Clone, Copy, Debug, PartialEq, Eq, Structural)]
pub enum ItemKind {
    LocalFile,
    RemoteURL,
    Invalid,
}

/// A classified item as mathematical values: its kind and its text.
pub struct Classification {
    pub kind: ItemKind,
    pub text: Seq<char>,
}

impl View for ClassifiedItem {
    type V = Classification;

    open spec fn view(&self) -> Classification {
        match self {
            ClassifiedItem::LocalFile(s) => Classification { kind: ItemKind::LocalFile, text: s@ },
            ClassifiedItem::RemoteURL(s) => Classification { kind: ItemKind::RemoteURL, text: s@ },
            ClassifiedItem::Invalid(s) => Classification { kind: ItemKind::Invalid, text: s@ },
        }
    }
}

/// The kind of an item that exists on disk or not, and parses as a URL or not.
/// Existence is asked first: an existing path is a local file whatever else it
/// may be.
pub open spec fn kind_of(on_disk: bool, parses: bool) -> ItemKind {
    if on_disk {
        ItemKind::LocalFile
    } else if parses {
        ItemKind::RemoteURL
    } else {
        ItemKind::Invalid
    }
}

/// The classification of `item`.
pub open spec fn classification(item: Seq<char>, on_disk: bool, parses: bool) -> Classification {
    Classification { kind: kind_of(on_disk, parses), text: item }
}

/// Whether `url::Url::parse` accepts `input` as an absolute URL.
pub uninterp spec fn url_parses(input: Seq<char>) -> bool;

/// Calls `url::Url::parse` and keeps only whether it succeeded. The contract
/// claims that this depends on the text alone.
#[verifier::external_body]
fn parses_as_url(input: &str) -> (r: bool)
    ensures
        r == url_parses(input@),
{
    Url::parse(input).is_ok()
}

/// Calls `std::path::Path::exists`, which asks the file system whether the path
/// points at something. Nothing is claimed of the answer.
#[verifier::external_body]
fn path_exists(path: &str) -> (r: bool)
{
    std::path::Path::new(path).exists()
}

impl ClassifiedItem {
    /// The kind of the item.
    pub fn kind(&self) -> (r: ItemKind)
        ensures
            r == self@.kind,
    {
        match self {
            ClassifiedItem::LocalFile(_) => ItemKind::LocalFile,
            ClassifiedItem::RemoteURL(_) => ItemKind::RemoteURL,
            ClassifiedItem::Invalid(_) => ItemKind::Invalid,
        }
    }

    /// The item as it was given.
    pub fn text(&self) -> (r: &str)
        ensures
            r@ == self@.text,
    {
        match self {
            ClassifiedItem::LocalFile(s) => s.as_str(),
            ClassifiedItem::RemoteURL(s) => s.as_str(),
            ClassifiedItem::Invalid(s) => s.as_str(),
        }
    }
}

/// Classifies `item`, given whether it exists on disk and whether it parses as a
/// URL.
pub fn classify_with(item: &str, on_disk: bool, parses: bool) -> (r: ClassifiedItem)
    ensures
        r@ == classification(item@, on_disk, parses),
{
    if on_disk {
        ClassifiedItem::LocalFile(item.to_owned())
    } else if parses {
        ClassifiedItem::RemoteURL(item.to_owned())
    } else {
        ClassifiedItem::Invalid(item.to_owned())
    }
}

/// Classifies `item`: asks the file system whether it exists and, where it does
/// not, whether it parses as a URL. Any text is classified, the empty one too.
pub fn classify(item: &str) -> (r: ClassifiedItem)
    ensures
        r@ == classification(item@, r@.kind == ItemKind::LocalFile, url_parses(item@)),
{
    if path_exists(item) {
        classify_with(item, true, false)
    } else {
        classify_with(item, false, parses_as_url(item))
    }
}

/// Classifies `item` where only local files are taken: it is a local file where
/// it exists on disk, and invalid where it does not.
pub fn classify_path(item: &str) -> (r: ClassifiedItem)
    ensures
        r@ == classification(item@, r@.kind == ItemKind::LocalFile, false),
{
    classify_with(item, path_exists(item), false)
}

/// Every item has exactly one kind, which its text, its existence on disk and
/// its being a URL determine: classifying again while the disk answers the same
/// gives the same.
pub proof fn lemma_classification_total(item: Seq<char>, on_disk: bool, parses: bool)
    ensures
        classification(item, on_disk, parses).text == item,
        classification(item, on_disk, parses).kind == ItemKind::LocalFile <==> on_disk,
        classification(item, on_disk, parses).kind == ItemKind::RemoteURL <==> !on_disk && parses,
        classification(item, on_disk, parses).kind == ItemKind::Invalid <==> !on_disk && !parses,
        classification(classification(item, on_disk, parses).text, on_disk, parses)
            == classification(item, on_disk, parses),
{
}

/// Two classifications of one item are the same where the file system answered
/// the same for both.
pub proof fn lemma_reclassified(item: Seq<char>, first: Classification, second: Classification)
    requires
        first == classification(item, first.kind == ItemKind::LocalFile, url_parses(item)),
        second == classification(item, second.kind == ItemKind::LocalFile, url_parses(item)),
        (first.kind == ItemKind::LocalFile) == (second.kind == ItemKind::LocalFile),
    ensures
        first == second,
{
}

/// An item that exists on disk is a local file, also where it parses as a URL.
pub proof fn lemma_existing_path_is_file(item: Seq<char>, parses: bool)
    ensures
        classification(item, true, parses).kind == ItemKind::LocalFile,
        classification(item, true, parses) == classification(item, true, !parses),
{
}

} // verus!
