//! Inspection of downloaded payloads: is it a ZIP, what entries does it list,
//! and how are they rooted.

use crate::error::{ErrorKind, LibraryError};
use crate::text::{before_first, chars_of, find_char, string_of};
use vstd::prelude::*;

verus! {

/// The error type of the `zip` crate.
#[verifier::external_type_specification]
#[verifier::external_body]
pub struct ExZipError(zip::result::ZipError);

/// The four bytes that open a ZIP local file header.
pub open spec fn zip_magic() -> Seq<u8> {
    seq![0x50u8, 0x4Bu8, 0x03u8, 0x04u8]
}

/// Whether `bytes` opens with the ZIP magic sequence.
pub open spec fn has_zip_magic(bytes: Seq<u8>) -> bool {
    bytes.len() >= 4 && bytes.subrange(0, 4) == zip_magic()
}

/// The number of entries that the central directory of the archive `bytes`
/// lists, as the `zip` crate reads it; `None` where it cannot read `bytes` as
/// an archive.
pub uninterp spec fn zip_entry_count(bytes: Seq<u8>) -> Option<nat>;

/// The name of entry `index` of the archive `bytes`, as the `zip` crate reads
/// it; `None` where it cannot read the archive or open the entry.
pub uninterp spec fn zip_entry_name(bytes: Seq<u8>, index: nat) -> Option<Seq<char>>;

/// The contents of entry `index` of the archive `bytes`, as the `zip` crate
/// unpacks it; `None` where it cannot read the archive or the entry.
pub uninterp spec fn zip_entry_data(bytes: Seq<u8>, index: nat) -> Option<Seq<u8>>;

/// Opens `bytes` with `zip::ZipArchive::new` and asks `ZipArchive::len` for the
/// number of entries. The outcome depends on the bytes alone.
#[verifier::external_body]
fn read_entry_count(bytes: &[u8]) -> (count: Result<usize, zip::result::ZipError>)
    ensures
        match count {
            Ok(n) => zip_entry_count(bytes@) == Some(n as nat),
            Err(_) => zip_entry_count(bytes@) is None,
        },
{
    Ok(zip::ZipArchive::new(std::io::Cursor::new(bytes))?.len())
}

/// Opens `bytes` with `zip::ZipArchive::new`, opens entry `index` with
/// `ZipArchive::by_index` and asks `ZipFile::name` for its name. The outcome
/// depends on the bytes and the index alone.
#[verifier::external_body]
fn read_entry_name(bytes: &[u8], index: usize) -> (name: Result<String, zip::result::ZipError>)
    ensures
        match name {
            Ok(text) => zip_entry_name(bytes@, index as nat) == Some(text@),
            Err(_) => zip_entry_name(bytes@, index as nat) is None,
        },
{
    Ok(zip::ZipArchive::new(std::io::Cursor::new(bytes))?.by_index(index)?.name().to_string())
}

/// Opens `bytes` with `zip::ZipArchive::new`, opens entry `index` with
/// `ZipArchive::by_index` and reads it to its end. The outcome depends on the
/// bytes and the index alone.
#[verifier::external_body]
fn read_entry_data(bytes: &[u8], index: usize) -> (data: Result<Vec<u8>, zip::result::ZipError>)
    ensures
        match data {
            Ok(content) => zip_entry_data(bytes@, index as nat) == Some(content@),
            Err(_) => zip_entry_data(bytes@, index as nat) is None,
        },
{
    let mut archive = zip::ZipArchive::new(std::io::Cursor::new(bytes))?;
    let mut entry = archive.by_index(index)?;
    let mut content = Vec::new();
    std::io::Read::read_to_end(&mut entry, &mut content)?;
    Ok(content)
}

/// The message of a `zip::result::ZipError`, as its `Display` impl writes it.
/// Nothing is claimed of the text.
#[verifier::external_body]
fn describe(error: &zip::result::ZipError) -> (message: String) {
    error.to_string()
}

/// The names of the entries of the archive `bytes`, in archive order; `None`
/// where the archive or one of its entries cannot be read.
pub open spec fn archive_names(bytes: Seq<u8>) -> Option<Seq<Seq<char>>> {
    match zip_entry_count(bytes) {
        None => None,
        Some(count) => if forall|i: nat| i < count ==> (#[trigger] zip_entry_name(bytes, i)) is Some {
            Some(Seq::new(count, |i: int| zip_entry_name(bytes, i as nat)->0))
        } else {
            None
        },
    }
}

/// How the entries of an archive are rooted.
#[derive(Debug, Clone, PartialEq, Eq)]
pub enum RootLayout {
    /// Every entry lies under this one top-level name.
    SingleRoot(String),
    /// The entries lie under several top-level names, or there is no entry.
    MultiRoot,
}

/// The mathematical value of a [`RootLayout`].
pub enum RootLayoutView {
    SingleRoot(Seq<char>),
    MultiRoot,
}

impl View for RootLayout {
    type V = RootLayoutView;

    open spec fn view(&self) -> RootLayoutView {
        match *self {
            RootLayout::SingleRoot(root) => RootLayoutView::SingleRoot(root@),
            RootLayout::MultiRoot => RootLayoutView::MultiRoot,
        }
    }
}

/// The first component of an entry's path: the name up to its first `/`.
pub open spec fn first_component(name: Seq<char>) -> Seq<char> {
    before_first(name, '/')
}

/// Whether the first `upto` of `names` share their first component.
pub open spec fn share_root(names: Seq<Seq<char>>, upto: int) -> bool {
    forall|i: int| 0 <= i < upto ==> first_component(#[trigger] names[i]) == first_component(names[0])
}

/// The layout of an archive with these entry names: a single root where there
/// is exactly one distinct first component.
pub open spec fn root_layout(names: Seq<Seq<char>>) -> RootLayoutView {
    if names.len() > 0 && share_root(names, names.len() as int) {
        RootLayoutView::SingleRoot(first_component(names[0]))
    } else {
        RootLayoutView::MultiRoot
    }
}

/// Tells a ZIP payload from any other by its first four bytes. A payload
/// shorter than four bytes is not a ZIP.
pub fn is_zip(bytes: &[u8]) -> (zip: bool)
    ensures
        zip == has_zip_magic(bytes@),
{
    if bytes.len() < 4 {
        return false;
    }
    let zip = bytes[0] == 0x50 && bytes[1] == 0x4B && bytes[2] == 0x03 && bytes[3] == 0x04;
    proof {
        let head = bytes@.subrange(0, 4);
        if zip {
            assert(head =~= zip_magic());
        }
    }
    zip
}

/// The first component of an entry's path.
pub fn root_of(name: &str) -> (root: String)
    ensures
        root@ == first_component(name@),
{
    let chars = chars_of(name);
    let cut = find_char(&chars, 0, '/');
    proof {
        assert(chars@.skip(0) =~= chars@);
    }
    string_of(&chars, 0, cut)
}

/// Classifies the entries of an archive by their top-level names. The walk
/// stops at the first entry that lies under another root than the first one.
pub fn classify_roots(names: &Vec<String>) -> (layout: RootLayout)
    ensures
        layout@ == root_layout(names.deep_view()),
{
    if names.len() == 0 {
        return RootLayout::MultiRoot;
    }
    let ghost texts = names.deep_view();
    let root = root_of(names[0].as_str());
    let mut i: usize = 1;
    while i < names.len()
        invariant
            1 <= i <= names.len(),
            texts == names.deep_view(),
            root@ == first_component(texts[0]),
            share_root(texts, i as int),
        decreases names.len() - i,
    {
        let other = root_of(names[i].as_str());
        if other != root {
            assert(first_component(texts[i as int]) != first_component(texts[0]));
            return RootLayout::MultiRoot;
        }
        i += 1;
    }
    RootLayout::SingleRoot(root)
}

/// Lists the names of the entries of a ZIP archive, in archive order. Fails
/// with `InvalidArchive`, and the cause as the message, where the archive or
/// one of its entries cannot be read.
pub fn entry_names(bytes: &[u8]) -> (outcome: Result<Vec<String>, LibraryError>)
    ensures
        match outcome {
            Ok(names) => archive_names(bytes@) == Some(names.deep_view()),
            Err(error) => archive_names(bytes@) is None && error.kind()
                == ErrorKind::InvalidArchive,
        },
{
    let count = match read_entry_count(bytes) {
        Ok(count) => count,
        Err(error) => {
            return Err(LibraryError::InvalidArchive(describe(&error)));
        },
    };
    let mut names: Vec<String> = Vec::new();
    let mut i: usize = 0;
    while i < count
        invariant
            i <= count,
            zip_entry_count(bytes@) == Some(count as nat),
            names.len() == i,
            forall|k: int|
                0 <= k < i ==> zip_entry_name(bytes@, k as nat) == Some(#[trigger] names[k]@),
        decreases count - i,
    {
        match read_entry_name(bytes, i) {
            Ok(name) => {
                names.push(name);
            },
            Err(error) => {
                return Err(LibraryError::InvalidArchive(describe(&error)));
            },
        }
        i += 1;
    }
    proof {
        assert forall|k: nat| k < count implies (#[trigger] zip_entry_name(bytes@, k)) is Some by {
            assert(zip_entry_name(bytes@, k) == Some(names[k as int]@));
        }
    }
    Ok(names)
}

/// Unpacks entry `index` of a ZIP archive. Fails with `InvalidArchive`, and the
/// cause as the message, where the archive or the entry cannot be read.
pub fn entry_contents(bytes: &[u8], index: usize) -> (outcome: Result<Vec<u8>, LibraryError>)
    ensures
        match outcome {
            Ok(content) => zip_entry_data(bytes@, index as nat) == Some(content@),
            Err(error) => zip_entry_data(bytes@, index as nat) is None && error.kind()
                == ErrorKind::InvalidArchive,
        },
{
    match read_entry_data(bytes, index) {
        Ok(content) => Ok(content),
        Err(error) => Err(LibraryError::InvalidArchive(describe(&error))),
    }
}

} // verus!
