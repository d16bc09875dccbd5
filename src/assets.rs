//! Locating a game's image files in an asset directory and reading their size.
use vstd::prelude::*;
use vstd::utf8::encode_utf8;

use crate::error::LibraryError;
use crate::text::{contains_bytes, contains_slice};

verus! {

/// One directory entry that could be read: its file name and full path.
pub struct DirEntryInfo {
    pub file_name: String,
    pub path: String,
}

/// What enumerating an asset directory gave. `entries` is `None` when the
/// directory itself could not be read; an entry is `None` when reading that
/// single entry failed. Entries keep the order of enumeration.
pub struct DirListing {
    pub dir: String,
    pub entries: Option<Vec<Option<DirEntryInfo>>>,
}

/// The resolved image for one slot: an empty path and zero size when none.
pub struct AssetRef {
    pub path: String,
    pub width: usize,
    pub height: usize,
}

/// An entry matches a slug when it was read and its file name contains the
/// slug (case-sensitive, compared on the UTF-8 bytes).
pub open spec fn entry_matches(e: Option<DirEntryInfo>, slug: Seq<char>) -> bool {
    match e {
        Some(info) => contains_bytes(encode_utf8(info.file_name@), encode_utf8(slug)),
        None => false,
    }
}

/// No entry matches.
pub open spec fn no_match(entries: Seq<Option<DirEntryInfo>>, slug: Seq<char>) -> bool {
    forall|j: int| 0 <= j < entries.len() ==> !entry_matches(#[trigger] entries[j], slug)
}

/// The path of an entry that was read (empty for one that was not).
pub open spec fn entry_path(e: Option<DirEntryInfo>) -> Seq<char> {
    match e {
        Some(info) => info.path@,
        None => Seq::empty(),
    }
}

/// The path of the first entry, in enumeration order, that matches `slug`.
pub open spec fn first_match_path(entries: Seq<Option<DirEntryInfo>>, slug: Seq<char>) -> Option<Seq<char>>
    decreases entries.len(),
{
    if entries.len() == 0 {
        None
    } else if entry_matches(entries[0], slug) {
        Some(entry_path(entries[0]))
    } else {
        first_match_path(entries.drop_first(), slug)
    }
}

/// The view of an optional path.
pub open spec fn opt_view(p: Option<String>) -> Option<Seq<char>> {
    match p {
        Some(s) => Some(s@),
        None => None,
    }
}

/// The path of the first entry whose file name contains `slug`, if any.
pub fn find_asset(entries: &Vec<Option<DirEntryInfo>>, slug: &String) -> (r: Option<String>)
    ensures
        opt_view(r) == first_match_path(entries@, slug@),
{
    let needle = slug.as_str().as_bytes();
    let mut i: usize = 0;
    assert(entries@.skip(0) =~= entries@);
    while i < entries.len()
        invariant
            i <= entries@.len(),
            needle@ == encode_utf8(slug@),
            first_match_path(entries@, slug@) == first_match_path(entries@.skip(i as int), slug@),
        decreases entries@.len() - i,
    {
        assert(entries@.skip(i as int).drop_first() =~= entries@.skip(i + 1));
        assert(entries@.skip(i as int)[0] == entries@[i as int]);
        match &entries[i] {
            Some(info) => {
                let name = info.file_name.as_str().as_bytes();
                if contains_slice(name, needle) {
                    return Some(info.path.clone());
                }
            },
            None => {},
        }
        i = i + 1;
    }
    assert(entries@.skip(i as int).len() == 0);
    None
}

/// Resolves the path of a slot's image: `Ok(None)` when nothing matches, an
/// error naming the directory when it could not be read.
pub fn resolve_asset_path(listing: &DirListing, slug: &String) -> (r: Result<Option<String>, LibraryError>)
    ensures
        match listing.entries {
            None => r matches Err(LibraryError::DirectoryUnavailable(d)) && d@ == listing.dir@,
            Some(es) => r matches Ok(p) && opt_view(p) == first_match_path(es@, slug@),
        },
{
    match &listing.entries {
        Some(es) => Ok(find_asset(es, slug)),
        None => Err(LibraryError::DirectoryUnavailable(listing.dir.clone())),
    }
}

/// A single matching entry is the one resolution finds.
pub proof fn lemma_single_match(entries: Seq<Option<DirEntryInfo>>, slug: Seq<char>, i: int)
    requires
        0 <= i < entries.len(),
        entry_matches(entries[i], slug),
        forall|j: int| 0 <= j < entries.len() && j != i ==> !entry_matches(#[trigger] entries[j], slug),
    ensures
        first_match_path(entries, slug) == Some(entry_path(entries[i])),
    decreases i,
{
    if i > 0 {
        let rest = entries.drop_first();
        assert forall|j: int| 0 <= j < rest.len() && j != i - 1 implies !entry_matches(#[trigger] rest[j], slug) by {
            assert(rest[j] == entries[j + 1]);
        }
        assert(!entry_matches(entries[0], slug));
        lemma_single_match(rest, slug, i - 1);
    }
}

/// With no matching entry, resolution finds nothing.
pub proof fn lemma_no_match(entries: Seq<Option<DirEntryInfo>>, slug: Seq<char>)
    requires
        no_match(entries, slug),
    ensures
        first_match_path(entries, slug) is None,
    decreases entries.len(),
{
    if entries.len() > 0 {
        let rest = entries.drop_first();
        assert(!entry_matches(entries[0], slug));
        assert forall|j: int| 0 <= j < rest.len() implies !entry_matches(#[trigger] rest[j], slug) by {
            assert(rest[j] == entries[j + 1]);
        }
        lemma_no_match(rest, slug);
    }
}

/// The (width, height) that `imagesize::blob_size` reads from these bytes,
/// or `None` where it reports an error.
pub uninterp spec fn image_size_of(data: Seq<u8>) -> Option<(usize, usize)>;

/// Relies on imagesize::blob_size: the pixel size read from an image's
/// leading bytes, which depends on the bytes alone; its documentation states
/// that data shorter than 12 bytes is always an error.
#[verifier::external_body]
fn decode_image_size(data: &[u8]) -> (r: Option<(usize, usize)>)
    ensures
        r == image_size_of(data@),
        data@.len() < 12 ==> r is None,
{
    match imagesize::blob_size(data) {
        Ok(size) => Some((size.width, size.height)),
        Err(_) => None,
    }
}

/// Builds the slot's result from the matched path and the decoded size:
/// no path gives an empty path and zero size, an undecodable image zero size.
pub fn asset_ref_from(path: Option<String>, size: Option<(usize, usize)>) -> (r: AssetRef)
    ensures
        path is None ==> r.path@ == Seq::<char>::empty() && r.width == 0 && r.height == 0,
        path matches Some(p) ==> r.path@ == p@ && match size {
            Some((w, h)) => r.width == w && r.height == h,
            None => r.width == 0 && r.height == 0,
        },
{
    match path {
        None => AssetRef { path: String::new(), width: 0, height: 0 },
        Some(p) => match size {
            Some((w, h)) => AssetRef { path: p, width: w, height: h },
            None => AssetRef { path: p, width: 0, height: 0 },
        },
    }
}

/// Builds the slot's result from the matched path and the contents of that
/// file (`None` when it could not be read); the size is best-effort.
pub fn asset_ref(path: Option<String>, contents: Option<Vec<u8>>) -> (r: AssetRef)
    ensures
        path is None ==> r.path@ == Seq::<char>::empty() && r.width == 0 && r.height == 0,
        path matches Some(p) ==> r.path@ == p@ && match contents {
            Some(c) => match image_size_of(c@) {
                Some((w, h)) => r.width == w && r.height == h,
                None => r.width == 0 && r.height == 0,
            },
            None => r.width == 0 && r.height == 0,
        },
{
    let size = match &path {
        Some(_) => match &contents {
            Some(c) => decode_image_size(c.as_slice()),
            None => None,
        },
        None => None,
    };
    asset_ref_from(path, size)
}

} // verus!
