use game_library::assets::{asset_ref, asset_ref_from, find_asset, resolve_asset_path, DirEntryInfo, DirListing};
use game_library::text::contains_slice;
use game_library::error::LibraryError;

fn entry(name: &str) -> Option<DirEntryInfo> {
    Some(DirEntryInfo { file_name: name.to_string(), path: format!("/art/{}", name) })
}

fn listing(entries: Option<Vec<Option<DirEntryInfo>>>) -> DirListing {
    DirListing { dir: "/art/".to_string(), entries }
}

/// A PNG header declaring `w` by `h` pixels.
fn png(w: u32, h: u32) -> Vec<u8> {
    let mut v = vec![0x89, 0x50, 0x4E, 0x47, 0x0D, 0x0A, 0x1A, 0x0A, 0, 0, 0, 0x0D, 0x49, 0x48, 0x44, 0x52];
    v.extend_from_slice(&w.to_be_bytes());
    v.extend_from_slice(&h.to_be_bytes());
    v.extend_from_slice(&[0x08, 0x06, 0, 0, 0, 0x9A, 0x38, 0xC4]);
    v
}

/// The start of a baseline JPEG declaring `w` by `h` pixels.
fn jpeg(w: u16, h: u16) -> Vec<u8> {
    let mut v = vec![0xFF, 0xD8, 0xFF, 0xC0, 0x00, 0x11, 0x08];
    v.extend_from_slice(&h.to_be_bytes());
    v.extend_from_slice(&w.to_be_bytes());
    v.extend_from_slice(&[0x03, 0x01, 0x22, 0x00, 0x02, 0x11, 0x01]);
    v
}

#[test]
fn single_match_is_found_with_its_size() {
    let l = listing(Some(vec![entry("quake.png"), entry("doom.png"), entry("heretic.jpg")]));
    let p = resolve_asset_path(&l, &"doom".to_string()).unwrap();
    assert_eq!(p.as_deref(), Some("/art/doom.png"));
    let a = asset_ref(p, Some(png(123, 321)));
    assert_eq!(a.path, "/art/doom.png");
    assert_eq!((a.width, a.height), (123, 321));
}

#[test]
fn jpeg_size_is_decoded() {
    let a = asset_ref(Some("/art/doom-cover.jpg".to_string()), Some(jpeg(64, 48)));
    assert_eq!((a.width, a.height), (64, 48));
}

#[test]
fn no_match_gives_empty_asset() {
    let l = listing(Some(vec![entry("quake.png"), entry("heretic.jpg")]));
    let p = resolve_asset_path(&l, &"doom".to_string()).unwrap();
    assert!(p.is_none());
    let a = asset_ref(p, None);
    assert_eq!(a.path, "");
    assert_eq!((a.width, a.height), (0, 0));
}

#[test]
fn empty_directory_gives_no_match() {
    let l = listing(Some(vec![]));
    assert_eq!(resolve_asset_path(&l, &"doom".to_string()), Ok(None));
}

#[test]
fn missing_directory_is_an_error() {
    let l = listing(None);
    let r = resolve_asset_path(&l, &"doom".to_string());
    assert_eq!(r, Err(LibraryError::DirectoryUnavailable("/art/".to_string())));
}

#[test]
fn first_match_in_enumeration_order_wins() {
    let l = vec![entry("doom2.png"), entry("doom.png")];
    assert_eq!(find_asset(&l, &"doom".to_string()).as_deref(), Some("/art/doom2.png"));
}

#[test]
fn unreadable_entries_are_ignored() {
    let l = vec![None, entry("x-doom-y.jpg")];
    assert_eq!(find_asset(&l, &"doom".to_string()).as_deref(), Some("/art/x-doom-y.jpg"));
}

#[test]
fn matching_is_case_sensitive() {
    let l = vec![entry("DOOM.png")];
    assert_eq!(find_asset(&l, &"doom".to_string()), None);
}

#[test]
fn matching_ignores_extensions_and_directories() {
    let l = vec![Some(DirEntryInfo { file_name: "cover.png".to_string(), path: "/doom/cover.png".to_string() })];
    assert_eq!(find_asset(&l, &"doom".to_string()), None);
    let l = vec![entry("doom")];
    assert_eq!(find_asset(&l, &"doom".to_string()).as_deref(), Some("/art/doom"));
}

#[test]
fn non_ascii_names_match_by_substring() {
    let l = vec![entry("père-noël.png")];
    assert!(find_asset(&l, &"noël".to_string()).is_some());
    assert!(find_asset(&l, &"noel".to_string()).is_none());
}

#[test]
fn undecodable_image_has_zero_size() {
    let a = asset_ref(Some("/art/doom.txt".to_string()), Some(b"not an image at all".to_vec()));
    assert_eq!(a.path, "/art/doom.txt");
    assert_eq!((a.width, a.height), (0, 0));
    let a = asset_ref(Some("/art/doom.png".to_string()), Some(vec![0x89, 0x50]));
    assert_eq!((a.width, a.height), (0, 0));
    let a = asset_ref(Some("/art/doom.png".to_string()), None);
    assert_eq!((a.width, a.height), (0, 0));
}

#[test]
fn asset_from_decoded_size() {
    let a = asset_ref_from(Some("/p".to_string()), Some((7, 9)));
    assert_eq!((a.path.as_str(), a.width, a.height), ("/p", 7, 9));
    let a = asset_ref_from(None, Some((7, 9)));
    assert_eq!((a.path.as_str(), a.width, a.height), ("", 0, 0));
}

#[test]
fn byte_substring_search() {
    assert!(contains_slice(b"doom-cover.jpg", b"doom"));
    assert!(contains_slice(b"the-doom", b"doom"));
    assert!(contains_slice(b"doom", b"doom"));
    assert!(contains_slice(b"anything", b""));
    assert!(contains_slice(b"", b""));
    assert!(!contains_slice(b"", b"d"));
    assert!(!contains_slice(b"doo", b"doom"));
    assert!(!contains_slice(b"dooxm", b"doom"));
    assert!(contains_slice(b"ddoom", b"doom"));
}
