use mod_library::error::{ErrorKind, LibraryError};
use mod_library::record::{Mod, ModSidecar};

#[test]
fn every_failure_has_its_kind() {
    let text = "m".to_string();
    let cases = [
        (LibraryError::InvalidPath(text.clone()), ErrorKind::InvalidPath),
        (LibraryError::IoError(text.clone()), ErrorKind::IoError),
        (LibraryError::InvalidArchive(text.clone()), ErrorKind::InvalidArchive),
        (LibraryError::PayloadTooLarge { size: 2, limit: 1 }, ErrorKind::PayloadTooLarge),
        (LibraryError::HttpError(text.clone()), ErrorKind::HttpError),
        (LibraryError::NotFound(text.clone()), ErrorKind::NotFound),
        (LibraryError::RenameFailed(text.clone()), ErrorKind::RenameFailed),
        (LibraryError::SerializationError(text.clone()), ErrorKind::SerializationError),
    ];
    for (error, kind) in cases {
        assert_eq!(error.kind(), kind);
    }
}

#[test]
fn carried_message_is_the_message() {
    assert_eq!(LibraryError::InvalidPath("no such directory".to_string()).message(), "no such directory");
    assert_eq!(LibraryError::IoError("disk full".to_string()).message(), "disk full");
    assert_eq!(LibraryError::InvalidArchive("bad".to_string()).message(), "bad");
    assert_eq!(LibraryError::HttpError("HTTP 404".to_string()).message(), "HTTP 404");
    assert_eq!(LibraryError::NotFound("gone".to_string()).message(), "gone");
    assert_eq!(LibraryError::RenameFailed("taken".to_string()).message(), "taken");
    assert_eq!(LibraryError::SerializationError("json".to_string()).message(), "json");
}

#[test]
fn too_large_message_names_both_sizes() {
    assert_eq!(
        LibraryError::PayloadTooLarge { size: 104857601, limit: 104857600 }.message(),
        "File too large: 104857601 > 104857600 bytes"
    );
    assert_eq!(
        LibraryError::PayloadTooLarge { size: 1, limit: 0 }.message(),
        "File too large: 1 > 0 bytes"
    );
}

#[test]
fn empty_sidecar_has_every_field_unset() {
    assert_eq!(
        ModSidecar::empty(),
        ModSidecar {
            id: String::new(),
            author: String::new(),
            description: String::new(),
            version: String::new(),
            category: String::new(),
            url: String::new(),
        }
    );
    assert_eq!(ModSidecar::or_empty(None), ModSidecar::empty());
}

#[test]
fn read_sidecar_is_kept() {
    let mut read = ModSidecar::empty();
    read.author = "me".to_string();
    assert_eq!(ModSidecar::or_empty(Some(read.clone())), read);
    assert_eq!(read.duplicate(), read);
}

#[test]
fn record_sidecar_leaves_out_name_path_thumbnail_and_state() {
    let record = Mod {
        id: "i".to_string(),
        author: "a".to_string(),
        description: "d".to_string(),
        version: "v".to_string(),
        category: "c".to_string(),
        url: "u".to_string(),
        name: "n".to_string(),
        path: "p".to_string(),
        thumbnail: "t".to_string(),
        enabled: true,
    };
    assert_eq!(
        record.sidecar(),
        ModSidecar {
            id: "i".to_string(),
            author: "a".to_string(),
            description: "d".to_string(),
            version: "v".to_string(),
            category: "c".to_string(),
            url: "u".to_string(),
        }
    );
}
