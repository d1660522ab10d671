use mod_library::archive::{classify_roots, entry_contents, entry_names, is_zip, root_of, RootLayout};
use mod_library::error::ErrorKind;
use std::io::Write;

fn archive_of(entries: &[(&str, &[u8])]) -> Vec<u8> {
    let mut writer = zip::ZipWriter::new(std::io::Cursor::new(Vec::new()));
    for (name, content) in entries {
        if name.ends_with('/') {
            writer
                .add_directory(name.to_string(), zip::write::SimpleFileOptions::default())
                .unwrap();
        } else {
            writer
                .start_file(name.to_string(), zip::write::SimpleFileOptions::default())
                .unwrap();
            writer.write_all(content).unwrap();
        }
    }
    writer.finish().unwrap().into_inner()
}

fn names_of(names: &[&str]) -> Vec<String> {
    names.iter().map(|n| n.to_string()).collect()
}

#[test]
fn zip_magic_is_recognised() {
    assert!(is_zip(&[0x50, 0x4B, 0x03, 0x04]));
    assert!(is_zip(&[0x50, 0x4B, 0x03, 0x04, 0x00, 0xFF]));
}

#[test]
fn short_or_other_payloads_are_no_zip() {
    assert!(!is_zip(&[]));
    assert!(!is_zip(&[0x50, 0x4B, 0x03]));
    assert!(!is_zip(&[0x50, 0x4B, 0x05, 0x06]));
    assert!(!is_zip(&[0x00, 0x50, 0x4B, 0x03, 0x04]));
    assert!(!is_zip(b"plain text"));
}

#[test]
fn written_archive_opens_with_the_magic() {
    assert!(is_zip(&archive_of(&[("a.txt", b"a")])));
}

#[test]
fn root_of_is_the_first_component() {
    assert_eq!(root_of("pkg/sub/b.txt"), "pkg");
    assert_eq!(root_of("pkg/"), "pkg");
    assert_eq!(root_of("a.txt"), "a.txt");
    assert_eq!(root_of(""), "");
    assert_eq!(root_of("/abs"), "");
}

#[test]
fn root_folder_classification() {
    assert_eq!(
        classify_roots(&names_of(&["pkg/a.txt", "pkg/sub/b.txt"])),
        RootLayout::SingleRoot("pkg".to_string())
    );
    assert_eq!(classify_roots(&names_of(&["a.txt", "b.txt"])), RootLayout::MultiRoot);
}

#[test]
fn classification_of_edge_cases() {
    assert_eq!(classify_roots(&names_of(&[])), RootLayout::MultiRoot);
    assert_eq!(
        classify_roots(&names_of(&["pkg/"])),
        RootLayout::SingleRoot("pkg".to_string())
    );
    assert_eq!(
        classify_roots(&names_of(&["pkg/", "pkg/a", "pkg/b/c"])),
        RootLayout::SingleRoot("pkg".to_string())
    );
    assert_eq!(
        classify_roots(&names_of(&["pkg/a", "pkg/b", "other/c"])),
        RootLayout::MultiRoot
    );
    assert_eq!(
        classify_roots(&names_of(&["pkg/a", "pkgs/b"])),
        RootLayout::MultiRoot
    );
    assert_eq!(
        classify_roots(&names_of(&["a.txt"])),
        RootLayout::SingleRoot("a.txt".to_string())
    );
}

#[test]
fn entry_names_lists_the_archive_in_order() {
    let bytes = archive_of(&[("pkg/", b""), ("pkg/b.txt", b"bee"), ("pkg/a.txt", b"ay")]);
    assert_eq!(
        entry_names(&bytes),
        Ok(names_of(&["pkg/", "pkg/b.txt", "pkg/a.txt"]))
    );
}

#[test]
fn entry_names_rejects_what_is_no_archive() {
    let outcome = entry_names(&[0x50, 0x4B, 0x03, 0x04, 1, 2, 3, 4]);
    match outcome {
        Err(error) => {
            assert_eq!(error.kind(), ErrorKind::InvalidArchive);
            assert!(!error.message().is_empty());
        }
        Ok(names) => panic!("listed {:?}", names),
    }
    assert!(entry_names(b"").is_err());
}

#[test]
fn entry_contents_unpacks_the_entry() {
    let long = vec![b'x'; 5000];
    let bytes = archive_of(&[("pkg/a.txt", b"hello"), ("pkg/long.bin", &long)]);
    assert!(bytes.len() < 5000);
    assert_eq!(entry_contents(&bytes, 0), Ok(b"hello".to_vec()));
    assert_eq!(entry_contents(&bytes, 1), Ok(long));
}

#[test]
fn entry_contents_rejects_a_missing_entry() {
    let bytes = archive_of(&[("pkg/a.txt", b"hello")]);
    match entry_contents(&bytes, 1) {
        Err(error) => assert_eq!(error.kind(), ErrorKind::InvalidArchive),
        Ok(content) => panic!("unpacked {:?}", content),
    }
}

fn archive_packed_with(method: zip::CompressionMethod, content: &[u8]) -> Vec<u8> {
    let mut writer = zip::ZipWriter::new(std::io::Cursor::new(Vec::new()));
    let options = zip::write::SimpleFileOptions::default().compression_method(method);
    writer.start_file("pkg/data.bin".to_string(), options).unwrap();
    writer.write_all(content).unwrap();
    writer.finish().unwrap().into_inner()
}

#[test]
fn entries_of_every_common_compression_method_are_unpacked() {
    let content = vec![b'y'; 4000];
    for method in [
        zip::CompressionMethod::Stored,
        zip::CompressionMethod::Deflated,
        zip::CompressionMethod::Bzip2,
        zip::CompressionMethod::Zstd,
    ] {
        let bytes = archive_packed_with(method, &content);
        assert_eq!(entry_names(&bytes), Ok(vec!["pkg/data.bin".to_string()]));
        assert_eq!(entry_contents(&bytes, 0), Ok(content.clone()));
    }
}
