use mod_library::error::{ErrorKind, LibraryError};
use mod_library::record::{Mod, ModSidecar, SIDECAR_FILE_NAME};
use mod_library::resolver::{resolve, Observed};
use mod_library::toggler::{require_mod_directory, set_enabled, set_metadata};

fn full_record() -> Mod {
    Mod {
        id: "id-1".to_string(),
        author: "author".to_string(),
        description: "description".to_string(),
        version: "1.0".to_string(),
        category: "Weapons".to_string(),
        url: "https://example.org".to_string(),
        name: "CoolMod".to_string(),
        path: "/mods/CoolMod".to_string(),
        thumbnail: "/mods/CoolMod/thumbnail.png".to_string(),
        enabled: false,
    }
}

#[test]
fn sidecar_file_is_mod_json() {
    assert_eq!(SIDECAR_FILE_NAME, "mod.json");
}

#[test]
fn set_enabled_renames_only_where_the_name_differs() {
    assert_eq!(set_enabled(true, Some("CoolMod"), true, "CoolMod"), Ok(None));
    assert_eq!(
        set_enabled(true, Some("CoolMod"), false, "CoolMod"),
        Ok(Some("disabled CoolMod".to_string()))
    );
    assert_eq!(
        set_enabled(true, Some("disabled CoolMod"), false, "Other"),
        Ok(Some("disabled Other".to_string()))
    );
}

#[test]
fn set_enabled_needs_a_directory_with_a_name() {
    assert_eq!(
        set_enabled(false, Some("CoolMod"), true, "CoolMod"),
        Err(LibraryError::InvalidPath("Mod directory does not exist".to_string()))
    );
    assert_eq!(
        set_enabled(true, None, true, "CoolMod"),
        Err(LibraryError::InvalidPath("Invalid mod directory name".to_string()))
    );
}

#[test]
fn set_metadata_gives_the_persisted_part() {
    assert_eq!(
        set_metadata(true, &full_record()),
        Ok(ModSidecar {
            id: "id-1".to_string(),
            author: "author".to_string(),
            description: "description".to_string(),
            version: "1.0".to_string(),
            category: "Weapons".to_string(),
            url: "https://example.org".to_string(),
        })
    );
    assert_eq!(full_record().sidecar(), set_metadata(true, &full_record()).unwrap());
}

#[test]
fn set_metadata_needs_a_directory() {
    match set_metadata(false, &full_record()) {
        Err(error) => assert_eq!(error.kind(), ErrorKind::InvalidPath),
        Ok(sidecar) => panic!("gave {:?}", sidecar),
    }
}

#[test]
fn metadata_and_naming_compose() {
    let record = full_record();
    let sidecar = set_metadata(true, &record).unwrap();
    let target = set_enabled(true, Some("CoolMod"), record.enabled, &record.name).unwrap();
    let folder = target.expect("a rename");
    assert_eq!(folder, "disabled CoolMod");
    let seen = resolve(
        &Observed {
            folder_name: folder.clone(),
            path: format!("/mods/{}", folder),
            is_directory: true,
            sidecar: Some(sidecar),
            thumbnail: String::new(),
        },
        &[],
    );
    assert_eq!(seen.repair, None);
    assert_eq!(seen.record.id, record.id);
    assert_eq!(seen.record.author, record.author);
    assert_eq!(seen.record.description, record.description);
    assert_eq!(seen.record.version, record.version);
    assert_eq!(seen.record.category, record.category);
    assert_eq!(seen.record.url, record.url);
    assert_eq!(seen.record.name, record.name);
    assert_eq!(seen.record.enabled, record.enabled);
    assert_eq!(seen.record.path, "/mods/disabled CoolMod");
}

#[test]
fn require_mod_directory_checks_the_flag() {
    assert_eq!(require_mod_directory(true), Ok(()));
    assert_eq!(
        require_mod_directory(false),
        Err(LibraryError::InvalidPath("Mod directory does not exist".to_string()))
    );
}
