use mod_library::error::{ErrorKind, LibraryError};
use mod_library::ingest::{
    entry_stem_of, ingest_from_bytes, ingest_local, mod_directory_name_for, plan_archive,
    plan_opaque, stamp_with, stem_of, wrapper_name_for, IngestPlan, IngestRun, IngestStep,
    StepOutcome,
};
use mod_library::record::ModSidecar;
use std::io::Write;

fn packed(entries: &[(&str, &[u8])]) -> Vec<u8> {
    let mut writer = zip::ZipWriter::new(std::io::Cursor::new(Vec::new()));
    for (name, content) in entries {
        if name.ends_with('/') {
            writer
                .add_directory(name.to_string(), zip::write::SimpleFileOptions::default())
                .unwrap();
        } else {
            writer
                .start_file(name.to_string(), zip::write::SimpleFileOptions::default())
                .unwrap();
            writer.write_all(content).unwrap();
        }
    }
    writer.finish().unwrap().into_inner()
}

fn texts(names: &[&str]) -> Vec<String> {
    names.iter().map(|n| n.to_string()).collect()
}

fn dir(path: &str) -> IngestStep {
    IngestStep::CreateDir { path: path.to_string() }
}

fn entry(path: &str, index: usize) -> IngestStep {
    IngestStep::WriteEntry { path: path.to_string(), index }
}

#[test]
fn stem_is_the_name_up_to_the_first_dot() {
    assert_eq!(stem_of("coolmod.zip"), "coolmod");
    assert_eq!(stem_of("cool.mod.tar.gz"), "cool");
    assert_eq!(stem_of("noextension"), "noextension");
    assert_eq!(stem_of(".hidden"), "");
    assert_eq!(stem_of(""), "");
}

#[test]
fn entry_stem_is_the_stem_of_the_base_name() {
    assert_eq!(entry_stem_of("a.txt"), "a");
    assert_eq!(entry_stem_of("dir/sub/file.tar.gz"), "file");
    assert_eq!(entry_stem_of("dir/"), "");
    assert_eq!(entry_stem_of("dir.d/name"), "name");
    assert_eq!(entry_stem_of(""), "");
}

#[test]
fn mod_directory_is_named_after_the_file() {
    assert_eq!(mod_directory_name_for("coolmod.zip", "ID"), "coolmod");
    assert_eq!(mod_directory_name_for("coolmod", "ID"), "coolmod");
}

#[test]
fn mod_directory_falls_back_on_a_generated_name() {
    assert_eq!(mod_directory_name_for("", "ID"), "mod_ID");
    assert_eq!(mod_directory_name_for(".zip", "ID"), "mod_ID");
}

#[test]
fn wrapper_is_named_after_the_first_three_entries() {
    assert_eq!(wrapper_name_for(&texts(&["a.txt", "b.txt", "c.txt", "d.txt"]), "ID"), "a_b_c");
    assert_eq!(wrapper_name_for(&texts(&["a.txt", "b.txt"]), "ID"), "a_b");
    assert_eq!(wrapper_name_for(&texts(&["x/", "y/z.bin", "w"]), "ID"), "z_w");
}

#[test]
fn wrapper_falls_back_on_the_generated_identifier() {
    assert_eq!(wrapper_name_for(&texts(&[]), "ID"), "ID");
    assert_eq!(wrapper_name_for(&texts(&["x/", ".hidden", "y/", "late.txt"]), "ID"), "ID");
}

#[test]
fn opaque_payload_goes_into_a_directory_of_its_own() {
    let plan = plan_opaque("readme.txt", "ID", "https://example.org/readme.txt");
    assert_eq!(
        plan,
        IngestPlan {
            mod_dir: "readme".to_string(),
            steps: vec![
                dir("readme"),
                IngestStep::WritePayload { path: "readme/readme.txt".to_string() },
            ],
            fresh_sidecar: true,
            origin_url: "https://example.org/readme.txt".to_string(),
        }
    );
}

#[test]
fn single_root_archive_is_extracted_below_the_library_root() {
    let plan = plan_archive(&texts(&["pkg/", "pkg/a.txt", "pkg/sub/", "pkg/sub/b.txt"]), "ID", "u");
    assert_eq!(
        plan,
        IngestPlan {
            mod_dir: "pkg".to_string(),
            steps: vec![
                dir("pkg/"),
                entry("pkg/a.txt", 1),
                dir("pkg/sub/"),
                entry("pkg/sub/b.txt", 3),
            ],
            fresh_sidecar: false,
            origin_url: "u".to_string(),
        }
    );
}

#[test]
fn scenario_multi_root_ingestion() {
    let bytes = packed(&[("a.txt", b"a"), ("b.txt", b"b"), ("c/d.txt", b"d")]);
    let plan = ingest_from_bytes(&bytes, 1 << 20, "bundle.zip", "https://example.org/bundle.zip")
        .expect("a plan");
    assert_eq!(plan.mod_dir, "a_b_d");
    assert_eq!(
        plan.steps,
        vec![
            dir("a_b_d"),
            entry("a_b_d/a.txt", 0),
            entry("a_b_d/b.txt", 1),
            entry("a_b_d/c/d.txt", 2),
        ]
    );
    assert!(!plan.fresh_sidecar);
    assert_eq!(plan.origin_url, "https://example.org/bundle.zip");
    for step in &plan.steps {
        let path = match step {
            IngestStep::CreateDir { path } => path,
            IngestStep::WriteEntry { path, .. } => path,
            IngestStep::WritePayload { path } => path,
        };
        assert!(path == "a_b_d" || path.starts_with("a_b_d/"));
    }
}

#[test]
fn multi_root_archive_without_usable_names_gets_a_generated_wrapper() {
    let bytes = packed(&[("x/", b""), ("y/", b"")]);
    let plan = ingest_from_bytes(&bytes, 1 << 20, "bundle.zip", "u").expect("a plan");
    assert_eq!(plan.mod_dir.chars().count(), 36);
    assert_eq!(
        plan.steps,
        vec![
            dir(&plan.mod_dir),
            dir(&format!("{}/x/", plan.mod_dir)),
            dir(&format!("{}/y/", plan.mod_dir)),
        ]
    );
}

#[test]
fn single_root_archive_from_bytes() {
    let bytes = packed(&[("pkg/a.txt", b"a"), ("pkg/sub/b.txt", b"b")]);
    let plan = ingest_from_bytes(&bytes, bytes.len(), "whatever.zip", "u").expect("a plan");
    assert_eq!(plan.mod_dir, "pkg");
    assert_eq!(plan.steps, vec![entry("pkg/a.txt", 0), entry("pkg/sub/b.txt", 1)]);
}

#[test]
fn payload_that_is_no_zip_from_bytes() {
    let plan = ingest_from_bytes(b"just text", 100, "notes.txt", "u").expect("a plan");
    assert_eq!(plan.mod_dir, "notes");
    assert_eq!(
        plan.steps,
        vec![dir("notes"), IngestStep::WritePayload { path: "notes/notes.txt".to_string() }]
    );
    assert!(plan.fresh_sidecar);
}

#[test]
fn payload_without_a_name_gets_a_generated_directory() {
    let plan = ingest_from_bytes(b"just text", 100, "", "u").expect("a plan");
    assert!(plan.mod_dir.starts_with("mod_"));
    assert_eq!(plan.mod_dir.chars().count(), 40);
    assert_eq!(
        plan.steps,
        vec![
            dir(&plan.mod_dir),
            IngestStep::WritePayload { path: format!("{}/{}", plan.mod_dir, plan.mod_dir) },
        ]
    );
}

#[test]
fn payload_with_a_name_without_a_stem_keeps_its_name() {
    let plan = plan_opaque(".hidden", "ID", "u");
    assert_eq!(plan.mod_dir, "mod_ID");
    assert_eq!(
        plan.steps,
        vec![dir("mod_ID"), IngestStep::WritePayload { path: "mod_ID/.hidden".to_string() }]
    );
}

#[test]
fn size_ceiling_on_the_payload() {
    let bytes = packed(&[("pkg/a.txt", b"a")]);
    let outcome = ingest_from_bytes(&bytes, bytes.len() - 1, "a.zip", "u");
    assert_eq!(
        outcome,
        Err(LibraryError::PayloadTooLarge {
            size: bytes.len() as u64,
            limit: bytes.len() as u64 - 1,
        })
    );
    assert!(ingest_from_bytes(b"abc", 2, "a.txt", "u").is_err());
    assert!(ingest_from_bytes(b"abc", 3, "a.txt", "u").is_ok());
    assert!(ingest_from_bytes(b"", 0, "a.txt", "u").is_ok());
}

#[test]
fn broken_archive_is_rejected() {
    let outcome = ingest_from_bytes(&[0x50, 0x4B, 0x03, 0x04, 9, 9, 9], 100, "a.zip", "u");
    match outcome {
        Err(error) => assert_eq!(error.kind(), ErrorKind::InvalidArchive),
        Ok(plan) => panic!("planned {:?}", plan),
    }
}

#[test]
fn stamp_with_sets_the_address_and_keeps_an_identifier() {
    let brought = ModSidecar {
        id: "kept".to_string(),
        author: "a".to_string(),
        description: "d".to_string(),
        version: "1".to_string(),
        category: "c".to_string(),
        url: "old".to_string(),
    };
    let stamped = stamp_with(brought, "new", "candidate".to_string());
    assert_eq!(
        stamped,
        ModSidecar {
            id: "kept".to_string(),
            author: "a".to_string(),
            description: "d".to_string(),
            version: "1".to_string(),
            category: "c".to_string(),
            url: "new".to_string(),
        }
    );
}

#[test]
fn stamp_with_backfills_the_identifier() {
    let stamped = stamp_with(ModSidecar::empty(), "origin", "candidate".to_string());
    assert_eq!(stamped.id, "candidate");
    assert_eq!(stamped.url, "origin");
    assert_eq!(stamped.author, "");
}

#[test]
fn plan_stamp_generates_an_identifier_where_none_was_brought() {
    let plan = plan_archive(&texts(&["pkg/a.txt"]), "ID", "origin");
    let stamped = plan.stamp(None);
    assert_eq!(stamped.id.chars().count(), 36);
    assert_eq!(stamped.url, "origin");
    let mut brought = ModSidecar::empty();
    brought.id = "mine".to_string();
    brought.author = "me".to_string();
    let kept = plan.stamp(Some(brought));
    assert_eq!(kept.id, "mine");
    assert_eq!(kept.author, "me");
    assert_eq!(kept.url, "origin");
}

#[test]
fn plan_stamp_of_an_opaque_payload_starts_afresh() {
    let plan = plan_opaque("notes.txt", "ID", "origin");
    let mut found = ModSidecar::empty();
    found.id = "stale".to_string();
    found.author = "stale".to_string();
    let stamped = plan.stamp(Some(found));
    assert_eq!(stamped.id.chars().count(), 36);
    assert_eq!(stamped.author, "");
    assert_eq!(stamped.url, "origin");
}

#[test]
fn local_directory_enters_under_its_own_name() {
    assert_eq!(ingest_local(true, true, Some("CoolMod"), false), Ok("CoolMod".to_string()));
}

#[test]
fn local_ingest_failures() {
    assert_eq!(
        ingest_local(false, true, Some("CoolMod"), false),
        Err(LibraryError::InvalidPath("Mod directory does not exist".to_string()))
    );
    assert_eq!(
        ingest_local(true, false, Some("CoolMod"), false),
        Err(LibraryError::InvalidPath("Target directory does not exist".to_string()))
    );
    assert_eq!(
        ingest_local(true, true, None, false),
        Err(LibraryError::InvalidPath("Invalid mod directory name".to_string()))
    );
    assert_eq!(
        ingest_local(true, true, Some("CoolMod"), true),
        Err(LibraryError::RenameFailed(
            "Mod already exists in the target directory".to_string()
        ))
    );
}

#[test]
fn ingest_run_hands_out_the_steps_in_order() {
    let plan = plan_archive(&texts(&["pkg/", "pkg/a.txt"]), "ID", "origin");
    let mut run = IngestRun::begin(plan);
    assert!(!run.is_complete());
    assert_eq!(run.next(), Some(&dir("pkg/")));
    assert_eq!(run.record(StepOutcome::Done), Ok(()));
    assert_eq!(run.next(), Some(&entry("pkg/a.txt", 1)));
    assert_eq!(run.record(StepOutcome::Done), Ok(()));
    assert_eq!(run.next(), None);
    assert!(run.is_complete());
    assert_eq!(run.mod_dir(), "pkg");
    assert_eq!(run.stamp(None).url, "origin");
}

#[test]
fn failed_write_stops_the_ingestion_with_an_io_error() {
    let plan = plan_archive(&texts(&["pkg/", "pkg/a.txt", "pkg/b.txt"]), "ID", "origin");
    let mut run = IngestRun::begin(plan);
    assert_eq!(run.record(StepOutcome::Done), Ok(()));
    assert_eq!(
        run.record(StepOutcome::WriteFailed("disk full".to_string())),
        Err(LibraryError::IoError("disk full".to_string()))
    );
    assert_eq!(run.next(), None);
    assert!(!run.is_complete());
}

#[test]
fn unreadable_entry_stops_the_ingestion_with_an_invalid_archive() {
    let plan = plan_archive(&texts(&["pkg/a.txt"]), "ID", "origin");
    let mut run = IngestRun::begin(plan);
    assert_eq!(
        run.record(StepOutcome::EntryUnreadable("bad checksum".to_string())),
        Err(LibraryError::InvalidArchive("bad checksum".to_string()))
    );
    assert_eq!(run.next(), None);
}

#[test]
fn ingest_run_without_steps_is_complete_at_once() {
    let plan = IngestPlan {
        mod_dir: "pkg".to_string(),
        steps: vec![],
        fresh_sidecar: false,
        origin_url: "origin".to_string(),
    };
    let run = IngestRun::begin(plan);
    assert_eq!(run.next(), None);
    assert!(run.is_complete());
}
