use mod_library::download::{
    check_status, file_name_from_disposition, file_name_hint, Download, DownloadProgress,
    DOWNLOAD_TIMEOUT_SECS, MAX_DOWNLOAD_SIZE,
};
use mod_library::error::LibraryError;

#[test]
fn download_limits() {
    assert_eq!(MAX_DOWNLOAD_SIZE, 100 * 1024 * 1024);
    assert_eq!(DOWNLOAD_TIMEOUT_SECS, 120);
}

#[test]
fn announced_size_over_the_limit_is_refused_at_once() {
    match Download::begin(Some(11), 10) {
        Err(error) => assert_eq!(error, LibraryError::PayloadTooLarge { size: 11, limit: 10 }),
        Ok(_) => panic!("a download over the limit began"),
    }
    assert!(Download::begin(Some(10), 10).is_ok());
    assert!(Download::begin(None, 0).is_ok());
}

#[test]
fn chunks_accumulate_and_progress_never_goes_down() {
    let mut download = Download::begin(Some(6), 10).ok().expect("a download");
    assert_eq!(
        download.accept(b"abc"),
        Ok(DownloadProgress { downloaded: 3, total: 6 })
    );
    assert_eq!(download.accept(b""), Ok(DownloadProgress { downloaded: 3, total: 6 }));
    assert_eq!(
        download.accept(b"def"),
        Ok(DownloadProgress { downloaded: 6, total: 6 })
    );
    assert_eq!(download.finish(), b"abcdef".to_vec());
}

#[test]
fn unannounced_size_reports_a_total_of_zero() {
    let mut download = Download::begin(None, 10).ok().expect("a download");
    assert_eq!(download.accept(b"ab"), Ok(DownloadProgress { downloaded: 2, total: 0 }));
}

#[test]
fn size_ceiling_on_accumulated_bytes() {
    let mut download = Download::begin(Some(4), 5).ok().expect("a download");
    assert!(download.accept(b"abc").is_ok());
    assert_eq!(
        download.accept(b"def"),
        Err(LibraryError::PayloadTooLarge { size: 6, limit: 5 })
    );
    assert_eq!(download.accept(b"de"), Ok(DownloadProgress { downloaded: 5, total: 4 }));
    assert_eq!(
        download.accept(b"f"),
        Err(LibraryError::PayloadTooLarge { size: 6, limit: 5 })
    );
    assert_eq!(download.finish(), b"abcde".to_vec());
}

#[test]
fn file_name_is_read_from_the_disposition() {
    assert_eq!(
        file_name_from_disposition("attachment; filename=\"coolmod.zip\""),
        Some("coolmod.zip".to_string())
    );
    assert_eq!(
        file_name_from_disposition("attachment; filename=coolmod.zip"),
        Some("coolmod.zip".to_string())
    );
    assert_eq!(
        file_name_from_disposition("filename=a.zip; filename=b.zip"),
        Some("a.zip".to_string())
    );
    assert_eq!(
        file_name_from_disposition("attachment;filename=\"a b.zip\";size=3"),
        Some("a b.zip".to_string())
    );
}

#[test]
fn disposition_without_a_file_name_gives_none() {
    assert_eq!(file_name_from_disposition("attachment"), None);
    assert_eq!(file_name_from_disposition(""), None);
    assert_eq!(file_name_from_disposition("inline; name=x"), None);
    assert_eq!(file_name_from_disposition("attachment; filename*=UTF-8''x.zip"), None);
    assert_eq!(file_name_from_disposition("attachment; FILENAME=x.zip"), None);
}

#[test]
fn disposition_edge_cases() {
    assert_eq!(file_name_from_disposition("filename="), Some(String::new()));
    assert_eq!(file_name_from_disposition("filename=\"\""), Some(String::new()));
    assert_eq!(
        file_name_from_disposition("  filename=filename=x.zip  "),
        Some("x.zip".to_string())
    );
    assert_eq!(
        file_name_from_disposition("filename= \"x.zip\""),
        Some(" \"x.zip".to_string())
    );
    assert_eq!(
        file_name_from_disposition("a;;filename=\"q\"uote\".zip\""),
        Some("q\"uote\".zip".to_string())
    );
}

fn std_disposition(content: &str) -> Option<String> {
    content
        .split(';')
        .find(|part| part.trim().starts_with("filename="))
        .map(|filename| {
            filename
                .trim()
                .trim_start_matches("filename=")
                .trim_matches('"')
                .to_string()
        })
}

#[test]
fn disposition_agrees_with_the_std_formulation() {
    let samples = [
        "",
        ";",
        "attachment; filename=\"coolmod.zip\"",
        "filename=a;filename=b",
        " filename=filename=\"\"x\"\" ;",
        "x; y ;\tfilename=ok\u{a0}",
        "filename",
        "filename =x",
        ";;;filename=\"",
    ];
    for sample in samples {
        assert_eq!(file_name_from_disposition(sample), std_disposition(sample), "{:?}", sample);
    }
}

#[test]
fn hint_prefers_the_disposition() {
    assert_eq!(
        file_name_hint(Some("attachment; filename=\"a.zip\""), "b.zip"),
        "a.zip"
    );
    assert_eq!(file_name_hint(Some("attachment"), "b.zip"), "b.zip");
    assert_eq!(file_name_hint(None, "b.zip"), "b.zip");
    assert_eq!(file_name_hint(None, ""), "");
}

#[test]
fn success_statuses_let_the_download_go_on() {
    assert_eq!(check_status(200, "OK", ""), Ok(()));
    assert_eq!(check_status(204, "No Content", ""), Ok(()));
    assert_eq!(check_status(299, "", ""), Ok(()));
}

#[test]
fn other_statuses_fail_with_an_http_error() {
    assert_eq!(
        check_status(404, "Not Found", "no such file"),
        Err(LibraryError::HttpError("HTTP 404: Not Found\nBody: no such file".to_string()))
    );
    assert_eq!(
        check_status(199, "", ""),
        Err(LibraryError::HttpError("HTTP 199: \nBody: ".to_string()))
    );
    assert!(check_status(300, "Multiple Choices", "").is_err());
    assert!(check_status(500, "Internal Server Error", "").is_err());
    assert!(check_status(0, "", "").is_err());
}
