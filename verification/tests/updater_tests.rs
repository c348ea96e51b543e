use audio_tetris::updater::{
    download_url_error, is_newer_version, is_throttled, parse_semver, status_from_query_output, status_from_release, UpdateInfo,
    UpdateStatus,
};

#[test]
fn test_parse_semver() {
    assert_eq!(parse_semver("1.0.2"), (1, 0, 2));
    assert_eq!(parse_semver("v1.2.3"), (1, 2, 3));
    assert_eq!(parse_semver("v2.0.0-beta"), (2, 0, 0));
}

#[test]
fn test_is_newer_version() {
    assert!(is_newer_version("1.0.2", "1.0.3"));
    assert!(is_newer_version("1.0.2", "1.1.0"));
    assert!(is_newer_version("1.0.2", "2.0.0"));
    assert!(!is_newer_version("1.0.2", "1.0.2"));
    assert!(!is_newer_version("1.0.3", "1.0.2"));
}

#[test]
fn semver_missing_and_bad_parts_are_zero() {
    assert_eq!(parse_semver("3"), (3, 0, 0));
    assert_eq!(parse_semver("x.y.z"), (0, 0, 0));
    assert_eq!(parse_semver(" v4.5.6 "), (4, 5, 6));
}

#[test]
fn newer_version_is_a_strict_order_on_examples() {
    let vs = ["0.9.9", "1.0.0", "1.0.10", "1.2.0", "2.0.0"];
    for (i, a) in vs.iter().enumerate() {
        assert!(!is_newer_version(a, a));
        for (j, b) in vs.iter().enumerate() {
            assert_eq!(is_newer_version(a, b), j > i);
        }
    }
}

#[test]
fn throttle_window_is_twelve_hours_for_automatic_checks() {
    assert!(is_throttled(false, 1000, 1000 + 43199));
    assert!(!is_throttled(false, 1000, 1000 + 43200));
    assert!(!is_throttled(true, 1000, 1001));
    assert!(!is_throttled(false, 0, 5));
}

#[test]
fn release_newer_than_running_version_is_available() {
    let s = status_from_release("1.0.2", "v1.1.0".to_string(), "notes".to_string(), "https://x/y.zip".to_string());
    assert_eq!(
        s,
        UpdateStatus::Available(UpdateInfo {
            version: "v1.1.0".to_string(),
            release_notes: "notes".to_string(),
            download_url: "https://x/y.zip".to_string(),
        })
    );
    let same = status_from_release("1.1.0", "v1.1.0".to_string(), String::new(), String::new());
    assert_eq!(same, UpdateStatus::UpToDate);
}

#[test]
fn download_url_must_be_present() {
    assert!(download_url_error("").is_some());
    assert!(download_url_error("https://example.com/a.zip").is_none());
}

#[test]
fn query_output_is_read_as_a_release() {
    let json = r#"  {"tag_name": "v1.2.0", "body": "Faster pieces", "download_url": "https://example.org/t.zip"}  "#;
    match status_from_query_output(true, "", json, "1.0.2") {
        UpdateStatus::Available(info) => {
            assert_eq!(info.version, "v1.2.0");
            assert_eq!(info.release_notes, "Faster pieces");
            assert_eq!(info.download_url, "https://example.org/t.zip");
        }
        other => panic!("unexpected {:?}", other),
    }
    let same = r#"{"tag_name": "v1.0.2", "body": ""}"#;
    assert_eq!(status_from_query_output(true, "", same, "1.0.2"), UpdateStatus::UpToDate);
    let blank_notes = r#"{"tag_name": "2.0.0", "body": "   ", "download_url": 7}"#;
    match status_from_query_output(true, "", blank_notes, "1.0.2") {
        UpdateStatus::Available(info) => {
            assert_eq!(info.release_notes, "No release notes provided.");
            assert_eq!(info.download_url, "");
        }
        other => panic!("unexpected {:?}", other),
    }
}

#[test]
fn query_output_errors() {
    assert_eq!(
        status_from_query_output(false, "  boom \n", "", "1.0.2"),
        UpdateStatus::Error("boom".to_owned())
    );
    assert_eq!(
        status_from_query_output(false, "   ", "", "1.0.2"),
        UpdateStatus::Error("Could not connect to update server.".to_owned())
    );
    assert_eq!(
        status_from_query_output(true, "", " \n ", "1.0.2"),
        UpdateStatus::Error("No release data returned.".to_owned())
    );
    assert_eq!(
        status_from_query_output(true, "", "not json", "1.0.2"),
        UpdateStatus::Error("Failed to parse release info.".to_owned())
    );
    assert_eq!(
        status_from_query_output(true, "", r#"{"body": "x"}"#, "1.0.2"),
        UpdateStatus::Error("No version tag found in release.".to_owned())
    );
}

#[test]
fn written_versions_read_back() {
    for (a, b, c) in [(0u32, 0u32, 0u32), (1, 2, 3), (10, 0, 7), (4294967295, 65536, 99)] {
        let text = format!("{}.{}.{}", a, b, c);
        assert_eq!(parse_semver(&text), (a, b, c));
    }
}
