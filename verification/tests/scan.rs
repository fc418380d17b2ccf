use singularity_sync::scan::{classify, is_artifact_name, latest_sync_timestamp, DirEntry, Scanned};
use singularity_sync::text::{contains, ends_with};
use singularity_sync::timestamp::Timestamp;

fn file(name: &str, secs: i64) -> DirEntry {
    DirEntry {
        file_name: Some(String::from(name)),
        is_file: true,
        modified: Some(Timestamp::new(secs, 0)),
    }
}

#[test]
fn mark_is_the_time_of_the_newest_artifact() {
    let entries = vec![file("foo-1.0.sif", 100), file("foo-2.0.sif", 200)];
    assert_eq!(latest_sync_timestamp(&entries, "foo"), Timestamp::new(200, 0));

    let reversed = vec![file("foo-2.0.sif", 200), file("foo-1.0.sif", 100)];
    assert_eq!(latest_sync_timestamp(&reversed, "foo"), Timestamp::new(200, 0));
}

#[test]
fn mark_ignores_the_artifacts_of_other_images() {
    let entries = vec![file("foo-1.0.sif", 100), file("bar-9.9.sif", 999), file("foo-2.0.sif", 200)];
    assert_eq!(latest_sync_timestamp(&entries, "foo"), Timestamp::new(200, 0));
    assert_eq!(latest_sync_timestamp(&entries, "bar"), Timestamp::new(999, 0));
}

#[test]
fn mark_of_an_empty_listing_is_the_epoch() {
    let entries: Vec<DirEntry> = Vec::new();
    assert_eq!(latest_sync_timestamp(&entries, "foo"), Timestamp::epoch());
    assert_eq!(Timestamp::epoch(), Timestamp::new(0, 0));
    assert!(Timestamp::epoch().is_epoch());
}

#[test]
fn mark_of_a_listing_without_artifacts_is_the_epoch() {
    let entries = vec![
        file("foo-1.0.txt", 100),
        file("bar-1.0.sif", 200),
        DirEntry { file_name: Some(String::from("foo-3.0.sif")), is_file: false, modified: Some(Timestamp::new(300, 0)) },
        DirEntry { file_name: None, is_file: true, modified: Some(Timestamp::new(400, 0)) },
        DirEntry { file_name: Some(String::from("foo-5.0.sif")), is_file: true, modified: None },
    ];
    assert_eq!(latest_sync_timestamp(&entries, "foo"), Timestamp::epoch());
}

#[test]
fn mark_is_never_before_the_epoch() {
    let entries = vec![file("foo-0.1.sif", -5)];
    assert_eq!(latest_sync_timestamp(&entries, "foo"), Timestamp::epoch());
}

#[test]
fn mark_tells_nanoseconds_apart() {
    let entries = vec![
        DirEntry { file_name: Some(String::from("foo-1.sif")), is_file: true, modified: Some(Timestamp::new(7, 500)) },
        DirEntry { file_name: Some(String::from("foo-2.sif")), is_file: true, modified: Some(Timestamp::new(7, 900)) },
        DirEntry { file_name: Some(String::from("foo-3.sif")), is_file: true, modified: Some(Timestamp::new(6, 999_999_999)) },
    ];
    assert_eq!(latest_sync_timestamp(&entries, "foo"), Timestamp::new(7, 900));
}

#[test]
fn classify_gives_the_first_reason() {
    let time = Timestamp::new(10, 1);
    let entry = |name: Option<&str>, is_file: bool, modified: Option<Timestamp>| DirEntry {
        file_name: name.map(String::from),
        is_file,
        modified,
    };
    assert_eq!(classify(&entry(Some("foo-1.0.sif"), true, Some(time)), "foo"), Scanned::Artifact(time));
    assert_eq!(classify(&entry(None, false, None), "foo"), Scanned::Unreadable);
    assert_eq!(classify(&entry(Some("notes.txt"), false, Some(time)), "foo"), Scanned::NotAFile);
    assert_eq!(classify(&entry(Some("foo-1.0.img"), true, Some(time)), "foo"), Scanned::OtherExtension);
    assert_eq!(classify(&entry(Some("bar-1.0.sif"), true, Some(time)), "foo"), Scanned::OtherImage);
    assert_eq!(classify(&entry(Some("foo-1.0.sif"), true, None), "foo"), Scanned::NoTimestamp);
}

#[test]
fn image_name_is_matched_anywhere_in_the_file_name() {
    let time = Timestamp::new(10, 0);
    let entry = DirEntry { file_name: Some(String::from("my-foo-build.sif")), is_file: true, modified: Some(time) };
    assert_eq!(classify(&entry, "foo"), Scanned::Artifact(time));
    assert_eq!(classify(&entry, "Foo"), Scanned::OtherImage);
}

#[test]
fn artifact_extension_needs_a_stem() {
    assert!(is_artifact_name("a.sif"));
    assert!(is_artifact_name("foo-1.0.sif"));
    assert!(is_artifact_name("..sif"));
    assert!(!is_artifact_name(".sif"));
    assert!(!is_artifact_name("sif"));
    assert!(!is_artifact_name("foo.sif.txt"));
    assert!(!is_artifact_name("foo.SIF"));
    assert!(!is_artifact_name("foosif"));
    assert!(!is_artifact_name(""));
}

#[test]
fn contains_finds_a_fragment_anywhere() {
    assert!(contains("1.2.3-rc1", "rc"));
    assert!(contains("latest", "latest"));
    assert!(contains("abc", ""));
    assert!(contains("", ""));
    assert!(contains("aab", "ab"));
    assert!(!contains("1.2.3", "rc"));
    assert!(!contains("rc", "rc1"));
    assert!(!contains("", "a"));
    assert!(!contains("RC", "rc"));
}

#[test]
fn ends_with_looks_at_the_end_only() {
    assert!(ends_with("foo.sif", ".sif"));
    assert!(ends_with("foo", ""));
    assert!(ends_with(".sif", ".sif"));
    assert!(!ends_with("foo.sif.bak", ".sif"));
    assert!(!ends_with("if", ".sif"));
}

#[test]
fn timestamps_are_ordered_by_seconds_then_nanoseconds() {
    let early = Timestamp::new(5, 999);
    let late = Timestamp::new(6, 0);
    assert!(late.after(&early));
    assert!(!early.after(&late));
    assert!(!early.after(&early));
    assert!(Timestamp::new(5, 1000).after(&early));
    assert!(Timestamp::new(-1, 0).after(&Timestamp::new(-2, 999)));
    assert_eq!(early.latest(late), late);
    assert_eq!(late.latest(early), late);
    assert!(!Timestamp::new(0, 1).is_epoch());
    assert!(!Timestamp::new(1, 0).is_epoch());
}
