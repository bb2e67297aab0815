use lib_core::sinker::{session_letter, SinkEntry, Sinker};

fn entry(title: &str, path: &str, extension: &str) -> SinkEntry {
    SinkEntry { title: title.to_string(), path: path.to_string(), extension: extension.to_string() }
}

#[test]
fn files_are_grouped_by_title_and_routed_by_extension() {
    let buckets = Sinker::sink(vec![
        entry("241106B", "a.xml", "xml"),
        entry("241106A", "1.mp4", "mp4"),
        entry("241106B", "test.mp4", "mp4"),
        entry("241106B", "notes.txt", "txt"),
        entry("241106A", "b.xml", "xml"),
        entry("241106B", "2.mp4", "mp4"),
    ]);
    assert_eq!(buckets.len(), 2);
    assert_eq!(buckets[0].title(), "241106B");
    assert_eq!(buckets[0].xml_files(), &vec!["a.xml".to_string()]);
    assert_eq!(buckets[0].video_files(), &vec!["test.mp4".to_string(), "2.mp4".to_string()]);
    assert_eq!(buckets[1].title(), "241106A");
    assert_eq!(buckets[1].xml_files(), &vec!["b.xml".to_string()]);
    assert_eq!(buckets[1].video_files(), &vec!["1.mp4".to_string()]);
}

#[test]
fn a_group_of_dropped_files_still_exists() {
    let buckets = Sinker::sink(vec![entry("241107A", "x.unknown", "unknown")]);
    assert_eq!(buckets.len(), 1);
    assert!(buckets[0].xml_files().is_empty());
    assert!(buckets[0].video_files().is_empty());
    assert!(Sinker::sink(Vec::new()).is_empty());
}

#[test]
fn session_letters() {
    // Monday is 0, Wednesday is 2.
    assert_eq!(session_letter(0, 10), "A");
    assert_eq!(session_letter(0, 8), "A");
    assert_eq!(session_letter(0, 12), "");
    assert_eq!(session_letter(1, 15), "B");
    assert_eq!(session_letter(1, 19), "C");
    assert_eq!(session_letter(1, 20), "");
    assert_eq!(session_letter(2, 19), "B");
    assert_eq!(session_letter(2, 20), "B");
    assert_eq!(session_letter(3, 23), "");
    assert_eq!(session_letter(6, 7), "");
}
