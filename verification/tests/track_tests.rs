use playback_core::track::Track;

#[test]
fn track_keeps_its_parts() {
    let t = Track::new(
        Some("Song".to_string()),
        vec![7u8, 8, 9],
        240_000,
        Some("/music/song.flac".to_string()),
    );
    assert_eq!(t.title().map(String::as_str), Some("Song"));
    assert_eq!(t.file_path().map(String::as_str), Some("/music/song.flac"));
    assert_eq!(t.payload().as_slice(), &[7u8, 8, 9]);
    assert_eq!(t.duration_ms(), 240_000);
}

#[test]
fn display_label_prefers_title_then_file_path() {
    let titled = Track::new(
        Some("Name".to_string()),
        Vec::new(),
        1_000,
        Some("/p.flac".to_string()),
    );
    assert_eq!(titled.display_label().map(String::as_str), Some("Name"));

    let pathed = Track::new(None, Vec::new(), 1_000, Some("/p.flac".to_string()));
    assert_eq!(pathed.display_label().map(String::as_str), Some("/p.flac"));

    let bare = Track::new(None, Vec::new(), 1_000, None);
    assert_eq!(bare.display_label(), None);
}

#[test]
fn clone_copies_every_field() {
    let t = Track::new(
        Some("Song".to_string()),
        vec![1u8, 2, 3, 4],
        9_000,
        Some("/music/song.flac".to_string()),
    );
    let c = t.clone();
    assert_eq!(c.title(), t.title());
    assert_eq!(c.file_path(), t.file_path());
    assert_eq!(c.payload(), t.payload());
    assert_eq!(c.duration_ms(), t.duration_ms());
}
