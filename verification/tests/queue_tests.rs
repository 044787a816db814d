use playback_core::player::PlayerError;
use playback_core::queue::Queue;
use playback_core::track::Track;

fn track(label: &str, duration_ms: u64) -> Track {
    Track::new(
        Some(label.to_string()),
        vec![1u8, 2, 3],
        duration_ms,
        Some(format!("/music/{}.flac", label)),
    )
}

fn titles(tracks: &[Track]) -> Vec<String> {
    tracks
        .iter()
        .map(|t| t.title().cloned().unwrap_or_default())
        .collect()
}

#[test]
fn snapshot_preserves_insertion_order() {
    let mut q = Queue::new();
    for name in ["alpha", "beta", "gamma", "delta"] {
        q.enqueue(track(name, 1_000));
    }
    let snap = q.snapshot();
    assert_eq!(titles(&snap), vec!["alpha", "beta", "gamma", "delta"]);
}

#[test]
fn snapshot_of_empty_queue_is_empty() {
    let q = Queue::new();
    assert!(q.snapshot().is_empty());
    assert_eq!(q.len(), 0);
    assert_eq!(q.cursor_index(), None);
}

#[test]
fn enqueue_on_empty_queue_sets_cursor_to_first() {
    let mut q = Queue::new();
    q.enqueue(track("first", 1_000));
    assert_eq!(q.cursor_index(), Some(0));
    q.enqueue(track("second", 1_000));
    assert_eq!(q.cursor_index(), Some(0));
}

#[test]
fn advance_walks_forward_then_reports_no_more_tracks() {
    let mut q = Queue::new();
    q.enqueue(track("a", 1_000));
    q.enqueue(track("b", 1_000));
    let next = q.advance().expect("second track should be there");
    assert_eq!(next.title().map(String::as_str), Some("b"));
    assert_eq!(q.cursor_index(), Some(1));
    assert!(q.advance().is_none());
    assert_eq!(q.cursor_index(), None);
    assert!(q.current().is_none());
}

#[test]
fn advance_on_empty_queue_reports_none() {
    let mut q = Queue::new();
    assert!(q.advance().is_none());
    assert_eq!(q.cursor_index(), None);
}

#[test]
fn rewind_at_first_track_is_a_noop_not_an_error() {
    let mut q = Queue::new();
    q.enqueue(track("a", 1_000));
    q.enqueue(track("b", 1_000));
    let restarted = q.rewind().expect("rewind at the start returns the current track");
    assert_eq!(restarted.title().map(String::as_str), Some("a"));
    assert_eq!(q.cursor_index(), Some(0));
}

#[test]
fn rewind_steps_back_one_track() {
    let mut q = Queue::new();
    q.enqueue(track("a", 1_000));
    q.enqueue(track("b", 1_000));
    q.advance();
    let prev = q.rewind().expect("there is an earlier track");
    assert_eq!(prev.title().map(String::as_str), Some("a"));
    assert_eq!(q.cursor_index(), Some(0));
}

#[test]
fn remove_current_track_shifts_cursor_to_next() {
    let mut q = Queue::new();
    q.enqueue(track("a", 1_000));
    q.enqueue(track("b", 1_000));
    q.enqueue(track("c", 1_000));
    q.advance();
    assert_eq!(q.cursor_index(), Some(1));
    q.remove(1).unwrap();
    assert_eq!(q.cursor_index(), Some(1));
    assert_eq!(
        q.current().and_then(|t| t.title()).map(String::as_str),
        Some("c")
    );
}

#[test]
fn remove_last_track_while_current_empties_cursor() {
    let mut q = Queue::new();
    q.enqueue(track("a", 1_000));
    q.remove(0).unwrap();
    assert_eq!(q.cursor_index(), None);
    assert!(q.current().is_none());
    assert_eq!(q.len(), 0);
}

#[test]
fn remove_before_cursor_shifts_cursor_down() {
    let mut q = Queue::new();
    q.enqueue(track("a", 1_000));
    q.enqueue(track("b", 1_000));
    q.advance();
    q.remove(0).unwrap();
    assert_eq!(q.cursor_index(), Some(0));
    assert_eq!(
        q.current().and_then(|t| t.title()).map(String::as_str),
        Some("b")
    );
}

#[test]
fn remove_out_of_range_is_rejected_and_changes_nothing() {
    let mut q = Queue::new();
    q.enqueue(track("a", 1_000));
    assert_eq!(q.remove(5), Err(PlayerError::InvalidArgument));
    assert_eq!(q.len(), 1);
    assert_eq!(q.cursor_index(), Some(0));
}

#[test]
fn clear_empties_queue_and_cursor() {
    let mut q = Queue::new();
    q.enqueue(track("a", 1_000));
    q.enqueue(track("b", 1_000));
    q.clear();
    assert_eq!(q.len(), 0);
    assert_eq!(q.cursor_index(), None);
    assert!(q.current().is_none());
}

#[test]
fn current_reads_without_side_effect() {
    let mut q = Queue::new();
    q.enqueue(track("a", 1_000));
    let before = q.cursor_index();
    assert_eq!(
        q.current().and_then(|t| t.title()).map(String::as_str),
        Some("a")
    );
    assert_eq!(q.cursor_index(), before);
}
