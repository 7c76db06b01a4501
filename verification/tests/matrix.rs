use constellations::matrix::diff::{apply_diff, VectorDiff};
use constellations::matrix::spaces::SpaceHierarchy;
use constellations::matrix::{
    is_recent_enough_to_notify, is_search_unsupported, notification_body, unread_count_label,
    NotifiedMessageKind, SyncError,
};
use constellations::text::{parse_u8, str_contains, str_lt, trimmed, u32_to_string};

#[test]
fn unread_label_shows_positive_counts() {
    assert_eq!(unread_count_label(0), None);
    assert_eq!(unread_count_label(7), Some("(7)".to_string()));
    assert_eq!(unread_count_label(1203), Some("(1203)".to_string()));
}

#[test]
fn notification_age_window_is_five_minutes() {
    assert!(is_recent_enough_to_notify(1_000_000, 1_000_000));
    assert!(is_recent_enough_to_notify(1_300_000, 1_000_000));
    assert!(!is_recent_enough_to_notify(1_300_001, 1_000_000));
    assert!(is_recent_enough_to_notify(1_000_000, 1_300_000));
    assert!(!is_recent_enough_to_notify(1_000_000, 1_300_001));
    assert!(!is_recent_enough_to_notify(0, 0));
    assert!(!is_recent_enough_to_notify(0, 100));
}

#[test]
fn search_unsupported_statuses_and_texts() {
    assert!(is_search_unsupported(Some(404), ""));
    assert!(is_search_unsupported(Some(405), "whatever"));
    assert!(!is_search_unsupported(Some(500), "Internal error"));
    assert!(is_search_unsupported(None, "HTTP status: 404 Not Found"));
    assert!(is_search_unsupported(None, "405 Method Not Allowed from server"));
    assert!(!is_search_unsupported(None, "timeout"));
}

#[test]
fn notification_bodies_per_kind() {
    assert_eq!(notification_body(NotifiedMessageKind::Text, "hello"), "hello");
    assert_eq!(notification_body(NotifiedMessageKind::Image, "x"), "📷 Image");
    assert_eq!(notification_body(NotifiedMessageKind::Video, "x"), "🎥 Video");
    assert_eq!(notification_body(NotifiedMessageKind::Audio, "x"), "🎵 Audio");
    assert_eq!(notification_body(NotifiedMessageKind::File, "x"), "📎 File");
    assert_eq!(notification_body(NotifiedMessageKind::Other, "x"), "New message");
}

#[test]
fn sync_error_messages() {
    assert_eq!(
        SyncError::MissingSlidingSyncSupport.to_message(),
        "Sliding Sync (MSC4186) is not supported by the homeserver"
    );
    assert_eq!(SyncError::Matrix("boom".to_string()).to_message(), "Matrix error: boom");
    assert_eq!(SyncError::Http("502".to_string()).to_message(), "HTTP error: 502");
    assert_eq!(SyncError::Anyhow("bad".to_string()).to_message(), "Error: bad");
    assert_eq!(SyncError::Generic("plain".to_string()).to_message(), "plain");
}

#[test]
fn text_helpers() {
    assert_eq!(trimmed("  hi there \n"), "hi there");
    assert_eq!(trimmed("   "), "");
    assert_eq!(parse_u8("42"), Some(42));
    assert_eq!(parse_u8("+7"), Some(7));
    assert_eq!(parse_u8("255"), Some(255));
    assert_eq!(parse_u8("256"), None);
    assert_eq!(parse_u8(""), None);
    assert_eq!(parse_u8("+"), None);
    assert_eq!(parse_u8("4a"), None);
    assert_eq!(u32_to_string(0), "0");
    assert_eq!(u32_to_string(4294967295), "4294967295");
    assert!(str_contains("abcdef", "cde"));
    assert!(str_contains("abc", ""));
    assert!(!str_contains("abc", "abcd"));
    assert!(str_lt("abc", "abd"));
    assert!(str_lt("ab", "abc"));
    assert!(!str_lt("abc", "abc"));
    assert!(!str_lt("b", "abc"));
}

#[test]
fn vector_diffs_apply_like_eyeball() {
    let mut list = vec![1, 2, 3];
    apply_diff(&mut list, VectorDiff::PushFront { value: 0 });
    assert_eq!(list, vec![0, 1, 2, 3]);
    apply_diff(&mut list, VectorDiff::PushBack { value: 4 });
    apply_diff(&mut list, VectorDiff::Insert { index: 2, value: 9 });
    assert_eq!(list, vec![0, 1, 9, 2, 3, 4]);
    apply_diff(&mut list, VectorDiff::Replace { index: 0, value: 7 });
    apply_diff(&mut list, VectorDiff::Remove { index: 1 });
    assert_eq!(list, vec![7, 9, 2, 3, 4]);
    apply_diff(&mut list, VectorDiff::PopFront);
    apply_diff(&mut list, VectorDiff::PopBack);
    assert_eq!(list, vec![9, 2, 3]);
    apply_diff(&mut list, VectorDiff::Truncate { length: 1 });
    apply_diff(&mut list, VectorDiff::Append { values: vec![5, 6] });
    assert_eq!(list, vec![9, 5, 6]);
    apply_diff(&mut list, VectorDiff::Clear);
    assert!(list.is_empty());
    apply_diff(&mut list, VectorDiff::PopBack);
    assert!(list.is_empty());
    apply_diff(&mut list, VectorDiff::Reset { values: vec![8] });
    assert_eq!(list, vec![8]);
}

fn sample_hierarchy() -> SpaceHierarchy {
    let mut h = SpaceHierarchy::new();
    h.add_child("!space".to_string(), "!sub".to_string(), Some("a".to_string()), true);
    h.add_child("!sub".to_string(), "!room1".to_string(), None, false);
    h.add_child("!space".to_string(), "!room2".to_string(), None, false);
    h.add_child("!other".to_string(), "!room3".to_string(), None, false);
    h
}

#[test]
fn rooms_in_nested_spaces_belong_to_the_outer_space() {
    let h = sample_hierarchy();
    assert!(h.is_in_space("!room1", "!space"));
    assert!(h.is_in_space("!room2", "!space"));
    assert!(h.is_in_space("!space", "!space"));
    assert!(!h.is_in_space("!room3", "!space"));
    assert!(h.is_known_space("!sub"));
    assert!(!h.is_known_space("!room1"));
}

#[test]
fn descendants_are_listed_once() {
    let mut h = sample_hierarchy();
    h.add_child("!sub".to_string(), "!room2".to_string(), None, false);
    let mut below = h.get_descendants_strs("!space");
    below.sort();
    assert_eq!(below, vec!["!room1", "!room2", "!space", "!sub"]);
}

#[test]
fn removing_an_edge_cuts_the_subtree() {
    let mut h = sample_hierarchy();
    h.remove_child("!space", "!sub");
    assert!(!h.is_in_space("!room1", "!space"));
    assert!(h.is_in_space("!room1", "!sub"));
}

#[test]
fn cycles_do_not_hang_the_walk() {
    let mut h = SpaceHierarchy::new();
    h.add_relationship("!a".to_string(), "!b".to_string());
    h.add_relationship("!b".to_string(), "!a".to_string());
    assert!(h.is_in_space("!a", "!b"));
    assert!(h.is_in_space("!b", "!a"));
    let mut below = h.get_descendants_strs("!a");
    below.sort();
    assert_eq!(below, vec!["!a", "!b"]);
}

#[test]
fn bulk_filter_keeps_matching_rooms_inside_the_space() {
    let h = sample_hierarchy();
    let rooms = vec![
        "!room1".to_string(),
        "!room3".to_string(),
        "!room2".to_string(),
        "!space".to_string(),
    ];
    let matches = vec![true, true, false, true];
    assert_eq!(h.filter_in_space_bulk_sync(&rooms, "!space", &matches), vec![0, 3]);
    assert_eq!(h.positions_in_space(&rooms, "!space"), vec![0, 2, 3]);
    let other_verdict = vec![true, false, false, true];
    assert_eq!(h.filter_in_space_bulk_sync(&rooms, "!space", &other_verdict), vec![0, 3]);
}

#[test]
fn placement_reports_parent_and_order() {
    let mut h = sample_hierarchy();
    let (parent, order, suggested) = h.fetch_space_hierarchy_data("!sub".to_string(), true);
    assert_eq!(parent, Some("!space".to_string()));
    assert_eq!(order, Some("a".to_string()));
    assert!(suggested);
    assert_eq!(h.fetch_space_hierarchy_data("!lonely".to_string(), false), (None, None, false));
    h.add_relationship("!space".to_string(), "!sub".to_string());
    let (_, order_after, _) = h.fetch_space_hierarchy_data("!sub".to_string(), true);
    assert_eq!(order_after, Some("a".to_string()));
}
