use constellations::matrix::{pinned_event_info, PinnedBody};
use constellations::matrix::sync_room_data::{room_data, RoomFacts};
use constellations::matrix::auth::{classify_oidc_start_error, OidcStartError};
use constellations::matrix::sync_room_data::{extract_allowed_spaces_from_join_rule, AllowRule, JoinRule};
use constellations::matrix::sync_room_data::dm_room_avatar;
use constellations::matrix::RoomMemberInfo;
use constellations::constellations::subscriptions::{
    handover_for, initial_thread_messages, initial_timeline_events, ipc_message, room_diff_with_data, sync_status_for,
    SyncServiceState,
};
use constellations::constellations::scroll::ScrollResponse;
use constellations::constellations::{Constellations, EmojiGroup, Effect, Message};
use constellations::matrix::calls::CallParticipants;
use constellations::matrix::auth::{choose_homeserver_url, sanitize_homeserver_url, UrlParts};
use constellations::matrix::diff::VectorDiff;
use constellations::matrix::search::{
    local_next_batch_answered, ActiveSearch, SearchState, SearchStep, ServerSearchOutcome,
};
use constellations::matrix::space_children::{
    apply_space_state_event, SpaceEventKind, SpaceStateEvent, parse_space_children_events, space_children_from_hierarchy, SpaceChildEvent, SpaceRoomSummary,
};
use constellations::matrix::spaces::SpaceHierarchy;
use constellations::matrix::sync_room_data::{check_sliding_sync_support, last_message_line, strip_reply_quote};
use constellations::matrix::{
    message_notification, MatrixEvent, MessageSearchResult, NotifiedMessageKind, RoomData, SyncError, SyncStatus,
    TimelineEntry,
};

#[test]
fn homeserver_without_scheme_gets_https() {
    assert_eq!(sanitize_homeserver_url("matrix.org"), "https://matrix.org");
    assert_eq!(sanitize_homeserver_url("https://matrix.org/"), "https://matrix.org/");
}

#[test]
fn plain_http_is_kept_only_for_the_local_machine() {
    assert_eq!(sanitize_homeserver_url("http://localhost:8008"), "http://localhost:8008");
    assert_eq!(sanitize_homeserver_url("http://127.0.0.1:8008"), "http://127.0.0.1:8008");
    assert_eq!(sanitize_homeserver_url("http://[::1]:8448"), "http://[::1]:8448");
    assert_eq!(sanitize_homeserver_url("http://example.com"), "https://example.com");
    assert_eq!(sanitize_homeserver_url("http://example.com/"), "https://example.com/");
    assert_eq!(sanitize_homeserver_url("http://user:pw@example.com/path"), "https://example.com/path");
}

#[test]
fn text_that_is_no_url_gets_https_in_front() {
    assert_eq!(sanitize_homeserver_url("http://exa mple.com"), "https://exa mple.com");
    assert_eq!(sanitize_homeserver_url("https://exa mple.com"), "https://https://exa mple.com");
}

#[test]
fn homeserver_choice_from_given_parts() {
    let parts = UrlParts { scheme: "http".to_string(), host: Some("example.org".to_string()), path: "/".to_string() };
    assert_eq!(choose_homeserver_url("http://example.org", Some(parts), "https://example.org/"), "https://example.org");
    let local = UrlParts { scheme: "http".to_string(), host: Some("localhost".to_string()), path: "/".to_string() };
    assert_eq!(choose_homeserver_url("localhost", Some(local), "unused"), "https://localhost");
    let other = UrlParts { scheme: "https".to_string(), host: None, path: "/".to_string() };
    assert_eq!(choose_homeserver_url("a://b", Some(other), "unused"), "a://b");
    assert_eq!(choose_homeserver_url("http://x y", None, ""), "https://x y");
}

#[test]
fn reply_quotes_are_stripped_from_the_last_message() {
    assert_eq!(strip_reply_quote("> <@alice:example.com> Hello\n\nHi there"), "Hi there");
    assert_eq!(strip_reply_quote("plain text"), "plain text");
    assert_eq!(strip_reply_quote("  first line  \nsecond"), "first line");
    assert_eq!(strip_reply_quote("> only quote"), "> only quote");
    assert_eq!(strip_reply_quote("\nabc"), "");
    assert_eq!(strip_reply_quote("line\r\nnext"), "line");
    assert_eq!(strip_reply_quote("  > quoted\n   \n  answer \n"), "answer");
}

#[test]
fn long_last_messages_are_cut() {
    assert_eq!(last_message_line("short"), "short");
    assert_eq!(last_message_line("abcdefghijklmnopqrstuvwxyz0123"), "abcdefghijklmnopqrstuvwxyz0123");
    assert_eq!(last_message_line("abcdefghijklmnopqrstuvwxyz01234"), "abcdefghijklmnopqrstuvwxyz...");
    assert_eq!(last_message_line("> quote\nabcdefghijklmnopqrstuvwxyz01234567"), "abcdefghijklmnopqrstuvwxyz...");
}

#[test]
fn sliding_sync_support_is_detected() {
    let none: Vec<String> = Vec::new();
    assert_eq!(check_sliding_sync_support(&vec!["org.matrix.msc4186".to_string()], &none), Ok(()));
    assert_eq!(
        check_sliding_sync_support(&none, &vec!["v1.10".to_string(), "v1.11".to_string()]),
        Ok(())
    );
    assert_eq!(
        check_sliding_sync_support(&vec!["org.matrix.msc3575".to_string()], &vec!["v1.10".to_string()]),
        Err(SyncError::MissingSlidingSyncSupport)
    );
}

fn hit(body: &str) -> MessageSearchResult {
    MessageSearchResult {
        room_id: "!r".to_string(),
        room_name: None,
        event_id: "$e".to_string(),
        sender_id: "@a:b".to_string(),
        body: body.to_string(),
        timestamp: "2026-01-01 00:00:00".to_string(),
        plain_text: Vec::new(),
        links: Vec::new(),
    }
}

#[test]
fn unsupported_server_search_falls_back_to_local_and_is_remembered() {
    let mut state = SearchState::new();
    let step = state.begin_room_search("!r".to_string(), "cats".to_string());
    assert!(matches!(step, SearchStep::ServerSearch { next_batch: None, .. }));
    let step = state.server_search_answered("!r".to_string(), "cats".to_string(), ServerSearchOutcome::Unsupported);
    assert!(matches!(step, SearchStep::LocalSearch { .. }));
    assert_eq!(state.server_search_supported, Some(false));
    let step = state.begin_room_search("!s".to_string(), "dogs".to_string());
    assert!(matches!(step, SearchStep::LocalSearch { ref room_id, .. } if room_id == "!s"));
    let mut probe = SearchState::new();
    probe.server_search_supported = Some(false);
    probe.forget_server_support();
    assert!(matches!(
        probe.begin_room_search("!r".to_string(), "q".to_string()),
        SearchStep::ServerSearch { next_batch: None, .. }
    ));
    let step = state.local_search_answered("!s".to_string(), None);
    assert!(matches!(step, SearchStep::Done(Ok((ref hits, false))) if hits.is_empty()));
    assert!(matches!(state.next_batch(), SearchStep::LocalNextBatch { ref room_id } if room_id == "!s"));
}

#[test]
fn server_search_pages_follow_the_token() {
    let mut state = SearchState::new();
    let step = state.server_search_answered(
        "!r".to_string(),
        "cats".to_string(),
        ServerSearchOutcome::Found(vec![hit("a cat")], Some("t1".to_string())),
    );
    assert!(matches!(step, SearchStep::Done(Ok((ref hits, true))) if hits.len() == 1));
    assert_eq!(state.server_search_supported, Some(true));
    assert!(matches!(
        state.next_batch(),
        SearchStep::ServerSearch { next_batch: Some(ref t), .. } if t == "t1"
    ));
    let res = state.next_batch_server_answered(ServerSearchOutcome::Found(vec![hit("b cat")], None));
    assert!(matches!(res, Ok((ref hits, false)) if hits.len() == 1));
    assert!(matches!(state.active_search, Some(ActiveSearch::Server { next_batch: None, .. })));
    assert!(matches!(state.next_batch(), SearchStep::Done(Ok((ref hits, false))) if hits.is_empty()));
    let err = state.next_batch_server_answered(ServerSearchOutcome::Failed("boom".to_string()));
    assert!(matches!(err, Err(ref e) if e == "boom"));
}

#[test]
fn failed_first_server_search_is_the_answer() {
    let mut state = SearchState::new();
    let step = state.server_search_answered("!r".to_string(), "q".to_string(), ServerSearchOutcome::Failed("x".to_string()));
    assert!(matches!(step, SearchStep::Done(Err(ref e)) if e == "x"));
    assert_eq!(state.server_search_supported, None);
    assert!(matches!(state.next_batch(), SearchStep::Done(Ok((_, false)))));
}

#[test]
fn local_pages_report_more_while_not_empty() {
    let (hits, more) = local_next_batch_answered(Some(vec![hit("x")]));
    assert_eq!(hits.len(), 1);
    assert!(more);
    let (hits, more) = local_next_batch_answered(Some(Vec::new()));
    assert!(hits.is_empty() && !more);
    let (hits, more) = local_next_batch_answered(None);
    assert!(hits.is_empty() && !more);
}

#[test]
fn space_children_take_their_child_event_placement() {
    let events = vec![
        SpaceChildEvent { child_id: "!a".to_string(), has_via: true, order: Some("1".to_string()), suggested: false },
        SpaceChildEvent { child_id: "!gone".to_string(), has_via: false, order: None, suggested: true },
        SpaceChildEvent { child_id: "!a".to_string(), has_via: true, order: Some("2".to_string()), suggested: true },
    ];
    let entries = parse_space_children_events(events);
    assert_eq!(entries.len(), 2);
    let summaries = vec![
        SpaceRoomSummary { room_id: "!a".to_string(), name: Some("A".to_string()), avatar_url: None, is_space: false },
        SpaceRoomSummary { room_id: "!b".to_string(), name: None, avatar_url: None, is_space: true },
    ];
    let mut hierarchy = SpaceHierarchy::new();
    let space = "!space".to_string();
    let rooms: Vec<RoomData> = space_children_from_hierarchy(&mut hierarchy, &space, &summaries, &entries);
    assert_eq!(rooms.len(), 2);
    assert_eq!(rooms[0].order.as_deref(), Some("2"));
    assert!(rooms[0].suggested);
    assert_eq!(rooms[0].parent_space_id.as_deref(), Some("!space"));
    assert_eq!(rooms[1].order, None);
    assert!(rooms[1].is_space);
    assert!(hierarchy.is_in_space("!b", "!space"));
    assert!(hierarchy.is_known_space("!space"));
    assert_eq!(
        hierarchy.fetch_space_hierarchy_data("!a".to_string(), false),
        (Some("!space".to_string()), Some("2".to_string()), true)
    );
}

#[test]
fn sync_service_states_map_to_statuses() {
    assert_eq!(sync_status_for(SyncServiceState::Idle), SyncStatus::Connected);
    assert_eq!(sync_status_for(SyncServiceState::Running), SyncStatus::Syncing);
    assert_eq!(sync_status_for(SyncServiceState::Terminated), SyncStatus::Disconnected);
    assert_eq!(sync_status_for(SyncServiceState::Offline), SyncStatus::Disconnected);
    assert_eq!(
        sync_status_for(SyncServiceState::Error),
        SyncStatus::Error(
            "Sync error encountered. This may be due to missing server support for Sliding Sync (MSC4186) or network issues."
                .to_string()
        )
    );
}

fn room(id: &str) -> RoomData {
    RoomData {
        id: id.to_string(),
        name: None,
        last_message: None,
        unread_count: 0,
        unread_count_str: None,
        avatar_url: None,
        is_space: false,
        parent_space_id: None,
        allowed_spaces: Vec::new(),
        order: None,
        suggested: false,
    }
}

#[test]
fn room_diffs_drop_rooms_that_were_not_found() {
    assert!(matches!(room_diff_with_data(VectorDiff::Insert { index: 0, value: None }), None));
    assert!(matches!(
        room_diff_with_data(VectorDiff::Insert { index: 3, value: Some(room("!a")) }),
        Some(VectorDiff::Insert { index: 3, ref value }) if value.id == "!a"
    ));
    match room_diff_with_data(VectorDiff::Reset { values: vec![Some(room("!a")), None, Some(room("!c"))] }) {
        Some(VectorDiff::Reset { values }) => {
            assert_eq!(values.iter().map(|r| r.id.as_str()).collect::<Vec<_>>(), vec!["!a", "!c"]);
        },
        _ => panic!("a reset stays a reset"),
    }
    assert!(matches!(room_diff_with_data(VectorDiff::Remove { index: 1 }), Some(VectorDiff::Remove { index: 1 })));
    assert!(matches!(room_diff_with_data(VectorDiff::Clear), Some(VectorDiff::Clear)));
}

fn entry(id: &str) -> TimelineEntry {
    TimelineEntry {
        event_id: Some(id.to_string()),
        is_event: true,
        thread_root_id: None,
        sender_avatar_url: None,
        image_url: None,
        message_body: None,
    }
}

#[test]
fn first_timeline_load_is_reset_inserts_and_finish() {
    let items = vec![entry("$1"), entry("$2")];
    let events = initial_timeline_events(&items);
    assert_eq!(events.len(), 4);
    assert!(matches!(events[0], MatrixEvent::TimelineReset));
    assert!(matches!(events[1], MatrixEvent::TimelineDiff(VectorDiff::Insert { index: 0, ref value }) if value == &items[0]));
    assert!(matches!(events[2], MatrixEvent::TimelineDiff(VectorDiff::Insert { index: 1, ref value }) if value == &items[1]));
    assert!(matches!(events[3], MatrixEvent::TimelineInitFinished));
    let mut rebuilt: Vec<TimelineEntry> = Vec::new();
    for e in initial_timeline_events(&items) {
        if let MatrixEvent::TimelineDiff(d) = e {
            constellations::matrix::diff::apply_diff(&mut rebuilt, d);
        }
    }
    assert_eq!(rebuilt, items);
    let root = "$root".to_string();
    let messages = initial_thread_messages(&root, &items);
    assert_eq!(messages.len(), 4);
    assert!(matches!(messages[0], Message::MatrixThreadReset(ref r) if r == "$root"));
    assert!(matches!(messages[3], Message::MatrixThreadInitFinished(ref r) if r == "$root"));
}

#[test]
fn ipc_uris_become_oidc_callbacks_when_they_parse() {
    assert!(matches!(
        ipc_message("https://example.com/callback?code=1".to_string()),
        Some(Message::OidcCallback(ref u)) if u == "https://example.com/callback?code=1"
    ));
    assert!(ipc_message("not a url".to_string()).is_none());
    assert!(matches!(handover_for("x".to_string(), true), Some(Message::OidcCallback(ref u)) if u == "x"));
    assert!(handover_for("x".to_string(), false).is_none());
}

fn app_in_room() -> Constellations {
    let mut app = Constellations::mock();
    app.session.engine_ready = true;
    app.rooms.selected_room = Some("!room:example.com".to_string());
    app
}

#[test]
fn shared_location_is_sent_with_a_geo_uri() {
    let mut app = app_in_room();
    let effects = app.handle_location_retrieved(Ok(("1.5".to_string(), "-2.25".to_string())));
    assert_eq!(effects.len(), 1);
    assert!(matches!(
        &effects[0],
        Effect::SendLocation { room_id, latitude, longitude, geo_uri }
            if room_id == "!room:example.com" && latitude == "1.5" && longitude == "-2.25" && geo_uri == "geo:1.5,-2.25"
    ));
    let effects = app.handle_location_retrieved(Err("denied".to_string()));
    assert!(effects.is_empty());
    assert_eq!(app.session.error.as_deref(), Some("Failed to get the location: denied"));
}

#[test]
fn calls_and_pickers_ask_the_runtime() {
    let mut app = app_in_room();
    assert!(matches!(app.handle_join_call().as_slice(), [Effect::JoinCall(r)] if r == "!room:example.com"));
    assert!(matches!(app.handle_leave_call().as_slice(), [Effect::LeaveCall(r)] if r == "!room:example.com"));
    assert!(matches!(app.handle_add_attachment().as_slice(), [Effect::PickAttachments]));
    assert!(matches!(app.handle_share_location().as_slice(), [Effect::RequestLocation]));
    assert!(matches!(
        app.handle_create_space("Team".to_string()).as_slice(),
        [Effect::CreateSpace { name }] if name == "Team"
    ));
    app.rooms.new_room_is_video = true;
    assert!(matches!(
        app.handle_create_room("Calls".to_string()).as_slice(),
        [Effect::CreateRoom { name, is_video: true }] if name == "Calls"
    ));
    app.rooms.selected_room = None;
    assert!(app.handle_join_call().is_empty());
    app.session.engine_ready = false;
    assert!(app.handle_create_space("x".to_string()).is_empty());
}

#[test]
fn notifications_skip_own_and_old_messages() {
    let me = Some("@me:example.com".to_string());
    let alice = "@alice:example.com".to_string();
    let n = message_notification(
        &me,
        &alice,
        Some("Alice".to_string()),
        Some("Lounge".to_string()),
        1_000_000,
        900_000,
        NotifiedMessageKind::Text,
        "hi",
    );
    assert_eq!(n, Some(("Alice in Lounge".to_string(), "hi".to_string())));
    let n = message_notification(&me, &alice, None, None, 1_000_000, 1_000_000, NotifiedMessageKind::Image, "x");
    assert_eq!(n, Some(("@alice:example.com in Unknown Room".to_string(), "📷 Image".to_string())));
    let own = "@me:example.com".to_string();
    assert_eq!(message_notification(&me, &own, None, None, 5, 5, NotifiedMessageKind::Text, "x"), None);
    assert_eq!(
        message_notification(&None, &alice, None, None, 1_000_000, 600_000, NotifiedMessageKind::Text, "x"),
        None
    );
    assert_eq!(message_notification(&None, &alice, None, None, 0, 0, NotifiedMessageKind::Text, "x"), None);
}

fn space_event(kind: SpaceEventKind, room: &str, key: &str, redacted: bool, has_via: bool) -> SpaceStateEvent {
    SpaceStateEvent {
        kind,
        room_id: room.to_string(),
        state_key: key.to_string(),
        state_key_is_room_id: true,
        redacted,
        has_via,
        order: Some("b".to_string()),
        suggested: true,
    }
}

#[test]
fn space_events_add_and_remove_edges() {
    let mut h = SpaceHierarchy::new();
    apply_space_state_event(&mut h, space_event(SpaceEventKind::Child, "!space", "!room", false, true));
    assert!(h.is_in_space("!room", "!space"));
    assert_eq!(
        h.fetch_space_hierarchy_data("!room".to_string(), false),
        (Some("!space".to_string()), Some("b".to_string()), true)
    );
    apply_space_state_event(&mut h, space_event(SpaceEventKind::Parent, "!room", "!space", false, true));
    assert_eq!(
        h.fetch_space_hierarchy_data("!room".to_string(), false),
        (Some("!space".to_string()), Some("b".to_string()), true)
    );
    apply_space_state_event(&mut h, space_event(SpaceEventKind::Child, "!space", "!room", true, true));
    assert!(!h.is_in_space("!room", "!space"));
    apply_space_state_event(&mut h, space_event(SpaceEventKind::Parent, "!other", "!space2", false, true));
    assert!(h.is_in_space("!other", "!space2"));
    assert_eq!(
        h.fetch_space_hierarchy_data("!other".to_string(), false),
        (Some("!space2".to_string()), None, false)
    );
    apply_space_state_event(&mut h, space_event(SpaceEventKind::Parent, "!other", "!space2", false, false));
    assert!(!h.is_in_space("!other", "!space2"));
    let mut bad = space_event(SpaceEventKind::Child, "!space", "not a room id", false, true);
    bad.state_key_is_room_id = false;
    apply_space_state_event(&mut h, bad);
    assert!(!h.is_in_space("not a room id", "!space"));
    assert_eq!(h.fetch_space_hierarchy_data("not a room id".to_string(), false), (None, None, false));
}

#[test]
fn unpinning_keeps_the_other_events_in_order() {
    let pinned = vec!["$a".to_string(), "$b".to_string(), "$c".to_string(), "$b".to_string()];
    let kept = constellations::constellations::rooms::pinned_without(&pinned, &"$b".to_string());
    assert_eq!(kept, vec!["$a".to_string(), "$c".to_string()]);
    let same = constellations::constellations::rooms::pinned_without(&pinned, &"$z".to_string());
    assert_eq!(same, pinned);
}

#[test]
fn call_members_join_and_leave() {
    let mut calls = CallParticipants::new();
    calls.apply_member_event("!r".to_string(), "@a:x".to_string(), true);
    calls.apply_member_event("!r".to_string(), "@b:x".to_string(), true);
    calls.apply_member_event("!r".to_string(), "@a:x".to_string(), true);
    calls.apply_member_event("!s".to_string(), "@c:x".to_string(), true);
    let mut in_r = calls.get_call_participants("!r");
    in_r.sort();
    assert_eq!(in_r, vec!["@a:x".to_string(), "@b:x".to_string()]);
    calls.apply_member_event("!r".to_string(), "@a:x".to_string(), false);
    assert_eq!(calls.get_call_participants("!r"), vec!["@b:x".to_string()]);
    calls.apply_member_event("!r".to_string(), "@z:x".to_string(), false);
    assert_eq!(calls.get_call_participants("!r"), vec!["@b:x".to_string()]);
    assert!(calls.get_call_participants("!none").is_empty());
    assert_eq!(calls.get_call_participants("!s"), vec!["@c:x".to_string()]);
}

#[test]
fn emoji_pickers_open_on_the_smileys() {
    let mut app = Constellations::mock();
    let _ = app.handle_update(Message::SelectEmojiGroup(Some(EmojiGroup::Flags)));
    assert_eq!(app.composer.selected_emoji_group, Some(EmojiGroup::Flags));
    let _ = app.handle_toggle_composer_emoji_picker();
    assert!(app.composer.is_composer_emoji_picker_active);
    assert_eq!(app.composer.selected_emoji_group, Some(EmojiGroup::SmileysAndEmotion));
    let _ = app.handle_update(Message::SelectEmojiGroup(None));
    let _ = app.handle_toggle_composer_emoji_picker();
    assert!(!app.composer.is_composer_emoji_picker_active);
    assert_eq!(app.composer.selected_emoji_group, None);
    let _ = app.handle_open_reaction_picker(Some("$e".to_string()));
    assert_eq!(app.composer.selected_emoji_group, Some(EmojiGroup::SmileysAndEmotion));
}

#[test]
fn images_open_full_screen_and_close() {
    let mut app = Constellations::mock();
    assert!(app.handle_update(Message::OpenImage("mxc://x/y".to_string())).is_empty());
    assert_eq!(app.panels.fullscreen_image.as_deref(), Some("mxc://x/y"));
    assert!(app.handle_update(Message::CloseImage).is_empty());
    assert_eq!(app.panels.fullscreen_image, None);
}

#[test]
fn oidc_start_errors_are_classified() {
    let marker = "__constellations_oidc_not_supported__";
    assert_eq!(
        classify_oidc_start_error(OidcStartError::Discovery { not_supported: true, text: "x".to_string() }),
        marker
    );
    assert_eq!(
        classify_oidc_start_error(OidcStartError::Discovery { not_supported: false, text: "timeout".to_string() }),
        "timeout"
    );
    assert_eq!(
        classify_oidc_start_error(OidcStartError::ClientRegistration {
            text: "registration is not supported".to_string()
        }),
        marker
    );
    assert_eq!(
        classify_oidc_start_error(OidcStartError::ClientRegistration { text: "bad metadata".to_string() }),
        "bad metadata"
    );
    assert_eq!(classify_oidc_start_error(OidcStartError::Other { text: "not supported".to_string() }), "not supported");
}

#[test]
fn restricted_rooms_list_their_spaces() {
    let rules = vec![
        AllowRule::RoomMembership("!s1".to_string()),
        AllowRule::Other,
        AllowRule::RoomMembership("!s2".to_string()),
    ];
    assert_eq!(extract_allowed_spaces_from_join_rule(&JoinRule::Restricted(rules)), vec!["!s1", "!s2"]);
    let knock = vec![AllowRule::RoomMembership("!s3".to_string())];
    assert_eq!(extract_allowed_spaces_from_join_rule(&JoinRule::KnockRestricted(knock)), vec!["!s3"]);
    assert!(extract_allowed_spaces_from_join_rule(&JoinRule::Other).is_empty());
}

#[test]
fn direct_chats_show_the_other_members_avatar() {
    let me = "@me:x".to_string();
    let member = |id: &str, avatar: Option<&str>| RoomMemberInfo {
        user_id: id.to_string(),
        display_name: None,
        avatar_url: avatar.map(|a| a.to_string()),
    };
    let members = vec![member("@me:x", Some("mxc://me")), member("@you:x", Some("mxc://you"))];
    assert_eq!(dm_room_avatar(Some("mxc://room".to_string()), &me, &members), Some("mxc://you".to_string()));
    let bare = vec![member("@me:x", None), member("@you:x", None)];
    assert_eq!(dm_room_avatar(Some("mxc://room".to_string()), &me, &bare), Some("mxc://room".to_string()));
    assert_eq!(dm_room_avatar(None, &me, &vec![member("@me:x", Some("mxc://me"))]), None);
}

#[test]
fn room_entries_fall_back_to_the_member_name() {
    let facts = RoomFacts {
        id: "!r".to_string(),
        name: None,
        cached_display_name: Some("Alice".to_string()),
        last_message: Some("hi".to_string()),
        unread_count: 3,
        avatar_url: None,
        is_space: false,
        placement: (Some("!space".to_string()), Some("a".to_string()), true),
        allowed_spaces: vec!["!space".to_string()],
    };
    let r = room_data(facts);
    assert_eq!(r.name.as_deref(), Some("Alice"));
    assert_eq!(r.unread_count_str.as_deref(), Some("(3)"));
    assert_eq!(r.parent_space_id.as_deref(), Some("!space"));
    assert_eq!(r.order.as_deref(), Some("a"));
    assert!(r.suggested);
    let named = room_data(RoomFacts {
        id: "!q".to_string(),
        name: Some("Lounge".to_string()),
        cached_display_name: Some("Alice".to_string()),
        last_message: None,
        unread_count: 0,
        avatar_url: None,
        is_space: true,
        placement: (None, None, false),
        allowed_spaces: Vec::new(),
    });
    assert_eq!(named.name.as_deref(), Some("Lounge"));
    assert_eq!(named.unread_count_str, None);
}

#[test]
fn pinned_entries_name_the_sender_and_label_other_events() {
    let named = pinned_event_info(
        "$e".to_string(),
        "@a:x".to_string(),
        Some("Alice".to_string()),
        Some("mxc://a".to_string()),
        "2026-01-01 10:00:00".to_string(),
        PinnedBody::Message("hello".to_string()),
    );
    assert_eq!(named.sender_name, "Alice");
    assert_eq!(named.body, "hello");
    assert_eq!(named.event_id, "$e");
    assert_eq!(named.avatar_url.as_deref(), Some("mxc://a"));
    let bare = pinned_event_info("$f".to_string(), "@b:x".to_string(), None, None, "t".to_string(), PinnedBody::OtherMessage);
    assert_eq!(bare.sender_name, "@b:x");
    assert_eq!(bare.body, "Unsupported message event type");
    let state = pinned_event_info("$g".to_string(), "@b:x".to_string(), None, None, "t".to_string(), PinnedBody::State);
    assert_eq!(state.body, "Unsupported state event type");
}

#[test]
fn joined_rooms_follow_the_room_list() {
    let mut app = Constellations::mock();
    let _ = app.handle_update(Message::Matrix(MatrixEvent::RoomDiff(VectorDiff::PushBack { value: room("!a") })));
    let _ = app.handle_update(Message::Matrix(MatrixEvent::RoomDiff(VectorDiff::PushFront { value: room("!b") })));
    assert!(app.rooms.joined_room_ids.contains("!a"));
    assert!(app.rooms.joined_room_ids.contains("!b"));
    let _ = app.handle_update(Message::Matrix(MatrixEvent::RoomDiff(VectorDiff::Remove { index: 1 })));
    assert!(!app.rooms.joined_room_ids.contains("!a"));
    assert!(app.rooms.joined_room_ids.contains("!b"));
    let _ = app.handle_update(Message::Matrix(MatrixEvent::RoomDiff(VectorDiff::Reset { values: vec![room("!c")] })));
    assert!(app.rooms.joined_room_ids.contains("!b"));
    assert!(app.rooms.joined_room_ids.contains("!c"));
    assert_eq!(app.rooms.room_list.len(), 1);
}

#[test]
fn scroll_events_keep_place_and_load_older_messages() {
    let mut app = Constellations::mock();
    assert_eq!(app.scroll_response(false, true, false), ScrollResponse::Ignore);
    app.timeline.is_timeline_initialized = true;
    app.session.engine_ready = true;
    app.rooms.selected_room = Some("!r".to_string());
    app.timeline.needs_layout_scroll_restoration = true;
    app.timeline.is_timeline_at_bottom = true;
    assert_eq!(app.scroll_response(false, false, false), ScrollResponse::KeepAtBottom);
    assert!(!app.timeline.needs_layout_scroll_restoration);
    app.timeline.is_timeline_at_bottom = false;
    assert_eq!(app.scroll_response(false, true, false), ScrollResponse::RestoreOffset);
    assert!(app.settle_scroll(false, ScrollResponse::RestoreOffset, true, true).is_empty());
    assert!(!app.timeline.is_timeline_at_bottom);
    app.timeline.needs_scroll_adjustment = true;
    assert_eq!(app.scroll_response(false, true, true), ScrollResponse::Adjust);
    assert!(!app.timeline.needs_scroll_adjustment);
    assert_eq!(app.scroll_response(false, false, false), ScrollResponse::Track);
    let effects = app.settle_scroll(false, ScrollResponse::Track, false, true);
    assert!(matches!(
        effects.as_slice(),
        [Effect::LoadMore { room_id, thread_root: None, count: 20 }] if room_id == "!r"
    ));
    assert!(app.timeline.is_loading_more);
    assert!(app.settle_scroll(false, ScrollResponse::Track, true, false).is_empty());
    assert!(app.timeline.is_timeline_at_bottom);
}
