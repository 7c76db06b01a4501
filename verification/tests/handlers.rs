use constellations::constellations::{
    setup_scroll_test_app, AuthFlow, MenuAct, Constellations, Effect, Message, PermalinkTarget, QrLoginStep,
    SettingsPanel,
};
use constellations::matrix::diff::VectorDiff;
use constellations::matrix::{
    GlobalSearchScope, MatrixEvent, MessageSearchResult, PinnedEventInfo, QrLoginProgress, RoomMemberInfo,
    SyncError, SyncStatus, TimelineEntry,
};

fn create_dummy_constellations() -> Constellations {
    let mut app = Constellations::mock();
    app.session.login_homeserver = String::new();
    app.session.is_initializing = false;
    app
}

fn plain_item(event_id: Option<&str>) -> TimelineEntry {
    TimelineEntry {
        event_id: event_id.map(|s| s.to_string()),
        is_event: false,
        thread_root_id: None,
        sender_avatar_url: None,
        image_url: None,
        message_body: None,
    }
}

fn event_item(event_id: &str, body: &str) -> TimelineEntry {
    TimelineEntry {
        event_id: Some(event_id.to_string()),
        is_event: true,
        thread_root_id: None,
        sender_avatar_url: None,
        image_url: None,
        message_body: Some(body.to_string()),
    }
}

fn hit(room: &str, event: &str, body: &str) -> MessageSearchResult {
    MessageSearchResult {
        room_id: room.to_string(),
        room_name: None,
        event_id: event.to_string(),
        sender_id: "@alice:example.com".to_string(),
        body: body.to_string(),
        timestamp: "2026-06-08 13:00:00".to_string(),
        plain_text: Vec::new(),
        links: Vec::new(),
    }
}

fn media_fetched_error() {
    let mut app = create_dummy_constellations();
    assert_eq!(app.session.error, None);
    let _ = app.handle_media_fetched("mxc://example.com/media".to_string(), Err("network timeout".to_string()));
    assert_eq!(app.session.error.as_deref(), Some("Failed to fetch the media: network timeout"));
    assert!(app.media_cache.is_empty());
}

#[test]
fn handlers_test_handle_media_fetched_error() {
    media_fetched_error();
}

#[test]
fn tests_test_handle_media_fetched_error() {
    media_fetched_error();
}

fn toggle_members_panel() {
    let mut app = create_dummy_constellations();
    assert!(!app.panels.show_members_panel);
    assert!(app.panels.room_members.is_empty());

    let _ = app.handle_update(Message::ToggleMembersPanel);
    assert!(app.panels.show_members_panel);
    assert!(app.panels.is_loading_members);

    let member = RoomMemberInfo {
        user_id: "@user:matrix.org".to_string(),
        display_name: Some("User".to_string()),
        avatar_url: None,
    };
    let _ = app.handle_update(Message::MembersFetched(Ok(vec![member])));
    assert!(!app.panels.is_loading_members);
    assert_eq!(app.panels.room_members.len(), 1);
    assert_eq!(app.panels.room_members[0].user_id, "@user:matrix.org");

    let _ = app.handle_update(Message::ToggleMembersPanel);
    assert!(!app.panels.show_members_panel);
    assert!(app.panels.room_members.is_empty());
}

#[test]
fn handlers_test_toggle_members_panel() {
    toggle_members_panel();
}

#[test]
fn tests_test_toggle_members_panel() {
    toggle_members_panel();
}

fn toggle_pinned_panel() {
    let mut app = create_dummy_constellations();
    assert!(!app.panels.show_pinned_panel);
    assert!(app.panels.pinned_events.is_empty());

    let _ = app.handle_update(Message::TogglePinnedPanel);
    assert!(app.panels.show_pinned_panel);
    assert!(app.panels.is_loading_pinned);

    let info = PinnedEventInfo {
        event_id: "$123:example.com".to_string(),
        sender_id: "@user:matrix.org".to_string(),
        sender_name: "User".to_string(),
        avatar_url: None,
        timestamp: "2026-06-09 12:00:00".to_string(),
        body: "Pinned message content".to_string(),
    };
    let _ = app.handle_update(Message::PinnedEventsFetched(Ok(vec![info])));
    assert!(!app.panels.is_loading_pinned);
    assert_eq!(app.panels.pinned_events.len(), 1);
    assert!(app.panels.pinned_events.contains("$123:example.com"));
    assert_eq!(app.panels.pinned_events_details.len(), 1);

    let _ = app.handle_update(Message::TogglePinnedPanel);
    assert!(!app.panels.show_pinned_panel);
}

#[test]
fn handlers_test_toggle_pinned_panel() {
    toggle_pinned_panel();
}

#[test]
fn tests_test_toggle_pinned_panel() {
    toggle_pinned_panel();
}

fn engine_ready_err() {
    let mut app = create_dummy_constellations();
    app.session.is_initializing = true;
    assert_eq!(app.session.error, None);
    let _ = app.handle_engine_ready(Err(SyncError::Anyhow("Initial sync failed".to_string())));
    assert_eq!(
        app.session.error.as_deref(),
        Some("Failed to initialize the Matrix engine: Error: Initial sync failed")
    );
    assert!(!app.session.is_initializing);
}

#[test]
fn handlers_test_handle_engine_ready_err() {
    engine_ready_err();
}

#[test]
fn tests_test_handle_engine_ready_err() {
    engine_ready_err();
}

#[test]
fn test_handle_engine_ready_ok() {
    let mut app = create_dummy_constellations();
    app.session.is_initializing = true;
    assert!(!app.session.engine_ready);
    let effects = app.handle_engine_ready(Ok(()));
    assert!(app.session.engine_ready);
    assert!(app.session.is_initializing);
    assert_eq!(effects.len(), 1);
    assert!(matches!(effects[0], Effect::RestoreSession));
}

#[test]
fn test_handle_user_ready_none_user_id() {
    let mut app = create_dummy_constellations();
    app.session.is_initializing = true;
    app.session.user_id = Some("stale_user".to_string());
    let _ = app.handle_user_ready(None, Ok(()));
    assert_eq!(app.session.user_id, None);
    assert!(!app.session.is_initializing);
}

#[test]
fn test_handle_user_ready_success() {
    let mut app = create_dummy_constellations();
    app.session.is_initializing = true;
    let _ = app.handle_user_ready(Some("alice".to_string()), Ok(()));
    assert_eq!(app.session.user_id, Some("alice".to_string()));
    assert!(!app.session.is_initializing);
    assert_eq!(app.session.sync_status, SyncStatus::Disconnected);
}

#[test]
fn test_handle_user_ready_missing_sliding_sync() {
    let mut app = create_dummy_constellations();
    app.session.is_initializing = true;
    let _ = app.handle_user_ready(Some("alice".to_string()), Err(SyncError::MissingSlidingSyncSupport));
    assert_eq!(app.session.user_id, Some("alice".to_string()));
    assert!(!app.session.is_initializing);
    assert_eq!(app.session.sync_status, SyncStatus::MissingSlidingSyncSupport);
}

#[test]
fn test_handle_user_ready_generic_sync_error() {
    let mut app = create_dummy_constellations();
    app.session.is_initializing = true;
    let _ = app.handle_user_ready(Some("alice".to_string()), Err(SyncError::Generic("network timeout".to_string())));
    assert_eq!(app.session.user_id, Some("alice".to_string()));
    assert!(!app.session.is_initializing);
    assert_eq!(app.session.sync_status, SyncStatus::Error("network timeout".to_string()));
}

#[test]
fn test_handle_user_ready_replay_pending_link() {
    let mut app = create_dummy_constellations();
    app.session.is_initializing = true;
    app.links.pending_link = Some("https://matrix.to/#/!room:example.com".to_string());
    app.session.engine_ready = true;
    let effects = app.handle_user_ready(Some("alice".to_string()), Ok(()));
    assert!(app.links.pending_link.is_none());
    assert!(!app.session.is_initializing);
    let replayed = effects.iter().any(|e| {
        matches!(e, Effect::Dispatch(Message::OpenMatrixLink(link)) if link == "https://matrix.to/#/!room:example.com")
    });
    assert!(replayed);
}

fn login_finished_ok() {
    let mut app = create_dummy_constellations();
    app.session.auth_flow = AuthFlow::Password;
    app.session.auth_flow = AuthFlow::Oidc;
    let _ = app.handle_login_finished(Ok("test_user_id".to_string()));
    assert!(app.session.auth_flow != AuthFlow::Password);
    assert!(app.session.auth_flow != AuthFlow::Oidc);
    assert_eq!(app.session.user_id, Some("test_user_id".to_string()));
}

#[test]
fn handlers_test_handle_login_finished_ok() {
    login_finished_ok();
}

#[test]
fn tests_test_handle_login_finished_ok() {
    login_finished_ok();
}

fn login_finished_err_sliding_sync() {
    let mut app = create_dummy_constellations();
    app.session.auth_flow = AuthFlow::Password;
    app.session.auth_flow = AuthFlow::Oidc;
    let _ = app.handle_login_finished(Err(SyncError::MissingSlidingSyncSupport));
    assert!(app.session.auth_flow != AuthFlow::Password);
    assert!(app.session.auth_flow != AuthFlow::Oidc);
    assert_eq!(app.session.sync_status, SyncStatus::MissingSlidingSyncSupport);
}

#[test]
fn handlers_test_handle_login_finished_err_sliding_sync() {
    login_finished_err_sliding_sync();
}

#[test]
fn tests_test_handle_login_finished_err_sliding_sync() {
    login_finished_err_sliding_sync();
}

fn login_finished_err_generic() {
    let mut app = create_dummy_constellations();
    app.session.auth_flow = AuthFlow::Password;
    app.session.auth_flow = AuthFlow::Oidc;
    let _ = app.handle_login_finished(Err(SyncError::Generic("network error".to_string())));
    assert!(app.session.auth_flow != AuthFlow::Password);
    assert!(app.session.auth_flow != AuthFlow::Oidc);
    assert_eq!(app.session.error.as_deref(), Some("Failed to log in: network error"));
}

#[test]
fn handlers_test_handle_login_finished_err_generic() {
    login_finished_err_generic();
}

#[test]
fn tests_test_handle_login_finished_err_generic() {
    login_finished_err_generic();
}

fn fetch_media() {
    let mut app = create_dummy_constellations();
    app.session.engine_ready = true;
    let effects = app.handle_fetch_media("mxc://example.com/plain".to_string());
    assert!(app.media_cache.is_empty());
    assert!(matches!(&effects[..], [Effect::FetchMedia(u)] if u == "mxc://example.com/plain"));
    let effects = app.handle_fetch_media("mxc://example.com/encrypted".to_string());
    assert!(app.media_cache.is_empty());
    assert!(matches!(&effects[..], [Effect::FetchMedia(u)] if u == "mxc://example.com/encrypted"));
}

#[test]
fn handlers_test_handle_fetch_media() {
    fetch_media();
}

#[test]
fn tests_test_handle_fetch_media() {
    fetch_media();
}

fn load_more_already_loading() {
    let mut app = create_dummy_constellations();
    app.timeline.is_loading_more = true;
    app.rooms.selected_room = Some("!room:example.com".to_string());
    let effects = app.handle_load_more(false);
    assert!(effects.is_empty());
    assert!(app.timeline.is_loading_more);

    app.timeline.is_loading_more = false;
    let effects = app.handle_load_more(false);
    assert!(effects.is_empty());
    assert!(!app.timeline.is_loading_more);
}

#[test]
fn handlers_test_handle_load_more_already_loading() {
    load_more_already_loading();
}

#[test]
fn tests_test_handle_load_more_already_loading() {
    load_more_already_loading();
}

fn logout_no_matrix() {
    let mut app = create_dummy_constellations();
    let effects = app.handle_logout();
    assert!(effects.is_empty());
    assert!(!app.session.engine_ready);
    assert_eq!(app.session.sync_status, SyncStatus::Disconnected);
}

#[test]
fn handlers_test_handle_logout_no_matrix() {
    logout_no_matrix();
}

#[test]
fn tests_test_handle_logout_no_matrix() {
    logout_no_matrix();
}

fn logout_with_matrix() {
    let mut app = create_dummy_constellations();
    app.session.engine_ready = true;
    let effects = app.handle_logout();
    assert!(matches!(&effects[..], [Effect::Logout]));
}

#[test]
fn handlers_test_handle_logout_with_matrix() {
    logout_with_matrix();
}

#[test]
fn tests_test_handle_logout_with_matrix() {
    logout_with_matrix();
}

fn logout_finished() {
    let mut app = create_dummy_constellations();
    app.session.user_id = Some("test_user".to_string());
    app.session.sync_status = SyncStatus::Syncing;
    app.session.auth_flow = AuthFlow::Password;
    app.session.auth_flow = AuthFlow::Oidc;
    app.session.login_password = "password123".to_string();
    app.session.error = Some("some error".to_string());
    app.rooms.selected_space = Some("!space:example.com".to_string());
    app.session.is_sync_indicator_active = true;
    app.timeline.is_loading_more = true;
    app.rooms.joined_room_ids.insert("!room:example.com".to_string());

    let _ = app.handle_logout_finished();

    assert_eq!(app.session.user_id, None);
    assert!(!app.session.engine_ready);
    assert_eq!(app.session.sync_status, SyncStatus::Disconnected);
    assert!(app.rooms.room_list.is_empty());
    assert_eq!(app.rooms.selected_room, None);
    assert!(app.timeline.timeline_items.is_empty());
    assert!(app.session.auth_flow != AuthFlow::Password);
    assert!(app.session.auth_flow != AuthFlow::Oidc);
    assert!(app.session.login_password.is_empty());
    assert_eq!(app.session.error, None);
    assert_eq!(app.rooms.selected_space, None);
    assert!(!app.session.is_sync_indicator_active);
    assert!(!app.timeline.is_loading_more);
    assert!(app.rooms.joined_room_ids.is_empty());
}

#[test]
fn handlers_test_handle_logout_finished() {
    logout_finished();
}

#[test]
fn tests_test_handle_logout_finished() {
    logout_finished();
}

fn timeline_diff_clear() {
    let mut app = create_dummy_constellations();
    let _ = app.handle_timeline_diff(VectorDiff::Clear, false, None);
    assert_eq!(app.timeline.timeline_items.len(), 0);
}

#[test]
fn handlers_test_handle_timeline_diff_clear() {
    timeline_diff_clear();
}

#[test]
fn tests_test_handle_timeline_diff_clear() {
    timeline_diff_clear();
}

fn timeline_diff_thread_clear() {
    let mut app = create_dummy_constellations();
    app.timeline.active_thread_root = Some("$test_event_id".to_string());
    let _ = app.handle_timeline_diff(VectorDiff::Clear, true, Some("$test_event_id".to_string()));
    assert_eq!(app.timeline.threaded_timeline_items.len(), 0);
}

#[test]
fn handlers_test_handle_timeline_diff_thread_clear() {
    timeline_diff_thread_clear();
}

#[test]
fn tests_test_handle_timeline_diff_thread_clear() {
    timeline_diff_thread_clear();
}

fn timeline_diff_thread_wrong_root() {
    let mut app = create_dummy_constellations();
    app.timeline.active_thread_root = Some("$test_event_id1".to_string());
    app.timeline.threaded_timeline_items.push(plain_item(Some("$kept")));
    let _ = app.handle_timeline_diff(VectorDiff::Clear, true, Some("$test_event_id2".to_string()));
    assert_eq!(app.timeline.threaded_timeline_items.len(), 1);
}

#[test]
fn handlers_test_handle_timeline_diff_thread_wrong_root() {
    timeline_diff_thread_wrong_root();
}

#[test]
fn tests_test_handle_timeline_diff_thread_wrong_root() {
    timeline_diff_thread_wrong_root();
}

fn qr_login_progress_step_transitions() {
    let mut app = create_dummy_constellations();
    app.session.auth_flow = AuthFlow::Qr { step: QrLoginStep::Initiating };

    let _ = app.handle_qr_login_progress(QrLoginProgress::QrReady(vec![0x4d, 0x41, 0x54, 0x52, 0x49, 0x58]));
    assert_eq!(app.session.auth_flow, AuthFlow::Qr { step: QrLoginStep::ShowingQr });
    assert!(app.session.qr_code_bytes.is_some());
    assert!(!app.session.qr_code_bytes.as_ref().unwrap().is_empty());

    let _ = app.handle_qr_login_progress(QrLoginProgress::SyncingSecrets);
    assert_eq!(app.session.auth_flow, AuthFlow::Qr { step: QrLoginStep::SyncingSecrets });

    let _ = app.handle_qr_login_progress(QrLoginProgress::WaitingForToken { user_code: "AB12CD".to_string() });
    assert_eq!(app.session.auth_flow, AuthFlow::Qr { step: QrLoginStep::Authenticating });
    assert_eq!(app.session.qr_user_code.as_deref(), Some("AB12CD"));

    let _ = app.handle_qr_login_progress(QrLoginProgress::Finished(Err("boom".to_string())));
    assert_eq!(app.session.auth_flow, AuthFlow::Qr { step: QrLoginStep::Error });
    assert!(app.session.qr_code_bytes.is_none());
    assert!(app.session.qr_user_code.is_none());
    assert!(app.session.error.is_some());
}

#[test]
fn handlers_test_qr_login_progress_step_transitions() {
    qr_login_progress_step_transitions();
}

#[test]
fn tests_test_qr_login_progress_step_transitions() {
    qr_login_progress_step_transitions();
}

fn qr_check_code_input_filtering() {
    let mut app = create_dummy_constellations();
    let _ = app.handle_qr_check_code_changed("a1b2c3".to_string());
    assert_eq!(app.session.qr_check_code_input, "12");
    let _ = app.handle_qr_check_code_changed("7".to_string());
    assert_eq!(app.session.qr_check_code_input, "7");
    let _ = app.handle_qr_check_code_changed("abc".to_string());
    assert_eq!(app.session.qr_check_code_input, "");
}

#[test]
fn handlers_test_qr_check_code_input_filtering() {
    qr_check_code_input_filtering();
}

#[test]
fn tests_test_qr_check_code_input_filtering() {
    qr_check_code_input_filtering();
}

fn qr_login_cancel_clears_state() {
    let mut app = create_dummy_constellations();
    app.session.auth_flow = AuthFlow::Qr { step: QrLoginStep::ShowingQr };
    app.session.qr_code_bytes = Some(vec![1, 2, 3]);
    app.session.qr_user_code = Some("XY".to_string());
    app.session.qr_check_code_input = "42".to_string();
    let _ = app.handle_cancel_qr_login();
    assert_eq!(app.session.auth_flow, AuthFlow::Idle);
    assert!(app.session.qr_code_bytes.is_none());
    assert!(app.session.qr_user_code.is_none());
    assert!(app.session.qr_check_code_input.is_empty());
}

#[test]
fn handlers_test_qr_login_cancel_clears_state() {
    qr_login_cancel_clears_state();
}

#[test]
fn tests_test_qr_login_cancel_clears_state() {
    qr_login_cancel_clears_state();
}

fn populate(app: &mut Constellations, n: usize) {
    for i in 0..n {
        app.timeline.timeline_items.push(plain_item(Some(&format!("$msg{}", i))));
    }
}

#[test]
fn test_room_scroll_behavior() {
    let (mut app, room_id) = setup_scroll_test_app();

    let _ = app.handle_update(Message::RoomJoined(Ok(room_id.clone())));
    assert!(app.rooms.visited_room_ids.contains(&room_id));
    assert!(app.rooms.is_first_time_joining);

    let _ = app.handle_update(Message::Matrix(MatrixEvent::TimelineReset));
    assert!(app.timeline.needs_initial_scroll);
    assert!(app.timeline.is_timeline_at_bottom);

    populate(&mut app, 10);
    let _ = app.handle_update(Message::Matrix(MatrixEvent::TimelineInitFinished));
    assert!(app.timeline.is_timeline_initialized);
    let _ = app.handle_update(Message::LoadMoreFinished(Ok(())));
    assert!(!app.timeline.needs_initial_scroll);

    app.timeline.timeline_items.clear();
    app.rooms.is_first_time_joining = true;
    app.timeline.needs_initial_scroll = false;
    let _ = app.handle_update(Message::RoomSelected(room_id.clone()));
    assert!(!app.rooms.is_first_time_joining);
    assert!(app.timeline.needs_initial_scroll);

    populate(&mut app, 10);
    let _ = app.handle_update(Message::Matrix(MatrixEvent::TimelineInitFinished));
    assert!(app.timeline.is_timeline_initialized);
    let _ = app.handle_update(Message::LoadMoreFinished(Ok(())));
    assert!(!app.timeline.needs_initial_scroll);

    app.timeline.timeline_items.clear();
    app.timeline.needs_initial_scroll = true;
    app.timeline.is_loading_more = true;
    app.timeline.is_timeline_initialized = false;
    assert!(app.check_and_perform_initial_scroll().is_none());
    app.timeline.is_loading_more = false;
    assert!(app.check_and_perform_initial_scroll().is_none());
    app.timeline.is_timeline_initialized = true;
    populate(&mut app, 1);
    assert!(app.check_and_perform_initial_scroll().is_some());
    assert!(!app.timeline.needs_initial_scroll);

    app.timeline.is_timeline_initialized = false;
    let _ = app.handle_update(Message::Matrix(MatrixEvent::TimelineReset));
    assert!(app.timeline.needs_initial_scroll);
    assert!(app.timeline.is_timeline_at_bottom);
    assert!(!app.timeline.is_timeline_initialized);

    app.timeline.is_timeline_initialized = true;
    app.timeline.is_timeline_at_bottom = false;
    let _ = app.handle_update(Message::Matrix(MatrixEvent::TimelineReset));
    assert!(!app.timeline.needs_initial_scroll);
    assert!(app.timeline.needs_scroll_restoration);
    assert!(!app.timeline.is_timeline_at_bottom);
    assert!(!app.timeline.is_timeline_initialized);
    let _ = app.handle_update(Message::Matrix(MatrixEvent::TimelineInitFinished));
    assert!(app.timeline.is_timeline_initialized);
    assert!(!app.timeline.needs_scroll_restoration);
}

#[test]
fn test_room_scroll_behavior_just_joined() {
    let (mut app, room_id) = setup_scroll_test_app();
    let _ = app.handle_update(Message::RoomJoined(Ok(room_id.clone())));
    assert!(app.rooms.visited_room_ids.contains(&room_id));
    assert!(app.rooms.is_first_time_joining);

    let _ = app.handle_update(Message::Matrix(MatrixEvent::TimelineReset));
    assert!(app.timeline.needs_initial_scroll);
    assert!(app.timeline.is_timeline_at_bottom);

    populate(&mut app, 10);
    let _ = app.handle_update(Message::Matrix(MatrixEvent::TimelineInitFinished));
    assert!(app.timeline.is_timeline_initialized);

    let _ = app.handle_update(Message::LoadMoreFinished(Ok(())));
    assert!(!app.timeline.needs_initial_scroll);
}

#[test]
fn test_room_scroll_behavior_normal_selection() {
    let (mut app, room_id) = setup_scroll_test_app();
    app.timeline.timeline_items.clear();
    app.rooms.is_first_time_joining = true;
    app.timeline.needs_initial_scroll = false;

    let _ = app.handle_update(Message::RoomSelected(room_id.clone()));
    assert!(!app.rooms.is_first_time_joining);
    assert!(app.timeline.needs_initial_scroll);

    populate(&mut app, 10);
    let _ = app.handle_update(Message::Matrix(MatrixEvent::TimelineInitFinished));
    assert!(app.timeline.is_timeline_initialized);

    let _ = app.handle_update(Message::LoadMoreFinished(Ok(())));
    assert!(!app.timeline.needs_initial_scroll);
}

#[test]
fn test_room_scroll_behavior_check_initial_scroll() {
    let (mut app, room_id) = setup_scroll_test_app();
    app.rooms.selected_room = Some(room_id);
    app.timeline.timeline_items.clear();
    app.timeline.needs_initial_scroll = true;
    app.timeline.is_loading_more = true;
    app.timeline.is_timeline_initialized = false;
    assert!(app.check_and_perform_initial_scroll().is_none());

    app.timeline.is_loading_more = false;
    assert!(app.check_and_perform_initial_scroll().is_none());

    app.timeline.is_timeline_initialized = true;
    populate(&mut app, 1);
    assert!(app.check_and_perform_initial_scroll().is_some());
    assert!(!app.timeline.needs_initial_scroll);
}

#[test]
fn test_room_scroll_behavior_timeline_reset_initial() {
    let (mut app, _) = setup_scroll_test_app();
    app.timeline.is_timeline_initialized = false;
    let _ = app.handle_update(Message::Matrix(MatrixEvent::TimelineReset));
    assert!(app.timeline.needs_initial_scroll);
    assert!(app.timeline.is_timeline_at_bottom);
    assert!(!app.timeline.is_timeline_initialized);
}

#[test]
fn test_room_scroll_behavior_timeline_reset_background() {
    let (mut app, _) = setup_scroll_test_app();
    app.timeline.is_timeline_initialized = true;
    app.timeline.is_timeline_at_bottom = false;
    let _ = app.handle_update(Message::Matrix(MatrixEvent::TimelineReset));
    assert!(!app.timeline.needs_initial_scroll);
    assert!(app.timeline.needs_scroll_restoration);
    assert!(!app.timeline.is_timeline_at_bottom);
    assert!(!app.timeline.is_timeline_initialized);

    let _ = app.handle_update(Message::Matrix(MatrixEvent::TimelineInitFinished));
    assert!(app.timeline.is_timeline_initialized);
    assert!(!app.timeline.needs_scroll_restoration);
}

fn recompute_thread_counts_skips_virtual_items() {
    let mut app = create_dummy_constellations();
    let mut a = plain_item(None);
    a.thread_root_id = Some("$root_a:example.com".to_string());
    let mut b = plain_item(None);
    b.thread_root_id = Some("$root_b:example.com".to_string());
    let c = plain_item(None);
    app.timeline.timeline_items.push(a);
    app.timeline.timeline_items.push(b);
    app.timeline.timeline_items.push(c);
    app.recompute_thread_counts();
    assert!(app.timeline.thread_counts.is_empty());
}

#[test]
fn handlers_test_recompute_thread_counts_skips_none_inner_no_panic() {
    recompute_thread_counts_skips_virtual_items();
}

#[test]
fn tests_test_recompute_thread_counts_skips_none_inner_no_panic() {
    recompute_thread_counts_skips_virtual_items();
}

#[test]
fn thread_counts_count_replies_per_root() {
    let mut app = create_dummy_constellations();
    for (id, root) in [("$1", Some("$r")), ("$2", Some("$r")), ("$3", Some("$s")), ("$4", None)] {
        let mut e = event_item(id, "x");
        e.thread_root_id = root.map(|r| r.to_string());
        app.timeline.timeline_items.push(e);
    }
    app.recompute_thread_counts();
    assert_eq!(app.timeline.thread_counts.len(), 2);
    assert_eq!(app.timeline.thread_counts.get("$r"), Some(&2));
    assert_eq!(app.timeline.thread_counts.get("$s"), Some(&1));
}

fn room_selected_clears_event_focus() {
    let mut app = create_dummy_constellations();
    app.links.pending_event_focus = Some("$target:example.com".to_string());
    app.links.active_event_focus = Some("$target:example.com".to_string());
    app.rooms.selected_room = Some("!old:example.com".to_string());
    let _ = app.handle_update(Message::RoomSelected("!new:example.com".to_string()));
    assert!(app.links.pending_event_focus.is_none());
    assert!(app.links.active_event_focus.is_none());
    assert_eq!(app.rooms.selected_room.as_deref(), Some("!new:example.com"));
}

#[test]
fn handlers_test_room_selected_clears_event_focus() {
    room_selected_clears_event_focus();
}

#[test]
fn tests_test_room_selected_clears_event_focus() {
    room_selected_clears_event_focus();
}

fn pending_event_focus_loaded_event_jumps() {
    let mut app = create_dummy_constellations();
    app.timeline.timeline_items.push(plain_item(Some("$loaded:example.com")));
    app.links.pending_event_focus = Some("$loaded:example.com".to_string());
    let effects = app.check_pending_event_focus();
    assert!(app.links.pending_event_focus.is_none());
    assert!(app.links.active_event_focus.is_none());
    assert!(matches!(&effects[..], [Effect::Dispatch(Message::JumpToMessage(e))] if e == "$loaded:example.com"));
}

#[test]
fn handlers_test_pending_event_focus_loaded_event_jumps() {
    pending_event_focus_loaded_event_jumps();
}

#[test]
fn tests_test_pending_event_focus_loaded_event_jumps() {
    pending_event_focus_loaded_event_jumps();
}

fn pending_event_focus_missing_event_defers_to_load() {
    let mut app = create_dummy_constellations();
    app.links.pending_event_focus = Some("$missing:example.com".to_string());
    let effects = app.check_pending_event_focus();
    assert!(app.links.pending_event_focus.is_none());
    assert!(app.links.active_event_focus.is_none());
    assert!(matches!(&effects[..], [Effect::Dispatch(Message::LoadEventContext(e))] if e == "$missing:example.com"));
}

#[test]
fn handlers_test_pending_event_focus_missing_event_defers_to_load() {
    pending_event_focus_missing_event_defers_to_load();
}

#[test]
fn tests_test_pending_event_focus_missing_event_defers_to_load() {
    pending_event_focus_missing_event_defers_to_load();
}

fn return_to_live_clears_active_focus() {
    let mut app = create_dummy_constellations();
    app.links.active_event_focus = Some("$focused:example.com".to_string());
    app.timeline.is_timeline_initialized = true;
    app.timeline.is_timeline_at_bottom = false;
    app.timeline.needs_initial_scroll = false;
    let _ = app.handle_update(Message::ReturnToLive);
    assert!(app.links.active_event_focus.is_none());
    assert!(!app.timeline.is_timeline_initialized);
    assert!(app.timeline.needs_initial_scroll);
    assert!(app.timeline.is_timeline_at_bottom);
}

#[test]
fn handlers_test_return_to_live_clears_active_focus() {
    return_to_live_clears_active_focus();
}

#[test]
fn tests_test_return_to_live_clears_active_focus() {
    return_to_live_clears_active_focus();
}

fn toggle_open_link_signed_out_surfaces_error() {
    let mut app = create_dummy_constellations();
    assert!(app.links.open_link_dialog.is_none());
    let _ = app.handle_update(Message::ToggleOpenLink);
    assert!(app.links.open_link_dialog.is_none());
    assert!(app.session.error.as_deref().unwrap_or("").contains("Sign in"));
}

#[test]
fn handlers_test_toggle_open_link_signed_out_surfaces_error() {
    toggle_open_link_signed_out_surfaces_error();
}

#[test]
fn tests_test_toggle_open_link_signed_out_surfaces_error() {
    toggle_open_link_signed_out_surfaces_error();
}

fn open_link_text_changed_updates_and_guards() {
    let mut app = create_dummy_constellations();
    app.links.open_link_dialog = None;
    let _ = app.handle_update(Message::OpenLinkTextChanged("ignored".to_string()));
    assert!(app.links.open_link_dialog.is_none());
    app.links.open_link_dialog = Some(String::new());
    let _ = app.handle_update(Message::OpenLinkTextChanged("https://matrix.to/#/!abc:example.org".to_string()));
    assert_eq!(app.links.open_link_dialog.as_deref(), Some("https://matrix.to/#/!abc:example.org"));
}

#[test]
fn handlers_test_open_link_text_changed_updates_and_guards() {
    open_link_text_changed_updates_and_guards();
}

#[test]
fn tests_test_open_link_text_changed_updates_and_guards() {
    open_link_text_changed_updates_and_guards();
}

fn submit_open_link_closes_dialog() {
    let mut app = create_dummy_constellations();
    app.links.open_link_dialog = Some("https://matrix.to/#/!abc:example.org".to_string());
    let _ = app.handle_update(Message::SubmitOpenLink("https://matrix.to/#/!abc:example.org".to_string()));
    assert!(app.links.open_link_dialog.is_none());
}

#[test]
fn handlers_test_submit_open_link_closes_dialog() {
    submit_open_link_closes_dialog();
}

#[test]
fn tests_test_submit_open_link_closes_dialog() {
    submit_open_link_closes_dialog();
}

fn submit_open_link_empty_closes_silently() {
    let mut app = create_dummy_constellations();
    app.links.open_link_dialog = Some(String::new());
    app.session.error = None;
    let _ = app.handle_update(Message::SubmitOpenLink("   ".to_string()));
    assert!(app.links.open_link_dialog.is_none());
    assert!(app.session.error.is_none());
}

#[test]
fn handlers_test_submit_open_link_empty_closes_silently() {
    submit_open_link_empty_closes_silently();
}

#[test]
fn tests_test_submit_open_link_empty_closes_silently() {
    submit_open_link_empty_closes_silently();
}

fn copy_to_clipboard_success() {
    let mut app = create_dummy_constellations();
    let effects = app.handle_update(Message::CopyToClipboard(Ok("https://matrix.to/#/!room:example.com".to_string())));
    assert!(app.session.error.is_none());
    assert!(matches!(&effects[..], [Effect::WriteClipboard(t)] if t == "https://matrix.to/#/!room:example.com"));
}

#[test]
fn handlers_test_copy_to_clipboard_success() {
    copy_to_clipboard_success();
}

#[test]
fn tests_test_copy_to_clipboard_success() {
    copy_to_clipboard_success();
}

fn copy_to_clipboard_error() {
    let mut app = create_dummy_constellations();
    let _ = app.handle_update(Message::CopyToClipboard(Err("Failed to build link".to_string())));
    assert_eq!(app.session.error.as_deref(), Some("Failed to build link"));
}

#[test]
fn handlers_test_copy_to_clipboard_error() {
    copy_to_clipboard_error();
}

#[test]
fn tests_test_copy_to_clipboard_error() {
    copy_to_clipboard_error();
}

fn copy_room_link_no_matrix() {
    let mut app = create_dummy_constellations();
    let effects = app.handle_update(Message::CopyRoomLink("!room:example.com".to_string()));
    assert!(app.session.error.is_none());
    assert!(effects.is_empty());
}

#[test]
fn handlers_test_copy_room_link_no_matrix() {
    copy_room_link_no_matrix();
}

#[test]
fn tests_test_copy_room_link_no_matrix() {
    copy_room_link_no_matrix();
}

fn copy_message_link_no_matrix() {
    let mut app = create_dummy_constellations();
    let effects = app.handle_update(Message::CopyMessageLink("$event:localhost".to_string()));
    assert!(app.session.error.is_none());
    assert!(effects.is_empty());
}

#[test]
fn handlers_test_copy_message_link_no_matrix() {
    copy_message_link_no_matrix();
}

#[test]
fn tests_test_copy_message_link_no_matrix() {
    copy_message_link_no_matrix();
}

fn dm_room_resolved_success() {
    let mut app = create_dummy_constellations();
    let _ = app.handle_update(Message::DmRoomResolved(Ok("!room:example.com".to_string())));
    assert_eq!(app.rooms.selected_room.as_deref(), Some("!room:example.com"));
    assert!(app.session.error.is_none());
}

#[test]
fn handlers_test_dm_room_resolved_success() {
    dm_room_resolved_success();
}

#[test]
fn tests_test_dm_room_resolved_success() {
    dm_room_resolved_success();
}

fn dm_room_resolved_error() {
    let mut app = create_dummy_constellations();
    let _ = app.handle_update(Message::DmRoomResolved(Err("Failed to join DM".to_string())));
    let err = app.session.error.expect("Expected error to be set");
    assert!(err.contains("Failed to start direct message"));
    assert!(err.contains("Failed to join DM"));
}

#[test]
fn handlers_test_dm_room_resolved_error() {
    dm_room_resolved_error();
}

#[test]
fn tests_test_dm_room_resolved_error() {
    dm_room_resolved_error();
}

#[test]
fn test_message_search_pagination() {
    let mut app = create_dummy_constellations();
    assert!(!app.search.search_has_more);
    assert!(!app.search.is_searching_more_messages);
    assert!(app.search.message_search_results.is_empty());

    let generation = app.search.search_generation;
    let _ = app.handle_update(Message::MessageSearchResults(
        generation,
        Ok((vec![hit("!room:example.com", "$1:example.com", "hello world")], true)),
    ));
    assert!(app.search.search_has_more);
    assert_eq!(app.search.message_search_results.len(), 1);

    let _ = app.handle_update(Message::LoadMoreMessageSearch);
    app.search.is_searching_more_messages = true;

    let _ = app.handle_update(Message::MessageSearchMoreResults(Ok((
        vec![hit("!room:example.com", "$2:example.com", "hello back")],
        false,
    ))));
    assert!(!app.search.is_searching_more_messages);
    assert!(!app.search.search_has_more);
    assert_eq!(app.search.message_search_results.len(), 2);
    assert_eq!(app.search.message_search_results[0].body, "hello world");
    assert_eq!(app.search.message_search_results[1].body, "hello back");

    let _ = app.handle_update(Message::SearchQueryChanged("new query".to_string()));
    assert!(!app.search.search_has_more);
    assert!(!app.search.is_searching_more_messages);
}

#[test]
fn test_open_room_event_sets_pending_focus_after_select() {
    let mut app = create_dummy_constellations();
    app.rooms.selected_room = Some("!old:example.com".to_string());
    let effects = app.handle_update(Message::OpenRoomEvent {
        room_id: "!new:example.com".to_string(),
        event_id: "$hit:example.com".to_string(),
    });
    assert_eq!(effects.len(), 2);
    let _ = app.handle_update(Message::RoomSelected("!new:example.com".to_string()));
    let _ = app.handle_update(Message::SetPendingEventFocus("$hit:example.com".to_string()));
    assert_eq!(app.rooms.selected_room.as_deref(), Some("!new:example.com"));
    assert_eq!(app.links.pending_event_focus.as_deref(), Some("$hit:example.com"));
}

#[test]
fn test_open_room_event_same_room_does_not_switch() {
    let mut app = create_dummy_constellations();
    app.rooms.selected_room = Some("!here:example.com".to_string());
    let effects = app.handle_update(Message::OpenRoomEvent {
        room_id: "!here:example.com".to_string(),
        event_id: "$hit:example.com".to_string(),
    });
    assert_eq!(app.rooms.selected_room.as_deref(), Some("!here:example.com"));
    assert!(app.links.pending_event_focus.is_none());
    assert!(matches!(
        &effects[..],
        [Effect::Dispatch(Message::JumpToMessageOrLoadContext(e))] if e == "$hit:example.com"
    ));
}

#[test]
fn test_global_message_search_results_generation_guard() {
    let mut app = create_dummy_constellations();
    app.search.search_generation = 5;
    let _ = app.handle_update(Message::GlobalMessageSearchResults(4, Ok(vec![hit("!room:example.com", "$e:example.com", "hi")])));
    assert!(app.search.global_message_search_results.is_empty());
    assert!(!app.search.is_searching_global_messages);
    let _ = app.handle_update(Message::GlobalMessageSearchResults(5, Ok(vec![hit("!room:example.com", "$e:example.com", "hi")])));
    assert_eq!(app.search.global_message_search_results.len(), 1);
    assert!(!app.search.is_searching_global_messages);
}

#[test]
fn test_set_global_search_scope_updates_and_clears() {
    let mut app = create_dummy_constellations();
    app.search.global_search_scope = GlobalSearchScope::All;
    app.search.global_message_search_results.push(hit("!r:example.com", "$e:example.com", "hi"));
    let _ = app.handle_update(Message::SetGlobalSearchScope(GlobalSearchScope::DmsOnly));
    assert_eq!(app.search.global_search_scope, GlobalSearchScope::DmsOnly);
    assert!(app.search.global_message_search_results.is_empty());
}

#[test]
fn stale_in_room_search_results_are_dropped_after_query_change() {
    let mut app = create_dummy_constellations();
    app.session.engine_ready = true;
    app.rooms.selected_room = Some("!room:example.com".to_string());
    let before = app.search.search_generation;
    let effects = app.handle_update(Message::SearchQueryChanged("  hello ".to_string()));
    assert_eq!(app.search.search_generation, before.wrapping_add(1));
    assert!(app.search.is_searching_messages);
    assert!(matches!(&effects[1], Effect::SearchPublicRooms { query, generation } if query == "hello" && *generation == before + 1));
    assert!(matches!(
        &effects[2],
        Effect::SearchMessagesInRoom { room_id, query, generation }
            if room_id == "!room:example.com" && query == "hello" && *generation == before + 1
    ));
    let _ = app.handle_update(Message::MessageSearchResults(before, Ok((vec![hit("!room:example.com", "$x", "old")], false))));
    assert!(app.search.message_search_results.is_empty());
    assert!(app.search.is_searching_messages);
}

#[test]
fn search_generation_wraps_around() {
    let mut app = create_dummy_constellations();
    app.search.search_generation = u64::MAX;
    let _ = app.handle_update(Message::SearchQueryChanged(String::new()));
    assert_eq!(app.search.search_generation, 0);
}

#[test]
fn global_search_runs_without_selected_room() {
    let mut app = create_dummy_constellations();
    app.session.engine_ready = true;
    app.search.global_search_scope = GlobalSearchScope::GroupsOnly;
    let effects = app.handle_update(Message::SearchQueryChanged("cats".to_string()));
    assert!(app.search.is_searching_global_messages);
    assert!(matches!(
        &effects[2],
        Effect::SearchMessagesGlobal { query, scope: GlobalSearchScope::GroupsOnly, .. } if query == "cats"
    ));
}

#[test]
fn qr_login_homeserver_is_normalised() {
    let mut app = create_dummy_constellations();
    app.session.engine_ready = true;
    app.session.login_homeserver = "  example.org ".to_string();
    let effects = app.handle_start_qr_login();
    assert!(matches!(&effects[..], [Effect::StartQrLogin { homeserver }] if homeserver == "https://example.org"));
    app.session.login_homeserver = "   ".to_string();
    let effects = app.handle_start_qr_login();
    assert!(matches!(&effects[..], [Effect::StartQrLogin { homeserver }] if homeserver == "https://matrix.org"));
    app.session.login_homeserver = "http://localhost:8008".to_string();
    let effects = app.handle_start_qr_login();
    assert!(matches!(&effects[..], [Effect::StartQrLogin { homeserver }] if homeserver == "http://localhost:8008"));
    assert_eq!(app.session.auth_flow, AuthFlow::Qr { step: QrLoginStep::Initiating });
}

#[test]
fn qr_check_code_submission() {
    let mut app = create_dummy_constellations();
    let effects = app.handle_submit_qr_check_code();
    assert!(effects.is_empty());

    let _ = app.handle_qr_login_progress(QrLoginProgress::QrScanned);
    assert_eq!(app.session.auth_flow, AuthFlow::Qr { step: QrLoginStep::AwaitingCheckCode });
    let _ = app.handle_qr_check_code_changed("42".to_string());
    let effects = app.handle_submit_qr_check_code();
    assert!(matches!(&effects[..], [Effect::SendQrCheckCode(42)]));
    assert_eq!(app.session.auth_flow, AuthFlow::Qr { step: QrLoginStep::Authenticating });
    assert!(app.session.qr_check_code_input.is_empty());

    let _ = app.handle_qr_login_progress(QrLoginProgress::QrScanned);
    let effects = app.handle_submit_qr_check_code();
    assert!(effects.is_empty());
    assert_eq!(app.session.auth_flow, AuthFlow::Qr { step: QrLoginStep::ShowingQr });
    assert!(app.session.error.is_some());
}

#[test]
fn qr_login_success_signs_in() {
    let mut app = create_dummy_constellations();
    let _ = app.handle_qr_login_progress(QrLoginProgress::Finished(Ok("@bob:example.org".to_string())));
    assert_eq!(app.session.auth_flow, AuthFlow::Idle);
    assert_eq!(app.session.user_id.as_deref(), Some("@bob:example.org"));
}

#[test]
fn oidc_not_supported_has_its_own_message() {
    let mut app = create_dummy_constellations();
    app.session.auth_flow = AuthFlow::Oidc;
    let _ = app.handle_oidc_login_started(Err("__constellations_oidc_not_supported__".to_string()));
    assert_eq!(app.session.auth_flow, AuthFlow::Idle);
    assert!(app.session.error.as_deref().unwrap().contains("does not support OAuth"));
    let _ = app.handle_oidc_login_started(Err("boom".to_string()));
    assert_eq!(app.session.error.as_deref(), Some("Failed to start the OAuth sign-in: boom"));
}

#[test]
fn password_login_takes_the_password() {
    let mut app = create_dummy_constellations();
    app.session.engine_ready = true;
    app.session.login_homeserver = "https://hs".to_string();
    app.session.login_username = "me".to_string();
    app.session.login_password = "secret".to_string();
    let effects = app.handle_update(Message::SubmitLogin);
    assert!(app.session.login_password.is_empty());
    assert_eq!(app.session.auth_flow, AuthFlow::Password);
    assert!(matches!(
        &effects[..],
        [Effect::Login { homeserver, username, password }]
            if homeserver == "https://hs" && username == "me" && password == "secret"
    ));
}

#[test]
fn room_diff_tracks_joined_rooms_and_names() {
    let (mut app, _) = setup_scroll_test_app();
    let room = |id: &str, name: Option<&str>| constellations::matrix::RoomData {
        id: id.to_string(),
        name: name.map(|n| n.to_string()),
        last_message: None,
        unread_count: 0,
        unread_count_str: None,
        avatar_url: None,
        is_space: false,
        parent_space_id: None,
        allowed_spaces: Vec::new(),
        order: None,
        suggested: false,
    };
    let _ = app.handle_update(Message::Matrix(MatrixEvent::RoomDiff(VectorDiff::PushBack { value: room("!b", Some("B")) })));
    assert!(app.rooms.joined_room_ids.contains("!b"));
    assert_eq!(app.rooms.room_list.len(), 2);
    assert_eq!(app.rooms.room_name_cache.get("!b").map(|s| s.as_str()), Some("B"));
    let _ = app.handle_update(Message::Matrix(MatrixEvent::RoomDiff(VectorDiff::Remove { index: 1 })));
    assert!(!app.rooms.joined_room_ids.contains("!b"));
    let _ = app.handle_update(Message::Matrix(MatrixEvent::RoomDiff(VectorDiff::Append {
        values: vec![room("!c", None), room("!d", Some("D"))],
    })));
    assert!(app.rooms.joined_room_ids.contains("!c"));
    assert!(app.rooms.joined_room_ids.contains("!d"));
    let _ = app.handle_update(Message::Matrix(MatrixEvent::RoomDiff(VectorDiff::Truncate { length: 1 })));
    assert!(!app.rooms.joined_room_ids.contains("!c"));
    assert!(!app.rooms.joined_room_ids.contains("!d"));
    let _ = app.handle_update(Message::Matrix(MatrixEvent::RoomDiff(VectorDiff::Clear)));
    assert!(app.rooms.joined_room_ids.is_empty());
}

#[test]
fn space_children_are_filtered_and_sorted() {
    let mut app = create_dummy_constellations();
    app.rooms.selected_space = Some("!space".to_string());
    app.rooms.joined_room_ids.insert("!joined".to_string());
    let room = |id: &str, order: Option<&str>, is_space: bool| constellations::matrix::RoomData {
        id: id.to_string(),
        name: None,
        last_message: None,
        unread_count: 0,
        unread_count_str: None,
        avatar_url: None,
        is_space,
        parent_space_id: None,
        allowed_spaces: Vec::new(),
        order: order.map(|o| o.to_string()),
        suggested: false,
    };
    let children = vec![
        room("!z", None, false),
        room("!joined", Some("a"), false),
        room("!b", Some("b"), false),
        room("!a", None, false),
        room("!sub", Some("a"), true),
        room("!c", Some("a"), false),
    ];
    let effects = app.handle_update(Message::SpaceChildrenFetched("!space".to_string(), Ok(children)));
    let ids: Vec<&str> = app.rooms.other_rooms.iter().map(|r| r.id.as_str()).collect();
    assert_eq!(ids, vec!["!c", "!b", "!a", "!z"]);
    assert!(matches!(effects[0], Effect::UpdateFilteredRooms));

    let before: Vec<String> = app.rooms.other_rooms.iter().map(|r| r.id.clone()).collect();
    let _ = app.handle_update(Message::SpaceChildrenFetched("!other".to_string(), Ok(Vec::new())));
    let after: Vec<String> = app.rooms.other_rooms.iter().map(|r| r.id.clone()).collect();
    assert_eq!(before, after);
}

#[test]
fn send_message_chooses_reply_thread_or_plain() {
    let mut app = create_dummy_constellations();
    app.session.engine_ready = true;
    app.rooms.selected_room = Some("!room".to_string());
    app.composer.composer_text = "hi".to_string();
    let effects = app.handle_update(Message::SendMessage);
    assert!(matches!(&effects[..], [Effect::SendMessage { room_id, body, html: None }] if room_id == "!room" && body == "hi"));

    app.prefs.render_markdown = true;
    app.timeline.active_thread_root = Some("$root".to_string());
    let effects = app.handle_update(Message::SendMessage);
    assert!(matches!(
        &effects[..],
        [Effect::SendThreaded { root, body, html: Some(h), .. }] if root == "$root" && body == "hi" && h.contains("hi")
    ));
    assert!(app.timeline.is_threaded_timeline_at_bottom);

    app.composer.replying_to = Some(event_item("$orig", "orig"));
    app.composer.composer_attachments = vec!["/tmp/a.png".to_string()];
    let effects = app.handle_update(Message::SendMessage);
    assert_eq!(effects.len(), 2);
    assert!(matches!(&effects[0], Effect::SendReply { reply_to, .. } if reply_to.event_id.as_deref() == Some("$orig")));
    assert!(matches!(&effects[1], Effect::SendAttachment { path, .. } if path == "/tmp/a.png"));
    assert!(app.composer.composer_attachments.is_empty());
}

#[test]
fn editing_sends_an_edit_and_clears_on_success() {
    let mut app = create_dummy_constellations();
    app.session.engine_ready = true;
    app.rooms.selected_room = Some("!room".to_string());
    app.timeline.timeline_items.push(event_item("$e1", "first draft"));
    let _ = app.handle_update(Message::StartEdit("$e1".to_string()));
    assert_eq!(app.composer.composer_text, "first draft");
    assert!(app.composer.editing_item.is_some());
    let effects = app.handle_update(Message::SendMessage);
    assert!(matches!(&effects[..], [Effect::EditMessage { body, .. }] if body == "first draft"));
    let _ = app.handle_update(Message::MessageEdited(Ok(())));
    assert!(app.composer.editing_item.is_none());
    assert!(app.composer.composer_text.is_empty());
}

#[test]
fn attachments_are_listed_once() {
    let mut app = create_dummy_constellations();
    let _ = app.handle_update(Message::AttachmentsSelected(vec!["a".to_string(), "b".to_string(), "a".to_string()]));
    let _ = app.handle_update(Message::AttachmentsSelected(vec!["b".to_string(), "c".to_string()]));
    assert_eq!(app.composer.composer_attachments, vec!["a".to_string(), "b".to_string(), "c".to_string()]);
    let _ = app.handle_update(Message::RemoveAttachment(1));
    assert_eq!(app.composer.composer_attachments, vec!["a".to_string(), "c".to_string()]);
    let _ = app.handle_update(Message::RemoveAttachment(7));
    assert_eq!(app.composer.composer_attachments.len(), 2);
}

#[test]
fn media_batch_keeps_what_arrived() {
    let mut app = create_dummy_constellations();
    let _ = app.handle_update(Message::MediaFetchedBatch(vec![
        ("mxc://a".to_string(), Ok(vec![1u8])),
        ("mxc://b".to_string(), Err("gone".to_string())),
        ("mxc://c".to_string(), Ok(vec![2u8, 3])),
    ]));
    assert_eq!(app.media_cache.len(), 2);
    assert_eq!(app.media_cache.get("mxc://c"), Some(&vec![2u8, 3]));
    assert_eq!(app.session.error.as_deref(), Some("Failed to fetch the media: gone"));
}

#[test]
fn timeline_diff_fetches_missing_media() {
    let mut app = create_dummy_constellations();
    app.session.engine_ready = true;
    app.prefs.media_previews_enabled = true;
    let mut item = event_item("$1", "x");
    item.sender_avatar_url = Some("mxc://avatar".to_string());
    item.image_url = Some("mxc://image".to_string());
    let effects = app.handle_timeline_diff(VectorDiff::PushBack { value: item }, false, None);
    assert!(matches!(&effects[0], Effect::FetchMediaBatch(urls) if urls == &vec!["mxc://avatar".to_string(), "mxc://image".to_string()]));
    assert_eq!(app.timeline.timeline_items.len(), 1);
}

#[test]
fn permalinks_route_to_rooms_events_and_aliases() {
    let mut app = create_dummy_constellations();
    let effects = app.handle_update(Message::OpenMatrixLink("https://matrix.to/#/!r:x".to_string()));
    assert!(effects.is_empty());
    assert_eq!(app.links.pending_link.as_deref(), Some("https://matrix.to/#/!r:x"));

    app.session.engine_ready = true;
    let effects = app.handle_update(Message::OpenMatrixLink("https://matrix.to/#/!r:x".to_string()));
    assert!(matches!(&effects[..], [Effect::ParseLink(l)] if l == "https://matrix.to/#/!r:x"));

    let effects = app.handle_link_parsed(
        "link".to_string(),
        Some(PermalinkTarget::Event { room: "!r:x".to_string(), event: "$e".to_string() }),
    );
    assert!(app.links.pending_event_focus.is_none());
    assert!(matches!(
        &effects[..],
        [Effect::Dispatch(Message::RoomSelected(r)), Effect::Dispatch(Message::SetPendingEventFocus(e))]
            if r == "!r:x" && e == "$e"
    ));
    let _ = app.handle_update(Message::RoomSelected("!r:x".to_string()));
    let _ = app.handle_update(Message::SetPendingEventFocus("$e".to_string()));
    assert_eq!(app.links.pending_event_focus.as_deref(), Some("$e"));

    let effects = app.handle_link_parsed(
        "link".to_string(),
        Some(PermalinkTarget::Join { room: "#alias:x".to_string() }),
    );
    assert!(matches!(&effects[..], [Effect::ResolveAlias(a)] if a == "#alias:x"));
    let effects = app.handle_update(Message::RoomAliasResolved(Ok("!joined:x".to_string())));
    assert!(matches!(&effects[..], [Effect::Dispatch(Message::JoinRoom(r))] if r == "!joined:x"));
    assert!(app.links.pending_alias_op.is_none());
}

#[test]
fn non_permalinks_open_in_the_browser_when_they_are_urls() {
    let mut app = create_dummy_constellations();
    let effects = app.handle_link_parsed("https://example.org/page".to_string(), None);
    assert!(matches!(&effects[..], [Effect::Dispatch(Message::OpenUrl(u))] if u == "https://example.org/page"));
    let effects = app.handle_link_parsed("not a link".to_string(), None);
    assert!(effects.is_empty());
}

#[test]
fn open_settings_while_searching_takes_the_query() {
    let mut app = create_dummy_constellations();
    app.search.is_search_active = true;
    app.search.search_query = "ali".to_string();
    app.rooms.selected_room = Some("!r".to_string());
    let effects = app.handle_update(Message::OpenSettings(SettingsPanel::Room));
    assert_eq!(app.panels.room_member_filter, "ali");
    assert_eq!(app.panels.current_settings_panel, Some(SettingsPanel::Room));
    assert!(app.panels.show_context);
    assert!(matches!(&effects[0], Effect::LoadRoomSettings(r) if r == "!r"));
}

#[test]
fn dismiss_error_resets_failed_sync() {
    let mut app = create_dummy_constellations();
    app.session.error = Some("x".to_string());
    app.session.sync_status = SyncStatus::Error("down".to_string());
    let _ = app.handle_update(Message::DismissError);
    assert!(app.session.error.is_none());
    assert_eq!(app.session.sync_status, SyncStatus::Disconnected);
}

#[test]
fn menu_entries_send_their_messages() {
    assert!(matches!(MenuAct::Logout.message(), Message::Logout));
    assert!(matches!(MenuAct::OpenLink.message(), Message::ToggleOpenLink));
    assert!(matches!(MenuAct::RoomSettings.message(), Message::OpenSettings(SettingsPanel::Room)));
}

#[test]
fn setup_scroll_test_app_has_one_room() {
    let (app, room_id) = setup_scroll_test_app();
    assert_eq!(room_id, "!room1:example.com");
    assert_eq!(app.rooms.room_list.len(), 1);
    assert_eq!(app.rooms.room_list[0].unread_count, 5);
    assert_eq!(app.session.user_id.as_deref(), Some("@test_user:matrix.org"));
}

#[test]
fn initial_scroll_goes_to_first_unread() {
    let (mut app, room_id) = setup_scroll_test_app();
    app.rooms.selected_room = Some(room_id);
    app.timeline.needs_initial_scroll = true;
    app.timeline.is_timeline_initialized = true;
    populate(&mut app, 8);
    let e = app.check_and_perform_initial_scroll();
    assert!(matches!(e, Some(Effect::SnapToUnread { unread: 5, total: 8 })));
}
