//! The small decisions (forms, threads, calls, links to copy) and the
//! update loop that sends every message to its handler.
use crate::constellations::composer::{
    attachments_selected_post, cancel_edit_post, composer_changed_post, emoji_picker_selected_post,
    insert_emoji_post, message_edited_post, message_sent_post, open_reaction_picker_post, redact_message_post,
    remove_attachment_post, send_message_post, start_edit_post, start_reply_post,
    toggle_composer_emoji_picker_post, toggle_reaction_post,
};
use crate::constellations::media::{clear_media_cache_post, fetch_media_post, media_batch_post, media_fetched_post};
use crate::constellations::permalinks::{
    alias_resolved_post, event_context_loaded_post, jump_or_load_post, jump_to_message_post,
    link_parsed_post, load_event_context_post, open_link_post, open_link_text_changed_post,
    open_room_event_post, return_to_live_post, submit_open_link_post, toggle_open_link_post,
};
use crate::constellations::rooms::{
    close_settings_post, members_fetched_post, open_settings_post, pinned_events_fetched_post,
    room_created_post, room_joined_post, room_selected_post, select_space_post, space_children_post,
    space_created_post, toggle_members_panel_post, toggle_pinned_panel_post, unpin_message_post,
};
use crate::constellations::search::{
    global_results_post, load_more_message_search_post, message_results_post,
    message_search_more_results_post, public_results_post, search_query_changed_post,
    set_global_search_scope_post, toggle_search_post,
};
use crate::constellations::session::{
    cancel_qr_login_post, engine_ready_post, login_finished_post, logout_finished_post, logout_post,
    oidc_callback_post, oidc_login_started_post, qr_check_code_changed_post, qr_login_progress_post,
    register_finished_post, shows_error, start_qr_login_post, string_views, submit_login_post,
    submit_oidc_login_post, submit_qr_check_code_post, submit_register_post, toggle_login_mode_post,
    user_ready_post,
};
use crate::constellations::timeline::{
    first_scroll, items_media, matrix_event_fits, matrix_event_post, settle, timeline_diff_fits,
    timeline_diff_post,
};
use crate::constellations::{
    failure_message, failure_text, single, AuthFlow, Composer, Constellations, Effect, Links, Message,
    Panels, Rooms, Session, Timeline, HISTORY_PAGE_SIZE,
};
use crate::matrix::diff::diff_fits;
use crate::matrix::{MatrixEvent, SyncStatus};
use vstd::prelude::*;
use vstd::string::StringExecFns;

verus! {

/// An action that succeeded changes nothing; one that failed shows
/// "Failed to <action>: <why>".
pub open spec fn outcome_post(
    old: Constellations,
    new: Constellations,
    action: Seq<char>,
    res: Result<(), String>,
    effects: Seq<Effect>,
) -> bool {
    &&& effects.len() == 0
    &&& match res {
        Ok(()) => new == old,
        Err(e) => {
            &&& new == (Constellations { session: Session { error: new.session.error, ..old.session }, ..old })
            &&& shows_error(new.session.error, failure_text(action, e@))
        },
    }
}

/// Work that needs the engine up and a room selected, on that room.
pub open spec fn in_room(c: Constellations, e: Effect) -> Seq<Effect> {
    if c.session.engine_ready && c.rooms.selected_room is Some {
        seq![e]
    } else {
        Seq::empty()
    }
}

/// Work that needs the engine up.
pub open spec fn with_engine(c: Constellations, e: Effect) -> Seq<Effect> {
    if c.session.engine_ready {
        seq![e]
    } else {
        Seq::empty()
    }
}

/// `DismissError`: the error goes, and a sync failure shown as the sync
/// status is forgotten too.
pub open spec fn dismiss_error_post(old: Constellations, new: Constellations, effects: Seq<Effect>) -> bool {
    &&& new == (Constellations {
        session: Session {
            error: None,
            sync_status: match old.session.sync_status {
                SyncStatus::Error(_) => SyncStatus::Disconnected,
                SyncStatus::MissingSlidingSyncSupport => SyncStatus::Disconnected,
                s => s,
            },
            ..old.session
        },
        ..old
    })
    &&& effects.len() == 0
}

/// `ToggleCreateRoom` (`space`: `ToggleCreateSpace`): the create form opens
/// or closes in the drawer, the other create form closes, and the name field
/// empties.
pub open spec fn toggle_create_post(old: Constellations, new: Constellations, space: bool, effects: Seq<Effect>) -> bool {
    let now = if space {
        !old.rooms.creating_space
    } else {
        !old.rooms.creating_room
    };
    &&& new == (Constellations {
        rooms: Rooms {
            creating_room: !space && now,
            creating_space: space && now,
            new_room_name: new.rooms.new_room_name,
            ..old.rooms
        },
        panels: Panels { current_settings_panel: None, show_context: now, ..old.panels },
        ..old
    })
    &&& new.rooms.new_room_name@.len() == 0
    &&& effects.len() == 0
}

/// `ToggleInviteToSpace`: the space invite form opens (closing the create
/// forms) or closes, with an empty user field.
pub open spec fn toggle_invite_to_space_post(old: Constellations, new: Constellations, effects: Seq<Effect>) -> bool {
    let now = !old.rooms.inviting_to_space;
    &&& new == (Constellations {
        rooms: Rooms {
            inviting_to_space: now,
            creating_room: !now && old.rooms.creating_room,
            creating_space: !now && old.rooms.creating_space,
            invite_to_space_id: new.rooms.invite_to_space_id,
            ..old.rooms
        },
        ..old
    })
    &&& new.rooms.invite_to_space_id@.len() == 0
    &&& effects.len() == 0
}

/// `ToggleInviteToRoom`: the room invite form opens or closes, with an empty
/// user field.
pub open spec fn toggle_invite_to_room_post(old: Constellations, new: Constellations, effects: Seq<Effect>) -> bool {
    &&& new == (Constellations {
        rooms: Rooms {
            inviting_to_room: !old.rooms.inviting_to_room,
            invite_to_room_id: new.rooms.invite_to_room_id,
            ..old.rooms
        },
        ..old
    })
    &&& new.rooms.invite_to_room_id@.len() == 0
    &&& effects.len() == 0
}

/// `SpaceUserInvited` (`space`) or `RoomUserInvited`: a sent invite closes
/// its form, a failed one is shown.
pub open spec fn user_invited_post(
    old: Constellations,
    new: Constellations,
    space: bool,
    res: Result<(), String>,
    effects: Seq<Effect>,
) -> bool {
    &&& effects.len() == 0
    &&& match res {
        Ok(()) => {
            &&& new == (Constellations {
                rooms: if space {
                    Rooms {
                        inviting_to_space: false,
                        invite_to_space_id: new.rooms.invite_to_space_id,
                        ..old.rooms
                    }
                } else {
                    Rooms { inviting_to_room: false, invite_to_room_id: new.rooms.invite_to_room_id, ..old.rooms }
                },
                ..old
            })
            &&& (if space {
                new.rooms.invite_to_space_id@
            } else {
                new.rooms.invite_to_room_id@
            }).len() == 0
        },
        Err(e) => {
            &&& new == (Constellations { session: Session { error: new.session.error, ..old.session }, ..old })
            &&& shows_error(new.session.error, failure_text("invite the user"@, e@))
        },
    }
}

/// `OpenThread`: the thread opens empty, asks for its latest messages and
/// scrolls to its end.
pub open spec fn open_thread_post(old: Constellations, new: Constellations, root: String, effects: Seq<Effect>) -> bool {
    let can_load = !old.timeline.is_loading_more && old.session.engine_ready && old.rooms.selected_room is Some;
    let load = if can_load {
        seq![Effect::LoadMore { room_id: old.rooms.selected_room.unwrap(), thread_root: Some(root), count: HISTORY_PAGE_SIZE }]
    } else {
        Seq::empty()
    };
    &&& new == (Constellations {
        timeline: Timeline {
            needs_layout_scroll_restoration: true,
            active_thread_root: Some(root),
            threaded_timeline_items: new.timeline.threaded_timeline_items,
            needs_threaded_scroll_adjustment: false,
            is_threaded_timeline_initialized: false,
            is_loading_more: old.timeline.is_loading_more || can_load,
            ..old.timeline
        },
        ..old
    })
    &&& new.timeline.threaded_timeline_items@.len() == 0
    &&& effects == seq![Effect::ResetScrollMetrics { thread: true, offset: true, width: true }] + load + seq![
        Effect::SnapToEnd { thread: true },
    ]
}

/// `CloseThread`: the thread closes and the main timeline is restored.
pub open spec fn close_thread_post(old: Constellations, new: Constellations, effects: Seq<Effect>) -> bool {
    &&& new == (Constellations {
        timeline: Timeline {
            needs_layout_scroll_restoration: true,
            active_thread_root: None,
            threaded_timeline_items: new.timeline.threaded_timeline_items,
            needs_threaded_scroll_adjustment: false,
            is_threaded_timeline_initialized: false,
            ..old.timeline
        },
        ..old
    })
    &&& new.timeline.threaded_timeline_items@.len() == 0
    &&& effects == seq![
        Effect::ResetScrollMetrics { thread: true, offset: true, width: true },
        settle(false, old.timeline.is_timeline_at_bottom),
    ]
}

/// The thread `root` is the open one.
pub open spec fn is_open_thread(c: Constellations, root: String) -> bool {
    c.timeline.active_thread_root is Some && c.timeline.active_thread_root.unwrap()@ == root@
}

/// `MatrixThreadReset`: the open thread empties; its scroll position is to be
/// restored when it had items. A reset of another thread is ignored.
pub open spec fn thread_reset_post(old: Constellations, new: Constellations, root: String, effects: Seq<Effect>) -> bool {
    if !is_open_thread(old, root) {
        new == old && effects.len() == 0
    } else {
        &&& new == (Constellations {
            timeline: Timeline {
                threaded_timeline_items: new.timeline.threaded_timeline_items,
                needs_threaded_scroll_restoration: old.timeline.threaded_timeline_items@.len() > 0,
                needs_threaded_scroll_adjustment: false,
                is_threaded_timeline_initialized: false,
                ..old.timeline
            },
            ..old
        })
        &&& new.timeline.threaded_timeline_items@.len() == 0
        &&& effects == seq![Effect::ResetScrollMetrics { thread: true, offset: false, width: true }]
    }
}

/// `MatrixThreadInitFinished`: the open thread is ready, and its scroll
/// position is restored when a reset asked for it.
pub open spec fn thread_init_finished_post(old: Constellations, new: Constellations, root: String, effects: Seq<Effect>) -> bool {
    if !is_open_thread(old, root) {
        new == old && effects.len() == 0
    } else {
        &&& new == (Constellations {
            timeline: Timeline {
                is_threaded_timeline_initialized: true,
                needs_threaded_scroll_restoration: false,
                ..old.timeline
            },
            ..old
        })
        &&& effects == if old.timeline.needs_threaded_scroll_restoration {
            seq![settle(true, old.timeline.is_threaded_timeline_at_bottom)]
        } else {
            Seq::empty()
        }
    }
}

/// `LoadMoreFinished`: the page is in; a failure is shown, and the room's
/// first scroll happens when it was waiting for the page.
pub open spec fn load_more_finished_post(old: Constellations, new: Constellations, res: Result<(), String>, effects: Seq<Effect>) -> bool {
    let due = old.timeline.needs_initial_scroll && old.timeline.is_timeline_initialized;
    &&& new == (Constellations {
        timeline: Timeline {
            is_loading_more: false,
            needs_initial_scroll: old.timeline.needs_initial_scroll && !due,
            ..old.timeline
        },
        session: Session { error: new.session.error, ..old.session },
        ..old
    })
    &&& match res {
        Ok(()) => new.session.error == old.session.error,
        Err(e) => shows_error(new.session.error, failure_text("load older messages"@, e@)),
    }
    &&& effects == match first_scroll(
        due,
        old.timeline.timeline_items@.len(),
        old.rooms.selected_room,
        old.rooms.room_list@,
        old.rooms.is_first_time_joining,
    ) {
        Some(e) => seq![e],
        None => Seq::empty(),
    }
}

/// `CopyToClipboard`: a built link goes to the clipboard; a failure shows
/// its text as it is.
pub open spec fn copy_to_clipboard_post(old: Constellations, new: Constellations, res: Result<String, String>, effects: Seq<Effect>) -> bool {
    match res {
        Ok(text) => new == old && effects == seq![Effect::WriteClipboard(text)],
        Err(e) => {
            &&& new == (Constellations { session: Session { error: Some(e), ..old.session }, ..old })
            &&& effects.len() == 0
        },
    }
}

/// `DmRoomResolved`: the direct chat opens like a selected room, or the
/// failure is shown.
pub open spec fn dm_room_resolved_post(old: Constellations, new: Constellations, res: Result<String, String>, effects: Seq<Effect>) -> bool {
    match res {
        Ok(room) => room_selected_post(old, new, room, effects),
        Err(e) => {
            &&& new == (Constellations { session: Session { error: new.session.error, ..old.session }, ..old })
            &&& shows_error(new.session.error, failure_text("start direct message"@, e@))
            &&& effects.len() == 0
        },
    }
}

/// `AppSettingChanged`: the settings are saved and media that the new
/// settings show are fetched.
pub open spec fn app_setting_changed_post(old: Constellations, new: Constellations, effects: Seq<Effect>) -> bool {
    let media = items_media(
        old.timeline.timeline_items@ + old.timeline.threaded_timeline_items@,
        old.media_cache@,
        old.prefs.media_previews_enabled,
    );
    &&& new == old
    &&& effects.len() >= 1
    &&& effects[0] == Effect::SaveConfig
    &&& if old.session.engine_ready && media.len() > 0 {
        effects.len() == 2 && (effects[1] matches Effect::FetchMediaBatch(urls) && string_views(urls@) == media)
    } else {
        effects.len() == 1
    }
}

impl Timeline {
    /// Opens the thread `root`, empty (`loading`: a page is asked for).
    fn open_thread(&mut self, root: String, loading: bool)
        ensures
            *final(self) == (Timeline {
                needs_layout_scroll_restoration: true,
                active_thread_root: Some(root),
                threaded_timeline_items: final(self).threaded_timeline_items,
                needs_threaded_scroll_adjustment: false,
                is_threaded_timeline_initialized: false,
                is_loading_more: old(self).is_loading_more || loading,
                ..*old(self)
            }),
            final(self).threaded_timeline_items@.len() == 0,
    {
        self.needs_layout_scroll_restoration = true;
        self.active_thread_root = Some(root);
        self.threaded_timeline_items.clear();
        self.needs_threaded_scroll_adjustment = false;
        self.is_threaded_timeline_initialized = false;
        self.is_loading_more = self.is_loading_more || loading;
    }
}

impl Constellations {
    /// Shows the failure of an action, if it failed.
    pub fn handle_outcome(&mut self, action: &str, res: Result<(), String>) -> (effects: Vec<Effect>)
        ensures
            outcome_post(*old(self), *final(self), action@, res, effects@),
    {
        match res {
            Ok(()) => {},
            Err(e) => {
                self.session.error = Some(failure_message(action, e.as_str()));
            },
        }
        Vec::new()
    }

    /// `e` when the engine is up and a room is selected.
    fn in_room_effects(&self, e: Effect) -> (effects: Vec<Effect>)
        ensures
            effects@ == in_room(*self, e),
    {
        if self.session.engine_ready && self.rooms.selected_room.is_some() {
            single(e)
        } else {
            Vec::new()
        }
    }

    /// `e` when the engine is up.
    fn with_engine_effects(&self, e: Effect) -> (effects: Vec<Effect>)
        ensures
            effects@ == with_engine(*self, e),
    {
        if self.session.engine_ready {
            single(e)
        } else {
            Vec::new()
        }
    }

    /// The selected room's id (empty without one).
    fn selected_room_id(&self) -> (room: String)
        ensures
            self.rooms.selected_room is Some ==> room == self.rooms.selected_room.unwrap(),
    {
        match &self.rooms.selected_room {
            Some(r) => r.clone(),
            None => String::new(),
        }
    }

    /// Dismisses the error.
    pub fn handle_dismiss_error(&mut self) -> (effects: Vec<Effect>)
        ensures
            dismiss_error_post(*old(self), *final(self), effects@),
    {
        self.session.error = None;
        let reset = match &self.session.sync_status {
            SyncStatus::Error(_) => true,
            SyncStatus::MissingSlidingSyncSupport => true,
            _ => false,
        };
        if reset {
            self.session.sync_status = SyncStatus::Disconnected;
        }
        Vec::new()
    }

    /// Opens or closes the create-room (`space`: create-space) form.
    pub fn handle_toggle_create(&mut self, space: bool) -> (effects: Vec<Effect>)
        ensures
            toggle_create_post(*old(self), *final(self), space, effects@),
    {
        let now = if space {
            !self.rooms.creating_space
        } else {
            !self.rooms.creating_room
        };
        self.rooms.creating_room = !space && now;
        self.rooms.creating_space = space && now;
        self.rooms.new_room_name = String::new();
        self.panels.current_settings_panel = None;
        self.panels.show_context = now;
        Vec::new()
    }

    /// Opens or closes the space invite form.
    pub fn handle_toggle_invite_to_space(&mut self) -> (effects: Vec<Effect>)
        ensures
            toggle_invite_to_space_post(*old(self), *final(self), effects@),
    {
        let now = !self.rooms.inviting_to_space;
        self.rooms.inviting_to_space = now;
        self.rooms.creating_room = !now && self.rooms.creating_room;
        self.rooms.creating_space = !now && self.rooms.creating_space;
        self.rooms.invite_to_space_id = String::new();
        Vec::new()
    }

    /// Opens or closes the room invite form.
    pub fn handle_toggle_invite_to_room(&mut self) -> (effects: Vec<Effect>)
        ensures
            toggle_invite_to_room_post(*old(self), *final(self), effects@),
    {
        self.rooms.inviting_to_room = !self.rooms.inviting_to_room;
        self.rooms.invite_to_room_id = String::new();
        Vec::new()
    }

    /// Invites the user of the space invite form to the selected space.
    pub fn handle_invite_to_space(&mut self) -> (effects: Vec<Effect>)
        ensures
            *final(self) == *old(self),
            effects@ == if old(self).session.engine_ready && old(self).rooms.selected_space is Some {
                seq![
                    Effect::InviteUser {
                        room_id: old(self).rooms.selected_space.unwrap(),
                        user_id: old(self).rooms.invite_to_space_id,
                    },
                ]
            } else {
                Seq::empty()
            },
    {
        if self.session.engine_ready {
            match &self.rooms.selected_space {
                Some(s) => {
                    return single(
                        Effect::InviteUser { room_id: s.clone(), user_id: self.rooms.invite_to_space_id.clone() },
                    );
                },
                None => {},
            }
        }
        Vec::new()
    }

    /// Invites the user of the room invite form to the selected room.
    pub fn handle_invite_to_room(&mut self) -> (effects: Vec<Effect>)
        ensures
            *final(self) == *old(self),
            effects@ == in_room(
                *old(self),
                Effect::InviteUser {
                    room_id: old(self).rooms.selected_room.unwrap(),
                    user_id: old(self).rooms.invite_to_room_id,
                },
            ),
    {
        let room = self.selected_room_id();
        self.in_room_effects(Effect::InviteUser { room_id: room, user_id: self.rooms.invite_to_room_id.clone() })
    }

    /// An invite was sent (or not).
    pub fn handle_user_invited(&mut self, space: bool, res: Result<(), String>) -> (effects: Vec<Effect>)
        ensures
            user_invited_post(*old(self), *final(self), space, res, effects@),
    {
        match res {
            Ok(()) => {
                if space {
                    self.rooms.inviting_to_space = false;
                    self.rooms.invite_to_space_id = String::new();
                } else {
                    self.rooms.inviting_to_room = false;
                    self.rooms.invite_to_room_id = String::new();
                }
            },
            Err(e) => {
                self.session.error = Some(failure_message("invite the user", e.as_str()));
            },
        }
        Vec::new()
    }

    /// Opens a thread.
    pub fn handle_open_thread(&mut self, root: String) -> (effects: Vec<Effect>)
        ensures
            open_thread_post(*old(self), *final(self), root, effects@),
    {
        let can_load = !self.timeline.is_loading_more && self.session.engine_ready
            && self.rooms.selected_room.is_some();
        let mut effects = single(Effect::ResetScrollMetrics { thread: true, offset: true, width: true });
        let ghost head = effects@;
        if can_load {
            let room = self.selected_room_id();
            effects.push(Effect::LoadMore { room_id: room, thread_root: Some(root.clone()), count: HISTORY_PAGE_SIZE });
        }
        let ghost with_load = effects@;
        effects.push(Effect::SnapToEnd { thread: true });
        proof {
            let load = if can_load {
                seq![Effect::LoadMore { room_id: old(self).rooms.selected_room.unwrap(), thread_root: Some(root), count: HISTORY_PAGE_SIZE }]
            } else {
                Seq::empty()
            };
            assert(with_load =~= head + load);
            assert(effects@ =~= seq![Effect::ResetScrollMetrics { thread: true, offset: true, width: true }] + load + seq![
                Effect::SnapToEnd { thread: true },
            ]);
        }
        self.timeline.open_thread(root, can_load);
        effects
    }

    /// Closes the thread.
    pub fn handle_close_thread(&mut self) -> (effects: Vec<Effect>)
        ensures
            close_thread_post(*old(self), *final(self), effects@),
    {
        let settled = crate::constellations::timeline::settle_effect(false, self.timeline.is_timeline_at_bottom);
        self.timeline.needs_layout_scroll_restoration = true;
        self.timeline.active_thread_root = None;
        self.timeline.threaded_timeline_items.clear();
        self.timeline.needs_threaded_scroll_adjustment = false;
        self.timeline.is_threaded_timeline_initialized = false;
        let mut effects = single(Effect::ResetScrollMetrics { thread: true, offset: true, width: true });
        effects.push(settled);
        assert(effects@ =~= seq![Effect::ResetScrollMetrics { thread: true, offset: true, width: true }, settled]);
        effects
    }

    /// Whether `root` is the open thread.
    fn thread_is_open(&self, root: &String) -> (open: bool)
        ensures
            open == is_open_thread(*self, *root),
    {
        match &self.timeline.active_thread_root {
            Some(r) => *r == *root,
            None => false,
        }
    }

    /// A thread's timeline was reset.
    pub fn handle_thread_reset(&mut self, root: String) -> (effects: Vec<Effect>)
        ensures
            thread_reset_post(*old(self), *final(self), root, effects@),
    {
        if !self.thread_is_open(&root) {
            return Vec::new();
        }
        let background = self.timeline.threaded_timeline_items.len() > 0;
        self.timeline.threaded_timeline_items.clear();
        self.timeline.needs_threaded_scroll_restoration = background;
        self.timeline.needs_threaded_scroll_adjustment = false;
        self.timeline.is_threaded_timeline_initialized = false;
        single(Effect::ResetScrollMetrics { thread: true, offset: false, width: true })
    }

    /// A thread's timeline finished initialising.
    pub fn handle_thread_init_finished(&mut self, root: String) -> (effects: Vec<Effect>)
        ensures
            thread_init_finished_post(*old(self), *final(self), root, effects@),
    {
        if !self.thread_is_open(&root) {
            return Vec::new();
        }
        self.timeline.is_threaded_timeline_initialized = true;
        if self.timeline.needs_threaded_scroll_restoration {
            self.timeline.needs_threaded_scroll_restoration = false;
            single(crate::constellations::timeline::settle_effect(true, self.timeline.is_threaded_timeline_at_bottom))
        } else {
            Vec::new()
        }
    }

    /// A page of older messages arrived (or not).
    pub fn handle_load_more_finished(&mut self, res: Result<(), String>) -> (effects: Vec<Effect>)
        ensures
            load_more_finished_post(*old(self), *final(self), res, effects@),
    {
        self.timeline.is_loading_more = false;
        let err = match res {
            Ok(()) => None,
            Err(e) => Some(failure_message("load older messages", e.as_str())),
        };
        self.session.report(err);
        match self.check_and_perform_initial_scroll() {
            Some(e) => single(e),
            None => Vec::new(),
        }
    }

    /// Copies the link of an event of the selected room.
    pub fn handle_copy_message_link(&mut self, item: String) -> (effects: Vec<Effect>)
        ensures
            *final(self) == *old(self),
            effects@ == in_room(
                *old(self),
                Effect::CopyEventLink { room_id: old(self).rooms.selected_room.unwrap(), event_id: item },
            ),
    {
        let room = self.selected_room_id();
        self.in_room_effects(Effect::CopyEventLink { room_id: room, event_id: item })
    }

    /// A link to copy was built (or not).
    pub fn handle_copy_to_clipboard(&mut self, res: Result<String, String>) -> (effects: Vec<Effect>)
        ensures
            copy_to_clipboard_post(*old(self), *final(self), res, effects@),
    {
        match res {
            Ok(text) => single(Effect::WriteClipboard(text)),
            Err(e) => {
                self.session.error = Some(e);
                Vec::new()
            },
        }
    }

    /// The direct chat with a user was found or made (or not).
    pub fn handle_dm_room_resolved(&mut self, res: Result<String, String>) -> (effects: Vec<Effect>)
        ensures
            dm_room_resolved_post(*old(self), *final(self), res, effects@),
    {
        match res {
            Ok(room) => self.handle_room_selected(room),
            Err(e) => {
                self.session.error = Some(failure_message("start direct message", e.as_str()));
                Vec::new()
            },
        }
    }

    /// An attachment was sent (or not).
    pub fn handle_attachment_sent(&mut self, path: String, res: Result<(), String>) -> (effects: Vec<Effect>)
        ensures
            outcome_post(*old(self), *final(self), "send "@ + path@, res, effects@),
    {
        let action = String::from_str("send ").concat(path.as_str());
        self.handle_outcome(action.as_str(), res)
    }

    /// Joins the call of the selected room.
    pub fn handle_join_call(&mut self) -> (effects: Vec<Effect>)
        ensures
            *final(self) == *old(self),
            effects@ == in_room(*old(self), Effect::JoinCall(old(self).rooms.selected_room.unwrap())),
    {
        let room = self.selected_room_id();
        self.in_room_effects(Effect::JoinCall(room))
    }

    /// Leaves the call of the selected room.
    pub fn handle_leave_call(&mut self) -> (effects: Vec<Effect>)
        ensures
            *final(self) == *old(self),
            effects@ == in_room(*old(self), Effect::LeaveCall(old(self).rooms.selected_room.unwrap())),
    {
        let room = self.selected_room_id();
        self.in_room_effects(Effect::LeaveCall(room))
    }

    /// Creates a room named `name` (a video room when the form says so).
    pub fn handle_create_room(&mut self, name: String) -> (effects: Vec<Effect>)
        ensures
            *final(self) == *old(self),
            effects@ == with_engine(
                *old(self),
                Effect::CreateRoom { name, is_video: old(self).rooms.new_room_is_video },
            ),
    {
        let is_video = self.rooms.new_room_is_video;
        self.with_engine_effects(Effect::CreateRoom { name, is_video })
    }

    /// Creates a space named `name`.
    pub fn handle_create_space(&mut self, name: String) -> (effects: Vec<Effect>)
        ensures
            *final(self) == *old(self),
            effects@ == with_engine(*old(self), Effect::CreateSpace { name }),
    {
        self.with_engine_effects(Effect::CreateSpace { name })
    }

    /// Asks for files to attach.
    pub fn handle_add_attachment(&mut self) -> (effects: Vec<Effect>)
        ensures
            *final(self) == *old(self),
            effects@ == seq![Effect::PickAttachments],
    {
        let effects = single(Effect::PickAttachments);
        assert(effects@ =~= seq![Effect::PickAttachments]);
        effects
    }

    /// Asks where the user is, to share it.
    pub fn handle_share_location(&mut self) -> (effects: Vec<Effect>)
        ensures
            *final(self) == *old(self),
            effects@ == seq![Effect::RequestLocation],
    {
        let effects = single(Effect::RequestLocation);
        assert(effects@ =~= seq![Effect::RequestLocation]);
        effects
    }

    /// The position to share arrived (or not).
    pub fn handle_location_retrieved(&mut self, res: Result<(String, String), String>) -> (effects: Vec<Effect>)
        ensures
            location_retrieved_post(*old(self), *final(self), res, effects@),
    {
        match res {
            Ok((lat, lon)) => {
                let room = self.selected_room_id();
                let geo_uri = String::from_str("geo:").concat(lat.as_str()).concat(",").concat(lon.as_str());
                self.in_room_effects(Effect::SendLocation { room_id: room, latitude: lat, longitude: lon, geo_uri })
            },
            Err(e) => self.handle_outcome("get the location", Err(e)),
        }
    }

    /// The settings changed: they are saved, and media they now show are
    /// fetched.
    pub fn handle_app_setting_changed(&mut self) -> (effects: Vec<Effect>)
        ensures
            app_setting_changed_post(*old(self), *final(self), effects@),
    {
        let mut effects = single(Effect::SaveConfig);
        let mut fetch = self.fetch_missing_media();
        effects.append(&mut fetch);
        effects
    }
}

/// `LocationRetrieved`: a position is sent to the selected room as a
/// location message with its `geo:` URI; a failure is shown.
pub open spec fn location_retrieved_post(
    old: Constellations,
    new: Constellations,
    res: Result<(String, String), String>,
    effects: Seq<Effect>,
) -> bool {
    match res {
        Ok((lat, lon)) => {
            &&& new == old
            &&& if old.session.engine_ready && old.rooms.selected_room is Some {
                &&& effects.len() == 1
                &&& effects[0] matches Effect::SendLocation { room_id, latitude, longitude, geo_uri }
                &&& room_id == old.rooms.selected_room.unwrap()
                &&& latitude == lat
                &&& longitude == lon
                &&& geo_uri@ == "geo:"@ + lat@ + ","@ + lon@
            } else {
                effects.len() == 0
            }
        },
        Err(e) => outcome_post(old, new, "get the location"@, Err(e), effects),
    }
}

/// The message can be handled: a change it carries fits the list it is for.
pub open spec fn update_fits(c: Constellations, message: Message) -> bool {
    match message {
        Message::Matrix(event) => matrix_event_fits(c, event),
        Message::MatrixThreadDiff(root, diff) => timeline_diff_fits(c, diff, true, Some(root)),
        _ => true,
    }
}

/// What handling `message` does: the state it leaves and the work it asks
/// for.
pub open spec fn update_post(old: Constellations, new: Constellations, message: Message, effects: Seq<Effect>) -> bool {
    let unchanged = new == old;
    let none = effects.len() == 0;
    match message {
        Message::Matrix(event) => matrix_event_post(old, new, event, effects),
        Message::RoomSelected(room) => room_selected_post(old, new, room, effects),
        Message::EngineReady(res) => engine_ready_post(old, new, res, effects),
        Message::ComposerChanged(text) => composer_changed_post(old, new, text, effects),
        Message::TogglePreview => none && new == (Constellations {
            composer: Composer { composer_is_preview: !old.composer.composer_is_preview, ..old.composer },
            ..old
        }),
        Message::SendMessage => send_message_post(old, new, effects),
        Message::MessageSent(res) => message_sent_post(old, new, res, effects),
        Message::MessageEdited(res) => message_edited_post(old, new, res, effects),
        Message::MessageRedacted(res) => outcome_post(old, new, "delete the message"@, res, effects),
        Message::AttachmentsSelected(paths) => attachments_selected_post(old, new, paths, effects),
        Message::RemoveAttachment(index) => remove_attachment_post(old, new, index, effects),
        Message::AttachmentSent(path, res) => outcome_post(old, new, "send "@ + path@, res, effects),
        Message::ToggleReaction(item, key) => toggle_reaction_post(old, new, item, key, effects),
        Message::ReactionToggled(res) => outcome_post(old, new, "toggle the reaction"@, res, effects),
        Message::OpenReactionPicker(item) => open_reaction_picker_post(old, new, item, effects),
        Message::EmojiSearchQueryChanged(query) => none && new == (Constellations {
            composer: Composer { emoji_search_query: query, ..old.composer },
            ..old
        }),
        Message::ToggleComposerEmojiPicker => toggle_composer_emoji_picker_post(old, new, effects),
        Message::InsertEmoji(emoji) => insert_emoji_post(old, new, emoji, effects),
        Message::EmojiPickerSelected(emoji) => emoji_picker_selected_post(old, new, emoji, effects),
        Message::LoadMoreFinished(res) => load_more_finished_post(old, new, res, effects),
        Message::UserReady(user_id, res) => user_ready_post(old, new, user_id, res, effects),
        Message::FetchMedia(url) => fetch_media_post(old, new, url, effects),
        Message::MediaFetched(url, res) => media_fetched_post(old, new, url, res, effects),
        Message::MediaFetchedBatch(batch) => media_batch_post(old, new, batch@, effects),
        Message::CreateRoom(name) => unchanged && effects == with_engine(
            old,
            Effect::CreateRoom { name, is_video: old.rooms.new_room_is_video },
        ),
        Message::RoomCreated(res) => room_created_post(old, new, res, effects),
        Message::CreateSpace(name) => unchanged && effects == with_engine(old, Effect::CreateSpace { name }),
        Message::SpaceCreated(res) => space_created_post(old, new, res, effects),
        Message::NewRoomNameChanged(name) => none && new == (Constellations {
            rooms: Rooms { new_room_name: name, ..old.rooms },
            ..old
        }),
        Message::ToggleCreateRoom => toggle_create_post(old, new, false, effects),
        Message::ToggleCreateSpace => toggle_create_post(old, new, true, effects),
        Message::ToggleInviteToSpace => toggle_invite_to_space_post(old, new, effects),
        Message::InviteToSpaceIdChanged(id) => none && new == (Constellations {
            rooms: Rooms { invite_to_space_id: id, ..old.rooms },
            ..old
        }),
        Message::InviteToSpace => unchanged && effects == if old.session.engine_ready && old.rooms.selected_space is Some {
            seq![
                Effect::InviteUser {
                    room_id: old.rooms.selected_space.unwrap(),
                    user_id: old.rooms.invite_to_space_id,
                },
            ]
        } else {
            Seq::empty()
        },
        Message::SpaceUserInvited(res) => user_invited_post(old, new, true, res, effects),
        Message::ToggleInviteToRoom => toggle_invite_to_room_post(old, new, effects),
        Message::InviteToRoomIdChanged(id) => none && new == (Constellations {
            rooms: Rooms { invite_to_room_id: id, ..old.rooms },
            ..old
        }),
        Message::InviteToRoom => unchanged && effects == in_room(
            old,
            Effect::InviteUser { room_id: old.rooms.selected_room.unwrap(), user_id: old.rooms.invite_to_room_id },
        ),
        Message::RoomUserInvited(res) => user_invited_post(old, new, false, res, effects),
        Message::DismissError => dismiss_error_post(old, new, effects),
        Message::LoginHomeserverChanged(h) => none && new == (Constellations {
            session: Session { login_homeserver: h, ..old.session },
            ..old
        }),
        Message::LoginUsernameChanged(u) => none && new == (Constellations {
            session: Session { login_username: u, ..old.session },
            ..old
        }),
        Message::LoginPasswordChanged(p) => none && new == (Constellations {
            session: Session { login_password: p, ..old.session },
            ..old
        }),
        Message::SubmitLogin => submit_login_post(old, new, effects),
        Message::LoginFinished(res) => login_finished_post(old, new, res, effects),
        Message::ToggleLoginMode => toggle_login_mode_post(old, new, effects),
        Message::SubmitRegister => submit_register_post(old, new, effects),
        Message::RegisterFinished(res) => register_finished_post(old, new, res, effects),
        Message::SelectSpace(space) => select_space_post(old, new, space, effects),
        Message::SpaceChildrenFetched(space, res) => space_children_post(old, new, space, res, effects),
        Message::OpenThread(root) => open_thread_post(old, new, root, effects),
        Message::CloseThread => close_thread_post(old, new, effects),
        Message::StartReply(id) => start_reply_post(old, new, id, effects),
        Message::CancelReply => none && new == (Constellations {
            composer: Composer { replying_to: None, ..old.composer },
            ..old
        }),
        Message::StartEdit(id) => start_edit_post(old, new, id, effects),
        Message::CancelEdit => cancel_edit_post(old, new, effects),
        Message::RedactMessage(id) => redact_message_post(old, new, id, effects),
        Message::CopyMessageLink(id) => unchanged && effects == in_room(
            old,
            Effect::CopyEventLink { room_id: old.rooms.selected_room.unwrap(), event_id: id },
        ),
        Message::CopyRoomLink(room) => unchanged && effects == with_engine(old, Effect::CopyRoomLink(room)),
        Message::CopyToClipboard(res) => copy_to_clipboard_post(old, new, res, effects),
        Message::DmRoomResolved(res) => dm_room_resolved_post(old, new, res, effects),
        Message::MatrixThreadDiff(root, diff) => timeline_diff_post(old, new, diff, true, Some(root), effects),
        Message::MatrixThreadReset(root) => thread_reset_post(old, new, root, effects),
        Message::MatrixThreadInitFinished(root) => thread_init_finished_post(old, new, root, effects),
        Message::SpaceFilterUpdated => unchanged && effects == seq![Effect::UpdateFilteredRooms],
        Message::NoOp => unchanged && none,
        Message::SubmitOidcLogin => submit_oidc_login_post(old, new, effects),
        Message::CancelOidcLogin => none && new == (Constellations {
            session: Session { auth_flow: AuthFlow::Idle, ..old.session },
            ..old
        }),
        Message::OidcLoginStarted(res) => oidc_login_started_post(old, new, res, effects),
        Message::OidcCallback(url) => oidc_callback_post(old, new, url, effects),
        Message::OpenMatrixLink(raw) => open_link_post(old, new, raw, effects),
        Message::LinkParsed(raw, target) => link_parsed_post(old, new, raw, target, effects),
        Message::ToggleOpenLink => toggle_open_link_post(old, new, effects),
        Message::OpenLinkTextChanged(text) => open_link_text_changed_post(old, new, text, effects),
        Message::SubmitOpenLink(text) => submit_open_link_post(old, new, text, effects),
        Message::RoomAliasResolved(res) => alias_resolved_post(old, new, res, effects),
        Message::StartQrLogin => start_qr_login_post(old, new, effects),
        Message::CancelQrLogin => cancel_qr_login_post(old, new, effects),
        Message::QrLoginProgress(progress) => qr_login_progress_post(old, new, progress, effects),
        Message::QrCheckCodeChanged(code) => qr_check_code_changed_post(old, new, code, effects),
        Message::SubmitQrCheckCode => submit_qr_check_code_post(old, new, effects),
        Message::JoinRoom(room) => unchanged && effects == with_engine(old, Effect::JoinRoom(room)),
        Message::RoomJoined(res) => room_joined_post(old, new, res, effects),
        Message::Logout => logout_post(old, new, effects),
        Message::LogoutFinished => logout_finished_post(old, new, effects),
        Message::OpenSettings(panel) => open_settings_post(old, new, panel, effects),
        Message::CloseSettings => close_settings_post(old, new, effects),
        Message::ClearMediaCache => clear_media_cache_post(old, new, effects),
        Message::AppSettingChanged => app_setting_changed_post(old, new, effects),
        Message::ToggleMembersPanel => toggle_members_panel_post(old, new, effects),
        Message::MembersFetched(res) => members_fetched_post(old, new, res, effects),
        Message::TogglePinnedPanel => toggle_pinned_panel_post(old, new, effects),
        Message::PinnedEventsFetched(res) => pinned_events_fetched_post(old, new, res, effects),
        Message::UnpinMessage(event) => unpin_message_post(old, new, event, effects),
        Message::ToggleSearch => toggle_search_post(old, new, effects),
        Message::SearchQueryChanged(query) => search_query_changed_post(old, new, query, effects),
        Message::PublicSearchResults(generation, res) => public_results_post(old, new, generation, res, effects),
        Message::MessageSearchResults(generation, res) => message_results_post(old, new, generation, res, effects),
        Message::LoadMoreMessageSearch => load_more_message_search_post(old, new, effects),
        Message::MessageSearchMoreResults(res) => message_search_more_results_post(old, new, res, effects),
        Message::GlobalMessageSearchResults(generation, res) => global_results_post(old, new, generation, res, effects),
        Message::SetGlobalSearchScope(scope) => set_global_search_scope_post(old, new, scope, effects),
        Message::OpenRoomEvent { room_id, event_id } => open_room_event_post(old, new, room_id, event_id, effects),
        Message::SetPendingEventFocus(event) => none && new == (Constellations {
            links: Links { pending_event_focus: Some(event), ..old.links },
            ..old
        }),
        Message::NewRoomIsVideoChanged(is_video) => none && new == (Constellations {
            rooms: Rooms { new_room_is_video: is_video, ..old.rooms },
            ..old
        }),
        Message::JumpToMessage(event) => jump_to_message_post(old, new, event, effects),
        Message::JumpToMessageOrLoadContext(event) => jump_or_load_post(old, new, event, effects),
        Message::LoadEventContext(event) => load_event_context_post(old, new, event, effects),
        Message::EventContextLoaded(event, res) => event_context_loaded_post(old, new, event, res, effects),
        Message::ReturnToLive => return_to_live_post(old, new, effects),
        Message::JoinCall => unchanged && effects == in_room(old, Effect::JoinCall(old.rooms.selected_room.unwrap())),
        Message::LeaveCall => unchanged && effects == in_room(old, Effect::LeaveCall(old.rooms.selected_room.unwrap())),
        Message::CallJoined(res) => outcome_post(old, new, "join the call"@, res, effects),
        Message::CallLeft(res) => outcome_post(old, new, "leave the call"@, res, effects),
        Message::OpenUrl(url) => unchanged && effects == seq![Effect::OpenInBrowser(url)],
        Message::AddAttachment => unchanged && effects == seq![Effect::PickAttachments],
        Message::OpenImage(url) => none && new == (Constellations {
            panels: Panels { fullscreen_image: Some(url), ..old.panels },
            ..old
        }),
        Message::CloseImage => none && new == (Constellations {
            panels: Panels { fullscreen_image: None, ..old.panels },
            ..old
        }),
        Message::SelectEmojiGroup(group) => none && new == (Constellations {
            composer: Composer { selected_emoji_group: group, ..old.composer },
            ..old
        }),
        Message::ShareLocation => unchanged && effects == seq![Effect::RequestLocation],
        Message::LocationRetrieved(res) => location_retrieved_post(old, new, res, effects),
    }
}

impl Constellations {
    /// Whether `message` can be handled now: a list change it carries fits
    /// the list it is for.
    pub fn can_handle(&self, message: &Message) -> (fits: bool)
        ensures
            fits == update_fits(*self, *message),
    {
        match message {
            Message::Matrix(MatrixEvent::RoomDiff(d)) => diff_fits(self.rooms.room_list.len(), d),
            Message::Matrix(MatrixEvent::TimelineDiff(d)) => diff_fits(self.timeline.timeline_items.len(), d),
            Message::MatrixThreadDiff(root, d) => {
                let open = match &self.timeline.active_thread_root {
                    Some(active) => *active == *root,
                    None => false,
                };
                !open || diff_fits(self.timeline.threaded_timeline_items.len(), d)
            },
            _ => true,
        }
    }

    /// Handles one message: the state changes as [`update_post`] says and
    /// the work to perform is returned.
    #[verifier::spinoff_prover]
    #[verifier::rlimit(80)]
    pub fn handle_update(&mut self, message: Message) -> (effects: Vec<Effect>)
        requires
            update_fits(*old(self), message),
        ensures
            update_post(*old(self), *final(self), message, effects@),
    {
        match message {
            Message::Matrix(event) => self.handle_matrix_event(event),
            Message::RoomSelected(room) => self.handle_room_selected(room),
            Message::EngineReady(res) => self.handle_engine_ready(res),
            Message::ComposerChanged(text) => self.handle_composer_changed(text),
            Message::TogglePreview => {
                self.composer.composer_is_preview = !self.composer.composer_is_preview;
                Vec::new()
            },
            Message::SendMessage => self.handle_send_message(),
            Message::MessageSent(res) => self.handle_message_sent(res),
            Message::MessageEdited(res) => self.handle_message_edited(res),
            Message::MessageRedacted(res) => self.handle_outcome("delete the message", res),
            Message::AttachmentsSelected(paths) => self.handle_attachments_selected(paths),
            Message::RemoveAttachment(index) => self.handle_remove_attachment(index),
            Message::AttachmentSent(path, res) => self.handle_attachment_sent(path, res),
            Message::ToggleReaction(item, key) => self.handle_toggle_reaction(item, key),
            Message::ReactionToggled(res) => self.handle_outcome("toggle the reaction", res),
            Message::OpenReactionPicker(item) => self.handle_open_reaction_picker(item),
            Message::EmojiSearchQueryChanged(query) => {
                self.composer.emoji_search_query = query;
                Vec::new()
            },
            Message::ToggleComposerEmojiPicker => self.handle_toggle_composer_emoji_picker(),
            Message::InsertEmoji(emoji) => self.handle_insert_emoji(emoji),
            Message::EmojiPickerSelected(emoji) => self.handle_emoji_picker_selected(emoji),
            Message::LoadMoreFinished(res) => self.handle_load_more_finished(res),
            Message::UserReady(user_id, res) => self.handle_user_ready(user_id, res),
            Message::FetchMedia(url) => self.handle_fetch_media(url),
            Message::MediaFetched(url, res) => self.handle_media_fetched(url, res),
            Message::MediaFetchedBatch(batch) => self.handle_media_fetched_batch(batch),
            Message::CreateRoom(name) => self.handle_create_room(name),
            Message::RoomCreated(res) => self.handle_room_created(res),
            Message::CreateSpace(name) => self.handle_create_space(name),
            Message::SpaceCreated(res) => self.handle_space_created(res),
            Message::NewRoomNameChanged(name) => {
                self.rooms.new_room_name = name;
                Vec::new()
            },
            Message::ToggleCreateRoom => self.handle_toggle_create(false),
            Message::ToggleCreateSpace => self.handle_toggle_create(true),
            Message::ToggleInviteToSpace => self.handle_toggle_invite_to_space(),
            Message::InviteToSpaceIdChanged(id) => {
                self.rooms.invite_to_space_id = id;
                Vec::new()
            },
            Message::InviteToSpace => self.handle_invite_to_space(),
            Message::SpaceUserInvited(res) => self.handle_user_invited(true, res),
            Message::ToggleInviteToRoom => self.handle_toggle_invite_to_room(),
            Message::InviteToRoomIdChanged(id) => {
                self.rooms.invite_to_room_id = id;
                Vec::new()
            },
            Message::InviteToRoom => self.handle_invite_to_room(),
            Message::RoomUserInvited(res) => self.handle_user_invited(false, res),
            Message::DismissError => self.handle_dismiss_error(),
            Message::LoginHomeserverChanged(h) => {
                self.session.login_homeserver = h;
                Vec::new()
            },
            Message::LoginUsernameChanged(u) => {
                self.session.login_username = u;
                Vec::new()
            },
            Message::LoginPasswordChanged(p) => {
                self.session.login_password = p;
                Vec::new()
            },
            Message::SubmitLogin => self.handle_submit_login(),
            Message::LoginFinished(res) => self.handle_login_finished(res),
            Message::ToggleLoginMode => self.handle_toggle_login_mode(),
            Message::SubmitRegister => self.handle_submit_register(),
            Message::RegisterFinished(res) => self.handle_register_finished(res),
            Message::SelectSpace(space) => self.handle_select_space(space),
            Message::SpaceChildrenFetched(space, res) => self.handle_space_children_fetched(space, res),
            Message::OpenThread(root) => self.handle_open_thread(root),
            Message::CloseThread => self.handle_close_thread(),
            Message::StartReply(id) => self.handle_start_reply(id),
            Message::CancelReply => {
                self.composer.replying_to = None;
                Vec::new()
            },
            Message::StartEdit(id) => self.handle_start_edit(id),
            Message::CancelEdit => self.handle_cancel_edit(),
            Message::RedactMessage(id) => self.handle_redact_message(id),
            Message::CopyMessageLink(id) => self.handle_copy_message_link(id),
            Message::CopyRoomLink(room) => self.with_engine_effects(Effect::CopyRoomLink(room)),
            Message::CopyToClipboard(res) => self.handle_copy_to_clipboard(res),
            Message::DmRoomResolved(res) => self.handle_dm_room_resolved(res),
            Message::MatrixThreadDiff(root, diff) => self.handle_timeline_diff(diff, true, Some(root)),
            Message::MatrixThreadReset(root) => self.handle_thread_reset(root),
            Message::MatrixThreadInitFinished(root) => self.handle_thread_init_finished(root),
            Message::SpaceFilterUpdated => single(Effect::UpdateFilteredRooms),
            Message::NoOp => Vec::new(),
            Message::SubmitOidcLogin => self.handle_submit_oidc_login(),
            Message::CancelOidcLogin => {
                self.session.auth_flow = AuthFlow::Idle;
                Vec::new()
            },
            Message::OidcLoginStarted(res) => self.handle_oidc_login_started(res),
            Message::OidcCallback(url) => self.handle_oidc_callback(url),
            Message::OpenMatrixLink(raw) => self.open_matrix_link(raw),
            Message::LinkParsed(raw, target) => self.handle_link_parsed(raw, target),
            Message::ToggleOpenLink => self.handle_toggle_open_link(),
            Message::OpenLinkTextChanged(text) => self.handle_open_link_text_changed(text),
            Message::SubmitOpenLink(text) => self.handle_submit_open_link(text),
            Message::RoomAliasResolved(res) => self.handle_room_alias_resolved(res),
            Message::StartQrLogin => self.handle_start_qr_login(),
            Message::CancelQrLogin => self.handle_cancel_qr_login(),
            Message::QrLoginProgress(progress) => self.handle_qr_login_progress(progress),
            Message::QrCheckCodeChanged(code) => self.handle_qr_check_code_changed(code),
            Message::SubmitQrCheckCode => self.handle_submit_qr_check_code(),
            Message::JoinRoom(room) => self.with_engine_effects(Effect::JoinRoom(room)),
            Message::RoomJoined(res) => self.handle_room_joined(res),
            Message::Logout => self.handle_logout(),
            Message::LogoutFinished => self.handle_logout_finished(),
            Message::OpenSettings(panel) => self.handle_open_settings(panel),
            Message::CloseSettings => self.handle_close_settings(),
            Message::ClearMediaCache => self.handle_clear_media_cache(),
            Message::AppSettingChanged => self.handle_app_setting_changed(),
            Message::ToggleMembersPanel => self.handle_toggle_members_panel(),
            Message::MembersFetched(res) => self.handle_members_fetched(res),
            Message::TogglePinnedPanel => self.handle_toggle_pinned_panel(),
            Message::PinnedEventsFetched(res) => self.handle_pinned_events_fetched(res),
            Message::UnpinMessage(event) => self.handle_unpin_message(event),
            Message::ToggleSearch => self.handle_toggle_search(),
            Message::SearchQueryChanged(query) => self.handle_search_query_changed(query),
            Message::PublicSearchResults(generation, res) => self.handle_public_search_results(generation, res),
            Message::MessageSearchResults(generation, res) => self.handle_message_search_results(generation, res),
            Message::LoadMoreMessageSearch => self.handle_load_more_message_search(),
            Message::MessageSearchMoreResults(res) => self.handle_message_search_more_results(res),
            Message::GlobalMessageSearchResults(generation, res) => self.handle_global_message_search_results(
                generation,
                res,
            ),
            Message::SetGlobalSearchScope(scope) => self.handle_set_global_search_scope(scope),
            Message::OpenRoomEvent { room_id, event_id } => self.handle_open_room_event(room_id, event_id),
            Message::SetPendingEventFocus(event) => {
                self.links.pending_event_focus = Some(event);
                Vec::new()
            },
            Message::NewRoomIsVideoChanged(is_video) => {
                self.rooms.new_room_is_video = is_video;
                Vec::new()
            },
            Message::JumpToMessage(event) => self.handle_jump_to_message(event),
            Message::JumpToMessageOrLoadContext(event) => self.handle_jump_or_load(event),
            Message::LoadEventContext(event) => self.handle_load_event_context(event),
            Message::EventContextLoaded(event, res) => self.handle_event_context_loaded(event, res),
            Message::ReturnToLive => self.handle_return_to_live(),
            Message::JoinCall => self.handle_join_call(),
            Message::LeaveCall => self.handle_leave_call(),
            Message::CallJoined(res) => self.handle_outcome("join the call", res),
            Message::CallLeft(res) => self.handle_outcome("leave the call", res),
            Message::OpenUrl(url) => single(Effect::OpenInBrowser(url)),
            Message::AddAttachment => self.handle_add_attachment(),
            Message::OpenImage(url) => {
                self.panels.fullscreen_image = Some(url);
                Vec::new()
            },
            Message::CloseImage => {
                self.panels.fullscreen_image = None;
                Vec::new()
            },
            Message::SelectEmojiGroup(group) => {
                self.composer.selected_emoji_group = group;
                Vec::new()
            },
            Message::ShareLocation => self.handle_share_location(),
            Message::LocationRetrieved(res) => self.handle_location_retrieved(res),
        }
    }
}

} // verus!
