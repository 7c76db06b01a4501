//! Matrix permalinks: opening them, the "Open link" dialog, resolving room
//! aliases, and showing an event that is not in the loaded timeline.
use crate::constellations::session::shows_error;
use crate::constellations::{
    failure_message, failure_text, message_not_found_text, sign_in_to_open_link_text, single,
    Constellations, Effect, Links, Message, PendingAliasOp, PermalinkTarget, Rooms, Panels, Session,
    Timeline,
};
use crate::matrix::TimelineEntry;
use crate::text::{starts_with, trim, trimmed};
use vstd::prelude::*;
use vstd::string::StringExecFns;

verus! {

/// Whether `s` is an absolute URL, as `url::Url::parse` decides it.
pub uninterp spec fn is_absolute_url(s: Seq<char>) -> bool;

/// Runs `url::Url::parse` on `s` and tells whether it succeeded.
#[verifier::external_body]
pub(crate) fn url_parses(s: &str) -> (ok: bool)
    ensures
        ok == is_absolute_url(s@),
{
    url::Url::parse(s).is_ok()
}

/// A timeline item is the event `id`.
pub open spec fn entry_is(e: TimelineEntry, id: Seq<char>) -> bool {
    e.event_id is Some && e.event_id.unwrap()@ == id
}

/// The timeline holds the event `id`.
pub open spec fn has_event(items: Seq<TimelineEntry>, id: Seq<char>) -> bool {
    exists|j: int| 0 <= j < items.len() && entry_is(#[trigger] items[j], id)
}

/// A room given in a permalink is a room alias (`#name:server`), not a room
/// id.
pub open spec fn is_alias(room: Seq<char>) -> bool {
    starts_with(room, "#"@)
}

/// The position of the first item of `items` that is the event `id`.
pub fn find_event(items: &Vec<TimelineEntry>, id: &String) -> (pos: Option<usize>)
    ensures
        match pos {
            Some(i) => i < items@.len() && entry_is(items@[i as int], id@) && forall|j: int|
                0 <= j < i ==> !entry_is(#[trigger] items@[j], id@),
            None => !has_event(items@, id@),
        },
{
    let n = items.len();
    let mut i: usize = 0;
    while i < n
        invariant
            0 <= i <= n,
            n == items@.len(),
            forall|j: int| 0 <= j < i ==> !entry_is(#[trigger] items@[j], id@),
        decreases n - i,
    {
        match &items[i].event_id {
            Some(e) => {
                if *e == *id {
                    return Some(i);
                }
            },
            None => {},
        }
        i = i + 1;
    }
    None
}

/// Whether the room given in a permalink is an alias.
fn room_is_alias(room: &String) -> (alias: bool)
    ensures
        alias == is_alias(room@),
{
    let chars = crate::text::chars_of(room.as_str());
    crate::text::str_starts_with(&chars, "#")
}

/// What a link that is no Matrix permalink leads to: a URL opens in the
/// browser, anything else is dropped.
pub fn handle_unrecognised_link(raw: String, is_url: bool) -> (effects: Vec<Effect>)
    ensures
        effects@ == if is_url {
            seq![Effect::Dispatch(Message::OpenUrl(raw))]
        } else {
            Seq::empty()
        },
{
    if is_url {
        single(Effect::Dispatch(Message::OpenUrl(raw)))
    } else {
        Vec::new()
    }
}

/// Where a permalink target leads (see `route_permalink_target`).
pub open spec fn route_post(
    old: Constellations,
    new: Constellations,
    target: PermalinkTarget,
    effects: Seq<Effect>,
) -> bool {
    let resolve = |alias: String|
        if old.session.engine_ready {
            seq![Effect::ResolveAlias(alias)]
        } else {
            Seq::empty()
        };
    match target {
        PermalinkTarget::Room { room } => new == old && effects == seq![
            Effect::Dispatch(Message::RoomSelected(room)),
        ],
        PermalinkTarget::RoomAlias { alias } => {
            &&& new == (Constellations {
                links: Links { pending_alias_op: Some(PendingAliasOp::OpenRoom), ..old.links },
                ..old
            })
            &&& effects == resolve(alias)
        },
        PermalinkTarget::User(user) => new == old && effects == if old.session.engine_ready {
            seq![Effect::OpenDirectMessage(user)]
        } else {
            Seq::empty()
        },
        PermalinkTarget::Event { room, event } => if is_alias(room@) {
            &&& new == (Constellations {
                links: Links { pending_alias_op: Some(PendingAliasOp::OpenEvent(event)), ..old.links },
                ..old
            })
            &&& effects == resolve(room)
        } else {
            &&& new == old
            &&& effects == seq![
                Effect::Dispatch(Message::RoomSelected(room)),
                Effect::Dispatch(Message::SetPendingEventFocus(event)),
            ]
        },
        PermalinkTarget::Join { room } => if is_alias(room@) {
            &&& new == (Constellations {
                links: Links { pending_alias_op: Some(PendingAliasOp::JoinRoom), ..old.links },
                ..old
            })
            &&& effects == resolve(room)
        } else {
            new == old && effects == seq![Effect::Dispatch(Message::JoinRoom(room))]
        },
    }
}

/// `open_matrix_link`: signed out, the link waits for sign-in and the user is
/// asked to sign in; else it goes to the permalink parser.
pub open spec fn open_link_post(old: Constellations, new: Constellations, raw: String, effects: Seq<Effect>) -> bool {
    if !old.session.engine_ready {
        &&& new == (Constellations {
            links: Links { pending_link: Some(raw), ..old.links },
            session: Session { error: new.session.error, ..old.session },
            ..old
        })
        &&& shows_error(new.session.error, sign_in_to_open_link_text())
        &&& effects.len() == 0
    } else {
        new == old && effects == seq![Effect::ParseLink(raw)]
    }
}

/// `handle_submit_open_link`: the dialog closes; a blank link is dropped,
/// else the trimmed link is opened.
pub open spec fn submit_open_link_post(old: Constellations, new: Constellations, text: String, effects: Seq<Effect>) -> bool {
    let closed = Constellations { links: Links { open_link_dialog: None, ..old.links }, ..old };
    if trim(text@).len() == 0 {
        new == closed && effects.len() == 0
    } else if !old.session.engine_ready {
        &&& new == (Constellations {
            links: Links { open_link_dialog: None, pending_link: new.links.pending_link, ..old.links },
            session: Session { error: new.session.error, ..old.session },
            ..old
        })
        &&& new.links.pending_link is Some && new.links.pending_link.unwrap()@ == trim(text@)
        &&& shows_error(new.session.error, sign_in_to_open_link_text())
        &&& effects.len() == 0
    } else {
        &&& new == closed
        &&& effects.len() == 1
        &&& (effects[0] matches Effect::ParseLink(link) && link@ == trim(text@))
    }
}

/// `check_pending_event_focus`: a pending event is consumed; it is jumped to
/// when loaded, else its context is loaded.
pub open spec fn pending_focus_post(old: Constellations, new: Constellations, effects: Seq<Effect>) -> bool {
    match old.links.pending_event_focus {
        None => new == old && effects.len() == 0,
        Some(event) => {
            &&& new == (Constellations { links: Links { pending_event_focus: None, ..old.links }, ..old })
            &&& effects == if has_event(old.timeline.timeline_items@, event@) {
                seq![Effect::Dispatch(Message::JumpToMessage(event))]
            } else {
                seq![Effect::Dispatch(Message::LoadEventContext(event))]
            }
        },
    }
}

/// `handle_load_event_context`: in a selected room with the engine up, the
/// timeline is emptied and rebuilt around the event; otherwise the event
/// cannot be found.
pub open spec fn load_event_context_post(
    old: Constellations,
    new: Constellations,
    event: String,
    effects: Seq<Effect>,
) -> bool {
    if old.session.engine_ready && old.rooms.selected_room is Some {
        &&& new == (Constellations {
            links: Links { active_event_focus: Some(event), ..old.links },
            timeline: Timeline {
                is_timeline_initialized: false,
                timeline_items: new.timeline.timeline_items,
                ..old.timeline
            },
            ..old
        })
        &&& new.timeline.timeline_items@.len() == 0
        &&& effects == seq![
            Effect::ResetScrollMetrics { thread: false, offset: false, width: false },
            Effect::BuildEventTimeline { room_id: old.rooms.selected_room.unwrap(), event_id: event },
        ]
    } else {
        &&& new == (Constellations { session: Session { error: new.session.error, ..old.session }, ..old })
        &&& shows_error(new.session.error, message_not_found_text())
        &&& effects.len() == 0
    }
}

/// `handle_return_to_live`: the event-focused timeline is dropped and the
/// live one reloads at its newest messages.
pub open spec fn return_to_live_post(old: Constellations, new: Constellations, effects: Seq<Effect>) -> bool {
    let drop = if old.session.engine_ready && old.rooms.selected_room is Some && old.links.active_event_focus is Some {
        seq![
            Effect::DropEventTimeline {
                room_id: old.rooms.selected_room.unwrap(),
                event_id: old.links.active_event_focus.unwrap(),
            },
        ]
    } else {
        Seq::empty()
    };
    &&& new == (Constellations {
        links: Links { active_event_focus: None, ..old.links },
        timeline: Timeline {
            timeline_items: new.timeline.timeline_items,
            is_timeline_initialized: false,
            is_timeline_at_bottom: true,
            needs_initial_scroll: true,
            ..old.timeline
        },
        ..old
    })
    &&& new.timeline.timeline_items@.len() == 0
    &&& effects == drop + seq![Effect::ResetScrollMetrics { thread: false, offset: false, width: false }]
}

/// `handle_room_alias_resolved`: the operation that waited for the alias is
/// carried out on the room, or the failure is shown.
pub open spec fn alias_resolved_post(
    old: Constellations,
    new: Constellations,
    res: Result<String, String>,
    effects: Seq<Effect>,
) -> bool {
    let cleared = Constellations { links: Links { pending_alias_op: None, ..old.links }, ..old };
    match res {
        Ok(room) => match old.links.pending_alias_op {
            Some(PendingAliasOp::OpenRoom) => new == cleared && effects == seq![
                Effect::Dispatch(Message::RoomSelected(room)),
            ],
            Some(PendingAliasOp::JoinRoom) => new == cleared && effects == seq![
                Effect::Dispatch(Message::JoinRoom(room)),
            ],
            Some(PendingAliasOp::OpenEvent(event)) => new == cleared && effects == seq![
                Effect::Dispatch(Message::RoomSelected(room)),
                Effect::Dispatch(Message::SetPendingEventFocus(event)),
            ],
            None => new == cleared && effects.len() == 0,
        },
        Err(e) => {
            &&& new == (Constellations {
                links: Links { pending_alias_op: None, ..old.links },
                session: Session { error: new.session.error, ..old.session },
                ..old
            })
            &&& shows_error(new.session.error, failure_text("join the room"@, e@))
            &&& effects.len() == 0
        },
    }
}

/// The permalink parser read `raw` as `target` (`None`: no permalink).
pub open spec fn link_parsed_post(old: Constellations, new: Constellations, raw: String, target: Option<PermalinkTarget>, effects: Seq<Effect>) -> bool {
    &&& match target {
            Some(t) => route_post(old, new, t, effects),
            None => new == old && effects == if is_absolute_url(raw@) {
                seq![Effect::Dispatch(Message::OpenUrl(raw))]
            } else {
                Seq::empty()
            },
        }
}

/// Opens or closes the "Open link" dialog; signed out, asks to sign in
/// instead.
pub open spec fn toggle_open_link_post(old: Constellations, new: Constellations, effects: Seq<Effect>) -> bool {
    &&& effects.len() == 0
    &&& if !old.session.engine_ready {
            &&& new == (Constellations {
                session: Session { error: new.session.error, ..old.session },
                ..old
            })
            &&& shows_error(new.session.error, sign_in_to_open_link_text())
        } else {
            let now_open = old.links.open_link_dialog is None;
            &&& new == (Constellations {
                links: Links { open_link_dialog: new.links.open_link_dialog, ..old.links },
                rooms: Rooms { creating_room: false, creating_space: false, ..old.rooms },
                panels: Panels { current_settings_panel: None, show_context: now_open, ..old.panels },
                ..old
            })
            &&& if now_open {
                new.links.open_link_dialog is Some && new.links.open_link_dialog.unwrap()@.len()
                    == 0
            } else {
                new.links.open_link_dialog is None
            }
        }
}

/// The dialog's text changed; a closed dialog stays closed.
pub open spec fn open_link_text_changed_post(old: Constellations, new: Constellations, text: String, effects: Seq<Effect>) -> bool {
    &&& effects.len() == 0
    &&& new == if old.links.open_link_dialog is Some {
            Constellations { links: Links { open_link_dialog: Some(text), ..old.links }, ..old }
        } else {
            old
        }
}

/// Opens a room (when another one is selected) and focuses one of its
/// events.
pub open spec fn open_room_event_post(old: Constellations, new: Constellations, room_id: String, event_id: String, effects: Seq<Effect>) -> bool {
    &&& new == old
    &&& effects == if old.rooms.selected_room is Some && old.rooms.selected_room.unwrap()@
            == room_id@ {
            seq![Effect::Dispatch(Message::JumpToMessageOrLoadContext(event_id))]
        } else {
            seq![
                Effect::Dispatch(Message::RoomSelected(room_id)),
                Effect::Dispatch(Message::SetPendingEventFocus(event_id)),
            ]
        }
}

/// Scrolls to a loaded event.
pub open spec fn jump_to_message_post(old: Constellations, new: Constellations, event: String, effects: Seq<Effect>) -> bool {
    &&& new == old
    &&& if has_event(old.timeline.timeline_items@, event@) {
            &&& effects.len() == 1
            &&& (effects[0] matches Effect::ScrollToItem { index, total } && total
                == old.timeline.timeline_items@.len() && index < total && entry_is(
                old.timeline.timeline_items@[index as int],
                event@,
            ) && forall|j: int| 0 <= j < index ==> !entry_is(#[trigger] old.timeline.timeline_items@[j], event@))
        } else {
            effects.len() == 0
        }
}

/// Scrolls to an event when it is loaded, else rebuilds the timeline
/// around it.
pub open spec fn jump_or_load_post(old: Constellations, new: Constellations, event: String, effects: Seq<Effect>) -> bool {
    &&& new == old
    &&& effects == if has_event(old.timeline.timeline_items@, event@) {
            seq![Effect::Dispatch(Message::JumpToMessage(event))]
        } else {
            seq![Effect::Dispatch(Message::LoadEventContext(event))]
        }
}

/// The event-focused timeline was built, or could not be.
pub open spec fn event_context_loaded_post(old: Constellations, new: Constellations, event: String, res: Result<(), String>, effects: Seq<Effect>) -> bool {
    &&& match res {
            Ok(()) => new == old && effects == seq![
                Effect::Dispatch(Message::JumpToMessage(event)),
            ],
            Err(_) => {
                &&& new == (Constellations {
                    links: Links { active_event_focus: None, ..old.links },
                    session: Session { error: new.session.error, ..old.session },
                    ..old
                })
                &&& shows_error(new.session.error, message_not_found_text())
                &&& effects.len() == 0
            },
        }
}

impl Constellations {
    /// Asks for the room an alias names; the answer comes as
    /// `RoomAliasResolved`.
    fn kick_off_alias_resolution(&self, alias: String) -> (effects: Vec<Effect>)
        ensures
            effects@ == if self.session.engine_ready {
                seq![Effect::ResolveAlias(alias)]
            } else {
                Seq::empty()
            },
    {
        if self.session.engine_ready {
            single(Effect::ResolveAlias(alias))
        } else {
            Vec::new()
        }
    }

    /// Opens a Matrix link.
    pub fn open_matrix_link(&mut self, raw: String) -> (effects: Vec<Effect>)
        ensures
            open_link_post(*old(self), *final(self), raw, effects@),
    {
        if !self.session.engine_ready {
            self.links.pending_link = Some(raw);
            self.session.error = Some(String::from_str("Sign in to open Matrix links"));
            return Vec::new();
        }
        single(Effect::ParseLink(raw))
    }

    /// The permalink parser read `raw` as `target` (`None`: no permalink).
    pub fn handle_link_parsed(&mut self, raw: String, target: Option<PermalinkTarget>) -> (effects: Vec<Effect>)
        ensures
            link_parsed_post(*old(self), *final(self), raw, target, effects@),
    {
        match target {
            Some(t) => self.route_permalink_target(t),
            None => {
                let is_url = url_parses(raw.as_str());
                handle_unrecognised_link(raw, is_url)
            },
        }
    }

    /// Opens or closes the "Open link" dialog; signed out, asks to sign in
    /// instead.
    pub fn handle_toggle_open_link(&mut self) -> (effects: Vec<Effect>)
        ensures
            toggle_open_link_post(*old(self), *final(self), effects@),
    {
        if !self.session.engine_ready {
            self.session.error = Some(String::from_str("Sign in to open Matrix links"));
            return Vec::new();
        }
        let now_open = self.links.open_link_dialog.is_none();
        self.links.open_link_dialog = if now_open {
            Some(String::new())
        } else {
            None
        };
        self.rooms.creating_room = false;
        self.rooms.creating_space = false;
        self.panels.current_settings_panel = None;
        self.panels.show_context = now_open;
        Vec::new()
    }

    /// The dialog's text changed; a closed dialog stays closed.
    pub fn handle_open_link_text_changed(&mut self, text: String) -> (effects: Vec<Effect>)
        ensures
            open_link_text_changed_post(*old(self), *final(self), text, effects@),
    {
        if self.links.open_link_dialog.is_some() {
            self.links.open_link_dialog = Some(text);
        }
        Vec::new()
    }

    /// Submits the dialog.
    pub fn handle_submit_open_link(&mut self, text: String) -> (effects: Vec<Effect>)
        ensures
            submit_open_link_post(*old(self), *final(self), text, effects@),
    {
        self.links.open_link_dialog = None;
        let link = trimmed(text.as_str());
        if link.as_str().is_empty() {
            return Vec::new();
        }
        self.open_matrix_link(link)
    }

    /// Carries out what a permalink asks for.
    fn route_permalink_target(&mut self, target: PermalinkTarget) -> (effects: Vec<Effect>)
        ensures
            route_post(*old(self), *final(self), target, effects@),
    {
        match target {
            PermalinkTarget::Room { room } => single(Effect::Dispatch(Message::RoomSelected(room))),
            PermalinkTarget::RoomAlias { alias } => {
                self.links.pending_alias_op = Some(PendingAliasOp::OpenRoom);
                self.kick_off_alias_resolution(alias)
            },
            PermalinkTarget::User(user) => {
                if self.session.engine_ready {
                    single(Effect::OpenDirectMessage(user))
                } else {
                    Vec::new()
                }
            },
            PermalinkTarget::Event { room, event } => {
                if room_is_alias(&room) {
                    self.links.pending_alias_op = Some(PendingAliasOp::OpenEvent(event));
                    return self.kick_off_alias_resolution(room);
                }
                let ghost r = room;
                let ghost ev = event;
                let mut effects = single(Effect::Dispatch(Message::RoomSelected(room)));
                effects.push(Effect::Dispatch(Message::SetPendingEventFocus(event)));
                assert(effects@ =~= seq![
                    Effect::Dispatch(Message::RoomSelected(r)),
                    Effect::Dispatch(Message::SetPendingEventFocus(ev)),
                ]);
                effects
            },
            PermalinkTarget::Join { room } => {
                if room_is_alias(&room) {
                    self.links.pending_alias_op = Some(PendingAliasOp::JoinRoom);
                    return self.kick_off_alias_resolution(room);
                }
                single(Effect::Dispatch(Message::JoinRoom(room)))
            },
        }
    }

    /// Consumes a pending event focus once the room's timeline is ready.
    pub fn check_pending_event_focus(&mut self) -> (effects: Vec<Effect>)
        ensures
            pending_focus_post(*old(self), *final(self), effects@),
    {
        let pending = self.links.pending_event_focus.take();
        match pending {
            None => Vec::new(),
            Some(event) => {
                let found = find_event(&self.timeline.timeline_items, &event);
                if found.is_some() {
                    single(Effect::Dispatch(Message::JumpToMessage(event)))
                } else {
                    single(Effect::Dispatch(Message::LoadEventContext(event)))
                }
            },
        }
    }

    /// Rebuilds the timeline around an event that is not loaded.
    pub fn handle_load_event_context(&mut self, event: String) -> (effects: Vec<Effect>)
        ensures
            load_event_context_post(*old(self), *final(self), event, effects@),
    {
        if !self.session.engine_ready || self.rooms.selected_room.is_none() {
            self.session.error = Some(String::from_str("Message not found"));
            return Vec::new();
        }
        let room_id = match &self.rooms.selected_room {
            Some(r) => r.clone(),
            None => String::new(),
        };
        self.links.active_event_focus = Some(event.clone());
        self.timeline.is_timeline_initialized = false;
        self.timeline.timeline_items.clear();
        let mut effects = single(Effect::ResetScrollMetrics { thread: false, offset: false, width: false });
        effects.push(Effect::BuildEventTimeline { room_id, event_id: event });
        assert(effects@ =~= seq![
            Effect::ResetScrollMetrics { thread: false, offset: false, width: false },
            Effect::BuildEventTimeline { room_id: old(self).rooms.selected_room.unwrap(), event_id: event },
        ]);
        effects
    }

    /// Opens a room (when another one is selected) and focuses one of its
    /// events.
    pub fn handle_open_room_event(&mut self, room_id: String, event_id: String) -> (effects: Vec<Effect>)
        ensures
            open_room_event_post(*old(self), *final(self), room_id, event_id, effects@),
    {
        let same = match &self.rooms.selected_room {
            Some(r) => *r == room_id,
            None => false,
        };
        if same {
            return single(Effect::Dispatch(Message::JumpToMessageOrLoadContext(event_id)));
        }
        let mut effects = single(Effect::Dispatch(Message::RoomSelected(room_id)));
        effects.push(Effect::Dispatch(Message::SetPendingEventFocus(event_id)));
        assert(effects@ =~= seq![
            Effect::Dispatch(Message::RoomSelected(room_id)),
            Effect::Dispatch(Message::SetPendingEventFocus(event_id)),
        ]);
        effects
    }

    /// The event-focused timeline was built, or could not be.
    pub fn handle_event_context_loaded(&mut self, event: String, res: Result<(), String>) -> (effects: Vec<Effect>)
        ensures
            event_context_loaded_post(*old(self), *final(self), event, res, effects@),
    {
        match res {
            Ok(()) => single(Effect::Dispatch(Message::JumpToMessage(event))),
            Err(_) => {
                self.links.active_event_focus = None;
                self.session.error = Some(String::from_str("Message not found"));
                Vec::new()
            },
        }
    }

    /// Leaves the event-focused timeline for the live one.
    pub fn handle_return_to_live(&mut self) -> (effects: Vec<Effect>)
        ensures
            return_to_live_post(*old(self), *final(self), effects@),
    {
        let mut effects: Vec<Effect> = Vec::new();
        if self.session.engine_ready {
            match (&self.rooms.selected_room, &self.links.active_event_focus) {
                (Some(room), Some(event)) => {
                    effects.push(Effect::DropEventTimeline { room_id: room.clone(), event_id: event.clone() });
                },
                _ => {},
            }
        }
        self.links.active_event_focus = None;
        self.timeline.timeline_items.clear();
        self.timeline.is_timeline_initialized = false;
        self.timeline.is_timeline_at_bottom = true;
        self.timeline.needs_initial_scroll = true;
        let ghost before = effects@;
        effects.push(Effect::ResetScrollMetrics { thread: false, offset: false, width: false });
        assert(effects@ =~= before + seq![Effect::ResetScrollMetrics { thread: false, offset: false, width: false }]);
        effects
    }

    /// An alias was resolved (or not).
    pub fn handle_room_alias_resolved(&mut self, res: Result<String, String>) -> (effects: Vec<Effect>)
        ensures
            alias_resolved_post(*old(self), *final(self), res, effects@),
    {
        let op = self.links.pending_alias_op.take();
        match res {
            Ok(room) => match op {
                Some(PendingAliasOp::OpenRoom) => single(Effect::Dispatch(Message::RoomSelected(room))),
                Some(PendingAliasOp::JoinRoom) => single(Effect::Dispatch(Message::JoinRoom(room))),
                Some(PendingAliasOp::OpenEvent(event)) => {
                    let ghost r = room;
                    let ghost ev = event;
                    let mut effects = single(Effect::Dispatch(Message::RoomSelected(room)));
                    effects.push(Effect::Dispatch(Message::SetPendingEventFocus(event)));
                    assert(effects@ =~= seq![
                        Effect::Dispatch(Message::RoomSelected(r)),
                        Effect::Dispatch(Message::SetPendingEventFocus(ev)),
                    ]);
                    effects
                },
                None => Vec::new(),
            },
            Err(e) => {
                self.session.error = Some(failure_message("join the room", e.as_str()));
                Vec::new()
            },
        }
    }

    /// Scrolls to a loaded event.
    pub fn handle_jump_to_message(&mut self, event: String) -> (effects: Vec<Effect>)
        ensures
            jump_to_message_post(*old(self), *final(self), event, effects@),
    {
        match find_event(&self.timeline.timeline_items, &event) {
            Some(i) => single(Effect::ScrollToItem { index: i, total: self.timeline.timeline_items.len() }),
            None => Vec::new(),
        }
    }

    /// Scrolls to an event when it is loaded, else rebuilds the timeline
    /// around it.
    pub fn handle_jump_or_load(&mut self, event: String) -> (effects: Vec<Effect>)
        ensures
            jump_or_load_post(*old(self), *final(self), event, effects@),
    {
        if find_event(&self.timeline.timeline_items, &event).is_some() {
            single(Effect::Dispatch(Message::JumpToMessage(event)))
        } else {
            single(Effect::Dispatch(Message::LoadEventContext(event)))
        }
    }
}

} // verus!
