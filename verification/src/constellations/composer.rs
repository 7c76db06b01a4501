//! The message composer: its text and preview, sending, replying, editing,
//! attachments, reactions and emoji.
use crate::constellations::permalinks::entry_is;
use crate::constellations::session::shows_error;
use crate::constellations::{
    failure_message, failure_text, single, Composer, Constellations, Effect, EmojiGroup, Session, Timeline,
};
use crate::matrix::TimelineEntry;
use crate::matrix::{cmark_html, markdown_to_html};
use crate::preview::{cmark_events, parse_markdown, preview_of, preview_views};
use vstd::prelude::*;
use vstd::string::StringExecFns;

verus! {

/// The typing notice a change of the composer sends: only with typing
/// notifications on, the engine up and a room selected.
pub open spec fn typing_notice(c: Constellations, typing: bool) -> Seq<Effect> {
    if c.prefs.send_typing_notifications && c.session.engine_ready && c.rooms.selected_room is Some {
        seq![Effect::TypingNotice { room_id: c.rooms.selected_room.unwrap(), typing }]
    } else {
        Seq::empty()
    }
}

/// The HTML body sent with `body`: its Markdown rendering when Markdown is
/// rendered, else none.
pub open spec fn html_body_is(c: Constellations, body: Seq<char>, html: Option<String>) -> bool {
    if c.prefs.render_markdown {
        html is Some && html.unwrap()@ == cmark_html(body)
    } else {
        html is None
    }
}

/// The composer after its text became `text`: the text and its preview.
pub open spec fn composer_shows(old: Composer, new: Composer, text: Seq<char>) -> bool {
    &&& new == (Composer {
        composer_text: new.composer_text,
        composer_preview_events: new.composer_preview_events,
        ..old
    })
    &&& new.composer_text@ == text
    &&& preview_views(new.composer_preview_events@) == preview_of(cmark_events(text), false)
}

/// The composer emptied after a message went: no text or preview, not
/// previewing, no reply or edit in progress.
pub open spec fn composer_cleared(old: Composer, new: Composer) -> bool {
    &&& new == (Composer {
        composer_text: new.composer_text,
        composer_preview_events: new.composer_preview_events,
        composer_is_preview: false,
        replying_to: None,
        editing_item: None,
        ..old
    })
    &&& new.composer_text@.len() == 0
    &&& new.composer_preview_events@.len() == 0
}

/// The message that sends `body`: a reply to the message replied to, else a
/// message of the open thread, else a plain message.
pub open spec fn send_effect_is(e: Effect, c: Constellations, room: String, body: String) -> bool {
    match c.composer.replying_to {
        Some(r) => e matches Effect::SendReply { room_id, reply_to, body: b, html } && room_id == room
            && reply_to == r && b == body && html_body_is(c, body@, html),
        None => match c.timeline.active_thread_root {
            Some(root) => e matches Effect::SendThreaded { room_id, root: t, body: b, html } && room_id
                == room && t == root && b == body && html_body_is(c, body@, html),
            None => e matches Effect::SendMessage { room_id, body: b, html } && room_id == room && b == body
                && html_body_is(c, body@, html),
        },
    }
}

/// One send per attachment, in order.
pub open spec fn attachment_sends(room: String, paths: Seq<String>) -> Seq<Effect> {
    paths.map_values(|p: String| Effect::SendAttachment { room_id: room, path: p })
}

/// `handle_send_message`: in a selected room with the engine up, an edit in
/// progress sends the edited text (unless it is empty); else the text (as a
/// reply, in the open thread, or plain) and every attachment are sent, the
/// timeline follows to the bottom, and an attachments-only send empties the
/// composer.
pub open spec fn send_message_post(old: Constellations, new: Constellations, effects: Seq<Effect>) -> bool {
    if !(old.session.engine_ready && old.rooms.selected_room is Some) {
        new == old && effects.len() == 0
    } else {
        let room = old.rooms.selected_room.unwrap();
        let body = old.composer.composer_text;
        match old.composer.editing_item {
            Some(item) => if body@.len() == 0 {
                new == old && effects.len() == 0
            } else {
                &&& new == old
                &&& effects.len() == 1
                &&& (effects[0] matches Effect::EditMessage { room_id, item: it, body: b, html } && room_id == room
                    && it == item && b == body && html_body_is(old, body@, html))
            },
            None => {
                let paths = old.composer.composer_attachments@;
                &&& new.composer.composer_attachments@.len() == 0
                &&& if body@.len() == 0 && paths.len() == 0 {
                    &&& new == (Constellations {
                        composer: Composer {
                            composer_attachments: new.composer.composer_attachments,
                            ..old.composer
                        },
                        ..old
                    })
                    &&& effects.len() == 0
                } else {
                    let in_thread = old.timeline.active_thread_root is Some;
                    &&& new == (Constellations {
                        composer: new.composer,
                        timeline: Timeline {
                            is_threaded_timeline_at_bottom: in_thread || old.timeline.is_threaded_timeline_at_bottom,
                            is_timeline_at_bottom: !in_thread || old.timeline.is_timeline_at_bottom,
                            ..old.timeline
                        },
                        ..old
                    })
                    &&& if body@.len() > 0 {
                        &&& new.composer == (Composer {
                            composer_attachments: new.composer.composer_attachments,
                            ..old.composer
                        })
                        &&& effects.len() == 1 + paths.len()
                        &&& send_effect_is(effects[0], old, room, body)
                        &&& effects.skip(1) == attachment_sends(room, paths)
                    } else {
                        &&& composer_cleared(
                            old.composer,
                            Composer { composer_attachments: old.composer.composer_attachments, ..new.composer },
                        )
                        &&& effects == attachment_sends(room, paths)
                    }
                }
            },
        }
    }
}

/// The first event of `items` that is `id`.
pub open spec fn first_event(items: Seq<TimelineEntry>, id: Seq<char>) -> Option<TimelineEntry>
    decreases items.len(),
{
    if items.len() == 0 {
        None
    } else if items[0].is_event && entry_is(items[0], id) {
        Some(items[0])
    } else {
        first_event(items.drop_first(), id)
    }
}

/// The attachment list after adding `paths`, skipping those already listed.
pub open spec fn with_new_paths(list: Seq<String>, paths: Seq<String>) -> Seq<String>
    decreases paths.len(),
{
    if paths.len() == 0 {
        list
    } else {
        let before = with_new_paths(list, paths.drop_last());
        if exists|i: int| 0 <= i < before.len() && (#[trigger] before[i])@ == paths.last()@ {
            before
        } else {
            before.push(paths.last())
        }
    }
}

/// The first event of `items` that is `id` (see [`first_event`]).
fn find_first_event(items: &Vec<TimelineEntry>, id: &String) -> (found: Option<TimelineEntry>)
    ensures
        found == first_event(items@, id@),
{
    let n = items.len();
    let mut i: usize = 0;
    assert(items@.skip(0) =~= items@);
    while i < n
        invariant
            0 <= i <= n,
            n == items@.len(),
            first_event(items@, id@) == first_event(items@.skip(i as int), id@),
        decreases n - i,
    {
        assert(items@.skip(i as int).drop_first() =~= items@.skip(i + 1));
        if items[i].is_event {
            match &items[i].event_id {
                Some(e) => {
                    if *e == *id {
                        return Some(items[i].duplicate());
                    }
                },
                None => {},
            }
        }
        i = i + 1;
    }
    None
}

/// The first event that is `id` in the main timeline, else in the thread.
fn find_in_timelines(t: &Timeline, id: &String) -> (found: Option<TimelineEntry>)
    ensures
        found == match first_event(t.timeline_items@, id@) {
            Some(e) => Some(e),
            None => first_event(t.threaded_timeline_items@, id@),
        },
{
    match find_first_event(&t.timeline_items, id) {
        Some(e) => Some(e),
        None => find_first_event(&t.threaded_timeline_items, id),
    }
}

/// Whether `list` holds a path equal to `p`.
fn lists_path(list: &Vec<String>, p: &String) -> (found: bool)
    ensures
        found == exists|i: int| 0 <= i < list@.len() && (#[trigger] list@[i])@ == p@,
{
    let n = list.len();
    let mut i: usize = 0;
    while i < n
        invariant
            0 <= i <= n,
            n == list@.len(),
            forall|j: int| 0 <= j < i ==> (#[trigger] list@[j])@ != p@,
        decreases n - i,
    {
        if list[i] == *p {
            return true;
        }
        i = i + 1;
    }
    false
}

/// One send per attachment (see [`attachment_sends`]).
fn send_attachments(room: &String, paths: Vec<String>) -> (effects: Vec<Effect>)
    ensures
        effects@ == attachment_sends(*room, paths@),
{
    let ghost all = paths@;
    let total = paths.len();
    let mut rest = paths;
    let mut effects: Vec<Effect> = Vec::new();
    let mut i: usize = 0;
    assert(all.skip(0) =~= all);
    while rest.len() > 0
        invariant
            0 <= i <= all.len(),
            all.len() == total,
            rest@ == all.skip(i as int),
            effects@ == attachment_sends(*room, all.take(i as int)),
        decreases rest.len(),
    {
        let p = rest.remove(0);
        effects.push(Effect::SendAttachment { room_id: room.clone(), path: p });
        proof {
            assert(rest@ =~= all.skip(i + 1));
            assert(effects@ =~= attachment_sends(*room, all.take(i + 1)));
        }
        i = i + 1;
    }
    assert(all.take(i as int) =~= all);
    effects
}

impl Composer {
    /// The composer shows `text` and its preview.
    fn show_text(&mut self, text: String)
        ensures
            composer_shows(*old(self), *final(self), text@),
    {
        let preview = parse_markdown(text.as_str(), false);
        self.composer_preview_events = preview;
        self.composer_text = text;
    }

    /// The composer empties after a message went.
    fn clear_after_send(&mut self)
        ensures
            composer_cleared(*old(self), *final(self)),
    {
        self.composer_text = String::new();
        self.composer_preview_events.clear();
        self.composer_is_preview = false;
        self.replying_to = None;
        self.editing_item = None;
    }

    /// Takes the attachments out of the composer.
    fn take_attachments(&mut self) -> (paths: Vec<String>)
        ensures
            paths@ == old(self).composer_attachments@,
            *final(self) == (Composer { composer_attachments: final(self).composer_attachments, ..*old(self) }),
            final(self).composer_attachments@.len() == 0,
    {
        let mut paths: Vec<String> = Vec::new();
        std::mem::swap(&mut paths, &mut self.composer_attachments);
        paths
    }

    /// Adds the paths that are not listed yet, in order.
    fn add_attachments(&mut self, paths: Vec<String>)
        ensures
            *final(self) == (Composer { composer_attachments: final(self).composer_attachments, ..*old(self) }),
            final(self).composer_attachments@ == with_new_paths(old(self).composer_attachments@, paths@),
    {
        let ghost all = paths@;
        let total = paths.len();
        let mut rest = paths;
        let mut i: usize = 0;
        assert(all.skip(0) =~= all);
        assert(all.take(0) =~= Seq::<String>::empty());
        while rest.len() > 0
            invariant
                0 <= i <= all.len(),
                all.len() == total,
                rest@ == all.skip(i as int),
                *self == (Composer { composer_attachments: self.composer_attachments, ..*old(self) }),
                self.composer_attachments@ == with_new_paths(old(self).composer_attachments@, all.take(i as int)),
            decreases rest.len(),
        {
            let p = rest.remove(0);
            proof {
                assert(all.take(i + 1).drop_last() =~= all.take(i as int));
                assert(all.take(i + 1).last() == p);
                assert(rest@ =~= all.skip(i + 1));
            }
            if !lists_path(&self.composer_attachments, &p) {
                self.composer_attachments.push(p);
            }
            i = i + 1;
        }
        assert(all.take(i as int) =~= all);
    }
}

/// The composer's text changed.
pub open spec fn composer_changed_post(old: Constellations, new: Constellations, text: String, effects: Seq<Effect>) -> bool {
    &&& new == (Constellations { composer: new.composer, ..old })
    &&& composer_shows(old.composer, new.composer, text@)
    &&& effects == typing_notice(old, text@.len() > 0)
}

/// Appends an emoji to the composer's text.
pub open spec fn insert_emoji_post(old: Constellations, new: Constellations, emoji: String, effects: Seq<Effect>) -> bool {
    &&& new == (Constellations { composer: new.composer, ..old })
    &&& composer_shows(old.composer, new.composer, old.composer.composer_text@ + emoji@)
    &&& effects == typing_notice(old, (old.composer.composer_text@ + emoji@).len() > 0)
}

/// Starts a reply to the event `id` (or ends one, when it is not loaded).
pub open spec fn start_reply_post(old: Constellations, new: Constellations, id: String, effects: Seq<Effect>) -> bool {
    &&& new == (Constellations {
            composer: Composer {
                replying_to: match first_event(old.timeline.timeline_items@, id@) {
                    Some(e) => Some(e),
                    None => first_event(old.timeline.threaded_timeline_items@, id@),
                },
                ..old.composer
            },
            ..old
        })
    &&& effects.len() == 0
}

/// Starts editing the message `id`: its body goes to the composer.
pub open spec fn start_edit_post(old: Constellations, new: Constellations, id: String, effects: Seq<Effect>) -> bool {
    &&& effects.len() == 0
    &&& ({
            let found = match first_event(old.timeline.timeline_items@, id@) {
                Some(e) => Some(e),
                None => first_event(old.timeline.threaded_timeline_items@, id@),
            };
            match found {
                Some(item) => match item.message_body {
                    Some(body) => {
                        &&& new == (Constellations { composer: new.composer, ..old })
                        &&& composer_shows(
                            old.composer,
                            Composer {
                                editing_item: old.composer.editing_item,
                                replying_to: old.composer.replying_to,
                                ..new.composer
                            },
                            body@,
                        )
                        &&& new.composer.editing_item == Some(item)
                        &&& new.composer.replying_to is None
                    },
                    None => new == old,
                },
                None => new == old,
            }
        })
}

/// Ends an edit and empties the composer.
pub open spec fn cancel_edit_post(old: Constellations, new: Constellations, effects: Seq<Effect>) -> bool {
    &&& new == (Constellations {
            composer: Composer {
                editing_item: None,
                composer_text: new.composer.composer_text,
                composer_preview_events: new.composer.composer_preview_events,
                ..old.composer
            },
            ..old
        })
    &&& new.composer.composer_text@.len() == 0
    &&& new.composer.composer_preview_events@.len() == 0
    &&& effects.len() == 0
}

/// Attachments were picked.
pub open spec fn attachments_selected_post(old: Constellations, new: Constellations, paths: Vec<String>, effects: Seq<Effect>) -> bool {
    &&& new == (Constellations { composer: new.composer, ..old })
    &&& new.composer == (Composer {
            composer_attachments: new.composer.composer_attachments,
            ..old.composer
        })
    &&& new.composer.composer_attachments@ == with_new_paths(old.composer.composer_attachments@, paths@)
    &&& effects.len() == 0
}

/// Removes the attachment at `index`, when there is one.
pub open spec fn remove_attachment_post(old: Constellations, new: Constellations, index: usize, effects: Seq<Effect>) -> bool {
    &&& new == (Constellations { composer: new.composer, ..old })
    &&& new.composer == (Composer {
            composer_attachments: new.composer.composer_attachments,
            ..old.composer
        })
    &&& new.composer.composer_attachments@ == if index < old.composer.composer_attachments@.len() {
            old.composer.composer_attachments@.remove(index as int)
        } else {
            old.composer.composer_attachments@
        }
    &&& effects.len() == 0
}

/// Opens the reaction picker for an event (or closes it).
pub open spec fn open_reaction_picker_post(old: Constellations, new: Constellations, item: Option<String>, effects: Seq<Effect>) -> bool {
    &&& new == (Constellations {
            composer: Composer {
                active_reaction_picker: item,
                is_composer_emoji_picker_active: item is None && old.composer.is_composer_emoji_picker_active,
                emoji_search_query: new.composer.emoji_search_query,
                selected_emoji_group: Some(EmojiGroup::SmileysAndEmotion),
                ..old.composer
            },
            ..old
        })
    &&& new.composer.emoji_search_query@.len() == 0
    &&& effects.len() == 0
}

/// Opens or closes the composer's emoji picker.
pub open spec fn toggle_composer_emoji_picker_post(old: Constellations, new: Constellations, effects: Seq<Effect>) -> bool {
    &&& ({
            let now = !old.composer.is_composer_emoji_picker_active;
            &&& new == (Constellations {
                composer: Composer {
                    is_composer_emoji_picker_active: now,
                    emoji_search_query: if now {
                        new.composer.emoji_search_query
                    } else {
                        old.composer.emoji_search_query
                    },
                    active_reaction_picker: if now {
                        None
                    } else {
                        old.composer.active_reaction_picker
                    },
                    selected_emoji_group: if now {
                        Some(EmojiGroup::SmileysAndEmotion)
                    } else {
                        old.composer.selected_emoji_group
                    },
                    ..old.composer
                },
                ..old
            })
            &&& now ==> new.composer.emoji_search_query@.len() == 0
        })
    &&& effects.len() == 0
}

/// Toggles a reaction on an event.
pub open spec fn toggle_reaction_post(old: Constellations, new: Constellations, item: String, key: String, effects: Seq<Effect>) -> bool {
    &&& new == (Constellations {
            composer: Composer { active_reaction_picker: None, ..old.composer },
            ..old
        })
    &&& effects == if old.session.engine_ready && old.rooms.selected_room is Some {
            seq![
                Effect::ToggleReaction { room_id: old.rooms.selected_room.unwrap(), item_id: item, key },
            ]
        } else {
            Seq::empty()
        }
}

/// An emoji was picked: it reacts to the event whose picker is open, or
/// goes into the composer.
pub open spec fn emoji_picker_selected_post(old: Constellations, new: Constellations, emoji: String, effects: Seq<Effect>) -> bool {
    &&& match old.composer.active_reaction_picker {
            Some(item) => {
                &&& new == (Constellations {
                    composer: Composer { active_reaction_picker: None, ..old.composer },
                    ..old
                })
                &&& effects == if old.session.engine_ready && old.rooms.selected_room is Some {
                    seq![
                        Effect::ToggleReaction {
                            room_id: old.rooms.selected_room.unwrap(),
                            item_id: item,
                            key: emoji,
                        },
                    ]
                } else {
                    Seq::empty()
                }
            },
            None => {
                &&& new == (Constellations { composer: new.composer, ..old })
                &&& composer_shows(old.composer, new.composer, old.composer.composer_text@ + emoji@)
                &&& effects == typing_notice(old, (old.composer.composer_text@ + emoji@).len() > 0)
            },
        }
}

/// Deletes (redacts) an event.
pub open spec fn redact_message_post(old: Constellations, new: Constellations, item: String, effects: Seq<Effect>) -> bool {
    &&& new == old
    &&& effects == if old.session.engine_ready && old.rooms.selected_room is Some {
            seq![Effect::Redact { room_id: old.rooms.selected_room.unwrap(), item_id: item }]
        } else {
            Seq::empty()
        }
}

/// A message was sent (or not).
pub open spec fn message_sent_post(old: Constellations, new: Constellations, res: Result<(), String>, effects: Seq<Effect>) -> bool {
    &&& effects.len() == 0
    &&& match res {
            Ok(()) => {
                &&& new == (Constellations { composer: new.composer, ..old })
                &&& composer_cleared(old.composer, new.composer)
            },
            Err(e) => {
                &&& new == (Constellations {
                    session: Session { error: new.session.error, ..old.session },
                    ..old
                })
                &&& shows_error(new.session.error, failure_text("send the message"@, e@))
            },
        }
}

/// An edit was sent (or not).
pub open spec fn message_edited_post(old: Constellations, new: Constellations, res: Result<(), String>, effects: Seq<Effect>) -> bool {
    &&& effects.len() == 0
    &&& match res {
            Ok(()) => {
                &&& new == (Constellations { composer: new.composer, ..old })
                &&& composer_cleared(
                    old.composer,
                    Composer { replying_to: None, ..new.composer },
                )
                &&& new.composer.replying_to == old.composer.replying_to
            },
            Err(e) => {
                &&& new == (Constellations {
                    session: Session { error: new.session.error, ..old.session },
                    ..old
                })
                &&& shows_error(new.session.error, failure_text("edit the message"@, e@))
            },
        }
}

impl Constellations {
    /// The typing notice for a change of the composer.
    fn typing_notice_effects(&self, typing: bool) -> (effects: Vec<Effect>)
        ensures
            effects@ == typing_notice(*self, typing),
    {
        if self.prefs.send_typing_notifications && self.session.engine_ready {
            match &self.rooms.selected_room {
                Some(r) => {
                    return single(Effect::TypingNotice { room_id: r.clone(), typing });
                },
                None => {},
            }
        }
        Vec::new()
    }

    /// The HTML body to send with `body`.
    fn html_for(&self, body: &String) -> (html: Option<String>)
        ensures
            html_body_is(*self, body@, html),
    {
        if self.prefs.render_markdown {
            Some(markdown_to_html(body.as_str()))
        } else {
            None
        }
    }

    /// The composer's text changed.
    pub fn handle_composer_changed(&mut self, text: String) -> (effects: Vec<Effect>)
        ensures
            composer_changed_post(*old(self), *final(self), text, effects@),
    {
        let effects = self.typing_notice_effects(!text.as_str().is_empty());
        self.composer.show_text(text);
        effects
    }

    /// Appends an emoji to the composer's text.
    pub fn handle_insert_emoji(&mut self, emoji: String) -> (effects: Vec<Effect>)
        ensures
            insert_emoji_post(*old(self), *final(self), emoji, effects@),
    {
        let text = self.composer.composer_text.clone().concat(emoji.as_str());
        self.handle_composer_changed(text)
    }

    /// Sends the composer's content.
    pub fn handle_send_message(&mut self) -> (effects: Vec<Effect>)
        ensures
            send_message_post(*old(self), *final(self), effects@),
    {
        if !self.session.engine_ready {
            return Vec::new();
        }
        let room = match &self.rooms.selected_room {
            Some(r) => r.clone(),
            None => {
                return Vec::new();
            },
        };
        let body = self.composer.composer_text.clone();
        match &self.composer.editing_item {
            Some(item) => {
                if body.as_str().is_empty() {
                    return Vec::new();
                }
                let html = self.html_for(&body);
                let edited = item.duplicate();
                return single(Effect::EditMessage { room_id: room, item: edited, body, html });
            },
            None => {},
        }
        self.send_new_message(room, body)
    }

    /// The effect that sends `body` (see [`send_effect_is`]).
    fn send_effect(&self, room: String, body: String) -> (e: Effect)
        ensures
            send_effect_is(e, *self, room, body),
    {
        let html = self.html_for(&body);
        match &self.composer.replying_to {
            Some(r) => Effect::SendReply { room_id: room, reply_to: r.duplicate(), body, html },
            None => match &self.timeline.active_thread_root {
                Some(root) => Effect::SendThreaded { room_id: room, root: root.clone(), body, html },
                None => Effect::SendMessage { room_id: room, body, html },
            },
        }
    }

    /// Sends a new message (no edit in progress).
    fn send_new_message(&mut self, room: String, body: String) -> (effects: Vec<Effect>)
        requires
            old(self).session.engine_ready,
            old(self).rooms.selected_room == Some(room),
            old(self).composer.composer_text == body,
            old(self).composer.editing_item is None,
        ensures
            send_message_post(*old(self), *final(self), effects@),
    {
        let paths = self.composer.take_attachments();
        if body.as_str().is_empty() && paths.len() == 0 {
            return Vec::new();
        }
        let mut effects: Vec<Effect> = Vec::new();
        if !body.as_str().is_empty() {
            effects.push(self.send_effect(room.clone(), body));
        } else {
            self.composer.clear_after_send();
        }
        let in_thread = self.timeline.active_thread_root.is_some();
        self.timeline.is_threaded_timeline_at_bottom = in_thread || self.timeline.is_threaded_timeline_at_bottom;
        self.timeline.is_timeline_at_bottom = !in_thread || self.timeline.is_timeline_at_bottom;
        let ghost head = effects@;
        let mut sends = send_attachments(&room, paths);
        let ghost tail = sends@;
        effects.append(&mut sends);
        assert(effects@.skip(head.len() as int) =~= tail);
        assert(effects@ =~= head + tail);
        effects
    }

    /// A message was sent (or not).
    pub fn handle_message_sent(&mut self, res: Result<(), String>) -> (effects: Vec<Effect>)
        ensures
            message_sent_post(*old(self), *final(self), res, effects@),
    {
        match res {
            Ok(()) => {
                self.composer.clear_after_send();
            },
            Err(e) => {
                self.session.error = Some(failure_message("send the message", e.as_str()));
            },
        }
        Vec::new()
    }

    /// An edit was sent (or not).
    pub fn handle_message_edited(&mut self, res: Result<(), String>) -> (effects: Vec<Effect>)
        ensures
            message_edited_post(*old(self), *final(self), res, effects@),
    {
        match res {
            Ok(()) => {
                self.composer.composer_text = String::new();
                self.composer.composer_preview_events.clear();
                self.composer.composer_is_preview = false;
                self.composer.editing_item = None;
            },
            Err(e) => {
                self.session.error = Some(failure_message("edit the message", e.as_str()));
            },
        }
        Vec::new()
    }

    /// Starts a reply to the event `id` (or ends one, when it is not loaded).
    pub fn handle_start_reply(&mut self, id: String) -> (effects: Vec<Effect>)
        ensures
            start_reply_post(*old(self), *final(self), id, effects@),
    {
        let found = find_in_timelines(&self.timeline, &id);
        self.composer.replying_to = found;
        Vec::new()
    }

    /// Starts editing the message `id`: its body goes to the composer.
    pub fn handle_start_edit(&mut self, id: String) -> (effects: Vec<Effect>)
        ensures
            start_edit_post(*old(self), *final(self), id, effects@),
    {
        let found = find_in_timelines(&self.timeline, &id);
        match found {
            Some(item) => match &item.message_body {
                Some(body) => {
                    let text = body.clone();
                    self.composer.show_text(text);
                    self.composer.editing_item = Some(item);
                    self.composer.replying_to = None;
                },
                None => {},
            },
            None => {},
        }
        Vec::new()
    }

    /// Ends an edit and empties the composer.
    pub fn handle_cancel_edit(&mut self) -> (effects: Vec<Effect>)
        ensures
            cancel_edit_post(*old(self), *final(self), effects@),
    {
        self.composer.editing_item = None;
        self.composer.composer_text = String::new();
        self.composer.composer_preview_events.clear();
        Vec::new()
    }

    /// Attachments were picked.
    pub fn handle_attachments_selected(&mut self, paths: Vec<String>) -> (effects: Vec<Effect>)
        ensures
            attachments_selected_post(*old(self), *final(self), paths, effects@),
    {
        self.composer.add_attachments(paths);
        Vec::new()
    }

    /// Removes the attachment at `index`, when there is one.
    pub fn handle_remove_attachment(&mut self, index: usize) -> (effects: Vec<Effect>)
        ensures
            remove_attachment_post(*old(self), *final(self), index, effects@),
    {
        if index < self.composer.composer_attachments.len() {
            let _removed = self.composer.composer_attachments.remove(index);
        }
        Vec::new()
    }

    /// Opens the reaction picker for an event (or closes it).
    pub fn handle_open_reaction_picker(&mut self, item: Option<String>) -> (effects: Vec<Effect>)
        ensures
            open_reaction_picker_post(*old(self), *final(self), item, effects@),
    {
        let closing = item.is_none();
        self.composer.active_reaction_picker = item;
        self.composer.is_composer_emoji_picker_active = closing && self.composer.is_composer_emoji_picker_active;
        self.composer.emoji_search_query = String::new();
        self.composer.selected_emoji_group = Some(EmojiGroup::SmileysAndEmotion);
        Vec::new()
    }

    /// Opens or closes the composer's emoji picker.
    pub fn handle_toggle_composer_emoji_picker(&mut self) -> (effects: Vec<Effect>)
        ensures
            toggle_composer_emoji_picker_post(*old(self), *final(self), effects@),
    {
        let now = !self.composer.is_composer_emoji_picker_active;
        self.composer.is_composer_emoji_picker_active = now;
        if now {
            self.composer.emoji_search_query = String::new();
            self.composer.selected_emoji_group = Some(EmojiGroup::SmileysAndEmotion);
            self.composer.active_reaction_picker = None;
        }
        Vec::new()
    }

    /// Toggles a reaction on an event.
    pub fn handle_toggle_reaction(&mut self, item: String, key: String) -> (effects: Vec<Effect>)
        ensures
            toggle_reaction_post(*old(self), *final(self), item, key, effects@),
    {
        self.composer.active_reaction_picker = None;
        if self.session.engine_ready {
            match &self.rooms.selected_room {
                Some(r) => {
                    return single(Effect::ToggleReaction { room_id: r.clone(), item_id: item, key });
                },
                None => {},
            }
        }
        Vec::new()
    }

    /// An emoji was picked: it reacts to the event whose picker is open, or
    /// goes into the composer.
    pub fn handle_emoji_picker_selected(&mut self, emoji: String) -> (effects: Vec<Effect>)
        ensures
            emoji_picker_selected_post(*old(self), *final(self), emoji, effects@),
    {
        match &self.composer.active_reaction_picker {
            Some(item) => {
                let target = item.clone();
                self.handle_toggle_reaction(target, emoji)
            },
            None => self.handle_insert_emoji(emoji),
        }
    }

    /// Deletes (redacts) an event.
    pub fn handle_redact_message(&mut self, item: String) -> (effects: Vec<Effect>)
        ensures
            redact_message_post(*old(self), *final(self), item, effects@),
    {
        if self.session.engine_ready {
            match &self.rooms.selected_room {
                Some(r) => {
                    return single(Effect::Redact { room_id: r.clone(), item_id: item });
                },
                None => {},
            }
        }
        Vec::new()
    }
}

} // verus!
