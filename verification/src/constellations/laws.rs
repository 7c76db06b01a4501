//! Properties of the update loop that span messages or hold of every state.
use crate::constellations::session::{ascii_digits, check_code_input, qr_homeserver};
use crate::constellations::timeline::thread_count;
use crate::constellations::timeline::{diff_media, timeline_diff_post};
use crate::constellations::timeline::{joined_after, names_after, room_ids};
use crate::constellations::update::{update_fits, update_post};
use crate::matrix::diff::{applied, diff_applicable, VectorDiff};
use crate::constellations::permalinks::is_alias;
use crate::constellations::{Constellations, Effect, Message, PermalinkTarget};
use crate::matrix::{MatrixEvent, RoomData, TimelineEntry};
use crate::text::{is_digit, starts_with};
use vstd::prelude::*;

verus! {

/// A room switch always leaves the event-focused view: no event focus is
/// pending or active afterwards, and the room is the selected one.
pub proof fn lemma_room_switch_clears_event_focus(
    old: Constellations,
    new: Constellations,
    room: String,
    effects: Seq<Effect>,
)
    requires
        update_post(old, new, Message::RoomSelected(room), effects),
    ensures
        new.links.pending_event_focus is None,
        new.links.active_event_focus is None,
        new.rooms.selected_room == Some(room),
        new.timeline.needs_initial_scroll,
{
}

/// Opening an event of another room selects the room and then sets the
/// focus: once both messages are handled, in that order, the room is
/// selected and the event waits to be shown.
pub proof fn lemma_focus_set_after_room_switch_survives(
    c0: Constellations,
    c1: Constellations,
    c2: Constellations,
    room: String,
    event: String,
    e1: Seq<Effect>,
    e2: Seq<Effect>,
)
    requires
        update_post(c0, c1, Message::RoomSelected(room), e1),
        update_post(c1, c2, Message::SetPendingEventFocus(event), e2),
    ensures
        c2.rooms.selected_room == Some(room),
        c2.links.pending_event_focus == Some(event),
{
}

/// A permalink to an event of a room given by id selects the room first and
/// sets the focus after, so that the event waits to be shown once the room's
/// timeline is loaded (see [`lemma_focus_set_after_room_switch_survives`]).
pub proof fn lemma_event_permalink_selects_then_focuses(
    old: Constellations,
    new: Constellations,
    raw: String,
    room: String,
    event: String,
    effects: Seq<Effect>,
)
    requires
        update_post(old, new, Message::LinkParsed(raw, Some(PermalinkTarget::Event { room, event })), effects),
        !is_alias(room@),
    ensures
        new == old,
        effects == seq![
            Effect::Dispatch(Message::RoomSelected(room)),
            Effect::Dispatch(Message::SetPendingEventFocus(event)),
        ],
{
}

/// Opening an event of the selected room does not switch rooms: nothing
/// changes and the event is jumped to (or loaded).
pub proof fn lemma_open_event_in_selected_room_stays(
    old: Constellations,
    new: Constellations,
    room: String,
    event: String,
    effects: Seq<Effect>,
)
    requires
        update_post(old, new, Message::OpenRoomEvent { room_id: room, event_id: event }, effects),
        old.rooms.selected_room is Some,
        old.rooms.selected_room.unwrap()@ == room@,
    ensures
        new == old,
        effects == seq![Effect::Dispatch(Message::JumpToMessageOrLoadContext(event))],
{
}

/// Submitting the "Open link" dialog always closes it, whatever was typed.
pub proof fn lemma_submit_open_link_closes_dialog(
    old: Constellations,
    new: Constellations,
    text: String,
    effects: Seq<Effect>,
)
    requires
        update_post(old, new, Message::SubmitOpenLink(text), effects),
    ensures
        new.links.open_link_dialog is None,
{
}

/// Toggling the members panel twice leaves it as it was, with no members
/// held.
pub proof fn lemma_members_panel_toggle_twice(
    c0: Constellations,
    c1: Constellations,
    c2: Constellations,
    e1: Seq<Effect>,
    e2: Seq<Effect>,
)
    requires
        update_post(c0, c1, Message::ToggleMembersPanel, e1),
        update_post(c1, c2, Message::ToggleMembersPanel, e2),
    ensures
        c2.panels.show_members_panel == c0.panels.show_members_panel,
        c2.panels.room_members@.len() == 0,
{
}

/// Toggling the pinned-messages panel twice leaves it as it was.
pub proof fn lemma_pinned_panel_toggle_twice(
    c0: Constellations,
    c1: Constellations,
    c2: Constellations,
    e1: Seq<Effect>,
    e2: Seq<Effect>,
)
    requires
        update_post(c0, c1, Message::TogglePinnedPanel, e1),
        update_post(c1, c2, Message::TogglePinnedPanel, e2),
    ensures
        c2.panels.show_pinned_panel == c0.panels.show_pinned_panel,
{
}

/// Signed in, toggling the "Open link" dialog twice closes it again when it
/// was closed.
pub proof fn lemma_open_link_toggle_twice(
    c0: Constellations,
    c1: Constellations,
    c2: Constellations,
    e1: Seq<Effect>,
    e2: Seq<Effect>,
)
    requires
        c0.session.engine_ready,
        c0.links.open_link_dialog is None,
        update_post(c0, c1, Message::ToggleOpenLink, e1),
        update_post(c1, c2, Message::ToggleOpenLink, e2),
    ensures
        c1.links.open_link_dialog is Some,
        c2.links.open_link_dialog is None,
{
}

/// Finishing the sign-out forgets the session: no user, no engine, no rooms,
/// no timeline, no error.
pub proof fn lemma_logout_forgets_session(old: Constellations, new: Constellations, effects: Seq<Effect>)
    requires
        update_post(old, new, Message::LogoutFinished, effects),
    ensures
        new.session.user_id is None,
        !new.session.engine_ready,
        new.rooms.room_list@.len() == 0,
        new.rooms.selected_room is None,
        new.rooms.joined_room_ids@.len() == 0,
        new.timeline.timeline_items@.len() == 0,
        new.session.error is None,
        new.session.login_password@.len() == 0,
{
}

/// Returning to the live timeline leaves the event-focused view and asks for
/// the newest messages.
pub proof fn lemma_return_to_live_leaves_focus(old: Constellations, new: Constellations, effects: Seq<Effect>)
    requires
        update_post(old, new, Message::ReturnToLive, effects),
    ensures
        new.links.active_event_focus is None,
        new.timeline.needs_initial_scroll,
        new.timeline.is_timeline_at_bottom,
        !new.timeline.is_timeline_initialized,
{
}

/// Dismissing the error removes it.
pub proof fn lemma_dismiss_error_clears_it(old: Constellations, new: Constellations, effects: Seq<Effect>)
    requires
        update_post(old, new, Message::DismissError, effects),
    ensures
        new.session.error is None,
{
}

proof fn lemma_ascii_digits_are_digits(s: Seq<char>)
    ensures
        forall|i: int| 0 <= i < ascii_digits(s).len() ==> is_digit(#[trigger] ascii_digits(s)[i]),
    decreases s.len(),
{
    if s.len() > 0 {
        lemma_ascii_digits_are_digits(s.drop_last());
        let before = ascii_digits(s.drop_last());
        assert forall|i: int| 0 <= i < ascii_digits(s).len() implies is_digit(#[trigger] ascii_digits(s)[i]) by {
            if is_digit(s.last()) {
                if i < before.len() {
                    assert(ascii_digits(s)[i] == before[i]);
                } else {
                    assert(ascii_digits(s)[i] == s.last());
                }
            } else {
                assert(ascii_digits(s)[i] == before[i]);
            }
        }
    }
}

/// The check-code field holds at most two characters, all ASCII digits.
pub proof fn lemma_check_code_is_two_digits(s: Seq<char>)
    ensures
        check_code_input(s).len() <= 2,
        forall|i: int| 0 <= i < check_code_input(s).len() ==> is_digit(#[trigger] check_code_input(s)[i]),
{
    lemma_ascii_digits_are_digits(s);
    let d = ascii_digits(s);
    if d.len() > 2 {
        assert forall|i: int| 0 <= i < check_code_input(s).len() implies is_digit(#[trigger] check_code_input(s)[i]) by {
            assert(check_code_input(s)[i] == d[i]);
        }
    }
}

/// The homeserver a QR sign-in starts against always names a scheme.
pub proof fn lemma_qr_homeserver_has_scheme(field: Seq<char>)
    ensures
        starts_with(qr_homeserver(field), "http://"@) || starts_with(qr_homeserver(field), "https://"@),
{
    let h = qr_homeserver(field);
    if !(starts_with(h, "http://"@) || starts_with(h, "https://"@)) {
        reveal_strlit("https://");
        reveal_strlit("https://matrix.org");
        reveal_strlit("http://");
        let t = crate::text::trim(field);
        let base = if t.len() == 0 {
            "https://matrix.org"@
        } else {
            t
        };
        if starts_with(base, "http://"@) || starts_with(base, "https://"@) {
        } else {
            assert(h == "https://"@ + base);
            assert(h.take(8) =~= "https://"@);
        }
    }
}

/// Timeline items that are no room events (day dividers, items still being
/// sent) are never counted as thread replies.
pub proof fn lemma_virtual_items_not_counted(items: Seq<TimelineEntry>, root: Seq<char>)
    requires
        forall|i: int| 0 <= i < items.len() ==> !(#[trigger] items[i]).is_event,
    ensures
        thread_count(items, root) == 0,
    decreases items.len(),
{
    if items.len() > 0 {
        lemma_virtual_items_not_counted(items.drop_last(), root);
    }
}

/// No two rooms of the list share an id.
pub open spec fn room_ids_distinct(rooms: Seq<RoomData>) -> bool {
    forall|i: int, j: int| 0 <= i < j < rooms.len() ==> (#[trigger] rooms[i]).id@ != (#[trigger] rooms[j]).id@
}

proof fn lemma_in_room_ids(rooms: Seq<RoomData>, i: int)
    requires
        0 <= i < rooms.len(),
    ensures
        room_ids(rooms).contains(rooms[i].id@),
{
}

/// While the joined rooms are the rooms of the room list (each listed once),
/// every change of the list but a reset keeps them so: rooms brought in are
/// joined, rooms taken out are left.
proof fn lemma_joined_after_matches(rooms: Seq<RoomData>, d: VectorDiff<RoomData>)
    requires
        room_ids_distinct(rooms),
        diff_applicable(rooms.len(), d),
        !(d is Reset),
    ensures
        joined_after(room_ids(rooms), rooms, d) == room_ids(applied(rooms, d)),
{
    let before = room_ids(rooms);
    let after = room_ids(applied(rooms, d));
    let got = joined_after(before, rooms, d);
    assert forall|x: Seq<char>| got.contains(x) <==> after.contains(x) by {
        let a = applied(rooms, d);
        if got.contains(x) {
            match d {
                VectorDiff::Insert { index, value } => {
                    if x == value.id@ {
                        assert(a[index as int] == value);
                    } else {
                        let k = choose|k: int| 0 <= k < rooms.len() && (#[trigger] rooms[k]).id@ == x;
                        if k < index {
                            assert(a[k] == rooms[k]);
                        } else {
                            assert(a[k + 1] == rooms[k]);
                        }
                    }
                },
                VectorDiff::PushBack { value } => {
                    if x == value.id@ {
                        assert(a[rooms.len() as int] == value);
                    } else {
                        let k = choose|k: int| 0 <= k < rooms.len() && (#[trigger] rooms[k]).id@ == x;
                        assert(a[k] == rooms[k]);
                    }
                },
                VectorDiff::PushFront { value } => {
                    if x == value.id@ {
                        assert(a[0] == value);
                    } else {
                        let k = choose|k: int| 0 <= k < rooms.len() && (#[trigger] rooms[k]).id@ == x;
                        assert(a[k + 1] == rooms[k]);
                    }
                },
                VectorDiff::Remove { index } => {
                    let k = choose|k: int| 0 <= k < rooms.len() && (#[trigger] rooms[k]).id@ == x;
                    assert(k != index);
                    if k < index {
                        assert(a[k] == rooms[k]);
                    } else {
                        assert(a[k - 1] == rooms[k]);
                    }
                },
                VectorDiff::Replace { index, value } => {
                    if x == value.id@ {
                        assert(a[index as int] == value);
                    } else {
                        let k = choose|k: int| 0 <= k < rooms.len() && (#[trigger] rooms[k]).id@ == x;
                        assert(k != index);
                        assert(a[k] == rooms[k]);
                    }
                },
                VectorDiff::PopBack => {
                    let k = choose|k: int| 0 <= k < rooms.len() && (#[trigger] rooms[k]).id@ == x;
                    assert(k != rooms.len() - 1);
                    assert(a[k] == rooms[k]);
                },
                VectorDiff::PopFront => {
                    let k = choose|k: int| 0 <= k < rooms.len() && (#[trigger] rooms[k]).id@ == x;
                    assert(k != 0);
                    assert(a[k - 1] == rooms[k]);
                },
                VectorDiff::Clear => {},
                VectorDiff::Append { values } => {
                    if before.contains(x) {
                        let k = choose|k: int| 0 <= k < rooms.len() && (#[trigger] rooms[k]).id@ == x;
                        assert(a[k] == rooms[k]);
                    } else {
                        let k = choose|k: int| 0 <= k < values@.len() && (#[trigger] values@[k]).id@ == x;
                        assert(a[rooms.len() + k] == values@[k]);
                    }
                },
                VectorDiff::Truncate { length } => {
                    let k = choose|k: int| 0 <= k < rooms.len() && (#[trigger] rooms[k]).id@ == x;
                    if k >= length {
                        assert(rooms.skip(length as int)[k - length] == rooms[k]);
                        assert(room_ids(rooms.skip(length as int)).contains(x));
                    }
                    assert(a[k] == rooms[k]);
                },
                VectorDiff::Reset { .. } => {},
            }
        }
        if after.contains(x) {
            let k = choose|k: int| 0 <= k < a.len() && (#[trigger] a[k]).id@ == x;
            match d {
                VectorDiff::Insert { index, value } => {
                    if k < index {
                        lemma_in_room_ids(rooms, k);
                    } else if k > index {
                        lemma_in_room_ids(rooms, k - 1);
                    }
                },
                VectorDiff::PushBack { value } => {
                    if k < rooms.len() {
                        lemma_in_room_ids(rooms, k);
                    }
                },
                VectorDiff::PushFront { value } => {
                    if k > 0 {
                        lemma_in_room_ids(rooms, k - 1);
                    }
                },
                VectorDiff::Remove { index } => {
                    let j = if k < index { k } else { k + 1 };
                    assert(a[k] == rooms[j]);
                    lemma_in_room_ids(rooms, j);
                    assert(rooms[j].id@ != rooms[index as int].id@);
                },
                VectorDiff::Replace { index, value } => {
                    if k != index {
                        assert(a[k] == rooms[k]);
                        lemma_in_room_ids(rooms, k);
                        assert(rooms[k].id@ != rooms[index as int].id@);
                    }
                },
                VectorDiff::PopBack => {
                    assert(a[k] == rooms[k]);
                    lemma_in_room_ids(rooms, k);
                    assert(rooms[k].id@ != rooms.last().id@);
                },
                VectorDiff::PopFront => {
                    assert(a[k] == rooms[k + 1]);
                    lemma_in_room_ids(rooms, k + 1);
                    assert(rooms[k + 1].id@ != rooms[0].id@);
                },
                VectorDiff::Clear => {},
                VectorDiff::Append { values } => {
                    if k < rooms.len() {
                        lemma_in_room_ids(rooms, k);
                    } else {
                        assert(a[k] == values@[k - rooms.len()]);
                        lemma_in_room_ids(values@, k - rooms.len());
                    }
                },
                VectorDiff::Truncate { length } => {
                    assert(a[k] == rooms[k]);
                    lemma_in_room_ids(rooms, k);
                    if room_ids(rooms.skip(length as int)).contains(x) {
                        let j = choose|j: int|
                            0 <= j < rooms.skip(length as int).len() && (#[trigger] rooms.skip(length as int)[j]).id@ == x;
                        assert(rooms.skip(length as int)[j] == rooms[length + j]);
                    }
                },
                VectorDiff::Reset { .. } => {},
            }
        }
    }
    assert(got =~= after);
}

/// The joined rooms follow the room list: when they are the rooms of the list
/// (each listed once) before a change of the list that is no reset, they are
/// the rooms of the list after it.  A reset adds the rooms it brings to the
/// joined ones and keeps the others.
pub proof fn lemma_joined_rooms_follow_room_list(
    old: Constellations,
    new: Constellations,
    d: VectorDiff<RoomData>,
    effects: Seq<Effect>,
)
    requires
        update_fits(old, Message::Matrix(MatrixEvent::RoomDiff(d))),
        update_post(old, new, Message::Matrix(MatrixEvent::RoomDiff(d)), effects),
        old.rooms.joined_room_ids@ == room_ids(old.rooms.room_list@),
        room_ids_distinct(old.rooms.room_list@),
    ensures
        !(d is Reset) ==> new.rooms.joined_room_ids@ == room_ids(new.rooms.room_list@),
        d matches VectorDiff::Reset { values } ==> new.rooms.joined_room_ids@ == old.rooms.joined_room_ids@ + room_ids(
            values@,
        ),
{
    if !(d is Reset) {
        lemma_joined_after_matches(old.rooms.room_list@, d);
    }
}

/// The name cache knows the name of every named room of the list (each
/// listed once).
pub proof fn lemma_names_cached(cache: Map<Seq<char>, String>, rooms: Seq<RoomData>)
    requires
        room_ids_distinct(rooms),
    ensures
        forall|i: int|
            0 <= i < rooms.len() && (#[trigger] rooms[i]).name is Some ==> names_after(cache, rooms).contains_key(
                rooms[i].id@,
            ) && names_after(cache, rooms)[rooms[i].id@] == rooms[i].name.unwrap(),
    decreases rooms.len(),
{
    if rooms.len() > 0 {
        let init = rooms.drop_last();
        assert(room_ids_distinct(init)) by {
            assert forall|i: int, j: int| 0 <= i < j < init.len() implies (#[trigger] init[i]).id@ != (#[trigger] init[j]).id@ by {
                assert(init[i] == rooms[i] && init[j] == rooms[j]);
            }
        }
        lemma_names_cached(cache, init);
        assert forall|i: int|
            0 <= i < rooms.len() && (#[trigger] rooms[i]).name is Some implies names_after(cache, rooms).contains_key(
                rooms[i].id@,
            ) && names_after(cache, rooms)[rooms[i].id@] == rooms[i].name.unwrap() by {
            if i < rooms.len() - 1 {
                assert(init[i] == rooms[i]);
                assert(rooms[i].id@ != rooms[rooms.len() - 1].id@);
            }
        }
    }
}


/// New messages at the end of the main timeline are followed: a change that
/// adds items after the last one (a push at the back, an append, an insert
/// at the end), handled while the timeline is at the bottom and no first
/// scroll is due, ends with a snap of the main timeline to its end.
pub proof fn lemma_main_timeline_follows_new_messages(
    old: Constellations,
    new: Constellations,
    diff: VectorDiff<TimelineEntry>,
    effects: Seq<Effect>,
)
    requires
        timeline_diff_post(old, new, diff, false, None, effects),
        diff is PushBack || diff is Append || (diff matches VectorDiff::Insert { index, .. }
            && index == old.timeline.timeline_items@.len()),
        old.timeline.is_timeline_at_bottom,
        !old.timeline.needs_initial_scroll || old.timeline.is_loading_more
            || !old.timeline.is_timeline_initialized,
    ensures
        effects.len() > 0,
        effects.last() == (Effect::SnapToEnd { thread: false }),
{
    let h: int = if diff_media(old, diff).len() > 0 { 1 } else { 0 };
    assert(effects.skip(h) =~= seq![Effect::SnapToEnd { thread: false }]);
    assert(effects.last() == effects.skip(h).last());
}

/// New messages at the end of the open thread are followed: a change for
/// that thread that adds items after its last one, handled while the thread
/// is at the bottom, ends with a snap of the thread to its end.
pub proof fn lemma_thread_follows_new_messages(
    old: Constellations,
    new: Constellations,
    diff: VectorDiff<TimelineEntry>,
    root_id: Option<String>,
    effects: Seq<Effect>,
)
    requires
        timeline_diff_post(old, new, diff, true, root_id, effects),
        old.timeline.active_thread_root is Some,
        root_id is Some,
        old.timeline.active_thread_root.unwrap()@ == root_id.unwrap()@,
        diff is PushBack || diff is Append || (diff matches VectorDiff::Insert { index, .. }
            && index == old.timeline.threaded_timeline_items@.len()),
        old.timeline.is_threaded_timeline_at_bottom,
    ensures
        effects.len() > 0,
        effects.last() == (Effect::SnapToEnd { thread: true }),
{
    let h: int = if diff_media(old, diff).len() > 0 { 1 } else { 0 };
    assert(effects.skip(h) =~= seq![Effect::SnapToEnd { thread: true }]);
    assert(effects.last() == effects.skip(h).last());
}


/// Sending from the composer (no edit in progress, a room selected, the
/// engine up) sends every selected attachment exactly once and in order:
/// after the message itself, when there is text, comes one attachment send
/// per selected path, the k-th carrying the k-th path, and nothing else.
pub proof fn lemma_send_sends_each_attachment(
    old: Constellations,
    new: Constellations,
    room: String,
    effects: Seq<Effect>,
)
    requires
        update_post(old, new, Message::SendMessage, effects),
        old.session.engine_ready,
        old.rooms.selected_room == Some(room),
        old.composer.editing_item is None,
    ensures
        ({
            let paths = old.composer.composer_attachments@;
            let k0: int = if old.composer.composer_text@.len() > 0 { 1 } else { 0 };
            &&& effects.len() == k0 + paths.len()
            &&& forall|k: int|
                0 <= k < paths.len() ==> #[trigger] effects[k0 + k] == (Effect::SendAttachment {
                    room_id: room,
                    path: paths[k],
                })
        }),
        new.composer.composer_attachments@.len() == 0,
{
    let paths = old.composer.composer_attachments@;
    let k0: int = if old.composer.composer_text@.len() > 0 { 1 } else { 0 };
    assert forall|k: int| 0 <= k < paths.len() implies #[trigger] effects[k0 + k] == (Effect::SendAttachment {
        room_id: room,
        path: paths[k],
    }) by {
        assert(effects.skip(k0)[k] == effects[k0 + k]);
    }
}


/// The messages that `effects` hand back to the update loop, in order.
pub open spec fn dispatched(effects: Seq<Effect>) -> Seq<Message>
    decreases effects.len(),
{
    if effects.len() == 0 {
        Seq::empty()
    } else {
        match effects[0] {
            Effect::Dispatch(m) => seq![m] + dispatched(effects.drop_first()),
            _ => dispatched(effects.drop_first()),
        }
    }
}

/// `states` is a run of the update loop over `msgs`: the i-th message takes
/// the i-th state to the next one, with the i-th effects.
pub open spec fn handles_in_order(states: Seq<Constellations>, msgs: Seq<Message>, effs: Seq<Seq<Effect>>) -> bool {
    &&& states.len() == msgs.len() + 1
    &&& effs.len() == msgs.len()
    &&& forall|i: int|
        0 <= i < msgs.len() ==> #[trigger] update_post(states[i], states[i + 1], msgs[i], effs[i])
}

/// An event permalink whose room is given by id ends with that room selected
/// and the event waiting to be focused, once the messages it dispatches are
/// handled in order.
pub proof fn lemma_event_permalink_by_id_focuses_event(
    c0: Constellations,
    c1: Constellations,
    raw: String,
    room: String,
    event: String,
    e1: Seq<Effect>,
    states: Seq<Constellations>,
    effs: Seq<Seq<Effect>>,
)
    requires
        update_post(c0, c1, Message::LinkParsed(raw, Some(PermalinkTarget::Event { room, event })), e1),
        !is_alias(room@),
        states.len() > 0,
        states[0] == c1,
        handles_in_order(states, dispatched(e1), effs),
    ensures
        states.last().rooms.selected_room == Some(room),
        states.last().links.pending_event_focus == Some(event),
{
    reveal_with_fuel(dispatched, 3);
    let m = dispatched(e1);
    assert(e1.drop_first().drop_first() =~= Seq::<Effect>::empty());
    assert(m =~= seq![Message::RoomSelected(room), Message::SetPendingEventFocus(event)]);
    assert(update_post(states[0], states[1], m[0], effs[0]));
    assert(update_post(states[1], states[2], m[1], effs[1]));
    lemma_focus_set_after_room_switch_survives(states[0], states[1], states[2], room, event, effs[0], effs[1]);
}

/// An event permalink whose room is given by an alias ends the same way:
/// once the alias resolves to `room` and the messages that the resolution
/// dispatches are handled in order, `room` is selected and the event waits
/// to be focused.
pub proof fn lemma_event_permalink_by_alias_focuses_event(
    c0: Constellations,
    c1: Constellations,
    c2: Constellations,
    raw: String,
    alias: String,
    event: String,
    room: String,
    e1: Seq<Effect>,
    e2: Seq<Effect>,
    states: Seq<Constellations>,
    effs: Seq<Seq<Effect>>,
)
    requires
        update_post(c0, c1, Message::LinkParsed(raw, Some(PermalinkTarget::Event { room: alias, event })), e1),
        is_alias(alias@),
        update_post(c1, c2, Message::RoomAliasResolved(Ok(room)), e2),
        states.len() > 0,
        states[0] == c2,
        handles_in_order(states, dispatched(e2), effs),
    ensures
        states.last().rooms.selected_room == Some(room),
        states.last().links.pending_event_focus == Some(event),
{
    reveal_with_fuel(dispatched, 3);
    let m = dispatched(e2);
    assert(e2.drop_first().drop_first() =~= Seq::<Effect>::empty());
    assert(m =~= seq![Message::RoomSelected(room), Message::SetPendingEventFocus(event)]);
    assert(update_post(states[0], states[1], m[0], effs[0]));
    assert(update_post(states[1], states[2], m[1], effs[1]));
    lemma_focus_set_after_room_switch_survives(states[0], states[1], states[2], room, event, effs[0], effs[1]);
}

} // verus!
