//! Rooms and spaces: selecting them, the rooms of a space one has not
//! joined, the settings and side panels, creating rooms and inviting to them.
use crate::constellations::session::{missing_room_avatars, shows_error, string_views, uncached_avatars};
use crate::constellations::{
    failure_message, failure_text, single, Constellations, HISTORY_PAGE_SIZE, Effect, Links, Panels, Rooms,
    Search, Session, SettingsPanel, Timeline,
};
use crate::matrix::spaces::copy_opt_string;
use crate::matrix::{PinnedEventInfo, RoomData, RoomMemberInfo};
use crate::text::{lemma_seq_lt_asymmetric, lemma_seq_lt_transitive, seq_lt, str_lt};
use vstd::hash_map::StringHashMap;
use vstd::hash_set::StringHashSet;
use vstd::prelude::*;
use vstd::string::StringExecFns;

verus! {

/// `a` comes before `b` in the list of a space's rooms: rooms with an order
/// come first, by order and then by id; the others follow, by id.
pub open spec fn room_precedes(a: RoomData, b: RoomData) -> bool {
    match (a.order, b.order) {
        (Some(oa), Some(ob)) => seq_lt(oa@, ob@) || (oa@ == ob@ && seq_lt(a.id@, b.id@)),
        (Some(_), None) => true,
        (None, Some(_)) => false,
        (None, None) => seq_lt(a.id@, b.id@),
    }
}

/// No room of `s` comes before one that is ahead of it.
pub open spec fn rooms_sorted(s: Seq<RoomData>) -> bool {
    forall|i: int, j: int| 0 <= i < j < s.len() ==> !room_precedes(#[trigger] s[j], #[trigger] s[i])
}

/// The rooms of a space the user may join: those not joined yet that are no
/// spaces themselves, in the order given.
pub open spec fn joinable_children(children: Seq<RoomData>, joined: Set<Seq<char>>) -> Seq<RoomData>
    decreases children.len(),
{
    if children.len() == 0 {
        Seq::empty()
    } else {
        let rest = joinable_children(children.drop_last(), joined);
        let r = children.last();
        if !joined.contains(r.id@) && !r.is_space {
            rest.push(r)
        } else {
            rest
        }
    }
}

/// The name of the first room of `rooms` with id `id`, when it has one.
pub open spec fn room_name_of(rooms: Seq<RoomData>, id: Seq<char>) -> Option<String>
    decreases rooms.len(),
{
    if rooms.len() == 0 {
        None
    } else if rooms[0].id@ == id {
        rooms[0].name
    } else {
        room_name_of(rooms.drop_first(), id)
    }
}

/// The event ids of pinned messages.
pub open spec fn pinned_ids(details: Seq<PinnedEventInfo>) -> Set<Seq<char>> {
    Set::new(|id: Seq<char>| exists|i: int| 0 <= i < details.len() && (#[trigger] details[i]).event_id@ == id)
}

/// The order of [`room_precedes`] is irreflexive and asymmetric.
pub proof fn lemma_room_precedes_asymmetric(a: RoomData, b: RoomData)
    ensures
        !(room_precedes(a, b) && room_precedes(b, a)),
        !room_precedes(a, a),
{
    lemma_seq_lt_asymmetric(a.id@, b.id@);
    lemma_seq_lt_asymmetric(a.id@, a.id@);
    match (a.order, b.order) {
        (Some(oa), Some(ob)) => {
            lemma_seq_lt_asymmetric(oa@, ob@);
            lemma_seq_lt_asymmetric(oa@, oa@);
        },
        _ => {},
    }
    match a.order {
        Some(oa) => {
            lemma_seq_lt_asymmetric(oa@, oa@);
        },
        None => {},
    }
}

/// The order of [`room_precedes`] is transitive.
pub proof fn lemma_room_precedes_transitive(a: RoomData, b: RoomData, c: RoomData)
    requires
        room_precedes(a, b),
        room_precedes(b, c),
    ensures
        room_precedes(a, c),
{
    match (a.order, b.order, c.order) {
        (Some(oa), Some(ob), Some(oc)) => {
            if seq_lt(oa@, ob@) && seq_lt(ob@, oc@) {
                lemma_seq_lt_transitive(oa@, ob@, oc@);
            } else if seq_lt(oa@, ob@) {
            } else if seq_lt(ob@, oc@) {
            } else {
                lemma_seq_lt_transitive(a.id@, b.id@, c.id@);
            }
        },
        (None, None, None) => {
            lemma_seq_lt_transitive(a.id@, b.id@, c.id@);
        },
        _ => {},
    }
}

/// Whether `a` comes before `b` (see [`room_precedes`]).
fn precedes(a: &RoomData, b: &RoomData) -> (p: bool)
    ensures
        p == room_precedes(*a, *b),
{
    match (&a.order, &b.order) {
        (Some(oa), Some(ob)) => str_lt(oa.as_str(), ob.as_str()) || (*oa == *ob && str_lt(
            a.id.as_str(),
            b.id.as_str(),
        )),
        (Some(_), None) => true,
        (None, Some(_)) => false,
        (None, None) => str_lt(a.id.as_str(), b.id.as_str()),
    }
}

/// `x` put into `s` before the first room it comes before, so after every
/// room it ties with.
pub open spec fn inserted_in_order(s: Seq<RoomData>, x: RoomData) -> Seq<RoomData>
    decreases s.len(),
{
    if s.len() == 0 {
        seq![x]
    } else if room_precedes(x, s[0]) {
        seq![x] + s
    } else {
        seq![s[0]] + inserted_in_order(s.drop_first(), x)
    }
}

/// The rooms in order, rooms that tie keeping the order they came in (what a
/// stable sort gives).
pub open spec fn sorted_rooms(s: Seq<RoomData>) -> Seq<RoomData>
    decreases s.len(),
{
    if s.len() == 0 {
        s
    } else {
        inserted_in_order(sorted_rooms(s.drop_last()), s.last())
    }
}

proof fn lemma_inserted_at(s: Seq<RoomData>, x: RoomData, k: int)
    requires
        0 <= k <= s.len(),
        forall|j: int| 0 <= j < k ==> !room_precedes(x, #[trigger] s[j]),
        k == s.len() || room_precedes(x, s[k]),
    ensures
        inserted_in_order(s, x) == s.insert(k, x),
    decreases k,
{
    if s.len() == 0 {
        assert(s.insert(k, x) =~= seq![x]);
    } else if k == 0 {
        assert(s.insert(0, x) =~= seq![x] + s);
    } else {
        let t = s.drop_first();
        assert forall|j: int| 0 <= j < k - 1 implies !room_precedes(x, #[trigger] t[j]) by {
            assert(t[j] == s[j + 1]);
            assert(!room_precedes(x, s[j + 1]));
        }
        if k < s.len() {
            assert(t[k - 1] == s[k]);
        }
        assert(!room_precedes(x, s[0]));
        lemma_inserted_at(t, x, k - 1);
        assert(seq![s[0]] + t.insert(k - 1, x) =~= s.insert(k, x));
    }
}

/// Inserts `x` into the sorted `v`, after every room it does not come before.
fn insert_sorted(v: &mut Vec<RoomData>, x: RoomData)
    requires
        rooms_sorted(old(v)@),
    ensures
        rooms_sorted(final(v)@),
        final(v)@.to_multiset() == old(v)@.to_multiset().insert(x),
        final(v)@ == inserted_in_order(old(v)@, x),
{
    broadcast use vstd::seq_lib::group_to_multiset_ensures, vstd::multiset::group_multiset_axioms;

    let mut k: usize = 0;
    while k < v.len() && !precedes(&x, &v[k])
        invariant
            0 <= k <= v@.len(),
            v@ == old(v)@,
            forall|j: int| 0 <= j < k ==> !room_precedes(x, #[trigger] v@[j]),
        decreases v.len() - k,
    {
        k = k + 1;
    }
    let ghost s = v@;
    proof {
        lemma_inserted_at(s, x, k as int);
    }
    v.insert(k, x);
    proof {
        let t = v@;
        assert(t =~= s.insert(k as int, x));
        assert forall|i: int, j: int| 0 <= i < j < t.len() implies !room_precedes(#[trigger] t[j], #[trigger] t[i]) by {
            if i < k && j < k {
                assert(t[i] == s[i] && t[j] == s[j]);
            } else if i < k && j == k {
                assert(t[i] == s[i] && t[j] == x);
                lemma_room_precedes_asymmetric(x, s[i]);
            } else if i < k && j > k {
                assert(t[i] == s[i] && t[j] == s[j - 1]);
            } else if i == k && j > k {
                assert(t[i] == x && t[j] == s[j - 1]);
                // x comes before s[k], and s[j-1] does not come before s[k]
                if room_precedes(s[j - 1], x) {
                    lemma_room_precedes_transitive(s[j - 1], x, s[k as int]);
                    if j - 1 > k {
                    } else {
                        lemma_room_precedes_asymmetric(s[k as int], s[k as int]);
                    }
                }
            } else {
                assert(t[i] == s[i - 1] && t[j] == s[j - 1]);
            }
        }
        assert(t.remove(k as int) =~= s);
        assert(t.to_multiset().remove(x) == s.to_multiset());
        assert(t.to_multiset().count(x) > 0);
        assert(t.to_multiset() =~= s.to_multiset().insert(x));
    }
}

/// The rooms of a space the user may join, sorted (see
/// [`joinable_children`], [`room_precedes`]).
pub fn sort_joinable_children(children: Vec<RoomData>, joined: &StringHashSet) -> (rooms: Vec<RoomData>)
    ensures
        rooms@ == sorted_rooms(joinable_children(children@, joined@)),
        rooms_sorted(rooms@),
        rooms@.to_multiset() == joinable_children(children@, joined@).to_multiset(),
{
    broadcast use vstd::seq_lib::group_to_multiset_ensures, vstd::multiset::group_multiset_axioms;

    let ghost all = children@;
    let total = children.len();
    assert(all.len() == total);
    let mut rest = children;
    let mut out: Vec<RoomData> = Vec::new();
    let mut i: usize = 0;
    assert(all.skip(0) =~= all);
    while rest.len() > 0
        invariant
            0 <= i <= all.len(),
            all.len() <= usize::MAX,
            rest@ == all.skip(i as int),
            rooms_sorted(out@),
            out@.to_multiset() == joinable_children(all.take(i as int), joined@).to_multiset(),
            out@ == sorted_rooms(joinable_children(all.take(i as int), joined@)),
        decreases rest.len(),
    {
        let x = rest.remove(0);
        let keep = !joined.contains(x.id.as_str()) && !x.is_space;
        proof {
            let t = all.take(i + 1);
            assert(t.len() == i + 1);
            assert(t.drop_last() =~= all.take(i as int));
            assert(t.last() == x);
            assert(rest@ =~= all.skip(i + 1));
            assert(keep == (!joined@.contains(t.last().id@) && !t.last().is_space));
            let before = joinable_children(all.take(i as int), joined@);
            assert(joinable_children(t, joined@) == if keep {
                before.push(x)
            } else {
                before
            });
            vstd::seq_lib::to_multiset_build(before, x);
            assert(before.push(x).drop_last() =~= before);
        }
        if keep {
            insert_sorted(&mut out, x);
        }
        i = i + 1;
    }
    assert(all.take(i as int) =~= all);
    out
}

/// The name of the first room of `rooms` with id `id`.
fn name_of_room(rooms: &Vec<RoomData>, id: &String) -> (name: Option<String>)
    ensures
        name == room_name_of(rooms@, id@),
{
    let n = rooms.len();
    let mut i: usize = 0;
    assert(rooms@.skip(0) =~= rooms@);
    while i < n
        invariant
            0 <= i <= n,
            n == rooms@.len(),
            room_name_of(rooms@, id@) == room_name_of(rooms@.skip(i as int), id@),
        decreases n - i,
    {
        assert(rooms@.skip(i as int).drop_first() =~= rooms@.skip(i + 1));
        if rooms[i].id == *id {
            return copy_opt_string(&rooms[i].name);
        }
        i = i + 1;
    }
    None
}

/// Records the name of the room `room` (the first of `rooms` with that id)
/// in `cache`, when it has one.
fn cache_room_name(cache: &mut StringHashMap<String>, rooms: &Vec<RoomData>, room: &String)
    ensures
        final(cache)@ == match room_name_of(rooms@, room@) {
            Some(name) => old(cache)@.insert(room@, name),
            None => old(cache)@,
        },
{
    match name_of_room(rooms, room) {
        Some(n) => {
            cache.insert(room.clone(), n);
        },
        None => {},
    }
}

/// What opening a settings panel loads, followed by `scroll`.
fn settings_loads(panel: SettingsPanel, room: &Option<String>, space: &Option<String>, scroll: Effect) -> (effects: Vec<Effect>)
    ensures
        effects@ == match panel {
            SettingsPanel::User => seq![Effect::LoadUserProfile],
            SettingsPanel::Room | SettingsPanel::ManageRoomMembers => match *room {
                Some(r) => seq![Effect::LoadRoomSettings(r)],
                None => Seq::empty(),
            },
            SettingsPanel::Space => match *space {
                Some(s) => seq![Effect::LoadSpaceSettings(s)],
                None => Seq::empty(),
            },
            _ => Seq::empty(),
        } + seq![scroll],
{
    let mut effects: Vec<Effect> = Vec::new();
    match panel {
        SettingsPanel::User => {
            effects.push(Effect::LoadUserProfile);
        },
        SettingsPanel::Room | SettingsPanel::ManageRoomMembers => {
            match room {
                Some(r) => {
                    effects.push(Effect::LoadRoomSettings(r.clone()));
                },
                None => {},
            }
        },
        SettingsPanel::Space => {
            match space {
                Some(s) => {
                    effects.push(Effect::LoadSpaceSettings(s.clone()));
                },
                None => {},
            }
        },
        _ => {},
    }
    let ghost load = effects@;
    effects.push(scroll);
    assert(effects@ =~= load + seq![scroll]);
    effects
}

/// The event ids of pinned messages, as a set.
fn pinned_id_set(details: &Vec<PinnedEventInfo>) -> (ids: StringHashSet)
    ensures
        ids@ == pinned_ids(details@),
{
    let mut ids = StringHashSet::new();
    let n = details.len();
    let mut i: usize = 0;
    while i < n
        invariant
            0 <= i <= n,
            n == details@.len(),
            ids@ == pinned_ids(details@.take(i as int)),
        decreases n - i,
    {
        ids.insert(details[i].event_id.clone());
        proof {
            let before = details@.take(i as int);
            let after = details@.take(i + 1);
            assert forall|id: Seq<char>| pinned_ids(after).contains(id) <==> (pinned_ids(before).contains(id)
                || id == details@[i as int].event_id@) by {
                if pinned_ids(after).contains(id) {
                    let k = choose|k: int| 0 <= k < after.len() && (#[trigger] after[k]).event_id@ == id;
                    if k < i {
                        assert(before[k] == after[k]);
                    }
                }
                if pinned_ids(before).contains(id) {
                    let k = choose|k: int| 0 <= k < before.len() && (#[trigger] before[k]).event_id@ == id;
                    assert(after[k] == before[k]);
                }
                if id == details@[i as int].event_id@ {
                    assert(after[i as int] == details@[i as int]);
                }
            }
            assert(ids@ =~= pinned_ids(after));
        }
        i = i + 1;
    }
    assert(details@.take(n as int) =~= details@);
    ids
}

/// The fetch of the members of the selected room, when there is one and the
/// engine is up.
pub open spec fn members_fetch(c: Constellations) -> Seq<Effect> {
    if c.session.engine_ready && c.rooms.selected_room is Some {
        seq![Effect::FetchMembers(c.rooms.selected_room.unwrap())]
    } else {
        Seq::empty()
    }
}

/// The fetch of the pinned messages of the selected room, when there is one
/// and the engine is up.
pub open spec fn pinned_fetch(c: Constellations) -> Seq<Effect> {
    if c.session.engine_ready && c.rooms.selected_room is Some {
        seq![Effect::FetchPinnedEvents(c.rooms.selected_room.unwrap())]
    } else {
        Seq::empty()
    }
}

/// `handle_room_selected`: the room becomes the selected one and opens at its
/// first scroll position on its live timeline; everything scoped to the
/// previous room is cleared, and its members (when the panel shows), pinned
/// messages and latest messages are fetched.
pub open spec fn room_selected_post(old: Constellations, new: Constellations, room: String, effects: Seq<Effect>) -> bool {
    let can_fetch = old.session.engine_ready;
    let load = if !old.timeline.is_loading_more && can_fetch {
        seq![Effect::LoadMore { room_id: room, thread_root: None, count: HISTORY_PAGE_SIZE }]
    } else {
        Seq::empty()
    };
    let members = if old.panels.show_members_panel && can_fetch {
        seq![Effect::FetchMembers(room)]
    } else {
        Seq::empty()
    };
    let pinned = if can_fetch {
        seq![Effect::FetchPinnedEvents(room)]
    } else {
        Seq::empty()
    };
    &&& new == (Constellations {
        rooms: Rooms {
            selected_room: Some(room),
            room_name_cache: new.rooms.room_name_cache,
            inviting_to_room: false,
            invite_to_room_id: new.rooms.invite_to_room_id,
            is_first_time_joining: false,
            visited_room_ids: new.rooms.visited_room_ids,
            ..old.rooms
        },
        timeline: Timeline {
            timeline_items: new.timeline.timeline_items,
            thread_counts: new.timeline.thread_counts,
            needs_scroll_adjustment: false,
            is_timeline_at_bottom: true,
            is_threaded_timeline_at_bottom: true,
            is_timeline_initialized: false,
            needs_initial_scroll: true,
            is_loading_more: old.timeline.is_loading_more || can_fetch,
            ..old.timeline
        },
        panels: Panels {
            room_members: new.panels.room_members,
            pinned_events: new.panels.pinned_events,
            pinned_events_details: new.panels.pinned_events_details,
            is_loading_members: old.panels.is_loading_members || old.panels.show_members_panel,
            ..old.panels
        },
        search: Search {
            message_search_results: new.search.message_search_results,
            is_searching_messages: false,
            search_has_more: false,
            is_searching_more_messages: false,
            global_message_search_results: new.search.global_message_search_results,
            is_searching_global_messages: false,
            ..old.search
        },
        links: Links { pending_event_focus: None, active_event_focus: None, ..old.links },
        ..old
    })
    &&& new.rooms.room_name_cache@ == match room_name_of(old.rooms.room_list@, room@) {
        Some(name) => old.rooms.room_name_cache@.insert(room@, name),
        None => old.rooms.room_name_cache@,
    }
    &&& new.rooms.invite_to_room_id@.len() == 0
    &&& new.rooms.visited_room_ids@ == old.rooms.visited_room_ids@.insert(room@)
    &&& new.timeline.timeline_items@.len() == 0
    &&& new.timeline.thread_counts@ == Map::<Seq<char>, usize>::empty()
    &&& new.panels.room_members@.len() == 0
    &&& new.panels.pinned_events@ == Set::<Seq<char>>::empty()
    &&& new.panels.pinned_events_details@.len() == 0
    &&& new.search.message_search_results@.len() == 0
    &&& new.search.global_message_search_results@.len() == 0
    &&& effects == seq![Effect::ResetScrollMetrics { thread: false, offset: true, width: true }, Effect::UpdateTitle] + load
        + members + pinned
}

/// `handle_space_children_fetched`: for the selected space, the rooms one may
/// join become the other rooms, sorted; the filters are refreshed and the
/// avatars fetched (when invite avatars show); a failure is shown. A late
/// answer for another space is dropped.
pub open spec fn space_children_post(
    old: Constellations,
    new: Constellations,
    space: String,
    res: Result<Vec<RoomData>, String>,
    effects: Seq<Effect>,
) -> bool {
    if !(old.rooms.selected_space is Some && old.rooms.selected_space.unwrap()@ == space@) {
        new == old && effects.len() == 0
    } else {
        match res {
            Ok(children) => {
                let filter = if old.session.engine_ready {
                    seq![Effect::UpdateRoomListFilter(Some(space))]
                } else {
                    Seq::empty()
                };
                let avatars = missing_room_avatars(children@, old.media_cache@);
                let wants = old.session.engine_ready && old.prefs.invite_avatars_enabled && avatars.len() > 0;
                let head = seq![Effect::UpdateFilteredRooms] + filter;
                &&& new == (Constellations {
                    rooms: Rooms { other_rooms: new.rooms.other_rooms, ..old.rooms },
                    ..old
                })
                &&& new.rooms.other_rooms@ == sorted_rooms(joinable_children(children@, old.rooms.joined_room_ids@))
                &&& rooms_sorted(new.rooms.other_rooms@)
                &&& new.rooms.other_rooms@.to_multiset() == joinable_children(
                    children@,
                    old.rooms.joined_room_ids@,
                ).to_multiset()
                &&& effects.len() == head.len() + if wants {
                    1int
                } else {
                    0int
                }
                &&& effects.take(head.len() as int) == head
                &&& wants ==> (effects.last() matches Effect::FetchMediaBatch(urls) && string_views(urls@)
                    == avatars)
            },
            Err(e) => {
                &&& new == (Constellations {
                    session: Session { error: new.session.error, ..old.session },
                    ..old
                })
                &&& shows_error(new.session.error, failure_text("fetch the rooms of the space"@, e@))
                &&& effects.len() == 0
            },
        }
    }
}

/// `handle_select_space`: the space (or none) becomes the selected one, its
/// other rooms are forgotten until fetched, and the room list filter and the
/// space's rooms are asked for.
pub open spec fn select_space_post(old: Constellations, new: Constellations, space: Option<String>, effects: Seq<Effect>) -> bool {
    let work = if old.session.engine_ready {
        seq![Effect::UpdateRoomListFilter(space)] + match space {
            Some(s) => seq![Effect::FetchSpaceChildren(s)],
            None => Seq::empty(),
        }
    } else {
        Seq::empty()
    };
    &&& new == (Constellations {
        rooms: Rooms { selected_space: space, other_rooms: new.rooms.other_rooms, ..old.rooms },
        ..old
    })
    &&& new.rooms.other_rooms@.len() == 0
    &&& effects == work + seq![Effect::UpdateFilteredRooms]
}

/// `handle_open_settings`: the drawer shows the panel (the member and child
/// filters take the search query while searching) and the panel's data is
/// loaded.
pub open spec fn open_settings_post(old: Constellations, new: Constellations, panel: SettingsPanel, effects: Seq<Effect>) -> bool {
    let room_filter = old.search.is_search_active && panel == SettingsPanel::Room;
    let space_filter = old.search.is_search_active && panel == SettingsPanel::Space;
    let load = match panel {
        SettingsPanel::User => seq![Effect::LoadUserProfile],
        SettingsPanel::Room | SettingsPanel::ManageRoomMembers => match old.rooms.selected_room {
            Some(r) => seq![Effect::LoadRoomSettings(r)],
            None => Seq::empty(),
        },
        SettingsPanel::Space => match old.rooms.selected_space {
            Some(s) => seq![Effect::LoadSpaceSettings(s)],
            None => Seq::empty(),
        },
        _ => Seq::empty(),
    };
    &&& new == (Constellations {
        timeline: Timeline {
            needs_layout_scroll_restoration: true,
            needs_threaded_layout_scroll_restoration: true,
            ..old.timeline
        },
        panels: Panels {
            show_members_panel: false,
            show_pinned_panel: false,
            current_settings_panel: Some(panel),
            show_context: true,
            room_member_filter: if room_filter {
                old.search.search_query
            } else {
                old.panels.room_member_filter
            },
            space_child_filter: if space_filter {
                old.search.search_query
            } else {
                old.panels.space_child_filter
            },
            ..old.panels
        },
        rooms: Rooms { creating_room: false, creating_space: false, ..old.rooms },
        ..old
    })
    &&& effects == load + seq![crate::constellations::timeline::restore_scroll(old)]
}

/// Closes the drawer.
pub open spec fn close_settings_post(old: Constellations, new: Constellations, effects: Seq<Effect>) -> bool {
    &&& new == (Constellations {
            timeline: Timeline {
                needs_layout_scroll_restoration: true,
                needs_threaded_layout_scroll_restoration: true,
                ..old.timeline
            },
            panels: Panels {
                current_settings_panel: None,
                show_context: false,
                show_members_panel: false,
                show_pinned_panel: false,
                room_members: new.panels.room_members,
                pinned_events_details: new.panels.pinned_events_details,
                ..old.panels
            },
            ..old
        })
    &&& new.panels.room_members@.len() == 0
    &&& new.panels.pinned_events_details@.len() == 0
    &&& effects == seq![crate::constellations::timeline::restore_scroll(old)]
}

/// Shows or hides the members panel.
pub open spec fn toggle_members_panel_post(old: Constellations, new: Constellations, effects: Seq<Effect>) -> bool {
    &&& ({
            let now = !old.panels.show_members_panel;
            &&& new == (Constellations {
                timeline: Timeline {
                    needs_layout_scroll_restoration: true,
                    needs_threaded_layout_scroll_restoration: true,
                    ..old.timeline
                },
                panels: Panels {
                    show_members_panel: now,
                    show_pinned_panel: !now && old.panels.show_pinned_panel,
                    current_settings_panel: if now {
                        Some(SettingsPanel::Members)
                    } else {
                        None
                    },
                    show_context: now,
                    is_loading_members: now || old.panels.is_loading_members,
                    room_members: new.panels.room_members,
                    ..old.panels
                },
                ..old
            })
            &&& new.panels.room_members@.len() == 0
            &&& effects == (if now {
                members_fetch(old)
            } else {
                Seq::empty()
            }) + seq![crate::constellations::timeline::restore_scroll(old)]
        })
}

/// Shows or hides the pinned-messages panel.
pub open spec fn toggle_pinned_panel_post(old: Constellations, new: Constellations, effects: Seq<Effect>) -> bool {
    &&& ({
            let now = !old.panels.show_pinned_panel;
            &&& new == (Constellations {
                timeline: Timeline {
                    needs_layout_scroll_restoration: true,
                    needs_threaded_layout_scroll_restoration: true,
                    ..old.timeline
                },
                panels: Panels {
                    show_pinned_panel: now,
                    show_members_panel: !now && old.panels.show_members_panel,
                    current_settings_panel: if now {
                        Some(SettingsPanel::Pinned)
                    } else {
                        None
                    },
                    show_context: now,
                    is_loading_pinned: now || old.panels.is_loading_pinned,
                    ..old.panels
                },
                ..old
            })
            &&& effects == (if now {
                pinned_fetch(old)
            } else {
                Seq::empty()
            }) + seq![crate::constellations::timeline::restore_scroll(old)]
        })
}

/// The members of the selected room arrived (or not).
pub open spec fn members_fetched_post(old: Constellations, new: Constellations, res: Result<Vec<RoomMemberInfo>, String>, effects: Seq<Effect>) -> bool {
    &&& effects.len() == 0
    &&& match res {
            Ok(members) => new == (Constellations {
                panels: Panels { is_loading_members: false, room_members: members, ..old.panels },
                ..old
            }),
            Err(e) => {
                &&& new == (Constellations {
                    panels: Panels { is_loading_members: false, ..old.panels },
                    session: Session { error: new.session.error, ..old.session },
                    ..old
                })
                &&& shows_error(new.session.error, failure_text("fetch the members"@, e@))
            },
        }
}

/// The pinned messages of the selected room arrived (or not).
pub open spec fn pinned_events_fetched_post(old: Constellations, new: Constellations, res: Result<Vec<PinnedEventInfo>, String>, effects: Seq<Effect>) -> bool {
    &&& effects.len() == 0
    &&& match res {
            Ok(details) => {
                &&& new == (Constellations {
                    panels: Panels {
                        is_loading_pinned: false,
                        pinned_events: new.panels.pinned_events,
                        pinned_events_details: details,
                        ..old.panels
                    },
                    ..old
                })
                &&& new.panels.pinned_events@ == pinned_ids(details@)
            },
            Err(e) => {
                &&& new == (Constellations {
                    panels: Panels { is_loading_pinned: false, ..old.panels },
                    session: Session { error: new.session.error, ..old.session },
                    ..old
                })
                &&& shows_error(new.session.error, failure_text("fetch the pinned messages"@, e@))
            },
        }
}

/// Unpins a message of the selected room.
pub open spec fn unpin_message_post(old: Constellations, new: Constellations, event: String, effects: Seq<Effect>) -> bool {
    &&& new == (Constellations {
            panels: Panels { is_loading_pinned: true, ..old.panels },
            ..old
        })
    &&& effects == if old.session.engine_ready && old.rooms.selected_room is Some {
            seq![Effect::UnpinEvent { room_id: old.rooms.selected_room.unwrap(), event_id: event }]
        } else {
            Seq::empty()
        }
}

/// A room was joined (or could not be).
pub open spec fn room_joined_post(old: Constellations, new: Constellations, res: Result<String, String>, effects: Seq<Effect>) -> bool {
    &&& match res {
            Ok(room) => {
                &&& new == (Constellations {
                    rooms: Rooms {
                        selected_room: Some(room),
                        is_first_time_joining: true,
                        visited_room_ids: new.rooms.visited_room_ids,
                        ..old.rooms
                    },
                    ..old
                })
                &&& new.rooms.visited_room_ids@ == old.rooms.visited_room_ids@.insert(room@)
                &&& effects == seq![Effect::UpdateFilteredRooms] + if old.session.engine_ready
                    && old.rooms.selected_space is Some {
                    seq![Effect::FetchSpaceChildren(old.rooms.selected_space.unwrap())]
                } else {
                    Seq::empty()
                }
            },
            Err(e) => {
                &&& new == (Constellations {
                    session: Session { error: new.session.error, ..old.session },
                    ..old
                })
                &&& shows_error(new.session.error, failure_text("join the room"@, e@))
                &&& effects.len() == 0
            },
        }
}

/// A room was created (or not).
pub open spec fn room_created_post(old: Constellations, new: Constellations, res: Result<String, String>, effects: Seq<Effect>) -> bool {
    &&& effects.len() == 0
    &&& match res {
            Ok(room) => {
                &&& new == (Constellations {
                    rooms: Rooms {
                        creating_room: false,
                        new_room_name: new.rooms.new_room_name,
                        selected_room: Some(room),
                        ..old.rooms
                    },
                    panels: Panels { show_context: false, ..old.panels },
                    ..old
                })
                &&& new.rooms.new_room_name@.len() == 0
            },
            Err(e) => {
                &&& new == (Constellations {
                    session: Session { error: new.session.error, ..old.session },
                    ..old
                })
                &&& shows_error(new.session.error, failure_text("create the room"@, e@))
            },
        }
}

/// A space was created (or not); a created space becomes the selected
/// one.
pub open spec fn space_created_post(old: Constellations, new: Constellations, res: Result<String, String>, effects: Seq<Effect>) -> bool {
    &&& match res {
            Ok(space) => {
                let closed = Constellations {
                    rooms: Rooms {
                        creating_space: false,
                        new_room_name: new.rooms.new_room_name,
                        ..old.rooms
                    },
                    panels: Panels { show_context: false, ..old.panels },
                    ..old
                };
                &&& new.rooms.new_room_name@.len() == 0
                &&& select_space_post(closed, new, Some(space), effects)
            },
            Err(e) => {
                &&& new == (Constellations {
                    session: Session { error: new.session.error, ..old.session },
                    ..old
                })
                &&& shows_error(new.session.error, failure_text("create the space"@, e@))
                &&& effects.len() == 0
            },
        }
}

impl Constellations {
    /// Selects a room.
    pub fn handle_room_selected(&mut self, room: String) -> (effects: Vec<Effect>)
        ensures
            room_selected_post(*old(self), *final(self), room, effects@),
    {
        let engine = self.session.engine_ready;
        let show_members = self.panels.show_members_panel;
        let can_load = !self.timeline.is_loading_more && engine;
        let mut effects = single(Effect::ResetScrollMetrics { thread: false, offset: true, width: true });
        effects.push(Effect::UpdateTitle);
        let ghost head = effects@;
        assert(head =~= seq![Effect::ResetScrollMetrics { thread: false, offset: true, width: true }, Effect::UpdateTitle]);
        if can_load {
            effects.push(Effect::LoadMore { room_id: room.clone(), thread_root: None, count: HISTORY_PAGE_SIZE });
        }
        let ghost with_load = effects@;
        if show_members && engine {
            effects.push(Effect::FetchMembers(room.clone()));
        }
        let ghost with_members = effects@;
        if engine {
            effects.push(Effect::FetchPinnedEvents(room.clone()));
        }
        proof {
            let load = if can_load {
                seq![Effect::LoadMore { room_id: room, thread_root: None, count: HISTORY_PAGE_SIZE }]
            } else {
                Seq::empty()
            };
            let members = if show_members && engine {
                seq![Effect::FetchMembers(room)]
            } else {
                Seq::empty()
            };
            let pinned = if engine {
                seq![Effect::FetchPinnedEvents(room)]
            } else {
                Seq::empty()
            };
            assert(with_load =~= head + load);
            assert(with_members =~= head + load + members);
            assert(effects@ =~= head + load + members + pinned);
        }
        self.rooms.select_room(room);
        self.timeline.open_room(engine);
        self.panels.leave_room(show_members);
        self.search.leave_room();
        self.links.pending_event_focus = None;
        self.links.active_event_focus = None;
        effects
    }

    /// Selects a space (or none).
    pub fn handle_select_space(&mut self, space: Option<String>) -> (effects: Vec<Effect>)
        ensures
            select_space_post(*old(self), *final(self), space, effects@),
    {
        self.rooms.selected_space = copy_opt_string(&space);
        self.rooms.other_rooms.clear();
        let mut effects: Vec<Effect> = Vec::new();
        if self.session.engine_ready {
            let fetch = copy_opt_string(&space);
            effects.push(Effect::UpdateRoomListFilter(space));
            match fetch {
                Some(s) => {
                    effects.push(Effect::FetchSpaceChildren(s));
                },
                None => {},
            }
        }
        let ghost work = effects@;
        assert(work =~= if old(self).session.engine_ready {
            seq![Effect::UpdateRoomListFilter(space)] + match space {
                Some(s) => seq![Effect::FetchSpaceChildren(s)],
                None => Seq::empty(),
            }
        } else {
            Seq::empty()
        });
        effects.push(Effect::UpdateFilteredRooms);
        assert(effects@ =~= work + seq![Effect::UpdateFilteredRooms]);
        effects
    }

    /// The rooms of a space arrived (or could not be fetched).
    pub fn handle_space_children_fetched(
        &mut self,
        space: String,
        res: Result<Vec<RoomData>, String>,
    ) -> (effects: Vec<Effect>)
        ensures
            space_children_post(*old(self), *final(self), space, res, effects@),
    {
        let current = match &self.rooms.selected_space {
            Some(s) => *s == space,
            None => false,
        };
        if !current {
            return Vec::new();
        }
        match res {
            Ok(children) => {
                let mut effects = single(Effect::UpdateFilteredRooms);
                if self.session.engine_ready {
                    effects.push(Effect::UpdateRoomListFilter(Some(space.clone())));
                }
                let ghost head = effects@;
                if self.session.engine_ready && self.prefs.invite_avatars_enabled {
                    let urls = uncached_avatars(&children, &self.media_cache);
                    if urls.len() > 0 {
                        effects.push(Effect::FetchMediaBatch(urls));
                    }
                }
                assert(effects@.take(head.len() as int) =~= head);
                assert(head =~= seq![Effect::UpdateFilteredRooms] + if old(self).session.engine_ready {
                    seq![Effect::UpdateRoomListFilter(Some(space))]
                } else {
                    Seq::empty()
                });
                let sorted = sort_joinable_children(children, &self.rooms.joined_room_ids);
                self.rooms.other_rooms = sorted;
                effects
            },
            Err(e) => {
                self.session.error = Some(failure_message("fetch the rooms of the space", e.as_str()));
                Vec::new()
            },
        }
    }

    /// Opens a settings panel.
    pub fn handle_open_settings(&mut self, panel: SettingsPanel) -> (effects: Vec<Effect>)
        ensures
            open_settings_post(*old(self), *final(self), panel, effects@),
    {
        let scroll = self.restore_scroll_task();
        let effects = settings_loads(panel, &self.rooms.selected_room, &self.rooms.selected_space, scroll);
        let searching = self.search.is_search_active;
        let query = self.search.search_query.clone();
        self.panels.show_panel(panel, searching, &query);
        self.timeline.needs_layout_scroll_restoration = true;
        self.timeline.needs_threaded_layout_scroll_restoration = true;
        self.rooms.creating_room = false;
        self.rooms.creating_space = false;
        effects
    }

    /// Closes the drawer.
    pub fn handle_close_settings(&mut self) -> (effects: Vec<Effect>)
        ensures
            close_settings_post(*old(self), *final(self), effects@),
    {
        let scroll = self.restore_scroll_task();
        self.timeline.needs_layout_scroll_restoration = true;
        self.timeline.needs_threaded_layout_scroll_restoration = true;
        self.panels.current_settings_panel = None;
        self.panels.show_context = false;
        self.panels.show_members_panel = false;
        self.panels.show_pinned_panel = false;
        self.panels.room_members.clear();
        self.panels.pinned_events_details.clear();
        single(scroll)
    }

    /// Shows or hides the members panel.
    pub fn handle_toggle_members_panel(&mut self) -> (effects: Vec<Effect>)
        ensures
            toggle_members_panel_post(*old(self), *final(self), effects@),
    {
        let scroll = self.restore_scroll_task();
        let now = !self.panels.show_members_panel;
        let mut effects: Vec<Effect> = Vec::new();
        if now && self.session.engine_ready {
            match &self.rooms.selected_room {
                Some(r) => {
                    effects.push(Effect::FetchMembers(r.clone()));
                },
                None => {},
            }
        }
        let ghost fetch = effects@;
        effects.push(scroll);
        assert(effects@ =~= fetch + seq![crate::constellations::timeline::restore_scroll(*old(self))]);
        self.timeline.needs_layout_scroll_restoration = true;
        self.timeline.needs_threaded_layout_scroll_restoration = true;
        self.panels.show_members_panel = now;
        self.panels.show_pinned_panel = !now && self.panels.show_pinned_panel;
        self.panels.current_settings_panel = if now {
            Some(SettingsPanel::Members)
        } else {
            None
        };
        self.panels.show_context = now;
        self.panels.is_loading_members = now || self.panels.is_loading_members;
        self.panels.room_members.clear();
        effects
    }

    /// Shows or hides the pinned-messages panel.
    pub fn handle_toggle_pinned_panel(&mut self) -> (effects: Vec<Effect>)
        ensures
            toggle_pinned_panel_post(*old(self), *final(self), effects@),
    {
        let scroll = self.restore_scroll_task();
        let now = !self.panels.show_pinned_panel;
        let mut effects: Vec<Effect> = Vec::new();
        if now && self.session.engine_ready {
            match &self.rooms.selected_room {
                Some(r) => {
                    effects.push(Effect::FetchPinnedEvents(r.clone()));
                },
                None => {},
            }
        }
        let ghost fetch = effects@;
        effects.push(scroll);
        assert(effects@ =~= fetch + seq![crate::constellations::timeline::restore_scroll(*old(self))]);
        self.timeline.needs_layout_scroll_restoration = true;
        self.timeline.needs_threaded_layout_scroll_restoration = true;
        self.panels.show_pinned_panel = now;
        self.panels.show_members_panel = !now && self.panels.show_members_panel;
        self.panels.current_settings_panel = if now {
            Some(SettingsPanel::Pinned)
        } else {
            None
        };
        self.panels.show_context = now;
        self.panels.is_loading_pinned = now || self.panels.is_loading_pinned;
        effects
    }

    /// The members of the selected room arrived (or not).
    pub fn handle_members_fetched(&mut self, res: Result<Vec<RoomMemberInfo>, String>) -> (effects: Vec<Effect>)
        ensures
            members_fetched_post(*old(self), *final(self), res, effects@),
    {
        self.panels.is_loading_members = false;
        match res {
            Ok(members) => {
                self.panels.room_members = members;
            },
            Err(e) => {
                self.session.error = Some(failure_message("fetch the members", e.as_str()));
            },
        }
        Vec::new()
    }

    /// The pinned messages of the selected room arrived (or not).
    pub fn handle_pinned_events_fetched(&mut self, res: Result<Vec<PinnedEventInfo>, String>) -> (effects: Vec<Effect>)
        ensures
            pinned_events_fetched_post(*old(self), *final(self), res, effects@),
    {
        self.panels.is_loading_pinned = false;
        match res {
            Ok(details) => {
                let ids = pinned_id_set(&details);
                self.panels.pinned_events = ids;
                self.panels.pinned_events_details = details;
            },
            Err(e) => {
                self.session.error = Some(failure_message("fetch the pinned messages", e.as_str()));
            },
        }
        Vec::new()
    }

    /// Unpins a message of the selected room.
    pub fn handle_unpin_message(&mut self, event: String) -> (effects: Vec<Effect>)
        ensures
            unpin_message_post(*old(self), *final(self), event, effects@),
    {
        self.panels.is_loading_pinned = true;
        if self.session.engine_ready {
            match &self.rooms.selected_room {
                Some(r) => {
                    return single(Effect::UnpinEvent { room_id: r.clone(), event_id: event });
                },
                None => {},
            }
        }
        Vec::new()
    }

    /// A room was joined (or could not be).
    pub fn handle_room_joined(&mut self, res: Result<String, String>) -> (effects: Vec<Effect>)
        ensures
            room_joined_post(*old(self), *final(self), res, effects@),
    {
        match res {
            Ok(room) => {
                self.rooms.visited_room_ids.insert(room.clone());
                self.rooms.selected_room = Some(room);
                self.rooms.is_first_time_joining = true;
                let mut effects = single(Effect::UpdateFilteredRooms);
                if self.session.engine_ready {
                    match &self.rooms.selected_space {
                        Some(s) => {
                            effects.push(Effect::FetchSpaceChildren(s.clone()));
                        },
                        None => {},
                    }
                }
                assert(effects@ =~= seq![Effect::UpdateFilteredRooms] + if old(self).session.engine_ready
                    && old(self).rooms.selected_space is Some {
                    seq![Effect::FetchSpaceChildren(old(self).rooms.selected_space.unwrap())]
                } else {
                    Seq::empty()
                });
                effects
            },
            Err(e) => {
                self.session.error = Some(failure_message("join the room", e.as_str()));
                Vec::new()
            },
        }
    }

    /// A room was created (or not).
    pub fn handle_room_created(&mut self, res: Result<String, String>) -> (effects: Vec<Effect>)
        ensures
            room_created_post(*old(self), *final(self), res, effects@),
    {
        match res {
            Ok(room) => {
                self.rooms.creating_room = false;
                self.rooms.new_room_name = String::new();
                self.rooms.selected_room = Some(room);
                self.panels.show_context = false;
            },
            Err(e) => {
                self.session.error = Some(failure_message("create the room", e.as_str()));
            },
        }
        Vec::new()
    }

    /// A space was created (or not); a created space becomes the selected
    /// one.
    pub fn handle_space_created(&mut self, res: Result<String, String>) -> (effects: Vec<Effect>)
        ensures
            space_created_post(*old(self), *final(self), res, effects@),
    {
        match res {
            Ok(space) => {
                self.rooms.creating_space = false;
                self.rooms.new_room_name = String::new();
                self.panels.show_context = false;
                self.handle_select_space(Some(space))
            },
            Err(e) => {
                self.session.error = Some(failure_message("create the space", e.as_str()));
                Vec::new()
            },
        }
    }
}

impl Rooms {
    /// Makes `room` the selected room, recording its name and that it was
    /// visited, and closes the room invite form.
    fn select_room(&mut self, room: String)
        ensures
            *final(self) == (Rooms {
                selected_room: Some(room),
                room_name_cache: final(self).room_name_cache,
                inviting_to_room: false,
                invite_to_room_id: final(self).invite_to_room_id,
                is_first_time_joining: false,
                visited_room_ids: final(self).visited_room_ids,
                ..*old(self)
            }),
            final(self).room_name_cache@ == match room_name_of(old(self).room_list@, room@) {
                Some(name) => old(self).room_name_cache@.insert(room@, name),
                None => old(self).room_name_cache@,
            },
            final(self).invite_to_room_id@.len() == 0,
            final(self).visited_room_ids@ == old(self).visited_room_ids@.insert(room@),
    {
        cache_room_name(&mut self.room_name_cache, &self.room_list, &room);
        self.visited_room_ids.insert(room.clone());
        self.selected_room = Some(room);
        self.inviting_to_room = false;
        self.invite_to_room_id = String::new();
        self.is_first_time_joining = false;
    }
}

impl Timeline {
    /// Empties the main timeline of a newly selected room, to be opened at
    /// its first scroll position once loaded (`loading`: a page is asked
    /// for).
    fn open_room(&mut self, loading: bool)
        ensures
            *final(self) == (Timeline {
                timeline_items: final(self).timeline_items,
                thread_counts: final(self).thread_counts,
                needs_scroll_adjustment: false,
                is_timeline_at_bottom: true,
                is_threaded_timeline_at_bottom: true,
                is_timeline_initialized: false,
                needs_initial_scroll: true,
                is_loading_more: old(self).is_loading_more || loading,
                ..*old(self)
            }),
            final(self).timeline_items@.len() == 0,
            final(self).thread_counts@ == Map::<Seq<char>, usize>::empty(),
    {
        self.timeline_items.clear();
        self.thread_counts.clear();
        self.needs_scroll_adjustment = false;
        self.is_timeline_at_bottom = true;
        self.is_threaded_timeline_at_bottom = true;
        self.is_timeline_initialized = false;
        self.needs_initial_scroll = true;
        self.is_loading_more = self.is_loading_more || loading;
    }
}

impl Panels {
    /// Forgets the members and pinned messages of the previous room; the
    /// members load again when their panel shows.
    fn leave_room(&mut self, show_members: bool)
        ensures
            *final(self) == (Panels {
                room_members: final(self).room_members,
                pinned_events: final(self).pinned_events,
                pinned_events_details: final(self).pinned_events_details,
                is_loading_members: old(self).is_loading_members || show_members,
                ..*old(self)
            }),
            final(self).room_members@.len() == 0,
            final(self).pinned_events@ == Set::<Seq<char>>::empty(),
            final(self).pinned_events_details@.len() == 0,
    {
        self.room_members.clear();
        self.pinned_events.clear();
        self.pinned_events_details.clear();
        self.is_loading_members = self.is_loading_members || show_members;
    }

    /// Shows `panel` in the drawer; while searching, the room panel's member
    /// filter or the space panel's child filter takes the query.
    fn show_panel(&mut self, panel: SettingsPanel, searching: bool, query: &String)
        ensures
            *final(self) == (Panels {
                show_members_panel: false,
                show_pinned_panel: false,
                current_settings_panel: Some(panel),
                show_context: true,
                room_member_filter: if searching && panel == SettingsPanel::Room {
                    *query
                } else {
                    old(self).room_member_filter
                },
                space_child_filter: if searching && panel == SettingsPanel::Space {
                    *query
                } else {
                    old(self).space_child_filter
                },
                ..*old(self)
            }),
    {
        self.show_members_panel = false;
        self.show_pinned_panel = false;
        self.current_settings_panel = Some(panel);
        self.show_context = true;
        if searching {
            match panel {
                SettingsPanel::Room => {
                    self.room_member_filter = query.clone();
                },
                SettingsPanel::Space => {
                    self.space_child_filter = query.clone();
                },
                _ => {},
            }
        }
    }
}

impl Search {
    /// Forgets the message search results scoped to the previous room.
    fn leave_room(&mut self)
        ensures
            *final(self) == (Search {
                message_search_results: final(self).message_search_results,
                is_searching_messages: false,
                search_has_more: false,
                is_searching_more_messages: false,
                global_message_search_results: final(self).global_message_search_results,
                is_searching_global_messages: false,
                ..*old(self)
            }),
            final(self).message_search_results@.len() == 0,
            final(self).global_message_search_results@.len() == 0,
    {
        self.message_search_results.clear();
        self.is_searching_messages = false;
        self.search_has_more = false;
        self.is_searching_more_messages = false;
        self.global_message_search_results.clear();
        self.is_searching_global_messages = false;
    }
}

/// The pinned events of a room once `event` is unpinned: every other one,
/// in order.
pub open spec fn unpinned(pinned: Seq<Seq<char>>, event: Seq<char>) -> Seq<Seq<char>> {
    pinned.filter(|id: Seq<char>| id != event)
}

/// The pinned list to store when `event` is unpinned.
pub fn pinned_without(pinned: &Vec<String>, event: &String) -> (kept: Vec<String>)
    ensures
        kept@.map_values(|s: String| s@) == unpinned(pinned@.map_values(|s: String| s@), event@),
{
    let ghost views = pinned@.map_values(|s: String| s@);
    let mut kept: Vec<String> = Vec::new();
    let mut i: usize = 0;
    while i < pinned.len()
        invariant
            i <= pinned.len(),
            views == pinned@.map_values(|s: String| s@),
            kept@.map_values(|s: String| s@) == unpinned(views.take(i as int), event@),
        decreases pinned.len() - i,
    {
        proof {
            reveal(Seq::filter);
            assert(views.take(i + 1).drop_last() =~= views.take(i as int));
            assert(views.take(i + 1).last() == pinned@[i as int]@);
        }
        let ghost before = kept@;
        if pinned[i] != *event {
            kept.push(pinned[i].clone());
            assert(kept@.map_values(|s: String| s@) =~= before.map_values(|s: String| s@).push(pinned@[i as int]@));
        }
        i = i + 1;
    }
    assert(views.take(i as int) =~= views);
    kept
}

} // verus!
