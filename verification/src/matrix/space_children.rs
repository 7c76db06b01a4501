//! The children of a space as the space's state and the hierarchy API
//! report them: which child events count, the order and "suggested" flag
//! each child gets, and the room-list entries built for them, recorded in
//! the space hierarchy on the way.
use crate::matrix::spaces::{copy_opt_string, opt_view, ChildData, ChildDataView, SpaceHierarchy, SpaceHierarchyView};
use crate::matrix::RoomData;
use vstd::prelude::*;

verus! {

/// An `m.space.child` state event of a space, as the runtime read it.
pub struct SpaceChildEvent {
    /// The child room (the event's state key).
    pub child_id: String,
    /// Whether the event names servers to join through; an event without
    /// them removes the child.
    pub has_via: bool,
    pub order: Option<String>,
    pub suggested: bool,
}

/// A child of a space with its ordering hint and flag.
pub struct SpaceChildEntry {
    pub child_id: String,
    pub data: ChildData,
}

/// A room of the hierarchy API's answer for a space.
pub struct SpaceRoomSummary {
    pub room_id: String,
    pub name: Option<String>,
    pub avatar_url: Option<String>,
    pub is_space: bool,
}

/// The children that the child events name: those that name servers to
/// join through, in order.
pub open spec fn kept_children(events: Seq<SpaceChildEvent>) -> Seq<SpaceChildEvent> {
    events.filter(|e: SpaceChildEvent| e.has_via)
}

/// The entry for a child event.
pub open spec fn entry_of(e: SpaceChildEvent) -> SpaceChildEntry {
    SpaceChildEntry { child_id: e.child_id, data: ChildData { order: e.order, suggested: e.suggested } }
}

/// The children named by a space's child events: one entry for each event
/// that names servers to join through, in order.
pub fn parse_space_children_events(events: Vec<SpaceChildEvent>) -> (entries: Vec<SpaceChildEntry>)
    ensures
        entries@ == kept_children(events@).map_values(|e: SpaceChildEvent| entry_of(e)),
{
    let ghost all = events@;
    let mut rest = events;
    let mut entries: Vec<SpaceChildEntry> = Vec::new();
    let mut taken: usize = 0;
    assert(rest.len() <= usize::MAX);
    while rest.len() > 0
        invariant
            all.len() <= usize::MAX,
            taken + rest@.len() == all.len(),
            rest@ == all.skip(taken as int),
            entries@ == kept_children(all.take(taken as int)).map_values(|e: SpaceChildEvent| entry_of(e)),
        decreases rest@.len(),
    {
        let ghost before = all.take(taken as int);
        assert(all.take(taken + 1).drop_last() =~= before);
        assert(all.take(taken + 1).last() == rest@[0]);
        proof {
            reveal(Seq::filter);
        }
        let next = rest.remove(0);
        if next.has_via {
            entries.push(SpaceChildEntry {
                child_id: next.child_id,
                data: ChildData { order: next.order, suggested: next.suggested },
            });
        }
        taken = taken + 1;
        assert(rest@ =~= all.skip(taken as int));
        assert(entries@ =~= kept_children(all.take(taken as int)).map_values(|e: SpaceChildEvent| entry_of(e)));
    }
    assert(all.take(taken as int) =~= all);
    entries
}

/// The data the child events give `room`: the last entry for it wins.
pub open spec fn child_data_for(entries: Seq<SpaceChildEntry>, room: Seq<char>) -> Option<ChildData>
    decreases entries.len(),
{
    if entries.len() == 0 {
        None
    } else if entries.last().child_id@ == room {
        Some(entries.last().data)
    } else {
        child_data_for(entries.drop_last(), room)
    }
}

/// The ordering hint and flag a room gets in the space: those of its child
/// event, or none and not suggested.
pub open spec fn placement_for(entries: Seq<SpaceChildEntry>, room: Seq<char>) -> ChildDataView {
    match child_data_for(entries, room) {
        Some(d) => d@,
        None => ChildDataView { order: None, suggested: false },
    }
}

/// The hierarchy edges after recording each summarised room as a child of
/// `space`, in order.
pub open spec fn links_with_children(
    links: Map<(Seq<char>, Seq<char>), ChildDataView>,
    space: Seq<char>,
    summaries: Seq<SpaceRoomSummary>,
    entries: Seq<SpaceChildEntry>,
) -> Map<(Seq<char>, Seq<char>), ChildDataView>
    decreases summaries.len(),
{
    if summaries.len() == 0 {
        links
    } else {
        links_with_children(links, space, summaries.drop_last(), entries).insert(
            (space, summaries.last().room_id@),
            placement_for(entries, summaries.last().room_id@),
        )
    }
}

/// The room-list entry for a room of the space: what the summary says, no
/// message or unread count yet, the space as its parent, and the placement
/// its child event gives it.
pub open spec fn room_from_summary(
    r: RoomData,
    space: Seq<char>,
    s: SpaceRoomSummary,
    entries: Seq<SpaceChildEntry>,
) -> bool {
    &&& r.id == s.room_id
    &&& r.name == s.name
    &&& r.last_message is None
    &&& r.unread_count == 0
    &&& r.unread_count_str is None
    &&& r.avatar_url == s.avatar_url
    &&& r.is_space == s.is_space
    &&& opt_view(r.parent_space_id) == Some(space)
    &&& r.allowed_spaces@.len() == 0
    &&& opt_view(r.order) == placement_for(entries, s.room_id@).order
    &&& r.suggested == placement_for(entries, s.room_id@).suggested
}

/// Each room-list entry built for a child of a space carries the id, the
/// name, the avatar and the space flag that the hierarchy summary gives that
/// room, and names the space as its parent.
pub proof fn lemma_child_entry_keeps_summary(
    r: RoomData,
    space: Seq<char>,
    s: SpaceRoomSummary,
    entries: Seq<SpaceChildEntry>,
)
    requires
        room_from_summary(r, space, s, entries),
    ensures
        r.id@ == s.room_id@,
        r.name == s.name,
        opt_view(r.name) == opt_view(s.name),
        r.avatar_url == s.avatar_url,
        r.is_space == s.is_space,
        opt_view(r.parent_space_id) == Some(space),
{
}

/// The data the child events give `room` (the last entry for it wins).
fn find_child_data(entries: &Vec<SpaceChildEntry>, room: &String) -> (data: ChildData)
    ensures
        data@ == placement_for(entries@, room@),
{
    let mut i = entries.len();
    assert(entries@.take(i as int) =~= entries@);
    while i > 0
        invariant
            i <= entries.len(),
            child_data_for(entries@, room@) == child_data_for(entries@.take(i as int), room@),
        decreases i,
    {
        let ghost part = entries@.take(i as int);
        assert(part.drop_last() =~= entries@.take(i - 1));
        if entries[i - 1].child_id == *room {
            return entries[i - 1].data.duplicate();
        }
        i = i - 1;
    }
    ChildData { order: None, suggested: false }
}

/// Records the rooms of the hierarchy API's answer for `space_id` as its
/// children (with the placement their child events give them) and returns
/// their room-list entries, in the order of the answer.
pub fn space_children_from_hierarchy(
    hierarchy: &mut SpaceHierarchy,
    space_id: &String,
    summaries: &Vec<SpaceRoomSummary>,
    entries: &Vec<SpaceChildEntry>,
) -> (rooms: Vec<RoomData>)
    requires
        old(hierarchy).wf(),
    ensures
        final(hierarchy).wf(),
        final(hierarchy)@.links == links_with_children(old(hierarchy)@.links, space_id@, summaries@, entries@),
        summaries@.len() > 0 ==> final(hierarchy)@.known == old(hierarchy)@.known.insert(space_id@),
        summaries@.len() == 0 ==> final(hierarchy)@.known == old(hierarchy)@.known,
        rooms@.len() == summaries@.len(),
        forall|i: int|
            0 <= i < rooms@.len() ==> room_from_summary(#[trigger] rooms@[i], space_id@, summaries@[i], entries@),
{
    let mut rooms: Vec<RoomData> = Vec::new();
    let mut i: usize = 0;
    while i < summaries.len()
        invariant
            i <= summaries.len(),
            hierarchy.wf(),
            hierarchy@.links == links_with_children(old(hierarchy)@.links, space_id@, summaries@.take(i as int), entries@),
            i > 0 ==> hierarchy@.known == old(hierarchy)@.known.insert(space_id@),
            i == 0 ==> hierarchy@.known == old(hierarchy)@.known,
            rooms@.len() == i,
            forall|k: int| 0 <= k < i ==> room_from_summary(#[trigger] rooms@[k], space_id@, summaries@[k], entries@),
        decreases summaries.len() - i,
    {
        let s = &summaries[i];
        let data = find_child_data(entries, &s.room_id);
        let order = copy_opt_string(&data.order);
        hierarchy.add_child(space_id.clone(), s.room_id.clone(), data.order, data.suggested);
        rooms.push(RoomData {
            id: s.room_id.clone(),
            name: copy_opt_string(&s.name),
            last_message: None,
            unread_count: 0,
            unread_count_str: None,
            avatar_url: copy_opt_string(&s.avatar_url),
            is_space: s.is_space,
            parent_space_id: Some(space_id.clone()),
            allowed_spaces: Vec::new(),
            order,
            suggested: data.suggested,
        });
        proof {
            assert(summaries@.take(i + 1).drop_last() =~= summaries@.take(i as int));
            assert(summaries@.take(i + 1).last() == summaries@[i as int]);
        }
        i = i + 1;
    }
    assert(summaries@.take(i as int) =~= summaries@);
    rooms
}

/// Which state event tells of a space relationship.
#[derive(Clone, Copy, Debug, PartialEq, Eq, Structural)]
pub enum SpaceEventKind {
    /// `m.space.child`, sent in the space; its state key is the child.
    Child,
    /// `m.space.parent`, sent in the child; its state key is the space.
    Parent,
}

/// A space relationship event as the sync delivers it.
pub struct SpaceStateEvent {
    pub kind: SpaceEventKind,
    /// The room the event was sent in.
    pub room_id: String,
    /// The event's state key, which names a room.
    pub state_key: String,
    /// Whether the state key is a valid room id (as the Matrix identifier
    /// parser of the runtime decides); an event whose key is not is ignored.
    pub state_key_is_room_id: bool,
    /// Whether the event was redacted.
    pub redacted: bool,
    /// Whether the event names servers to join through.
    pub has_via: bool,
    pub order: Option<String>,
    pub suggested: bool,
}

/// The space of the relationship an event tells of.
pub open spec fn event_space(e: SpaceStateEvent) -> Seq<char> {
    match e.kind {
        SpaceEventKind::Child => e.room_id@,
        SpaceEventKind::Parent => e.state_key@,
    }
}

/// The child of the relationship an event tells of.
pub open spec fn event_child(e: SpaceStateEvent) -> Seq<char> {
    match e.kind {
        SpaceEventKind::Child => e.state_key@,
        SpaceEventKind::Parent => e.room_id@,
    }
}

/// The hierarchy after a relationship event: an event whose state key is no
/// room id changes nothing; a redacted event, or one that names no servers,
/// removes the edge; a child event sets the edge with its
/// order and flag; a parent event adds the edge if it is missing, keeping
/// any data the space gave it.
pub open spec fn after_space_event(before: SpaceHierarchyView, e: SpaceStateEvent) -> SpaceHierarchyView {
    let key = (event_space(e), event_child(e));
    if !e.state_key_is_room_id {
        before
    } else if e.redacted || !e.has_via {
        SpaceHierarchyView { links: before.links.remove(key), known: before.known }
    } else {
        SpaceHierarchyView {
            links: match e.kind {
                SpaceEventKind::Child => before.links.insert(
                    key,
                    ChildDataView { order: opt_view(e.order), suggested: e.suggested },
                ),
                SpaceEventKind::Parent => if before.links.contains_key(key) {
                    before.links
                } else {
                    before.links.insert(key, ChildDataView { order: None, suggested: false })
                },
            },
            known: before.known.insert(event_space(e)),
        }
    }
}

/// Applies a space relationship event to the hierarchy.
pub fn apply_space_state_event(hierarchy: &mut SpaceHierarchy, event: SpaceStateEvent)
    requires
        old(hierarchy).wf(),
    ensures
        final(hierarchy).wf(),
        final(hierarchy)@ == after_space_event(old(hierarchy)@, event),
{
    if !event.state_key_is_room_id {
        return;
    }
    let (space, child) = match event.kind {
        SpaceEventKind::Child => (event.room_id, event.state_key),
        SpaceEventKind::Parent => (event.state_key, event.room_id),
    };
    if event.redacted || !event.has_via {
        hierarchy.remove_child(space.as_str(), child.as_str());
    } else {
        match event.kind {
            SpaceEventKind::Child => hierarchy.add_child(space, child, event.order, event.suggested),
            SpaceEventKind::Parent => hierarchy.add_relationship(space, child),
        }
    }
}

} // verus!
