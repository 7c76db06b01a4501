//! What the background streams report: the sync service's state as a sync
//! status, room-list changes once each room's data is fetched, the first
//! load of a timeline, and callback URIs handed over by another instance.
use crate::constellations::permalinks::{is_absolute_url, url_parses};
use crate::constellations::Message;
use crate::matrix::diff::{applied, diff_applicable, VectorDiff};
use crate::matrix::{MatrixEvent, RoomData, SyncStatus, TimelineEntry};
use vstd::prelude::*;
use vstd::string::StringExecFns;

verus! {

/// The states the sync service goes through.
#[derive(Clone, Copy, Debug, PartialEq, Eq, Structural)]
pub enum SyncServiceState {
    Idle,
    Running,
    Terminated,
    Offline,
    Error,
}

/// What the status bar says when the sync service fails.
pub open spec fn sync_failure_text() -> Seq<char> {
    "Sync error encountered. This may be due to missing server support for Sliding Sync (MSC4186) or network issues."@
}

/// The sync status shown for a state of the sync service: idle means
/// connected, running means syncing, terminated or offline means
/// disconnected, and a failure shows [`sync_failure_text`].
pub open spec fn status_for_state(state: SyncServiceState, status: SyncStatus) -> bool {
    match state {
        SyncServiceState::Idle => status == SyncStatus::Connected,
        SyncServiceState::Running => status == SyncStatus::Syncing,
        SyncServiceState::Terminated => status == SyncStatus::Disconnected,
        SyncServiceState::Offline => status == SyncStatus::Disconnected,
        SyncServiceState::Error => status matches SyncStatus::Error(t) && t@ == sync_failure_text(),
    }
}

/// The sync status for a new state of the sync service.
pub fn sync_status_for(state: SyncServiceState) -> (status: SyncStatus)
    ensures
        status_for_state(state, status),
{
    match state {
        SyncServiceState::Idle => SyncStatus::Connected,
        SyncServiceState::Running => SyncStatus::Syncing,
        SyncServiceState::Terminated => SyncStatus::Disconnected,
        SyncServiceState::Offline => SyncStatus::Disconnected,
        SyncServiceState::Error => SyncStatus::Error(
            String::from_str(
                "Sync error encountered. This may be due to missing server support for Sliding Sync (MSC4186) or network issues.",
            ),
        ),
    }
}

/// The present values of a list, in order.
pub open spec fn somes<T>(s: Seq<Option<T>>) -> Seq<T>
    decreases s.len(),
{
    if s.len() == 0 {
        Seq::empty()
    } else {
        let init = somes(s.drop_last());
        match s.last() {
            Some(v) => init.push(v),
            None => init,
        }
    }
}

/// A room-list change whose rooms were looked up (`None` where a room's data
/// could not be had), as the room list receives it: a change of one room
/// whose data is missing is dropped; a change of many rooms keeps those that
/// were found, in order; a change without rooms passes unchanged.
pub open spec fn room_diff_after_fetch(d: VectorDiff<Option<RoomData>>, r: Option<VectorDiff<RoomData>>) -> bool {
    match d {
        VectorDiff::Append { values } => r matches Some(VectorDiff::Append { values: v }) && v@ == somes(values@),
        VectorDiff::Reset { values } => r matches Some(VectorDiff::Reset { values: v }) && v@ == somes(values@),
        VectorDiff::Insert { index, value } => match value {
            Some(x) => r == Some(VectorDiff::Insert { index, value: x }),
            None => r is None,
        },
        VectorDiff::Replace { index, value } => match value {
            Some(x) => r == Some(VectorDiff::Replace { index, value: x }),
            None => r is None,
        },
        VectorDiff::PushBack { value } => match value {
            Some(x) => r == Some(VectorDiff::PushBack { value: x }),
            None => r is None,
        },
        VectorDiff::PushFront { value } => match value {
            Some(x) => r == Some(VectorDiff::PushFront { value: x }),
            None => r is None,
        },
        VectorDiff::Remove { index } => r == Some(VectorDiff::<RoomData>::Remove { index }),
        VectorDiff::Truncate { length } => r == Some(VectorDiff::<RoomData>::Truncate { length }),
        VectorDiff::PopBack => r == Some(VectorDiff::<RoomData>::PopBack),
        VectorDiff::PopFront => r == Some(VectorDiff::<RoomData>::PopFront),
        VectorDiff::Clear => r == Some(VectorDiff::<RoomData>::Clear),
    }
}

/// The rooms that were found, in order.
fn found_rooms(values: Vec<Option<RoomData>>) -> (found: Vec<RoomData>)
    ensures
        found@ == somes(values@),
{
    let ghost all = values@;
    let mut rest = values;
    assert(rest.len() <= usize::MAX);
    let mut found: Vec<RoomData> = Vec::new();
    let mut taken: usize = 0;
    while rest.len() > 0
        invariant
            all.len() <= usize::MAX,
            taken + rest@.len() == all.len(),
            rest@ == all.skip(taken as int),
            found@ == somes(all.take(taken as int)),
        decreases rest@.len(),
    {
        let ghost before = all.take(taken as int);
        assert(all.take(taken + 1).drop_last() =~= before);
        assert(all.take(taken + 1).last() == rest@[0]);
        let next = rest.remove(0);
        if let Some(room) = next {
            found.push(room);
        }
        taken = taken + 1;
        assert(rest@ =~= all.skip(taken as int));
    }
    assert(all.take(taken as int) =~= all);
    found
}

/// The room-list change to report once the rooms of `diff` were looked up.
pub fn room_diff_with_data(diff: VectorDiff<Option<RoomData>>) -> (r: Option<VectorDiff<RoomData>>)
    ensures
        room_diff_after_fetch(diff, r),
{
    match diff {
        VectorDiff::Append { values } => Some(VectorDiff::Append { values: found_rooms(values) }),
        VectorDiff::Reset { values } => Some(VectorDiff::Reset { values: found_rooms(values) }),
        VectorDiff::Insert { index, value } => match value {
            Some(x) => Some(VectorDiff::Insert { index, value: x }),
            None => None,
        },
        VectorDiff::Replace { index, value } => match value {
            Some(x) => Some(VectorDiff::Replace { index, value: x }),
            None => None,
        },
        VectorDiff::PushBack { value } => match value {
            Some(x) => Some(VectorDiff::PushBack { value: x }),
            None => None,
        },
        VectorDiff::PushFront { value } => match value {
            Some(x) => Some(VectorDiff::PushFront { value: x }),
            None => None,
        },
        VectorDiff::Remove { index } => Some(VectorDiff::Remove { index }),
        VectorDiff::Truncate { length } => Some(VectorDiff::Truncate { length }),
        VectorDiff::PopBack => Some(VectorDiff::PopBack),
        VectorDiff::PopFront => Some(VectorDiff::PopFront),
        VectorDiff::Clear => Some(VectorDiff::Clear),
    }
}

/// The insertions that build `items` one by one from an empty list.
pub open spec fn inserts_of(items: Seq<TimelineEntry>) -> Seq<VectorDiff<TimelineEntry>> {
    Seq::new(items.len(), |i: int| VectorDiff::Insert { index: i as usize, value: items[i] })
}

/// What a timeline subscription reports first: a reset, each item inserted
/// at its position, and the end of the initial load.
pub open spec fn initial_timeline(items: Seq<TimelineEntry>) -> Seq<MatrixEvent> {
    seq![MatrixEvent::TimelineReset] + inserts_of(items).map_values(
        |d: VectorDiff<TimelineEntry>| MatrixEvent::TimelineDiff(d),
    ) + seq![MatrixEvent::TimelineInitFinished]
}

/// The events that report the first load of a room's timeline.
pub fn initial_timeline_events(items: &Vec<TimelineEntry>) -> (events: Vec<MatrixEvent>)
    ensures
        events@ == initial_timeline(items@),
{
    let mut events: Vec<MatrixEvent> = Vec::new();
    events.push(MatrixEvent::TimelineReset);
    let mut i: usize = 0;
    while i < items.len()
        invariant
            i <= items.len(),
            events@ == seq![MatrixEvent::TimelineReset] + inserts_of(items@.take(i as int)).map_values(
                |d: VectorDiff<TimelineEntry>| MatrixEvent::TimelineDiff(d),
            ),
        decreases items.len() - i,
    {
        let item = items[i].duplicate();
        events.push(MatrixEvent::TimelineDiff(VectorDiff::Insert { index: i, value: item }));
        i = i + 1;
        assert(inserts_of(items@.take(i as int)) =~= inserts_of(items@.take(i - 1)).push(
            VectorDiff::Insert { index: (i - 1) as usize, value: items@[i - 1] },
        ));
        assert(events@ =~= seq![MatrixEvent::TimelineReset] + inserts_of(items@.take(i as int)).map_values(
            |d: VectorDiff<TimelineEntry>| MatrixEvent::TimelineDiff(d),
        ));
    }
    assert(items@.take(i as int) =~= items@);
    events.push(MatrixEvent::TimelineInitFinished);
    assert(events@ =~= initial_timeline(items@));
    events
}

/// What a thread subscription reports first: a reset of the thread, each
/// item inserted at its position, and the end of the initial load, all
/// naming the thread's root.
pub open spec fn initial_thread(root: String, items: Seq<TimelineEntry>) -> Seq<Message> {
    seq![Message::MatrixThreadReset(root)] + inserts_of(items).map_values(
        |d: VectorDiff<TimelineEntry>| Message::MatrixThreadDiff(root, d),
    ) + seq![Message::MatrixThreadInitFinished(root)]
}

/// The messages that report the first load of a thread's timeline.
pub fn initial_thread_messages(root: &String, items: &Vec<TimelineEntry>) -> (messages: Vec<Message>)
    ensures
        messages@ == initial_thread(*root, items@),
{
    let mut messages: Vec<Message> = Vec::new();
    messages.push(Message::MatrixThreadReset(root.clone()));
    let mut i: usize = 0;
    while i < items.len()
        invariant
            i <= items.len(),
            messages@ == seq![Message::MatrixThreadReset(*root)] + inserts_of(items@.take(i as int)).map_values(
                |d: VectorDiff<TimelineEntry>| Message::MatrixThreadDiff(*root, d),
            ),
        decreases items.len() - i,
    {
        let item = items[i].duplicate();
        messages.push(Message::MatrixThreadDiff(root.clone(), VectorDiff::Insert { index: i, value: item }));
        i = i + 1;
        assert(inserts_of(items@.take(i as int)) =~= inserts_of(items@.take(i - 1)).push(
            VectorDiff::Insert { index: (i - 1) as usize, value: items@[i - 1] },
        ));
        assert(messages@ =~= seq![Message::MatrixThreadReset(*root)] + inserts_of(items@.take(i as int)).map_values(
            |d: VectorDiff<TimelineEntry>| Message::MatrixThreadDiff(*root, d),
        ));
    }
    assert(items@.take(i as int) =~= items@);
    messages.push(Message::MatrixThreadInitFinished(root.clone()));
    assert(messages@ =~= initial_thread(*root, items@));
    messages
}

/// A list after a run of changes, applied in order.
pub open spec fn applied_all<T>(s: Seq<T>, diffs: Seq<VectorDiff<T>>) -> Seq<T>
    decreases diffs.len(),
{
    if diffs.len() == 0 {
        s
    } else {
        applied(applied_all(s, diffs.drop_last()), diffs.last())
    }
}

/// Every change of a run applies to the list as the earlier ones left it.
pub open spec fn all_applicable<T>(s: Seq<T>, diffs: Seq<VectorDiff<T>>) -> bool {
    forall|k: int| 0 <= k < diffs.len() ==> diff_applicable(
        applied_all(s, #[trigger] diffs.take(k)).len(),
        diffs[k],
    )
}

/// The insertions of a first load rebuild the loaded items exactly: applied
/// to an empty list, in order, each applies and together they give `items`.
pub proof fn lemma_initial_inserts_rebuild(items: Seq<TimelineEntry>)
    requires
        items.len() <= usize::MAX,
    ensures
        applied_all(Seq::empty(), inserts_of(items)) == items,
        all_applicable(Seq::empty(), inserts_of(items)),
    decreases items.len(),
{
    if items.len() > 0 {
        let init = items.drop_last();
        lemma_initial_inserts_rebuild(init);
        assert(inserts_of(items).drop_last() =~= inserts_of(init));
        assert(init.insert(init.len() as int, items.last()) =~= items);
        assert forall|k: int| 0 <= k < inserts_of(items).len() implies diff_applicable(
            applied_all(Seq::<TimelineEntry>::empty(), #[trigger] inserts_of(items).take(k)).len(),
            inserts_of(items)[k],
        ) by {
            if k < init.len() {
                assert(inserts_of(items).take(k) =~= inserts_of(init).take(k));
            } else {
                assert(inserts_of(items).take(k) =~= inserts_of(init));
            }
        }
    } else {
        assert(inserts_of(items) =~= Seq::<VectorDiff<TimelineEntry>>::empty());
    }
}

/// The message for a URI handed over by another instance, given whether it
/// parses as a URL: an OIDC callback when it does, nothing otherwise.
pub fn handover_for(uri: String, is_url: bool) -> (m: Option<Message>)
    ensures
        is_url ==> m == Some(Message::OidcCallback(uri)),
        !is_url ==> m is None,
{
    if is_url {
        Some(Message::OidcCallback(uri))
    } else {
        None
    }
}

/// The message for a URI handed over by another instance of the client: an
/// OIDC callback when it parses as a URL, nothing otherwise.
pub fn ipc_message(uri: String) -> (m: Option<Message>)
    ensures
        is_absolute_url(uri@) ==> m == Some(Message::OidcCallback(uri)),
        !is_absolute_url(uri@) ==> m is None,
{
    let is_url = url_parses(uri.as_str());
    handover_for(uri, is_url)
}

} // verus!
