//! The timelines: applying their changes, counting thread replies, the
//! initial scroll position, and paginating backwards.
use crate::constellations::session::string_views;
use crate::constellations::{single, Constellations, Effect, Timeline, HISTORY_PAGE_SIZE};
use crate::matrix::diff::{diff_applicable, VectorDiff};
use crate::matrix::spaces::copy_opt_string;
use crate::matrix::{MatrixEvent, RoomData};
use vstd::hash_set::StringHashSet;
use crate::matrix::TimelineEntry;
use vstd::hash_map::StringHashMap;
use vstd::prelude::*;

verus! {

/// Whether a timeline item counts as a reply in a thread: it is a room event
/// and names a thread root.
pub open spec fn counts_toward_thread(e: TimelineEntry) -> bool {
    e.is_event && e.thread_root_id is Some
}

/// How many items of `items` are replies in the thread rooted at `root`.
pub open spec fn thread_count(items: Seq<TimelineEntry>, root: Seq<char>) -> nat
    decreases items.len(),
{
    if items.len() == 0 {
        0
    } else {
        thread_count(items.drop_last(), root) + if counts_toward_thread(items.last())
            && items.last().thread_root_id.unwrap()@ == root {
            1nat
        } else {
            0nat
        }
    }
}

/// The reply count of every thread that has replies in `items`.
#[verifier::opaque]
pub open spec fn thread_count_map(items: Seq<TimelineEntry>) -> Map<Seq<char>, usize> {
    Map::new(|root: Seq<char>| thread_count(items, root) > 0, |root: Seq<char>| thread_count(items, root) as usize)
}

/// `counts` holds exactly the reply count of every thread in `items`.
pub open spec fn counts_threads_of(counts: Map<Seq<char>, usize>, items: Seq<TimelineEntry>) -> bool {
    counts == thread_count_map(items)
}

proof fn lemma_thread_count_bounded(items: Seq<TimelineEntry>, root: Seq<char>)
    ensures
        thread_count(items, root) <= items.len(),
    decreases items.len(),
{
    if items.len() > 0 {
        lemma_thread_count_bounded(items.drop_last(), root);
    }
}

proof fn lemma_thread_count_step(items: Seq<TimelineEntry>, i: int, root: Seq<char>)
    requires
        0 <= i < items.len(),
    ensures
        thread_count(items.take(i + 1), root) == thread_count(items.take(i), root) + if counts_toward_thread(items[i])
            && items[i].thread_root_id.unwrap()@ == root {
            1nat
        } else {
            0nat
        },
{
    assert(items.take(i + 1).drop_last() =~= items.take(i));
}

/// The reply count of every thread in `items`.
pub fn count_thread_replies(items: &Vec<TimelineEntry>) -> (counts: StringHashMap<usize>)
    ensures
        counts_threads_of(counts@, items@),
{
    reveal(thread_count_map);
    let mut counts: StringHashMap<usize> = StringHashMap::new();
    let n = items.len();
    let mut i: usize = 0;
    while i < n
        invariant
            0 <= i <= n,
            n == items@.len(),
            counts@ == thread_count_map(items@.take(i as int)),
        decreases n - i,
    {
        let ghost s = items@;
        proof {
            reveal(thread_count_map);
            assert forall|r: Seq<char>|
                #![trigger thread_count(s.take(i + 1), r)]
                true implies thread_count(s.take(i + 1), r) == thread_count(s.take(i as int), r)
                    + if counts_toward_thread(s[i as int]) && s[i as int].thread_root_id.unwrap()@
                    == r {
                    1nat
                } else {
                    0nat
                } by {
                lemma_thread_count_step(s, i as int, r);
            }
        }
        if items[i].is_event {
            match &items[i].thread_root_id {
                Some(root) => {
                    let current: usize = match counts.get(root.as_str()) {
                        Some(v) => *v,
                        None => 0,
                    };
                    proof {
                        lemma_thread_count_bounded(s.take(i as int), root@);
                    }
                    counts.insert(root.clone(), current + 1);
                    assert(counts@ =~= thread_count_map(s.take(i + 1)));
                },
                None => {
                    assert(thread_count_map(s.take(i + 1)) =~= thread_count_map(s.take(i as int)));
                },
            }
        } else {
            assert(thread_count_map(s.take(i + 1)) =~= thread_count_map(s.take(i as int)));
        }
        i = i + 1;
    }
    assert(items@.take(n as int) =~= items@);
    counts
}

/// The media of one timeline item worth fetching: the sender's avatar, and
/// with media previews on, the image it shows, when they are not cached.
pub open spec fn item_media(e: TimelineEntry, cache: Map<Seq<char>, Vec<u8>>, previews: bool) -> Seq<Seq<char>> {
    if !e.is_event {
        Seq::empty()
    } else {
        let avatar = match e.sender_avatar_url {
            Some(u) => if cache.contains_key(u@) {
                Seq::empty()
            } else {
                seq![u@]
            },
            None => Seq::empty(),
        };
        let image = match e.image_url {
            Some(u) => if previews && !cache.contains_key(u@) {
                seq![u@]
            } else {
                Seq::empty()
            },
            None => Seq::empty(),
        };
        avatar + image
    }
}

/// The media worth fetching of a list of timeline items, in order.
pub open spec fn items_media(items: Seq<TimelineEntry>, cache: Map<Seq<char>, Vec<u8>>, previews: bool) -> Seq<Seq<char>>
    decreases items.len(),
{
    if items.len() == 0 {
        Seq::empty()
    } else {
        items_media(items.drop_last(), cache, previews) + item_media(items.last(), cache, previews)
    }
}

/// The items a change brings into a list.
pub open spec fn diff_items<T>(d: VectorDiff<T>) -> Seq<T> {
    match d {
        VectorDiff::Insert { value, .. } => seq![value],
        VectorDiff::Replace { value, .. } => seq![value],
        VectorDiff::PushBack { value } => seq![value],
        VectorDiff::PushFront { value } => seq![value],
        VectorDiff::Append { values } => values@,
        VectorDiff::Reset { values } => values@,
        _ => Seq::empty(),
    }
}

/// A change adds items after the last one of a list of `len` items.
pub open spec fn diff_appends<T>(len: nat, d: VectorDiff<T>) -> bool {
    match d {
        VectorDiff::PushBack { .. } => true,
        VectorDiff::Append { .. } => true,
        VectorDiff::Insert { index, .. } => index >= len,
        _ => false,
    }
}

/// A change adds items before the ones shown (a reset counts as one while
/// older items are being loaded).
pub open spec fn diff_prepends<T>(len: nat, d: VectorDiff<T>, loading: bool) -> bool {
    match d {
        VectorDiff::PushFront { .. } => true,
        VectorDiff::Insert { index, .. } => index < len,
        VectorDiff::Reset { .. } => loading,
        _ => false,
    }
}

/// A change replaces the whole list.
pub open spec fn diff_resets<T>(d: VectorDiff<T>) -> bool {
    d is Reset || d is Clear
}

/// Scrolling that keeps a timeline where the user left it: at the newest item
/// when it was at the bottom, else at the saved offset.
pub open spec fn settle(thread: bool, at_bottom: bool) -> Effect {
    if at_bottom {
        Effect::SnapToEnd { thread }
    } else {
        Effect::ScrollToSaved { thread }
    }
}

/// The scrolling that restores the visible timeline (the thread's when one
/// is open).
pub open spec fn restore_scroll(c: Constellations) -> Effect {
    if c.timeline.active_thread_root is Some {
        settle(true, c.timeline.is_threaded_timeline_at_bottom)
    } else {
        settle(false, c.timeline.is_timeline_at_bottom)
    }
}

/// The unread count of the first room of `rooms` with id `id` (0 when there
/// is none).
pub open spec fn room_unread(rooms: Seq<RoomData>, id: Seq<char>) -> u32
    decreases rooms.len(),
{
    if rooms.len() == 0 {
        0
    } else if rooms[0].id@ == id {
        rooms[0].unread_count
    } else {
        room_unread(rooms.drop_first(), id)
    }
}

/// The first scroll of a freshly opened room is due: it is wanted, no page is
/// loading, and the timeline finished initialising.
pub open spec fn initial_scroll_due(t: Timeline) -> bool {
    t.needs_initial_scroll && !t.is_loading_more && t.is_timeline_initialized
}

/// The first scroll of a room showing `total` messages, when `due`: to the
/// newest message when the room was just joined or has nothing unread, else
/// to the first unread message (to the top when every loaded message is
/// unread).
pub open spec fn first_scroll(
    due: bool,
    total: nat,
    selected: Option<String>,
    rooms: Seq<RoomData>,
    first_time: bool,
) -> Option<Effect> {
    if !due || total == 0 {
        None
    } else {
        match selected {
            None => None,
            Some(room) => {
                let unread = room_unread(rooms, room@);
                Some(
                    if first_time || unread == 0 {
                        Effect::SnapToEnd { thread: false }
                    } else if unread >= total {
                        Effect::SnapToUnread { unread: total as usize, total: total as usize }
                    } else {
                        Effect::SnapToUnread { unread: unread as usize, total: total as usize }
                    },
                )
            },
        }
    }
}

/// The first scroll of the state's selected room (see [`first_scroll`]).
pub open spec fn initial_scroll_effect(c: Constellations) -> Option<Effect> {
    first_scroll(
        initial_scroll_due(c.timeline),
        c.timeline.timeline_items@.len(),
        c.rooms.selected_room,
        c.rooms.room_list@,
        c.rooms.is_first_time_joining,
    )
}

/// The state after the first-scroll check: the wish is consumed when due.
pub open spec fn after_initial_scroll(c: Constellations) -> Constellations {
    Constellations {
        timeline: Timeline {
            needs_initial_scroll: c.timeline.needs_initial_scroll && !initial_scroll_due(c.timeline),
            ..c.timeline
        },
        ..c
    }
}

/// The diff is for the open thread.
pub open spec fn thread_matches(c: Constellations, root_id: Option<String>) -> bool {
    root_id is Some && c.timeline.active_thread_root is Some && c.timeline.active_thread_root.unwrap()@
        == root_id.unwrap()@
}

/// The change can be applied to the timeline it is for.
pub open spec fn timeline_diff_fits(
    c: Constellations,
    diff: VectorDiff<TimelineEntry>,
    is_thread: bool,
    root_id: Option<String>,
) -> bool {
    if is_thread {
        thread_matches(c, root_id) ==> diff_applicable(c.timeline.threaded_timeline_items@.len(), diff)
    } else {
        diff_applicable(c.timeline.timeline_items@.len(), diff)
    }
}

/// The media of a timeline change to fetch: none while the engine is down.
pub open spec fn diff_media(c: Constellations, diff: VectorDiff<TimelineEntry>) -> Seq<Seq<char>> {
    if c.session.engine_ready {
        items_media(diff_items(diff), c.media_cache@, c.prefs.media_previews_enabled)
    } else {
        Seq::empty()
    }
}

/// A thread change applied to the open thread.
pub open spec fn thread_diff_post(
    old: Constellations,
    new: Constellations,
    diff: VectorDiff<TimelineEntry>,
    effects: Seq<Effect>,
) -> bool {
    let len = old.timeline.threaded_timeline_items@.len();
    let appends = diff_appends(len, diff);
    let prepends = diff_prepends(len, diff, old.timeline.is_loading_more);
    let at_bottom = old.timeline.is_threaded_timeline_at_bottom;
    &&& new == (Constellations {
        timeline: Timeline {
            threaded_timeline_items: new.timeline.threaded_timeline_items,
            needs_threaded_scroll_adjustment: old.timeline.needs_threaded_scroll_adjustment || prepends,
            ..old.timeline
        },
        ..old
    })
    &&& new.timeline.threaded_timeline_items@ == crate::matrix::diff::applied(
        old.timeline.threaded_timeline_items@,
        diff,
    )
    &&& effects == if appends && at_bottom {
        seq![Effect::SnapToEnd { thread: true }]
    } else if diff_resets(diff) {
        seq![settle(true, at_bottom)]
    } else {
        Seq::empty()
    }
}

/// A change applied to the main timeline: the thread counts follow, the
/// first scroll happens when due, else the view follows new messages at the
/// bottom or is restored after a reset.
pub open spec fn main_diff_post(
    old: Constellations,
    new: Constellations,
    diff: VectorDiff<TimelineEntry>,
    effects: Seq<Effect>,
) -> bool {
    let len = old.timeline.timeline_items@.len();
    let appends = diff_appends(len, diff);
    let prepends = diff_prepends(len, diff, old.timeline.is_loading_more);
    let at_bottom = old.timeline.is_timeline_at_bottom;
    let due = initial_scroll_due(old.timeline);
    &&& new == (Constellations {
        timeline: Timeline {
            timeline_items: new.timeline.timeline_items,
            thread_counts: new.timeline.thread_counts,
            needs_scroll_adjustment: old.timeline.needs_scroll_adjustment || prepends,
            needs_initial_scroll: old.timeline.needs_initial_scroll && !due,
            ..old.timeline
        },
        ..old
    })
    &&& new.timeline.timeline_items@ == crate::matrix::diff::applied(old.timeline.timeline_items@, diff)
    &&& counts_threads_of(new.timeline.thread_counts@, new.timeline.timeline_items@)
    &&& effects == match first_scroll(
        due,
        new.timeline.timeline_items@.len(),
        old.rooms.selected_room,
        old.rooms.room_list@,
        old.rooms.is_first_time_joining,
    ) {
        Some(e) => seq![e],
        None => if appends && at_bottom {
            seq![Effect::SnapToEnd { thread: false }]
        } else if diff_resets(diff) {
            seq![settle(false, at_bottom)]
        } else {
            Seq::empty()
        },
    }
}

/// `handle_timeline_diff`: the media the change brings are fetched first; the
/// change goes to the open thread (and is dropped when it is for another
/// thread) or to the main timeline.
pub open spec fn timeline_diff_post(
    old: Constellations,
    new: Constellations,
    diff: VectorDiff<TimelineEntry>,
    is_thread: bool,
    root_id: Option<String>,
    effects: Seq<Effect>,
) -> bool {
    let media = diff_media(old, diff);
    let head = if media.len() > 0 {
        seq![effects[0]]
    } else {
        Seq::empty()
    };
    let tail = effects.skip(head.len() as int);
    &&& effects.len() >= head.len()
    &&& media.len() > 0 ==> (effects[0] matches Effect::FetchMediaBatch(urls) && string_views(urls@) == media)
    &&& if is_thread {
        if thread_matches(old, root_id) {
            thread_diff_post(old, new, diff, tail)
        } else {
            new == old && tail.len() == 0
        }
    } else {
        main_diff_post(old, new, diff, tail)
    }
}

/// The media of `e` worth fetching are appended to `urls`.
fn collect_item_media(e: &TimelineEntry, cache: &StringHashMap<Vec<u8>>, previews: bool, urls: &mut Vec<String>)
    ensures
        string_views(final(urls)@) == string_views(old(urls)@) + item_media(*e, cache@, previews),
{
    if !e.is_event {
        assert(string_views(urls@) =~= string_views(old(urls)@) + item_media(*e, cache@, previews));
        return;
    }
    match &e.sender_avatar_url {
        Some(u) => {
            if !cache.contains_key(u.as_str()) {
                urls.push(u.clone());
            }
        },
        None => {},
    }
    let ghost mid = urls@;
    match &e.image_url {
        Some(u) => {
            if previews && !cache.contains_key(u.as_str()) {
                urls.push(u.clone());
            }
        },
        None => {},
    }
    assert(string_views(urls@) =~= string_views(old(urls)@) + item_media(*e, cache@, previews));
}

/// The media of `items` worth fetching are appended to `urls`.
fn collect_items_media(items: &Vec<TimelineEntry>, cache: &StringHashMap<Vec<u8>>, previews: bool, urls: &mut Vec<String>)
    ensures
        string_views(final(urls)@) == string_views(old(urls)@) + items_media(items@, cache@, previews),
{
    let n = items.len();
    let mut i: usize = 0;
    while i < n
        invariant
            0 <= i <= n,
            n == items@.len(),
            string_views(urls@) == string_views(old(urls)@) + items_media(items@.take(i as int), cache@, previews),
        decreases n - i,
    {
        let ghost before = urls@;
        collect_item_media(&items[i], cache, previews, urls);
        assert(items@.take(i + 1).drop_last() =~= items@.take(i as int));
        assert(string_views(urls@) =~= string_views(old(urls)@) + items_media(items@.take(i + 1), cache@, previews));
        i = i + 1;
    }
    assert(items@.take(n as int) =~= items@);
}

/// The media of the items a change brings, worth fetching.
fn diff_media_urls(diff: &VectorDiff<TimelineEntry>, cache: &StringHashMap<Vec<u8>>, previews: bool) -> (urls: Vec<String>)
    ensures
        string_views(urls@) == items_media(diff_items(*diff), cache@, previews),
{
    let mut urls: Vec<String> = Vec::new();
    match diff {
        VectorDiff::Insert { value, .. } | VectorDiff::Replace { value, .. } | VectorDiff::PushBack { value }
        | VectorDiff::PushFront { value } => {
            assert(string_views(urls@) =~= Seq::<Seq<char>>::empty());
            collect_item_media(value, cache, previews, &mut urls);
            let ghost one = seq![*value];
            assert(one.drop_last() =~= Seq::<TimelineEntry>::empty());
            assert(items_media(one.drop_last(), cache@, previews) =~= Seq::<Seq<char>>::empty());
            assert(items_media(one, cache@, previews) =~= item_media(*value, cache@, previews));
            assert(string_views(urls@) =~= items_media(diff_items(*diff), cache@, previews));
        },
        VectorDiff::Append { values } | VectorDiff::Reset { values } => {
            assert(string_views(urls@) =~= Seq::<Seq<char>>::empty());
            collect_items_media(values, cache, previews, &mut urls);
            assert(string_views(urls@) =~= items_media(diff_items(*diff), cache@, previews));
        },
        _ => {
            assert(string_views(urls@) =~= items_media(diff_items(*diff), cache@, previews));
        },
    }
    urls
}

/// Whether a change appends, prepends, or resets (see [`diff_appends`],
/// [`diff_prepends`], [`diff_resets`]).
fn classify_diff(diff: &VectorDiff<TimelineEntry>, len: usize, loading: bool) -> (kind: (bool, bool, bool))
    ensures
        kind.0 == diff_appends(len as nat, *diff),
        kind.1 == diff_prepends(len as nat, *diff, loading),
        kind.2 == diff_resets(*diff),
{
    match diff {
        VectorDiff::PushBack { .. } => (true, false, false),
        VectorDiff::Append { .. } => (true, false, false),
        VectorDiff::Insert { index, .. } => (*index >= len, *index < len, false),
        VectorDiff::PushFront { .. } => (false, true, false),
        VectorDiff::Reset { .. } => (false, loading, true),
        VectorDiff::Clear => (false, false, true),
        _ => (false, false, false),
    }
}

/// Scrolling that keeps a timeline where the user left it (see [`settle`]).
pub fn settle_effect(thread: bool, at_bottom: bool) -> (e: Effect)
    ensures
        e == settle(thread, at_bottom),
{
    if at_bottom {
        Effect::SnapToEnd { thread }
    } else {
        Effect::ScrollToSaved { thread }
    }
}

/// Asks for older messages of the selected room (of the open thread when
/// `is_thread`), unless a page is already loading.
pub open spec fn load_more_post(old: Constellations, new: Constellations, is_thread: bool, effects: Seq<Effect>) -> bool {
    &&& if !old.timeline.is_loading_more && old.session.engine_ready
            && old.rooms.selected_room is Some {
            &&& new == (Constellations {
                timeline: Timeline { is_loading_more: true, ..old.timeline },
                ..old
            })
            &&& effects == seq![
                Effect::LoadMore {
                    room_id: old.rooms.selected_room.unwrap(),
                    thread_root: if is_thread {
                        old.timeline.active_thread_root
                    } else {
                        None
                    },
                    count: HISTORY_PAGE_SIZE,
                },
            ]
        } else {
            new == old && effects.len() == 0
        }
}

impl Constellations {
    /// Counts the replies of every thread in the main timeline.
    pub fn recompute_thread_counts(&mut self)
        ensures
            *final(self) == (Constellations {
                timeline: Timeline { thread_counts: final(self).timeline.thread_counts, ..old(self).timeline },
                ..*old(self)
            }),
            counts_threads_of(final(self).timeline.thread_counts@, old(self).timeline.timeline_items@),
    {
        let counts = count_thread_replies(&self.timeline.timeline_items);
        self.timeline.thread_counts = counts;
    }

    /// The scrolling that restores the visible timeline.
    pub fn restore_scroll_task(&self) -> (e: Effect)
        ensures
            e == restore_scroll(*self),
    {
        if self.timeline.active_thread_root.is_some() {
            settle_effect(true, self.timeline.is_threaded_timeline_at_bottom)
        } else {
            settle_effect(false, self.timeline.is_timeline_at_bottom)
        }
    }

    /// The unread count of the first room of the list with id `id`.
    fn unread_count_of(&self, id: &String) -> (n: u32)
        ensures
            n == room_unread(self.rooms.room_list@, id@),
    {
        let n = self.rooms.room_list.len();
        let mut i: usize = 0;
        assert(self.rooms.room_list@.skip(0) =~= self.rooms.room_list@);
        while i < n
            invariant
                0 <= i <= n,
                n == self.rooms.room_list@.len(),
                room_unread(self.rooms.room_list@, id@) == room_unread(self.rooms.room_list@.skip(i as int), id@),
            decreases n - i,
        {
            let ghost rest = self.rooms.room_list@.skip(i as int);
            assert(rest.drop_first() =~= self.rooms.room_list@.skip(i + 1));
            if self.rooms.room_list[i].id == *id {
                return self.rooms.room_list[i].unread_count;
            }
            i = i + 1;
        }
        0
    }

    /// Performs the first scroll of a freshly opened room when it is due (see
    /// [`initial_scroll_effect`]).
    pub fn check_and_perform_initial_scroll(&mut self) -> (e: Option<Effect>)
        ensures
            *final(self) == after_initial_scroll(*old(self)),
            e == initial_scroll_effect(*old(self)),
    {
        if !(self.timeline.needs_initial_scroll && !self.timeline.is_loading_more
            && self.timeline.is_timeline_initialized) {
            return None;
        }
        self.timeline.needs_initial_scroll = false;
        let total = self.timeline.timeline_items.len();
        if total == 0 {
            return None;
        }
        match &self.rooms.selected_room {
            None => None,
            Some(room) => {
                let unread = self.unread_count_of(room);
                if self.rooms.is_first_time_joining || unread == 0 {
                    Some(Effect::SnapToEnd { thread: false })
                } else if unread as usize >= total {
                    Some(Effect::SnapToUnread { unread: total, total })
                } else {
                    Some(Effect::SnapToUnread { unread: unread as usize, total })
                }
            },
        }
    }

    /// Applies a change to the open thread.
    fn apply_thread_diff(&mut self, diff: VectorDiff<TimelineEntry>) -> (effects: Vec<Effect>)
        requires
            diff_applicable(old(self).timeline.threaded_timeline_items@.len(), diff),
        ensures
            thread_diff_post(*old(self), *final(self), diff, effects@),
    {
        let (appends, prepends, resets) = classify_diff(
            &diff,
            self.timeline.threaded_timeline_items.len(),
            self.timeline.is_loading_more,
        );
        if prepends {
            self.timeline.needs_threaded_scroll_adjustment = true;
        }
        crate::matrix::diff::apply_diff(&mut self.timeline.threaded_timeline_items, diff);
        let at_bottom = self.timeline.is_threaded_timeline_at_bottom;
        if appends && at_bottom {
            single(Effect::SnapToEnd { thread: true })
        } else if resets {
            single(settle_effect(true, at_bottom))
        } else {
            Vec::new()
        }
    }

    /// Applies a change to the main timeline's items and recounts the thread
    /// replies; tells whether the change appends and whether it resets.
    fn apply_main_items(&mut self, diff: VectorDiff<TimelineEntry>) -> (kind: (bool, bool))
        requires
            diff_applicable(old(self).timeline.timeline_items@.len(), diff),
        ensures
            kind.0 == diff_appends(old(self).timeline.timeline_items@.len(), diff),
            kind.1 == diff_resets(diff),
            *final(self) == (Constellations {
                timeline: Timeline {
                    timeline_items: final(self).timeline.timeline_items,
                    thread_counts: final(self).timeline.thread_counts,
                    needs_scroll_adjustment: old(self).timeline.needs_scroll_adjustment || diff_prepends(
                        old(self).timeline.timeline_items@.len(),
                        diff,
                        old(self).timeline.is_loading_more,
                    ),
                    ..old(self).timeline
                },
                ..*old(self)
            }),
            final(self).timeline.timeline_items@ == crate::matrix::diff::applied(
                old(self).timeline.timeline_items@,
                diff,
            ),
            counts_threads_of(final(self).timeline.thread_counts@, final(self).timeline.timeline_items@),
    {
        let (appends, prepends, resets) = classify_diff(
            &diff,
            self.timeline.timeline_items.len(),
            self.timeline.is_loading_more,
        );
        if prepends {
            self.timeline.needs_scroll_adjustment = true;
        }
        crate::matrix::diff::apply_diff(&mut self.timeline.timeline_items, diff);
        self.recompute_thread_counts();
        (appends, resets)
    }

    /// Applies a change to the main timeline.
    fn apply_main_diff(&mut self, diff: VectorDiff<TimelineEntry>) -> (effects: Vec<Effect>)
        requires
            diff_applicable(old(self).timeline.timeline_items@.len(), diff),
        ensures
            main_diff_post(*old(self), *final(self), diff, effects@),
    {
        let (appends, resets) = self.apply_main_items(diff);
        let at_bottom = self.timeline.is_timeline_at_bottom;
        match self.check_and_perform_initial_scroll() {
            Some(e) => single(e),
            None => {
                if appends && at_bottom {
                    single(Effect::SnapToEnd { thread: false })
                } else if resets {
                    single(settle_effect(false, at_bottom))
                } else {
                    Vec::new()
                }
            },
        }
    }

    /// A change to the main timeline, or (`is_thread`) to the thread rooted
    /// at `root_id`.
    pub fn handle_timeline_diff(
        &mut self,
        diff: VectorDiff<TimelineEntry>,
        is_thread: bool,
        root_id: Option<String>,
    ) -> (effects: Vec<Effect>)
        requires
            timeline_diff_fits(*old(self), diff, is_thread, root_id),
        ensures
            timeline_diff_post(*old(self), *final(self), diff, is_thread, root_id, effects@),
    {
        let mut effects: Vec<Effect> = Vec::new();
        if self.session.engine_ready {
            let urls = diff_media_urls(&diff, &self.media_cache, self.prefs.media_previews_enabled);
            if urls.len() > 0 {
                effects.push(Effect::FetchMediaBatch(urls));
            }
        }
        let ghost head = effects@;
        let mut rest: Vec<Effect> = Vec::new();
        if is_thread {
            let matches = match (&root_id, &self.timeline.active_thread_root) {
                (Some(r), Some(a)) => *a == *r,
                _ => false,
            };
            if matches {
                rest = self.apply_thread_diff(diff);
            }
        } else {
            rest = self.apply_main_diff(diff);
        }
        let ghost tail = rest@;
        effects.append(&mut rest);
        assert(effects@.skip(head.len() as int) =~= tail);
        effects
    }

    /// Asks for older messages of the selected room (of the open thread when
    /// `is_thread`), unless a page is already loading.
    pub fn handle_load_more(&mut self, is_thread: bool) -> (effects: Vec<Effect>)
        ensures
            load_more_post(*old(self), *final(self), is_thread, effects@),
    {
        if self.timeline.is_loading_more || !self.session.engine_ready {
            return Vec::new();
        }
        match &self.rooms.selected_room {
            Some(room) => {
                let room_id = room.clone();
                let thread_root = if is_thread {
                    copy_opt_string(&self.timeline.active_thread_root)
                } else {
                    None
                };
                self.timeline.is_loading_more = true;
                single(Effect::LoadMore { room_id, thread_root, count: HISTORY_PAGE_SIZE })
            },
            None => Vec::new(),
        }
    }

    /// Fetches the media of both timelines that are not cached yet.
    pub fn fetch_missing_media(&mut self) -> (effects: Vec<Effect>)
        ensures
            *final(self) == *old(self),
            ({
                let media = items_media(
                    old(self).timeline.timeline_items@ + old(self).timeline.threaded_timeline_items@,
                    old(self).media_cache@,
                    old(self).prefs.media_previews_enabled,
                );
                if old(self).session.engine_ready && media.len() > 0 {
                    effects@.len() == 1 && (effects@[0] matches Effect::FetchMediaBatch(urls) && string_views(
                        urls@,
                    ) == media)
                } else {
                    effects@.len() == 0
                }
            }),
    {
        if !self.session.engine_ready {
            return Vec::new();
        }
        let mut urls: Vec<String> = Vec::new();
        collect_items_media(&self.timeline.timeline_items, &self.media_cache, self.prefs.media_previews_enabled, &mut urls);
        collect_items_media(
            &self.timeline.threaded_timeline_items,
            &self.media_cache,
            self.prefs.media_previews_enabled,
            &mut urls,
        );
        proof {
            lemma_items_media_concat(
                self.timeline.timeline_items@,
                self.timeline.threaded_timeline_items@,
                self.media_cache@,
                self.prefs.media_previews_enabled,
            );
        }
        if urls.len() > 0 {
            single(Effect::FetchMediaBatch(urls))
        } else {
            Vec::new()
        }
    }
}

/// The ids of the rooms of `rooms`.
pub open spec fn room_ids(rooms: Seq<RoomData>) -> Set<Seq<char>> {
    Set::new(|id: Seq<char>| exists|i: int| 0 <= i < rooms.len() && (#[trigger] rooms[i]).id@ == id)
}

/// The joined rooms after a change to the room list `rooms`: rooms a change
/// brings in are joined, rooms it takes out are left (a reset adds its rooms
/// to the known ones).
pub open spec fn joined_after(joined: Set<Seq<char>>, rooms: Seq<RoomData>, d: VectorDiff<RoomData>) -> Set<Seq<char>> {
    match d {
        VectorDiff::Insert { value, .. } => joined.insert(value.id@),
        VectorDiff::PushBack { value } => joined.insert(value.id@),
        VectorDiff::PushFront { value } => joined.insert(value.id@),
        VectorDiff::Remove { index } => if index < rooms.len() {
            joined.remove(rooms[index as int].id@)
        } else {
            joined
        },
        VectorDiff::Replace { index, value } => (if index < rooms.len() {
            joined.remove(rooms[index as int].id@)
        } else {
            joined
        }).insert(value.id@),
        VectorDiff::PopBack => if rooms.len() > 0 {
            joined.remove(rooms.last().id@)
        } else {
            joined
        },
        VectorDiff::PopFront => if rooms.len() > 0 {
            joined.remove(rooms[0].id@)
        } else {
            joined
        },
        VectorDiff::Clear => Set::empty(),
        VectorDiff::Reset { values } => joined + room_ids(values@),
        VectorDiff::Append { values } => joined + room_ids(values@),
        VectorDiff::Truncate { length } => if length <= rooms.len() {
            joined - room_ids(rooms.skip(length as int))
        } else {
            joined
        },
    }
}

/// The room-name cache after recording the name of every named room of
/// `rooms`, in order.
pub open spec fn names_after(cache: Map<Seq<char>, String>, rooms: Seq<RoomData>) -> Map<Seq<char>, String>
    decreases rooms.len(),
{
    if rooms.len() == 0 {
        cache
    } else {
        let before = names_after(cache, rooms.drop_last());
        match rooms.last().name {
            Some(n) => before.insert(rooms.last().id@, n),
            None => before,
        }
    }
}

/// `TimelineReset`: the main timeline is emptied; when it had finished
/// initialising (a reset in the background) its scroll position is to be
/// restored, else the room opens at its first scroll position.
pub open spec fn timeline_reset_post(old: Constellations, new: Constellations, effects: Seq<Effect>) -> bool {
    let background = old.timeline.is_timeline_initialized;
    &&& new == (Constellations {
        timeline: Timeline {
            timeline_items: new.timeline.timeline_items,
            thread_counts: new.timeline.thread_counts,
            needs_initial_scroll: !background,
            needs_scroll_restoration: background,
            needs_scroll_adjustment: false,
            is_timeline_at_bottom: background ==> old.timeline.is_timeline_at_bottom,
            is_threaded_timeline_at_bottom: background ==> old.timeline.is_threaded_timeline_at_bottom,
            is_timeline_initialized: false,
            ..old.timeline
        },
        ..old
    })
    &&& new.timeline.timeline_items@.len() == 0
    &&& new.timeline.thread_counts@ == Map::<Seq<char>, usize>::empty()
    &&& effects == seq![Effect::ResetScrollMetrics { thread: false, offset: false, width: true }]
}

/// `TimelineInitFinished`: the timeline is ready; a pending event focus is
/// consumed; a background reset restores the scroll position, else the first
/// scroll happens when due, else the pending focus is acted on.
pub open spec fn timeline_init_finished_post(old: Constellations, new: Constellations, effects: Seq<Effect>) -> bool {
    let due = old.timeline.needs_initial_scroll && !old.timeline.is_loading_more;
    let restoring = old.timeline.needs_scroll_restoration;
    let focus = match old.links.pending_event_focus {
        None => Seq::empty(),
        Some(event) => if crate::constellations::permalinks::has_event(old.timeline.timeline_items@, event@) {
            seq![Effect::Dispatch(crate::constellations::Message::JumpToMessage(event))]
        } else {
            seq![Effect::Dispatch(crate::constellations::Message::LoadEventContext(event))]
        },
    };
    &&& new == (Constellations {
        links: crate::constellations::Links { pending_event_focus: None, ..old.links },
        timeline: Timeline {
            is_timeline_initialized: true,
            needs_scroll_restoration: false,
            needs_initial_scroll: if restoring {
                old.timeline.needs_initial_scroll
            } else {
                old.timeline.needs_initial_scroll && !due
            },
            ..old.timeline
        },
        ..old
    })
    &&& effects == if restoring {
        seq![settle(false, old.timeline.is_timeline_at_bottom)]
    } else {
        match first_scroll(
            due,
            old.timeline.timeline_items@.len(),
            old.rooms.selected_room,
            old.rooms.room_list@,
            old.rooms.is_first_time_joining,
        ) {
            Some(e) => seq![e],
            None => focus,
        }
    }
}

/// `RoomDiff`: the joined rooms and the room-name cache follow the change to
/// the room list; the filtered lists and the title are refreshed.
pub open spec fn room_diff_post(old: Constellations, new: Constellations, d: VectorDiff<RoomData>, effects: Seq<Effect>) -> bool {
    &&& new == (Constellations {
        rooms: crate::constellations::Rooms {
            room_list: new.rooms.room_list,
            joined_room_ids: new.rooms.joined_room_ids,
            room_name_cache: new.rooms.room_name_cache,
            ..old.rooms
        },
        ..old
    })
    &&& new.rooms.room_list@ == crate::matrix::diff::applied(old.rooms.room_list@, d)
    &&& new.rooms.joined_room_ids@ == joined_after(old.rooms.joined_room_ids@, old.rooms.room_list@, d)
    &&& new.rooms.room_name_cache@ == names_after(old.rooms.room_name_cache@, new.rooms.room_list@)
    &&& effects == seq![Effect::UpdateFilteredRooms, Effect::UpdateTitle]
}

/// The change can be applied to the list it is for.
pub open spec fn matrix_event_fits(c: Constellations, event: MatrixEvent) -> bool {
    match event {
        MatrixEvent::RoomDiff(d) => diff_applicable(c.rooms.room_list@.len(), d),
        MatrixEvent::TimelineDiff(d) => timeline_diff_fits(c, d, false, None),
        _ => true,
    }
}

/// `handle_matrix_event`.
pub open spec fn matrix_event_post(old: Constellations, new: Constellations, event: MatrixEvent, effects: Seq<Effect>) -> bool {
    match event {
        MatrixEvent::SyncStatusChanged(status) => new == (Constellations {
            session: crate::constellations::Session { sync_status: status, ..old.session },
            ..old
        }) && effects.len() == 0,
        MatrixEvent::SyncIndicatorChanged(show) => new == (Constellations {
            session: crate::constellations::Session { is_sync_indicator_active: show, ..old.session },
            ..old
        }) && effects.len() == 0,
        MatrixEvent::RoomDiff(d) => room_diff_post(old, new, d, effects),
        MatrixEvent::TimelineDiff(d) => timeline_diff_post(old, new, d, false, None, effects),
        MatrixEvent::TimelineReset => timeline_reset_post(old, new, effects),
        MatrixEvent::TimelineInitFinished => timeline_init_finished_post(old, new, effects),
        MatrixEvent::ReactionAdded { .. } => new == old && effects.len() == 0,
        MatrixEvent::IgnoredUsersChanged(users) => new == (Constellations {
            prefs: crate::constellations::Preferences { ignored_users: users, ..old.prefs },
            ..old
        }) && effects.len() == 0,
        MatrixEvent::SpaceHierarchyChanged => new == old && effects == (if old.session.engine_ready
            && old.rooms.selected_space is Some {
            seq![Effect::UpdateRoomListFilter(old.rooms.selected_space)]
        } else {
            Seq::empty()
        }) + seq![Effect::UpdateFilteredRooms],
        MatrixEvent::CallParticipantsChanged { room_id, participants } => {
            &&& new == (Constellations {
                rooms: crate::constellations::Rooms {
                    call_participants: new.rooms.call_participants,
                    ..old.rooms
                },
                ..old
            })
            &&& new.rooms.call_participants@ == old.rooms.call_participants@.insert(room_id@, participants)
            &&& effects.len() == 0
        },
    }
}

/// Adds the ids of `rooms` to `joined`.
fn join_all(joined: &mut StringHashSet, rooms: &Vec<RoomData>)
    ensures
        final(joined)@ == old(joined)@ + room_ids(rooms@),
{
    let n = rooms.len();
    let mut i: usize = 0;
    while i < n
        invariant
            0 <= i <= n,
            n == rooms@.len(),
            joined@ == old(joined)@ + room_ids(rooms@.take(i as int)),
        decreases n - i,
    {
        joined.insert(rooms[i].id.clone());
        proof {
            let before = rooms@.take(i as int);
            let after = rooms@.take(i + 1);
            assert forall|id: Seq<char>| room_ids(after).contains(id) <==> (room_ids(before).contains(id) || id
                == rooms@[i as int].id@) by {
                if room_ids(after).contains(id) {
                    let k = choose|k: int| 0 <= k < after.len() && (#[trigger] after[k]).id@ == id;
                    if k < i {
                        assert(before[k] == after[k]);
                    }
                }
                if room_ids(before).contains(id) {
                    let k = choose|k: int| 0 <= k < before.len() && (#[trigger] before[k]).id@ == id;
                    assert(after[k] == before[k]);
                }
                if id == rooms@[i as int].id@ {
                    assert(after[i as int] == rooms@[i as int]);
                }
            }
            assert(joined@ =~= old(joined)@ + room_ids(after));
        }
        i = i + 1;
    }
    assert(rooms@.take(n as int) =~= rooms@);
}

/// Removes from `joined` the ids of the rooms of `rooms` from position `from`
/// on.
fn leave_from(joined: &mut StringHashSet, rooms: &Vec<RoomData>, from: usize)
    requires
        from <= rooms@.len(),
    ensures
        final(joined)@ == old(joined)@ - room_ids(rooms@.skip(from as int)),
{
    let n = rooms.len();
    let mut i: usize = from;
    assert(room_ids(rooms@.subrange(from as int, from as int)) =~= Set::<Seq<char>>::empty());
    assert(joined@ =~= old(joined)@ - room_ids(rooms@.subrange(from as int, from as int)));
    while i < n
        invariant
            from <= i <= n,
            n == rooms@.len(),
            joined@ == old(joined)@ - room_ids(rooms@.subrange(from as int, i as int)),
        decreases n - i,
    {
        joined.remove(rooms[i].id.as_str());
        proof {
            let before = rooms@.subrange(from as int, i as int);
            let after = rooms@.subrange(from as int, i + 1);
            assert forall|id: Seq<char>| room_ids(after).contains(id) <==> (room_ids(before).contains(id) || id
                == rooms@[i as int].id@) by {
                if room_ids(after).contains(id) {
                    let k = choose|k: int| 0 <= k < after.len() && (#[trigger] after[k]).id@ == id;
                    if k < i - from {
                        assert(before[k] == after[k]);
                    }
                }
                if room_ids(before).contains(id) {
                    let k = choose|k: int| 0 <= k < before.len() && (#[trigger] before[k]).id@ == id;
                    assert(after[k] == before[k]);
                }
                if id == rooms@[i as int].id@ {
                    assert(after[i - from] == rooms@[i as int]);
                }
            }
            assert(joined@ =~= old(joined)@ - room_ids(after));
        }
        i = i + 1;
    }
    assert(rooms@.subrange(from as int, n as int) =~= rooms@.skip(from as int));
}

/// Records the name of every named room of `rooms` in `cache`, in order.
fn cache_names(cache: &mut StringHashMap<String>, rooms: &Vec<RoomData>)
    ensures
        final(cache)@ == names_after(old(cache)@, rooms@),
{
    let n = rooms.len();
    let mut i: usize = 0;
    while i < n
        invariant
            0 <= i <= n,
            n == rooms@.len(),
            cache@ == names_after(old(cache)@, rooms@.take(i as int)),
        decreases n - i,
    {
        assert(rooms@.take(i + 1).drop_last() =~= rooms@.take(i as int));
        match &rooms[i].name {
            Some(name) => {
                cache.insert(rooms[i].id.clone(), name.clone());
            },
            None => {},
        }
        i = i + 1;
    }
    assert(rooms@.take(n as int) =~= rooms@);
}

/// The joined rooms after a change to the room list.
fn update_joined(joined: &mut StringHashSet, rooms: &Vec<RoomData>, d: &VectorDiff<RoomData>)
    ensures
        final(joined)@ == joined_after(old(joined)@, rooms@, *d),
{
    match d {
        VectorDiff::Insert { value, .. } | VectorDiff::PushBack { value } | VectorDiff::PushFront { value } => {
            joined.insert(value.id.clone());
        },
        VectorDiff::Remove { index } => {
            if *index < rooms.len() {
                joined.remove(rooms[*index].id.as_str());
            }
        },
        VectorDiff::Replace { index, value } => {
            if *index < rooms.len() {
                joined.remove(rooms[*index].id.as_str());
            }
            joined.insert(value.id.clone());
        },
        VectorDiff::PopBack => {
            if rooms.len() > 0 {
                joined.remove(rooms[rooms.len() - 1].id.as_str());
            }
        },
        VectorDiff::PopFront => {
            if rooms.len() > 0 {
                joined.remove(rooms[0].id.as_str());
            }
        },
        VectorDiff::Clear => {
            joined.clear();
        },
        VectorDiff::Reset { values } | VectorDiff::Append { values } => {
            join_all(joined, values);
        },
        VectorDiff::Truncate { length } => {
            if *length <= rooms.len() {
                leave_from(joined, rooms, *length);
            }
        },
    }
}

impl Constellations {
    /// A change to the room list.
    fn handle_room_diff(&mut self, d: VectorDiff<RoomData>) -> (effects: Vec<Effect>)
        requires
            diff_applicable(old(self).rooms.room_list@.len(), d),
        ensures
            room_diff_post(*old(self), *final(self), d, effects@),
    {
        update_joined(&mut self.rooms.joined_room_ids, &self.rooms.room_list, &d);
        crate::matrix::diff::apply_diff(&mut self.rooms.room_list, d);
        cache_names(&mut self.rooms.room_name_cache, &self.rooms.room_list);
        let mut effects = single(Effect::UpdateFilteredRooms);
        effects.push(Effect::UpdateTitle);
        assert(effects@ =~= seq![Effect::UpdateFilteredRooms, Effect::UpdateTitle]);
        effects
    }

    /// The main timeline was reset.
    fn handle_timeline_reset(&mut self) -> (effects: Vec<Effect>)
        ensures
            timeline_reset_post(*old(self), *final(self), effects@),
    {
        let background = self.timeline.is_timeline_initialized;
        self.timeline.timeline_items.clear();
        self.timeline.thread_counts.clear();
        self.timeline.needs_initial_scroll = !background;
        self.timeline.needs_scroll_restoration = background;
        self.timeline.needs_scroll_adjustment = false;
        if !background {
            self.timeline.is_timeline_at_bottom = true;
            self.timeline.is_threaded_timeline_at_bottom = true;
        }
        self.timeline.is_timeline_initialized = false;
        single(Effect::ResetScrollMetrics { thread: false, offset: false, width: true })
    }

    /// The main timeline finished initialising.
    fn handle_timeline_init_finished(&mut self) -> (effects: Vec<Effect>)
        ensures
            timeline_init_finished_post(*old(self), *final(self), effects@),
    {
        self.timeline.is_timeline_initialized = true;
        let ghost s1 = *self;
        let focus = self.check_pending_event_focus();
        proof {
            let focus_spec = match old(self).links.pending_event_focus {
                None => Seq::empty(),
                Some(event) => if crate::constellations::permalinks::has_event(
                    old(self).timeline.timeline_items@,
                    event@,
                ) {
                    seq![Effect::Dispatch(crate::constellations::Message::JumpToMessage(event))]
                } else {
                    seq![Effect::Dispatch(crate::constellations::Message::LoadEventContext(event))]
                },
            };
            assert(s1.timeline.timeline_items == old(self).timeline.timeline_items);
            assert(focus@ == focus_spec);
            assert(self.timeline == s1.timeline);
            assert(self.rooms == old(self).rooms);
        }
        if self.timeline.needs_scroll_restoration {
            self.timeline.needs_scroll_restoration = false;
            single(settle_effect(false, self.timeline.is_timeline_at_bottom))
        } else {
            match self.check_and_perform_initial_scroll() {
                Some(e) => single(e),
                None => focus,
            }
        }
    }

    /// An event of the sync loop.
    pub fn handle_matrix_event(&mut self, event: MatrixEvent) -> (effects: Vec<Effect>)
        requires
            matrix_event_fits(*old(self), event),
        ensures
            matrix_event_post(*old(self), *final(self), event, effects@),
    {
        match event {
            MatrixEvent::SyncStatusChanged(status) => {
                self.session.sync_status = status;
                Vec::new()
            },
            MatrixEvent::SyncIndicatorChanged(show) => {
                self.session.is_sync_indicator_active = show;
                Vec::new()
            },
            MatrixEvent::RoomDiff(d) => self.handle_room_diff(d),
            MatrixEvent::TimelineDiff(d) => self.handle_timeline_diff(d, false, None),
            MatrixEvent::TimelineReset => self.handle_timeline_reset(),
            MatrixEvent::TimelineInitFinished => self.handle_timeline_init_finished(),
            MatrixEvent::ReactionAdded { .. } => Vec::new(),
            MatrixEvent::IgnoredUsersChanged(users) => {
                self.prefs.ignored_users = users;
                Vec::new()
            },
            MatrixEvent::SpaceHierarchyChanged => {
                let mut effects: Vec<Effect> = Vec::new();
                if self.session.engine_ready {
                    match &self.rooms.selected_space {
                        Some(space) => {
                            effects.push(Effect::UpdateRoomListFilter(Some(space.clone())));
                        },
                        None => {},
                    }
                }
                let ghost before = effects@;
                effects.push(Effect::UpdateFilteredRooms);
                assert(effects@ =~= before + seq![Effect::UpdateFilteredRooms]);
                effects
            },
            MatrixEvent::CallParticipantsChanged { room_id, participants } => {
                self.rooms.call_participants.insert(room_id, participants);
                Vec::new()
            },
        }
    }
}

proof fn lemma_items_media_concat(a: Seq<TimelineEntry>, b: Seq<TimelineEntry>, cache: Map<Seq<char>, Vec<u8>>, previews: bool)
    ensures
        items_media(a + b, cache, previews) == items_media(a, cache, previews) + items_media(b, cache, previews),
    decreases b.len(),
{
    if b.len() == 0 {
        assert(a + b =~= a);
        assert(items_media(b, cache, previews) =~= Seq::<Seq<char>>::empty());
        assert(items_media(a, cache, previews) + items_media(b, cache, previews) =~= items_media(a, cache, previews));
    } else {
        lemma_items_media_concat(a, b.drop_last(), cache, previews);
        assert((a + b).drop_last() =~= a + b.drop_last());
        assert((a + b).last() == b.last());
        assert(items_media(a + b, cache, previews) =~= items_media(a, cache, previews) + items_media(b, cache, previews));
    }
}

} // verus!
