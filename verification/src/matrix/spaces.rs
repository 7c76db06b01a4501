//! The space hierarchy: which rooms (and sub-spaces) each space contains.
//!
//! The hierarchy is a directed graph whose edges go from a space to one of its
//! children.  Each edge carries the child's ordering hint and "suggested" flag.
//! A room is *in* a space when the space can be reached from the room by
//! walking up parent links any number of times (zero included).
use vstd::prelude::*;

verus! {

/// Ordering hint and "suggested" flag of one child within a space.
pub struct ChildData {
    pub order: Option<String>,
    pub suggested: bool,
}

/// The abstract value of a [`ChildData`].
pub struct ChildDataView {
    pub order: Option<Seq<char>>,
    pub suggested: bool,
}

/// The abstract value of an optional string.
pub open spec fn opt_view(o: Option<String>) -> Option<Seq<char>> {
    match o {
        Some(s) => Some(s@),
        None => None,
    }
}

impl View for ChildData {
    type V = ChildDataView;

    open spec fn view(&self) -> ChildDataView {
        ChildDataView { order: opt_view(self.order), suggested: self.suggested }
    }
}

/// A copy of an optional string.
pub fn copy_opt_string(o: &Option<String>) -> (r: Option<String>)
    ensures
        r == *o,
        opt_view(r) == opt_view(*o),
{
    match o {
        Some(s) => Some(s.clone()),
        None => None,
    }
}

impl ChildData {
    /// A copy of this child data.
    pub fn duplicate(&self) -> (r: ChildData)
        ensures
            r@ == self@,
    {
        ChildData { order: copy_opt_string(&self.order), suggested: self.suggested }
    }
}

/// One parent/child edge of the hierarchy.
struct SpaceLink {
    space_id: String,
    child_id: String,
    data: ChildData,
}

spec fn link_key(l: SpaceLink) -> (Seq<char>, Seq<char>) {
    (l.space_id@, l.child_id@)
}

/// The abstract value of a [`SpaceHierarchy`].
pub struct SpaceHierarchyView {
    /// `(space, child)` to the child's data, for every edge of the graph.
    pub links: Map<(Seq<char>, Seq<char>), ChildDataView>,
    /// Every space the hierarchy has heard of.
    pub known: Set<Seq<char>>,
}

/// The space hierarchy of the rooms the user has joined.
pub struct SpaceHierarchy {
    links: Vec<SpaceLink>,
    known_spaces: Vec<String>,
}

spec fn links_view(links: Seq<SpaceLink>) -> Map<(Seq<char>, Seq<char>), ChildDataView> {
    Map::new(
        |k: (Seq<char>, Seq<char>)| exists|i: int| 0 <= i < links.len() && link_key(links[i]) == k,
        |k: (Seq<char>, Seq<char>)|
            links[choose|i: int| 0 <= i < links.len() && link_key(links[i]) == k].data@,
    )
}

spec fn names_view(names: Seq<String>) -> Set<Seq<char>> {
    Set::new(|x: Seq<char>| exists|i: int| 0 <= i < names.len() && names[i]@ == x)
}

spec fn keys_unique(links: Seq<SpaceLink>) -> bool {
    forall|i: int, j: int|
        0 <= i < links.len() && 0 <= j < links.len() && i != j ==> link_key(links[i]) != link_key(
            links[j],
        )
}

impl View for SpaceHierarchy {
    type V = SpaceHierarchyView;

    closed spec fn view(&self) -> SpaceHierarchyView {
        SpaceHierarchyView { links: links_view(self.links@), known: names_view(self.known_spaces@) }
    }
}

/// One step of a walk through the hierarchy: up from a child to one of its
/// parents when `upward`, down from a space to one of its children otherwise.
pub open spec fn step(
    links: Map<(Seq<char>, Seq<char>), ChildDataView>,
    from: Seq<char>,
    to: Seq<char>,
    upward: bool,
) -> bool {
    if upward {
        links.contains_key((to, from))
    } else {
        links.contains_key((from, to))
    }
}

/// `nodes` contains every node that one step leads to from a node it contains.
pub open spec fn closed_under(
    links: Map<(Seq<char>, Seq<char>), ChildDataView>,
    nodes: Set<Seq<char>>,
    upward: bool,
) -> bool {
    forall|x: Seq<char>, y: Seq<char>|
        #![trigger nodes.contains(x), step(links, x, y, upward)]
        nodes.contains(x) && step(links, x, y, upward) ==> nodes.contains(y)
}

/// `to` can be reached from `from` in zero or more steps: every set of nodes
/// that contains `from` and is closed under steps also contains `to`.
pub open spec fn reaches(
    links: Map<(Seq<char>, Seq<char>), ChildDataView>,
    from: Seq<char>,
    to: Seq<char>,
    upward: bool,
) -> bool {
    forall|nodes: Set<Seq<char>>|
        #![trigger closed_under(links, nodes, upward), nodes.contains(from)]
        closed_under(links, nodes, upward) && nodes.contains(from) ==> nodes.contains(to)
}

/// `room` is in `space`: walking up parent links from `room` leads to `space`.
pub open spec fn in_space(
    links: Map<(Seq<char>, Seq<char>), ChildDataView>,
    room: Seq<char>,
    space: Seq<char>,
) -> bool {
    reaches(links, room, space, true)
}

/// The bulk space filter keeps a room that lies in the space and that the
/// search filter accepts.
pub open spec fn accepted_in_space(
    links: Map<(Seq<char>, Seq<char>), ChildDataView>,
    room: Seq<char>,
    space: Seq<char>,
    search_match: bool,
) -> bool {
    in_space(links, room, space) && search_match
}

/// The positions, in order, among the first `n` of `rooms`, of those that lie
/// in `space` and that the search filter accepts (`matches[i]` is its verdict
/// on `rooms[i]`, read only for rooms in the space).
pub open spec fn accepted_positions(
    links: Map<(Seq<char>, Seq<char>), ChildDataView>,
    rooms: Seq<Seq<char>>,
    space: Seq<char>,
    matches: Seq<bool>,
    n: int,
) -> Seq<usize>
    decreases n,
{
    if n <= 0 {
        Seq::empty()
    } else {
        let before = accepted_positions(links, rooms, space, matches, n - 1);
        if in_space(links, rooms[n - 1], space) && matches[n - 1] {
            before.push((n - 1) as usize)
        } else {
            before
        }
    }
}

/// The filter's verdicts on rooms outside the space do not matter: two lists
/// of verdicts that agree on the rooms in the space select the same rooms.
pub proof fn lemma_verdicts_outside_space_ignored(
    links: Map<(Seq<char>, Seq<char>), ChildDataView>,
    rooms: Seq<Seq<char>>,
    space: Seq<char>,
    m1: Seq<bool>,
    m2: Seq<bool>,
    n: int,
)
    requires
        forall|i: int| 0 <= i < n && in_space(links, rooms[i], space) ==> m1[i] == m2[i],
    ensures
        accepted_positions(links, rooms, space, m1, n) == accepted_positions(links, rooms, space, m2, n),
    decreases n,
{
    if n > 0 {
        lemma_verdicts_outside_space_ignored(links, rooms, space, m1, m2, n - 1);
    }
}

/// Every node below `space` (the space itself included).
pub open spec fn descendants(
    links: Map<(Seq<char>, Seq<char>), ChildDataView>,
    space: Seq<char>,
) -> Set<Seq<char>> {
    Set::new(|x: Seq<char>| reaches(links, space, x, false))
}

/// The abstract values of a list of strings.
pub open spec fn views_of(v: Seq<String>) -> Seq<Seq<char>> {
    v.map_values(|s: String| s@)
}

proof fn lemma_link_lookup(links: Seq<SpaceLink>, i: int)
    requires
        keys_unique(links),
        0 <= i < links.len(),
    ensures
        links_view(links).contains_key(link_key(links[i])),
        links_view(links)[link_key(links[i])] == links[i].data@,
{
    let k = link_key(links[i]);
    assert(links_view(links).dom().contains(k));
    let j = choose|j: int| 0 <= j < links.len() && link_key(links[j]) == k;
    assert(j == i);
}

proof fn lemma_closed_contains_reached(
    links: Map<(Seq<char>, Seq<char>), ChildDataView>,
    nodes: Set<Seq<char>>,
    from: Seq<char>,
    to: Seq<char>,
    upward: bool,
)
    requires
        reaches(links, from, to, upward),
        closed_under(links, nodes, upward),
        nodes.contains(from),
    ensures
        nodes.contains(to),
{
}

/// Whether `name` occurs in `names`.
fn contains_name(names: &Vec<String>, name: &String) -> (found: bool)
    ensures
        found == views_of(names@).contains(name@),
{
    let mut i: usize = 0;
    while i < names.len()
        invariant
            i <= names.len(),
            forall|j: int| 0 <= j < i ==> names@[j]@ != name@,
        decreases names.len() - i,
    {
        if names[i] == *name {
            assert(views_of(names@)[i as int] == name@);
            return true;
        }
        i = i + 1;
    }
    assert forall|j: int| 0 <= j < views_of(names@).len() implies views_of(names@)[j] != name@ by {
        assert(names@[j]@ != name@);
    }
    false
}


proof fn lemma_views_push(v: Seq<String>, s: String)
    ensures
        views_of(v.push(s)) == views_of(v).push(s@),
        forall|x: Seq<char>|
            #![trigger views_of(v.push(s)).contains(x)]
            views_of(v.push(s)).contains(x) <==> views_of(v).contains(x) || x == s@,
{
    let w = views_of(v.push(s));
    assert(w =~= views_of(v).push(s@));
    assert forall|x: Seq<char>| w.contains(x) implies views_of(v).contains(x) || x == s@ by {
        let k = choose|k: int| 0 <= k < w.len() && w[k] == x;
        if k < v.len() {
            assert(views_of(v)[k] == x);
        }
    }
    assert forall|x: Seq<char>| views_of(v).contains(x) implies w.contains(x) by {
        let k = choose|k: int| 0 <= k < views_of(v).len() && views_of(v)[k] == x;
        assert(w[k] == x);
    }
    assert(w[v.len() as int] == s@);
}

proof fn lemma_views_drop_last(v: Seq<String>)
    requires
        v.len() > 0,
    ensures
        views_of(v.drop_last()) == views_of(v).drop_last(),
        views_of(v).last() == v.last()@,
        forall|x: Seq<char>|
            #![trigger views_of(v).contains(x)]
            views_of(v).contains(x) <==> views_of(v.drop_last()).contains(x) || x == v.last()@,
{
    lemma_views_push(v.drop_last(), v.last());
    assert(v.drop_last().push(v.last()) =~= v);
}


proof fn lemma_push_contains<A>(s: Seq<A>, a: A)
    ensures
        forall|x: A| #[trigger] s.push(a).contains(x) <==> s.contains(x) || x == a,
{
    assert forall|x: A| s.push(a).contains(x) implies s.contains(x) || x == a by {
        let k = choose|k: int| 0 <= k < s.push(a).len() && s.push(a)[k] == x;
        if k < s.len() {
            assert(s[k] == x);
        }
    }
    assert forall|x: A| s.contains(x) implies s.push(a).contains(x) by {
        let k = choose|k: int| 0 <= k < s.len() && s[k] == x;
        assert(s.push(a)[k] == x);
    }
    assert(s.push(a)[s.len() as int] == a);
}

/// Every name that occurs at either end of an edge.
spec fn link_endpoints(links: Seq<SpaceLink>) -> Seq<Seq<char>> {
    links.map_values(|l: SpaceLink| l.space_id@) + links.map_values(|l: SpaceLink| l.child_id@)
}

/// The node a link leads to when walked in the given direction, and the node
/// it starts from.
spec fn link_from(l: SpaceLink, upward: bool) -> Seq<char> {
    if upward {
        l.child_id@
    } else {
        l.space_id@
    }
}

spec fn link_to(l: SpaceLink, upward: bool) -> Seq<char> {
    if upward {
        l.space_id@
    } else {
        l.child_id@
    }
}

proof fn lemma_step_is_link(links: Seq<SpaceLink>, x: Seq<char>, y: Seq<char>, upward: bool)
    requires
        step(links_view(links), x, y, upward),
    ensures
        exists|j: int|
            0 <= j < links.len() && link_from(links[j], upward) == x && link_to(links[j], upward)
                == y,
{
    let k = if upward {
        (y, x)
    } else {
        (x, y)
    };
    let j = choose|j: int| 0 <= j < links.len() && link_key(links[j]) == k;
    assert(link_from(links[j], upward) == x && link_to(links[j], upward) == y);
}

proof fn lemma_step_extends_reach(
    links: Map<(Seq<char>, Seq<char>), ChildDataView>,
    from: Seq<char>,
    mid: Seq<char>,
    to: Seq<char>,
    upward: bool,
)
    requires
        reaches(links, from, mid, upward),
        step(links, mid, to, upward),
    ensures
        reaches(links, from, to, upward),
{
    assert forall|nodes: Set<Seq<char>>|
        closed_under(links, nodes, upward) && nodes.contains(from) implies nodes.contains(to) by {
        lemma_closed_contains_reached(links, nodes, from, mid, upward);
    }
}

proof fn lemma_bounded_by_universe(visited: Seq<Seq<char>>, universe: Set<Seq<char>>)
    requires
        visited.no_duplicates(),
        universe.finite(),
        forall|x: Seq<char>| visited.contains(x) ==> universe.contains(x),
    ensures
        visited.len() <= universe.len(),
{
    visited.unique_seq_to_set();
    assert(visited.to_set().subset_of(universe));
    vstd::set_lib::lemma_len_subset(visited.to_set(), universe);
}


/// Reachability upward from `a` to `b` is reachability downward from `b` to
/// `a`.
proof fn lemma_reverse_reach(
    links: Map<(Seq<char>, Seq<char>), ChildDataView>,
    a: Seq<char>,
    b: Seq<char>,
    upward: bool,
)
    requires
        reaches(links, a, b, upward),
    ensures
        reaches(links, b, a, !upward),
{
    assert forall|nodes: Set<Seq<char>>|
        closed_under(links, nodes, !upward) && nodes.contains(b) implies nodes.contains(a) by {
        if !nodes.contains(a) {
            let others = nodes.complement();
            assert(closed_under(links, others, upward)) by {
                assert forall|x: Seq<char>, y: Seq<char>|
                    others.contains(x) && step(links, x, y, upward) implies others.contains(y) by {
                    if nodes.contains(y) {
                        assert(step(links, y, x, !upward));
                    }
                }
            }
            lemma_closed_contains_reached(links, others, a, b, upward);
        }
    }
}

/// A room is in a space exactly when it is among the space's descendants.
pub proof fn lemma_in_space_iff_descendant(
    links: Map<(Seq<char>, Seq<char>), ChildDataView>,
    room: Seq<char>,
    space: Seq<char>,
)
    ensures
        in_space(links, room, space) <==> descendants(links, space).contains(room),
{
    if in_space(links, room, space) {
        lemma_reverse_reach(links, room, space, true);
    }
    if descendants(links, space).contains(room) {
        lemma_reverse_reach(links, space, room, false);
    }
}

/// Every room is in itself (a space contains itself).
pub proof fn lemma_in_space_reflexive(
    links: Map<(Seq<char>, Seq<char>), ChildDataView>,
    room: Seq<char>,
)
    ensures
        in_space(links, room, room),
{
}

/// Being in a space is transitive: a room in a sub-space is in every space
/// that contains the sub-space.
pub proof fn lemma_in_space_transitive(
    links: Map<(Seq<char>, Seq<char>), ChildDataView>,
    room: Seq<char>,
    middle: Seq<char>,
    space: Seq<char>,
)
    requires
        in_space(links, room, middle),
        in_space(links, middle, space),
    ensures
        in_space(links, room, space),
{
    assert forall|nodes: Set<Seq<char>>|
        closed_under(links, nodes, true) && nodes.contains(room) implies nodes.contains(space) by {
        lemma_closed_contains_reached(links, nodes, room, middle, true);
        lemma_closed_contains_reached(links, nodes, middle, space, true);
    }
}

/// A direct child of a space is in that space.
pub proof fn lemma_child_in_space(
    links: Map<(Seq<char>, Seq<char>), ChildDataView>,
    space: Seq<char>,
    child: Seq<char>,
)
    requires
        links.contains_key((space, child)),
    ensures
        in_space(links, child, space),
{
    lemma_step_extends_reach(links, child, child, space, true);
}

/// Adding edges never takes a room out of a space.
pub proof fn lemma_in_space_monotonic(
    smaller: Map<(Seq<char>, Seq<char>), ChildDataView>,
    larger: Map<(Seq<char>, Seq<char>), ChildDataView>,
    room: Seq<char>,
    space: Seq<char>,
)
    requires
        smaller.dom().subset_of(larger.dom()),
        in_space(smaller, room, space),
    ensures
        in_space(larger, room, space),
{
    assert forall|nodes: Set<Seq<char>>|
        closed_under(larger, nodes, true) && nodes.contains(room) implies nodes.contains(space) by {
        assert(closed_under(smaller, nodes, true)) by {
            assert forall|x: Seq<char>, y: Seq<char>|
                nodes.contains(x) && step(smaller, x, y, true) implies nodes.contains(y) by {
                assert(step(larger, x, y, true));
            }
        }
        lemma_closed_contains_reached(smaller, nodes, room, space, true);
    }
}

/// After `child` is added to `space`, the child and everything already in the
/// child are in the space.
pub proof fn lemma_added_child_in_space(
    before: Map<(Seq<char>, Seq<char>), ChildDataView>,
    space: Seq<char>,
    child: Seq<char>,
    data: ChildDataView,
    room: Seq<char>,
)
    requires
        in_space(before, room, child),
    ensures
        in_space(before.insert((space, child), data), child, space),
        in_space(before.insert((space, child), data), room, space),
{
    let after = before.insert((space, child), data);
    lemma_child_in_space(after, space, child);
    lemma_in_space_monotonic(before, after, room, child);
    lemma_in_space_transitive(after, room, child, space);
}

/// Removing a child edge undoes adding it: the edges are as they were
/// before (for an edge that was not there).
pub proof fn lemma_remove_undoes_add(
    links: Map<(Seq<char>, Seq<char>), ChildDataView>,
    space: Seq<char>,
    child: Seq<char>,
    data: ChildDataView,
)
    requires
        !links.contains_key((space, child)),
    ensures
        links.insert((space, child), data).remove((space, child)) == links,
{
    assert(links.insert((space, child), data).remove((space, child)) =~= links);
}

impl SpaceHierarchy {
    /// The internal consistency of the hierarchy: no edge is listed twice, and
    /// the parent of every edge is a known space.
    pub closed spec fn wf(&self) -> bool {
        &&& keys_unique(self.links@)
        &&& forall|i: int|
            0 <= i < self.links.len() ==> #[trigger] names_view(self.known_spaces@).contains(
                self.links@[i].space_id@,
            )
    }

    /// Every space that has a child is a known space.
    pub proof fn lemma_parents_are_known(&self, space: Seq<char>, child: Seq<char>)
        requires
            self.wf(),
            self@.links.contains_key((space, child)),
        ensures
            self@.known.contains(space),
    {
        let i = choose|i: int|
            0 <= i < self.links@.len() && link_key(self.links@[i]) == (space, child);
        assert(names_view(self.known_spaces@).contains(self.links@[i].space_id@));
    }

    /// An empty hierarchy.
    pub fn new() -> (h: SpaceHierarchy)
        ensures
            h.wf(),
            h@.links == Map::<(Seq<char>, Seq<char>), ChildDataView>::empty(),
            h@.known == Set::<Seq<char>>::empty(),
    {
        let h = SpaceHierarchy { links: Vec::new(), known_spaces: Vec::new() };
        assert(h@.links =~= Map::<(Seq<char>, Seq<char>), ChildDataView>::empty());
        assert(h@.known =~= Set::<Seq<char>>::empty());
        h
    }

    /// Records `space_id` as a known space.
    pub fn add_space(&mut self, space_id: String)
        requires
            old(self).wf(),
        ensures
            final(self).wf(),
            final(self)@.links == old(self)@.links,
            final(self)@.known == old(self)@.known.insert(space_id@),
    {
        if !contains_name(&self.known_spaces, &space_id) {
            let ghost old_names = self.known_spaces@;
            self.known_spaces.push(space_id);
            assert(names_view(self.known_spaces@) =~= names_view(old_names).insert(
                self.known_spaces@[old_names.len() as int]@,
            )) by {
                assert forall|x: Seq<char>|
                    names_view(old_names).contains(x) implies names_view(
                    self.known_spaces@,
                ).contains(x) by {
                    let j = choose|j: int| 0 <= j < old_names.len() && old_names[j]@ == x;
                    assert(self.known_spaces@[j] == old_names[j]);
                }
                assert forall|x: Seq<char>|
                    names_view(self.known_spaces@).contains(x) implies #[trigger] names_view(
                    old_names,
                ).insert(self.known_spaces@[old_names.len() as int]@).contains(x) by {
                    let j = choose|j: int|
                        0 <= j < self.known_spaces@.len() && self.known_spaces@[j]@ == x;
                    if j < old_names.len() {
                        assert(old_names[j] == self.known_spaces@[j]);
                    }
                }
            }
        } else {
            assert(names_view(self.known_spaces@) =~= names_view(self.known_spaces@).insert(
                space_id@,
            )) by {
                let j = choose|j: int|
                    0 <= j < views_of(self.known_spaces@).len() && views_of(self.known_spaces@)[j]
                        == space_id@;
                assert(self.known_spaces@[j]@ == space_id@);
            }
        }
        assert forall|i: int| 0 <= i < self.links.len() implies #[trigger] names_view(
            self.known_spaces@,
        ).contains(self.links@[i].space_id@) by {
            assert(old(self).wf());
            assert(names_view(old(self).known_spaces@).contains(old(self).links@[i].space_id@));
        }
    }

    /// Whether `room_id` is a known space.
    pub fn is_known_space(&self, room_id: &str) -> (known: bool)
        ensures
            known == self@.known.contains(room_id@),
    {
        let room = room_id.to_owned();
        let found = contains_name(&self.known_spaces, &room);
        proof {
            if found {
                let j = choose|j: int|
                    0 <= j < views_of(self.known_spaces@).len() && views_of(self.known_spaces@)[j]
                        == room@;
                assert(self.known_spaces@[j]@ == room_id@);
            } else {
                if names_view(self.known_spaces@).contains(room_id@) {
                    let j = choose|j: int|
                        0 <= j < self.known_spaces@.len() && self.known_spaces@[j]@ == room_id@;
                    assert(views_of(self.known_spaces@)[j] == room@);
                }
            }
        }
        found
    }

    /// The position of the edge from `space` to `child`, if there is one.
    fn find_link(&self, space: &String, child: &String) -> (pos: Option<usize>)
        ensures
            match pos {
                Some(i) => i < self.links.len() && link_key(self.links@[i as int]) == (
                    space@,
                    child@,
                ),
                None => forall|i: int|
                    0 <= i < self.links.len() ==> link_key(self.links@[i]) != (space@, child@),
            },
    {
        let mut i: usize = 0;
        while i < self.links.len()
            invariant
                i <= self.links.len(),
                forall|j: int| 0 <= j < i ==> link_key(self.links@[j]) != (space@, child@),
            decreases self.links.len() - i,
        {
            if self.links[i].space_id == *space && self.links[i].child_id == *child {
                return Some(i);
            }
            i = i + 1;
        }
        None
    }

    /// Adds the edge `space → child`, or replaces its data if it exists.
    fn put_link(&mut self, space: String, child: String, data: ChildData)
        requires
            old(self).wf(),
            names_view(old(self).known_spaces@).contains(space@),
        ensures
            final(self).wf(),
            final(self)@.links == old(self)@.links.insert((space@, child@), data@),
            final(self)@.known == old(self)@.known,
    {
        let ghost old_links = self.links@;
        let ghost key = (space@, child@);
        let pos = self.find_link(&space, &child);
        match pos {
            Some(i) => {
                self.links.set(i, SpaceLink { space_id: space, child_id: child, data });
                assert(link_key(self.links@[i as int]) == key);
                assert(self.links@[i as int].data@ == data@);
                assert(forall|j: int| 0 <= j < self.links@.len() && j != i ==> self.links@[j] == old_links[j]);
                assert(keys_unique(self.links@)) by {
                    assert forall|a: int, b: int|
                        0 <= a < self.links@.len() && 0 <= b < self.links@.len() && a != b implies
                        link_key(self.links@[a]) != link_key(self.links@[b]) by {
                        assert(link_key(self.links@[a]) == link_key(old_links[a]));
                        assert(link_key(self.links@[b]) == link_key(old_links[b]));
                    }
                }
                assert(links_view(self.links@) =~= links_view(old_links).insert(key, data@)) by {
                    assert forall|k: (Seq<char>, Seq<char>)|
                        links_view(old_links).contains_key(k) implies links_view(
                        self.links@,
                    ).contains_key(k) by {
                        let j = choose|j: int| 0 <= j < old_links.len() && link_key(old_links[j]) == k;
                        assert(link_key(self.links@[j]) == link_key(old_links[j]));
                    }
                    assert forall|k: (Seq<char>, Seq<char>)|
                        #[trigger] links_view(self.links@).contains_key(k) implies links_view(
                        old_links,
                    ).insert(key, data@).contains_key(k) by {
                        let j = choose|j: int|
                            0 <= j < self.links@.len() && link_key(self.links@[j]) == k;
                        assert(link_key(self.links@[j]) == link_key(old_links[j]));
                    }
                    assert forall|k: (Seq<char>, Seq<char>)|
                        #[trigger] links_view(self.links@).contains_key(k) implies links_view(
                        self.links@,
                    )[k] == links_view(old_links).insert(key, data@)[k] by {
                        let j = choose|j: int|
                            0 <= j < self.links@.len() && link_key(self.links@[j]) == k;
                        lemma_link_lookup(self.links@, j);
                        assert(link_key(self.links@[j]) == link_key(old_links[j]));
                        if j != i {
                            lemma_link_lookup(old_links, j);
                        }
                    }
                }
            },
            None => {
                self.links.push(SpaceLink { space_id: space, child_id: child, data });
                let ghost n = old_links.len() as int;
                assert(keys_unique(self.links@)) by {
                    assert forall|a: int, b: int|
                        0 <= a < self.links@.len() && 0 <= b < self.links@.len() && a != b implies
                        link_key(self.links@[a]) != link_key(self.links@[b]) by {
                        if a < n && b < n {
                            assert(self.links@[a] == old_links[a]);
                            assert(self.links@[b] == old_links[b]);
                        } else if a < n {
                            assert(self.links@[a] == old_links[a]);
                        } else {
                            assert(self.links@[b] == old_links[b]);
                        }
                    }
                }
                assert(link_key(self.links@[n]) == key);
                assert(self.links@[n].data@ == data@);
                assert(links_view(self.links@) =~= links_view(old_links).insert(key, data@)) by {
                    lemma_link_lookup(self.links@, n);
                    assert forall|k: (Seq<char>, Seq<char>)|
                        links_view(old_links).contains_key(k) implies links_view(
                        self.links@,
                    ).contains_key(k) by {
                        let j = choose|j: int| 0 <= j < old_links.len() && link_key(old_links[j]) == k;
                        assert(self.links@[j] == old_links[j]);
                    }
                    assert forall|k: (Seq<char>, Seq<char>)|
                        #[trigger] links_view(self.links@).contains_key(k) implies links_view(
                        old_links,
                    ).insert(key, data@).contains_key(k) by {
                        let j = choose|j: int|
                            0 <= j < self.links@.len() && link_key(self.links@[j]) == k;
                        if j < n {
                            assert(self.links@[j] == old_links[j]);
                        }
                    }
                    assert forall|k: (Seq<char>, Seq<char>)|
                        #[trigger] links_view(self.links@).contains_key(k) implies links_view(
                        self.links@,
                    )[k] == links_view(old_links).insert(key, data@)[k] by {
                        let j = choose|j: int|
                            0 <= j < self.links@.len() && link_key(self.links@[j]) == k;
                        lemma_link_lookup(self.links@, j);
                        if j < n {
                            assert(self.links@[j] == old_links[j]);
                            lemma_link_lookup(old_links, j);
                        }
                    }
                }
            },
        }
        assert forall|i: int| 0 <= i < self.links.len() implies #[trigger] names_view(
            self.known_spaces@,
        ).contains(self.links@[i].space_id@) by {
            if i < old_links.len() {
                assert(link_key(self.links@[i]).0 == link_key(old_links[i]).0) by {
                    if pos is None {
                        assert(self.links@[i] == old_links[i]);
                    } else {
                        assert(link_key(self.links@[i]) == link_key(old_links[i]));
                    }
                }
            }
        }
    }

    /// Records `child_id` as a child of `space_id` with the given ordering
    /// hint and flag, replacing any earlier data of that edge.
    pub fn add_child(
        &mut self,
        space_id: String,
        child_id: String,
        order: Option<String>,
        suggested: bool,
    )
        requires
            old(self).wf(),
        ensures
            final(self).wf(),
            final(self)@.links == old(self)@.links.insert(
                (space_id@, child_id@),
                ChildDataView { order: opt_view(order), suggested },
            ),
            final(self)@.known == old(self)@.known.insert(space_id@),
    {
        let space_copy = space_id.clone();
        self.add_space(space_copy);
        self.put_link(space_id, child_id, ChildData { order, suggested });
    }

    /// Records `child_id` as a child of `space_id`; an existing edge keeps its
    /// data, a new one gets no ordering hint and is not suggested.
    pub fn add_relationship(&mut self, space_id: String, child_id: String)
        requires
            old(self).wf(),
        ensures
            final(self).wf(),
            final(self)@.links == if old(self)@.links.contains_key((space_id@, child_id@)) {
                old(self)@.links
            } else {
                old(self)@.links.insert(
                    (space_id@, child_id@),
                    ChildDataView { order: None, suggested: false },
                )
            },
            final(self)@.known == old(self)@.known.insert(space_id@),
    {
        let space_copy = space_id.clone();
        self.add_space(space_copy);
        let pos = self.find_link(&space_id, &child_id);
        if pos.is_none() {
            self.put_link(space_id, child_id, ChildData { order: None, suggested: false });
        } else {
            proof {
                let i = pos.unwrap() as int;
                lemma_link_lookup(self.links@, i);
            }
        }
    }

    /// Removes the edge `space_id → child_id`, if there is one.
    pub fn remove_child(&mut self, space_id: &str, child_id: &str)
        requires
            old(self).wf(),
        ensures
            final(self).wf(),
            final(self)@.links == old(self)@.links.remove((space_id@, child_id@)),
            final(self)@.known == old(self)@.known,
    {
        let space = space_id.to_owned();
        let child = child_id.to_owned();
        let ghost old_links = self.links@;
        let ghost key = (space@, child@);
        match self.find_link(&space, &child) {
            Some(i) => {
                let _removed = self.links.remove(i);
                let ghost ii = i as int;
                assert(forall|j: int|
                    0 <= j < self.links@.len() ==> #[trigger] self.links@[j] == if j < ii {
                        old_links[j]
                    } else {
                        old_links[j + 1]
                    });
                assert(keys_unique(self.links@)) by {
                    assert forall|a: int, b: int|
                        0 <= a < self.links@.len() && 0 <= b < self.links@.len() && a != b implies
                        link_key(self.links@[a]) != link_key(self.links@[b]) by {
                        let oa = if a < ii {
                            a
                        } else {
                            a + 1
                        };
                        let ob = if b < ii {
                            b
                        } else {
                            b + 1
                        };
                        assert(self.links@[a] == old_links[oa]);
                        assert(self.links@[b] == old_links[ob]);
                    }
                }
                assert(links_view(self.links@) =~= links_view(old_links).remove(key)) by {
                    assert forall|k: (Seq<char>, Seq<char>)|
                        links_view(old_links).contains_key(k) && k != key implies links_view(
                        self.links@,
                    ).contains_key(k) by {
                        let j = choose|j: int| 0 <= j < old_links.len() && link_key(old_links[j]) == k;
                        let nj = if j < ii {
                            j
                        } else {
                            j - 1
                        };
                        assert(self.links@[nj] == old_links[j]);
                    }
                    assert forall|k: (Seq<char>, Seq<char>)|
                        #[trigger] links_view(self.links@).contains_key(k) implies links_view(
                        old_links,
                    ).remove(key).contains_key(k) && links_view(self.links@)[k] == links_view(
                        old_links,
                    )[k] by {
                        let j = choose|j: int|
                            0 <= j < self.links@.len() && link_key(self.links@[j]) == k;
                        let oj = if j < ii {
                            j
                        } else {
                            j + 1
                        };
                        assert(self.links@[j] == old_links[oj]);
                        lemma_link_lookup(self.links@, j);
                        lemma_link_lookup(old_links, oj);
                    }
                }
                assert forall|j: int| 0 <= j < self.links.len() implies #[trigger] names_view(
                    self.known_spaces@,
                ).contains(self.links@[j].space_id@) by {
                    let oj = if j < ii {
                        j
                    } else {
                        j + 1
                    };
                    assert(self.links@[j] == old_links[oj]);
                }
            },
            None => {
                assert(links_view(self.links@) =~= links_view(old_links).remove(key));
            },
        }
    }

    /// Every node that can be reached from `start` by following edges upward
    /// (towards parents) or downward (towards children), `start` included.
    fn reachable(&self, start: &String, upward: bool) -> (found: Vec<String>)
        requires
            self.wf(),
        ensures
            views_of(found@).no_duplicates(),
            forall|x: Seq<char>|
                views_of(found@).contains(x) <==> reaches(self@.links, start@, x, upward),
    {
        let ghost links = self@.links;
        let ghost universe = link_endpoints(self.links@).push(start@).to_set();
        proof {
            vstd::seq_lib::seq_to_set_is_finite(link_endpoints(self.links@).push(start@));
        }
        let mut visited: Vec<String> = Vec::new();
        visited.push(start.clone());
        let mut stack: Vec<String> = Vec::new();
        stack.push(start.clone());
        proof {
            assert(views_of(visited@) =~= seq![start@]);
            assert(views_of(stack@) =~= seq![start@]);
            assert(views_of(visited@)[0] == start@);
            assert(link_endpoints(self.links@).push(start@).contains(start@)) by {
                let e = link_endpoints(self.links@);
                assert(e.push(start@)[e.len() as int] == start@);
            }
        }
        while stack.len() > 0
            invariant
                self.wf(),
                links == self@.links,
                universe == link_endpoints(self.links@).push(start@).to_set(),
                universe.finite(),
                views_of(visited@).no_duplicates(),
                views_of(stack@).no_duplicates(),
                forall|x: Seq<char>|
                    views_of(stack@).contains(x) ==> views_of(visited@).contains(x),
                views_of(visited@).contains(start@),
                forall|x: Seq<char>| views_of(visited@).contains(x) ==> universe.contains(x),
                forall|x: Seq<char>|
                    views_of(visited@).contains(x) ==> reaches(links, start@, x, upward),
                forall|x: Seq<char>, y: Seq<char>|
                    #![trigger views_of(visited@).contains(x), step(links, x, y, upward)]
                    views_of(visited@).contains(x) && !views_of(stack@).contains(x) && step(
                        links,
                        x,
                        y,
                        upward,
                    ) ==> views_of(visited@).contains(y),
            decreases universe.len() - visited.len(), stack.len(),
        {
            proof {
                lemma_bounded_by_universe(views_of(visited@), universe);
            }
            let ghost visited_before = visited@;
            let ghost stack_before = stack@;
            let cur = stack.pop().unwrap();
            proof {
                lemma_views_drop_last(stack_before);
                assert(views_of(stack_before).contains(cur@));
                assert(!views_of(stack@).contains(cur@)) by {
                    let vs = views_of(stack_before);
                    if views_of(stack@).contains(cur@) {
                        let k = choose|k: int|
                            0 <= k < views_of(stack@).len() && views_of(stack@)[k] == cur@;
                        assert(vs[k] == vs[vs.len() - 1]);
                    }
                }
                assert forall|x: Seq<char>| views_of(stack@).contains(x) implies views_of(
                    stack_before,
                ).contains(x) by {}
            }
            let mut i: usize = 0;
            while i < self.links.len()
                invariant
                    self.wf(),
                    links == self@.links,
                    universe == link_endpoints(self.links@).push(start@).to_set(),
                    universe.finite(),
                    i <= self.links.len(),
                    views_of(visited_before).len() <= visited@.len(),
                    views_of(visited@).no_duplicates(),
                    views_of(stack@).no_duplicates(),
                    views_of(visited@).contains(cur@),
                    !views_of(stack@).contains(cur@),
                    forall|x: Seq<char>|
                        views_of(stack@).contains(x) ==> views_of(visited@).contains(x),
                    views_of(visited@).contains(start@),
                    forall|x: Seq<char>| views_of(visited@).contains(x) ==> universe.contains(x),
                    forall|x: Seq<char>|
                        views_of(visited@).contains(x) ==> reaches(links, start@, x, upward),
                    forall|x: Seq<char>, y: Seq<char>|
                        #![trigger views_of(visited@).contains(x), step(links, x, y, upward)]
                        views_of(visited@).contains(x) && !views_of(stack@).contains(x) && x
                            != cur@ && step(links, x, y, upward) ==> views_of(
                            visited@,
                        ).contains(y),
                    forall|j: int|
                        0 <= j < i && #[trigger] link_from(self.links@[j], upward) == cur@
                            ==> views_of(visited@).contains(link_to(self.links@[j], upward)),
                    stack@.len() + 1 + visited_before.len() == stack_before.len()
                        + visited@.len(),
                decreases self.links.len() - i,
            {
                let link = &self.links[i];
                let (from, to) = if upward {
                    (&link.child_id, &link.space_id)
                } else {
                    (&link.space_id, &link.child_id)
                };
                if *from == cur && !contains_name(&visited, to) {
                    proof {
                        lemma_link_lookup(self.links@, i as int);
                        assert(step(links, cur@, to@, upward));
                        lemma_step_extends_reach(links, start@, cur@, to@, upward);
                        let e = link_endpoints(self.links@);
                        let n = self.links@.len() as int;
                        if upward {
                            assert(e[i as int] == to@);
                        } else {
                            assert(e[n + i] == to@);
                        }
                        assert(e.push(start@).contains(to@)) by {
                            if upward {
                                assert(e.push(start@)[i as int] == to@);
                            } else {
                                assert(e.push(start@)[n + i] == to@);
                            }
                        }
                    }
                    let ghost vbefore = visited@;
                    let ghost sbefore = stack@;
                    visited.push(to.clone());
                    stack.push(to.clone());
                    proof {
                        lemma_views_push(vbefore, *to);
                        lemma_views_push(sbefore, *to);
                        assert(!views_of(vbefore).contains(to@));
                        assert(!views_of(sbefore).contains(to@));
                        assert(views_of(visited@).no_duplicates()) by {
                            let vv = views_of(visited@);
                            assert forall|a: int, b: int|
                                0 <= a < vv.len() && 0 <= b < vv.len() && a != b implies vv[a]
                                != vv[b] by {
                                if a == vv.len() - 1 {
                                    assert(views_of(vbefore)[b] == vv[b]);
                                } else if b == vv.len() - 1 {
                                    assert(views_of(vbefore)[a] == vv[a]);
                                }
                            }
                        }
                        assert(views_of(stack@).no_duplicates()) by {
                            let sv = views_of(stack@);
                            assert forall|a: int, b: int|
                                0 <= a < sv.len() && 0 <= b < sv.len() && a != b implies sv[a]
                                != sv[b] by {
                                if a == sv.len() - 1 {
                                    assert(views_of(sbefore)[b] == sv[b]);
                                } else if b == sv.len() - 1 {
                                    assert(views_of(sbefore)[a] == sv[a]);
                                }
                            }
                        }
                    }
                }
                i = i + 1;
            }
            proof {
                assert forall|x: Seq<char>, y: Seq<char>|
                    #![trigger views_of(visited@).contains(x), step(links, x, y, upward)]
                    views_of(visited@).contains(x) && !views_of(stack@).contains(x) && step(
                        links,
                        x,
                        y,
                        upward,
                    ) implies views_of(visited@).contains(y) by {
                    if x == cur@ {
                        lemma_step_is_link(self.links@, x, y, upward);
                        let j = choose|j: int|
                            0 <= j < self.links@.len() && link_from(self.links@[j], upward) == x
                                && link_to(self.links@[j], upward) == y;
                    }
                }
                lemma_bounded_by_universe(views_of(visited@), universe);
            }
        }
        proof {
            let vs = views_of(visited@).to_set();
            assert(closed_under(links, vs, upward)) by {
                assert forall|x: Seq<char>, y: Seq<char>|
                    vs.contains(x) && step(links, x, y, upward) implies vs.contains(y) by {
                    assert(views_of(visited@).contains(x));
                    assert(!views_of(stack@).contains(x));
                }
            }
            assert forall|x: Seq<char>|
                reaches(links, start@, x, upward) implies views_of(visited@).contains(x) by {
                assert(vs.contains(start@));
                lemma_closed_contains_reached(links, vs, start@, x, upward);
            }
        }
        visited
    }


    /// Whether `room_id` is `space_id` itself or lies (directly or through
    /// sub-spaces) inside it.
    pub fn is_in_space(&self, room_id: &str, space_id: &str) -> (inside: bool)
        requires
            self.wf(),
        ensures
            inside == in_space(self@.links, room_id@, space_id@),
    {
        let room = room_id.to_owned();
        let space = space_id.to_owned();
        let above = self.reachable(&room, true);
        contains_name(&above, &space)
    }

    /// Every room and space below `space_id`, the space itself included, each
    /// listed once.
    pub fn get_descendants_strs(&self, space_id: &str) -> (below: Vec<String>)
        requires
            self.wf(),
        ensures
            views_of(below@).no_duplicates(),
            views_of(below@).to_set() == descendants(self@.links, space_id@),
    {
        let space = space_id.to_owned();
        let below = self.reachable(&space, false);
        assert(views_of(below@).to_set() =~= descendants(self@.links, space_id@));
        below
    }


    /// Records the room as a known space when `is_space`, then reports where
    /// the room sits: one of its parent spaces, and the ordering hint and
    /// "suggested" flag that parent gives it (`(None, None, false)` when the
    /// room has no parent).
    pub fn fetch_space_hierarchy_data(&mut self, room_id: String, is_space: bool) -> (placement: (
        Option<String>,
        Option<String>,
        bool,
    ))
        requires
            old(self).wf(),
        ensures
            final(self).wf(),
            final(self)@.links == old(self)@.links,
            final(self)@.known == if is_space {
                old(self)@.known.insert(room_id@)
            } else {
                old(self)@.known
            },
            match placement.0 {
                Some(parent) => {
                    &&& final(self)@.links.contains_key((parent@, room_id@))
                    &&& opt_view(placement.1) == final(self)@.links[(parent@, room_id@)].order
                    &&& placement.2 == final(self)@.links[(parent@, room_id@)].suggested
                },
                None => {
                    &&& forall|p: Seq<char>| !final(self)@.links.contains_key((p, room_id@))
                    &&& placement.1 is None
                    &&& !placement.2
                },
            },
    {
        if is_space {
            let copy = room_id.clone();
            self.add_space(copy);
        }
        self.placement_of(&room_id)
    }

    /// One parent of `room_id` with the data it gives the room, if any.
    fn placement_of(&self, room_id: &String) -> (placement: (Option<String>, Option<String>, bool))
        requires
            self.wf(),
        ensures
            match placement.0 {
                Some(parent) => {
                    &&& self@.links.contains_key((parent@, room_id@))
                    &&& opt_view(placement.1) == self@.links[(parent@, room_id@)].order
                    &&& placement.2 == self@.links[(parent@, room_id@)].suggested
                },
                None => {
                    &&& forall|p: Seq<char>| !self@.links.contains_key((p, room_id@))
                    &&& placement.1 is None
                    &&& !placement.2
                },
            },
    {
        let mut i: usize = 0;
        while i < self.links.len()
            invariant
                self.wf(),
                i <= self.links.len(),
                forall|j: int| 0 <= j < i ==> self.links@[j].child_id@ != room_id@,
            decreases self.links.len() - i,
        {
            if self.links[i].child_id == *room_id {
                proof {
                    lemma_link_lookup(self.links@, i as int);
                }
                let link = &self.links[i];
                return (
                    Some(link.space_id.clone()),
                    copy_opt_string(&link.data.order),
                    link.data.suggested,
                );
            }
            i = i + 1;
        }
        assert forall|p: Seq<char>| !self@.links.contains_key((p, room_id@)) by {
            if self@.links.contains_key((p, room_id@)) {
                let j = choose|j: int|
                    0 <= j < self.links@.len() && link_key(self.links@[j]) == (p, room_id@);
            }
        }
        (None, None, false)
    }

    /// The positions, in order, of the rooms that lie in `space_id` (the space
    /// itself counts): the rooms whose verdict the search filter is to give.
    pub fn positions_in_space(&self, room_ids: &Vec<String>, space_id: &str) -> (inside: Vec<usize>)
        requires
            self.wf(),
        ensures
            inside@ == accepted_positions(
                self@.links,
                views_of(room_ids@),
                space_id@,
                Seq::new(room_ids@.len(), |i: int| true),
                room_ids.len() as int,
            ),
    {
        let mut all: Vec<bool> = Vec::new();
        let mut k: usize = 0;
        while k < room_ids.len()
            invariant
                k <= room_ids.len(),
                all@ == Seq::new(k as nat, |i: int| true),
            decreases room_ids.len() - k,
        {
            all.push(true);
            k = k + 1;
            assert(all@ =~= Seq::new(k as nat, |i: int| true));
        }
        self.filter_in_space_bulk_sync(room_ids, space_id, &all)
    }

    /// The positions, in order, of the rooms that lie in `space_id` (the space
    /// itself counts) and that the search filter accepts; `search_matches[i]`
    /// is the filter's verdict on `room_ids[i]`.
    pub fn filter_in_space_bulk_sync(
        &self,
        room_ids: &Vec<String>,
        space_id: &str,
        search_matches: &Vec<bool>,
    ) -> (selected: Vec<usize>)
        requires
            self.wf(),
            room_ids.len() == search_matches.len(),
        ensures
            forall|k: int| 0 <= k < selected.len() ==> #[trigger] selected@[k] < room_ids.len(),
            forall|k: int, l: int| 0 <= k < l < selected.len() ==> selected@[k] < selected@[l],
            forall|i: int|
                0 <= i < room_ids.len() ==> selected@.contains(i as usize) == accepted_in_space(
                    self@.links,
                    #[trigger] room_ids@[i]@,
                    space_id@,
                    search_matches@[i],
                ),
            selected@ == accepted_positions(
                self@.links,
                views_of(room_ids@),
                space_id@,
                search_matches@,
                room_ids.len() as int,
            ),
    {
        let below = self.get_descendants_strs(space_id);
        let mut selected: Vec<usize> = Vec::new();
        let mut i: usize = 0;
        while i < room_ids.len()
            invariant
                self.wf(),
                i <= room_ids.len(),
                room_ids.len() == search_matches.len(),
                views_of(below@).to_set() == descendants(self@.links, space_id@),
                forall|k: int| 0 <= k < selected.len() ==> #[trigger] selected@[k] < i,
                forall|k: int, l: int| 0 <= k < l < selected.len() ==> selected@[k] < selected@[l],
                forall|j: int|
                    0 <= j < i ==> selected@.contains(j as usize) == accepted_in_space(
                        self@.links,
                        #[trigger] room_ids@[j]@,
                        space_id@,
                        search_matches@[j],
                    ),
                selected@ == accepted_positions(
                    self@.links,
                    views_of(room_ids@),
                    space_id@,
                    search_matches@,
                    i as int,
                ),
            decreases room_ids.len() - i,
        {
            let inside = contains_name(&below, &room_ids[i]);
            proof {
                lemma_in_space_iff_descendant(self@.links, room_ids@[i as int]@, space_id@);
                assert(views_of(below@).contains(room_ids@[i as int]@) <==> views_of(
                    below@,
                ).to_set().contains(room_ids@[i as int]@));
            }
            let ghost before = selected@;
            let ghost picked = inside && search_matches@[i as int];
            if inside && search_matches[i] {
                selected.push(i);
            }
            assert(views_of(room_ids@)[i as int] == room_ids@[i as int]@);
            proof {
                lemma_push_contains(before, i);
                assert(picked ==> selected@ == before.push(i));
                assert(!picked ==> selected@ == before);
                assert(!before.contains(i)) by {
                    if before.contains(i) {
                        let k = choose|k: int| 0 <= k < before.len() && before[k] == i;
                        assert(before[k] < i);
                    }
                }
                assert(selected@.contains(i) == picked);
                assert(((i as int) as usize) == i);
                assert forall|j: int| 0 <= j < i + 1 implies selected@.contains(j as usize)
                    == accepted_in_space(
                    self@.links,
                    #[trigger] room_ids@[j]@,
                    space_id@,
                    search_matches@[j],
                ) by {
                    if j < i {
                        assert(selected@.contains(j as usize) == before.contains(j as usize));
                    } else {
                        assert(j as usize == i);
                    }
                }
                assert(picked == (in_space(self@.links, room_ids@[i as int]@, space_id@)
                    && search_matches@[i as int]));
                assert forall|j: int| 0 <= j < i implies #[trigger] selected@.contains(j as usize)
                    == before.contains(j as usize) by {
                    assert(j as usize != i);
                }
            }
            i = i + 1;
        }
        selected
    }

}

} // verus!
