//! Who takes part in the call of each room, as the call member state events
//! of the sync tell it.
use crate::matrix::spaces::views_of;
use vstd::prelude::*;

verus! {

/// The members of the calls of all rooms: `(room, user)` pairs.
pub struct CallParticipants {
    members: Vec<(String, String)>,
}

/// The abstract values of `(room, user)` pairs.
pub open spec fn pair_views(s: Seq<(String, String)>) -> Seq<(Seq<char>, Seq<char>)> {
    s.map_values(|p: (String, String)| (p.0@, p.1@))
}

impl View for CallParticipants {
    type V = Set<(Seq<char>, Seq<char>)>;

    closed spec fn view(&self) -> Set<(Seq<char>, Seq<char>)> {
        pair_views(self.members@).to_set()
    }
}

/// The users in the call of `room`.
pub open spec fn in_call(calls: Set<(Seq<char>, Seq<char>)>, room: Seq<char>) -> Set<Seq<char>> {
    Set::new(|u: Seq<char>| calls.contains((room, u)))
}

impl CallParticipants {
    /// Each pair is held once.
    pub closed spec fn wf(&self) -> bool {
        pair_views(self.members@).no_duplicates()
    }

    /// Nobody in any call.
    pub fn new() -> (c: CallParticipants)
        ensures
            c.wf(),
            c@ == Set::<(Seq<char>, Seq<char>)>::empty(),
    {
        let c = CallParticipants { members: Vec::new() };
        assert(pair_views(c.members@) =~= Seq::<(Seq<char>, Seq<char>)>::empty());
        assert(c@ =~= Set::<(Seq<char>, Seq<char>)>::empty());
        c
    }

    /// Where the pair `(room_id, user_id)` is held, if it is.
    fn position(&self, room_id: &String, user_id: &String) -> (pos: Option<usize>)
        requires
            self.wf(),
        ensures
            match pos {
                Some(i) => i < self.members@.len() && pair_views(self.members@)[i as int] == (room_id@, user_id@),
                None => !self@.contains((room_id@, user_id@)),
            },
    {
        let ghost pv = pair_views(self.members@);
        let mut i: usize = 0;
        while i < self.members.len()
            invariant
                i <= self.members@.len(),
                pv == pair_views(self.members@),
                forall|j: int| 0 <= j < i ==> pv[j] != (room_id@, user_id@),
            decreases self.members.len() - i,
        {
            if self.members[i].0 == *room_id && self.members[i].1 == *user_id {
                return Some(i);
            }
            i = i + 1;
        }
        proof {
            if pv.to_set().contains((room_id@, user_id@)) {
                let j = choose|j: int| 0 <= j < pv.len() && pv[j] == (room_id@, user_id@);
                assert(pv[j] != (room_id@, user_id@));
            }
        }
        None
    }

    /// A call member event for `user_id` in `room_id`: with `active` (the
    /// event lists memberships) the user is in the call; without (no
    /// memberships, or a redacted event) the user has left it.
    pub fn apply_member_event(&mut self, room_id: String, user_id: String, active: bool)
        requires
            old(self).wf(),
        ensures
            final(self).wf(),
            final(self)@ == if active {
                old(self)@.insert((room_id@, user_id@))
            } else {
                old(self)@.remove((room_id@, user_id@))
            },
    {
        broadcast use vstd::seq_lib::group_seq_properties;

        let ghost key = (room_id@, user_id@);
        let ghost before = pair_views(self.members@);
        let pos = self.position(&room_id, &user_id);
        match pos {
            Some(i) => {
                if !active {
                    self.members.remove(i);
                    proof {
                        let after = pair_views(self.members@);
                        assert(after =~= before.remove(i as int));
                        assert forall|x: (Seq<char>, Seq<char>)| after.contains(x) <==> (before.contains(x) && x != key) by {
                            if after.contains(x) {
                                let k = choose|k: int| 0 <= k < after.len() && after[k] == x;
                                if k < i {
                                    assert(before[k] == x);
                                    assert(x != key);
                                } else {
                                    assert(before[k + 1] == x);
                                    assert(x != key);
                                }
                            }
                            if before.contains(x) && x != key {
                                let k = choose|k: int| 0 <= k < before.len() && before[k] == x;
                                if k < i {
                                    assert(after[k] == x);
                                } else {
                                    assert(k != i);
                                    assert(after[k - 1] == x);
                                }
                            }
                        }
                        assert(after.to_set() =~= before.to_set().remove(key));
                    }
                } else {
                    proof {
                        assert(before.to_set().contains(key)) by {
                            assert(before[i as int] == key);
                        }
                        assert(before.to_set().insert(key) =~= before.to_set());
                    }
                }
            },
            None => {
                if active {
                    self.members.push((room_id, user_id));
                    proof {
                        let after = pair_views(self.members@);
                        assert(after =~= before.push(key));
                        assert forall|x: (Seq<char>, Seq<char>)| after.contains(x) <==> (before.contains(x) || x == key) by {
                            if after.contains(x) {
                                let k = choose|k: int| 0 <= k < after.len() && after[k] == x;
                                if k < before.len() {
                                    assert(before[k] == x);
                                }
                            }
                            if before.contains(x) {
                                let k = choose|k: int| 0 <= k < before.len() && before[k] == x;
                                assert(after[k] == x);
                            }
                            if x == key {
                                assert(after[before.len() as int] == x);
                            }
                        }
                        assert(after.to_set() =~= before.to_set().insert(key));
                        assert forall|a: int, b: int| 0 <= a < b < after.len() implies after[a] != after[b] by {
                            if b == before.len() {
                                assert(before.contains(after[a]) ==> before.to_set().contains(after[a]));
                            }
                        }
                    }
                } else {
                    proof {
                        assert(before.to_set().remove(key) =~= before.to_set());
                    }
                }
            },
        }
    }

    /// The users in the call of `room_id`, each once, in no particular order.
    pub fn get_call_participants(&self, room_id: &str) -> (users: Vec<String>)
        requires
            self.wf(),
        ensures
            views_of(users@).no_duplicates(),
            views_of(users@).to_set() == in_call(self@, room_id@),
    {
        let room = room_id.to_owned();
        let ghost pv = pair_views(self.members@);
        let mut users: Vec<String> = Vec::new();
        let mut i: usize = 0;
        while i < self.members.len()
            invariant
                i <= self.members@.len(),
                pv == pair_views(self.members@),
                pv.no_duplicates(),
                room@ == room_id@,
                views_of(users@).no_duplicates(),
                forall|u: Seq<char>|
                    #![trigger views_of(users@).contains(u)]
                    views_of(users@).contains(u) <==> exists|j: int| 0 <= j < i && pv[j] == (room_id@, u),
            decreases self.members.len() - i,
        {
            if self.members[i].0 == room {
                let ghost before = views_of(users@);
                let ghost u = self.members@[i as int].1@;
                proof {
                    assert(pv[i as int] == (room_id@, u));
                    if before.contains(u) {
                        let j = choose|j: int| 0 <= j < i && pv[j] == (room_id@, u);
                        assert(pv[j] == pv[i as int]);
                    }
                }
                users.push(self.members[i].1.clone());
                proof {
                    let after = views_of(users@);
                    assert(after =~= before.push(u));
                    assert forall|v: Seq<char>| #[trigger] after.contains(v) <==> exists|j: int| 0 <= j < i + 1 && pv[j] == (room_id@, v) by {
                        if after.contains(v) {
                            let k = choose|k: int| 0 <= k < after.len() && after[k] == v;
                            if k < before.len() {
                                assert(before[k] == v);
                                assert(before.contains(v));
                            } else {
                                assert(pv[i as int] == (room_id@, v));
                            }
                        }
                        if exists|j: int| 0 <= j < i + 1 && pv[j] == (room_id@, v) {
                            let j = choose|j: int| 0 <= j < i + 1 && pv[j] == (room_id@, v);
                            if j < i {
                                assert(before.contains(v));
                                let k = choose|k: int| 0 <= k < before.len() && before[k] == v;
                                assert(after[k] == v);
                            } else {
                                assert(after[before.len() as int] == v);
                            }
                        }
                    }
                    assert forall|a: int, b: int| 0 <= a < b < after.len() implies after[a] != after[b] by {
                        if b == before.len() {
                            assert(after[a] == before[a]);
                            assert(before.contains(before[a]));
                        }
                    }
                }
            } else {
                proof {
                    assert forall|v: Seq<char>| #[trigger] views_of(users@).contains(v) <==> exists|j: int| 0 <= j < i + 1 && pv[j] == (room_id@, v) by {
                        if exists|j: int| 0 <= j < i + 1 && pv[j] == (room_id@, v) {
                            let j = choose|j: int| 0 <= j < i + 1 && pv[j] == (room_id@, v);
                            if j == i {
                                assert(pv[i as int].0 == self.members@[i as int].0@);
                                assert(false);
                            }
                        }
                    }
                }
            }
            i = i + 1;
        }
        proof {
            assert forall|u: Seq<char>| views_of(users@).to_set().contains(u) <==> in_call(self@, room_id@).contains(u) by {
                if in_call(self@, room_id@).contains(u) {
                    assert(pv.to_set().contains((room_id@, u)));
                    let j = choose|j: int| 0 <= j < pv.len() && pv[j] == (room_id@, u);
                    assert(views_of(users@).contains(u));
                }
                if views_of(users@).contains(u) {
                    let j = choose|j: int| 0 <= j < i && pv[j] == (room_id@, u);
                    assert(pv.contains((room_id@, u)));
                }
            }
            assert(views_of(users@).to_set() =~= in_call(self@, room_id@));
        }
        users
    }
}

/// A user who joins a call and leaves it again leaves the calls as they
/// were: the leaving event undoes the joining one (for a user who was not in
/// that call before).
pub proof fn lemma_leave_undoes_join(calls: Set<(Seq<char>, Seq<char>)>, room: Seq<char>, user: Seq<char>)
    requires
        !calls.contains((room, user)),
    ensures
        calls.insert((room, user)).remove((room, user)) == calls,
        in_call(calls.insert((room, user)), room).contains(user),
{
    assert(calls.insert((room, user)).remove((room, user)) =~= calls);
}

} // verus!
