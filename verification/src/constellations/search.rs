//! The search bar: the public room directory, in-room and global message
//! searches, and the generation count that drops answers to stale queries.
use crate::constellations::session::shows_error;
use crate::constellations::{
    failure_message, failure_text, single, Constellations, Effect, Panels, Search, Session,
    SettingsPanel,
};
use crate::matrix::{GlobalSearchScope, MessageSearchResult, PublicRoom};
use crate::text::{trim, trimmed};
use vstd::hash_map::StringHashMap;
use vstd::prelude::*;
use vstd::string::StringExecFns;

verus! {

/// The filters of the settings drawer after the query changed: the room
/// panel's member filter or the space panel's child filter follows it.
pub open spec fn filters_follow(old: Panels, new: Panels, query: String) -> bool {
    new == (Panels {
        room_member_filter: if old.current_settings_panel == Some(SettingsPanel::Room) {
            query
        } else {
            old.room_member_filter
        },
        space_child_filter: if old.current_settings_panel == Some(SettingsPanel::Space) {
            query
        } else {
            old.space_child_filter
        },
        ..old
    })
}

/// The searches a query starts when the engine is up: the public room
/// directory, and the messages of the selected room or, without one, of all
/// rooms; all carry the generation `generation` and the trimmed query `q`.
pub open spec fn search_tasks_are(
    effects: Seq<Effect>,
    engine: bool,
    room: Option<String>,
    q: Seq<char>,
    scope: GlobalSearchScope,
    generation: u64,
) -> bool {
    if !engine {
        effects.len() == 0
    } else {
        &&& effects.len() == 2
        &&& (effects[0] matches Effect::SearchPublicRooms { query, generation: g } && query@ == q && g
            == generation)
        &&& match room {
            Some(r) => effects[1] matches Effect::SearchMessagesInRoom { room_id, query, generation: g }
                && room_id == r && query@ == q && g == generation,
            None => effects[1] matches Effect::SearchMessagesGlobal { query, scope: s, generation: g } && query@
                == q && s == scope && g == generation,
        }
    }
}

/// `handle_search_query_changed`: the query (and the drawer's filter) take
/// the new text and the filtered lists refresh; outside the drawer a query
/// that is not blank starts a new generation of searches, while a blank one
/// (or one typed in the drawer) clears every result and also starts a new
/// generation so that late answers are dropped.
pub open spec fn search_query_changed_post(
    old: Constellations,
    new: Constellations,
    query: String,
    effects: Seq<Effect>,
) -> bool {
    let q = trim(query@);
    let generation = old.search.search_generation.wrapping_add(1);
    let engine = old.session.engine_ready;
    &&& effects.len() >= 1
    &&& effects[0] == Effect::UpdateFilteredRooms
    &&& filters_follow(old.panels, new.panels, query)
    &&& if old.panels.current_settings_panel is None && q.len() > 0 {
        &&& new == (Constellations {
            search: Search {
                search_query: query,
                search_has_more: false,
                is_searching_more_messages: false,
                search_generation: generation,
                is_searching_public: old.search.is_searching_public || engine,
                is_searching_messages: old.search.is_searching_messages || (engine
                    && old.rooms.selected_room is Some),
                is_searching_global_messages: old.search.is_searching_global_messages || (engine
                    && old.rooms.selected_room is None),
                ..old.search
            },
            panels: new.panels,
            ..old
        })
        &&& search_tasks_are(
            effects.skip(1),
            engine,
            old.rooms.selected_room,
            q,
            old.search.global_search_scope,
            generation,
        )
    } else {
        &&& new == (Constellations {
            search: Search {
                search_query: query,
                search_has_more: false,
                is_searching_more_messages: false,
                search_generation: generation,
                public_search_results: new.search.public_search_results,
                is_searching_public: false,
                message_search_results: new.search.message_search_results,
                is_searching_messages: false,
                global_message_search_results: new.search.global_message_search_results,
                is_searching_global_messages: false,
                ..old.search
            },
            panels: new.panels,
            ..old
        })
        &&& new.search.public_search_results@.len() == 0
        &&& new.search.message_search_results@.len() == 0
        &&& new.search.global_message_search_results@.len() == 0
        &&& effects.len() == 1
    }
}

/// `handle_toggle_search`: closing the search clears the query, the drawer's
/// filters and every result; opening it while the room or space panel shows
/// takes that panel's filter as the query.
pub open spec fn toggle_search_post(old: Constellations, new: Constellations, effects: Seq<Effect>) -> bool {
    &&& effects == seq![Effect::UpdateFilteredRooms]
    &&& if old.search.is_search_active {
        &&& new == (Constellations {
            search: Search {
                is_search_active: false,
                search_query: new.search.search_query,
                public_search_results: new.search.public_search_results,
                is_searching_public: false,
                message_search_results: new.search.message_search_results,
                is_searching_messages: false,
                search_has_more: false,
                is_searching_more_messages: false,
                global_message_search_results: new.search.global_message_search_results,
                is_searching_global_messages: false,
                ..old.search
            },
            panels: Panels {
                room_member_filter: new.panels.room_member_filter,
                space_child_filter: new.panels.space_child_filter,
                ..old.panels
            },
            ..old
        })
        &&& new.search.search_query@.len() == 0
        &&& new.panels.room_member_filter@.len() == 0
        &&& new.panels.space_child_filter@.len() == 0
        &&& new.search.public_search_results@.len() == 0
        &&& new.search.message_search_results@.len() == 0
        &&& new.search.global_message_search_results@.len() == 0
    } else {
        new == (Constellations {
            search: Search {
                is_search_active: true,
                search_query: if old.panels.current_settings_panel == Some(SettingsPanel::Room) {
                    old.panels.room_member_filter
                } else if old.panels.current_settings_panel == Some(SettingsPanel::Space) {
                    old.panels.space_child_filter
                } else {
                    old.search.search_query
                },
                ..old.search
            },
            ..old
        })
    }
}

/// An answer carrying `generation` is current.
pub open spec fn is_current(c: Constellations, generation: u64) -> bool {
    generation == c.search.search_generation
}

/// `MessageSearchResults`: an answer to a stale query is dropped; else the
/// search ends with its hits (and whether more can be had), or with no hits
/// and the failure shown.
pub open spec fn message_results_post(
    old: Constellations,
    new: Constellations,
    generation: u64,
    res: Result<(Vec<MessageSearchResult>, bool), String>,
    effects: Seq<Effect>,
) -> bool {
    &&& effects.len() == 0
    &&& if !is_current(old, generation) {
        new == old
    } else {
        match res {
            Ok((results, more)) => new == (Constellations {
                search: Search {
                    is_searching_messages: false,
                    message_search_results: results,
                    search_has_more: more,
                    ..old.search
                },
                ..old
            }),
            Err(e) => {
                &&& new == (Constellations {
                    search: Search {
                        is_searching_messages: false,
                        message_search_results: new.search.message_search_results,
                        ..old.search
                    },
                    session: Session { error: new.session.error, ..old.session },
                    ..old
                })
                &&& new.search.message_search_results@.len() == 0
                &&& shows_error(new.session.error, failure_text("search the messages"@, e@))
            },
        }
    }
}

/// `GlobalMessageSearchResults`: like [`message_results_post`], for the
/// search across all rooms.
pub open spec fn global_results_post(
    old: Constellations,
    new: Constellations,
    generation: u64,
    res: Result<Vec<MessageSearchResult>, String>,
    effects: Seq<Effect>,
) -> bool {
    &&& effects.len() == 0
    &&& if !is_current(old, generation) {
        new == old
    } else {
        match res {
            Ok(results) => new == (Constellations {
                search: Search {
                    is_searching_global_messages: false,
                    global_message_search_results: results,
                    ..old.search
                },
                ..old
            }),
            Err(e) => {
                &&& new == (Constellations {
                    search: Search {
                        is_searching_global_messages: false,
                        global_message_search_results: new.search.global_message_search_results,
                        ..old.search
                    },
                    session: Session { error: new.session.error, ..old.session },
                    ..old
                })
                &&& new.search.global_message_search_results@.len() == 0
                &&& shows_error(new.session.error, failure_text("search the messages"@, e@))
            },
        }
    }
}

/// The avatars of public rooms that are not cached, in order.
pub open spec fn missing_public_avatars(rooms: Seq<PublicRoom>, cache: Map<Seq<char>, Vec<u8>>) -> Seq<Seq<char>>
    decreases rooms.len(),
{
    if rooms.len() == 0 {
        Seq::empty()
    } else {
        let rest = missing_public_avatars(rooms.drop_last(), cache);
        match rooms.last().avatar_url {
            Some(url) => if cache.contains_key(url@) {
                rest
            } else {
                rest.push(url@)
            },
            None => rest,
        }
    }
}

/// One media fetch per URL.
pub open spec fn media_fetches(urls: Seq<Seq<char>>, effects: Seq<Effect>) -> bool {
    &&& effects.len() == urls.len()
    &&& forall|i: int| 0 <= i < urls.len() ==> (#[trigger] effects[i] matches Effect::FetchMedia(u) && u@ == urls[i])
}

/// `PublicSearchResults`: an answer to a stale query is dropped; else the
/// directory search ends with its rooms, whose avatars that are not cached
/// are fetched (with the engine up), or with the failure shown.
pub open spec fn public_results_post(
    old: Constellations,
    new: Constellations,
    generation: u64,
    res: Result<Vec<PublicRoom>, String>,
    effects: Seq<Effect>,
) -> bool {
    if !is_current(old, generation) {
        new == old && effects.len() == 0
    } else {
        match res {
            Ok(rooms) => {
                &&& new == (Constellations {
                    search: Search { is_searching_public: false, public_search_results: rooms, ..old.search },
                    ..old
                })
                &&& if old.session.engine_ready {
                    media_fetches(missing_public_avatars(rooms@, old.media_cache@), effects)
                } else {
                    effects.len() == 0
                }
            },
            Err(e) => {
                &&& new == (Constellations {
                    search: Search { is_searching_public: false, ..old.search },
                    session: Session { error: new.session.error, ..old.session },
                    ..old
                })
                &&& shows_error(new.session.error, failure_text("search the public rooms"@, e@))
                &&& effects.len() == 0
            },
        }
    }
}

/// The searches a non-blank query starts (see [`search_tasks_are`]).
fn search_tasks(engine: bool, room: &Option<String>, q: &String, scope: GlobalSearchScope, generation: u64) -> (effects: Vec<Effect>)
    ensures
        search_tasks_are(effects@, engine, *room, q@, scope, generation),
{
    if !engine {
        return Vec::new();
    }
    let mut effects = single(Effect::SearchPublicRooms { query: q.clone(), generation });
    match room {
        Some(r) => {
            effects.push(Effect::SearchMessagesInRoom { room_id: r.clone(), query: q.clone(), generation });
        },
        None => {
            effects.push(Effect::SearchMessagesGlobal { query: q.clone(), scope, generation });
        },
    }
    effects
}

/// The avatars of `rooms` that are not in `cache`, one fetch each.
fn public_avatar_fetches(rooms: &Vec<PublicRoom>, cache: &StringHashMap<Vec<u8>>) -> (effects: Vec<Effect>)
    ensures
        media_fetches(missing_public_avatars(rooms@, cache@), effects@),
{
    let mut effects: Vec<Effect> = Vec::new();
    let n = rooms.len();
    let mut i: usize = 0;
    while i < n
        invariant
            0 <= i <= n,
            n == rooms@.len(),
            media_fetches(missing_public_avatars(rooms@.take(i as int), cache@), effects@),
        decreases n - i,
    {
        assert(rooms@.take(i + 1).drop_last() =~= rooms@.take(i as int));
        match &rooms[i].avatar_url {
            Some(url) => {
                if !cache.contains_key(url.as_str()) {
                    effects.push(Effect::FetchMedia(url.clone()));
                }
            },
            None => {},
        }
        i = i + 1;
    }
    assert(rooms@.take(n as int) =~= rooms@);
    effects
}

impl Panels {
    /// The drawer's filter follows the query.
    fn follow_query(&mut self, query: &String)
        ensures
            filters_follow(*old(self), *final(self), *query),
    {
        match self.current_settings_panel {
            Some(SettingsPanel::Room) => {
                self.room_member_filter = query.clone();
            },
            Some(SettingsPanel::Space) => {
                self.space_child_filter = query.clone();
            },
            _ => {},
        }
    }
}

impl Search {
    /// A new query: pagination ends and a new generation starts; `searching`
    /// tells whether searches start (`public`, `in_room`, `global`: which).
    fn start_query(&mut self, query: String, searching: bool, public: bool, in_room: bool, global: bool)
        ensures
            searching ==> *final(self) == (Search {
                search_query: query,
                search_has_more: false,
                is_searching_more_messages: false,
                search_generation: old(self).search_generation.wrapping_add(1),
                is_searching_public: old(self).is_searching_public || public,
                is_searching_messages: old(self).is_searching_messages || in_room,
                is_searching_global_messages: old(self).is_searching_global_messages || global,
                ..*old(self)
            }),
            !searching ==> *final(self) == (Search {
                search_query: query,
                search_has_more: false,
                is_searching_more_messages: false,
                search_generation: old(self).search_generation.wrapping_add(1),
                public_search_results: final(self).public_search_results,
                is_searching_public: false,
                message_search_results: final(self).message_search_results,
                is_searching_messages: false,
                global_message_search_results: final(self).global_message_search_results,
                is_searching_global_messages: false,
                ..*old(self)
            }),
            !searching ==> final(self).public_search_results@.len() == 0,
            !searching ==> final(self).message_search_results@.len() == 0,
            !searching ==> final(self).global_message_search_results@.len() == 0,
    {
        self.search_query = query;
        self.search_has_more = false;
        self.is_searching_more_messages = false;
        self.search_generation = self.search_generation.wrapping_add(1);
        if searching {
            self.is_searching_public = self.is_searching_public || public;
            self.is_searching_messages = self.is_searching_messages || in_room;
            self.is_searching_global_messages = self.is_searching_global_messages || global;
        } else {
            self.public_search_results.clear();
            self.is_searching_public = false;
            self.message_search_results.clear();
            self.is_searching_messages = false;
            self.global_message_search_results.clear();
            self.is_searching_global_messages = false;
        }
    }

    /// Ends the in-room search with its answer; tells the failure to show.
    fn take_message_results(&mut self, res: Result<(Vec<MessageSearchResult>, bool), String>) -> (err: Option<String>)
        ensures
            match res {
                Ok((results, more)) => {
                    &&& *final(self) == (Search {
                        is_searching_messages: false,
                        message_search_results: results,
                        search_has_more: more,
                        ..*old(self)
                    })
                    &&& err is None
                },
                Err(e) => {
                    &&& *final(self) == (Search {
                        is_searching_messages: false,
                        message_search_results: final(self).message_search_results,
                        ..*old(self)
                    })
                    &&& final(self).message_search_results@.len() == 0
                    &&& shows_error(err, failure_text("search the messages"@, e@))
                },
            },
    {
        self.is_searching_messages = false;
        match res {
            Ok((results, more)) => {
                self.message_search_results = results;
                self.search_has_more = more;
                None
            },
            Err(e) => {
                self.message_search_results.clear();
                Some(failure_message("search the messages", e.as_str()))
            },
        }
    }

    /// Ends the global search with its answer; tells the failure to show.
    fn take_global_results(&mut self, res: Result<Vec<MessageSearchResult>, String>) -> (err: Option<String>)
        ensures
            match res {
                Ok(results) => {
                    &&& *final(self) == (Search {
                        is_searching_global_messages: false,
                        global_message_search_results: results,
                        ..*old(self)
                    })
                    &&& err is None
                },
                Err(e) => {
                    &&& *final(self) == (Search {
                        is_searching_global_messages: false,
                        global_message_search_results: final(self).global_message_search_results,
                        ..*old(self)
                    })
                    &&& final(self).global_message_search_results@.len() == 0
                    &&& shows_error(err, failure_text("search the messages"@, e@))
                },
            },
    {
        self.is_searching_global_messages = false;
        match res {
            Ok(results) => {
                self.global_message_search_results = results;
                None
            },
            Err(e) => {
                self.global_message_search_results.clear();
                Some(failure_message("search the messages", e.as_str()))
            },
        }
    }

    /// Ends the directory search with its answer; tells the failure to show.
    fn take_public_results(&mut self, res: Result<Vec<PublicRoom>, String>) -> (err: Option<String>)
        ensures
            match res {
                Ok(rooms) => {
                    &&& *final(self) == (Search {
                        is_searching_public: false,
                        public_search_results: rooms,
                        ..*old(self)
                    })
                    &&& err is None
                },
                Err(e) => {
                    &&& *final(self) == (Search { is_searching_public: false, ..*old(self) })
                    &&& shows_error(err, failure_text("search the public rooms"@, e@))
                },
            },
    {
        self.is_searching_public = false;
        match res {
            Ok(rooms) => {
                self.public_search_results = rooms;
                None
            },
            Err(e) => Some(failure_message("search the public rooms", e.as_str())),
        }
    }

    /// Closes the search: the query and every result are cleared.
    fn close(&mut self)
        ensures
            *final(self) == (Search {
                is_search_active: false,
                search_query: final(self).search_query,
                public_search_results: final(self).public_search_results,
                is_searching_public: false,
                message_search_results: final(self).message_search_results,
                is_searching_messages: false,
                search_has_more: false,
                is_searching_more_messages: false,
                global_message_search_results: final(self).global_message_search_results,
                is_searching_global_messages: false,
                ..*old(self)
            }),
            final(self).search_query@.len() == 0,
            final(self).public_search_results@.len() == 0,
            final(self).message_search_results@.len() == 0,
            final(self).global_message_search_results@.len() == 0,
    {
        self.is_search_active = false;
        self.search_query = String::new();
        self.public_search_results.clear();
        self.is_searching_public = false;
        self.message_search_results.clear();
        self.is_searching_messages = false;
        self.search_has_more = false;
        self.is_searching_more_messages = false;
        self.global_message_search_results.clear();
        self.is_searching_global_messages = false;
    }
}

/// Asks for the next page of in-room search results.
pub open spec fn load_more_message_search_post(old: Constellations, new: Constellations, effects: Seq<Effect>) -> bool {
    &&& if old.session.engine_ready && old.rooms.selected_room is Some
            && old.search.search_has_more && !old.search.is_searching_more_messages {
            &&& new == (Constellations {
                search: Search { is_searching_more_messages: true, ..old.search },
                ..old
            })
            &&& effects.len() == 1
            &&& (effects[0] matches Effect::SearchMoreMessagesInRoom { room_id, query } && room_id
                == old.rooms.selected_room.unwrap() && query@ == trim(old.search.search_query@))
        } else {
            new == old && effects.len() == 0
        }
}

/// Changes which rooms the global search looks at, and searches again.
pub open spec fn set_global_search_scope_post(old: Constellations, new: Constellations, scope: GlobalSearchScope, effects: Seq<Effect>) -> bool {
    &&& exists|mid: Constellations|
            {
                &&& mid == (Constellations {
                    search: Search {
                        global_search_scope: scope,
                        global_message_search_results: mid.search.global_message_search_results,
                        ..old.search
                    },
                    ..old
                })
                &&& mid.search.global_message_search_results@.len() == 0
                &&& #[trigger] search_query_changed_post(mid, new, old.search.search_query, effects)
            }
}

/// The next page of in-room search results: appended after the hits
/// already shown.
pub open spec fn message_search_more_results_post(old: Constellations, new: Constellations, res: Result<(Vec<MessageSearchResult>, bool), String>, effects: Seq<Effect>) -> bool {
    &&& effects.len() == 0
    &&& match res {
            Ok((more, has_more)) => {
                &&& new == (Constellations {
                    search: Search {
                        is_searching_more_messages: false,
                        message_search_results: new.search.message_search_results,
                        search_has_more: has_more,
                        ..old.search
                    },
                    ..old
                })
                &&& new.search.message_search_results@ == old.search.message_search_results@ + more@
            },
            Err(e) => {
                &&& new == (Constellations {
                    search: Search { is_searching_more_messages: false, ..old.search },
                    session: Session { error: new.session.error, ..old.session },
                    ..old
                })
                &&& shows_error(new.session.error, failure_text("load more search results"@, e@))
            },
        }
}

impl Constellations {
    /// Opens or closes the search.
    pub fn handle_toggle_search(&mut self) -> (effects: Vec<Effect>)
        ensures
            toggle_search_post(*old(self), *final(self), effects@),
    {
        if self.search.is_search_active {
            self.search.close();
            self.panels.room_member_filter = String::new();
            self.panels.space_child_filter = String::new();
        } else {
            let query = match self.panels.current_settings_panel {
                Some(SettingsPanel::Room) => self.panels.room_member_filter.clone(),
                Some(SettingsPanel::Space) => self.panels.space_child_filter.clone(),
                _ => self.search.search_query.clone(),
            };
            self.search.is_search_active = true;
            self.search.search_query = query;
        }
        single(Effect::UpdateFilteredRooms)
    }

    /// The search query changed.
    pub fn handle_search_query_changed(&mut self, query: String) -> (effects: Vec<Effect>)
        ensures
            search_query_changed_post(*old(self), *final(self), query, effects@),
    {
        let q = trimmed(query.as_str());
        let searching = self.panels.current_settings_panel.is_none() && !q.as_str().is_empty();
        let engine = self.session.engine_ready;
        let has_room = self.rooms.selected_room.is_some();
        let generation = self.search.search_generation.wrapping_add(1);
        let mut effects = single(Effect::UpdateFilteredRooms);
        if searching {
            let mut tasks = search_tasks(
                engine,
                &self.rooms.selected_room,
                &q,
                self.search.global_search_scope,
                generation,
            );
            let ghost t = tasks@;
            effects.append(&mut tasks);
            assert(effects@.skip(1) =~= t);
        }
        self.panels.follow_query(&query);
        self.search.start_query(query, searching, engine, engine && has_room, engine && !has_room);
        effects
    }

    /// Answers of an in-room message search.
    pub fn handle_message_search_results(
        &mut self,
        generation: u64,
        res: Result<(Vec<MessageSearchResult>, bool), String>,
    ) -> (effects: Vec<Effect>)
        ensures
            message_results_post(*old(self), *final(self), generation, res, effects@),
    {
        if generation != self.search.search_generation {
            return Vec::new();
        }
        let err = self.search.take_message_results(res);
        self.session.report(err);
        Vec::new()
    }

    /// Asks for the next page of in-room search results.
    pub fn handle_load_more_message_search(&mut self) -> (effects: Vec<Effect>)
        ensures
            load_more_message_search_post(*old(self), *final(self), effects@),
    {
        if !self.session.engine_ready || !self.search.search_has_more || self.search.is_searching_more_messages {
            return Vec::new();
        }
        match &self.rooms.selected_room {
            Some(r) => {
                let room_id = r.clone();
                let query = trimmed(self.search.search_query.as_str());
                self.search.is_searching_more_messages = true;
                single(Effect::SearchMoreMessagesInRoom { room_id, query })
            },
            None => Vec::new(),
        }
    }

    /// The next page of in-room search results: appended after the hits
    /// already shown.
    pub fn handle_message_search_more_results(
        &mut self,
        res: Result<(Vec<MessageSearchResult>, bool), String>,
    ) -> (effects: Vec<Effect>)
        ensures
            message_search_more_results_post(*old(self), *final(self), res, effects@),
    {
        self.search.is_searching_more_messages = false;
        match res {
            Ok((more, has_more)) => {
                let mut more = more;
                self.search.message_search_results.append(&mut more);
                self.search.search_has_more = has_more;
            },
            Err(e) => {
                self.session.error = Some(failure_message("load more search results", e.as_str()));
            },
        }
        Vec::new()
    }

    /// Answers of a search across all rooms.
    pub fn handle_global_message_search_results(
        &mut self,
        generation: u64,
        res: Result<Vec<MessageSearchResult>, String>,
    ) -> (effects: Vec<Effect>)
        ensures
            global_results_post(*old(self), *final(self), generation, res, effects@),
    {
        if generation != self.search.search_generation {
            return Vec::new();
        }
        let err = self.search.take_global_results(res);
        self.session.report(err);
        Vec::new()
    }

    /// Answers of a public room directory search.
    pub fn handle_public_search_results(&mut self, generation: u64, res: Result<Vec<PublicRoom>, String>) -> (effects: Vec<Effect>)
        ensures
            public_results_post(*old(self), *final(self), generation, res, effects@),
    {
        if generation != self.search.search_generation {
            return Vec::new();
        }
        let effects = match &res {
            Ok(rooms) => if self.session.engine_ready {
                public_avatar_fetches(rooms, &self.media_cache)
            } else {
                Vec::new()
            },
            Err(_) => Vec::new(),
        };
        let err = self.search.take_public_results(res);
        self.session.report(err);
        effects
    }

    /// Changes which rooms the global search looks at, and searches again.
    pub fn handle_set_global_search_scope(&mut self, scope: GlobalSearchScope) -> (effects: Vec<Effect>)
        ensures
            set_global_search_scope_post(*old(self), *final(self), scope, effects@),
    {
        self.search.global_search_scope = scope;
        self.search.global_message_search_results.clear();
        let ghost mid = *self;
        let query = self.search.search_query.clone();
        let effects = self.handle_search_query_changed(query);
        assert(search_query_changed_post(mid, *self, old(self).search.search_query, effects@));
        effects
    }
}

/// A result of an in-room message search that answers a query older than the
/// last change of the query is dropped: after the query changes, an answer
/// carrying the generation that was current before leaves the state as it
/// is.
pub proof fn lemma_stale_message_results_dropped(
    c0: Constellations,
    c1: Constellations,
    query: String,
    e1: Seq<Effect>,
    c2: Constellations,
    res: Result<(Vec<MessageSearchResult>, bool), String>,
    e2: Seq<Effect>,
)
    requires
        search_query_changed_post(c0, c1, query, e1),
        message_results_post(c1, c2, c0.search.search_generation, res, e2),
    ensures
        c2 == c1,
        e2.len() == 0,
{
    assert(c1.search.search_generation == c0.search.search_generation.wrapping_add(1));
    assert(c0.search.search_generation.wrapping_add(1) != c0.search.search_generation) by {
        let g = c0.search.search_generation;
        assert(g.wrapping_add(1) != g) by (bit_vector);
    }
}

/// The same for a search across all rooms.
pub proof fn lemma_stale_global_results_dropped(
    c0: Constellations,
    c1: Constellations,
    query: String,
    e1: Seq<Effect>,
    c2: Constellations,
    res: Result<Vec<MessageSearchResult>, String>,
    e2: Seq<Effect>,
)
    requires
        search_query_changed_post(c0, c1, query, e1),
        global_results_post(c1, c2, c0.search.search_generation, res, e2),
    ensures
        c2 == c1,
        e2.len() == 0,
{
    assert(c1.search.search_generation == c0.search.search_generation.wrapping_add(1));
    assert(c0.search.search_generation.wrapping_add(1) != c0.search.search_generation) by {
        let g = c0.search.search_generation;
        assert(g.wrapping_add(1) != g) by (bit_vector);
    }
}

/// Every result that a query starts carries the generation that the query
/// made current.
pub proof fn lemma_searches_carry_current_generation(
    c0: Constellations,
    c1: Constellations,
    query: String,
    effects: Seq<Effect>,
    i: int,
)
    requires
        search_query_changed_post(c0, c1, query, effects),
        1 <= i < effects.len(),
    ensures
        match effects[i] {
            Effect::SearchPublicRooms { generation, .. } => is_current(c1, generation),
            Effect::SearchMessagesInRoom { generation, .. } => is_current(c1, generation),
            Effect::SearchMessagesGlobal { generation, .. } => is_current(c1, generation),
            _ => false,
        },
{
    assert(effects.skip(1)[i - 1] == effects[i]);
}

} // verus!
