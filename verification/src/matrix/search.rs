//! Message search in a room: the server's `/search` endpoint while the
//! homeserver offers it, the local search index (after a history backfill)
//! once it turned out not to, and the paging of whichever search ran last.
//!
//! The requests themselves are the runtime's work; this module decides which
//! to make and what their answers mean.
use crate::matrix::MessageSearchResult;
use vstd::prelude::*;

verus! {

/// The search that "load more" continues.
pub enum ActiveSearch {
    /// A server-side search, with the token of its next page if it has one.
    Server { query: String, room_id: String, next_batch: Option<String> },
    /// A search of the local index (whose iterator the runtime keeps).
    Local { room_id: String },
}

/// What the client remembers about message search.
pub struct SearchState {
    /// Whether the homeserver offers `/search`, once that is known.
    pub server_search_supported: Option<bool>,
    pub active_search: Option<ActiveSearch>,
}

/// How a request to the server's `/search` ended.
pub enum ServerSearchOutcome {
    /// A page of hits and the token of the next page, if any.
    Found(Vec<MessageSearchResult>, Option<String>),
    /// The homeserver does not offer the endpoint.
    Unsupported,
    /// Any other failure.
    Failed(String),
}

/// The next thing a search does.
pub enum SearchStep {
    /// Ask the server's `/search` (from the page `next_batch`, if given).
    ServerSearch { room_id: String, query: String, next_batch: Option<String> },
    /// Backfill the room's history and query the local index.
    LocalSearch { room_id: String, query: String },
    /// Ask the local index for its next page.
    LocalNextBatch { room_id: String },
    /// The search is answered: hits and whether more can be had.
    Done(Result<(Vec<MessageSearchResult>, bool), String>),
}

/// The answer "nothing (more) found".
pub open spec fn nothing_more(step: SearchStep) -> bool {
    step matches SearchStep::Done(Ok((hits, more))) && hits@.len() == 0 && !more
}

impl SearchState {
    /// Nothing known yet, no search running.
    pub fn new() -> (s: SearchState)
        ensures
            s.server_search_supported is None,
            s.active_search is None,
    {
        SearchState { server_search_supported: None, active_search: None }
    }

    /// A new client was set up (a new sign-in, perhaps to another
    /// homeserver): whether it offers `/search` is to be found out again.
    pub fn forget_server_support(&mut self)
        ensures
            final(self).server_search_supported is None,
            final(self).active_search == old(self).active_search,
    {
        self.server_search_supported = None;
    }

    /// Starts a search of `room_id` for `query`: on the server unless the
    /// homeserver is known not to offer `/search`, locally otherwise.
    pub fn begin_room_search(&self, room_id: String, query: String) -> (step: SearchStep)
        ensures
            self.server_search_supported == Some(false) ==> step == (SearchStep::LocalSearch { room_id, query }),
            self.server_search_supported != Some(false) ==> step == (SearchStep::ServerSearch {
                room_id,
                query,
                next_batch: None,
            }),
    {
        match self.server_search_supported {
            Some(false) => SearchStep::LocalSearch { room_id, query },
            _ => SearchStep::ServerSearch { room_id, query, next_batch: None },
        }
    }

    /// The first server request of a search answered: hits mean the server
    /// offers `/search` (remembered, and the search becomes the one to
    /// continue); "unsupported" is remembered and the search goes local; any
    /// other failure is the answer.
    pub fn server_search_answered(&mut self, room_id: String, query: String, outcome: ServerSearchOutcome) -> (step: SearchStep)
        ensures
            match outcome {
                ServerSearchOutcome::Found(hits, next_batch) => {
                    &&& final(self).server_search_supported == Some(true)
                    &&& final(self).active_search == Some(ActiveSearch::Server { query, room_id, next_batch })
                    &&& step == SearchStep::Done(Ok((hits, next_batch is Some)))
                },
                ServerSearchOutcome::Unsupported => {
                    &&& final(self).server_search_supported == Some(false)
                    &&& final(self).active_search == old(self).active_search
                    &&& step == (SearchStep::LocalSearch { room_id, query })
                },
                ServerSearchOutcome::Failed(e) => {
                    &&& *final(self) == *old(self)
                    &&& step == SearchStep::Done(Err(e))
                },
            },
    {
        match outcome {
            ServerSearchOutcome::Found(hits, next_batch) => {
                self.server_search_supported = Some(true);
                let more = next_batch.is_some();
                self.active_search = Some(ActiveSearch::Server { query, room_id, next_batch });
                SearchStep::Done(Ok((hits, more)))
            },
            ServerSearchOutcome::Unsupported => {
                self.server_search_supported = Some(false);
                SearchStep::LocalSearch { room_id, query }
            },
            ServerSearchOutcome::Failed(e) => SearchStep::Done(Err(e)),
        }
    }

    /// The local index answered the first page of a search (`None`: it had
    /// nothing at all); the local search becomes the one to continue, and
    /// more may follow whenever a page came.
    pub fn local_search_answered(&mut self, room_id: String, hits: Option<Vec<MessageSearchResult>>) -> (step: SearchStep)
        ensures
            final(self).server_search_supported == old(self).server_search_supported,
            final(self).active_search == Some(ActiveSearch::Local { room_id }),
            match hits {
                Some(h) => step == SearchStep::Done(Ok((h, true))),
                None => nothing_more(step),
            },
    {
        self.active_search = Some(ActiveSearch::Local { room_id });
        match hits {
            Some(h) => SearchStep::Done(Ok((h, true))),
            None => SearchStep::Done(Ok((Vec::new(), false))),
        }
    }

    /// "Load more": continues the search that ran last, which stays the one
    /// to continue; without one, or when the server said it had no further
    /// page, nothing more is found.
    pub fn next_batch(&self) -> (step: SearchStep)
        ensures
            match self.active_search {
                None => nothing_more(step),
                Some(ActiveSearch::Local { room_id }) => step == (SearchStep::LocalNextBatch { room_id }),
                Some(ActiveSearch::Server { query, room_id, next_batch }) => match next_batch {
                    None => nothing_more(step),
                    Some(token) => step == (SearchStep::ServerSearch { room_id, query, next_batch: Some(token) }),
                },
            },
    {
        match &self.active_search {
            None => SearchStep::Done(Ok((Vec::new(), false))),
            Some(ActiveSearch::Local { room_id }) => SearchStep::LocalNextBatch { room_id: room_id.clone() },
            Some(ActiveSearch::Server { query, room_id, next_batch }) => match next_batch {
                None => SearchStep::Done(Ok((Vec::new(), false))),
                Some(token) => SearchStep::ServerSearch {
                    room_id: room_id.clone(),
                    query: query.clone(),
                    next_batch: Some(token.clone()),
                },
            },
        }
    }

    /// A further server page answered: its hits, with the search now
    /// continuing from the new token; "unsupported" ends it quietly; any
    /// other failure is the answer.
    pub fn next_batch_server_answered(&mut self, outcome: ServerSearchOutcome) -> (res: Result<(Vec<MessageSearchResult>, bool), String>)
        ensures
            final(self).server_search_supported == old(self).server_search_supported,
            match outcome {
                ServerSearchOutcome::Found(hits, new_batch) => {
                    &&& res == Ok::<(Vec<MessageSearchResult>, bool), String>((hits, new_batch is Some))
                    &&& final(self).active_search == match old(self).active_search {
                        Some(ActiveSearch::Server { query, room_id, next_batch: _ }) => Some(ActiveSearch::Server {
                            query,
                            room_id,
                            next_batch: new_batch,
                        }),
                        other => other,
                    }
                },
                ServerSearchOutcome::Unsupported => {
                    &&& res matches Ok((hits, more)) && hits@.len() == 0 && !more
                    &&& final(self).active_search == old(self).active_search
                },
                ServerSearchOutcome::Failed(e) => {
                    &&& res == Err::<(Vec<MessageSearchResult>, bool), String>(e)
                    &&& final(self).active_search == old(self).active_search
                },
            },
    {
        match outcome {
            ServerSearchOutcome::Found(hits, new_batch) => {
                let more = new_batch.is_some();
                let active = self.active_search.take();
                self.active_search = match active {
                    Some(ActiveSearch::Server { query, room_id, next_batch: _ }) => Some(ActiveSearch::Server {
                        query,
                        room_id,
                        next_batch: new_batch,
                    }),
                    other => other,
                };
                Ok((hits, more))
            },
            ServerSearchOutcome::Unsupported => Ok((Vec::new(), false)),
            ServerSearchOutcome::Failed(e) => Err(e),
        }
    }
}

/// A further page of the local index (`None`: the index had nothing more):
/// its hits, and whether more may follow, which is when the page was not
/// empty.
pub fn local_next_batch_answered(hits: Option<Vec<MessageSearchResult>>) -> (res: (Vec<MessageSearchResult>, bool))
    ensures
        match hits {
            Some(h) => res.0 == h && res.1 == (h@.len() > 0),
            None => res.0@.len() == 0 && !res.1,
        },
{
    match hits {
        Some(h) => {
            let more = h.len() > 0;
            (h, more)
        },
        None => (Vec::new(), false),
    }
}

} // verus!
