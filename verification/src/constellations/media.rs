//! The media cache: fetching avatars and images, and keeping what arrived.
use crate::constellations::session::shows_error;
use crate::constellations::{failure_message, failure_text, single, Constellations, Effect, Session};
use vstd::hash_map::StringHashMap;
use vstd::prelude::*;

verus! {

/// The cache after keeping, in order, every media of `batch` that arrived.
pub open spec fn cache_after_batch(
    cache: Map<Seq<char>, Vec<u8>>,
    batch: Seq<(String, Result<Vec<u8>, String>)>,
) -> Map<Seq<char>, Vec<u8>>
    decreases batch.len(),
{
    if batch.len() == 0 {
        cache
    } else {
        let before = cache_after_batch(cache, batch.drop_last());
        match batch.last().1 {
            Ok(data) => before.insert(batch.last().0@, data),
            Err(_) => before,
        }
    }
}

/// The text of the last failure of `batch`, when one failed.
pub open spec fn last_batch_failure(batch: Seq<(String, Result<Vec<u8>, String>)>) -> Option<Seq<char>>
    decreases batch.len(),
{
    if batch.len() == 0 {
        None
    } else {
        match batch.last().1 {
            Err(e) => Some(failure_text("fetch the media"@, e@)),
            Ok(_) => last_batch_failure(batch.drop_last()),
        }
    }
}

/// `handle_media_fetched_batch`: every media that arrived is cached, and the
/// last failure (if any) is shown.
pub open spec fn media_batch_post(
    old: Constellations,
    new: Constellations,
    batch: Seq<(String, Result<Vec<u8>, String>)>,
    effects: Seq<Effect>,
) -> bool {
    &&& new == (Constellations {
        media_cache: new.media_cache,
        session: Session { error: new.session.error, ..old.session },
        ..old
    })
    &&& new.media_cache@ == cache_after_batch(old.media_cache@, batch)
    &&& match last_batch_failure(batch) {
        Some(text) => shows_error(new.session.error, text),
        None => new.session.error == old.session.error,
    }
    &&& effects.len() == 0
}

/// Keeps what arrived of a batch of media; tells the last failure to show.
fn keep_batch(cache: &mut StringHashMap<Vec<u8>>, batch: Vec<(String, Result<Vec<u8>, String>)>) -> (err: Option<String>)
    ensures
        final(cache)@ == cache_after_batch(old(cache)@, batch@),
        match last_batch_failure(batch@) {
            Some(text) => shows_error(err, text),
            None => err is None,
        },
{
    let ghost all = batch@;
    let total = batch.len();
    let mut rest = batch;
    let mut err: Option<String> = None;
    let mut i: usize = 0;
    assert(all.skip(0) =~= all);
    assert(all.take(0) =~= Seq::<(String, Result<Vec<u8>, String>)>::empty());
    while rest.len() > 0
        invariant
            0 <= i <= all.len(),
            all.len() == total,
            rest@ == all.skip(i as int),
            cache@ == cache_after_batch(old(cache)@, all.take(i as int)),
            match last_batch_failure(all.take(i as int)) {
                Some(text) => shows_error(err, text),
                None => err is None,
            },
        decreases rest.len(),
    {
        let (url, res) = rest.remove(0);
        proof {
            assert(all.take(i + 1).drop_last() =~= all.take(i as int));
            assert(all.take(i + 1).last() == (url, res));
            assert(rest@ =~= all.skip(i + 1));
        }
        match res {
            Ok(data) => {
                cache.insert(url, data);
            },
            Err(e) => {
                err = Some(failure_message("fetch the media", e.as_str()));
            },
        }
        i = i + 1;
    }
    assert(all.take(i as int) =~= all);
    err
}

/// Fetches a media, when the engine is up.
pub open spec fn fetch_media_post(old: Constellations, new: Constellations, url: String, effects: Seq<Effect>) -> bool {
    &&& new == old
    &&& effects == if old.session.engine_ready {
            seq![Effect::FetchMedia(url)]
        } else {
            Seq::empty()
        }
}

/// A media arrived (it is cached) or could not be fetched (the failure is
/// shown).
pub open spec fn media_fetched_post(old: Constellations, new: Constellations, url: String, res: Result<Vec<u8>, String>, effects: Seq<Effect>) -> bool {
    &&& effects.len() == 0
    &&& match res {
            Ok(data) => {
                &&& new == (Constellations { media_cache: new.media_cache, ..old })
                &&& new.media_cache@ == old.media_cache@.insert(url@, data)
            },
            Err(e) => {
                &&& new == (Constellations {
                    session: Session { error: new.session.error, ..old.session },
                    ..old
                })
                &&& shows_error(new.session.error, failure_text("fetch the media"@, e@))
            },
        }
}

/// Empties the media cache.
pub open spec fn clear_media_cache_post(old: Constellations, new: Constellations, effects: Seq<Effect>) -> bool {
    &&& new == (Constellations { media_cache: new.media_cache, ..old })
    &&& new.media_cache@ == Map::<Seq<char>, Vec<u8>>::empty()
    &&& effects.len() == 0
}

impl Constellations {
    /// Fetches a media, when the engine is up.
    pub fn handle_fetch_media(&mut self, url: String) -> (effects: Vec<Effect>)
        ensures
            fetch_media_post(*old(self), *final(self), url, effects@),
    {
        if self.session.engine_ready {
            single(Effect::FetchMedia(url))
        } else {
            Vec::new()
        }
    }

    /// A media arrived (it is cached) or could not be fetched (the failure is
    /// shown).
    pub fn handle_media_fetched(&mut self, url: String, res: Result<Vec<u8>, String>) -> (effects: Vec<Effect>)
        ensures
            media_fetched_post(*old(self), *final(self), url, res, effects@),
    {
        match res {
            Ok(data) => {
                self.media_cache.insert(url, data);
            },
            Err(e) => {
                self.session.error = Some(failure_message("fetch the media", e.as_str()));
            },
        }
        Vec::new()
    }

    /// A batch of media arrived.
    pub fn handle_media_fetched_batch(&mut self, batch: Vec<(String, Result<Vec<u8>, String>)>) -> (effects: Vec<Effect>)
        ensures
            media_batch_post(*old(self), *final(self), batch@, effects@),
    {
        let err = keep_batch(&mut self.media_cache, batch);
        self.session.report(err);
        Vec::new()
    }

    /// Empties the media cache.
    pub fn handle_clear_media_cache(&mut self) -> (effects: Vec<Effect>)
        ensures
            clear_media_cache_post(*old(self), *final(self), effects@),
    {
        self.media_cache.clear();
        Vec::new()
    }
}

} // verus!
