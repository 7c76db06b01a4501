//! What a scrolled (or newly laid out) timeline decides: whether to keep its
//! place across a layout change, to compensate content added above the
//! view, or to follow the user, and when to ask for older messages.
//!
//! The measurements themselves are floating-point pixels that the runtime
//! keeps; it hands the library the outcome of each comparison.
use crate::constellations::timeline::load_more_post;
use crate::constellations::{Constellations, Effect, Timeline};
use vstd::prelude::*;

verus! {

/// How a timeline answers a scroll or layout event.
#[derive(Clone, Copy, Debug, PartialEq, Eq, Structural)]
pub enum ScrollResponse {
    /// The timeline is not initialised yet: nothing happens.
    Ignore,
    /// Content was added above the view: scroll down by what was added.
    Adjust,
    /// The layout changed while the view was at the bottom: stay there.
    KeepAtBottom,
    /// The layout changed elsewhere: go back to the offset last seen.
    RestoreOffset,
    /// The user scrolled: follow.
    Track,
}

/// Whether the thread's timeline (`thread`) or the main one has finished
/// initialising.
pub open spec fn initialized(t: Timeline, thread: bool) -> bool {
    if thread {
        t.is_threaded_timeline_initialized
    } else {
        t.is_timeline_initialized
    }
}

/// Whether a layout change is waiting to restore the scroll position.
pub open spec fn restoring(t: Timeline, thread: bool) -> bool {
    if thread {
        t.needs_threaded_layout_scroll_restoration
    } else {
        t.needs_layout_scroll_restoration
    }
}

/// Whether content added above the view waits to be compensated.
pub open spec fn adjusting(t: Timeline, thread: bool) -> bool {
    if thread {
        t.needs_threaded_scroll_adjustment
    } else {
        t.needs_scroll_adjustment
    }
}

/// Whether the timeline was last seen at its bottom.
pub open spec fn at_bottom(t: Timeline, thread: bool) -> bool {
    if thread {
        t.is_threaded_timeline_at_bottom
    } else {
        t.is_timeline_at_bottom
    }
}

/// A scroll or layout event of a timeline, given whether its content height
/// or viewport size differs from what was last seen (`size_changed`) and
/// whether its content grew since (`content_grew`): an uninitialised timeline
/// ignores it; a waiting adjustment is made when the content grew (and is
/// then done); otherwise a layout change (a waiting restoration or a new
/// size) keeps the view at the bottom or at its last offset; anything else
/// is the user scrolling.  A waiting restoration is done after the event.
pub open spec fn scroll_response_post(
    old: Constellations,
    new: Constellations,
    thread: bool,
    size_changed: bool,
    content_grew: bool,
    r: ScrollResponse,
) -> bool {
    let t = old.timeline;
    if !initialized(t, thread) {
        new == old && r == ScrollResponse::Ignore
    } else {
        let resize = (restoring(t, thread) || size_changed) && !adjusting(t, thread);
        let adjust = adjusting(t, thread) && content_grew;
        &&& new == (Constellations {
            timeline: Timeline {
                needs_layout_scroll_restoration: if thread {
                    t.needs_layout_scroll_restoration
                } else {
                    false
                },
                needs_threaded_layout_scroll_restoration: if thread {
                    false
                } else {
                    t.needs_threaded_layout_scroll_restoration
                },
                needs_scroll_adjustment: if !thread && adjust {
                    false
                } else {
                    t.needs_scroll_adjustment
                },
                needs_threaded_scroll_adjustment: if thread && adjust {
                    false
                } else {
                    t.needs_threaded_scroll_adjustment
                },
                ..t
            },
            ..old
        })
        &&& r == if adjust {
            ScrollResponse::Adjust
        } else if resize {
            if at_bottom(t, thread) {
                ScrollResponse::KeepAtBottom
            } else {
                ScrollResponse::RestoreOffset
            }
        } else {
            ScrollResponse::Track
        }
    }
}

/// After the view moved: when the event was the user scrolling (or an
/// adjustment), whether the view is now at the bottom is recorded, and near
/// the top while scrolling up (`near_top`) older messages are asked for; a
/// layout change, or an uninitialised timeline, changes nothing more.
pub open spec fn settle_scroll_post(
    old: Constellations,
    new: Constellations,
    thread: bool,
    r: ScrollResponse,
    now_at_bottom: bool,
    near_top: bool,
    effects: Seq<Effect>,
) -> bool {
    if r == ScrollResponse::Track || r == ScrollResponse::Adjust {
        let mid = Constellations {
            timeline: Timeline {
                is_timeline_at_bottom: if thread {
                    old.timeline.is_timeline_at_bottom
                } else {
                    now_at_bottom
                },
                is_threaded_timeline_at_bottom: if thread {
                    now_at_bottom
                } else {
                    old.timeline.is_threaded_timeline_at_bottom
                },
                ..old.timeline
            },
            ..old
        };
        if near_top {
            load_more_post(mid, new, thread, effects)
        } else {
            new == mid && effects.len() == 0
        }
    } else {
        new == old && effects.len() == 0
    }
}

impl Constellations {
    /// Decides how a timeline answers a scroll or layout event (see
    /// [`scroll_response_post`]).
    pub fn scroll_response(&mut self, thread: bool, size_changed: bool, content_grew: bool) -> (r: ScrollResponse)
        ensures
            scroll_response_post(*old(self), *final(self), thread, size_changed, content_grew, r),
    {
        let t = &self.timeline;
        let init = if thread {
            t.is_threaded_timeline_initialized
        } else {
            t.is_timeline_initialized
        };
        if !init {
            return ScrollResponse::Ignore;
        }
        let restore = if thread {
            t.needs_threaded_layout_scroll_restoration
        } else {
            t.needs_layout_scroll_restoration
        };
        let adjusting = if thread {
            t.needs_threaded_scroll_adjustment
        } else {
            t.needs_scroll_adjustment
        };
        let bottom = if thread {
            t.is_threaded_timeline_at_bottom
        } else {
            t.is_timeline_at_bottom
        };
        let resize = (restore || size_changed) && !adjusting;
        let adjust = adjusting && content_grew;
        if thread {
            self.timeline.needs_threaded_layout_scroll_restoration = false;
        } else {
            self.timeline.needs_layout_scroll_restoration = false;
        }
        if adjust {
            if thread {
                self.timeline.needs_threaded_scroll_adjustment = false;
            } else {
                self.timeline.needs_scroll_adjustment = false;
            }
            ScrollResponse::Adjust
        } else if resize {
            if bottom {
                ScrollResponse::KeepAtBottom
            } else {
                ScrollResponse::RestoreOffset
            }
        } else {
            ScrollResponse::Track
        }
    }

    #[verifier::spinoff_prover]
    /// Records where the view ended up after a scroll and asks for older
    /// messages when needed (see [`settle_scroll_post`]).
    pub fn settle_scroll(&mut self, thread: bool, r: ScrollResponse, now_at_bottom: bool, near_top: bool) -> (effects: Vec<
        Effect,
    >)
        ensures
            settle_scroll_post(*old(self), *final(self), thread, r, now_at_bottom, near_top, effects@),
    {
        let follow = match r {
            ScrollResponse::Track => true,
            ScrollResponse::Adjust => true,
            _ => false,
        };
        if follow {
            self.timeline.record_at_bottom(thread, now_at_bottom);
            if near_top {
                self.handle_load_more(thread)
            } else {
                Vec::new()
            }
        } else {
            Vec::new()
        }
    }
}

impl Timeline {
    /// Records whether the timeline (the thread's when `thread`) is at its
    /// bottom.
    pub fn record_at_bottom(&mut self, thread: bool, now_at_bottom: bool)
        ensures
            *final(self) == (Timeline {
                is_timeline_at_bottom: if thread {
                    old(self).is_timeline_at_bottom
                } else {
                    now_at_bottom
                },
                is_threaded_timeline_at_bottom: if thread {
                    now_at_bottom
                } else {
                    old(self).is_threaded_timeline_at_bottom
                },
                ..*old(self)
            }),
    {
        if thread {
            self.is_threaded_timeline_at_bottom = now_at_bottom;
        } else {
            self.is_timeline_at_bottom = now_at_bottom;
        }
    }
}

} // verus!
