//! The logic of the Constellations Matrix client: the space hierarchy, the
//! message preview, text helpers, and the decisions the user interface makes
//! in answer to user input and to events from the homeserver.
use vstd::prelude::*;

pub mod matrix;
pub mod preview;
pub mod constellations;
pub mod text;

verus! {

} // verus!
