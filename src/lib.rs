//! A chat agent that lets a generative model search and read the local
//! filesystem: the conversation data model, the two tools, and the round
//! protocol with the model as a state machine driven by the caller.

use vstd::prelude::*;

pub mod args;
pub mod chat;
pub mod defs;
pub mod read;
pub mod search;
pub mod text;

verus! {

} // verus!
