//! Component scopes and update scheduling for a virtual-DOM runtime.
//!
//! A [`scope::Runtime`] owns the state of every mounted component of one
//! component type, the queues of scheduled work, and the table of node
//! references. Scopes are small handles into it; scheduled units are plain
//! values that the runtime executes one at a time, to completion.
use vstd::prelude::*;

pub mod node_ref;
pub mod scope;
pub mod laws;

