//! Client-side runtime support for a node that talks to its host through
//! unidirectional, handle-addressed message channels.

pub mod status;
pub mod wire;
pub mod handle_space;
pub mod host;
pub mod channel;
pub mod node;

use vstd::prelude::*;

verus! {

/// Handle naming one half (send or receive) of a unidirectional channel.
pub type Handle = u64;

} // verus!
