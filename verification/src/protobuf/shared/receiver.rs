//! Nested message types of the shared `Receiver` message.

use vstd::prelude::*;

verus! {

/// A media source: a track published by a peer.
#[derive(Clone, PartialEq, Debug, Default)]
pub struct Source {
    pub peer: String,
    pub track: String,
}

} // verus!
