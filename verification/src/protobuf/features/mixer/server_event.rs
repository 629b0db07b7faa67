//! Nested message and enum types in `ServerEvent`.

use vstd::prelude::*;
use crate::protobuf::shared::receiver::Source;

verus! {

/// An output slot now carries this source.
#[derive(Clone, PartialEq, Debug, Default)]
pub struct SlotSet {
    pub slot: u32,
    pub source: Option<Source>,
}

/// An output slot no longer carries a source.
#[derive(Clone, Copy, PartialEq, Debug, Default)]
pub struct SlotUnset {
    pub slot: u32,
}

/// The event's kind.
#[derive(Clone, PartialEq, Debug)]
pub enum Event {
    SlotSet(SlotSet),
    SlotUnset(SlotUnset),
}

} // verus!
