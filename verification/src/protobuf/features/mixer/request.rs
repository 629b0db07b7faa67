//! Nested message and enum types in `Request`.

use vstd::prelude::*;
use crate::protobuf::shared::receiver::Source;

verus! {

/// Add sources to the mix.
#[derive(Clone, PartialEq, Debug, Default)]
pub struct Attach {
    pub sources: Vec<Source>,
}

/// Remove sources from the mix.
#[derive(Clone, PartialEq, Debug, Default)]
pub struct Detach {
    pub sources: Vec<Source>,
}

/// The request's kind.
#[derive(Clone, PartialEq, Debug)]
pub enum Request {
    Attach(Attach),
    Detach(Detach),
}

} // verus!
