//! Nested message and enum types in `Response`.

use vstd::prelude::*;

verus! {

/// Sources were attached.
#[derive(Clone, Copy, PartialEq, Debug, Default)]
pub struct Attach {}

/// Sources were detached.
#[derive(Clone, Copy, PartialEq, Debug, Default)]
pub struct Detach {}

/// The response's kind.
#[derive(Clone, Copy, PartialEq, Debug)]
pub enum Response {
    Attach(Attach),
    Detach(Detach),
}

} // verus!
