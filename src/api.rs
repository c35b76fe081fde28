//! The first, single-event message format, kept for producers that still
//! send it.
use vstd::prelude::*;

verus! {

#[derive(Clone, Copy, Debug, PartialEq, Eq, Structural)]
pub enum Event {
    TestTick,
}

} // verus!
