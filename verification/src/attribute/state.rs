//! The state of an interface line.
use crate::attribute::traits::AsViReadable;
use crate::bindings;
use vstd::prelude::*;

verus! {

/// The state of an interface line.
#[derive(Debug, Copy, Clone, PartialEq, Eq, Structural)]
pub enum State {
    /// The line is asserted.
    Asserted,
    /// The line is unasserted.
    Unasserted,
    /// The state of the line is not known.
    Unknown,
}

impl AsViReadable for State {
    open spec fn wire(&self) -> int {
        match self {
            State::Asserted => bindings::VI_STATE_ASSERTED as int,
            State::Unasserted => bindings::VI_STATE_UNASSERTED as int,
            State::Unknown => bindings::VI_STATE_UNKNOWN as int,
        }
    }

    open spec fn denoted(raw: int) -> Option<Self> {
        if raw == bindings::VI_STATE_ASSERTED {
            Some(State::Asserted)
        } else if raw == bindings::VI_STATE_UNASSERTED {
            Some(State::Unasserted)
        } else if raw == bindings::VI_STATE_UNKNOWN {
            Some(State::Unknown)
        } else {
            None
        }
    }

    fn from_vi(raw: i64) -> (value: Option<Self>) {
        if raw == bindings::VI_STATE_ASSERTED as i64 {
            Some(State::Asserted)
        } else if raw == bindings::VI_STATE_UNASSERTED as i64 {
            Some(State::Unasserted)
        } else if raw == bindings::VI_STATE_UNKNOWN as i64 {
            Some(State::Unknown)
        } else {
            None
        }
    }

    proof fn lemma_denoted(raw: int) {
    }
}

} // verus!
