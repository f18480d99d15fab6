//! What it takes for a value to travel as an attribute.
use crate::attribute::raw::RawKind;
use crate::bindings;
use crate::bindings::ViAttrState;
use vstd::prelude::*;

verus! {

/// A value that can be read from its raw form.
pub trait AsViReadable: Sized {
    /// The number that denotes this value on the wire.
    spec fn wire(&self) -> int;

    /// The value that a raw number denotes; none where it denotes no value.
    spec fn denoted(raw: int) -> Option<Self>;

    /// The value that a raw number denotes; none where it denotes no value.
    fn from_vi(raw: i64) -> (value: Option<Self>)
        ensures
            value == Self::denoted(raw as int),
    ;

    /// What a raw number denotes has that number, and a raw number that
    /// denotes nothing is the number of no value.
    proof fn lemma_denoted(raw: int)
        ensures
            match Self::denoted(raw) {
                Some(v) => v.wire() == raw,
                None => forall|v: Self| #[trigger] v.wire() != raw,
            },
    ;
}

/// A value that can be written as an attribute state.
pub trait AsViWritable: AsViReadable {
    /// The widened state in which this value is written.
    spec fn state(&self) -> ViAttrState;

    /// The widened state in which this value is written.
    fn as_vi(&self) -> (state: ViAttrState)
        ensures
            state == self.state(),
    ;

    /// Cut down to any width that can hold the number that denotes the value,
    /// the written state is that number.
    proof fn lemma_state_narrows(&self, width: RawKind)
        requires
            width.holds(self.wire()),
        ensures
            width.narrowed(self.state()) == self.wire(),
    ;
}

impl AsViReadable for bool {
    open spec fn wire(&self) -> int {
        if *self {
            bindings::VI_TRUE as int
        } else {
            bindings::VI_FALSE as int
        }
    }

    open spec fn denoted(raw: int) -> Option<Self> {
        if raw == bindings::VI_TRUE {
            Some(true)
        } else if raw == bindings::VI_FALSE {
            Some(false)
        } else {
            None
        }
    }

    proof fn lemma_denoted(raw: int) {
    }

    fn from_vi(raw: i64) -> (value: Option<Self>) {
        if raw == bindings::VI_TRUE as i64 {
            Some(true)
        } else if raw == bindings::VI_FALSE as i64 {
            Some(false)
        } else {
            None
        }
    }
}

impl AsViWritable for bool {
    open spec fn state(&self) -> ViAttrState {
        self.wire() as ViAttrState
    }

    fn as_vi(&self) -> (state: ViAttrState) {
        if *self {
            bindings::VI_TRUE as ViAttrState
        } else {
            bindings::VI_FALSE as ViAttrState
        }
    }

    proof fn lemma_state_narrows(&self, width: RawKind) {
    }
}

/// How a session holds its resource: the access modes of an open and the lock states read back.
#[derive(Debug, Copy, Clone, PartialEq, Eq, Structural)]
pub enum AccessMode {
    /// An exclusive lock, acquired at once when given to an open.
    ExclusiveLock,
    /// A shared lock. Not valid for an open.
    SharedLock,
    /// No lock.
    NoLock,
    /// Attributes are taken from an external configuration utility.
    LoadConfig,
}

impl AsViReadable for AccessMode {
    open spec fn wire(&self) -> int {
        match self {
            AccessMode::ExclusiveLock => bindings::VI_EXCLUSIVE_LOCK as int,
            AccessMode::SharedLock => bindings::VI_SHARED_LOCK as int,
            AccessMode::NoLock => bindings::VI_NO_LOCK as int,
            AccessMode::LoadConfig => bindings::VI_LOAD_CONFIG as int,
        }
    }

    open spec fn denoted(raw: int) -> Option<Self> {
        if raw == bindings::VI_EXCLUSIVE_LOCK {
            Some(AccessMode::ExclusiveLock)
        } else if raw == bindings::VI_SHARED_LOCK {
            Some(AccessMode::SharedLock)
        } else if raw == bindings::VI_NO_LOCK {
            Some(AccessMode::NoLock)
        } else if raw == bindings::VI_LOAD_CONFIG {
            Some(AccessMode::LoadConfig)
        } else {
            None
        }
    }

    fn from_vi(raw: i64) -> (value: Option<Self>) {
        if raw == bindings::VI_EXCLUSIVE_LOCK as i64 {
            Some(AccessMode::ExclusiveLock)
        } else if raw == bindings::VI_SHARED_LOCK as i64 {
            Some(AccessMode::SharedLock)
        } else if raw == bindings::VI_NO_LOCK as i64 {
            Some(AccessMode::NoLock)
        } else if raw == bindings::VI_LOAD_CONFIG as i64 {
            Some(AccessMode::LoadConfig)
        } else {
            None
        }
    }

    proof fn lemma_denoted(raw: int) {
    }
}

impl AsViWritable for AccessMode {
    open spec fn state(&self) -> ViAttrState {
        self.wire() as ViAttrState
    }

    fn as_vi(&self) -> (state: ViAttrState) {
        match self {
            AccessMode::ExclusiveLock => bindings::VI_EXCLUSIVE_LOCK as ViAttrState,
            AccessMode::SharedLock => bindings::VI_SHARED_LOCK as ViAttrState,
            AccessMode::NoLock => bindings::VI_NO_LOCK as ViAttrState,
            AccessMode::LoadConfig => bindings::VI_LOAD_CONFIG as ViAttrState,
        }
    }

    proof fn lemma_state_narrows(&self, width: RawKind) {
    }
}
} // verus!
