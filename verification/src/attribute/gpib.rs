//! Values of the GPIB attributes.
use crate::attribute::raw::{sign_extend, sign_extended, RawKind};
use crate::attribute::traits::{AsViReadable, AsViWritable};
use crate::bindings;
use crate::bindings::ViAttrState;
use vstd::prelude::*;

verus! {

/// Whether a GPIB interface is addressed, and how.
#[derive(Debug, Copy, Clone, PartialEq, Eq, Structural)]
pub enum GpibAddrStateType {
    /// The interface is not addressed.
    Unaddressed,
    /// The interface is addressed to talk.
    Talker,
    /// The interface is addressed to listen.
    Listener,
}

impl AsViReadable for GpibAddrStateType {
    open spec fn wire(&self) -> int {
        match self {
            GpibAddrStateType::Unaddressed => bindings::VI_GPIB_UNADDRESSED as int,
            GpibAddrStateType::Talker => bindings::VI_GPIB_TALKER as int,
            GpibAddrStateType::Listener => bindings::VI_GPIB_LISTENER as int,
        }
    }

    open spec fn denoted(raw: int) -> Option<Self> {
        if raw == bindings::VI_GPIB_UNADDRESSED {
            Some(GpibAddrStateType::Unaddressed)
        } else if raw == bindings::VI_GPIB_TALKER {
            Some(GpibAddrStateType::Talker)
        } else if raw == bindings::VI_GPIB_LISTENER {
            Some(GpibAddrStateType::Listener)
        } else {
            None
        }
    }

    fn from_vi(raw: i64) -> (value: Option<Self>) {
        if raw == bindings::VI_GPIB_UNADDRESSED as i64 {
            Some(GpibAddrStateType::Unaddressed)
        } else if raw == bindings::VI_GPIB_TALKER as i64 {
            Some(GpibAddrStateType::Talker)
        } else if raw == bindings::VI_GPIB_LISTENER as i64 {
            Some(GpibAddrStateType::Listener)
        } else {
            None
        }
    }

    proof fn lemma_denoted(raw: int) {
    }
}
/// The total length of GPIB cable on an interface, for high-speed transfers.
#[derive(Debug, Copy, Clone, PartialEq, Eq, Structural)]
pub enum GpibHs488CableLength {
    /// The interface does not implement high-speed transfers.
    NotImplemented,
    /// High-speed transfers are implemented but disabled.
    Disabled,
    /// High-speed transfers are enabled over this many meters of cable. The
    /// wire carries 1 to 15; a length outside that range is written as the
    /// nearest bound.
    Meters(u8),
}

impl GpibHs488CableLength {
    /// The meters that are written for a length: the length clamped to 1..=15.
    pub open spec fn clamped(meters: u8) -> int {
        if meters == 0 {
            1
        } else if meters > 15 {
            15
        } else {
            meters as int
        }
    }

    /// Whether the wire can carry this value as it is.
    pub open spec fn exact(&self) -> bool {
        match self {
            GpibHs488CableLength::Meters(m) => 1 <= *m <= 15,
            _ => true,
        }
    }
}

impl AsViReadable for GpibHs488CableLength {
    open spec fn wire(&self) -> int {
        match self {
            GpibHs488CableLength::NotImplemented => bindings::VI_GPIB_HS488_NIMPL as int,
            GpibHs488CableLength::Disabled => bindings::VI_GPIB_HS488_DISABLED as int,
            GpibHs488CableLength::Meters(m) => Self::clamped(*m),
        }
    }

    open spec fn denoted(raw: int) -> Option<Self> {
        if raw == bindings::VI_GPIB_HS488_NIMPL {
            Some(GpibHs488CableLength::NotImplemented)
        } else if raw == bindings::VI_GPIB_HS488_DISABLED {
            Some(GpibHs488CableLength::Disabled)
        } else if 1 <= raw <= 15 {
            Some(GpibHs488CableLength::Meters(raw as u8))
        } else {
            None
        }
    }

    fn from_vi(raw: i64) -> (value: Option<Self>) {
        if raw == bindings::VI_GPIB_HS488_NIMPL as i64 {
            Some(GpibHs488CableLength::NotImplemented)
        } else if raw == bindings::VI_GPIB_HS488_DISABLED as i64 {
            Some(GpibHs488CableLength::Disabled)
        } else if 1 <= raw && raw <= 15 {
            Some(GpibHs488CableLength::Meters(raw as u8))
        } else {
            None
        }
    }

    proof fn lemma_denoted(raw: int) {
    }
}

impl GpibHs488CableLength {
    /// What is read is always a value that the wire carries as it is.
    pub proof fn lemma_denoted_exact(raw: int)
        ensures
            Self::denoted(raw) matches Some(v) ==> v.exact(),
    {
    }
}

impl AsViWritable for GpibHs488CableLength {
    /// The number on the wire as a signed 16-bit value, sign-extended.
    open spec fn state(&self) -> ViAttrState {
        sign_extended(self.wire()) as ViAttrState
    }

    fn as_vi(&self) -> (state: ViAttrState) {
        match self {
            GpibHs488CableLength::NotImplemented => sign_extend(bindings::VI_GPIB_HS488_NIMPL),
            GpibHs488CableLength::Disabled => bindings::VI_GPIB_HS488_DISABLED as ViAttrState,
            GpibHs488CableLength::Meters(m) => {
                if *m == 0 {
                    1
                } else if *m > 15 {
                    15
                } else {
                    *m as ViAttrState
                }
            },
        }
    }

    proof fn lemma_state_narrows(&self, width: RawKind) {
    }
}

} // verus!
