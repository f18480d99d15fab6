//! Values of the serial attributes.
use crate::attribute::raw::RawKind;
use crate::attribute::traits::{AsViReadable, AsViWritable};
use crate::bindings;
use crate::bindings::ViAttrState;
use vstd::prelude::*;

verus! {

/// The parity used with every frame transmitted and received.
#[derive(Debug, Copy, Clone, PartialEq, Eq, Structural)]
pub enum AsrlParityType {
    /// No parity bit.
    NoParity,
    /// Odd parity.
    Odd,
    /// Even parity.
    Even,
    /// The parity bit is always 1.
    Mark,
    /// The parity bit is always 0.
    Space,
}

impl AsViReadable for AsrlParityType {
    open spec fn wire(&self) -> int {
        match self {
            AsrlParityType::NoParity => bindings::VI_ASRL_PAR_NONE as int,
            AsrlParityType::Odd => bindings::VI_ASRL_PAR_ODD as int,
            AsrlParityType::Even => bindings::VI_ASRL_PAR_EVEN as int,
            AsrlParityType::Mark => bindings::VI_ASRL_PAR_MARK as int,
            AsrlParityType::Space => bindings::VI_ASRL_PAR_SPACE as int,
        }
    }

    open spec fn denoted(raw: int) -> Option<Self> {
        if raw == bindings::VI_ASRL_PAR_NONE {
            Some(AsrlParityType::NoParity)
        } else if raw == bindings::VI_ASRL_PAR_ODD {
            Some(AsrlParityType::Odd)
        } else if raw == bindings::VI_ASRL_PAR_EVEN {
            Some(AsrlParityType::Even)
        } else if raw == bindings::VI_ASRL_PAR_MARK {
            Some(AsrlParityType::Mark)
        } else if raw == bindings::VI_ASRL_PAR_SPACE {
            Some(AsrlParityType::Space)
        } else {
            None
        }
    }

    fn from_vi(raw: i64) -> (value: Option<Self>) {
        if raw == bindings::VI_ASRL_PAR_NONE as i64 {
            Some(AsrlParityType::NoParity)
        } else if raw == bindings::VI_ASRL_PAR_ODD as i64 {
            Some(AsrlParityType::Odd)
        } else if raw == bindings::VI_ASRL_PAR_EVEN as i64 {
            Some(AsrlParityType::Even)
        } else if raw == bindings::VI_ASRL_PAR_MARK as i64 {
            Some(AsrlParityType::Mark)
        } else if raw == bindings::VI_ASRL_PAR_SPACE as i64 {
            Some(AsrlParityType::Space)
        } else {
            None
        }
    }

    proof fn lemma_denoted(raw: int) {
    }
}

impl AsViWritable for AsrlParityType {
    open spec fn state(&self) -> ViAttrState {
        self.wire() as ViAttrState
    }

    fn as_vi(&self) -> (state: ViAttrState) {
        match self {
            AsrlParityType::NoParity => bindings::VI_ASRL_PAR_NONE as ViAttrState,
            AsrlParityType::Odd => bindings::VI_ASRL_PAR_ODD as ViAttrState,
            AsrlParityType::Even => bindings::VI_ASRL_PAR_EVEN as ViAttrState,
            AsrlParityType::Mark => bindings::VI_ASRL_PAR_MARK as ViAttrState,
            AsrlParityType::Space => bindings::VI_ASRL_PAR_SPACE as ViAttrState,
        }
    }

    proof fn lemma_state_narrows(&self, width: RawKind) {
    }
}

/// The number of stop bits that end a frame.
#[derive(Debug, Copy, Clone, PartialEq, Eq, Structural)]
pub enum AsrlStopBitsType {
    /// One stop bit.
    One,
    /// One and a half stop bits.
    One5,
    /// Two stop bits.
    Two,
}

impl AsViReadable for AsrlStopBitsType {
    open spec fn wire(&self) -> int {
        match self {
            AsrlStopBitsType::One => bindings::VI_ASRL_STOP_ONE as int,
            AsrlStopBitsType::One5 => bindings::VI_ASRL_STOP_ONE5 as int,
            AsrlStopBitsType::Two => bindings::VI_ASRL_STOP_TWO as int,
        }
    }

    open spec fn denoted(raw: int) -> Option<Self> {
        if raw == bindings::VI_ASRL_STOP_ONE {
            Some(AsrlStopBitsType::One)
        } else if raw == bindings::VI_ASRL_STOP_ONE5 {
            Some(AsrlStopBitsType::One5)
        } else if raw == bindings::VI_ASRL_STOP_TWO {
            Some(AsrlStopBitsType::Two)
        } else {
            None
        }
    }

    fn from_vi(raw: i64) -> (value: Option<Self>) {
        if raw == bindings::VI_ASRL_STOP_ONE as i64 {
            Some(AsrlStopBitsType::One)
        } else if raw == bindings::VI_ASRL_STOP_ONE5 as i64 {
            Some(AsrlStopBitsType::One5)
        } else if raw == bindings::VI_ASRL_STOP_TWO as i64 {
            Some(AsrlStopBitsType::Two)
        } else {
            None
        }
    }

    proof fn lemma_denoted(raw: int) {
    }
}

impl AsViWritable for AsrlStopBitsType {
    open spec fn state(&self) -> ViAttrState {
        self.wire() as ViAttrState
    }

    fn as_vi(&self) -> (state: ViAttrState) {
        match self {
            AsrlStopBitsType::One => bindings::VI_ASRL_STOP_ONE as ViAttrState,
            AsrlStopBitsType::One5 => bindings::VI_ASRL_STOP_ONE5 as ViAttrState,
            AsrlStopBitsType::Two => bindings::VI_ASRL_STOP_TWO as ViAttrState,
        }
    }

    proof fn lemma_state_narrows(&self, width: RawKind) {
    }
}

/// The flow control used by the transfer mechanism.
#[derive(Debug, Copy, Clone, PartialEq, Eq, Structural)]
pub enum AsrlFlowCntrlType {
    /// No flow control; both sides are assumed to buffer all data.
    NoFlowControl,
    /// Flow is held and resumed with the XOFF and XON characters.
    XonXoff,
    /// Flow follows the RTS output and CTS input signals.
    RtsCts,
    /// Flow follows the DTR output and DSR input signals.
    DtrDsr,
}

impl AsViReadable for AsrlFlowCntrlType {
    open spec fn wire(&self) -> int {
        match self {
            AsrlFlowCntrlType::NoFlowControl => bindings::VI_ASRL_FLOW_NONE as int,
            AsrlFlowCntrlType::XonXoff => bindings::VI_ASRL_FLOW_XON_XOFF as int,
            AsrlFlowCntrlType::RtsCts => bindings::VI_ASRL_FLOW_RTS_CTS as int,
            AsrlFlowCntrlType::DtrDsr => bindings::VI_ASRL_FLOW_DTR_DSR as int,
        }
    }

    open spec fn denoted(raw: int) -> Option<Self> {
        if raw == bindings::VI_ASRL_FLOW_NONE {
            Some(AsrlFlowCntrlType::NoFlowControl)
        } else if raw == bindings::VI_ASRL_FLOW_XON_XOFF {
            Some(AsrlFlowCntrlType::XonXoff)
        } else if raw == bindings::VI_ASRL_FLOW_RTS_CTS {
            Some(AsrlFlowCntrlType::RtsCts)
        } else if raw == bindings::VI_ASRL_FLOW_DTR_DSR {
            Some(AsrlFlowCntrlType::DtrDsr)
        } else {
            None
        }
    }

    fn from_vi(raw: i64) -> (value: Option<Self>) {
        if raw == bindings::VI_ASRL_FLOW_NONE as i64 {
            Some(AsrlFlowCntrlType::NoFlowControl)
        } else if raw == bindings::VI_ASRL_FLOW_XON_XOFF as i64 {
            Some(AsrlFlowCntrlType::XonXoff)
        } else if raw == bindings::VI_ASRL_FLOW_RTS_CTS as i64 {
            Some(AsrlFlowCntrlType::RtsCts)
        } else if raw == bindings::VI_ASRL_FLOW_DTR_DSR as i64 {
            Some(AsrlFlowCntrlType::DtrDsr)
        } else {
            None
        }
    }

    proof fn lemma_denoted(raw: int) {
    }
}

impl AsViWritable for AsrlFlowCntrlType {
    open spec fn state(&self) -> ViAttrState {
        self.wire() as ViAttrState
    }

    fn as_vi(&self) -> (state: ViAttrState) {
        match self {
            AsrlFlowCntrlType::NoFlowControl => bindings::VI_ASRL_FLOW_NONE as ViAttrState,
            AsrlFlowCntrlType::XonXoff => bindings::VI_ASRL_FLOW_XON_XOFF as ViAttrState,
            AsrlFlowCntrlType::RtsCts => bindings::VI_ASRL_FLOW_RTS_CTS as ViAttrState,
            AsrlFlowCntrlType::DtrDsr => bindings::VI_ASRL_FLOW_DTR_DSR as ViAttrState,
        }
    }

    proof fn lemma_state_narrows(&self, width: RawKind) {
    }
}

/// The state of a serial modem line.
#[derive(Debug, Copy, Clone, PartialEq, Eq, Structural)]
pub enum AsrlState {
    /// The line is asserted.
    Asserted,
    /// The line is unasserted.
    Unasserted,
    /// The state of the line is not known.
    Unknown,
}

impl AsViReadable for AsrlState {
    open spec fn wire(&self) -> int {
        match self {
            AsrlState::Asserted => bindings::VI_STATE_ASSERTED as int,
            AsrlState::Unasserted => bindings::VI_STATE_UNASSERTED as int,
            AsrlState::Unknown => bindings::VI_STATE_UNKNOWN as int,
        }
    }

    open spec fn denoted(raw: int) -> Option<Self> {
        if raw == bindings::VI_STATE_ASSERTED {
            Some(AsrlState::Asserted)
        } else if raw == bindings::VI_STATE_UNASSERTED {
            Some(AsrlState::Unasserted)
        } else if raw == bindings::VI_STATE_UNKNOWN {
            Some(AsrlState::Unknown)
        } else {
            None
        }
    }

    fn from_vi(raw: i64) -> (value: Option<Self>) {
        if raw == bindings::VI_STATE_ASSERTED as i64 {
            Some(AsrlState::Asserted)
        } else if raw == bindings::VI_STATE_UNASSERTED as i64 {
            Some(AsrlState::Unasserted)
        } else if raw == bindings::VI_STATE_UNKNOWN as i64 {
            Some(AsrlState::Unknown)
        } else {
            None
        }
    }

    proof fn lemma_denoted(raw: int) {
    }
}

impl AsViWritable for AsrlState {
    /// The unknown state is written as 32 one bits: its number in the
    /// unsigned 32-bit form in which the states are listed.
    open spec fn state(&self) -> ViAttrState {
        match self {
            AsrlState::Unknown => 0xFFFF_FFFF,
            _ => self.wire() as ViAttrState,
        }
    }

    fn as_vi(&self) -> (state: ViAttrState) {
        match self {
            AsrlState::Asserted => bindings::VI_STATE_ASSERTED as ViAttrState,
            AsrlState::Unasserted => bindings::VI_STATE_UNASSERTED as ViAttrState,
            AsrlState::Unknown => 0xFFFF_FFFF,
        }
    }

    proof fn lemma_state_narrows(&self, width: RawKind) {
    }
}

/// How a serial transfer is terminated.
#[derive(Debug, Copy, Clone, PartialEq, Eq, Structural)]
pub enum AsrlEnd {
    /// The transfer ends only when all requested data has moved.
    Unterminated,
    /// The transfer ends with the character whose last bit is set.
    LastBit,
    /// The transfer ends with the termination character.
    Termchar,
    /// A write ends with a break. Not a way to end a read.
    Break,
}

impl AsViReadable for AsrlEnd {
    open spec fn wire(&self) -> int {
        match self {
            AsrlEnd::Unterminated => bindings::VI_ASRL_END_NONE as int,
            AsrlEnd::LastBit => bindings::VI_ASRL_END_LAST_BIT as int,
            AsrlEnd::Termchar => bindings::VI_ASRL_END_TERMCHAR as int,
            AsrlEnd::Break => bindings::VI_ASRL_END_BREAK as int,
        }
    }

    open spec fn denoted(raw: int) -> Option<Self> {
        if raw == bindings::VI_ASRL_END_NONE {
            Some(AsrlEnd::Unterminated)
        } else if raw == bindings::VI_ASRL_END_LAST_BIT {
            Some(AsrlEnd::LastBit)
        } else if raw == bindings::VI_ASRL_END_TERMCHAR {
            Some(AsrlEnd::Termchar)
        } else if raw == bindings::VI_ASRL_END_BREAK {
            Some(AsrlEnd::Break)
        } else {
            None
        }
    }

    fn from_vi(raw: i64) -> (value: Option<Self>) {
        if raw == bindings::VI_ASRL_END_NONE as i64 {
            Some(AsrlEnd::Unterminated)
        } else if raw == bindings::VI_ASRL_END_LAST_BIT as i64 {
            Some(AsrlEnd::LastBit)
        } else if raw == bindings::VI_ASRL_END_TERMCHAR as i64 {
            Some(AsrlEnd::Termchar)
        } else if raw == bindings::VI_ASRL_END_BREAK as i64 {
            Some(AsrlEnd::Break)
        } else {
            None
        }
    }

    proof fn lemma_denoted(raw: int) {
    }
}

impl AsViWritable for AsrlEnd {
    open spec fn state(&self) -> ViAttrState {
        self.wire() as ViAttrState
    }

    fn as_vi(&self) -> (state: ViAttrState) {
        match self {
            AsrlEnd::Unterminated => bindings::VI_ASRL_END_NONE as ViAttrState,
            AsrlEnd::LastBit => bindings::VI_ASRL_END_LAST_BIT as ViAttrState,
            AsrlEnd::Termchar => bindings::VI_ASRL_END_TERMCHAR as ViAttrState,
            AsrlEnd::Break => bindings::VI_ASRL_END_BREAK as ViAttrState,
        }
    }

    proof fn lemma_state_narrows(&self, width: RawKind) {
    }
}

} // verus!
