//! The codecs: how raw numbers denote attribute values, and how values are
//! written back.
//!
//! A codec says which value each raw value denotes, if any, and in which
//! widened state each value is written. Cut back to the codec's width, the
//! state of every value of the codec's domain denotes that value again, and
//! nothing is decoded from outside the domain.
use crate::attribute::asrl::{
    AsrlEnd, AsrlFlowCntrlType, AsrlParityType, AsrlState, AsrlStopBitsType,
};
use crate::attribute::gpib::{GpibAddrStateType, GpibHs488CableLength};
use crate::attribute::misc::{
    AccessPrivilege, ByteOrder, FdcModeType, InterfaceType, WrBufOperModeType,
};
use crate::attribute::pxi::PxiSlotLBus;
use crate::attribute::raw::{sign_extend, sign_extended, RawKind, RawValue};
use crate::attribute::state::State;
use crate::attribute::traits::{AccessMode, AsViReadable, AsViWritable};
use crate::attribute::vxi::VxiDevClassType;
use crate::bindings;
use crate::bindings::ViAttrState;
use crate::time::TimeSpan;
use vstd::prelude::*;

verus! {

/// A decoded attribute value.
#[derive(Debug, Copy, Clone, PartialEq, Eq)]
pub enum AttrValue {
    /// A boolean.
    Bool(bool),
    /// An unsigned 8-bit number.
    U8(u8),
    /// An unsigned 16-bit number.
    U16(u16),
    /// A signed 16-bit number.
    I16(i16),
    /// An unsigned 32-bit number.
    U32(u32),
    /// A signed 32-bit number.
    I32(i32),
    /// An unsigned 64-bit number.
    U64(u64),
    /// A character.
    Char(char),
    /// A timeout.
    Timeout(TimeSpan),
    /// A GPIB secondary address, or none.
    SecondaryAddr(Option<u16>),
    /// The state of an interface line.
    State(State),
    /// The state of a serial modem line.
    LineState(AsrlState),
    /// A serial parity.
    Parity(AsrlParityType),
    /// A number of serial stop bits.
    StopBits(AsrlStopBitsType),
    /// A serial flow control.
    FlowCntrl(AsrlFlowCntrlType),
    /// How a serial transfer ends.
    End(AsrlEnd),
    /// A GPIB addressing state.
    AddrState(GpibAddrStateType),
    /// A GPIB cable length.
    CableLength(GpibHs488CableLength),
    /// A Fast Data Channel mode.
    FdcMode(FdcModeType),
    /// An interface type.
    Interface(InterfaceType),
    /// A write buffer mode.
    WrBufOperMode(WrBufOperModeType),
    /// An address modifier.
    AccessPrivilege(AccessPrivilege),
    /// A byte order.
    ByteOrder(ByteOrder),
    /// The wiring of a PXI local bus.
    SlotLBus(PxiSlotLBus),
    /// A VXI device class.
    DevClass(VxiDevClassType),
    /// A lock state.
    Lock(AccessMode),
}

/// How one attribute travels: its raw width and the values that its raw
/// numbers denote.
#[derive(Debug, Copy, Clone, PartialEq, Eq)]
pub enum Codec {
    /// Every u8.
    U8,
    /// Every u16.
    U16,
    /// Every i16.
    I16,
    /// Every u32.
    U32,
    /// Every u64.
    U64,
    /// A 16-bit unsigned number from 0 up to the bound.
    U16Upto(u16),
    /// A 16-bit signed number from 0 up to the bound.
    I16Upto(i16),
    /// An address increment: 0 or 1, in 32 bits.
    Step,
    /// A character in one byte: the characters up to U+00FF, each as its own
    /// number. A character beyond them is written as `?`.
    Char,
    /// A timeout in 32 bits of milliseconds.
    Timeout,
    /// A GPIB secondary address from 0 to 30, or the sentinel for none.
    SecondaryAddr,
    /// A boolean: 1 for true, 0 for false.
    Bool,
    /// A line state in 16 bits.
    State16,
    /// A line state in 32 bits.
    State32,
    /// The state of a serial modem line.
    LineState,
    /// A serial parity.
    Parity,
    /// A number of serial stop bits.
    StopBits,
    /// A serial flow control.
    FlowCntrl,
    /// How a serial read ends; a break is not among the ways.
    EndIn,
    /// How a serial write ends; a break is among the ways.
    EndOut,
    /// A GPIB addressing state.
    AddrState,
    /// A GPIB cable length; on writing, meters are clamped to 1..=15.
    CableLength,
    /// A Fast Data Channel mode.
    FdcMode,
    /// An interface type.
    Interface,
    /// A write buffer mode.
    WrBufOperMode,
    /// An address modifier.
    AccessPrivilege,
    /// A byte order.
    ByteOrder,
    /// The wiring of a PXI local bus.
    SlotLBus,
    /// A VXI device class.
    DevClass,
    /// A lock state.
    LockState,
    /// A NUL-terminated string; it has no scalar form.
    Text,
    /// A block of bytes; it has no scalar form.
    Bytes,
}

impl Codec {
    /// The width in which an attribute of this codec travels; none for a
    /// string or a block of bytes.
    pub open spec fn spec_raw_kind(self) -> Option<RawKind> {
        match self {
            Codec::U8 | Codec::Char => Some(RawKind::U8),
            Codec::U16 | Codec::U16Upto(_) | Codec::SecondaryAddr | Codec::Bool | Codec::Parity | Codec::StopBits | Codec::FlowCntrl | Codec::EndIn | Codec::EndOut | Codec::Interface | Codec::WrBufOperMode | Codec::AccessPrivilege | Codec::ByteOrder | Codec::DevClass => Some(RawKind::U16),
            Codec::I16 | Codec::I16Upto(_) | Codec::State16 | Codec::LineState | Codec::AddrState | Codec::CableLength | Codec::SlotLBus => Some(RawKind::I16),
            Codec::U32 | Codec::Timeout | Codec::FdcMode | Codec::LockState => Some(RawKind::U32),
            Codec::Step | Codec::State32 => Some(RawKind::I32),
            Codec::U64 => Some(RawKind::U64),
            Codec::Text | Codec::Bytes => None,
        }
    }

    /// The width in which an attribute of this codec travels; none for a
    /// string or a block of bytes.
    #[verifier::when_used_as_spec(spec_raw_kind)]
    pub fn raw_kind(self) -> (kind: Option<RawKind>)
        ensures
            kind == self.spec_raw_kind(),
    {
        match self {
            Codec::U8 | Codec::Char => Some(RawKind::U8),
            Codec::U16 | Codec::U16Upto(_) | Codec::SecondaryAddr | Codec::Bool | Codec::Parity | Codec::StopBits | Codec::FlowCntrl | Codec::EndIn | Codec::EndOut | Codec::Interface | Codec::WrBufOperMode | Codec::AccessPrivilege | Codec::ByteOrder | Codec::DevClass => Some(RawKind::U16),
            Codec::I16 | Codec::I16Upto(_) | Codec::State16 | Codec::LineState | Codec::AddrState | Codec::CableLength | Codec::SlotLBus => Some(RawKind::I16),
            Codec::U32 | Codec::Timeout | Codec::FdcMode | Codec::LockState => Some(RawKind::U32),
            Codec::Step | Codec::State32 => Some(RawKind::I32),
            Codec::U64 => Some(RawKind::U64),
            Codec::Text | Codec::Bytes => None,
        }
    }

    /// The value that `raw` denotes under this codec. There is none where
    /// `raw` is of another width than the codec's, or its number is outside
    /// the codec's domain.
    pub open spec fn decoded(self, raw: RawValue) -> Option<AttrValue> {
        match (self, raw) {
            (Codec::U8, RawValue::U8(x)) => Some(AttrValue::U8(x)),
            (Codec::U16, RawValue::U16(x)) => Some(AttrValue::U16(x)),
            (Codec::I16, RawValue::I16(x)) => Some(AttrValue::I16(x)),
            (Codec::U32, RawValue::U32(x)) => Some(AttrValue::U32(x)),
            (Codec::U64, RawValue::U64(x)) => Some(AttrValue::U64(x)),
            (Codec::U16Upto(max), RawValue::U16(x)) => if x <= max {
                Some(AttrValue::U16(x))
            } else {
                None
            },
            (Codec::I16Upto(max), RawValue::I16(x)) => if 0 <= x <= max {
                Some(AttrValue::I16(x))
            } else {
                None
            },
            (Codec::Step, RawValue::I32(x)) => if x == 0 || x == 1 {
                Some(AttrValue::I32(x))
            } else {
                None
            },
            (Codec::Char, RawValue::U8(x)) => Some(AttrValue::Char(x as char)),
            (Codec::Timeout, RawValue::U32(x)) => Some(AttrValue::Timeout(TimeSpan::of_millis(x as u64))),
            (Codec::SecondaryAddr, RawValue::U16(x)) => if x <= 30 {
                Some(AttrValue::SecondaryAddr(Some(x)))
            } else if x == bindings::VI_NO_SEC_ADDR {
                Some(AttrValue::SecondaryAddr(None))
            } else {
                None
            },
            (Codec::Bool, RawValue::U16(x)) => match bool::denoted(x as int) {
                Some(v) => Some(AttrValue::Bool(v)),
                None => None,
            },
            (Codec::State16, RawValue::I16(x)) => match State::denoted(x as int) {
                Some(v) => Some(AttrValue::State(v)),
                None => None,
            },
            (Codec::State32, RawValue::I32(x)) => match State::denoted(x as int) {
                Some(v) => Some(AttrValue::State(v)),
                None => None,
            },
            (Codec::LineState, RawValue::I16(x)) => match AsrlState::denoted(x as int) {
                Some(v) => Some(AttrValue::LineState(v)),
                None => None,
            },
            (Codec::Parity, RawValue::U16(x)) => match AsrlParityType::denoted(x as int) {
                Some(v) => Some(AttrValue::Parity(v)),
                None => None,
            },
            (Codec::StopBits, RawValue::U16(x)) => match AsrlStopBitsType::denoted(x as int) {
                Some(v) => Some(AttrValue::StopBits(v)),
                None => None,
            },
            (Codec::FlowCntrl, RawValue::U16(x)) => match AsrlFlowCntrlType::denoted(x as int) {
                Some(v) => Some(AttrValue::FlowCntrl(v)),
                None => None,
            },
            (Codec::EndIn, RawValue::U16(x)) => match AsrlEnd::denoted(x as int) {
                Some(AsrlEnd::Break) | None => None,
                Some(v) => Some(AttrValue::End(v)),
            },
            (Codec::EndOut, RawValue::U16(x)) => match AsrlEnd::denoted(x as int) {
                Some(v) => Some(AttrValue::End(v)),
                None => None,
            },
            (Codec::AddrState, RawValue::I16(x)) => match GpibAddrStateType::denoted(x as int) {
                Some(v) => Some(AttrValue::AddrState(v)),
                None => None,
            },
            (Codec::CableLength, RawValue::I16(x)) => match GpibHs488CableLength::denoted(x as int) {
                Some(v) => Some(AttrValue::CableLength(v)),
                None => None,
            },
            (Codec::FdcMode, RawValue::U32(x)) => match FdcModeType::denoted(x as int) {
                Some(v) => Some(AttrValue::FdcMode(v)),
                None => None,
            },
            (Codec::Interface, RawValue::U16(x)) => match InterfaceType::denoted(x as int) {
                Some(v) => Some(AttrValue::Interface(v)),
                None => None,
            },
            (Codec::WrBufOperMode, RawValue::U16(x)) => match WrBufOperModeType::denoted(x as int) {
                Some(v) => Some(AttrValue::WrBufOperMode(v)),
                None => None,
            },
            (Codec::AccessPrivilege, RawValue::U16(x)) => match AccessPrivilege::denoted(x as int) {
                Some(v) => Some(AttrValue::AccessPrivilege(v)),
                None => None,
            },
            (Codec::ByteOrder, RawValue::U16(x)) => match ByteOrder::denoted(x as int) {
                Some(v) => Some(AttrValue::ByteOrder(v)),
                None => None,
            },
            (Codec::SlotLBus, RawValue::I16(x)) => match PxiSlotLBus::denoted(x as int) {
                Some(v) => Some(AttrValue::SlotLBus(v)),
                None => None,
            },
            (Codec::DevClass, RawValue::U16(x)) => match VxiDevClassType::denoted(x as int) {
                Some(v) => Some(AttrValue::DevClass(v)),
                None => None,
            },
            (Codec::LockState, RawValue::U32(x)) => match AccessMode::denoted(x as int) {
                Some(v) => Some(AttrValue::Lock(v)),
                None => None,
            },
            _ => None,
        }
    }

    /// Whether `value` is a value of this codec's domain: of the codec's type
    /// and, where the domain is narrower than the type, within its bounds.
    pub open spec fn valid(self, value: AttrValue) -> bool {
        match self {
            Codec::U8 => value is U8,
            Codec::U16 => value is U16,
            Codec::I16 => value is I16,
            Codec::U32 => value is U32,
            Codec::U64 => value is U64,
            Codec::U16Upto(max) => value matches AttrValue::U16(x) && x <= max,
            Codec::I16Upto(max) => value matches AttrValue::I16(x) && 0 <= x <= max,
            Codec::Step => value matches AttrValue::I32(x) && (x == 0 || x == 1),
            Codec::Char => value matches AttrValue::Char(c) && (c as int) < 256,
            Codec::Timeout => value matches AttrValue::Timeout(t) && t.whole_millis() && t.millis()
                <= u32::MAX,
            Codec::SecondaryAddr => value matches AttrValue::SecondaryAddr(a) && (a matches Some(n) ==> n
                <= 30),
            Codec::Bool => value is Bool,
            Codec::State16 => value is State,
            Codec::State32 => value is State,
            Codec::LineState => value is LineState,
            Codec::Parity => value is Parity,
            Codec::StopBits => value is StopBits,
            Codec::FlowCntrl => value is FlowCntrl,
            Codec::EndIn => value matches AttrValue::End(v) && v != AsrlEnd::Break,
            Codec::EndOut => value is End,
            Codec::AddrState => value is AddrState,
            Codec::CableLength => value matches AttrValue::CableLength(v) && v.exact(),
            Codec::FdcMode => value is FdcMode,
            Codec::Interface => value is Interface,
            Codec::WrBufOperMode => value is WrBufOperMode,
            Codec::AccessPrivilege => value is AccessPrivilege,
            Codec::ByteOrder => value is ByteOrder,
            Codec::SlotLBus => value is SlotLBus,
            Codec::DevClass => value is DevClass,
            Codec::LockState => value is Lock,
            Codec::Text | Codec::Bytes => false,
        }
    }

    /// The state in which `value` is written; none where the codec has no
    /// written form or `value` is not of its domain.
    pub open spec fn written(self, value: AttrValue) -> Option<ViAttrState> {
        match (self, value) {
            (Codec::U8, AttrValue::U8(x)) => Some(x as ViAttrState),
            (Codec::U16, AttrValue::U16(x)) => Some(x as ViAttrState),
            (Codec::U32, AttrValue::U32(x)) => Some(x as ViAttrState),
            (Codec::U16Upto(_), AttrValue::U16(x)) => Some(x as ViAttrState),
            (Codec::Step, AttrValue::I32(x)) => Some(sign_extended(x as int) as ViAttrState),
            (Codec::Char, AttrValue::Char(c)) => if (c as int) < 256 {
                Some(c as ViAttrState)
            } else {
                Some(63)
            },
            (Codec::Timeout, AttrValue::Timeout(t)) => Some(
                (t.millis() % 0x1_0000_0000_0000_0000) as ViAttrState,
            ),
            (Codec::SecondaryAddr, AttrValue::SecondaryAddr(a)) => match a {
                Some(n) => Some(n as ViAttrState),
                None => Some(bindings::VI_NO_SEC_ADDR as ViAttrState),
            },
            (Codec::Bool, AttrValue::Bool(v)) => Some(v.state()),
            (Codec::LineState, AttrValue::LineState(v)) => Some(v.state()),
            (Codec::Parity, AttrValue::Parity(v)) => Some(v.state()),
            (Codec::StopBits, AttrValue::StopBits(v)) => Some(v.state()),
            (Codec::FlowCntrl, AttrValue::FlowCntrl(v)) => Some(v.state()),
            (Codec::EndIn, AttrValue::End(v)) => Some(v.state()),
            (Codec::EndOut, AttrValue::End(v)) => Some(v.state()),
            (Codec::CableLength, AttrValue::CableLength(v)) => Some(v.state()),
            (Codec::FdcMode, AttrValue::FdcMode(v)) => Some(v.state()),
            (Codec::WrBufOperMode, AttrValue::WrBufOperMode(v)) => Some(v.state()),
            (Codec::AccessPrivilege, AttrValue::AccessPrivilege(v)) => Some(v.state()),
            (Codec::ByteOrder, AttrValue::ByteOrder(v)) => Some(v.state()),
            (Codec::LockState, AttrValue::Lock(v)) => Some(v.state()),
            _ => None,
        }
    }

    /// The value that `raw` denotes; none where it denotes no value.
    pub fn decode(self, raw: RawValue) -> (value: Option<AttrValue>)
        ensures
            value == self.decoded(raw),
    {
        match (self, raw) {
            (Codec::U8, RawValue::U8(x)) => Some(AttrValue::U8(x)),
            (Codec::U16, RawValue::U16(x)) => Some(AttrValue::U16(x)),
            (Codec::I16, RawValue::I16(x)) => Some(AttrValue::I16(x)),
            (Codec::U32, RawValue::U32(x)) => Some(AttrValue::U32(x)),
            (Codec::U64, RawValue::U64(x)) => Some(AttrValue::U64(x)),
            (Codec::U16Upto(max), RawValue::U16(x)) => if x <= max {
                Some(AttrValue::U16(x))
            } else {
                None
            },
            (Codec::I16Upto(max), RawValue::I16(x)) => if 0 <= x && x <= max {
                Some(AttrValue::I16(x))
            } else {
                None
            },
            (Codec::Step, RawValue::I32(x)) => if x == 0 || x == 1 {
                Some(AttrValue::I32(x))
            } else {
                None
            },
            (Codec::Char, RawValue::U8(x)) => Some(AttrValue::Char(x as char)),
            (Codec::Timeout, RawValue::U32(x)) => Some(AttrValue::Timeout(TimeSpan::from_millis(x as u64))),
            (Codec::SecondaryAddr, RawValue::U16(x)) => if x <= 30 {
                Some(AttrValue::SecondaryAddr(Some(x)))
            } else if x as u32 == bindings::VI_NO_SEC_ADDR {
                Some(AttrValue::SecondaryAddr(None))
            } else {
                None
            },
            (Codec::Bool, RawValue::U16(x)) => match bool::from_vi(x as i64) {
                Some(v) => Some(AttrValue::Bool(v)),
                None => None,
            },
            (Codec::State16, RawValue::I16(x)) => match State::from_vi(x as i64) {
                Some(v) => Some(AttrValue::State(v)),
                None => None,
            },
            (Codec::State32, RawValue::I32(x)) => match State::from_vi(x as i64) {
                Some(v) => Some(AttrValue::State(v)),
                None => None,
            },
            (Codec::LineState, RawValue::I16(x)) => match AsrlState::from_vi(x as i64) {
                Some(v) => Some(AttrValue::LineState(v)),
                None => None,
            },
            (Codec::Parity, RawValue::U16(x)) => match AsrlParityType::from_vi(x as i64) {
                Some(v) => Some(AttrValue::Parity(v)),
                None => None,
            },
            (Codec::StopBits, RawValue::U16(x)) => match AsrlStopBitsType::from_vi(x as i64) {
                Some(v) => Some(AttrValue::StopBits(v)),
                None => None,
            },
            (Codec::FlowCntrl, RawValue::U16(x)) => match AsrlFlowCntrlType::from_vi(x as i64) {
                Some(v) => Some(AttrValue::FlowCntrl(v)),
                None => None,
            },
            (Codec::EndIn, RawValue::U16(x)) => match AsrlEnd::from_vi(x as i64) {
                Some(AsrlEnd::Break) | None => None,
                Some(v) => Some(AttrValue::End(v)),
            },
            (Codec::EndOut, RawValue::U16(x)) => match AsrlEnd::from_vi(x as i64) {
                Some(v) => Some(AttrValue::End(v)),
                None => None,
            },
            (Codec::AddrState, RawValue::I16(x)) => match GpibAddrStateType::from_vi(x as i64) {
                Some(v) => Some(AttrValue::AddrState(v)),
                None => None,
            },
            (Codec::CableLength, RawValue::I16(x)) => match GpibHs488CableLength::from_vi(x as i64) {
                Some(v) => Some(AttrValue::CableLength(v)),
                None => None,
            },
            (Codec::FdcMode, RawValue::U32(x)) => match FdcModeType::from_vi(x as i64) {
                Some(v) => Some(AttrValue::FdcMode(v)),
                None => None,
            },
            (Codec::Interface, RawValue::U16(x)) => match InterfaceType::from_vi(x as i64) {
                Some(v) => Some(AttrValue::Interface(v)),
                None => None,
            },
            (Codec::WrBufOperMode, RawValue::U16(x)) => match WrBufOperModeType::from_vi(x as i64) {
                Some(v) => Some(AttrValue::WrBufOperMode(v)),
                None => None,
            },
            (Codec::AccessPrivilege, RawValue::U16(x)) => match AccessPrivilege::from_vi(x as i64) {
                Some(v) => Some(AttrValue::AccessPrivilege(v)),
                None => None,
            },
            (Codec::ByteOrder, RawValue::U16(x)) => match ByteOrder::from_vi(x as i64) {
                Some(v) => Some(AttrValue::ByteOrder(v)),
                None => None,
            },
            (Codec::SlotLBus, RawValue::I16(x)) => match PxiSlotLBus::from_vi(x as i64) {
                Some(v) => Some(AttrValue::SlotLBus(v)),
                None => None,
            },
            (Codec::DevClass, RawValue::U16(x)) => match VxiDevClassType::from_vi(x as i64) {
                Some(v) => Some(AttrValue::DevClass(v)),
                None => None,
            },
            (Codec::LockState, RawValue::U32(x)) => match AccessMode::from_vi(x as i64) {
                Some(v) => Some(AttrValue::Lock(v)),
                None => None,
            },
            _ => None,
        }
    }

    /// The state in which `value` is written.
    pub fn encode(self, value: AttrValue) -> (state: Option<ViAttrState>)
        ensures
            state == self.written(value),
    {
        match (self, value) {
            (Codec::U8, AttrValue::U8(x)) => Some(x as ViAttrState),
            (Codec::U16, AttrValue::U16(x)) => Some(x as ViAttrState),
            (Codec::U32, AttrValue::U32(x)) => Some(x as ViAttrState),
            (Codec::U16Upto(_), AttrValue::U16(x)) => Some(x as ViAttrState),
            (Codec::Step, AttrValue::I32(x)) => Some(sign_extend(x)),
            (Codec::Char, AttrValue::Char(c)) => if (c as u32) < 256 {
                Some(c as u32 as ViAttrState)
            } else {
                Some(63)
            },
            (Codec::Timeout, AttrValue::Timeout(t)) => Some(
                (t.as_millis() % 0x1_0000_0000_0000_0000) as ViAttrState,
            ),
            (Codec::SecondaryAddr, AttrValue::SecondaryAddr(a)) => match a {
                Some(n) => Some(n as ViAttrState),
                None => Some(bindings::VI_NO_SEC_ADDR as ViAttrState),
            },
            (Codec::Bool, AttrValue::Bool(v)) => Some(v.as_vi()),
            (Codec::LineState, AttrValue::LineState(v)) => Some(v.as_vi()),
            (Codec::Parity, AttrValue::Parity(v)) => Some(v.as_vi()),
            (Codec::StopBits, AttrValue::StopBits(v)) => Some(v.as_vi()),
            (Codec::FlowCntrl, AttrValue::FlowCntrl(v)) => Some(v.as_vi()),
            (Codec::EndIn, AttrValue::End(v)) => Some(v.as_vi()),
            (Codec::EndOut, AttrValue::End(v)) => Some(v.as_vi()),
            (Codec::CableLength, AttrValue::CableLength(v)) => Some(v.as_vi()),
            (Codec::FdcMode, AttrValue::FdcMode(v)) => Some(v.as_vi()),
            (Codec::WrBufOperMode, AttrValue::WrBufOperMode(v)) => Some(v.as_vi()),
            (Codec::AccessPrivilege, AttrValue::AccessPrivilege(v)) => Some(v.as_vi()),
            (Codec::ByteOrder, AttrValue::ByteOrder(v)) => Some(v.as_vi()),
            (Codec::LockState, AttrValue::Lock(v)) => Some(v.as_vi()),
            _ => None,
        }
    }

    /// Nothing is decoded from outside the domain: what a raw value denotes
    /// is a value of the domain, and the raw value has the codec's width.
    pub proof fn lemma_decoded_in_domain(self, raw: RawValue)
        ensures
            self.decoded(raw) matches Some(value) ==> {
                &&& self.spec_raw_kind() == Some(raw.spec_kind())
                &&& self.valid(value)
            },
    {
        match (self, raw) {
            (Codec::CableLength, RawValue::I16(x)) => {
                GpibHs488CableLength::lemma_denoted_exact(x as int);
            },
            _ => {},
        }
    }

    /// The round trip of a number that is written as it is.
    proof fn lemma_trip_whole(codec: Codec, value: AttrValue)
        requires
            codec == Codec::U8 || codec == Codec::U16 || codec == Codec::U32 || codec
                matches Codec::U16Upto(_),
            codec.valid(value),
        ensures
            codec.decoded(codec.spec_raw_kind()->0.cut(codec.written(value)->0)) == Some(value),
    {
    }

    /// The round trip of an address increment.
    proof fn lemma_trip_step(x: i32)
        requires
            x == 0 || x == 1,
        ensures
            Codec::Step.decoded(RawKind::I32.cut(Codec::Step.written(AttrValue::I32(x))->0))
                == Some(AttrValue::I32(x)),
    {
    }

    /// The round trip of a character that fits one byte.
    proof fn lemma_trip_char(c: char)
        requires
            (c as int) < 256,
        ensures
            Codec::Char.decoded(RawKind::U8.cut(Codec::Char.written(AttrValue::Char(c))->0))
                == Some(AttrValue::Char(c)),
    {
    }

    /// The round trip of a timeout of whole milliseconds that fit 32 bits.
    proof fn lemma_trip_timeout(t: TimeSpan)
        requires
            t.whole_millis(),
            t.millis() <= u32::MAX,
        ensures
            Codec::Timeout.decoded(
                RawKind::U32.cut(Codec::Timeout.written(AttrValue::Timeout(t))->0),
            ) == Some(AttrValue::Timeout(t)),
    {
    }

    /// The round trip of a secondary address.
    proof fn lemma_trip_secondary(a: Option<u16>)
        requires
            a matches Some(n) ==> n <= 30,
        ensures
            Codec::SecondaryAddr.decoded(
                RawKind::U16.cut(Codec::SecondaryAddr.written(AttrValue::SecondaryAddr(a))->0),
            ) == Some(AttrValue::SecondaryAddr(a)),
    {
    }

    /// The round trip under `Codec::Bool`.
    proof fn lemma_trip_bool(v: bool)
        ensures
            Codec::Bool.decoded(
                RawKind::U16.cut(Codec::Bool.written(AttrValue::Bool(v))->0),
            ) == Some(AttrValue::Bool(v)),
    {
        v.lemma_state_narrows(RawKind::U16);
        bool::lemma_denoted(v.wire());
    }

    /// The round trip under `Codec::LineState`.
    proof fn lemma_trip_line_state(v: AsrlState)
        ensures
            Codec::LineState.decoded(
                RawKind::I16.cut(Codec::LineState.written(AttrValue::LineState(v))->0),
            ) == Some(AttrValue::LineState(v)),
    {
        v.lemma_state_narrows(RawKind::I16);
        AsrlState::lemma_denoted(v.wire());
    }

    /// The round trip under `Codec::Parity`.
    proof fn lemma_trip_parity(v: AsrlParityType)
        ensures
            Codec::Parity.decoded(
                RawKind::U16.cut(Codec::Parity.written(AttrValue::Parity(v))->0),
            ) == Some(AttrValue::Parity(v)),
    {
        v.lemma_state_narrows(RawKind::U16);
        AsrlParityType::lemma_denoted(v.wire());
    }

    /// The round trip under `Codec::StopBits`.
    proof fn lemma_trip_stop_bits(v: AsrlStopBitsType)
        ensures
            Codec::StopBits.decoded(
                RawKind::U16.cut(Codec::StopBits.written(AttrValue::StopBits(v))->0),
            ) == Some(AttrValue::StopBits(v)),
    {
        v.lemma_state_narrows(RawKind::U16);
        AsrlStopBitsType::lemma_denoted(v.wire());
    }

    /// The round trip under `Codec::FlowCntrl`.
    proof fn lemma_trip_flow_cntrl(v: AsrlFlowCntrlType)
        ensures
            Codec::FlowCntrl.decoded(
                RawKind::U16.cut(Codec::FlowCntrl.written(AttrValue::FlowCntrl(v))->0),
            ) == Some(AttrValue::FlowCntrl(v)),
    {
        v.lemma_state_narrows(RawKind::U16);
        AsrlFlowCntrlType::lemma_denoted(v.wire());
    }

    /// The round trip under `Codec::EndIn`.
    proof fn lemma_trip_end_in(v: AsrlEnd)
        requires
            v != AsrlEnd::Break,
        ensures
            Codec::EndIn.decoded(
                RawKind::U16.cut(Codec::EndIn.written(AttrValue::End(v))->0),
            ) == Some(AttrValue::End(v)),
    {
        v.lemma_state_narrows(RawKind::U16);
        AsrlEnd::lemma_denoted(v.wire());
    }

    /// The round trip under `Codec::EndOut`.
    proof fn lemma_trip_end_out(v: AsrlEnd)
        ensures
            Codec::EndOut.decoded(
                RawKind::U16.cut(Codec::EndOut.written(AttrValue::End(v))->0),
            ) == Some(AttrValue::End(v)),
    {
        v.lemma_state_narrows(RawKind::U16);
        AsrlEnd::lemma_denoted(v.wire());
    }

    /// The round trip under `Codec::CableLength`.
    proof fn lemma_trip_cable_length(v: GpibHs488CableLength)
        requires
            v.exact(),
        ensures
            Codec::CableLength.decoded(
                RawKind::I16.cut(Codec::CableLength.written(AttrValue::CableLength(v))->0),
            ) == Some(AttrValue::CableLength(v)),
    {
        v.lemma_state_narrows(RawKind::I16);
        GpibHs488CableLength::lemma_denoted(v.wire());
    }

    /// The round trip under `Codec::FdcMode`.
    proof fn lemma_trip_fdc_mode(v: FdcModeType)
        ensures
            Codec::FdcMode.decoded(
                RawKind::U32.cut(Codec::FdcMode.written(AttrValue::FdcMode(v))->0),
            ) == Some(AttrValue::FdcMode(v)),
    {
        v.lemma_state_narrows(RawKind::U32);
        FdcModeType::lemma_denoted(v.wire());
    }

    /// The round trip under `Codec::WrBufOperMode`.
    proof fn lemma_trip_wr_buf_oper_mode(v: WrBufOperModeType)
        ensures
            Codec::WrBufOperMode.decoded(
                RawKind::U16.cut(Codec::WrBufOperMode.written(AttrValue::WrBufOperMode(v))->0),
            ) == Some(AttrValue::WrBufOperMode(v)),
    {
        v.lemma_state_narrows(RawKind::U16);
        WrBufOperModeType::lemma_denoted(v.wire());
    }

    /// The round trip under `Codec::AccessPrivilege`.
    proof fn lemma_trip_access_privilege(v: AccessPrivilege)
        ensures
            Codec::AccessPrivilege.decoded(
                RawKind::U16.cut(Codec::AccessPrivilege.written(AttrValue::AccessPrivilege(v))->0),
            ) == Some(AttrValue::AccessPrivilege(v)),
    {
        v.lemma_state_narrows(RawKind::U16);
        AccessPrivilege::lemma_denoted(v.wire());
    }

    /// The round trip under `Codec::ByteOrder`.
    proof fn lemma_trip_byte_order(v: ByteOrder)
        ensures
            Codec::ByteOrder.decoded(
                RawKind::U16.cut(Codec::ByteOrder.written(AttrValue::ByteOrder(v))->0),
            ) == Some(AttrValue::ByteOrder(v)),
    {
        v.lemma_state_narrows(RawKind::U16);
        ByteOrder::lemma_denoted(v.wire());
    }

    /// The round trip under `Codec::LockState`.
    proof fn lemma_trip_lock_state(v: AccessMode)
        ensures
            Codec::LockState.decoded(
                RawKind::U32.cut(Codec::LockState.written(AttrValue::Lock(v))->0),
            ) == Some(AttrValue::Lock(v)),
    {
        v.lemma_state_narrows(RawKind::U32);
        AccessMode::lemma_denoted(v.wire());
    }

    /// Round trip: the written state of a value of the domain, cut back to the
    /// codec's width, denotes that value.
    pub proof fn lemma_round_trip(self, value: AttrValue)
        requires
            self.valid(value),
            self.written(value) is Some,
        ensures
            self.spec_raw_kind() matches Some(width) && self.decoded(
                width.cut(self.written(value)->0),
            ) == Some(value),
    {
        match (self, value) {
            (Codec::U8, AttrValue::U8(_)) => Self::lemma_trip_whole(self, value),
            (Codec::U16, AttrValue::U16(_)) => Self::lemma_trip_whole(self, value),
            (Codec::U32, AttrValue::U32(_)) => Self::lemma_trip_whole(self, value),
            (Codec::U16Upto(_), AttrValue::U16(_)) => Self::lemma_trip_whole(self, value),
            (Codec::Step, AttrValue::I32(x)) => Self::lemma_trip_step(x),
            (Codec::Char, AttrValue::Char(c)) => Self::lemma_trip_char(c),
            (Codec::Timeout, AttrValue::Timeout(t)) => Self::lemma_trip_timeout(t),
            (Codec::SecondaryAddr, AttrValue::SecondaryAddr(a)) => Self::lemma_trip_secondary(a),
            (Codec::Bool, AttrValue::Bool(v)) => Self::lemma_trip_bool(v),
            (Codec::LineState, AttrValue::LineState(v)) => Self::lemma_trip_line_state(v),
            (Codec::Parity, AttrValue::Parity(v)) => Self::lemma_trip_parity(v),
            (Codec::StopBits, AttrValue::StopBits(v)) => Self::lemma_trip_stop_bits(v),
            (Codec::FlowCntrl, AttrValue::FlowCntrl(v)) => Self::lemma_trip_flow_cntrl(v),
            (Codec::EndIn, AttrValue::End(v)) => Self::lemma_trip_end_in(v),
            (Codec::EndOut, AttrValue::End(v)) => Self::lemma_trip_end_out(v),
            (Codec::CableLength, AttrValue::CableLength(v)) => Self::lemma_trip_cable_length(v),
            (Codec::FdcMode, AttrValue::FdcMode(v)) => Self::lemma_trip_fdc_mode(v),
            (Codec::WrBufOperMode, AttrValue::WrBufOperMode(v)) => Self::lemma_trip_wr_buf_oper_mode(v),
            (Codec::AccessPrivilege, AttrValue::AccessPrivilege(v)) => Self::lemma_trip_access_privilege(v),
            (Codec::ByteOrder, AttrValue::ByteOrder(v)) => Self::lemma_trip_byte_order(v),
            (Codec::LockState, AttrValue::Lock(v)) => Self::lemma_trip_lock_state(v),
            _ => {},
        }
    }
}

} // verus!
