//! Raw attribute values: the fixed-width forms in which a transport hands an
//! attribute over, and the narrowing of a written state back to that width.
use crate::bindings::ViAttrState;
use vstd::prelude::*;

verus! {

/// The width and signedness in which an attribute travels.
#[derive(Debug, Copy, Clone, PartialEq, Eq, Structural)]
pub enum RawKind {
    U8,
    U16,
    I16,
    U32,
    I32,
    U64,
}

/// A raw scalar as read from the transport.
#[derive(Debug, Copy, Clone, PartialEq, Eq, Structural)]
pub enum RawValue {
    U8(u8),
    U16(u16),
    I16(i16),
    U32(u32),
    I32(i32),
    U64(u64),
}

impl RawValue {
    /// The width this value was read in.
    pub open spec fn spec_kind(self) -> RawKind {
        match self {
            RawValue::U8(_) => RawKind::U8,
            RawValue::U16(_) => RawKind::U16,
            RawValue::I16(_) => RawKind::I16,
            RawValue::U32(_) => RawKind::U32,
            RawValue::I32(_) => RawKind::I32,
            RawValue::U64(_) => RawKind::U64,
        }
    }

    /// The width this value was read in.
    #[verifier::when_used_as_spec(spec_kind)]
    pub fn kind(self) -> (kind: RawKind)
        ensures
            kind == self.spec_kind(),
    {
        match self {
            RawValue::U8(_) => RawKind::U8,
            RawValue::U16(_) => RawKind::U16,
            RawValue::I16(_) => RawKind::I16,
            RawValue::U32(_) => RawKind::U32,
            RawValue::I32(_) => RawKind::I32,
            RawValue::U64(_) => RawKind::U64,
        }
    }

    /// The number this value stands for.
    pub open spec fn number(self) -> int {
        match self {
            RawValue::U8(v) => v as int,
            RawValue::U16(v) => v as int,
            RawValue::I16(v) => v as int,
            RawValue::U32(v) => v as int,
            RawValue::I32(v) => v as int,
            RawValue::U64(v) => v as int,
        }
    }
}

impl RawKind {
    /// How many bits a value of this width has.
    pub open spec fn bits(self) -> nat {
        match self {
            RawKind::U8 => 8,
            RawKind::U16 | RawKind::I16 => 16,
            RawKind::U32 | RawKind::I32 => 32,
            RawKind::U64 => 64,
        }
    }

    /// Whether a value of this width can stand for `number`.
    pub open spec fn holds(self, number: int) -> bool {
        match self {
            RawKind::U8 => 0 <= number < 0x100,
            RawKind::U16 => 0 <= number < 0x1_0000,
            RawKind::I16 => -0x8000 <= number < 0x8000,
            RawKind::U32 => 0 <= number < 0x1_0000_0000,
            RawKind::I32 => -0x8000_0000 <= number < 0x8000_0000,
            RawKind::U64 => 0 <= number < 0x1_0000_0000_0000_0000,
        }
    }

    /// The number that the low bits of `state` stand for in this width: the
    /// state modulo the width, read as two's complement where the width is
    /// signed.
    pub open spec fn narrowed(self, state: ViAttrState) -> int {
        match self {
            RawKind::U8 => state as int % 0x100,
            RawKind::U16 => state as int % 0x1_0000,
            RawKind::I16 => {
                let low = state as int % 0x1_0000;
                if low >= 0x8000 {
                    low - 0x1_0000
                } else {
                    low
                }
            },
            RawKind::U32 => state as int % 0x1_0000_0000,
            RawKind::I32 => {
                let low = state as int % 0x1_0000_0000;
                if low >= 0x8000_0000 {
                    low - 0x1_0000_0000
                } else {
                    low
                }
            },
            RawKind::U64 => state as int,
        }
    }

    /// The raw value of this width that the low bits of `state` make.
    pub open spec fn cut(self, state: ViAttrState) -> RawValue {
        match self {
            RawKind::U8 => RawValue::U8(self.narrowed(state) as u8),
            RawKind::U16 => RawValue::U16(self.narrowed(state) as u16),
            RawKind::I16 => RawValue::I16(self.narrowed(state) as i16),
            RawKind::U32 => RawValue::U32(self.narrowed(state) as u32),
            RawKind::I32 => RawValue::I32(self.narrowed(state) as i32),
            RawKind::U64 => RawValue::U64(state),
        }
    }

    /// Cuts a written state down to this width, as the transport does when it
    /// stores the attribute.
    pub fn narrow(self, state: ViAttrState) -> (raw: RawValue)
        ensures
            raw == self.cut(state),
            raw.spec_kind() == self,
            raw.number() == self.narrowed(state),
    {
        match self {
            RawKind::U8 => RawValue::U8((state % 0x100) as u8),
            RawKind::U16 => RawValue::U16((state % 0x1_0000) as u16),
            RawKind::I16 => {
                let low: u64 = state % 0x1_0000;
                if low >= 0x8000 {
                    RawValue::I16((low as i32 - 0x1_0000) as i16)
                } else {
                    RawValue::I16(low as i16)
                }
            },
            RawKind::U32 => RawValue::U32((state % 0x1_0000_0000) as u32),
            RawKind::I32 => {
                let low: u64 = state % 0x1_0000_0000;
                if low >= 0x8000_0000 {
                    RawValue::I32((low as i64 - 0x1_0000_0000) as i32)
                } else {
                    RawValue::I32(low as i32)
                }
            },
            RawKind::U64 => RawValue::U64(state),
        }
    }
}

/// The widened state that stands for a signed number: two's complement over
/// 64 bits.
pub open spec fn sign_extended(value: int) -> int {
    if value >= 0 {
        value
    } else {
        0x1_0000_0000_0000_0000 + value
    }
}

/// Widens a signed number to a state, keeping its sign bits.
pub fn sign_extend(value: i32) -> (state: ViAttrState)
    ensures
        state == sign_extended(value as int),
{
    if value >= 0 {
        value as u64
    } else {
        u64::MAX - ((-(value as i64) - 1) as u64)
    }
}

} // verus!
