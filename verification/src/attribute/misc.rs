//! Values of the attributes that belong to no one interface.
use crate::attribute::raw::RawKind;
use crate::attribute::traits::{AsViReadable, AsViWritable};
use crate::bindings;
use crate::bindings::ViAttrState;
use vstd::prelude::*;

verus! {

/// The mode of a Fast Data Channel.
#[derive(Debug, Copy, Clone, PartialEq, Eq, Structural)]
pub enum FdcModeType {
    /// Normal mode.
    Normal,
    /// Stream mode.
    Stream,
}

impl AsViReadable for FdcModeType {
    open spec fn wire(&self) -> int {
        match self {
            FdcModeType::Normal => bindings::VI_FDC_NORMAL as int,
            FdcModeType::Stream => bindings::VI_FDC_STREAM as int,
        }
    }

    open spec fn denoted(raw: int) -> Option<Self> {
        if raw == bindings::VI_FDC_NORMAL {
            Some(FdcModeType::Normal)
        } else if raw == bindings::VI_FDC_STREAM {
            Some(FdcModeType::Stream)
        } else {
            None
        }
    }

    fn from_vi(raw: i64) -> (value: Option<Self>) {
        if raw == bindings::VI_FDC_NORMAL as i64 {
            Some(FdcModeType::Normal)
        } else if raw == bindings::VI_FDC_STREAM as i64 {
            Some(FdcModeType::Stream)
        } else {
            None
        }
    }

    proof fn lemma_denoted(raw: int) {
    }
}

impl AsViWritable for FdcModeType {
    open spec fn state(&self) -> ViAttrState {
        self.wire() as ViAttrState
    }

    fn as_vi(&self) -> (state: ViAttrState) {
        match self {
            FdcModeType::Normal => bindings::VI_FDC_NORMAL as ViAttrState,
            FdcModeType::Stream => bindings::VI_FDC_STREAM as ViAttrState,
        }
    }

    proof fn lemma_state_narrows(&self, width: RawKind) {
    }
}

/// The kind of interface behind a session.
#[derive(Debug, Copy, Clone, PartialEq, Eq, Structural)]
pub enum InterfaceType {
    /// GPIB.
    Gpib,
    /// VXI or VME.
    Vxi,
    /// A GPIB-VXI controller.
    GpibVxi,
    /// Serial.
    Asrl,
    /// PXI.
    Pxi,
    /// TCP/IP.
    Tcpip,
    /// USB.
    Usb,
}

impl AsViReadable for InterfaceType {
    open spec fn wire(&self) -> int {
        match self {
            InterfaceType::Gpib => bindings::VI_INTF_GPIB as int,
            InterfaceType::Vxi => bindings::VI_INTF_VXI as int,
            InterfaceType::GpibVxi => bindings::VI_INTF_GPIB_VXI as int,
            InterfaceType::Asrl => bindings::VI_INTF_ASRL as int,
            InterfaceType::Pxi => bindings::VI_INTF_PXI as int,
            InterfaceType::Tcpip => bindings::VI_INTF_TCPIP as int,
            InterfaceType::Usb => bindings::VI_INTF_USB as int,
        }
    }

    open spec fn denoted(raw: int) -> Option<Self> {
        if raw == bindings::VI_INTF_GPIB {
            Some(InterfaceType::Gpib)
        } else if raw == bindings::VI_INTF_VXI {
            Some(InterfaceType::Vxi)
        } else if raw == bindings::VI_INTF_GPIB_VXI {
            Some(InterfaceType::GpibVxi)
        } else if raw == bindings::VI_INTF_ASRL {
            Some(InterfaceType::Asrl)
        } else if raw == bindings::VI_INTF_PXI {
            Some(InterfaceType::Pxi)
        } else if raw == bindings::VI_INTF_TCPIP {
            Some(InterfaceType::Tcpip)
        } else if raw == bindings::VI_INTF_USB {
            Some(InterfaceType::Usb)
        } else {
            None
        }
    }

    fn from_vi(raw: i64) -> (value: Option<Self>) {
        if raw == bindings::VI_INTF_GPIB as i64 {
            Some(InterfaceType::Gpib)
        } else if raw == bindings::VI_INTF_VXI as i64 {
            Some(InterfaceType::Vxi)
        } else if raw == bindings::VI_INTF_GPIB_VXI as i64 {
            Some(InterfaceType::GpibVxi)
        } else if raw == bindings::VI_INTF_ASRL as i64 {
            Some(InterfaceType::Asrl)
        } else if raw == bindings::VI_INTF_PXI as i64 {
            Some(InterfaceType::Pxi)
        } else if raw == bindings::VI_INTF_TCPIP as i64 {
            Some(InterfaceType::Tcpip)
        } else if raw == bindings::VI_INTF_USB as i64 {
            Some(InterfaceType::Usb)
        } else {
            None
        }
    }

    proof fn lemma_denoted(raw: int) {
    }
}

/// When the formatted write buffer is flushed.
#[derive(Debug, Copy, Clone, PartialEq, Eq, Structural)]
pub enum WrBufOperModeType {
    /// On an END indicator, when the buffer fills, and after every formatted write.
    OnAccess,
    /// On an END indicator and when the buffer fills.
    OnFull,
}

impl AsViReadable for WrBufOperModeType {
    open spec fn wire(&self) -> int {
        match self {
            WrBufOperModeType::OnAccess => bindings::VI_FLUSH_ON_ACCESS as int,
            WrBufOperModeType::OnFull => bindings::VI_FLUSH_WHEN_FULL as int,
        }
    }

    open spec fn denoted(raw: int) -> Option<Self> {
        if raw == bindings::VI_FLUSH_ON_ACCESS {
            Some(WrBufOperModeType::OnAccess)
        } else if raw == bindings::VI_FLUSH_WHEN_FULL {
            Some(WrBufOperModeType::OnFull)
        } else {
            None
        }
    }

    fn from_vi(raw: i64) -> (value: Option<Self>) {
        if raw == bindings::VI_FLUSH_ON_ACCESS as i64 {
            Some(WrBufOperModeType::OnAccess)
        } else if raw == bindings::VI_FLUSH_WHEN_FULL as i64 {
            Some(WrBufOperModeType::OnFull)
        } else {
            None
        }
    }

    proof fn lemma_denoted(raw: int) {
    }
}

impl AsViWritable for WrBufOperModeType {
    open spec fn state(&self) -> ViAttrState {
        self.wire() as ViAttrState
    }

    fn as_vi(&self) -> (state: ViAttrState) {
        match self {
            WrBufOperModeType::OnAccess => bindings::VI_FLUSH_ON_ACCESS as ViAttrState,
            WrBufOperModeType::OnFull => bindings::VI_FLUSH_WHEN_FULL as ViAttrState,
        }
    }

    proof fn lemma_state_narrows(&self, width: RawKind) {
    }
}

/// The address modifier used in bus accesses.
#[derive(Debug, Copy, Clone, PartialEq, Eq, Structural)]
pub enum AccessPrivilege {
    /// Privileged data access.
    DataPriv,
    /// Non-privileged data access.
    DataNPriv,
    /// Privileged program access.
    ProgPriv,
    /// Non-privileged program access.
    ProgNPriv,
    /// Privileged block access.
    BlockPriv,
    /// Non-privileged block access.
    BlockNPriv,
    /// Privileged 64-bit block access.
    D64Priv,
    /// Non-privileged 64-bit block access.
    D64NPriv,
}

impl AsViReadable for AccessPrivilege {
    open spec fn wire(&self) -> int {
        match self {
            AccessPrivilege::DataPriv => bindings::VI_DATA_PRIV as int,
            AccessPrivilege::DataNPriv => bindings::VI_DATA_NPRIV as int,
            AccessPrivilege::ProgPriv => bindings::VI_PROG_PRIV as int,
            AccessPrivilege::ProgNPriv => bindings::VI_PROG_NPRIV as int,
            AccessPrivilege::BlockPriv => bindings::VI_BLCK_PRIV as int,
            AccessPrivilege::BlockNPriv => bindings::VI_BLCK_NPRIV as int,
            AccessPrivilege::D64Priv => bindings::VI_D64_PRIV as int,
            AccessPrivilege::D64NPriv => bindings::VI_D64_NPRIV as int,
        }
    }

    open spec fn denoted(raw: int) -> Option<Self> {
        if raw == bindings::VI_DATA_PRIV {
            Some(AccessPrivilege::DataPriv)
        } else if raw == bindings::VI_DATA_NPRIV {
            Some(AccessPrivilege::DataNPriv)
        } else if raw == bindings::VI_PROG_PRIV {
            Some(AccessPrivilege::ProgPriv)
        } else if raw == bindings::VI_PROG_NPRIV {
            Some(AccessPrivilege::ProgNPriv)
        } else if raw == bindings::VI_BLCK_PRIV {
            Some(AccessPrivilege::BlockPriv)
        } else if raw == bindings::VI_BLCK_NPRIV {
            Some(AccessPrivilege::BlockNPriv)
        } else if raw == bindings::VI_D64_PRIV {
            Some(AccessPrivilege::D64Priv)
        } else if raw == bindings::VI_D64_NPRIV {
            Some(AccessPrivilege::D64NPriv)
        } else {
            None
        }
    }

    fn from_vi(raw: i64) -> (value: Option<Self>) {
        if raw == bindings::VI_DATA_PRIV as i64 {
            Some(AccessPrivilege::DataPriv)
        } else if raw == bindings::VI_DATA_NPRIV as i64 {
            Some(AccessPrivilege::DataNPriv)
        } else if raw == bindings::VI_PROG_PRIV as i64 {
            Some(AccessPrivilege::ProgPriv)
        } else if raw == bindings::VI_PROG_NPRIV as i64 {
            Some(AccessPrivilege::ProgNPriv)
        } else if raw == bindings::VI_BLCK_PRIV as i64 {
            Some(AccessPrivilege::BlockPriv)
        } else if raw == bindings::VI_BLCK_NPRIV as i64 {
            Some(AccessPrivilege::BlockNPriv)
        } else if raw == bindings::VI_D64_PRIV as i64 {
            Some(AccessPrivilege::D64Priv)
        } else if raw == bindings::VI_D64_NPRIV as i64 {
            Some(AccessPrivilege::D64NPriv)
        } else {
            None
        }
    }

    proof fn lemma_denoted(raw: int) {
    }
}

impl AsViWritable for AccessPrivilege {
    open spec fn state(&self) -> ViAttrState {
        self.wire() as ViAttrState
    }

    fn as_vi(&self) -> (state: ViAttrState) {
        match self {
            AccessPrivilege::DataPriv => bindings::VI_DATA_PRIV as ViAttrState,
            AccessPrivilege::DataNPriv => bindings::VI_DATA_NPRIV as ViAttrState,
            AccessPrivilege::ProgPriv => bindings::VI_PROG_PRIV as ViAttrState,
            AccessPrivilege::ProgNPriv => bindings::VI_PROG_NPRIV as ViAttrState,
            AccessPrivilege::BlockPriv => bindings::VI_BLCK_PRIV as ViAttrState,
            AccessPrivilege::BlockNPriv => bindings::VI_BLCK_NPRIV as ViAttrState,
            AccessPrivilege::D64Priv => bindings::VI_D64_PRIV as ViAttrState,
            AccessPrivilege::D64NPriv => bindings::VI_D64_NPRIV as ViAttrState,
        }
    }

    proof fn lemma_state_narrows(&self, width: RawKind) {
    }
}

/// The byte order used in high-level bus accesses.
#[derive(Debug, Copy, Clone, PartialEq, Eq, Structural)]
pub enum ByteOrder {
    /// Most significant byte first.
    BigEndian,
    /// Least significant byte first.
    LittleEndian,
}

impl AsViReadable for ByteOrder {
    open spec fn wire(&self) -> int {
        match self {
            ByteOrder::BigEndian => bindings::VI_BIG_ENDIAN as int,
            ByteOrder::LittleEndian => bindings::VI_LITTLE_ENDIAN as int,
        }
    }

    open spec fn denoted(raw: int) -> Option<Self> {
        if raw == bindings::VI_BIG_ENDIAN {
            Some(ByteOrder::BigEndian)
        } else if raw == bindings::VI_LITTLE_ENDIAN {
            Some(ByteOrder::LittleEndian)
        } else {
            None
        }
    }

    fn from_vi(raw: i64) -> (value: Option<Self>) {
        if raw == bindings::VI_BIG_ENDIAN as i64 {
            Some(ByteOrder::BigEndian)
        } else if raw == bindings::VI_LITTLE_ENDIAN as i64 {
            Some(ByteOrder::LittleEndian)
        } else {
            None
        }
    }

    proof fn lemma_denoted(raw: int) {
    }
}

impl AsViWritable for ByteOrder {
    open spec fn state(&self) -> ViAttrState {
        self.wire() as ViAttrState
    }

    fn as_vi(&self) -> (state: ViAttrState) {
        match self {
            ByteOrder::BigEndian => bindings::VI_BIG_ENDIAN as ViAttrState,
            ByteOrder::LittleEndian => bindings::VI_LITTLE_ENDIAN as ViAttrState,
        }
    }

    proof fn lemma_state_narrows(&self, width: RawKind) {
    }
}

} // verus!
