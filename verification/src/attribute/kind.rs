//! The attribute kinds and the registry that gives each its descriptor.
//!
//! The registry is one total function from kind to descriptor: a kind that is
//! added without an entry does not compile. The identifiers are proved
//! distinct.
use crate::attribute::codec::{AttrValue, Codec};
use crate::attribute::raw::{RawKind, RawValue};
use crate::bindings;
use crate::bindings::{ViAttr, ViAttrState};
use crate::error::ErrorType;
use vstd::prelude::*;

verus! {

/// Every attribute kind, each named after its identifier in the VISA
/// specification.
#[derive(Debug, Copy, Clone, PartialEq, Eq, Structural)]
pub enum AttributeType {
    /// `VI_ATTR_RSRC_CLASS`
    RsrcClass,
    /// `VI_ATTR_RSRC_NAME`
    RsrcName,
    /// `VI_ATTR_RSRC_IMPL_VERSION`
    RsrcImplVersion,
    /// `VI_ATTR_RSRC_LOCK_STATE`
    RsrcLockState,
    /// `VI_ATTR_MAX_QUEUE_LENGTH`
    MaxQueueLength,
    /// `VI_ATTR_FDC_CHNL`
    FdcChnl,
    /// `VI_ATTR_FDC_MODE`
    FdcMode,
    /// `VI_ATTR_FDC_GEN_SIGNAL_EN`
    FdcGenSignalEn,
    /// `VI_ATTR_FDC_USE_PAIR`
    FdcUsePair,
    /// `VI_ATTR_SEND_END_EN`
    SendEndEn,
    /// `VI_ATTR_TERMCHAR`
    TermChar,
    /// `VI_ATTR_TMO_VALUE`
    TmoValue,
    /// `VI_ATTR_GPIB_READDR_EN`
    GpibReaddrEn,
    /// `VI_ATTR_IO_PROT`
    IoProt,
    /// `VI_ATTR_DMA_ALLOW_EN`
    DmaAllowEn,
    /// `VI_ATTR_ASRL_BAUD`
    AsrlBaud,
    /// `VI_ATTR_ASRL_DATA_BITS`
    AsrlDataBits,
    /// `VI_ATTR_ASRL_PARITY`
    AsrlParity,
    /// `VI_ATTR_ASRL_STOP_BITS`
    AsrlStopBits,
    /// `VI_ATTR_ASRL_FLOW_CNTRL`
    AsrlFlowCntrl,
    /// `VI_ATTR_RD_BUF_OPER_MODE`
    RdBufOperMode,
    /// `VI_ATTR_RD_BUF_SIZE`
    RdBufSize,
    /// `VI_ATTR_WR_BUF_OPER_MODE`
    WrBufOperMode,
    /// `VI_ATTR_WR_BUF_SIZE`
    WrBufSize,
    /// `VI_ATTR_SUPPRESS_END_EN`
    SuppressEndEn,
    /// `VI_ATTR_TERMCHAR_EN`
    TermCharEn,
    /// `VI_ATTR_DEST_ACCESS_PRIV`
    DestAccessPriv,
    /// `VI_ATTR_DEST_BYTE_ORDER`
    DestByteOrder,
    /// `VI_ATTR_SRC_ACCESS_PRIV`
    SrcAccessPriv,
    /// `VI_ATTR_SRC_BYTE_ORDER`
    SrcByteOrder,
    /// `VI_ATTR_SRC_INCREMENT`
    SrcIncrement,
    /// `VI_ATTR_DEST_INCREMENT`
    DestIncrement,
    /// `VI_ATTR_WIN_ACCESS_PRIV`
    WinAccessPriv,
    /// `VI_ATTR_WIN_BYTE_ORDER`
    WinByteOrder,
    /// `VI_ATTR_GPIB_ATN_STATE`
    GpibAtnState,
    /// `VI_ATTR_GPIB_ADDR_STATE`
    GpibAddrState,
    /// `VI_ATTR_GPIB_CIC_STATE`
    GpibCicState,
    /// `VI_ATTR_GPIB_NDAC_STATE`
    GpibNdacState,
    /// `VI_ATTR_GPIB_SRQ_STATE`
    GpibSrqState,
    /// `VI_ATTR_GPIB_SYS_CNTRL_STATE`
    GpibSysCntrlState,
    /// `VI_ATTR_GPIB_HS488_CBL_LEN`
    GpibHs488CblLen,
    /// `VI_ATTR_CMDR_LA`
    CmdrLa,
    /// `VI_ATTR_VXI_DEV_CLASS`
    VxiDevClass,
    /// `VI_ATTR_MAINFRAME_LA`
    MainframeLa,
    /// `VI_ATTR_MANF_NAME`
    ManfName,
    /// `VI_ATTR_MODEL_NAME`
    ModelName,
    /// `VI_ATTR_VXI_VME_INTR_STATUS`
    VxiVmeIntrStatus,
    /// `VI_ATTR_VXI_TRIG_STATUS`
    VxiTrigStatus,
    /// `VI_ATTR_VXI_VME_SYSFAIL_STATE`
    VxiVmeSysfailState,
    /// `VI_ATTR_ASRL_AVAIL_NUM`
    AsrlAvailNum,
    /// `VI_ATTR_ASRL_CTS_STATE`
    AsrlCtsState,
    /// `VI_ATTR_ASRL_DCD_STATE`
    AsrlDcdState,
    /// `VI_ATTR_ASRL_DSR_STATE`
    AsrlDsrState,
    /// `VI_ATTR_ASRL_DTR_STATE`
    AsrlDtrState,
    /// `VI_ATTR_ASRL_END_IN`
    AsrlEndIn,
    /// `VI_ATTR_ASRL_END_OUT`
    AsrlEndOut,
    /// `VI_ATTR_ASRL_REPLACE_CHAR`
    AsrlReplaceChar,
    /// `VI_ATTR_ASRL_RI_STATE`
    AsrlRiState,
    /// `VI_ATTR_ASRL_RTS_STATE`
    AsrlRtsState,
    /// `VI_ATTR_ASRL_XON_CHAR`
    AsrlXonChar,
    /// `VI_ATTR_ASRL_XOFF_CHAR`
    AsrlXoffChar,
    /// `VI_ATTR_WIN_ACCESS`
    WinAccess,
    /// `VI_ATTR_RM_SESSION`
    RmSession,
    /// `VI_ATTR_VXI_LA`
    VxiLa,
    /// `VI_ATTR_MANF_ID`
    ManfId,
    /// `VI_ATTR_MEM_SPACE`
    MemSpace,
    /// `VI_ATTR_MODEL_CODE`
    ModelCode,
    /// `VI_ATTR_SLOT`
    Slot,
    /// `VI_ATTR_INTF_INST_NAME`
    IntfInstName,
    /// `VI_ATTR_IMMEDIATE_SERV`
    ImmediateServ,
    /// `VI_ATTR_INTF_PARENT_NUM`
    IntfParentNum,
    /// `VI_ATTR_RSRC_SPEC_VERSION`
    RsrcSpecVersion,
    /// `VI_ATTR_INTF_TYPE`
    IntfType,
    /// `VI_ATTR_GPIB_PRIMARY_ADDR`
    GpibPrimaryAddr,
    /// `VI_ATTR_GPIB_SECONDARY_ADDR`
    GpibSecondaryAddr,
    /// `VI_ATTR_RSRC_MANF_NAME`
    RsrcManfName,
    /// `VI_ATTR_RSRC_MANF_ID`
    RsrcManfId,
    /// `VI_ATTR_INTF_NUM`
    IntfNum,
    /// `VI_ATTR_TRIG_ID`
    TrigId,
    /// `VI_ATTR_GPIB_REN_STATE`
    GpibRenState,
    /// `VI_ATTR_GPIB_UNADDR_EN`
    GpibUnaddrEn,
    /// `VI_ATTR_DEV_STATUS_BYTE`
    DevStatusByte,
    /// `VI_ATTR_FILE_APPEND_EN`
    FileAppendEn,
    /// `VI_ATTR_VXI_TRIG_SUPPORT`
    VxiTrigSupport,
    /// `VI_ATTR_TCPIP_ADDR`
    TcpipAddr,
    /// `VI_ATTR_TCPIP_HOSTNAME`
    TcpipHostname,
    /// `VI_ATTR_TCPIP_PORT`
    TcpipPort,
    /// `VI_ATTR_TCPIP_DEVICE_NAME`
    TcpipDeviceName,
    /// `VI_ATTR_TCPIP_NODELAY`
    TcpipNodelay,
    /// `VI_ATTR_TCPIP_KEEPALIVE`
    TcpipKeepalive,
    /// `VI_ATTR_4882_COMPLIANT`
    Is4882Compliant,
    /// `VI_ATTR_USB_SERIAL_NUM`
    UsbSerialNum,
    /// `VI_ATTR_USB_INTFC_NUM`
    UsbIntfcNum,
    /// `VI_ATTR_USB_PROTOCOL`
    UsbProtocol,
    /// `VI_ATTR_USB_MAX_INTR_SIZE`
    UsbMaxIntrSize,
    /// `VI_ATTR_PXI_DEV_NUM`
    PxiDevNum,
    /// `VI_ATTR_PXI_FUNC_NUM`
    PxiFuncNum,
    /// `VI_ATTR_PXI_BUS_NUM`
    PxiBusNum,
    /// `VI_ATTR_PXI_CHASSIS`
    PxiChassis,
    /// `VI_ATTR_PXI_SLOTPATH`
    PxiSlotpath,
    /// `VI_ATTR_PXI_SLOT_LBUS_LEFT`
    PxiSlotLbusLeft,
    /// `VI_ATTR_PXI_SLOT_LBUS_RIGHT`
    PxiSlotLbusRight,
    /// `VI_ATTR_PXI_TRIG_BUS`
    PxiTrigBus,
    /// `VI_ATTR_PXI_STAR_TRIG_BUS`
    PxiStarTrigBus,
    /// `VI_ATTR_PXI_STAR_TRIG_LINE`
    PxiStarTrigLine,
    /// `VI_ATTR_PXI_SRC_TRIG_BUS`
    PxiSrcTrigBus,
    /// `VI_ATTR_PXI_DEST_TRIG_BUS`
    PxiDestTrigBus,
    /// `VI_ATTR_PXI_MEM_TYPE_BAR0`
    PxiMemTypeBar0,
    /// `VI_ATTR_PXI_MEM_TYPE_BAR1`
    PxiMemTypeBar1,
    /// `VI_ATTR_PXI_MEM_TYPE_BAR2`
    PxiMemTypeBar2,
    /// `VI_ATTR_PXI_MEM_TYPE_BAR3`
    PxiMemTypeBar3,
    /// `VI_ATTR_PXI_MEM_TYPE_BAR4`
    PxiMemTypeBar4,
    /// `VI_ATTR_PXI_MEM_TYPE_BAR5`
    PxiMemTypeBar5,
    /// `VI_ATTR_PXI_IS_EXPRESS`
    PxiIsExpress,
    /// `VI_ATTR_PXI_SLOT_LWIDTH`
    PxiSlotLwidth,
    /// `VI_ATTR_PXI_MAX_LWIDTH`
    PxiMaxLwidth,
    /// `VI_ATTR_PXI_ACTUAL_LWIDTH`
    PxiActualLwidth,
    /// `VI_ATTR_PXI_DSTAR_BUS`
    PxiDstarBus,
    /// `VI_ATTR_PXI_DSTAR_SET`
    PxiDstarSet,
    /// `VI_ATTR_PXI_ALLOW_WRITE_COMBINE`
    PxiAllowWriteCombine,
    /// `VI_ATTR_TCPIP_HISLIP_OVERLAP_EN`
    TcpipHislipOverlapEn,
    /// `VI_ATTR_TCPIP_HISLIP_VERSION`
    TcpipHislipVersion,
    /// `VI_ATTR_TCPIP_HISLIP_MAX_MESSAGE_KB`
    TcpipHislipMaxMessageKb,
    /// `VI_ATTR_TCPIP_IS_HISLIP`
    TcpipIsHislip,
    /// `VI_ATTR_JOB_ID`
    JobId,
    /// `VI_ATTR_EVENT_TYPE`
    EventType,
    /// `VI_ATTR_SIGP_STATUS_ID`
    SigpStatusId,
    /// `VI_ATTR_RECV_TRIG_ID`
    RecvTrigId,
    /// `VI_ATTR_INTR_STATUS_ID`
    IntrStatusId,
    /// `VI_ATTR_RECV_INTR_LEVEL`
    RecvIntrLevel,
    /// `VI_ATTR_OPER_NAME`
    OperName,
    /// `VI_ATTR_GPIB_RECV_CIC_STATE`
    GpibRecvCicState,
    /// `VI_ATTR_RECV_TCPIP_ADDR`
    RecvTcpipAddr,
    /// `VI_ATTR_USB_RECV_INTR_SIZE`
    UsbRecvIntrSize,
    /// `VI_ATTR_USB_RECV_INTR_DATA`
    UsbRecvIntrData,
    /// `VI_ATTR_PXI_RECV_INTR_SEQ`
    PxiRecvIntrSeq,
    /// `VI_ATTR_PXI_RECV_INTR_DATA`
    PxiRecvIntrData,
    /// `VI_ATTR_USER_DATA`
    UserData,
    /// `VI_ATTR_RET_COUNT`
    RetCount,
    /// `VI_ATTR_WIN_BASE_ADDR`
    WinBaseAddr,
    /// `VI_ATTR_WIN_SIZE`
    WinSize,
    /// `VI_ATTR_MEM_BASE`
    MemBase,
    /// `VI_ATTR_MEM_SIZE`
    MemSize,
    /// `VI_ATTR_PXI_MEM_BASE_BAR0`
    PxiMemBaseBar0,
    /// `VI_ATTR_PXI_MEM_BASE_BAR1`
    PxiMemBaseBar1,
    /// `VI_ATTR_PXI_MEM_BASE_BAR2`
    PxiMemBaseBar2,
    /// `VI_ATTR_PXI_MEM_BASE_BAR3`
    PxiMemBaseBar3,
    /// `VI_ATTR_PXI_MEM_BASE_BAR4`
    PxiMemBaseBar4,
    /// `VI_ATTR_PXI_MEM_BASE_BAR5`
    PxiMemBaseBar5,
    /// `VI_ATTR_PXI_MEM_SIZE_BAR0`
    PxiMemSizeBar0,
    /// `VI_ATTR_PXI_MEM_SIZE_BAR1`
    PxiMemSizeBar1,
    /// `VI_ATTR_PXI_MEM_SIZE_BAR2`
    PxiMemSizeBar2,
    /// `VI_ATTR_PXI_MEM_SIZE_BAR3`
    PxiMemSizeBar3,
    /// `VI_ATTR_PXI_MEM_SIZE_BAR4`
    PxiMemSizeBar4,
    /// `VI_ATTR_PXI_MEM_SIZE_BAR5`
    PxiMemSizeBar5,
}

/// Whether an attribute can be written.
#[derive(Debug, Copy, Clone, PartialEq, Eq, Structural)]
pub enum Access {
    /// The attribute can only be read.
    ReadOnly,
    /// The attribute can be read and written.
    ReadWrite,
}

/// What the registry holds for one kind: its identifier and, where the kind
/// has typed access, its codec and capability. A kind without typed access is
/// reached through the raw accessors only.
#[derive(Debug, Copy, Clone, PartialEq, Eq)]
pub struct Descriptor {
    /// The identifier on the wire.
    pub id: ViAttr,
    /// The codec and the capability.
    pub typed: Option<(Codec, Access)>,
}

impl AttributeType {
    /// The registry.
    pub open spec fn spec_descriptor(self) -> Descriptor {
        match self {
            AttributeType::RsrcClass => Descriptor {
                id: bindings::VI_ATTR_RSRC_CLASS,
                typed: Some((Codec::Text, Access::ReadOnly)),
            },
            AttributeType::RsrcName => Descriptor {
                id: bindings::VI_ATTR_RSRC_NAME,
                typed: Some((Codec::Text, Access::ReadOnly)),
            },
            AttributeType::RsrcImplVersion => Descriptor {
                id: bindings::VI_ATTR_RSRC_IMPL_VERSION,
                typed: Some((Codec::U32, Access::ReadWrite)),
            },
            AttributeType::RsrcLockState => Descriptor {
                id: bindings::VI_ATTR_RSRC_LOCK_STATE,
                typed: Some((Codec::LockState, Access::ReadWrite)),
            },
            AttributeType::MaxQueueLength => Descriptor {
                id: bindings::VI_ATTR_MAX_QUEUE_LENGTH,
                typed: Some((Codec::U32, Access::ReadWrite)),
            },
            AttributeType::FdcChnl => Descriptor {
                id: bindings::VI_ATTR_FDC_CHNL,
                typed: Some((Codec::U16Upto(7), Access::ReadWrite)),
            },
            AttributeType::FdcMode => Descriptor {
                id: bindings::VI_ATTR_FDC_MODE,
                typed: Some((Codec::FdcMode, Access::ReadWrite)),
            },
            AttributeType::FdcGenSignalEn => Descriptor {
                id: bindings::VI_ATTR_FDC_GEN_SIGNAL_EN,
                typed: Some((Codec::Bool, Access::ReadWrite)),
            },
            AttributeType::FdcUsePair => Descriptor {
                id: bindings::VI_ATTR_FDC_USE_PAIR,
                typed: Some((Codec::Bool, Access::ReadWrite)),
            },
            AttributeType::SendEndEn => Descriptor {
                id: bindings::VI_ATTR_SEND_END_EN,
                typed: Some((Codec::Bool, Access::ReadWrite)),
            },
            AttributeType::TermChar => Descriptor {
                id: bindings::VI_ATTR_TERMCHAR,
                typed: Some((Codec::U8, Access::ReadWrite)),
            },
            AttributeType::TmoValue => Descriptor {
                id: bindings::VI_ATTR_TMO_VALUE,
                typed: Some((Codec::Timeout, Access::ReadWrite)),
            },
            AttributeType::GpibReaddrEn => Descriptor {
                id: bindings::VI_ATTR_GPIB_READDR_EN,
                typed: Some((Codec::Bool, Access::ReadWrite)),
            },
            AttributeType::IoProt => Descriptor {
                id: bindings::VI_ATTR_IO_PROT,
                typed: Some((Codec::U16, Access::ReadWrite)),
            },
            AttributeType::DmaAllowEn => Descriptor {
                id: bindings::VI_ATTR_DMA_ALLOW_EN,
                typed: Some((Codec::Bool, Access::ReadWrite)),
            },
            AttributeType::AsrlBaud => Descriptor {
                id: bindings::VI_ATTR_ASRL_BAUD,
                typed: Some((Codec::U32, Access::ReadWrite)),
            },
            AttributeType::AsrlDataBits => Descriptor {
                id: bindings::VI_ATTR_ASRL_DATA_BITS,
                typed: Some((Codec::U16, Access::ReadWrite)),
            },
            AttributeType::AsrlParity => Descriptor {
                id: bindings::VI_ATTR_ASRL_PARITY,
                typed: Some((Codec::Parity, Access::ReadWrite)),
            },
            AttributeType::AsrlStopBits => Descriptor {
                id: bindings::VI_ATTR_ASRL_STOP_BITS,
                typed: Some((Codec::StopBits, Access::ReadWrite)),
            },
            AttributeType::AsrlFlowCntrl => Descriptor {
                id: bindings::VI_ATTR_ASRL_FLOW_CNTRL,
                typed: Some((Codec::FlowCntrl, Access::ReadWrite)),
            },
            AttributeType::RdBufOperMode => Descriptor {
                id: bindings::VI_ATTR_RD_BUF_OPER_MODE,
                typed: Some((Codec::U16, Access::ReadWrite)),
            },
            AttributeType::RdBufSize => Descriptor {
                id: bindings::VI_ATTR_RD_BUF_SIZE,
                typed: Some((Codec::U32, Access::ReadOnly)),
            },
            AttributeType::WrBufOperMode => Descriptor {
                id: bindings::VI_ATTR_WR_BUF_OPER_MODE,
                typed: Some((Codec::WrBufOperMode, Access::ReadWrite)),
            },
            AttributeType::WrBufSize => Descriptor {
                id: bindings::VI_ATTR_WR_BUF_SIZE,
                typed: Some((Codec::U32, Access::ReadOnly)),
            },
            AttributeType::SuppressEndEn => Descriptor {
                id: bindings::VI_ATTR_SUPPRESS_END_EN,
                typed: Some((Codec::Bool, Access::ReadWrite)),
            },
            AttributeType::TermCharEn => Descriptor {
                id: bindings::VI_ATTR_TERMCHAR_EN,
                typed: Some((Codec::Bool, Access::ReadWrite)),
            },
            AttributeType::DestAccessPriv => Descriptor {
                id: bindings::VI_ATTR_DEST_ACCESS_PRIV,
                typed: Some((Codec::AccessPrivilege, Access::ReadWrite)),
            },
            AttributeType::DestByteOrder => Descriptor {
                id: bindings::VI_ATTR_DEST_BYTE_ORDER,
                typed: Some((Codec::ByteOrder, Access::ReadWrite)),
            },
            AttributeType::SrcAccessPriv => Descriptor {
                id: bindings::VI_ATTR_SRC_ACCESS_PRIV,
                typed: Some((Codec::AccessPrivilege, Access::ReadWrite)),
            },
            AttributeType::SrcByteOrder => Descriptor {
                id: bindings::VI_ATTR_SRC_BYTE_ORDER,
                typed: Some((Codec::ByteOrder, Access::ReadWrite)),
            },
            AttributeType::SrcIncrement => Descriptor {
                id: bindings::VI_ATTR_SRC_INCREMENT,
                typed: Some((Codec::Step, Access::ReadWrite)),
            },
            AttributeType::DestIncrement => Descriptor {
                id: bindings::VI_ATTR_DEST_INCREMENT,
                typed: Some((Codec::Step, Access::ReadWrite)),
            },
            AttributeType::WinAccessPriv => Descriptor {
                id: bindings::VI_ATTR_WIN_ACCESS_PRIV,
                typed: Some((Codec::AccessPrivilege, Access::ReadWrite)),
            },
            AttributeType::WinByteOrder => Descriptor {
                id: bindings::VI_ATTR_WIN_BYTE_ORDER,
                typed: Some((Codec::ByteOrder, Access::ReadWrite)),
            },
            AttributeType::GpibAtnState => Descriptor {
                id: bindings::VI_ATTR_GPIB_ATN_STATE,
                typed: Some((Codec::State16, Access::ReadOnly)),
            },
            AttributeType::GpibAddrState => Descriptor {
                id: bindings::VI_ATTR_GPIB_ADDR_STATE,
                typed: Some((Codec::AddrState, Access::ReadOnly)),
            },
            AttributeType::GpibCicState => Descriptor {
                id: bindings::VI_ATTR_GPIB_CIC_STATE,
                typed: Some((Codec::Bool, Access::ReadOnly)),
            },
            AttributeType::GpibNdacState => Descriptor {
                id: bindings::VI_ATTR_GPIB_NDAC_STATE,
                typed: Some((Codec::State16, Access::ReadOnly)),
            },
            AttributeType::GpibSrqState => Descriptor {
                id: bindings::VI_ATTR_GPIB_SRQ_STATE,
                typed: Some((Codec::State16, Access::ReadOnly)),
            },
            AttributeType::GpibSysCntrlState => Descriptor {
                id: bindings::VI_ATTR_GPIB_SYS_CNTRL_STATE,
                typed: Some((Codec::Bool, Access::ReadWrite)),
            },
            AttributeType::GpibHs488CblLen => Descriptor {
                id: bindings::VI_ATTR_GPIB_HS488_CBL_LEN,
                typed: Some((Codec::CableLength, Access::ReadWrite)),
            },
            AttributeType::CmdrLa => Descriptor {
                id: bindings::VI_ATTR_CMDR_LA,
                typed: Some((Codec::I16Upto(255), Access::ReadOnly)),
            },
            AttributeType::VxiDevClass => Descriptor {
                id: bindings::VI_ATTR_VXI_DEV_CLASS,
                typed: Some((Codec::DevClass, Access::ReadOnly)),
            },
            AttributeType::MainframeLa => Descriptor {
                id: bindings::VI_ATTR_MAINFRAME_LA,
                typed: Some((Codec::I16Upto(255), Access::ReadOnly)),
            },
            AttributeType::ManfName => Descriptor {
                id: bindings::VI_ATTR_MANF_NAME,
                typed: Some((Codec::Text, Access::ReadOnly)),
            },
            AttributeType::ModelName => Descriptor {
                id: bindings::VI_ATTR_MODEL_NAME,
                typed: Some((Codec::Text, Access::ReadOnly)),
            },
            AttributeType::VxiVmeIntrStatus => Descriptor {
                id: bindings::VI_ATTR_VXI_VME_INTR_STATUS,
                typed: Some((Codec::U16, Access::ReadOnly)),
            },
            AttributeType::VxiTrigStatus => Descriptor {
                id: bindings::VI_ATTR_VXI_TRIG_STATUS,
                typed: Some((Codec::U32, Access::ReadOnly)),
            },
            AttributeType::VxiVmeSysfailState => Descriptor {
                id: bindings::VI_ATTR_VXI_VME_SYSFAIL_STATE,
                typed: Some((Codec::State16, Access::ReadOnly)),
            },
            AttributeType::AsrlAvailNum => Descriptor {
                id: bindings::VI_ATTR_ASRL_AVAIL_NUM,
                typed: Some((Codec::U32, Access::ReadOnly)),
            },
            AttributeType::AsrlCtsState => Descriptor {
                id: bindings::VI_ATTR_ASRL_CTS_STATE,
                typed: Some((Codec::LineState, Access::ReadOnly)),
            },
            AttributeType::AsrlDcdState => Descriptor {
                id: bindings::VI_ATTR_ASRL_DCD_STATE,
                typed: Some((Codec::LineState, Access::ReadWrite)),
            },
            AttributeType::AsrlDsrState => Descriptor {
                id: bindings::VI_ATTR_ASRL_DSR_STATE,
                typed: Some((Codec::LineState, Access::ReadOnly)),
            },
            AttributeType::AsrlDtrState => Descriptor {
                id: bindings::VI_ATTR_ASRL_DTR_STATE,
                typed: Some((Codec::LineState, Access::ReadWrite)),
            },
            AttributeType::AsrlEndIn => Descriptor {
                id: bindings::VI_ATTR_ASRL_END_IN,
                typed: Some((Codec::EndIn, Access::ReadWrite)),
            },
            AttributeType::AsrlEndOut => Descriptor {
                id: bindings::VI_ATTR_ASRL_END_OUT,
                typed: Some((Codec::EndOut, Access::ReadWrite)),
            },
            AttributeType::AsrlReplaceChar => Descriptor {
                id: bindings::VI_ATTR_ASRL_REPLACE_CHAR,
                typed: Some((Codec::Char, Access::ReadWrite)),
            },
            AttributeType::AsrlRiState => Descriptor {
                id: bindings::VI_ATTR_ASRL_RI_STATE,
                typed: Some((Codec::LineState, Access::ReadWrite)),
            },
            AttributeType::AsrlRtsState => Descriptor {
                id: bindings::VI_ATTR_ASRL_RTS_STATE,
                typed: Some((Codec::LineState, Access::ReadWrite)),
            },
            AttributeType::AsrlXonChar => Descriptor {
                id: bindings::VI_ATTR_ASRL_XON_CHAR,
                typed: Some((Codec::Char, Access::ReadWrite)),
            },
            AttributeType::AsrlXoffChar => Descriptor {
                id: bindings::VI_ATTR_ASRL_XOFF_CHAR,
                typed: Some((Codec::Char, Access::ReadWrite)),
            },
            AttributeType::WinAccess => Descriptor {
                id: bindings::VI_ATTR_WIN_ACCESS,
                typed: None,
            },
            AttributeType::RmSession => Descriptor {
                id: bindings::VI_ATTR_RM_SESSION,
                typed: None,
            },
            AttributeType::VxiLa => Descriptor {
                id: bindings::VI_ATTR_VXI_LA,
                typed: Some((Codec::I16Upto(511), Access::ReadOnly)),
            },
            AttributeType::ManfId => Descriptor { id: bindings::VI_ATTR_MANF_ID, typed: None },
            AttributeType::MemSpace => Descriptor { id: bindings::VI_ATTR_MEM_SPACE, typed: None },
            AttributeType::ModelCode => Descriptor {
                id: bindings::VI_ATTR_MODEL_CODE,
                typed: None,
            },
            AttributeType::Slot => Descriptor { id: bindings::VI_ATTR_SLOT, typed: None },
            AttributeType::IntfInstName => Descriptor {
                id: bindings::VI_ATTR_INTF_INST_NAME,
                typed: None,
            },
            AttributeType::ImmediateServ => Descriptor {
                id: bindings::VI_ATTR_IMMEDIATE_SERV,
                typed: None,
            },
            AttributeType::IntfParentNum => Descriptor {
                id: bindings::VI_ATTR_INTF_PARENT_NUM,
                typed: None,
            },
            AttributeType::RsrcSpecVersion => Descriptor {
                id: bindings::VI_ATTR_RSRC_SPEC_VERSION,
                typed: Some((Codec::U32, Access::ReadOnly)),
            },
            AttributeType::IntfType => Descriptor {
                id: bindings::VI_ATTR_INTF_TYPE,
                typed: Some((Codec::Interface, Access::ReadOnly)),
            },
            AttributeType::GpibPrimaryAddr => Descriptor {
                id: bindings::VI_ATTR_GPIB_PRIMARY_ADDR,
                typed: Some((Codec::U16, Access::ReadWrite)),
            },
            AttributeType::GpibSecondaryAddr => Descriptor {
                id: bindings::VI_ATTR_GPIB_SECONDARY_ADDR,
                typed: Some((Codec::SecondaryAddr, Access::ReadWrite)),
            },
            AttributeType::RsrcManfName => Descriptor {
                id: bindings::VI_ATTR_RSRC_MANF_NAME,
                typed: Some((Codec::Text, Access::ReadOnly)),
            },
            AttributeType::RsrcManfId => Descriptor {
                id: bindings::VI_ATTR_RSRC_MANF_ID,
                typed: Some((Codec::U16, Access::ReadOnly)),
            },
            AttributeType::IntfNum => Descriptor {
                id: bindings::VI_ATTR_INTF_NUM,
                typed: Some((Codec::U16, Access::ReadOnly)),
            },
            AttributeType::TrigId => Descriptor { id: bindings::VI_ATTR_TRIG_ID, typed: None },
            AttributeType::GpibRenState => Descriptor {
                id: bindings::VI_ATTR_GPIB_REN_STATE,
                typed: Some((Codec::State32, Access::ReadOnly)),
            },
            AttributeType::GpibUnaddrEn => Descriptor {
                id: bindings::VI_ATTR_GPIB_UNADDR_EN,
                typed: Some((Codec::Bool, Access::ReadWrite)),
            },
            AttributeType::DevStatusByte => Descriptor {
                id: bindings::VI_ATTR_DEV_STATUS_BYTE,
                typed: Some((Codec::U8, Access::ReadWrite)),
            },
            AttributeType::FileAppendEn => Descriptor {
                id: bindings::VI_ATTR_FILE_APPEND_EN,
                typed: Some((Codec::Bool, Access::ReadWrite)),
            },
            AttributeType::VxiTrigSupport => Descriptor {
                id: bindings::VI_ATTR_VXI_TRIG_SUPPORT,
                typed: Some((Codec::U32, Access::ReadOnly)),
            },
            AttributeType::TcpipAddr => Descriptor {
                id: bindings::VI_ATTR_TCPIP_ADDR,
                typed: Some((Codec::Text, Access::ReadOnly)),
            },
            AttributeType::TcpipHostname => Descriptor {
                id: bindings::VI_ATTR_TCPIP_HOSTNAME,
                typed: Some((Codec::Text, Access::ReadOnly)),
            },
            AttributeType::TcpipPort => Descriptor {
                id: bindings::VI_ATTR_TCPIP_PORT,
                typed: Some((Codec::U16, Access::ReadOnly)),
            },
            AttributeType::TcpipDeviceName => Descriptor {
                id: bindings::VI_ATTR_TCPIP_DEVICE_NAME,
                typed: Some((Codec::Text, Access::ReadOnly)),
            },
            AttributeType::TcpipNodelay => Descriptor {
                id: bindings::VI_ATTR_TCPIP_NODELAY,
                typed: Some((Codec::Bool, Access::ReadWrite)),
            },
            AttributeType::TcpipKeepalive => Descriptor {
                id: bindings::VI_ATTR_TCPIP_KEEPALIVE,
                typed: Some((Codec::Bool, Access::ReadWrite)),
            },
            AttributeType::Is4882Compliant => Descriptor {
                id: bindings::VI_ATTR_4882_COMPLIANT,
                typed: Some((Codec::Bool, Access::ReadWrite)),
            },
            AttributeType::UsbSerialNum => Descriptor {
                id: bindings::VI_ATTR_USB_SERIAL_NUM,
                typed: Some((Codec::Text, Access::ReadOnly)),
            },
            AttributeType::UsbIntfcNum => Descriptor {
                id: bindings::VI_ATTR_USB_INTFC_NUM,
                typed: Some((Codec::I16, Access::ReadOnly)),
            },
            AttributeType::UsbProtocol => Descriptor {
                id: bindings::VI_ATTR_USB_PROTOCOL,
                typed: Some((Codec::I16, Access::ReadOnly)),
            },
            AttributeType::UsbMaxIntrSize => Descriptor {
                id: bindings::VI_ATTR_USB_MAX_INTR_SIZE,
                typed: Some((Codec::U16, Access::ReadWrite)),
            },
            AttributeType::PxiDevNum => Descriptor {
                id: bindings::VI_ATTR_PXI_DEV_NUM,
                typed: Some((Codec::I16Upto(511), Access::ReadOnly)),
            },
            AttributeType::PxiFuncNum => Descriptor {
                id: bindings::VI_ATTR_PXI_FUNC_NUM,
                typed: Some((Codec::U16Upto(7), Access::ReadOnly)),
            },
            AttributeType::PxiBusNum => Descriptor {
                id: bindings::VI_ATTR_PXI_BUS_NUM,
                typed: Some((Codec::U16Upto(255), Access::ReadOnly)),
            },
            AttributeType::PxiChassis => Descriptor {
                id: bindings::VI_ATTR_PXI_CHASSIS,
                typed: Some((Codec::I16Upto(255), Access::ReadOnly)),
            },
            AttributeType::PxiSlotpath => Descriptor {
                id: bindings::VI_ATTR_PXI_SLOTPATH,
                typed: Some((Codec::Text, Access::ReadOnly)),
            },
            AttributeType::PxiSlotLbusLeft => Descriptor {
                id: bindings::VI_ATTR_PXI_SLOT_LBUS_LEFT,
                typed: Some((Codec::SlotLBus, Access::ReadOnly)),
            },
            AttributeType::PxiSlotLbusRight => Descriptor {
                id: bindings::VI_ATTR_PXI_SLOT_LBUS_RIGHT,
                typed: Some((Codec::SlotLBus, Access::ReadOnly)),
            },
            AttributeType::PxiTrigBus => Descriptor {
                id: bindings::VI_ATTR_PXI_TRIG_BUS,
                typed: None,
            },
            AttributeType::PxiStarTrigBus => Descriptor {
                id: bindings::VI_ATTR_PXI_STAR_TRIG_BUS,
                typed: None,
            },
            AttributeType::PxiStarTrigLine => Descriptor {
                id: bindings::VI_ATTR_PXI_STAR_TRIG_LINE,
                typed: None,
            },
            AttributeType::PxiSrcTrigBus => Descriptor {
                id: bindings::VI_ATTR_PXI_SRC_TRIG_BUS,
                typed: None,
            },
            AttributeType::PxiDestTrigBus => Descriptor {
                id: bindings::VI_ATTR_PXI_DEST_TRIG_BUS,
                typed: None,
            },
            AttributeType::PxiMemTypeBar0 => Descriptor {
                id: bindings::VI_ATTR_PXI_MEM_TYPE_BAR0,
                typed: Some((Codec::U16, Access::ReadWrite)),
            },
            AttributeType::PxiMemTypeBar1 => Descriptor {
                id: bindings::VI_ATTR_PXI_MEM_TYPE_BAR1,
                typed: Some((Codec::U16, Access::ReadWrite)),
            },
            AttributeType::PxiMemTypeBar2 => Descriptor {
                id: bindings::VI_ATTR_PXI_MEM_TYPE_BAR2,
                typed: Some((Codec::U16, Access::ReadWrite)),
            },
            AttributeType::PxiMemTypeBar3 => Descriptor {
                id: bindings::VI_ATTR_PXI_MEM_TYPE_BAR3,
                typed: Some((Codec::U16, Access::ReadWrite)),
            },
            AttributeType::PxiMemTypeBar4 => Descriptor {
                id: bindings::VI_ATTR_PXI_MEM_TYPE_BAR4,
                typed: Some((Codec::U16, Access::ReadWrite)),
            },
            AttributeType::PxiMemTypeBar5 => Descriptor {
                id: bindings::VI_ATTR_PXI_MEM_TYPE_BAR5,
                typed: Some((Codec::U16, Access::ReadWrite)),
            },
            AttributeType::PxiIsExpress => Descriptor {
                id: bindings::VI_ATTR_PXI_IS_EXPRESS,
                typed: None,
            },
            AttributeType::PxiSlotLwidth => Descriptor {
                id: bindings::VI_ATTR_PXI_SLOT_LWIDTH,
                typed: None,
            },
            AttributeType::PxiMaxLwidth => Descriptor {
                id: bindings::VI_ATTR_PXI_MAX_LWIDTH,
                typed: None,
            },
            AttributeType::PxiActualLwidth => Descriptor {
                id: bindings::VI_ATTR_PXI_ACTUAL_LWIDTH,
                typed: None,
            },
            AttributeType::PxiDstarBus => Descriptor {
                id: bindings::VI_ATTR_PXI_DSTAR_BUS,
                typed: None,
            },
            AttributeType::PxiDstarSet => Descriptor {
                id: bindings::VI_ATTR_PXI_DSTAR_SET,
                typed: None,
            },
            AttributeType::PxiAllowWriteCombine => Descriptor {
                id: bindings::VI_ATTR_PXI_ALLOW_WRITE_COMBINE,
                typed: None,
            },
            AttributeType::TcpipHislipOverlapEn => Descriptor {
                id: bindings::VI_ATTR_TCPIP_HISLIP_OVERLAP_EN,
                typed: Some((Codec::Bool, Access::ReadWrite)),
            },
            AttributeType::TcpipHislipVersion => Descriptor {
                id: bindings::VI_ATTR_TCPIP_HISLIP_VERSION,
                typed: Some((Codec::U32, Access::ReadOnly)),
            },
            AttributeType::TcpipHislipMaxMessageKb => Descriptor {
                id: bindings::VI_ATTR_TCPIP_HISLIP_MAX_MESSAGE_KB,
                typed: Some((Codec::U32, Access::ReadWrite)),
            },
            AttributeType::TcpipIsHislip => Descriptor {
                id: bindings::VI_ATTR_TCPIP_IS_HISLIP,
                typed: Some((Codec::Bool, Access::ReadOnly)),
            },
            AttributeType::JobId => Descriptor { id: bindings::VI_ATTR_JOB_ID, typed: None },
            AttributeType::EventType => Descriptor {
                id: bindings::VI_ATTR_EVENT_TYPE,
                typed: None,
            },
            AttributeType::SigpStatusId => Descriptor {
                id: bindings::VI_ATTR_SIGP_STATUS_ID,
                typed: None,
            },
            AttributeType::RecvTrigId => Descriptor {
                id: bindings::VI_ATTR_RECV_TRIG_ID,
                typed: None,
            },
            AttributeType::IntrStatusId => Descriptor {
                id: bindings::VI_ATTR_INTR_STATUS_ID,
                typed: None,
            },
            AttributeType::RecvIntrLevel => Descriptor {
                id: bindings::VI_ATTR_RECV_INTR_LEVEL,
                typed: None,
            },
            AttributeType::OperName => Descriptor { id: bindings::VI_ATTR_OPER_NAME, typed: None },
            AttributeType::GpibRecvCicState => Descriptor {
                id: bindings::VI_ATTR_GPIB_RECV_CIC_STATE,
                typed: Some((Codec::Bool, Access::ReadOnly)),
            },
            AttributeType::RecvTcpipAddr => Descriptor {
                id: bindings::VI_ATTR_RECV_TCPIP_ADDR,
                typed: None,
            },
            AttributeType::UsbRecvIntrSize => Descriptor {
                id: bindings::VI_ATTR_USB_RECV_INTR_SIZE,
                typed: Some((Codec::U16, Access::ReadOnly)),
            },
            AttributeType::UsbRecvIntrData => Descriptor {
                id: bindings::VI_ATTR_USB_RECV_INTR_DATA,
                typed: Some((Codec::Bytes, Access::ReadOnly)),
            },
            AttributeType::PxiRecvIntrSeq => Descriptor {
                id: bindings::VI_ATTR_PXI_RECV_INTR_SEQ,
                typed: None,
            },
            AttributeType::PxiRecvIntrData => Descriptor {
                id: bindings::VI_ATTR_PXI_RECV_INTR_DATA,
                typed: None,
            },
            AttributeType::UserData => Descriptor { id: bindings::VI_ATTR_USER_DATA, typed: None },
            AttributeType::RetCount => Descriptor { id: bindings::VI_ATTR_RET_COUNT, typed: None },
            AttributeType::WinBaseAddr => Descriptor {
                id: bindings::VI_ATTR_WIN_BASE_ADDR,
                typed: None,
            },
            AttributeType::WinSize => Descriptor { id: bindings::VI_ATTR_WIN_SIZE, typed: None },
            AttributeType::MemBase => Descriptor {
                id: bindings::VI_ATTR_MEM_BASE,
                typed: Some((Codec::U64, Access::ReadOnly)),
            },
            AttributeType::MemSize => Descriptor {
                id: bindings::VI_ATTR_MEM_SIZE,
                typed: Some((Codec::U64, Access::ReadOnly)),
            },
            AttributeType::PxiMemBaseBar0 => Descriptor {
                id: bindings::VI_ATTR_PXI_MEM_BASE_BAR0,
                typed: Some((Codec::U32, Access::ReadOnly)),
            },
            AttributeType::PxiMemBaseBar1 => Descriptor {
                id: bindings::VI_ATTR_PXI_MEM_BASE_BAR1,
                typed: Some((Codec::U32, Access::ReadOnly)),
            },
            AttributeType::PxiMemBaseBar2 => Descriptor {
                id: bindings::VI_ATTR_PXI_MEM_BASE_BAR2,
                typed: Some((Codec::U32, Access::ReadOnly)),
            },
            AttributeType::PxiMemBaseBar3 => Descriptor {
                id: bindings::VI_ATTR_PXI_MEM_BASE_BAR3,
                typed: Some((Codec::U32, Access::ReadOnly)),
            },
            AttributeType::PxiMemBaseBar4 => Descriptor {
                id: bindings::VI_ATTR_PXI_MEM_BASE_BAR4,
                typed: Some((Codec::U32, Access::ReadOnly)),
            },
            AttributeType::PxiMemBaseBar5 => Descriptor {
                id: bindings::VI_ATTR_PXI_MEM_BASE_BAR5,
                typed: Some((Codec::U32, Access::ReadOnly)),
            },
            AttributeType::PxiMemSizeBar0 => Descriptor {
                id: bindings::VI_ATTR_PXI_MEM_SIZE_BAR0,
                typed: Some((Codec::U32, Access::ReadOnly)),
            },
            AttributeType::PxiMemSizeBar1 => Descriptor {
                id: bindings::VI_ATTR_PXI_MEM_SIZE_BAR1,
                typed: Some((Codec::U32, Access::ReadOnly)),
            },
            AttributeType::PxiMemSizeBar2 => Descriptor {
                id: bindings::VI_ATTR_PXI_MEM_SIZE_BAR2,
                typed: Some((Codec::U32, Access::ReadOnly)),
            },
            AttributeType::PxiMemSizeBar3 => Descriptor {
                id: bindings::VI_ATTR_PXI_MEM_SIZE_BAR3,
                typed: Some((Codec::U32, Access::ReadOnly)),
            },
            AttributeType::PxiMemSizeBar4 => Descriptor {
                id: bindings::VI_ATTR_PXI_MEM_SIZE_BAR4,
                typed: Some((Codec::U32, Access::ReadOnly)),
            },
            AttributeType::PxiMemSizeBar5 => Descriptor {
                id: bindings::VI_ATTR_PXI_MEM_SIZE_BAR5,
                typed: Some((Codec::U32, Access::ReadOnly)),
            },
        }
    }

    /// The registry.
    #[verifier::when_used_as_spec(spec_descriptor)]
    pub fn descriptor(self) -> (descriptor: Descriptor)
        ensures
            descriptor == self.spec_descriptor(),
    {
        match self {
            AttributeType::RsrcClass => Descriptor {
                id: bindings::VI_ATTR_RSRC_CLASS,
                typed: Some((Codec::Text, Access::ReadOnly)),
            },
            AttributeType::RsrcName => Descriptor {
                id: bindings::VI_ATTR_RSRC_NAME,
                typed: Some((Codec::Text, Access::ReadOnly)),
            },
            AttributeType::RsrcImplVersion => Descriptor {
                id: bindings::VI_ATTR_RSRC_IMPL_VERSION,
                typed: Some((Codec::U32, Access::ReadWrite)),
            },
            AttributeType::RsrcLockState => Descriptor {
                id: bindings::VI_ATTR_RSRC_LOCK_STATE,
                typed: Some((Codec::LockState, Access::ReadWrite)),
            },
            AttributeType::MaxQueueLength => Descriptor {
                id: bindings::VI_ATTR_MAX_QUEUE_LENGTH,
                typed: Some((Codec::U32, Access::ReadWrite)),
            },
            AttributeType::FdcChnl => Descriptor {
                id: bindings::VI_ATTR_FDC_CHNL,
                typed: Some((Codec::U16Upto(7), Access::ReadWrite)),
            },
            AttributeType::FdcMode => Descriptor {
                id: bindings::VI_ATTR_FDC_MODE,
                typed: Some((Codec::FdcMode, Access::ReadWrite)),
            },
            AttributeType::FdcGenSignalEn => Descriptor {
                id: bindings::VI_ATTR_FDC_GEN_SIGNAL_EN,
                typed: Some((Codec::Bool, Access::ReadWrite)),
            },
            AttributeType::FdcUsePair => Descriptor {
                id: bindings::VI_ATTR_FDC_USE_PAIR,
                typed: Some((Codec::Bool, Access::ReadWrite)),
            },
            AttributeType::SendEndEn => Descriptor {
                id: bindings::VI_ATTR_SEND_END_EN,
                typed: Some((Codec::Bool, Access::ReadWrite)),
            },
            AttributeType::TermChar => Descriptor {
                id: bindings::VI_ATTR_TERMCHAR,
                typed: Some((Codec::U8, Access::ReadWrite)),
            },
            AttributeType::TmoValue => Descriptor {
                id: bindings::VI_ATTR_TMO_VALUE,
                typed: Some((Codec::Timeout, Access::ReadWrite)),
            },
            AttributeType::GpibReaddrEn => Descriptor {
                id: bindings::VI_ATTR_GPIB_READDR_EN,
                typed: Some((Codec::Bool, Access::ReadWrite)),
            },
            AttributeType::IoProt => Descriptor {
                id: bindings::VI_ATTR_IO_PROT,
                typed: Some((Codec::U16, Access::ReadWrite)),
            },
            AttributeType::DmaAllowEn => Descriptor {
                id: bindings::VI_ATTR_DMA_ALLOW_EN,
                typed: Some((Codec::Bool, Access::ReadWrite)),
            },
            AttributeType::AsrlBaud => Descriptor {
                id: bindings::VI_ATTR_ASRL_BAUD,
                typed: Some((Codec::U32, Access::ReadWrite)),
            },
            AttributeType::AsrlDataBits => Descriptor {
                id: bindings::VI_ATTR_ASRL_DATA_BITS,
                typed: Some((Codec::U16, Access::ReadWrite)),
            },
            AttributeType::AsrlParity => Descriptor {
                id: bindings::VI_ATTR_ASRL_PARITY,
                typed: Some((Codec::Parity, Access::ReadWrite)),
            },
            AttributeType::AsrlStopBits => Descriptor {
                id: bindings::VI_ATTR_ASRL_STOP_BITS,
                typed: Some((Codec::StopBits, Access::ReadWrite)),
            },
            AttributeType::AsrlFlowCntrl => Descriptor {
                id: bindings::VI_ATTR_ASRL_FLOW_CNTRL,
                typed: Some((Codec::FlowCntrl, Access::ReadWrite)),
            },
            AttributeType::RdBufOperMode => Descriptor {
                id: bindings::VI_ATTR_RD_BUF_OPER_MODE,
                typed: Some((Codec::U16, Access::ReadWrite)),
            },
            AttributeType::RdBufSize => Descriptor {
                id: bindings::VI_ATTR_RD_BUF_SIZE,
                typed: Some((Codec::U32, Access::ReadOnly)),
            },
            AttributeType::WrBufOperMode => Descriptor {
                id: bindings::VI_ATTR_WR_BUF_OPER_MODE,
                typed: Some((Codec::WrBufOperMode, Access::ReadWrite)),
            },
            AttributeType::WrBufSize => Descriptor {
                id: bindings::VI_ATTR_WR_BUF_SIZE,
                typed: Some((Codec::U32, Access::ReadOnly)),
            },
            AttributeType::SuppressEndEn => Descriptor {
                id: bindings::VI_ATTR_SUPPRESS_END_EN,
                typed: Some((Codec::Bool, Access::ReadWrite)),
            },
            AttributeType::TermCharEn => Descriptor {
                id: bindings::VI_ATTR_TERMCHAR_EN,
                typed: Some((Codec::Bool, Access::ReadWrite)),
            },
            AttributeType::DestAccessPriv => Descriptor {
                id: bindings::VI_ATTR_DEST_ACCESS_PRIV,
                typed: Some((Codec::AccessPrivilege, Access::ReadWrite)),
            },
            AttributeType::DestByteOrder => Descriptor {
                id: bindings::VI_ATTR_DEST_BYTE_ORDER,
                typed: Some((Codec::ByteOrder, Access::ReadWrite)),
            },
            AttributeType::SrcAccessPriv => Descriptor {
                id: bindings::VI_ATTR_SRC_ACCESS_PRIV,
                typed: Some((Codec::AccessPrivilege, Access::ReadWrite)),
            },
            AttributeType::SrcByteOrder => Descriptor {
                id: bindings::VI_ATTR_SRC_BYTE_ORDER,
                typed: Some((Codec::ByteOrder, Access::ReadWrite)),
            },
            AttributeType::SrcIncrement => Descriptor {
                id: bindings::VI_ATTR_SRC_INCREMENT,
                typed: Some((Codec::Step, Access::ReadWrite)),
            },
            AttributeType::DestIncrement => Descriptor {
                id: bindings::VI_ATTR_DEST_INCREMENT,
                typed: Some((Codec::Step, Access::ReadWrite)),
            },
            AttributeType::WinAccessPriv => Descriptor {
                id: bindings::VI_ATTR_WIN_ACCESS_PRIV,
                typed: Some((Codec::AccessPrivilege, Access::ReadWrite)),
            },
            AttributeType::WinByteOrder => Descriptor {
                id: bindings::VI_ATTR_WIN_BYTE_ORDER,
                typed: Some((Codec::ByteOrder, Access::ReadWrite)),
            },
            AttributeType::GpibAtnState => Descriptor {
                id: bindings::VI_ATTR_GPIB_ATN_STATE,
                typed: Some((Codec::State16, Access::ReadOnly)),
            },
            AttributeType::GpibAddrState => Descriptor {
                id: bindings::VI_ATTR_GPIB_ADDR_STATE,
                typed: Some((Codec::AddrState, Access::ReadOnly)),
            },
            AttributeType::GpibCicState => Descriptor {
                id: bindings::VI_ATTR_GPIB_CIC_STATE,
                typed: Some((Codec::Bool, Access::ReadOnly)),
            },
            AttributeType::GpibNdacState => Descriptor {
                id: bindings::VI_ATTR_GPIB_NDAC_STATE,
                typed: Some((Codec::State16, Access::ReadOnly)),
            },
            AttributeType::GpibSrqState => Descriptor {
                id: bindings::VI_ATTR_GPIB_SRQ_STATE,
                typed: Some((Codec::State16, Access::ReadOnly)),
            },
            AttributeType::GpibSysCntrlState => Descriptor {
                id: bindings::VI_ATTR_GPIB_SYS_CNTRL_STATE,
                typed: Some((Codec::Bool, Access::ReadWrite)),
            },
            AttributeType::GpibHs488CblLen => Descriptor {
                id: bindings::VI_ATTR_GPIB_HS488_CBL_LEN,
                typed: Some((Codec::CableLength, Access::ReadWrite)),
            },
            AttributeType::CmdrLa => Descriptor {
                id: bindings::VI_ATTR_CMDR_LA,
                typed: Some((Codec::I16Upto(255), Access::ReadOnly)),
            },
            AttributeType::VxiDevClass => Descriptor {
                id: bindings::VI_ATTR_VXI_DEV_CLASS,
                typed: Some((Codec::DevClass, Access::ReadOnly)),
            },
            AttributeType::MainframeLa => Descriptor {
                id: bindings::VI_ATTR_MAINFRAME_LA,
                typed: Some((Codec::I16Upto(255), Access::ReadOnly)),
            },
            AttributeType::ManfName => Descriptor {
                id: bindings::VI_ATTR_MANF_NAME,
                typed: Some((Codec::Text, Access::ReadOnly)),
            },
            AttributeType::ModelName => Descriptor {
                id: bindings::VI_ATTR_MODEL_NAME,
                typed: Some((Codec::Text, Access::ReadOnly)),
            },
            AttributeType::VxiVmeIntrStatus => Descriptor {
                id: bindings::VI_ATTR_VXI_VME_INTR_STATUS,
                typed: Some((Codec::U16, Access::ReadOnly)),
            },
            AttributeType::VxiTrigStatus => Descriptor {
                id: bindings::VI_ATTR_VXI_TRIG_STATUS,
                typed: Some((Codec::U32, Access::ReadOnly)),
            },
            AttributeType::VxiVmeSysfailState => Descriptor {
                id: bindings::VI_ATTR_VXI_VME_SYSFAIL_STATE,
                typed: Some((Codec::State16, Access::ReadOnly)),
            },
            AttributeType::AsrlAvailNum => Descriptor {
                id: bindings::VI_ATTR_ASRL_AVAIL_NUM,
                typed: Some((Codec::U32, Access::ReadOnly)),
            },
            AttributeType::AsrlCtsState => Descriptor {
                id: bindings::VI_ATTR_ASRL_CTS_STATE,
                typed: Some((Codec::LineState, Access::ReadOnly)),
            },
            AttributeType::AsrlDcdState => Descriptor {
                id: bindings::VI_ATTR_ASRL_DCD_STATE,
                typed: Some((Codec::LineState, Access::ReadWrite)),
            },
            AttributeType::AsrlDsrState => Descriptor {
                id: bindings::VI_ATTR_ASRL_DSR_STATE,
                typed: Some((Codec::LineState, Access::ReadOnly)),
            },
            AttributeType::AsrlDtrState => Descriptor {
                id: bindings::VI_ATTR_ASRL_DTR_STATE,
                typed: Some((Codec::LineState, Access::ReadWrite)),
            },
            AttributeType::AsrlEndIn => Descriptor {
                id: bindings::VI_ATTR_ASRL_END_IN,
                typed: Some((Codec::EndIn, Access::ReadWrite)),
            },
            AttributeType::AsrlEndOut => Descriptor {
                id: bindings::VI_ATTR_ASRL_END_OUT,
                typed: Some((Codec::EndOut, Access::ReadWrite)),
            },
            AttributeType::AsrlReplaceChar => Descriptor {
                id: bindings::VI_ATTR_ASRL_REPLACE_CHAR,
                typed: Some((Codec::Char, Access::ReadWrite)),
            },
            AttributeType::AsrlRiState => Descriptor {
                id: bindings::VI_ATTR_ASRL_RI_STATE,
                typed: Some((Codec::LineState, Access::ReadWrite)),
            },
            AttributeType::AsrlRtsState => Descriptor {
                id: bindings::VI_ATTR_ASRL_RTS_STATE,
                typed: Some((Codec::LineState, Access::ReadWrite)),
            },
            AttributeType::AsrlXonChar => Descriptor {
                id: bindings::VI_ATTR_ASRL_XON_CHAR,
                typed: Some((Codec::Char, Access::ReadWrite)),
            },
            AttributeType::AsrlXoffChar => Descriptor {
                id: bindings::VI_ATTR_ASRL_XOFF_CHAR,
                typed: Some((Codec::Char, Access::ReadWrite)),
            },
            AttributeType::WinAccess => Descriptor {
                id: bindings::VI_ATTR_WIN_ACCESS,
                typed: None,
            },
            AttributeType::RmSession => Descriptor {
                id: bindings::VI_ATTR_RM_SESSION,
                typed: None,
            },
            AttributeType::VxiLa => Descriptor {
                id: bindings::VI_ATTR_VXI_LA,
                typed: Some((Codec::I16Upto(511), Access::ReadOnly)),
            },
            AttributeType::ManfId => Descriptor { id: bindings::VI_ATTR_MANF_ID, typed: None },
            AttributeType::MemSpace => Descriptor { id: bindings::VI_ATTR_MEM_SPACE, typed: None },
            AttributeType::ModelCode => Descriptor {
                id: bindings::VI_ATTR_MODEL_CODE,
                typed: None,
            },
            AttributeType::Slot => Descriptor { id: bindings::VI_ATTR_SLOT, typed: None },
            AttributeType::IntfInstName => Descriptor {
                id: bindings::VI_ATTR_INTF_INST_NAME,
                typed: None,
            },
            AttributeType::ImmediateServ => Descriptor {
                id: bindings::VI_ATTR_IMMEDIATE_SERV,
                typed: None,
            },
            AttributeType::IntfParentNum => Descriptor {
                id: bindings::VI_ATTR_INTF_PARENT_NUM,
                typed: None,
            },
            AttributeType::RsrcSpecVersion => Descriptor {
                id: bindings::VI_ATTR_RSRC_SPEC_VERSION,
                typed: Some((Codec::U32, Access::ReadOnly)),
            },
            AttributeType::IntfType => Descriptor {
                id: bindings::VI_ATTR_INTF_TYPE,
                typed: Some((Codec::Interface, Access::ReadOnly)),
            },
            AttributeType::GpibPrimaryAddr => Descriptor {
                id: bindings::VI_ATTR_GPIB_PRIMARY_ADDR,
                typed: Some((Codec::U16, Access::ReadWrite)),
            },
            AttributeType::GpibSecondaryAddr => Descriptor {
                id: bindings::VI_ATTR_GPIB_SECONDARY_ADDR,
                typed: Some((Codec::SecondaryAddr, Access::ReadWrite)),
            },
            AttributeType::RsrcManfName => Descriptor {
                id: bindings::VI_ATTR_RSRC_MANF_NAME,
                typed: Some((Codec::Text, Access::ReadOnly)),
            },
            AttributeType::RsrcManfId => Descriptor {
                id: bindings::VI_ATTR_RSRC_MANF_ID,
                typed: Some((Codec::U16, Access::ReadOnly)),
            },
            AttributeType::IntfNum => Descriptor {
                id: bindings::VI_ATTR_INTF_NUM,
                typed: Some((Codec::U16, Access::ReadOnly)),
            },
            AttributeType::TrigId => Descriptor { id: bindings::VI_ATTR_TRIG_ID, typed: None },
            AttributeType::GpibRenState => Descriptor {
                id: bindings::VI_ATTR_GPIB_REN_STATE,
                typed: Some((Codec::State32, Access::ReadOnly)),
            },
            AttributeType::GpibUnaddrEn => Descriptor {
                id: bindings::VI_ATTR_GPIB_UNADDR_EN,
                typed: Some((Codec::Bool, Access::ReadWrite)),
            },
            AttributeType::DevStatusByte => Descriptor {
                id: bindings::VI_ATTR_DEV_STATUS_BYTE,
                typed: Some((Codec::U8, Access::ReadWrite)),
            },
            AttributeType::FileAppendEn => Descriptor {
                id: bindings::VI_ATTR_FILE_APPEND_EN,
                typed: Some((Codec::Bool, Access::ReadWrite)),
            },
            AttributeType::VxiTrigSupport => Descriptor {
                id: bindings::VI_ATTR_VXI_TRIG_SUPPORT,
                typed: Some((Codec::U32, Access::ReadOnly)),
            },
            AttributeType::TcpipAddr => Descriptor {
                id: bindings::VI_ATTR_TCPIP_ADDR,
                typed: Some((Codec::Text, Access::ReadOnly)),
            },
            AttributeType::TcpipHostname => Descriptor {
                id: bindings::VI_ATTR_TCPIP_HOSTNAME,
                typed: Some((Codec::Text, Access::ReadOnly)),
            },
            AttributeType::TcpipPort => Descriptor {
                id: bindings::VI_ATTR_TCPIP_PORT,
                typed: Some((Codec::U16, Access::ReadOnly)),
            },
            AttributeType::TcpipDeviceName => Descriptor {
                id: bindings::VI_ATTR_TCPIP_DEVICE_NAME,
                typed: Some((Codec::Text, Access::ReadOnly)),
            },
            AttributeType::TcpipNodelay => Descriptor {
                id: bindings::VI_ATTR_TCPIP_NODELAY,
                typed: Some((Codec::Bool, Access::ReadWrite)),
            },
            AttributeType::TcpipKeepalive => Descriptor {
                id: bindings::VI_ATTR_TCPIP_KEEPALIVE,
                typed: Some((Codec::Bool, Access::ReadWrite)),
            },
            AttributeType::Is4882Compliant => Descriptor {
                id: bindings::VI_ATTR_4882_COMPLIANT,
                typed: Some((Codec::Bool, Access::ReadWrite)),
            },
            AttributeType::UsbSerialNum => Descriptor {
                id: bindings::VI_ATTR_USB_SERIAL_NUM,
                typed: Some((Codec::Text, Access::ReadOnly)),
            },
            AttributeType::UsbIntfcNum => Descriptor {
                id: bindings::VI_ATTR_USB_INTFC_NUM,
                typed: Some((Codec::I16, Access::ReadOnly)),
            },
            AttributeType::UsbProtocol => Descriptor {
                id: bindings::VI_ATTR_USB_PROTOCOL,
                typed: Some((Codec::I16, Access::ReadOnly)),
            },
            AttributeType::UsbMaxIntrSize => Descriptor {
                id: bindings::VI_ATTR_USB_MAX_INTR_SIZE,
                typed: Some((Codec::U16, Access::ReadWrite)),
            },
            AttributeType::PxiDevNum => Descriptor {
                id: bindings::VI_ATTR_PXI_DEV_NUM,
                typed: Some((Codec::I16Upto(511), Access::ReadOnly)),
            },
            AttributeType::PxiFuncNum => Descriptor {
                id: bindings::VI_ATTR_PXI_FUNC_NUM,
                typed: Some((Codec::U16Upto(7), Access::ReadOnly)),
            },
            AttributeType::PxiBusNum => Descriptor {
                id: bindings::VI_ATTR_PXI_BUS_NUM,
                typed: Some((Codec::U16Upto(255), Access::ReadOnly)),
            },
            AttributeType::PxiChassis => Descriptor {
                id: bindings::VI_ATTR_PXI_CHASSIS,
                typed: Some((Codec::I16Upto(255), Access::ReadOnly)),
            },
            AttributeType::PxiSlotpath => Descriptor {
                id: bindings::VI_ATTR_PXI_SLOTPATH,
                typed: Some((Codec::Text, Access::ReadOnly)),
            },
            AttributeType::PxiSlotLbusLeft => Descriptor {
                id: bindings::VI_ATTR_PXI_SLOT_LBUS_LEFT,
                typed: Some((Codec::SlotLBus, Access::ReadOnly)),
            },
            AttributeType::PxiSlotLbusRight => Descriptor {
                id: bindings::VI_ATTR_PXI_SLOT_LBUS_RIGHT,
                typed: Some((Codec::SlotLBus, Access::ReadOnly)),
            },
            AttributeType::PxiTrigBus => Descriptor {
                id: bindings::VI_ATTR_PXI_TRIG_BUS,
                typed: None,
            },
            AttributeType::PxiStarTrigBus => Descriptor {
                id: bindings::VI_ATTR_PXI_STAR_TRIG_BUS,
                typed: None,
            },
            AttributeType::PxiStarTrigLine => Descriptor {
                id: bindings::VI_ATTR_PXI_STAR_TRIG_LINE,
                typed: None,
            },
            AttributeType::PxiSrcTrigBus => Descriptor {
                id: bindings::VI_ATTR_PXI_SRC_TRIG_BUS,
                typed: None,
            },
            AttributeType::PxiDestTrigBus => Descriptor {
                id: bindings::VI_ATTR_PXI_DEST_TRIG_BUS,
                typed: None,
            },
            AttributeType::PxiMemTypeBar0 => Descriptor {
                id: bindings::VI_ATTR_PXI_MEM_TYPE_BAR0,
                typed: Some((Codec::U16, Access::ReadWrite)),
            },
            AttributeType::PxiMemTypeBar1 => Descriptor {
                id: bindings::VI_ATTR_PXI_MEM_TYPE_BAR1,
                typed: Some((Codec::U16, Access::ReadWrite)),
            },
            AttributeType::PxiMemTypeBar2 => Descriptor {
                id: bindings::VI_ATTR_PXI_MEM_TYPE_BAR2,
                typed: Some((Codec::U16, Access::ReadWrite)),
            },
            AttributeType::PxiMemTypeBar3 => Descriptor {
                id: bindings::VI_ATTR_PXI_MEM_TYPE_BAR3,
                typed: Some((Codec::U16, Access::ReadWrite)),
            },
            AttributeType::PxiMemTypeBar4 => Descriptor {
                id: bindings::VI_ATTR_PXI_MEM_TYPE_BAR4,
                typed: Some((Codec::U16, Access::ReadWrite)),
            },
            AttributeType::PxiMemTypeBar5 => Descriptor {
                id: bindings::VI_ATTR_PXI_MEM_TYPE_BAR5,
                typed: Some((Codec::U16, Access::ReadWrite)),
            },
            AttributeType::PxiIsExpress => Descriptor {
                id: bindings::VI_ATTR_PXI_IS_EXPRESS,
                typed: None,
            },
            AttributeType::PxiSlotLwidth => Descriptor {
                id: bindings::VI_ATTR_PXI_SLOT_LWIDTH,
                typed: None,
            },
            AttributeType::PxiMaxLwidth => Descriptor {
                id: bindings::VI_ATTR_PXI_MAX_LWIDTH,
                typed: None,
            },
            AttributeType::PxiActualLwidth => Descriptor {
                id: bindings::VI_ATTR_PXI_ACTUAL_LWIDTH,
                typed: None,
            },
            AttributeType::PxiDstarBus => Descriptor {
                id: bindings::VI_ATTR_PXI_DSTAR_BUS,
                typed: None,
            },
            AttributeType::PxiDstarSet => Descriptor {
                id: bindings::VI_ATTR_PXI_DSTAR_SET,
                typed: None,
            },
            AttributeType::PxiAllowWriteCombine => Descriptor {
                id: bindings::VI_ATTR_PXI_ALLOW_WRITE_COMBINE,
                typed: None,
            },
            AttributeType::TcpipHislipOverlapEn => Descriptor {
                id: bindings::VI_ATTR_TCPIP_HISLIP_OVERLAP_EN,
                typed: Some((Codec::Bool, Access::ReadWrite)),
            },
            AttributeType::TcpipHislipVersion => Descriptor {
                id: bindings::VI_ATTR_TCPIP_HISLIP_VERSION,
                typed: Some((Codec::U32, Access::ReadOnly)),
            },
            AttributeType::TcpipHislipMaxMessageKb => Descriptor {
                id: bindings::VI_ATTR_TCPIP_HISLIP_MAX_MESSAGE_KB,
                typed: Some((Codec::U32, Access::ReadWrite)),
            },
            AttributeType::TcpipIsHislip => Descriptor {
                id: bindings::VI_ATTR_TCPIP_IS_HISLIP,
                typed: Some((Codec::Bool, Access::ReadOnly)),
            },
            AttributeType::JobId => Descriptor { id: bindings::VI_ATTR_JOB_ID, typed: None },
            AttributeType::EventType => Descriptor {
                id: bindings::VI_ATTR_EVENT_TYPE,
                typed: None,
            },
            AttributeType::SigpStatusId => Descriptor {
                id: bindings::VI_ATTR_SIGP_STATUS_ID,
                typed: None,
            },
            AttributeType::RecvTrigId => Descriptor {
                id: bindings::VI_ATTR_RECV_TRIG_ID,
                typed: None,
            },
            AttributeType::IntrStatusId => Descriptor {
                id: bindings::VI_ATTR_INTR_STATUS_ID,
                typed: None,
            },
            AttributeType::RecvIntrLevel => Descriptor {
                id: bindings::VI_ATTR_RECV_INTR_LEVEL,
                typed: None,
            },
            AttributeType::OperName => Descriptor { id: bindings::VI_ATTR_OPER_NAME, typed: None },
            AttributeType::GpibRecvCicState => Descriptor {
                id: bindings::VI_ATTR_GPIB_RECV_CIC_STATE,
                typed: Some((Codec::Bool, Access::ReadOnly)),
            },
            AttributeType::RecvTcpipAddr => Descriptor {
                id: bindings::VI_ATTR_RECV_TCPIP_ADDR,
                typed: None,
            },
            AttributeType::UsbRecvIntrSize => Descriptor {
                id: bindings::VI_ATTR_USB_RECV_INTR_SIZE,
                typed: Some((Codec::U16, Access::ReadOnly)),
            },
            AttributeType::UsbRecvIntrData => Descriptor {
                id: bindings::VI_ATTR_USB_RECV_INTR_DATA,
                typed: Some((Codec::Bytes, Access::ReadOnly)),
            },
            AttributeType::PxiRecvIntrSeq => Descriptor {
                id: bindings::VI_ATTR_PXI_RECV_INTR_SEQ,
                typed: None,
            },
            AttributeType::PxiRecvIntrData => Descriptor {
                id: bindings::VI_ATTR_PXI_RECV_INTR_DATA,
                typed: None,
            },
            AttributeType::UserData => Descriptor { id: bindings::VI_ATTR_USER_DATA, typed: None },
            AttributeType::RetCount => Descriptor { id: bindings::VI_ATTR_RET_COUNT, typed: None },
            AttributeType::WinBaseAddr => Descriptor {
                id: bindings::VI_ATTR_WIN_BASE_ADDR,
                typed: None,
            },
            AttributeType::WinSize => Descriptor { id: bindings::VI_ATTR_WIN_SIZE, typed: None },
            AttributeType::MemBase => Descriptor {
                id: bindings::VI_ATTR_MEM_BASE,
                typed: Some((Codec::U64, Access::ReadOnly)),
            },
            AttributeType::MemSize => Descriptor {
                id: bindings::VI_ATTR_MEM_SIZE,
                typed: Some((Codec::U64, Access::ReadOnly)),
            },
            AttributeType::PxiMemBaseBar0 => Descriptor {
                id: bindings::VI_ATTR_PXI_MEM_BASE_BAR0,
                typed: Some((Codec::U32, Access::ReadOnly)),
            },
            AttributeType::PxiMemBaseBar1 => Descriptor {
                id: bindings::VI_ATTR_PXI_MEM_BASE_BAR1,
                typed: Some((Codec::U32, Access::ReadOnly)),
            },
            AttributeType::PxiMemBaseBar2 => Descriptor {
                id: bindings::VI_ATTR_PXI_MEM_BASE_BAR2,
                typed: Some((Codec::U32, Access::ReadOnly)),
            },
            AttributeType::PxiMemBaseBar3 => Descriptor {
                id: bindings::VI_ATTR_PXI_MEM_BASE_BAR3,
                typed: Some((Codec::U32, Access::ReadOnly)),
            },
            AttributeType::PxiMemBaseBar4 => Descriptor {
                id: bindings::VI_ATTR_PXI_MEM_BASE_BAR4,
                typed: Some((Codec::U32, Access::ReadOnly)),
            },
            AttributeType::PxiMemBaseBar5 => Descriptor {
                id: bindings::VI_ATTR_PXI_MEM_BASE_BAR5,
                typed: Some((Codec::U32, Access::ReadOnly)),
            },
            AttributeType::PxiMemSizeBar0 => Descriptor {
                id: bindings::VI_ATTR_PXI_MEM_SIZE_BAR0,
                typed: Some((Codec::U32, Access::ReadOnly)),
            },
            AttributeType::PxiMemSizeBar1 => Descriptor {
                id: bindings::VI_ATTR_PXI_MEM_SIZE_BAR1,
                typed: Some((Codec::U32, Access::ReadOnly)),
            },
            AttributeType::PxiMemSizeBar2 => Descriptor {
                id: bindings::VI_ATTR_PXI_MEM_SIZE_BAR2,
                typed: Some((Codec::U32, Access::ReadOnly)),
            },
            AttributeType::PxiMemSizeBar3 => Descriptor {
                id: bindings::VI_ATTR_PXI_MEM_SIZE_BAR3,
                typed: Some((Codec::U32, Access::ReadOnly)),
            },
            AttributeType::PxiMemSizeBar4 => Descriptor {
                id: bindings::VI_ATTR_PXI_MEM_SIZE_BAR4,
                typed: Some((Codec::U32, Access::ReadOnly)),
            },
            AttributeType::PxiMemSizeBar5 => Descriptor {
                id: bindings::VI_ATTR_PXI_MEM_SIZE_BAR5,
                typed: Some((Codec::U32, Access::ReadOnly)),
            },
        }
    }

    /// The identifier of this kind on the wire.
    pub open spec fn spec_id(self) -> ViAttr {
        self.spec_descriptor().id
    }

    /// The identifier of this kind on the wire.
    #[verifier::when_used_as_spec(spec_id)]
    pub fn id(self) -> (id: ViAttr)
        ensures
            id == self.spec_id(),
    {
        self.descriptor().id
    }

    /// The codec of this kind, where it has typed access.
    pub open spec fn spec_codec(self) -> Option<Codec> {
        match self.spec_descriptor().typed {
            Some((codec, _)) => Some(codec),
            None => None,
        }
    }

    /// The codec of this kind, where it has typed access.
    #[verifier::when_used_as_spec(spec_codec)]
    pub fn codec(self) -> (codec: Option<Codec>)
        ensures
            codec == self.spec_codec(),
    {
        match self.descriptor().typed {
            Some((codec, _)) => Some(codec),
            None => None,
        }
    }

    /// Whether this kind has typed access and can be written.
    pub open spec fn spec_writable(self) -> bool {
        self.spec_descriptor().typed matches Some((_, access)) && access == Access::ReadWrite
    }

    /// Whether this kind has typed access and can be written.
    #[verifier::when_used_as_spec(spec_writable)]
    pub fn writable(self) -> (writable: bool)
        ensures
            writable == self.spec_writable(),
    {
        match self.descriptor().typed {
            Some((_, Access::ReadWrite)) => true,
            _ => false,
        }
    }

    /// The width in which a scalar of this kind travels.
    pub open spec fn spec_raw_kind(self) -> Option<RawKind> {
        match self.spec_codec() {
            Some(codec) => codec.spec_raw_kind(),
            None => None,
        }
    }

    /// The width in which a scalar of this kind travels; none for a kind
    /// without typed access, a string or a block of bytes.
    #[verifier::when_used_as_spec(spec_raw_kind)]
    pub fn raw_kind(self) -> (width: Option<RawKind>)
        ensures
            width == self.spec_raw_kind(),
    {
        match self.codec() {
            Some(codec) => codec.raw_kind(),
            None => None,
        }
    }

    /// No two kinds share an identifier.
    pub proof fn lemma_ids_distinct(a: AttributeType, b: AttributeType)
        requires
            a.spec_id() == b.spec_id(),
        ensures
            a == b,
    {
    }

    /// The value that `raw` denotes for this kind. There is none where the
    /// kind has no codec, `raw` is of another width than the kind's, or its
    /// number is outside the kind's domain.
    pub open spec fn decoded(self, raw: RawValue) -> Option<AttrValue> {
        match self.spec_codec() {
            Some(codec) => codec.decoded(raw),
            None => None,
        }
    }

    /// Whether `value` is a value of this kind's domain.
    pub open spec fn valid(self, value: AttrValue) -> bool {
        self.spec_codec() matches Some(codec) && codec.valid(value)
    }

    /// What writing `value` to this kind comes to: the state to hand to the
    /// transport, or the reason why nothing is handed over. A kind without
    /// typed access is not supported, a read-only kind is refused as such, and
    /// a value that is not of the kind's domain is an unsupported state.
    pub open spec fn written(self, value: AttrValue) -> Result<ViAttrState, ErrorType> {
        match self.spec_descriptor().typed {
            None => Err(ErrorType::NsupAttr),
            Some((_, Access::ReadOnly)) => Err(ErrorType::AttrReadonly),
            Some((codec, Access::ReadWrite)) => match codec.written(value) {
                Some(state) => Ok(state),
                None => Err(ErrorType::NsupAttrState),
            },
        }
    }

    /// Round trip: every value of the domain of a writable kind is written as
    /// a state that, cut back to the kind's width, denotes the value again.
    pub proof fn lemma_round_trip(self, value: AttrValue)
        requires
            self.spec_writable(),
            self.valid(value),
        ensures
            self.written(value) is Ok,
            self.spec_raw_kind() matches Some(width) && self.decoded(
                width.cut(self.written(value)->Ok_0),
            ) == Some(value),
    {
        let codec = self.spec_codec()->0;
        assert(codec.written(value) is Some);
        codec.lemma_round_trip(value);
    }

    /// Nothing is decoded from outside the domain: what a raw value denotes
    /// for a kind is a value of the kind's domain.
    pub proof fn lemma_decoded_in_domain(self, raw: RawValue)
        ensures
            self.decoded(raw) matches Some(value) ==> {
                &&& self.spec_raw_kind() == Some(raw.spec_kind())
                &&& self.valid(value)
            },
    {
        match self.spec_codec() {
            Some(codec) => codec.lemma_decoded_in_domain(raw),
            None => {},
        }
    }
}

/// Decodes the raw value of an attribute. There is no value where the kind has
/// no scalar codec, `raw` is of another width than the kind's, or its number
/// is outside the kind's domain.
pub fn decode(kind: AttributeType, raw: RawValue) -> (value: Option<AttrValue>)
    ensures
        value == kind.decoded(raw),
{
    match kind.codec() {
        Some(codec) => codec.decode(raw),
        None => None,
    }
}

/// Encodes a value for writing, refusing a kind that cannot be written
/// before anything reaches a transport.
pub fn encode(kind: AttributeType, value: AttrValue) -> (state: Result<ViAttrState, ErrorType>)
    ensures
        state == kind.written(value),
{
    match kind.descriptor().typed {
        None => Err(ErrorType::NsupAttr),
        Some((_, Access::ReadOnly)) => Err(ErrorType::AttrReadonly),
        Some((codec, Access::ReadWrite)) => match codec.encode(value) {
            Some(state) => Ok(state),
            None => Err(ErrorType::NsupAttrState),
        },
    }
}

} // verus!
