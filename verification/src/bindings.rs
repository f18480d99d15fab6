//! The numeric vocabulary of the VISA wire contract.
//!
//! Every identifier below is fixed by the VISA specification: completion and
//! error codes, attribute identifiers, event types and the enumerated values
//! that attributes take. A transport speaks in these numbers; the rest of the
//! crate gives them types.
use vstd::prelude::*;

verus! {

/// A completion or error code returned by every transport operation.
pub type ViStatus = i32;

/// An open session, as the transport names it.
pub type ViSession = u32;

/// One outstanding asynchronous operation of a session.
pub type ViJobId = u32;

/// An attribute identifier.
pub type ViAttr = u32;

/// The widened form in which every attribute value is written.
pub type ViAttrState = u64;

/// The context of one event occurrence.
pub type ViEvent = u32;

/// An event type identifier.
pub type ViEventType = u32;

/// The filter passed when an event is enabled.
pub type ViEventFilter = u32;

/// The raw form of a boolean attribute.
pub type ViBoolean = u16;

/// A bus address.
pub type ViBusAddress = u64;

/// A size on the bus.
pub type ViBusSize = u64;

/// A handle to a list of search results.
pub type ViFindList = u32;

pub const VI_TRUE: ViBoolean = 1;

pub const VI_FALSE: ViBoolean = 0;

// Completion codes.

pub const VI_SUCCESS: ViStatus = 0;

pub const VI_SUCCESS_EVENT_EN: ViStatus = 0x3FFF_0002;

pub const VI_SUCCESS_EVENT_DIS: ViStatus = 0x3FFF_0003;

pub const VI_SUCCESS_QUEUE_EMPTY: ViStatus = 0x3FFF_0004;

pub const VI_SUCCESS_TERM_CHAR: ViStatus = 0x3FFF_0005;

pub const VI_SUCCESS_MAX_CNT: ViStatus = 0x3FFF_0006;

pub const VI_SUCCESS_DEV_NPRESENT: ViStatus = 0x3FFF_007D;

pub const VI_SUCCESS_TRIG_MAPPED: ViStatus = 0x3FFF_007E;

pub const VI_SUCCESS_QUEUE_NEMPTY: ViStatus = 0x3FFF_0080;

pub const VI_SUCCESS_NCHAIN: ViStatus = 0x3FFF_0098;

pub const VI_SUCCESS_NESTED_SHARED: ViStatus = 0x3FFF_0099;

pub const VI_SUCCESS_NESTED_EXCLUSIVE: ViStatus = 0x3FFF_009A;

pub const VI_SUCCESS_SYNC: ViStatus = 0x3FFF_009B;

// Error codes: the sign bit set over the same numbering.

pub const VI_ERROR: ViStatus = -2147483648;

pub const VI_ERROR_SYSTEM_ERROR: ViStatus = VI_ERROR + 0x3FFF_0000;

pub const VI_ERROR_INV_OBJECT: ViStatus = VI_ERROR + 0x3FFF_000E;

pub const VI_ERROR_RSRC_LOCKED: ViStatus = VI_ERROR + 0x3FFF_000F;

pub const VI_ERROR_INV_EXPR: ViStatus = VI_ERROR + 0x3FFF_0010;

pub const VI_ERROR_RSRC_NFOUND: ViStatus = VI_ERROR + 0x3FFF_0011;

pub const VI_ERROR_INV_RSRC_NAME: ViStatus = VI_ERROR + 0x3FFF_0012;

pub const VI_ERROR_INV_ACC_MODE: ViStatus = VI_ERROR + 0x3FFF_0013;

pub const VI_ERROR_TMO: ViStatus = VI_ERROR + 0x3FFF_0015;

pub const VI_ERROR_CLOSING_FAILED: ViStatus = VI_ERROR + 0x3FFF_0016;

pub const VI_ERROR_INV_DEGREE: ViStatus = VI_ERROR + 0x3FFF_001B;

pub const VI_ERROR_INV_JOB_ID: ViStatus = VI_ERROR + 0x3FFF_001C;

pub const VI_ERROR_NSUP_ATTR: ViStatus = VI_ERROR + 0x3FFF_001D;

pub const VI_ERROR_NSUP_ATTR_STATE: ViStatus = VI_ERROR + 0x3FFF_001E;

pub const VI_ERROR_ATTR_READONLY: ViStatus = VI_ERROR + 0x3FFF_001F;

pub const VI_ERROR_INV_LOCK_TYPE: ViStatus = VI_ERROR + 0x3FFF_0020;

pub const VI_ERROR_INV_ACCESS_KEY: ViStatus = VI_ERROR + 0x3FFF_0021;

pub const VI_ERROR_INV_EVENT: ViStatus = VI_ERROR + 0x3FFF_0026;

pub const VI_ERROR_INV_MECH: ViStatus = VI_ERROR + 0x3FFF_0027;

pub const VI_ERROR_HNDLR_NINSTALLED: ViStatus = VI_ERROR + 0x3FFF_0028;

pub const VI_ERROR_INV_HNDLR_REF: ViStatus = VI_ERROR + 0x3FFF_0029;

pub const VI_ERROR_INV_CONTEXT: ViStatus = VI_ERROR + 0x3FFF_002A;

pub const VI_ERROR_NENABLED: ViStatus = VI_ERROR + 0x3FFF_002F;

pub const VI_ERROR_ABORT: ViStatus = VI_ERROR + 0x3FFF_0030;

pub const VI_ERROR_RAW_WR_PROT_VIOL: ViStatus = VI_ERROR + 0x3FFF_0034;

pub const VI_ERROR_RAW_RD_PROT_VIOL: ViStatus = VI_ERROR + 0x3FFF_0035;

pub const VI_ERROR_OUTP_PROT_VIOL: ViStatus = VI_ERROR + 0x3FFF_0036;

pub const VI_ERROR_INP_PROT_VIOL: ViStatus = VI_ERROR + 0x3FFF_0037;

pub const VI_ERROR_BERR: ViStatus = VI_ERROR + 0x3FFF_0038;

pub const VI_ERROR_IN_PROGRESS: ViStatus = VI_ERROR + 0x3FFF_0039;

pub const VI_ERROR_INV_SETUP: ViStatus = VI_ERROR + 0x3FFF_003A;

pub const VI_ERROR_QUEUE_ERROR: ViStatus = VI_ERROR + 0x3FFF_003B;

pub const VI_ERROR_ALLOC: ViStatus = VI_ERROR + 0x3FFF_003C;

pub const VI_ERROR_INV_MASK: ViStatus = VI_ERROR + 0x3FFF_003D;

pub const VI_ERROR_IO: ViStatus = VI_ERROR + 0x3FFF_003E;

pub const VI_ERROR_INV_FMT: ViStatus = VI_ERROR + 0x3FFF_003F;

pub const VI_ERROR_NSUP_FMT: ViStatus = VI_ERROR + 0x3FFF_0041;

pub const VI_ERROR_LINE_IN_USE: ViStatus = VI_ERROR + 0x3FFF_0042;

pub const VI_ERROR_LINE_NRESERVED: ViStatus = VI_ERROR + 0x3FFF_0043;

pub const VI_ERROR_NSUP_MODE: ViStatus = VI_ERROR + 0x3FFF_0046;

pub const VI_ERROR_SRQ_NOCCURRED: ViStatus = VI_ERROR + 0x3FFF_004A;

pub const VI_ERROR_INV_SPACE: ViStatus = VI_ERROR + 0x3FFF_004E;

pub const VI_ERROR_INV_OFFSET: ViStatus = VI_ERROR + 0x3FFF_0051;

pub const VI_ERROR_INV_WIDTH: ViStatus = VI_ERROR + 0x3FFF_0052;

pub const VI_ERROR_NSUP_OFFSET: ViStatus = VI_ERROR + 0x3FFF_0054;

pub const VI_ERROR_NSUP_VAR_WIDTH: ViStatus = VI_ERROR + 0x3FFF_0055;

pub const VI_ERROR_WINDOW_NMAPPED: ViStatus = VI_ERROR + 0x3FFF_0057;

pub const VI_ERROR_RESP_PENDING: ViStatus = VI_ERROR + 0x3FFF_0059;

pub const VI_ERROR_NLISTENERS: ViStatus = VI_ERROR + 0x3FFF_005F;

pub const VI_ERROR_NCIC: ViStatus = VI_ERROR + 0x3FFF_0060;

pub const VI_ERROR_NSYS_CNTLR: ViStatus = VI_ERROR + 0x3FFF_0061;

pub const VI_ERROR_NSUP_OPER: ViStatus = VI_ERROR + 0x3FFF_0067;

pub const VI_ERROR_INTR_PENDING: ViStatus = VI_ERROR + 0x3FFF_0068;

pub const VI_ERROR_ASRL_PARITY: ViStatus = VI_ERROR + 0x3FFF_006A;

pub const VI_ERROR_ASRL_FRAMING: ViStatus = VI_ERROR + 0x3FFF_006B;

pub const VI_ERROR_ASRL_OVERRUN: ViStatus = VI_ERROR + 0x3FFF_006C;

pub const VI_ERROR_TRIG_NMAPPED: ViStatus = VI_ERROR + 0x3FFF_006E;

pub const VI_ERROR_NSUP_ALIGN_OFFSET: ViStatus = VI_ERROR + 0x3FFF_0070;

pub const VI_ERROR_USER_BUF: ViStatus = VI_ERROR + 0x3FFF_0071;

pub const VI_ERROR_RSRC_BUSY: ViStatus = VI_ERROR + 0x3FFF_0072;

pub const VI_ERROR_NSUP_WIDTH: ViStatus = VI_ERROR + 0x3FFF_0076;

pub const VI_ERROR_INV_PARAMETER: ViStatus = VI_ERROR + 0x3FFF_0078;

pub const VI_ERROR_INV_PROT: ViStatus = VI_ERROR + 0x3FFF_0079;

pub const VI_ERROR_INV_SIZE: ViStatus = VI_ERROR + 0x3FFF_007B;

pub const VI_ERROR_WINDOW_MAPPED: ViStatus = VI_ERROR + 0x3FFF_0080;

pub const VI_ERROR_NIMPL_OPER: ViStatus = VI_ERROR + 0x3FFF_0081;

pub const VI_ERROR_INV_LENGTH: ViStatus = VI_ERROR + 0x3FFF_0083;

pub const VI_ERROR_INV_MODE: ViStatus = VI_ERROR + 0x3FFF_0091;

pub const VI_ERROR_SESN_NLOCKED: ViStatus = VI_ERROR + 0x3FFF_009C;

pub const VI_ERROR_MEM_NSHARED: ViStatus = VI_ERROR + 0x3FFF_009D;

pub const VI_ERROR_LIBRARY_NFOUND: ViStatus = VI_ERROR + 0x3FFF_009E;

pub const VI_ERROR_NSUP_INTR: ViStatus = VI_ERROR + 0x3FFF_009F;

pub const VI_ERROR_INV_LINE: ViStatus = VI_ERROR + 0x3FFF_00A0;

pub const VI_ERROR_FILE_ACCESS: ViStatus = VI_ERROR + 0x3FFF_00A1;

pub const VI_ERROR_FILE_IO: ViStatus = VI_ERROR + 0x3FFF_00A2;

pub const VI_ERROR_NSUP_LINE: ViStatus = VI_ERROR + 0x3FFF_00A3;

pub const VI_ERROR_NSUP_MECH: ViStatus = VI_ERROR + 0x3FFF_00A4;

pub const VI_ERROR_INTF_NUM_NCONFIG: ViStatus = VI_ERROR + 0x3FFF_00A5;

pub const VI_ERROR_CONN_LOST: ViStatus = VI_ERROR + 0x3FFF_00A6;

pub const VI_ERROR_NPERMISSION: ViStatus = VI_ERROR + 0x3FFF_00A8;

// Attribute identifiers. Those whose width follows the platform are given in
// their 64-bit form.

pub const VI_ATTR_RSRC_CLASS: ViAttr = 0xBFFF_0001;

pub const VI_ATTR_RSRC_NAME: ViAttr = 0xBFFF_0002;

pub const VI_ATTR_RSRC_IMPL_VERSION: ViAttr = 0x3FFF_0003;

pub const VI_ATTR_RSRC_LOCK_STATE: ViAttr = 0x3FFF_0004;

pub const VI_ATTR_MAX_QUEUE_LENGTH: ViAttr = 0x3FFF_0005;

pub const VI_ATTR_FDC_CHNL: ViAttr = 0x3FFF_000D;

pub const VI_ATTR_FDC_MODE: ViAttr = 0x3FFF_000F;

pub const VI_ATTR_FDC_GEN_SIGNAL_EN: ViAttr = 0x3FFF_0011;

pub const VI_ATTR_FDC_USE_PAIR: ViAttr = 0x3FFF_0013;

pub const VI_ATTR_SEND_END_EN: ViAttr = 0x3FFF_0016;

pub const VI_ATTR_TERMCHAR: ViAttr = 0x3FFF_0018;

pub const VI_ATTR_TMO_VALUE: ViAttr = 0x3FFF_001A;

pub const VI_ATTR_GPIB_READDR_EN: ViAttr = 0x3FFF_001B;

pub const VI_ATTR_IO_PROT: ViAttr = 0x3FFF_001C;

pub const VI_ATTR_DMA_ALLOW_EN: ViAttr = 0x3FFF_001E;

pub const VI_ATTR_ASRL_BAUD: ViAttr = 0x3FFF_0021;

pub const VI_ATTR_ASRL_DATA_BITS: ViAttr = 0x3FFF_0022;

pub const VI_ATTR_ASRL_PARITY: ViAttr = 0x3FFF_0023;

pub const VI_ATTR_ASRL_STOP_BITS: ViAttr = 0x3FFF_0024;

pub const VI_ATTR_ASRL_FLOW_CNTRL: ViAttr = 0x3FFF_0025;

pub const VI_ATTR_RD_BUF_OPER_MODE: ViAttr = 0x3FFF_002A;

pub const VI_ATTR_RD_BUF_SIZE: ViAttr = 0x3FFF_002B;

pub const VI_ATTR_WR_BUF_OPER_MODE: ViAttr = 0x3FFF_002D;

pub const VI_ATTR_WR_BUF_SIZE: ViAttr = 0x3FFF_002E;

pub const VI_ATTR_SUPPRESS_END_EN: ViAttr = 0x3FFF_0036;

pub const VI_ATTR_TERMCHAR_EN: ViAttr = 0x3FFF_0038;

pub const VI_ATTR_DEST_ACCESS_PRIV: ViAttr = 0x3FFF_0039;

pub const VI_ATTR_DEST_BYTE_ORDER: ViAttr = 0x3FFF_003A;

pub const VI_ATTR_SRC_ACCESS_PRIV: ViAttr = 0x3FFF_003C;

pub const VI_ATTR_SRC_BYTE_ORDER: ViAttr = 0x3FFF_003D;

pub const VI_ATTR_SRC_INCREMENT: ViAttr = 0x3FFF_0040;

pub const VI_ATTR_DEST_INCREMENT: ViAttr = 0x3FFF_0041;

pub const VI_ATTR_WIN_ACCESS_PRIV: ViAttr = 0x3FFF_0045;

pub const VI_ATTR_WIN_BYTE_ORDER: ViAttr = 0x3FFF_0047;

pub const VI_ATTR_GPIB_ATN_STATE: ViAttr = 0x3FFF_0057;

pub const VI_ATTR_GPIB_ADDR_STATE: ViAttr = 0x3FFF_005C;

pub const VI_ATTR_GPIB_CIC_STATE: ViAttr = 0x3FFF_005E;

pub const VI_ATTR_GPIB_NDAC_STATE: ViAttr = 0x3FFF_0062;

pub const VI_ATTR_GPIB_SRQ_STATE: ViAttr = 0x3FFF_0067;

pub const VI_ATTR_GPIB_SYS_CNTRL_STATE: ViAttr = 0x3FFF_0068;

pub const VI_ATTR_GPIB_HS488_CBL_LEN: ViAttr = 0x3FFF_0069;

pub const VI_ATTR_CMDR_LA: ViAttr = 0x3FFF_006B;

pub const VI_ATTR_VXI_DEV_CLASS: ViAttr = 0x3FFF_006C;

pub const VI_ATTR_MAINFRAME_LA: ViAttr = 0x3FFF_0070;

pub const VI_ATTR_MANF_NAME: ViAttr = 0xBFFF_0072;

pub const VI_ATTR_MODEL_NAME: ViAttr = 0xBFFF_0077;

pub const VI_ATTR_VXI_VME_INTR_STATUS: ViAttr = 0x3FFF_008B;

pub const VI_ATTR_VXI_TRIG_STATUS: ViAttr = 0x3FFF_008D;

pub const VI_ATTR_VXI_VME_SYSFAIL_STATE: ViAttr = 0x3FFF_0094;

pub const VI_ATTR_ASRL_AVAIL_NUM: ViAttr = 0x3FFF_00AC;

pub const VI_ATTR_ASRL_CTS_STATE: ViAttr = 0x3FFF_00AE;

pub const VI_ATTR_ASRL_DCD_STATE: ViAttr = 0x3FFF_00AF;

pub const VI_ATTR_ASRL_DSR_STATE: ViAttr = 0x3FFF_00B1;

pub const VI_ATTR_ASRL_DTR_STATE: ViAttr = 0x3FFF_00B2;

pub const VI_ATTR_ASRL_END_IN: ViAttr = 0x3FFF_00B3;

pub const VI_ATTR_ASRL_END_OUT: ViAttr = 0x3FFF_00B4;

pub const VI_ATTR_ASRL_REPLACE_CHAR: ViAttr = 0x3FFF_00BE;

pub const VI_ATTR_ASRL_RI_STATE: ViAttr = 0x3FFF_00BF;

pub const VI_ATTR_ASRL_RTS_STATE: ViAttr = 0x3FFF_00C0;

pub const VI_ATTR_ASRL_XON_CHAR: ViAttr = 0x3FFF_00C1;

pub const VI_ATTR_ASRL_XOFF_CHAR: ViAttr = 0x3FFF_00C2;

pub const VI_ATTR_WIN_ACCESS: ViAttr = 0x3FFF_00C3;

pub const VI_ATTR_RM_SESSION: ViAttr = 0x3FFF_00C4;

pub const VI_ATTR_VXI_LA: ViAttr = 0x3FFF_00D5;

pub const VI_ATTR_MANF_ID: ViAttr = 0x3FFF_00D9;

pub const VI_ATTR_MEM_SPACE: ViAttr = 0x3FFF_00DE;

pub const VI_ATTR_MODEL_CODE: ViAttr = 0x3FFF_00DF;

pub const VI_ATTR_SLOT: ViAttr = 0x3FFF_00E8;

pub const VI_ATTR_INTF_INST_NAME: ViAttr = 0xBFFF_00E9;

pub const VI_ATTR_IMMEDIATE_SERV: ViAttr = 0x3FFF_0100;

pub const VI_ATTR_INTF_PARENT_NUM: ViAttr = 0x3FFF_0101;

pub const VI_ATTR_RSRC_SPEC_VERSION: ViAttr = 0x3FFF_0170;

pub const VI_ATTR_INTF_TYPE: ViAttr = 0x3FFF_0171;

pub const VI_ATTR_GPIB_PRIMARY_ADDR: ViAttr = 0x3FFF_0172;

pub const VI_ATTR_GPIB_SECONDARY_ADDR: ViAttr = 0x3FFF_0173;

pub const VI_ATTR_RSRC_MANF_NAME: ViAttr = 0xBFFF_0174;

pub const VI_ATTR_RSRC_MANF_ID: ViAttr = 0x3FFF_0175;

pub const VI_ATTR_INTF_NUM: ViAttr = 0x3FFF_0176;

pub const VI_ATTR_TRIG_ID: ViAttr = 0x3FFF_0177;

pub const VI_ATTR_GPIB_REN_STATE: ViAttr = 0x3FFF_0181;

pub const VI_ATTR_GPIB_UNADDR_EN: ViAttr = 0x3FFF_0184;

pub const VI_ATTR_DEV_STATUS_BYTE: ViAttr = 0x3FFF_0189;

pub const VI_ATTR_FILE_APPEND_EN: ViAttr = 0x3FFF_0192;

pub const VI_ATTR_VXI_TRIG_SUPPORT: ViAttr = 0x3FFF_0194;

pub const VI_ATTR_TCPIP_ADDR: ViAttr = 0xBFFF_0195;

pub const VI_ATTR_TCPIP_HOSTNAME: ViAttr = 0xBFFF_0196;

pub const VI_ATTR_TCPIP_PORT: ViAttr = 0x3FFF_0197;

pub const VI_ATTR_TCPIP_DEVICE_NAME: ViAttr = 0xBFFF_0199;

pub const VI_ATTR_TCPIP_NODELAY: ViAttr = 0x3FFF_019A;

pub const VI_ATTR_TCPIP_KEEPALIVE: ViAttr = 0x3FFF_019B;

pub const VI_ATTR_4882_COMPLIANT: ViAttr = 0x3FFF_019F;

pub const VI_ATTR_USB_SERIAL_NUM: ViAttr = 0xBFFF_01A0;

pub const VI_ATTR_USB_INTFC_NUM: ViAttr = 0x3FFF_01A1;

pub const VI_ATTR_USB_PROTOCOL: ViAttr = 0x3FFF_01A7;

pub const VI_ATTR_USB_MAX_INTR_SIZE: ViAttr = 0x3FFF_01AF;

pub const VI_ATTR_PXI_DEV_NUM: ViAttr = 0x3FFF_0201;

pub const VI_ATTR_PXI_FUNC_NUM: ViAttr = 0x3FFF_0202;

pub const VI_ATTR_PXI_BUS_NUM: ViAttr = 0x3FFF_0205;

pub const VI_ATTR_PXI_CHASSIS: ViAttr = 0x3FFF_0206;

pub const VI_ATTR_PXI_SLOTPATH: ViAttr = 0xBFFF_0207;

pub const VI_ATTR_PXI_SLOT_LBUS_LEFT: ViAttr = 0x3FFF_0208;

pub const VI_ATTR_PXI_SLOT_LBUS_RIGHT: ViAttr = 0x3FFF_0209;

pub const VI_ATTR_PXI_TRIG_BUS: ViAttr = 0x3FFF_020A;

pub const VI_ATTR_PXI_STAR_TRIG_BUS: ViAttr = 0x3FFF_020B;

pub const VI_ATTR_PXI_STAR_TRIG_LINE: ViAttr = 0x3FFF_020C;

pub const VI_ATTR_PXI_SRC_TRIG_BUS: ViAttr = 0x3FFF_020D;

pub const VI_ATTR_PXI_DEST_TRIG_BUS: ViAttr = 0x3FFF_020E;

pub const VI_ATTR_PXI_MEM_TYPE_BAR0: ViAttr = 0x3FFF_0211;

pub const VI_ATTR_PXI_MEM_TYPE_BAR1: ViAttr = 0x3FFF_0212;

pub const VI_ATTR_PXI_MEM_TYPE_BAR2: ViAttr = 0x3FFF_0213;

pub const VI_ATTR_PXI_MEM_TYPE_BAR3: ViAttr = 0x3FFF_0214;

pub const VI_ATTR_PXI_MEM_TYPE_BAR4: ViAttr = 0x3FFF_0215;

pub const VI_ATTR_PXI_MEM_TYPE_BAR5: ViAttr = 0x3FFF_0216;

pub const VI_ATTR_PXI_IS_EXPRESS: ViAttr = 0x3FFF_0240;

pub const VI_ATTR_PXI_SLOT_LWIDTH: ViAttr = 0x3FFF_0241;

pub const VI_ATTR_PXI_MAX_LWIDTH: ViAttr = 0x3FFF_0242;

pub const VI_ATTR_PXI_ACTUAL_LWIDTH: ViAttr = 0x3FFF_0243;

pub const VI_ATTR_PXI_DSTAR_BUS: ViAttr = 0x3FFF_0244;

pub const VI_ATTR_PXI_DSTAR_SET: ViAttr = 0x3FFF_0245;

pub const VI_ATTR_PXI_ALLOW_WRITE_COMBINE: ViAttr = 0x3FFF_0246;

pub const VI_ATTR_TCPIP_HISLIP_OVERLAP_EN: ViAttr = 0x3FFF_0300;

pub const VI_ATTR_TCPIP_HISLIP_VERSION: ViAttr = 0x3FFF_0301;

pub const VI_ATTR_TCPIP_HISLIP_MAX_MESSAGE_KB: ViAttr = 0x3FFF_0302;

pub const VI_ATTR_TCPIP_IS_HISLIP: ViAttr = 0x3FFF_0303;

pub const VI_ATTR_JOB_ID: ViAttr = 0x3FFF_4006;

pub const VI_ATTR_EVENT_TYPE: ViAttr = 0x3FFF_4010;

pub const VI_ATTR_SIGP_STATUS_ID: ViAttr = 0x3FFF_4011;

pub const VI_ATTR_RECV_TRIG_ID: ViAttr = 0x3FFF_4012;

pub const VI_ATTR_INTR_STATUS_ID: ViAttr = 0x3FFF_4023;

pub const VI_ATTR_RECV_INTR_LEVEL: ViAttr = 0x3FFF_4041;

pub const VI_ATTR_OPER_NAME: ViAttr = 0xBFFF_4042;

pub const VI_ATTR_GPIB_RECV_CIC_STATE: ViAttr = 0x3FFF_4193;

pub const VI_ATTR_RECV_TCPIP_ADDR: ViAttr = 0xBFFF_4198;

pub const VI_ATTR_USB_RECV_INTR_SIZE: ViAttr = 0x3FFF_41B0;

pub const VI_ATTR_USB_RECV_INTR_DATA: ViAttr = 0xBFFF_41B1;

pub const VI_ATTR_PXI_RECV_INTR_SEQ: ViAttr = 0x3FFF_4240;

pub const VI_ATTR_PXI_RECV_INTR_DATA: ViAttr = 0x3FFF_4241;

pub const VI_ATTR_USER_DATA: ViAttr = 0x3FFF_000A;

pub const VI_ATTR_RET_COUNT: ViAttr = 0x3FFF_4028;

pub const VI_ATTR_WIN_BASE_ADDR: ViAttr = 0x3FFF_009B;

pub const VI_ATTR_WIN_SIZE: ViAttr = 0x3FFF_009C;

pub const VI_ATTR_MEM_BASE: ViAttr = 0x3FFF_00D0;

pub const VI_ATTR_MEM_SIZE: ViAttr = 0x3FFF_00D1;

pub const VI_ATTR_PXI_MEM_BASE_BAR0: ViAttr = 0x3FFF_0228;

pub const VI_ATTR_PXI_MEM_BASE_BAR1: ViAttr = 0x3FFF_0229;

pub const VI_ATTR_PXI_MEM_BASE_BAR2: ViAttr = 0x3FFF_022A;

pub const VI_ATTR_PXI_MEM_BASE_BAR3: ViAttr = 0x3FFF_022B;

pub const VI_ATTR_PXI_MEM_BASE_BAR4: ViAttr = 0x3FFF_022C;

pub const VI_ATTR_PXI_MEM_BASE_BAR5: ViAttr = 0x3FFF_022D;

pub const VI_ATTR_PXI_MEM_SIZE_BAR0: ViAttr = 0x3FFF_0238;

pub const VI_ATTR_PXI_MEM_SIZE_BAR1: ViAttr = 0x3FFF_0239;

pub const VI_ATTR_PXI_MEM_SIZE_BAR2: ViAttr = 0x3FFF_023A;

pub const VI_ATTR_PXI_MEM_SIZE_BAR3: ViAttr = 0x3FFF_023B;

pub const VI_ATTR_PXI_MEM_SIZE_BAR4: ViAttr = 0x3FFF_023C;

pub const VI_ATTR_PXI_MEM_SIZE_BAR5: ViAttr = 0x3FFF_023D;

// Event types.

pub const VI_EVENT_IO_COMPLETION: ViEventType = 0x3FFF_2009;

pub const VI_EVENT_TRIG: ViEventType = 0xBFFF_200A;

pub const VI_EVENT_SERVICE_REQ: ViEventType = 0x3FFF_200B;

pub const VI_EVENT_CLEAR: ViEventType = 0x3FFF_200D;

pub const VI_EVENT_EXCEPTION: ViEventType = 0xBFFF_200E;

pub const VI_EVENT_GPIB_CIC: ViEventType = 0x3FFF_2012;

pub const VI_EVENT_GPIB_TALK: ViEventType = 0x3FFF_2013;

pub const VI_EVENT_GPIB_LISTEN: ViEventType = 0x3FFF_2014;

pub const VI_EVENT_VXI_VME_SYSFAIL: ViEventType = 0x3FFF_201D;

pub const VI_EVENT_VXI_VME_SYSRESET: ViEventType = 0x3FFF_201E;

pub const VI_EVENT_VXI_SIGP: ViEventType = 0x3FFF_2020;

pub const VI_EVENT_VXI_VME_INTR: ViEventType = 0xBFFF_2021;

pub const VI_EVENT_PXI_INTR: ViEventType = 0x3FFF_2022;

pub const VI_EVENT_TCPIP_CONNECT: ViEventType = 0x3FFF_2036;

pub const VI_EVENT_USB_INTR: ViEventType = 0x3FFF_2037;

pub const VI_ALL_ENABLED_EVENTS: ViEventType = 0x3FFF_7FFF;

// Event handling mechanisms.

pub const VI_QUEUE: u32 = 1;

pub const VI_HNDLR: u32 = 2;

pub const VI_SUSPEND_HNDLR: u32 = 4;

// Access modes and lock types.

pub const VI_NO_LOCK: u32 = 0;

pub const VI_EXCLUSIVE_LOCK: u32 = 1;

pub const VI_SHARED_LOCK: u32 = 2;

pub const VI_LOAD_CONFIG: u32 = 4;

// Buffer masks.

pub const VI_READ_BUF: u32 = 1;

pub const VI_WRITE_BUF: u32 = 2;

pub const VI_READ_BUF_DISCARD: u32 = 4;

pub const VI_WRITE_BUF_DISCARD: u32 = 8;

pub const VI_IO_IN_BUF: u32 = 16;

pub const VI_IO_OUT_BUF: u32 = 32;

pub const VI_IO_IN_BUF_DISCARD: u32 = 64;

pub const VI_IO_OUT_BUF_DISCARD: u32 = 128;

// Trigger protocols.

pub const VI_TRIG_PROT_DEFAULT: u32 = 0;

pub const VI_TRIG_PROT_ON: u32 = 1;

pub const VI_TRIG_PROT_OFF: u32 = 2;

pub const VI_TRIG_PROT_SYNC: u32 = 5;

pub const VI_TRIG_PROT_RESERVE: u32 = 6;

pub const VI_TRIG_PROT_UNRESERVE: u32 = 7;

// Values that attributes take.

pub const VI_STATE_ASSERTED: u32 = 1;

pub const VI_STATE_UNASSERTED: u32 = 0;

pub const VI_STATE_UNKNOWN: i32 = -1;

pub const VI_FDC_NORMAL: u32 = 1;

pub const VI_FDC_STREAM: u32 = 2;

pub const VI_INTF_GPIB: u32 = 1;

pub const VI_INTF_VXI: u32 = 2;

pub const VI_INTF_GPIB_VXI: u32 = 3;

pub const VI_INTF_ASRL: u32 = 4;

pub const VI_INTF_PXI: u32 = 5;

pub const VI_INTF_TCPIP: u32 = 6;

pub const VI_INTF_USB: u32 = 7;

pub const VI_ASRL_PAR_NONE: u32 = 0;

pub const VI_ASRL_PAR_ODD: u32 = 1;

pub const VI_ASRL_PAR_EVEN: u32 = 2;

pub const VI_ASRL_PAR_MARK: u32 = 3;

pub const VI_ASRL_PAR_SPACE: u32 = 4;

pub const VI_ASRL_STOP_ONE: u32 = 10;

pub const VI_ASRL_STOP_ONE5: u32 = 15;

pub const VI_ASRL_STOP_TWO: u32 = 20;

pub const VI_ASRL_FLOW_NONE: u32 = 0;

pub const VI_ASRL_FLOW_XON_XOFF: u32 = 1;

pub const VI_ASRL_FLOW_RTS_CTS: u32 = 2;

pub const VI_ASRL_FLOW_DTR_DSR: u32 = 4;

pub const VI_ASRL_END_NONE: u32 = 0;

pub const VI_ASRL_END_LAST_BIT: u32 = 1;

pub const VI_ASRL_END_TERMCHAR: u32 = 2;

pub const VI_ASRL_END_BREAK: u32 = 3;

pub const VI_FLUSH_ON_ACCESS: u32 = 1;

pub const VI_FLUSH_WHEN_FULL: u32 = 2;

pub const VI_DATA_PRIV: u32 = 0;

pub const VI_DATA_NPRIV: u32 = 1;

pub const VI_PROG_PRIV: u32 = 2;

pub const VI_PROG_NPRIV: u32 = 3;

pub const VI_BLCK_PRIV: u32 = 4;

pub const VI_BLCK_NPRIV: u32 = 5;

pub const VI_D64_PRIV: u32 = 6;

pub const VI_D64_NPRIV: u32 = 7;

pub const VI_BIG_ENDIAN: u32 = 0;

pub const VI_LITTLE_ENDIAN: u32 = 1;

pub const VI_GPIB_UNADDRESSED: u32 = 0;

pub const VI_GPIB_TALKER: u32 = 1;

pub const VI_GPIB_LISTENER: u32 = 2;

pub const VI_GPIB_HS488_DISABLED: u32 = 0;

pub const VI_GPIB_HS488_NIMPL: i32 = -1;

pub const VI_NO_SEC_ADDR: u32 = 0xffff;

pub const VI_VXI_CLASS_MEMORY: u32 = 0;

pub const VI_VXI_CLASS_EXTENDED: u32 = 1;

pub const VI_VXI_CLASS_MESSAGE: u32 = 2;

pub const VI_VXI_CLASS_REGISTER: u32 = 3;

pub const VI_VXI_CLASS_OTHER: u32 = 4;

pub const VI_PXI_LBUS_STAR_TRIG_BUS_0: u32 = 1000;

pub const VI_PXI_LBUS_STAR_TRIG_BUS_1: u32 = 1001;

pub const VI_PXI_LBUS_STAR_TRIG_BUS_2: u32 = 1002;

pub const VI_PXI_LBUS_STAR_TRIG_BUS_3: u32 = 1003;

pub const VI_PXI_LBUS_STAR_TRIG_BUS_4: u32 = 1004;

pub const VI_PXI_LBUS_STAR_TRIG_BUS_5: u32 = 1005;

pub const VI_PXI_LBUS_STAR_TRIG_BUS_6: u32 = 1006;

pub const VI_PXI_LBUS_STAR_TRIG_BUS_7: u32 = 1007;

pub const VI_PXI_LBUS_STAR_TRIG_BUS_8: u32 = 1008;

pub const VI_PXI_LBUS_STAR_TRIG_BUS_9: u32 = 1009;

pub const VI_PXI_STAR_TRIG_CONTROLLER: u32 = 1413;

} // verus!
