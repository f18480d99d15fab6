//! Status classification and the error type of every fallible operation.
//!
//! A transport answers each call with a status code. A small fixed set of
//! codes means success; every other code is a failure and is classified into
//! an [`ErrorType`]. Classification happens at one choke point,
//! [`Error::wrap_binding`], which also fetches the transport's description of
//! the failure when a session is at hand.
use crate::bindings;
use crate::bindings::{ViSession, ViStatus};
use crate::text::{c_string_bytes, until_nul, utf8_text};
use crate::transport::{continues, Call, Link, Transport};
use vstd::prelude::*;
use vstd::std_specs::convert::FromSpecImpl;
use vstd::string::StringExecFns;
use vstd::utf8::{decode_utf8, valid_utf8};

verus! {

/// The kind of a failure, one per error code of the transport.
#[derive(Debug, Copy, Clone, PartialEq, Eq, Structural)]
pub enum ErrorType {
    SystemError,
    InvObject,
    RsrcLocked,
    InvExpr,
    RsrcNfound,
    InvRsrcName,
    InvAccMode,
    Tmo,
    ClosingFailed,
    InvDegree,
    InvJobId,
    NsupAttr,
    NsupAttrState,
    AttrReadonly,
    InvLockType,
    InvAccessKey,
    InvEvent,
    InvMech,
    HndlrNinstalled,
    InvHndlrRef,
    InvContext,
    Nenabled,
    Abort,
    RawWrProtViol,
    RawRdProtViol,
    OutpProtViol,
    InpProtViol,
    Berr,
    InProgress,
    InvSetup,
    QueueError,
    Alloc,
    InvMask,
    Io,
    InvFmt,
    NsupFmt,
    LineInUse,
    LineNreserved,
    NsupMode,
    SrqNoccurred,
    InvSpace,
    InvOffset,
    InvWidth,
    NsupOffset,
    NsupVarWidth,
    WindowNmapped,
    RespPending,
    Nlisteners,
    Ncic,
    NsysCntlr,
    NsupOper,
    IntrPending,
    AsrlParity,
    AsrlFraming,
    AsrlOverrun,
    TrigNmapped,
    NsupAlignOffset,
    UserBuf,
    RsrcBusy,
    NsupWidth,
    InvParameter,
    InvProt,
    InvSize,
    WindowMapped,
    NimplOper,
    InvLength,
    InvMode,
    SesnNlocked,
    MemNshared,
    LibraryNfound,
    NsupIntr,
    InvLine,
    FileAccess,
    FileIo,
    NsupLine,
    NsupMech,
    IntfNumNconfig,
    ConnLost,
    Npermission,
}

impl ErrorType {
    /// The status code that denotes this kind.
    pub open spec fn spec_code(self) -> ViStatus {
        match self {
            ErrorType::SystemError => bindings::VI_ERROR_SYSTEM_ERROR,
            ErrorType::InvObject => bindings::VI_ERROR_INV_OBJECT,
            ErrorType::RsrcLocked => bindings::VI_ERROR_RSRC_LOCKED,
            ErrorType::InvExpr => bindings::VI_ERROR_INV_EXPR,
            ErrorType::RsrcNfound => bindings::VI_ERROR_RSRC_NFOUND,
            ErrorType::InvRsrcName => bindings::VI_ERROR_INV_RSRC_NAME,
            ErrorType::InvAccMode => bindings::VI_ERROR_INV_ACC_MODE,
            ErrorType::Tmo => bindings::VI_ERROR_TMO,
            ErrorType::ClosingFailed => bindings::VI_ERROR_CLOSING_FAILED,
            ErrorType::InvDegree => bindings::VI_ERROR_INV_DEGREE,
            ErrorType::InvJobId => bindings::VI_ERROR_INV_JOB_ID,
            ErrorType::NsupAttr => bindings::VI_ERROR_NSUP_ATTR,
            ErrorType::NsupAttrState => bindings::VI_ERROR_NSUP_ATTR_STATE,
            ErrorType::AttrReadonly => bindings::VI_ERROR_ATTR_READONLY,
            ErrorType::InvLockType => bindings::VI_ERROR_INV_LOCK_TYPE,
            ErrorType::InvAccessKey => bindings::VI_ERROR_INV_ACCESS_KEY,
            ErrorType::InvEvent => bindings::VI_ERROR_INV_EVENT,
            ErrorType::InvMech => bindings::VI_ERROR_INV_MECH,
            ErrorType::HndlrNinstalled => bindings::VI_ERROR_HNDLR_NINSTALLED,
            ErrorType::InvHndlrRef => bindings::VI_ERROR_INV_HNDLR_REF,
            ErrorType::InvContext => bindings::VI_ERROR_INV_CONTEXT,
            ErrorType::Nenabled => bindings::VI_ERROR_NENABLED,
            ErrorType::Abort => bindings::VI_ERROR_ABORT,
            ErrorType::RawWrProtViol => bindings::VI_ERROR_RAW_WR_PROT_VIOL,
            ErrorType::RawRdProtViol => bindings::VI_ERROR_RAW_RD_PROT_VIOL,
            ErrorType::OutpProtViol => bindings::VI_ERROR_OUTP_PROT_VIOL,
            ErrorType::InpProtViol => bindings::VI_ERROR_INP_PROT_VIOL,
            ErrorType::Berr => bindings::VI_ERROR_BERR,
            ErrorType::InProgress => bindings::VI_ERROR_IN_PROGRESS,
            ErrorType::InvSetup => bindings::VI_ERROR_INV_SETUP,
            ErrorType::QueueError => bindings::VI_ERROR_QUEUE_ERROR,
            ErrorType::Alloc => bindings::VI_ERROR_ALLOC,
            ErrorType::InvMask => bindings::VI_ERROR_INV_MASK,
            ErrorType::Io => bindings::VI_ERROR_IO,
            ErrorType::InvFmt => bindings::VI_ERROR_INV_FMT,
            ErrorType::NsupFmt => bindings::VI_ERROR_NSUP_FMT,
            ErrorType::LineInUse => bindings::VI_ERROR_LINE_IN_USE,
            ErrorType::LineNreserved => bindings::VI_ERROR_LINE_NRESERVED,
            ErrorType::NsupMode => bindings::VI_ERROR_NSUP_MODE,
            ErrorType::SrqNoccurred => bindings::VI_ERROR_SRQ_NOCCURRED,
            ErrorType::InvSpace => bindings::VI_ERROR_INV_SPACE,
            ErrorType::InvOffset => bindings::VI_ERROR_INV_OFFSET,
            ErrorType::InvWidth => bindings::VI_ERROR_INV_WIDTH,
            ErrorType::NsupOffset => bindings::VI_ERROR_NSUP_OFFSET,
            ErrorType::NsupVarWidth => bindings::VI_ERROR_NSUP_VAR_WIDTH,
            ErrorType::WindowNmapped => bindings::VI_ERROR_WINDOW_NMAPPED,
            ErrorType::RespPending => bindings::VI_ERROR_RESP_PENDING,
            ErrorType::Nlisteners => bindings::VI_ERROR_NLISTENERS,
            ErrorType::Ncic => bindings::VI_ERROR_NCIC,
            ErrorType::NsysCntlr => bindings::VI_ERROR_NSYS_CNTLR,
            ErrorType::NsupOper => bindings::VI_ERROR_NSUP_OPER,
            ErrorType::IntrPending => bindings::VI_ERROR_INTR_PENDING,
            ErrorType::AsrlParity => bindings::VI_ERROR_ASRL_PARITY,
            ErrorType::AsrlFraming => bindings::VI_ERROR_ASRL_FRAMING,
            ErrorType::AsrlOverrun => bindings::VI_ERROR_ASRL_OVERRUN,
            ErrorType::TrigNmapped => bindings::VI_ERROR_TRIG_NMAPPED,
            ErrorType::NsupAlignOffset => bindings::VI_ERROR_NSUP_ALIGN_OFFSET,
            ErrorType::UserBuf => bindings::VI_ERROR_USER_BUF,
            ErrorType::RsrcBusy => bindings::VI_ERROR_RSRC_BUSY,
            ErrorType::NsupWidth => bindings::VI_ERROR_NSUP_WIDTH,
            ErrorType::InvParameter => bindings::VI_ERROR_INV_PARAMETER,
            ErrorType::InvProt => bindings::VI_ERROR_INV_PROT,
            ErrorType::InvSize => bindings::VI_ERROR_INV_SIZE,
            ErrorType::WindowMapped => bindings::VI_ERROR_WINDOW_MAPPED,
            ErrorType::NimplOper => bindings::VI_ERROR_NIMPL_OPER,
            ErrorType::InvLength => bindings::VI_ERROR_INV_LENGTH,
            ErrorType::InvMode => bindings::VI_ERROR_INV_MODE,
            ErrorType::SesnNlocked => bindings::VI_ERROR_SESN_NLOCKED,
            ErrorType::MemNshared => bindings::VI_ERROR_MEM_NSHARED,
            ErrorType::LibraryNfound => bindings::VI_ERROR_LIBRARY_NFOUND,
            ErrorType::NsupIntr => bindings::VI_ERROR_NSUP_INTR,
            ErrorType::InvLine => bindings::VI_ERROR_INV_LINE,
            ErrorType::FileAccess => bindings::VI_ERROR_FILE_ACCESS,
            ErrorType::FileIo => bindings::VI_ERROR_FILE_IO,
            ErrorType::NsupLine => bindings::VI_ERROR_NSUP_LINE,
            ErrorType::NsupMech => bindings::VI_ERROR_NSUP_MECH,
            ErrorType::IntfNumNconfig => bindings::VI_ERROR_INTF_NUM_NCONFIG,
            ErrorType::ConnLost => bindings::VI_ERROR_CONN_LOST,
            ErrorType::Npermission => bindings::VI_ERROR_NPERMISSION,
        }
    }

    /// The status code that denotes this kind.
    #[verifier::when_used_as_spec(spec_code)]
    pub fn code(self) -> (code: ViStatus)
        ensures
            code == self.spec_code(),
    {
        match self {
            ErrorType::SystemError => bindings::VI_ERROR_SYSTEM_ERROR,
            ErrorType::InvObject => bindings::VI_ERROR_INV_OBJECT,
            ErrorType::RsrcLocked => bindings::VI_ERROR_RSRC_LOCKED,
            ErrorType::InvExpr => bindings::VI_ERROR_INV_EXPR,
            ErrorType::RsrcNfound => bindings::VI_ERROR_RSRC_NFOUND,
            ErrorType::InvRsrcName => bindings::VI_ERROR_INV_RSRC_NAME,
            ErrorType::InvAccMode => bindings::VI_ERROR_INV_ACC_MODE,
            ErrorType::Tmo => bindings::VI_ERROR_TMO,
            ErrorType::ClosingFailed => bindings::VI_ERROR_CLOSING_FAILED,
            ErrorType::InvDegree => bindings::VI_ERROR_INV_DEGREE,
            ErrorType::InvJobId => bindings::VI_ERROR_INV_JOB_ID,
            ErrorType::NsupAttr => bindings::VI_ERROR_NSUP_ATTR,
            ErrorType::NsupAttrState => bindings::VI_ERROR_NSUP_ATTR_STATE,
            ErrorType::AttrReadonly => bindings::VI_ERROR_ATTR_READONLY,
            ErrorType::InvLockType => bindings::VI_ERROR_INV_LOCK_TYPE,
            ErrorType::InvAccessKey => bindings::VI_ERROR_INV_ACCESS_KEY,
            ErrorType::InvEvent => bindings::VI_ERROR_INV_EVENT,
            ErrorType::InvMech => bindings::VI_ERROR_INV_MECH,
            ErrorType::HndlrNinstalled => bindings::VI_ERROR_HNDLR_NINSTALLED,
            ErrorType::InvHndlrRef => bindings::VI_ERROR_INV_HNDLR_REF,
            ErrorType::InvContext => bindings::VI_ERROR_INV_CONTEXT,
            ErrorType::Nenabled => bindings::VI_ERROR_NENABLED,
            ErrorType::Abort => bindings::VI_ERROR_ABORT,
            ErrorType::RawWrProtViol => bindings::VI_ERROR_RAW_WR_PROT_VIOL,
            ErrorType::RawRdProtViol => bindings::VI_ERROR_RAW_RD_PROT_VIOL,
            ErrorType::OutpProtViol => bindings::VI_ERROR_OUTP_PROT_VIOL,
            ErrorType::InpProtViol => bindings::VI_ERROR_INP_PROT_VIOL,
            ErrorType::Berr => bindings::VI_ERROR_BERR,
            ErrorType::InProgress => bindings::VI_ERROR_IN_PROGRESS,
            ErrorType::InvSetup => bindings::VI_ERROR_INV_SETUP,
            ErrorType::QueueError => bindings::VI_ERROR_QUEUE_ERROR,
            ErrorType::Alloc => bindings::VI_ERROR_ALLOC,
            ErrorType::InvMask => bindings::VI_ERROR_INV_MASK,
            ErrorType::Io => bindings::VI_ERROR_IO,
            ErrorType::InvFmt => bindings::VI_ERROR_INV_FMT,
            ErrorType::NsupFmt => bindings::VI_ERROR_NSUP_FMT,
            ErrorType::LineInUse => bindings::VI_ERROR_LINE_IN_USE,
            ErrorType::LineNreserved => bindings::VI_ERROR_LINE_NRESERVED,
            ErrorType::NsupMode => bindings::VI_ERROR_NSUP_MODE,
            ErrorType::SrqNoccurred => bindings::VI_ERROR_SRQ_NOCCURRED,
            ErrorType::InvSpace => bindings::VI_ERROR_INV_SPACE,
            ErrorType::InvOffset => bindings::VI_ERROR_INV_OFFSET,
            ErrorType::InvWidth => bindings::VI_ERROR_INV_WIDTH,
            ErrorType::NsupOffset => bindings::VI_ERROR_NSUP_OFFSET,
            ErrorType::NsupVarWidth => bindings::VI_ERROR_NSUP_VAR_WIDTH,
            ErrorType::WindowNmapped => bindings::VI_ERROR_WINDOW_NMAPPED,
            ErrorType::RespPending => bindings::VI_ERROR_RESP_PENDING,
            ErrorType::Nlisteners => bindings::VI_ERROR_NLISTENERS,
            ErrorType::Ncic => bindings::VI_ERROR_NCIC,
            ErrorType::NsysCntlr => bindings::VI_ERROR_NSYS_CNTLR,
            ErrorType::NsupOper => bindings::VI_ERROR_NSUP_OPER,
            ErrorType::IntrPending => bindings::VI_ERROR_INTR_PENDING,
            ErrorType::AsrlParity => bindings::VI_ERROR_ASRL_PARITY,
            ErrorType::AsrlFraming => bindings::VI_ERROR_ASRL_FRAMING,
            ErrorType::AsrlOverrun => bindings::VI_ERROR_ASRL_OVERRUN,
            ErrorType::TrigNmapped => bindings::VI_ERROR_TRIG_NMAPPED,
            ErrorType::NsupAlignOffset => bindings::VI_ERROR_NSUP_ALIGN_OFFSET,
            ErrorType::UserBuf => bindings::VI_ERROR_USER_BUF,
            ErrorType::RsrcBusy => bindings::VI_ERROR_RSRC_BUSY,
            ErrorType::NsupWidth => bindings::VI_ERROR_NSUP_WIDTH,
            ErrorType::InvParameter => bindings::VI_ERROR_INV_PARAMETER,
            ErrorType::InvProt => bindings::VI_ERROR_INV_PROT,
            ErrorType::InvSize => bindings::VI_ERROR_INV_SIZE,
            ErrorType::WindowMapped => bindings::VI_ERROR_WINDOW_MAPPED,
            ErrorType::NimplOper => bindings::VI_ERROR_NIMPL_OPER,
            ErrorType::InvLength => bindings::VI_ERROR_INV_LENGTH,
            ErrorType::InvMode => bindings::VI_ERROR_INV_MODE,
            ErrorType::SesnNlocked => bindings::VI_ERROR_SESN_NLOCKED,
            ErrorType::MemNshared => bindings::VI_ERROR_MEM_NSHARED,
            ErrorType::LibraryNfound => bindings::VI_ERROR_LIBRARY_NFOUND,
            ErrorType::NsupIntr => bindings::VI_ERROR_NSUP_INTR,
            ErrorType::InvLine => bindings::VI_ERROR_INV_LINE,
            ErrorType::FileAccess => bindings::VI_ERROR_FILE_ACCESS,
            ErrorType::FileIo => bindings::VI_ERROR_FILE_IO,
            ErrorType::NsupLine => bindings::VI_ERROR_NSUP_LINE,
            ErrorType::NsupMech => bindings::VI_ERROR_NSUP_MECH,
            ErrorType::IntfNumNconfig => bindings::VI_ERROR_INTF_NUM_NCONFIG,
            ErrorType::ConnLost => bindings::VI_ERROR_CONN_LOST,
            ErrorType::Npermission => bindings::VI_ERROR_NPERMISSION,
        }
    }

    /// The kind that `status` denotes; the catch-all `SystemError` where it
    /// denotes none.
    pub open spec fn classify(status: ViStatus) -> ErrorType {
        match status {
            bindings::VI_ERROR_SYSTEM_ERROR => ErrorType::SystemError,
            bindings::VI_ERROR_INV_OBJECT => ErrorType::InvObject,
            bindings::VI_ERROR_RSRC_LOCKED => ErrorType::RsrcLocked,
            bindings::VI_ERROR_INV_EXPR => ErrorType::InvExpr,
            bindings::VI_ERROR_RSRC_NFOUND => ErrorType::RsrcNfound,
            bindings::VI_ERROR_INV_RSRC_NAME => ErrorType::InvRsrcName,
            bindings::VI_ERROR_INV_ACC_MODE => ErrorType::InvAccMode,
            bindings::VI_ERROR_TMO => ErrorType::Tmo,
            bindings::VI_ERROR_CLOSING_FAILED => ErrorType::ClosingFailed,
            bindings::VI_ERROR_INV_DEGREE => ErrorType::InvDegree,
            bindings::VI_ERROR_INV_JOB_ID => ErrorType::InvJobId,
            bindings::VI_ERROR_NSUP_ATTR => ErrorType::NsupAttr,
            bindings::VI_ERROR_NSUP_ATTR_STATE => ErrorType::NsupAttrState,
            bindings::VI_ERROR_ATTR_READONLY => ErrorType::AttrReadonly,
            bindings::VI_ERROR_INV_LOCK_TYPE => ErrorType::InvLockType,
            bindings::VI_ERROR_INV_ACCESS_KEY => ErrorType::InvAccessKey,
            bindings::VI_ERROR_INV_EVENT => ErrorType::InvEvent,
            bindings::VI_ERROR_INV_MECH => ErrorType::InvMech,
            bindings::VI_ERROR_HNDLR_NINSTALLED => ErrorType::HndlrNinstalled,
            bindings::VI_ERROR_INV_HNDLR_REF => ErrorType::InvHndlrRef,
            bindings::VI_ERROR_INV_CONTEXT => ErrorType::InvContext,
            bindings::VI_ERROR_NENABLED => ErrorType::Nenabled,
            bindings::VI_ERROR_ABORT => ErrorType::Abort,
            bindings::VI_ERROR_RAW_WR_PROT_VIOL => ErrorType::RawWrProtViol,
            bindings::VI_ERROR_RAW_RD_PROT_VIOL => ErrorType::RawRdProtViol,
            bindings::VI_ERROR_OUTP_PROT_VIOL => ErrorType::OutpProtViol,
            bindings::VI_ERROR_INP_PROT_VIOL => ErrorType::InpProtViol,
            bindings::VI_ERROR_BERR => ErrorType::Berr,
            bindings::VI_ERROR_IN_PROGRESS => ErrorType::InProgress,
            bindings::VI_ERROR_INV_SETUP => ErrorType::InvSetup,
            bindings::VI_ERROR_QUEUE_ERROR => ErrorType::QueueError,
            bindings::VI_ERROR_ALLOC => ErrorType::Alloc,
            bindings::VI_ERROR_INV_MASK => ErrorType::InvMask,
            bindings::VI_ERROR_IO => ErrorType::Io,
            bindings::VI_ERROR_INV_FMT => ErrorType::InvFmt,
            bindings::VI_ERROR_NSUP_FMT => ErrorType::NsupFmt,
            bindings::VI_ERROR_LINE_IN_USE => ErrorType::LineInUse,
            bindings::VI_ERROR_LINE_NRESERVED => ErrorType::LineNreserved,
            bindings::VI_ERROR_NSUP_MODE => ErrorType::NsupMode,
            bindings::VI_ERROR_SRQ_NOCCURRED => ErrorType::SrqNoccurred,
            bindings::VI_ERROR_INV_SPACE => ErrorType::InvSpace,
            bindings::VI_ERROR_INV_OFFSET => ErrorType::InvOffset,
            bindings::VI_ERROR_INV_WIDTH => ErrorType::InvWidth,
            bindings::VI_ERROR_NSUP_OFFSET => ErrorType::NsupOffset,
            bindings::VI_ERROR_NSUP_VAR_WIDTH => ErrorType::NsupVarWidth,
            bindings::VI_ERROR_WINDOW_NMAPPED => ErrorType::WindowNmapped,
            bindings::VI_ERROR_RESP_PENDING => ErrorType::RespPending,
            bindings::VI_ERROR_NLISTENERS => ErrorType::Nlisteners,
            bindings::VI_ERROR_NCIC => ErrorType::Ncic,
            bindings::VI_ERROR_NSYS_CNTLR => ErrorType::NsysCntlr,
            bindings::VI_ERROR_NSUP_OPER => ErrorType::NsupOper,
            bindings::VI_ERROR_INTR_PENDING => ErrorType::IntrPending,
            bindings::VI_ERROR_ASRL_PARITY => ErrorType::AsrlParity,
            bindings::VI_ERROR_ASRL_FRAMING => ErrorType::AsrlFraming,
            bindings::VI_ERROR_ASRL_OVERRUN => ErrorType::AsrlOverrun,
            bindings::VI_ERROR_TRIG_NMAPPED => ErrorType::TrigNmapped,
            bindings::VI_ERROR_NSUP_ALIGN_OFFSET => ErrorType::NsupAlignOffset,
            bindings::VI_ERROR_USER_BUF => ErrorType::UserBuf,
            bindings::VI_ERROR_RSRC_BUSY => ErrorType::RsrcBusy,
            bindings::VI_ERROR_NSUP_WIDTH => ErrorType::NsupWidth,
            bindings::VI_ERROR_INV_PARAMETER => ErrorType::InvParameter,
            bindings::VI_ERROR_INV_PROT => ErrorType::InvProt,
            bindings::VI_ERROR_INV_SIZE => ErrorType::InvSize,
            bindings::VI_ERROR_WINDOW_MAPPED => ErrorType::WindowMapped,
            bindings::VI_ERROR_NIMPL_OPER => ErrorType::NimplOper,
            bindings::VI_ERROR_INV_LENGTH => ErrorType::InvLength,
            bindings::VI_ERROR_INV_MODE => ErrorType::InvMode,
            bindings::VI_ERROR_SESN_NLOCKED => ErrorType::SesnNlocked,
            bindings::VI_ERROR_MEM_NSHARED => ErrorType::MemNshared,
            bindings::VI_ERROR_LIBRARY_NFOUND => ErrorType::LibraryNfound,
            bindings::VI_ERROR_NSUP_INTR => ErrorType::NsupIntr,
            bindings::VI_ERROR_INV_LINE => ErrorType::InvLine,
            bindings::VI_ERROR_FILE_ACCESS => ErrorType::FileAccess,
            bindings::VI_ERROR_FILE_IO => ErrorType::FileIo,
            bindings::VI_ERROR_NSUP_LINE => ErrorType::NsupLine,
            bindings::VI_ERROR_NSUP_MECH => ErrorType::NsupMech,
            bindings::VI_ERROR_INTF_NUM_NCONFIG => ErrorType::IntfNumNconfig,
            bindings::VI_ERROR_CONN_LOST => ErrorType::ConnLost,
            bindings::VI_ERROR_NPERMISSION => ErrorType::Npermission,
            _ => ErrorType::SystemError,
        }
    }

    /// The words that describe this kind.
    pub open spec fn spec_message(self) -> Seq<char> {
        match self {
            ErrorType::SystemError => "System error"@,
            ErrorType::InvObject => "Invalid object"@,
            ErrorType::RsrcLocked => "Resource locked"@,
            ErrorType::InvExpr => "Invalid expression"@,
            ErrorType::RsrcNfound => "Resource not found"@,
            ErrorType::InvRsrcName => "Invalid resource name"@,
            ErrorType::InvAccMode => "Invalid access mode"@,
            ErrorType::Tmo => "Timeout"@,
            ErrorType::ClosingFailed => "Closing failed"@,
            ErrorType::InvDegree => "Invalid degree"@,
            ErrorType::InvJobId => "Invalid job ID"@,
            ErrorType::NsupAttr => "Attribute not supported"@,
            ErrorType::NsupAttrState => "Attribute state not supported"@,
            ErrorType::AttrReadonly => "Attribute is read-only"@,
            ErrorType::InvLockType => "Invalid lock type"@,
            ErrorType::InvAccessKey => "Invalid access key"@,
            ErrorType::InvEvent => "Invalid event"@,
            ErrorType::InvMech => "Invalid mechanism"@,
            ErrorType::HndlrNinstalled => "Handler not installed"@,
            ErrorType::InvHndlrRef => "Invalid handler reference"@,
            ErrorType::InvContext => "Invalid context"@,
            ErrorType::Nenabled => "Not enabled"@,
            ErrorType::Abort => "Abort"@,
            ErrorType::RawWrProtViol => "Raw write protection violation"@,
            ErrorType::RawRdProtViol => "Raw read protection violation"@,
            ErrorType::OutpProtViol => "Output protection violation"@,
            ErrorType::InpProtViol => "Input protection violation"@,
            ErrorType::Berr => "Bus error"@,
            ErrorType::InProgress => "Operation in progress"@,
            ErrorType::InvSetup => "Invalid setup"@,
            ErrorType::QueueError => "Queue error"@,
            ErrorType::Alloc => "Allocation error"@,
            ErrorType::InvMask => "Invalid mask"@,
            ErrorType::Io => "I/O error"@,
            ErrorType::InvFmt => "Invalid format"@,
            ErrorType::NsupFmt => "Format not supported"@,
            ErrorType::LineInUse => "Line in use"@,
            ErrorType::LineNreserved => "Line not reserved"@,
            ErrorType::NsupMode => "Mode not supported"@,
            ErrorType::SrqNoccurred => "SRQ not occurred"@,
            ErrorType::InvSpace => "Invalid space"@,
            ErrorType::InvOffset => "Invalid offset"@,
            ErrorType::InvWidth => "Invalid width"@,
            ErrorType::NsupOffset => "Offset not supported"@,
            ErrorType::NsupVarWidth => "Variable width not supported"@,
            ErrorType::WindowNmapped => "Window not mapped"@,
            ErrorType::RespPending => "Response pending"@,
            ErrorType::Nlisteners => "Number of listeners"@,
            ErrorType::Ncic => "CIC not supported"@,
            ErrorType::NsysCntlr => "System controller not supported"@,
            ErrorType::NsupOper => "Operation not supported"@,
            ErrorType::IntrPending => "Interrupt pending"@,
            ErrorType::AsrlParity => "Asynchronous parity error"@,
            ErrorType::AsrlFraming => "Asynchronous framing error"@,
            ErrorType::AsrlOverrun => "Asynchronous overrun error"@,
            ErrorType::TrigNmapped => "Trigger not mapped"@,
            ErrorType::NsupAlignOffset => "Alignment offset not supported"@,
            ErrorType::UserBuf => "User buffer"@,
            ErrorType::RsrcBusy => "Resource busy"@,
            ErrorType::NsupWidth => "Width not supported"@,
            ErrorType::InvParameter => "Invalid parameter"@,
            ErrorType::InvProt => "Invalid protection"@,
            ErrorType::InvSize => "Invalid size"@,
            ErrorType::WindowMapped => "Window mapped"@,
            ErrorType::NimplOper => "Operation not implemented"@,
            ErrorType::InvLength => "Invalid length"@,
            ErrorType::InvMode => "Invalid mode"@,
            ErrorType::SesnNlocked => "Session not locked"@,
            ErrorType::MemNshared => "Memory not shared"@,
            ErrorType::LibraryNfound => "Library not found"@,
            ErrorType::NsupIntr => "Interrupt not supported"@,
            ErrorType::InvLine => "Invalid line"@,
            ErrorType::FileAccess => "File access error"@,
            ErrorType::FileIo => "File I/O error"@,
            ErrorType::NsupLine => "Line not supported"@,
            ErrorType::NsupMech => "Mechanism not supported"@,
            ErrorType::IntfNumNconfig => "Interface number not configured"@,
            ErrorType::ConnLost => "Connection lost"@,
            ErrorType::Npermission => "No permission"@,
        }
    }

    /// The words that describe this kind.
    pub fn message(self) -> (text: &'static str)
        ensures
            text@ == self.spec_message(),
    {
        match self {
            ErrorType::SystemError => "System error",
            ErrorType::InvObject => "Invalid object",
            ErrorType::RsrcLocked => "Resource locked",
            ErrorType::InvExpr => "Invalid expression",
            ErrorType::RsrcNfound => "Resource not found",
            ErrorType::InvRsrcName => "Invalid resource name",
            ErrorType::InvAccMode => "Invalid access mode",
            ErrorType::Tmo => "Timeout",
            ErrorType::ClosingFailed => "Closing failed",
            ErrorType::InvDegree => "Invalid degree",
            ErrorType::InvJobId => "Invalid job ID",
            ErrorType::NsupAttr => "Attribute not supported",
            ErrorType::NsupAttrState => "Attribute state not supported",
            ErrorType::AttrReadonly => "Attribute is read-only",
            ErrorType::InvLockType => "Invalid lock type",
            ErrorType::InvAccessKey => "Invalid access key",
            ErrorType::InvEvent => "Invalid event",
            ErrorType::InvMech => "Invalid mechanism",
            ErrorType::HndlrNinstalled => "Handler not installed",
            ErrorType::InvHndlrRef => "Invalid handler reference",
            ErrorType::InvContext => "Invalid context",
            ErrorType::Nenabled => "Not enabled",
            ErrorType::Abort => "Abort",
            ErrorType::RawWrProtViol => "Raw write protection violation",
            ErrorType::RawRdProtViol => "Raw read protection violation",
            ErrorType::OutpProtViol => "Output protection violation",
            ErrorType::InpProtViol => "Input protection violation",
            ErrorType::Berr => "Bus error",
            ErrorType::InProgress => "Operation in progress",
            ErrorType::InvSetup => "Invalid setup",
            ErrorType::QueueError => "Queue error",
            ErrorType::Alloc => "Allocation error",
            ErrorType::InvMask => "Invalid mask",
            ErrorType::Io => "I/O error",
            ErrorType::InvFmt => "Invalid format",
            ErrorType::NsupFmt => "Format not supported",
            ErrorType::LineInUse => "Line in use",
            ErrorType::LineNreserved => "Line not reserved",
            ErrorType::NsupMode => "Mode not supported",
            ErrorType::SrqNoccurred => "SRQ not occurred",
            ErrorType::InvSpace => "Invalid space",
            ErrorType::InvOffset => "Invalid offset",
            ErrorType::InvWidth => "Invalid width",
            ErrorType::NsupOffset => "Offset not supported",
            ErrorType::NsupVarWidth => "Variable width not supported",
            ErrorType::WindowNmapped => "Window not mapped",
            ErrorType::RespPending => "Response pending",
            ErrorType::Nlisteners => "Number of listeners",
            ErrorType::Ncic => "CIC not supported",
            ErrorType::NsysCntlr => "System controller not supported",
            ErrorType::NsupOper => "Operation not supported",
            ErrorType::IntrPending => "Interrupt pending",
            ErrorType::AsrlParity => "Asynchronous parity error",
            ErrorType::AsrlFraming => "Asynchronous framing error",
            ErrorType::AsrlOverrun => "Asynchronous overrun error",
            ErrorType::TrigNmapped => "Trigger not mapped",
            ErrorType::NsupAlignOffset => "Alignment offset not supported",
            ErrorType::UserBuf => "User buffer",
            ErrorType::RsrcBusy => "Resource busy",
            ErrorType::NsupWidth => "Width not supported",
            ErrorType::InvParameter => "Invalid parameter",
            ErrorType::InvProt => "Invalid protection",
            ErrorType::InvSize => "Invalid size",
            ErrorType::WindowMapped => "Window mapped",
            ErrorType::NimplOper => "Operation not implemented",
            ErrorType::InvLength => "Invalid length",
            ErrorType::InvMode => "Invalid mode",
            ErrorType::SesnNlocked => "Session not locked",
            ErrorType::MemNshared => "Memory not shared",
            ErrorType::LibraryNfound => "Library not found",
            ErrorType::NsupIntr => "Interrupt not supported",
            ErrorType::InvLine => "Invalid line",
            ErrorType::FileAccess => "File access error",
            ErrorType::FileIo => "File I/O error",
            ErrorType::NsupLine => "Line not supported",
            ErrorType::NsupMech => "Mechanism not supported",
            ErrorType::IntfNumNconfig => "Interface number not configured",
            ErrorType::ConnLost => "Connection lost",
            ErrorType::Npermission => "No permission",
        }
    }

    /// Every kind is classified back from its own code: no two kinds share a
    /// code.
    pub proof fn lemma_classify_code(kind: ErrorType)
        ensures
            ErrorType::classify(kind.spec_code()) == kind,
    {
    }

    /// A classified status is either the code of its kind or a code that
    /// denotes no kind at all, which falls to `SystemError`.
    pub proof fn lemma_classify_total(status: ViStatus)
        ensures
            ErrorType::classify(status).spec_code() == status || (ErrorType::classify(status)
                == ErrorType::SystemError && forall|kind: ErrorType| #[trigger]
                kind.spec_code() != status),
    {
    }

    /// No kind carries a success code.
    pub proof fn lemma_kinds_are_failures(kind: ErrorType)
        ensures
            !is_success(kind.spec_code()),
    {
    }
}

impl Default for ErrorType {
    fn default() -> (kind: ErrorType)
        ensures
            kind == ErrorType::SystemError,
    {
        ErrorType::SystemError
    }
}

impl From<ViStatus> for ErrorType {
    fn from(value: ViStatus) -> (kind: ErrorType) {
        match value {
            bindings::VI_ERROR_SYSTEM_ERROR => ErrorType::SystemError,
            bindings::VI_ERROR_INV_OBJECT => ErrorType::InvObject,
            bindings::VI_ERROR_RSRC_LOCKED => ErrorType::RsrcLocked,
            bindings::VI_ERROR_INV_EXPR => ErrorType::InvExpr,
            bindings::VI_ERROR_RSRC_NFOUND => ErrorType::RsrcNfound,
            bindings::VI_ERROR_INV_RSRC_NAME => ErrorType::InvRsrcName,
            bindings::VI_ERROR_INV_ACC_MODE => ErrorType::InvAccMode,
            bindings::VI_ERROR_TMO => ErrorType::Tmo,
            bindings::VI_ERROR_CLOSING_FAILED => ErrorType::ClosingFailed,
            bindings::VI_ERROR_INV_DEGREE => ErrorType::InvDegree,
            bindings::VI_ERROR_INV_JOB_ID => ErrorType::InvJobId,
            bindings::VI_ERROR_NSUP_ATTR => ErrorType::NsupAttr,
            bindings::VI_ERROR_NSUP_ATTR_STATE => ErrorType::NsupAttrState,
            bindings::VI_ERROR_ATTR_READONLY => ErrorType::AttrReadonly,
            bindings::VI_ERROR_INV_LOCK_TYPE => ErrorType::InvLockType,
            bindings::VI_ERROR_INV_ACCESS_KEY => ErrorType::InvAccessKey,
            bindings::VI_ERROR_INV_EVENT => ErrorType::InvEvent,
            bindings::VI_ERROR_INV_MECH => ErrorType::InvMech,
            bindings::VI_ERROR_HNDLR_NINSTALLED => ErrorType::HndlrNinstalled,
            bindings::VI_ERROR_INV_HNDLR_REF => ErrorType::InvHndlrRef,
            bindings::VI_ERROR_INV_CONTEXT => ErrorType::InvContext,
            bindings::VI_ERROR_NENABLED => ErrorType::Nenabled,
            bindings::VI_ERROR_ABORT => ErrorType::Abort,
            bindings::VI_ERROR_RAW_WR_PROT_VIOL => ErrorType::RawWrProtViol,
            bindings::VI_ERROR_RAW_RD_PROT_VIOL => ErrorType::RawRdProtViol,
            bindings::VI_ERROR_OUTP_PROT_VIOL => ErrorType::OutpProtViol,
            bindings::VI_ERROR_INP_PROT_VIOL => ErrorType::InpProtViol,
            bindings::VI_ERROR_BERR => ErrorType::Berr,
            bindings::VI_ERROR_IN_PROGRESS => ErrorType::InProgress,
            bindings::VI_ERROR_INV_SETUP => ErrorType::InvSetup,
            bindings::VI_ERROR_QUEUE_ERROR => ErrorType::QueueError,
            bindings::VI_ERROR_ALLOC => ErrorType::Alloc,
            bindings::VI_ERROR_INV_MASK => ErrorType::InvMask,
            bindings::VI_ERROR_IO => ErrorType::Io,
            bindings::VI_ERROR_INV_FMT => ErrorType::InvFmt,
            bindings::VI_ERROR_NSUP_FMT => ErrorType::NsupFmt,
            bindings::VI_ERROR_LINE_IN_USE => ErrorType::LineInUse,
            bindings::VI_ERROR_LINE_NRESERVED => ErrorType::LineNreserved,
            bindings::VI_ERROR_NSUP_MODE => ErrorType::NsupMode,
            bindings::VI_ERROR_SRQ_NOCCURRED => ErrorType::SrqNoccurred,
            bindings::VI_ERROR_INV_SPACE => ErrorType::InvSpace,
            bindings::VI_ERROR_INV_OFFSET => ErrorType::InvOffset,
            bindings::VI_ERROR_INV_WIDTH => ErrorType::InvWidth,
            bindings::VI_ERROR_NSUP_OFFSET => ErrorType::NsupOffset,
            bindings::VI_ERROR_NSUP_VAR_WIDTH => ErrorType::NsupVarWidth,
            bindings::VI_ERROR_WINDOW_NMAPPED => ErrorType::WindowNmapped,
            bindings::VI_ERROR_RESP_PENDING => ErrorType::RespPending,
            bindings::VI_ERROR_NLISTENERS => ErrorType::Nlisteners,
            bindings::VI_ERROR_NCIC => ErrorType::Ncic,
            bindings::VI_ERROR_NSYS_CNTLR => ErrorType::NsysCntlr,
            bindings::VI_ERROR_NSUP_OPER => ErrorType::NsupOper,
            bindings::VI_ERROR_INTR_PENDING => ErrorType::IntrPending,
            bindings::VI_ERROR_ASRL_PARITY => ErrorType::AsrlParity,
            bindings::VI_ERROR_ASRL_FRAMING => ErrorType::AsrlFraming,
            bindings::VI_ERROR_ASRL_OVERRUN => ErrorType::AsrlOverrun,
            bindings::VI_ERROR_TRIG_NMAPPED => ErrorType::TrigNmapped,
            bindings::VI_ERROR_NSUP_ALIGN_OFFSET => ErrorType::NsupAlignOffset,
            bindings::VI_ERROR_USER_BUF => ErrorType::UserBuf,
            bindings::VI_ERROR_RSRC_BUSY => ErrorType::RsrcBusy,
            bindings::VI_ERROR_NSUP_WIDTH => ErrorType::NsupWidth,
            bindings::VI_ERROR_INV_PARAMETER => ErrorType::InvParameter,
            bindings::VI_ERROR_INV_PROT => ErrorType::InvProt,
            bindings::VI_ERROR_INV_SIZE => ErrorType::InvSize,
            bindings::VI_ERROR_WINDOW_MAPPED => ErrorType::WindowMapped,
            bindings::VI_ERROR_NIMPL_OPER => ErrorType::NimplOper,
            bindings::VI_ERROR_INV_LENGTH => ErrorType::InvLength,
            bindings::VI_ERROR_INV_MODE => ErrorType::InvMode,
            bindings::VI_ERROR_SESN_NLOCKED => ErrorType::SesnNlocked,
            bindings::VI_ERROR_MEM_NSHARED => ErrorType::MemNshared,
            bindings::VI_ERROR_LIBRARY_NFOUND => ErrorType::LibraryNfound,
            bindings::VI_ERROR_NSUP_INTR => ErrorType::NsupIntr,
            bindings::VI_ERROR_INV_LINE => ErrorType::InvLine,
            bindings::VI_ERROR_FILE_ACCESS => ErrorType::FileAccess,
            bindings::VI_ERROR_FILE_IO => ErrorType::FileIo,
            bindings::VI_ERROR_NSUP_LINE => ErrorType::NsupLine,
            bindings::VI_ERROR_NSUP_MECH => ErrorType::NsupMech,
            bindings::VI_ERROR_INTF_NUM_NCONFIG => ErrorType::IntfNumNconfig,
            bindings::VI_ERROR_CONN_LOST => ErrorType::ConnLost,
            bindings::VI_ERROR_NPERMISSION => ErrorType::Npermission,
            _ => ErrorType::SystemError,
        }
    }
}

impl FromSpecImpl<ViStatus> for ErrorType {
    open spec fn obeys_from_spec() -> bool {
        true
    }

    open spec fn from_spec(value: ViStatus) -> ErrorType {
        ErrorType::classify(value)
    }
}

/// Whether a status code is one of the success variants, the benign
/// informational ones included.
pub open spec fn is_success(status: ViStatus) -> bool {
    ||| status == bindings::VI_SUCCESS
    ||| status == bindings::VI_SUCCESS_EVENT_EN
    ||| status == bindings::VI_SUCCESS_EVENT_DIS
    ||| status == bindings::VI_SUCCESS_QUEUE_EMPTY
    ||| status == bindings::VI_SUCCESS_TERM_CHAR
    ||| status == bindings::VI_SUCCESS_MAX_CNT
    ||| status == bindings::VI_SUCCESS_DEV_NPRESENT
    ||| status == bindings::VI_SUCCESS_TRIG_MAPPED
    ||| status == bindings::VI_SUCCESS_QUEUE_NEMPTY
    ||| status == bindings::VI_SUCCESS_NCHAIN
    ||| status == bindings::VI_SUCCESS_NESTED_SHARED
    ||| status == bindings::VI_SUCCESS_NESTED_EXCLUSIVE
    ||| status == bindings::VI_SUCCESS_SYNC
}

/// The text that a description reply carries: none where the fetch itself
/// failed; otherwise the C string in the buffer, or the empty text where that
/// is not UTF-8.
pub open spec fn description_text(status: ViStatus, buffer: Seq<u8>) -> Option<Seq<char>> {
    if !is_success(status) {
        None
    } else if valid_utf8(until_nul(buffer)) {
        Some(decode_utf8(until_nul(buffer)))
    } else {
        Some(Seq::empty())
    }
}

/// A failure: its kind and, where one could be had, a description.
#[derive(Debug, Clone)]
pub struct Error {
    /// The kind of the failure.
    pub status: ErrorType,
    /// A description of the failure.
    pub description: Option<String>,
}

impl Default for Error {
    fn default() -> (error: Error)
        ensures
            error.status == ErrorType::SystemError,
            error.text() is None,
    {
        Error { status: ErrorType::SystemError, description: None }
    }
}

impl Error {
    /// The longest description a transport hands back, in bytes.
    pub const MAX_DESC_LENGTH: usize = 1024;

    /// The description as text.
    pub open spec fn text(&self) -> Option<Seq<char>> {
        match self.description {
            Some(d) => Some(d@),
            None => None,
        }
    }

    /// Whether `self` is the error raised for the failed status `raw_status`
    /// while the trace went from `before` to `after`: it has the kind that
    /// the status denotes; with a session, one description fetch for that
    /// status was made and its reply is the description; without one, nothing
    /// was exchanged and there is no description.
    pub open spec fn raised(
        &self,
        raw_status: ViStatus,
        session: Option<ViSession>,
        before: Seq<Call>,
        after: Seq<Call>,
    ) -> bool {
        &&& self.status == ErrorType::classify(raw_status)
        &&& match session {
            None => after == before && self.text() is None,
            Some(vi) => {
                &&& after.len() == before.len() + 1
                &&& after.drop_last() == before
                &&& after.last() matches Call::StatusDesc { session: s, code, status, text }
                &&& s == vi
                &&& code == raw_status
                &&& self.text() == description_text(status, text)
            },
        }
    }

    /// Whether `result` is what the choke point makes of `status`: success
    /// with nothing exchanged, or the error raised for it.
    pub open spec fn checked(
        result: Result<(), Error>,
        status: ViStatus,
        session: Option<ViSession>,
        before: Seq<Call>,
        after: Seq<Call>,
    ) -> bool {
        match result {
            Ok(()) => is_success(status) && after == before,
            Err(error) => !is_success(status) && error.raised(status, session, before, after),
        }
    }

    /// Whether a status code is one of the success variants.
    pub fn succeeded(status: ViStatus) -> (ok: bool)
        ensures
            ok == is_success(status),
    {
        status == bindings::VI_SUCCESS || status == bindings::VI_SUCCESS_EVENT_EN || status
            == bindings::VI_SUCCESS_EVENT_DIS || status == bindings::VI_SUCCESS_QUEUE_EMPTY
            || status == bindings::VI_SUCCESS_TERM_CHAR || status == bindings::VI_SUCCESS_MAX_CNT
            || status == bindings::VI_SUCCESS_DEV_NPRESENT || status
            == bindings::VI_SUCCESS_TRIG_MAPPED || status == bindings::VI_SUCCESS_QUEUE_NEMPTY
            || status == bindings::VI_SUCCESS_NCHAIN || status
            == bindings::VI_SUCCESS_NESTED_SHARED || status
            == bindings::VI_SUCCESS_NESTED_EXCLUSIVE || status == bindings::VI_SUCCESS_SYNC
    }

    /// The description that a reply to a description fetch carries.
    pub fn description_from_reply(status: ViStatus, buffer: &[u8]) -> (description: Option<String>)
        ensures
            match description {
                Some(d) => description_text(status, buffer@) == Some(d@),
                None => description_text(status, buffer@) is None,
            },
    {
        if !Self::succeeded(status) {
            return None;
        }
        match utf8_text(c_string_bytes(buffer)) {
            Some(text) => Some(text),
            None => Some(String::new()),
        }
    }

    /// The error for a status code. A success code gives the default error.
    /// For a failure the kind is the one that the code denotes, and where a
    /// session is given its description is fetched from the transport.
    pub fn new<T: Transport>(
        raw_status: ViStatus,
        session: Option<ViSession>,
        link: &mut Link<T>,
    ) -> (error: Error)
        ensures
            is_success(raw_status) ==> error.status == ErrorType::SystemError && error.text()
                is None && final(link).trace() == old(link).trace(),
            !is_success(raw_status) ==> error.raised(
                raw_status,
                session,
                old(link).trace(),
                final(link).trace(),
            ),
            continues(old(link).trace(), final(link).trace()),
    {
        if Self::succeeded(raw_status) {
            return Error::default();
        }
        match session {
            Some(vi) => {
                let reply = link.status_desc(vi, raw_status);
                let description = Self::description_from_reply(reply.0, reply.1.as_slice());
                assert(final(link).trace().drop_last() == old(link).trace());
                Error { status: ErrorType::from(raw_status), description }
            },
            None => Error { status: ErrorType::from(raw_status), description: None },
        }
    }

    /// An error that carries only a message; its kind is the catch-all.
    pub fn from_msg(description: &str) -> (error: Error)
        ensures
            error.status == ErrorType::SystemError,
            error.text() == Some(description@),
    {
        Error { status: ErrorType::default(), description: Some(String::from_str(description)) }
    }

    /// The choke point for every transport call: a success code passes, any
    /// other becomes the error raised for it.
    pub fn wrap_binding<T: Transport>(
        session: Option<ViSession>,
        status: ViStatus,
        link: &mut Link<T>,
    ) -> (result: Result<(), Error>)
        ensures
            Error::checked(result, status, session, old(link).trace(), final(link).trace()),
            continues(old(link).trace(), final(link).trace()),
    {
        if Self::succeeded(status) {
            Ok(())
        } else {
            Err(Self::new(status, session, link))
        }
    }

    /// What an error of this kind and description prints as: the kind in
    /// words, followed by the description where there is one.
    pub open spec fn printed(kind: ErrorType, description: Option<Seq<char>>) -> Seq<char> {
        match description {
            Some(d) => kind.spec_message() + ": "@ + d,
            None => kind.spec_message(),
        }
    }

    /// What this error prints as.
    pub open spec fn spec_message(&self) -> Seq<char> {
        Self::printed(self.status, self.text())
    }

    /// Whether `self` is what a byte stream hands on of the error raised for
    /// the failed status `raw_status`: the description fetch was made, and
    /// `self` is of the catch-all kind and describes itself with what the
    /// raised error prints as.
    pub open spec fn relays(
        &self,
        raw_status: ViStatus,
        session: ViSession,
        before: Seq<Call>,
        after: Seq<Call>,
    ) -> bool {
        &&& self.status == ErrorType::SystemError
        &&& after.len() == before.len() + 1
        &&& after.drop_last() == before
        &&& after.last() matches Call::StatusDesc { session: s, code, status, text }
        &&& s == session
        &&& code == raw_status
        &&& self.text() == Some(
            Self::printed(ErrorType::classify(raw_status), description_text(status, text)),
        )
    }

    /// What a byte stream hands on of an error: the catch-all kind, described
    /// by what the error prints as.
    pub fn relayed(inner: &Error) -> (error: Error)
        ensures
            error.status == ErrorType::SystemError,
            error.text() == Some(inner.spec_message()),
    {
        Error { status: ErrorType::SystemError, description: Some(inner.message()) }
    }

    /// The kind in words, followed by the description where there is one.
    pub fn message(&self) -> (text: String)
        ensures
            text@ == self.spec_message(),
    {
        let mut text = String::from_str(self.status.message());
        match &self.description {
            Some(d) => {
                text.append(": ");
                text.append(d.as_str());
            },
            None => {},
        }
        text
    }
}

} // verus!
