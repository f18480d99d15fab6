use libvisa::attribute::{
    decode, encode, Access, AccessMode, AccessPrivilege, AsViReadable, AsViWritable, AsrlEnd,
    AsrlFlowCntrlType, AsrlParityType, AsrlState, AsrlStopBitsType, AttrValue, AttributeType,
    ByteOrder, Codec, FdcModeType, GpibAddrStateType, GpibHs488CableLength, InterfaceType,
    PxiSlotLBus, RawKind, RawValue, State, UsbRecvIntrData, VxiDevClassType, WrBufOperModeType,
};
use libvisa::attribute::raw::sign_extend;
use libvisa::bindings;
use libvisa::error::ErrorType;
use libvisa::time::TimeSpan;

fn all_kinds() -> Vec<(AttributeType, u32)> {
    vec![
        (AttributeType::RsrcClass, bindings::VI_ATTR_RSRC_CLASS),
        (AttributeType::RsrcName, bindings::VI_ATTR_RSRC_NAME),
        (AttributeType::RsrcImplVersion, bindings::VI_ATTR_RSRC_IMPL_VERSION),
        (AttributeType::RsrcLockState, bindings::VI_ATTR_RSRC_LOCK_STATE),
        (AttributeType::MaxQueueLength, bindings::VI_ATTR_MAX_QUEUE_LENGTH),
        (AttributeType::FdcChnl, bindings::VI_ATTR_FDC_CHNL),
        (AttributeType::FdcMode, bindings::VI_ATTR_FDC_MODE),
        (AttributeType::FdcGenSignalEn, bindings::VI_ATTR_FDC_GEN_SIGNAL_EN),
        (AttributeType::FdcUsePair, bindings::VI_ATTR_FDC_USE_PAIR),
        (AttributeType::SendEndEn, bindings::VI_ATTR_SEND_END_EN),
        (AttributeType::TermChar, bindings::VI_ATTR_TERMCHAR),
        (AttributeType::TmoValue, bindings::VI_ATTR_TMO_VALUE),
        (AttributeType::GpibReaddrEn, bindings::VI_ATTR_GPIB_READDR_EN),
        (AttributeType::IoProt, bindings::VI_ATTR_IO_PROT),
        (AttributeType::DmaAllowEn, bindings::VI_ATTR_DMA_ALLOW_EN),
        (AttributeType::AsrlBaud, bindings::VI_ATTR_ASRL_BAUD),
        (AttributeType::AsrlDataBits, bindings::VI_ATTR_ASRL_DATA_BITS),
        (AttributeType::AsrlParity, bindings::VI_ATTR_ASRL_PARITY),
        (AttributeType::AsrlStopBits, bindings::VI_ATTR_ASRL_STOP_BITS),
        (AttributeType::AsrlFlowCntrl, bindings::VI_ATTR_ASRL_FLOW_CNTRL),
        (AttributeType::RdBufOperMode, bindings::VI_ATTR_RD_BUF_OPER_MODE),
        (AttributeType::RdBufSize, bindings::VI_ATTR_RD_BUF_SIZE),
        (AttributeType::WrBufOperMode, bindings::VI_ATTR_WR_BUF_OPER_MODE),
        (AttributeType::WrBufSize, bindings::VI_ATTR_WR_BUF_SIZE),
        (AttributeType::SuppressEndEn, bindings::VI_ATTR_SUPPRESS_END_EN),
        (AttributeType::TermCharEn, bindings::VI_ATTR_TERMCHAR_EN),
        (AttributeType::DestAccessPriv, bindings::VI_ATTR_DEST_ACCESS_PRIV),
        (AttributeType::DestByteOrder, bindings::VI_ATTR_DEST_BYTE_ORDER),
        (AttributeType::SrcAccessPriv, bindings::VI_ATTR_SRC_ACCESS_PRIV),
        (AttributeType::SrcByteOrder, bindings::VI_ATTR_SRC_BYTE_ORDER),
        (AttributeType::SrcIncrement, bindings::VI_ATTR_SRC_INCREMENT),
        (AttributeType::DestIncrement, bindings::VI_ATTR_DEST_INCREMENT),
        (AttributeType::WinAccessPriv, bindings::VI_ATTR_WIN_ACCESS_PRIV),
        (AttributeType::WinByteOrder, bindings::VI_ATTR_WIN_BYTE_ORDER),
        (AttributeType::GpibAtnState, bindings::VI_ATTR_GPIB_ATN_STATE),
        (AttributeType::GpibAddrState, bindings::VI_ATTR_GPIB_ADDR_STATE),
        (AttributeType::GpibCicState, bindings::VI_ATTR_GPIB_CIC_STATE),
        (AttributeType::GpibNdacState, bindings::VI_ATTR_GPIB_NDAC_STATE),
        (AttributeType::GpibSrqState, bindings::VI_ATTR_GPIB_SRQ_STATE),
        (AttributeType::GpibSysCntrlState, bindings::VI_ATTR_GPIB_SYS_CNTRL_STATE),
        (AttributeType::GpibHs488CblLen, bindings::VI_ATTR_GPIB_HS488_CBL_LEN),
        (AttributeType::CmdrLa, bindings::VI_ATTR_CMDR_LA),
        (AttributeType::VxiDevClass, bindings::VI_ATTR_VXI_DEV_CLASS),
        (AttributeType::MainframeLa, bindings::VI_ATTR_MAINFRAME_LA),
        (AttributeType::ManfName, bindings::VI_ATTR_MANF_NAME),
        (AttributeType::ModelName, bindings::VI_ATTR_MODEL_NAME),
        (AttributeType::VxiVmeIntrStatus, bindings::VI_ATTR_VXI_VME_INTR_STATUS),
        (AttributeType::VxiTrigStatus, bindings::VI_ATTR_VXI_TRIG_STATUS),
        (AttributeType::VxiVmeSysfailState, bindings::VI_ATTR_VXI_VME_SYSFAIL_STATE),
        (AttributeType::AsrlAvailNum, bindings::VI_ATTR_ASRL_AVAIL_NUM),
        (AttributeType::AsrlCtsState, bindings::VI_ATTR_ASRL_CTS_STATE),
        (AttributeType::AsrlDcdState, bindings::VI_ATTR_ASRL_DCD_STATE),
        (AttributeType::AsrlDsrState, bindings::VI_ATTR_ASRL_DSR_STATE),
        (AttributeType::AsrlDtrState, bindings::VI_ATTR_ASRL_DTR_STATE),
        (AttributeType::AsrlEndIn, bindings::VI_ATTR_ASRL_END_IN),
        (AttributeType::AsrlEndOut, bindings::VI_ATTR_ASRL_END_OUT),
        (AttributeType::AsrlReplaceChar, bindings::VI_ATTR_ASRL_REPLACE_CHAR),
        (AttributeType::AsrlRiState, bindings::VI_ATTR_ASRL_RI_STATE),
        (AttributeType::AsrlRtsState, bindings::VI_ATTR_ASRL_RTS_STATE),
        (AttributeType::AsrlXonChar, bindings::VI_ATTR_ASRL_XON_CHAR),
        (AttributeType::AsrlXoffChar, bindings::VI_ATTR_ASRL_XOFF_CHAR),
        (AttributeType::WinAccess, bindings::VI_ATTR_WIN_ACCESS),
        (AttributeType::RmSession, bindings::VI_ATTR_RM_SESSION),
        (AttributeType::VxiLa, bindings::VI_ATTR_VXI_LA),
        (AttributeType::ManfId, bindings::VI_ATTR_MANF_ID),
        (AttributeType::MemSpace, bindings::VI_ATTR_MEM_SPACE),
        (AttributeType::ModelCode, bindings::VI_ATTR_MODEL_CODE),
        (AttributeType::Slot, bindings::VI_ATTR_SLOT),
        (AttributeType::IntfInstName, bindings::VI_ATTR_INTF_INST_NAME),
        (AttributeType::ImmediateServ, bindings::VI_ATTR_IMMEDIATE_SERV),
        (AttributeType::IntfParentNum, bindings::VI_ATTR_INTF_PARENT_NUM),
        (AttributeType::RsrcSpecVersion, bindings::VI_ATTR_RSRC_SPEC_VERSION),
        (AttributeType::IntfType, bindings::VI_ATTR_INTF_TYPE),
        (AttributeType::GpibPrimaryAddr, bindings::VI_ATTR_GPIB_PRIMARY_ADDR),
        (AttributeType::GpibSecondaryAddr, bindings::VI_ATTR_GPIB_SECONDARY_ADDR),
        (AttributeType::RsrcManfName, bindings::VI_ATTR_RSRC_MANF_NAME),
        (AttributeType::RsrcManfId, bindings::VI_ATTR_RSRC_MANF_ID),
        (AttributeType::IntfNum, bindings::VI_ATTR_INTF_NUM),
        (AttributeType::TrigId, bindings::VI_ATTR_TRIG_ID),
        (AttributeType::GpibRenState, bindings::VI_ATTR_GPIB_REN_STATE),
        (AttributeType::GpibUnaddrEn, bindings::VI_ATTR_GPIB_UNADDR_EN),
        (AttributeType::DevStatusByte, bindings::VI_ATTR_DEV_STATUS_BYTE),
        (AttributeType::FileAppendEn, bindings::VI_ATTR_FILE_APPEND_EN),
        (AttributeType::VxiTrigSupport, bindings::VI_ATTR_VXI_TRIG_SUPPORT),
        (AttributeType::TcpipAddr, bindings::VI_ATTR_TCPIP_ADDR),
        (AttributeType::TcpipHostname, bindings::VI_ATTR_TCPIP_HOSTNAME),
        (AttributeType::TcpipPort, bindings::VI_ATTR_TCPIP_PORT),
        (AttributeType::TcpipDeviceName, bindings::VI_ATTR_TCPIP_DEVICE_NAME),
        (AttributeType::TcpipNodelay, bindings::VI_ATTR_TCPIP_NODELAY),
        (AttributeType::TcpipKeepalive, bindings::VI_ATTR_TCPIP_KEEPALIVE),
        (AttributeType::Is4882Compliant, bindings::VI_ATTR_4882_COMPLIANT),
        (AttributeType::UsbSerialNum, bindings::VI_ATTR_USB_SERIAL_NUM),
        (AttributeType::UsbIntfcNum, bindings::VI_ATTR_USB_INTFC_NUM),
        (AttributeType::UsbProtocol, bindings::VI_ATTR_USB_PROTOCOL),
        (AttributeType::UsbMaxIntrSize, bindings::VI_ATTR_USB_MAX_INTR_SIZE),
        (AttributeType::PxiDevNum, bindings::VI_ATTR_PXI_DEV_NUM),
        (AttributeType::PxiFuncNum, bindings::VI_ATTR_PXI_FUNC_NUM),
        (AttributeType::PxiBusNum, bindings::VI_ATTR_PXI_BUS_NUM),
        (AttributeType::PxiChassis, bindings::VI_ATTR_PXI_CHASSIS),
        (AttributeType::PxiSlotpath, bindings::VI_ATTR_PXI_SLOTPATH),
        (AttributeType::PxiSlotLbusLeft, bindings::VI_ATTR_PXI_SLOT_LBUS_LEFT),
        (AttributeType::PxiSlotLbusRight, bindings::VI_ATTR_PXI_SLOT_LBUS_RIGHT),
        (AttributeType::PxiTrigBus, bindings::VI_ATTR_PXI_TRIG_BUS),
        (AttributeType::PxiStarTrigBus, bindings::VI_ATTR_PXI_STAR_TRIG_BUS),
        (AttributeType::PxiStarTrigLine, bindings::VI_ATTR_PXI_STAR_TRIG_LINE),
        (AttributeType::PxiSrcTrigBus, bindings::VI_ATTR_PXI_SRC_TRIG_BUS),
        (AttributeType::PxiDestTrigBus, bindings::VI_ATTR_PXI_DEST_TRIG_BUS),
        (AttributeType::PxiMemTypeBar0, bindings::VI_ATTR_PXI_MEM_TYPE_BAR0),
        (AttributeType::PxiMemTypeBar1, bindings::VI_ATTR_PXI_MEM_TYPE_BAR1),
        (AttributeType::PxiMemTypeBar2, bindings::VI_ATTR_PXI_MEM_TYPE_BAR2),
        (AttributeType::PxiMemTypeBar3, bindings::VI_ATTR_PXI_MEM_TYPE_BAR3),
        (AttributeType::PxiMemTypeBar4, bindings::VI_ATTR_PXI_MEM_TYPE_BAR4),
        (AttributeType::PxiMemTypeBar5, bindings::VI_ATTR_PXI_MEM_TYPE_BAR5),
        (AttributeType::PxiIsExpress, bindings::VI_ATTR_PXI_IS_EXPRESS),
        (AttributeType::PxiSlotLwidth, bindings::VI_ATTR_PXI_SLOT_LWIDTH),
        (AttributeType::PxiMaxLwidth, bindings::VI_ATTR_PXI_MAX_LWIDTH),
        (AttributeType::PxiActualLwidth, bindings::VI_ATTR_PXI_ACTUAL_LWIDTH),
        (AttributeType::PxiDstarBus, bindings::VI_ATTR_PXI_DSTAR_BUS),
        (AttributeType::PxiDstarSet, bindings::VI_ATTR_PXI_DSTAR_SET),
        (AttributeType::PxiAllowWriteCombine, bindings::VI_ATTR_PXI_ALLOW_WRITE_COMBINE),
        (AttributeType::TcpipHislipOverlapEn, bindings::VI_ATTR_TCPIP_HISLIP_OVERLAP_EN),
        (AttributeType::TcpipHislipVersion, bindings::VI_ATTR_TCPIP_HISLIP_VERSION),
        (AttributeType::TcpipHislipMaxMessageKb, bindings::VI_ATTR_TCPIP_HISLIP_MAX_MESSAGE_KB),
        (AttributeType::TcpipIsHislip, bindings::VI_ATTR_TCPIP_IS_HISLIP),
        (AttributeType::JobId, bindings::VI_ATTR_JOB_ID),
        (AttributeType::EventType, bindings::VI_ATTR_EVENT_TYPE),
        (AttributeType::SigpStatusId, bindings::VI_ATTR_SIGP_STATUS_ID),
        (AttributeType::RecvTrigId, bindings::VI_ATTR_RECV_TRIG_ID),
        (AttributeType::IntrStatusId, bindings::VI_ATTR_INTR_STATUS_ID),
        (AttributeType::RecvIntrLevel, bindings::VI_ATTR_RECV_INTR_LEVEL),
        (AttributeType::OperName, bindings::VI_ATTR_OPER_NAME),
        (AttributeType::GpibRecvCicState, bindings::VI_ATTR_GPIB_RECV_CIC_STATE),
        (AttributeType::RecvTcpipAddr, bindings::VI_ATTR_RECV_TCPIP_ADDR),
        (AttributeType::UsbRecvIntrSize, bindings::VI_ATTR_USB_RECV_INTR_SIZE),
        (AttributeType::UsbRecvIntrData, bindings::VI_ATTR_USB_RECV_INTR_DATA),
        (AttributeType::PxiRecvIntrSeq, bindings::VI_ATTR_PXI_RECV_INTR_SEQ),
        (AttributeType::PxiRecvIntrData, bindings::VI_ATTR_PXI_RECV_INTR_DATA),
        (AttributeType::UserData, bindings::VI_ATTR_USER_DATA),
        (AttributeType::RetCount, bindings::VI_ATTR_RET_COUNT),
        (AttributeType::WinBaseAddr, bindings::VI_ATTR_WIN_BASE_ADDR),
        (AttributeType::WinSize, bindings::VI_ATTR_WIN_SIZE),
        (AttributeType::MemBase, bindings::VI_ATTR_MEM_BASE),
        (AttributeType::MemSize, bindings::VI_ATTR_MEM_SIZE),
        (AttributeType::PxiMemBaseBar0, bindings::VI_ATTR_PXI_MEM_BASE_BAR0),
        (AttributeType::PxiMemBaseBar1, bindings::VI_ATTR_PXI_MEM_BASE_BAR1),
        (AttributeType::PxiMemBaseBar2, bindings::VI_ATTR_PXI_MEM_BASE_BAR2),
        (AttributeType::PxiMemBaseBar3, bindings::VI_ATTR_PXI_MEM_BASE_BAR3),
        (AttributeType::PxiMemBaseBar4, bindings::VI_ATTR_PXI_MEM_BASE_BAR4),
        (AttributeType::PxiMemBaseBar5, bindings::VI_ATTR_PXI_MEM_BASE_BAR5),
        (AttributeType::PxiMemSizeBar0, bindings::VI_ATTR_PXI_MEM_SIZE_BAR0),
        (AttributeType::PxiMemSizeBar1, bindings::VI_ATTR_PXI_MEM_SIZE_BAR1),
        (AttributeType::PxiMemSizeBar2, bindings::VI_ATTR_PXI_MEM_SIZE_BAR2),
        (AttributeType::PxiMemSizeBar3, bindings::VI_ATTR_PXI_MEM_SIZE_BAR3),
        (AttributeType::PxiMemSizeBar4, bindings::VI_ATTR_PXI_MEM_SIZE_BAR4),
        (AttributeType::PxiMemSizeBar5, bindings::VI_ATTR_PXI_MEM_SIZE_BAR5),
    ]
}

#[test]
fn every_kind_has_its_registry_entry() {
    let kinds = all_kinds();
    assert_eq!(kinds.len(), 155);
    for (kind, id) in &kinds {
        let descriptor = kind.descriptor();
        assert_eq!(descriptor.id, *id);
        assert_eq!(kind.id(), *id);
        match descriptor.typed {
            Some((codec, access)) => {
                assert_eq!(kind.codec(), Some(codec));
                assert_eq!(kind.writable(), access == Access::ReadWrite);
                assert_eq!(kind.raw_kind(), codec.raw_kind());
                if access == Access::ReadWrite {
                    assert!(codec.raw_kind().is_some());
                }
            }
            None => {
                assert_eq!(kind.codec(), None);
                assert!(!kind.writable());
                assert_eq!(kind.raw_kind(), None);
            }
        }
    }
}

#[test]
fn identifiers_are_unique() {
    let kinds = all_kinds();
    for (i, (_, a)) in kinds.iter().enumerate() {
        for (_, b) in &kinds[i + 1..] {
            assert_ne!(a, b);
        }
    }
}

#[test]
fn identifiers_match_the_wire() {
    assert_eq!(AttributeType::TmoValue.id(), 0x3FFF_001A);
    assert_eq!(AttributeType::RsrcName.id(), 0xBFFF_0002);
    assert_eq!(AttributeType::AsrlParity.id(), 0x3FFF_0023);
    assert_eq!(AttributeType::GpibSecondaryAddr.id(), 0x3FFF_0173);
    assert_eq!(AttributeType::UsbRecvIntrData.id(), 0xBFFF_41B1);
    assert_eq!(AttributeType::TermChar.id(), 0x3FFF_0018);
    assert_eq!(UsbRecvIntrData::<4>::attribute_type(), 0xBFFF_41B1);
    assert_eq!(UsbRecvIntrData::<2>::new([1, 2]).0, [1, 2]);
}

#[test]
fn parity_outside_domain_is_rejected() {
    assert_eq!(decode(AttributeType::AsrlParity, RawValue::U16(99)), None);
    assert_eq!(decode(AttributeType::AsrlParity, RawValue::U16(5)), None);
    assert_eq!(
        decode(AttributeType::AsrlParity, RawValue::U16(2)),
        Some(AttrValue::Parity(AsrlParityType::Even))
    );
    assert_eq!(
        decode(AttributeType::AsrlParity, RawValue::U16(0)),
        Some(AttrValue::Parity(AsrlParityType::NoParity))
    );
}

#[test]
fn a_raw_value_of_another_width_is_rejected() {
    assert_eq!(decode(AttributeType::AsrlParity, RawValue::U32(2)), None);
    assert_eq!(decode(AttributeType::TmoValue, RawValue::U16(2)), None);
    assert_eq!(decode(AttributeType::TermChar, RawValue::U16(2)), None);
    assert_eq!(decode(AttributeType::GpibRenState, RawValue::I16(1)), None);
    assert_eq!(decode(AttributeType::GpibRenState, RawValue::I32(1)), Some(AttrValue::State(State::Asserted)));
}

#[test]
fn kinds_without_a_scalar_codec_decode_nothing() {
    assert_eq!(decode(AttributeType::RsrcName, RawValue::U16(0)), None);
    assert_eq!(decode(AttributeType::TrigId, RawValue::I16(0)), None);
    assert_eq!(decode(AttributeType::UsbRecvIntrData, RawValue::U8(0)), None);
    assert_eq!(encode(AttributeType::TrigId, AttrValue::I16(0)), Err(ErrorType::NsupAttr));
    assert_eq!(encode(AttributeType::RsrcName, AttrValue::U16(0)), Err(ErrorType::AttrReadonly));
}

#[test]
fn numeric_ranges_are_validated_not_clamped() {
    assert_eq!(decode(AttributeType::FdcChnl, RawValue::U16(7)), Some(AttrValue::U16(7)));
    assert_eq!(decode(AttributeType::FdcChnl, RawValue::U16(8)), None);
    assert_eq!(decode(AttributeType::VxiLa, RawValue::I16(511)), Some(AttrValue::I16(511)));
    assert_eq!(decode(AttributeType::VxiLa, RawValue::I16(512)), None);
    assert_eq!(decode(AttributeType::VxiLa, RawValue::I16(-1)), None);
    assert_eq!(decode(AttributeType::CmdrLa, RawValue::I16(255)), Some(AttrValue::I16(255)));
    assert_eq!(decode(AttributeType::CmdrLa, RawValue::I16(256)), None);
    assert_eq!(decode(AttributeType::PxiBusNum, RawValue::U16(255)), Some(AttrValue::U16(255)));
    assert_eq!(decode(AttributeType::PxiBusNum, RawValue::U16(256)), None);
    assert_eq!(decode(AttributeType::PxiFuncNum, RawValue::U16(8)), None);
    assert_eq!(decode(AttributeType::PxiDevNum, RawValue::I16(511)), Some(AttrValue::I16(511)));
    assert_eq!(decode(AttributeType::SrcIncrement, RawValue::I32(1)), Some(AttrValue::I32(1)));
    assert_eq!(decode(AttributeType::SrcIncrement, RawValue::I32(2)), None);
    assert_eq!(decode(AttributeType::DestIncrement, RawValue::I32(-1)), None);
    assert_eq!(encode(AttributeType::FdcChnl, AttrValue::U16(9)), Ok(9));
}

#[test]
fn booleans_are_one_and_zero() {
    assert_eq!(decode(AttributeType::SendEndEn, RawValue::U16(1)), Some(AttrValue::Bool(true)));
    assert_eq!(decode(AttributeType::SendEndEn, RawValue::U16(0)), Some(AttrValue::Bool(false)));
    assert_eq!(decode(AttributeType::SendEndEn, RawValue::U16(2)), None);
    assert_eq!(encode(AttributeType::SendEndEn, AttrValue::Bool(true)), Ok(1));
    assert_eq!(encode(AttributeType::SendEndEn, AttrValue::Bool(false)), Ok(0));
    assert_eq!(encode(AttributeType::GpibCicState, AttrValue::Bool(true)), Err(ErrorType::AttrReadonly));
    assert_eq!(bool::from_vi(1), Some(true));
    assert_eq!(bool::from_vi(-1), None);
    assert_eq!(true.as_vi(), 1);
}

#[test]
fn the_secondary_address_has_a_sentinel() {
    let kind = AttributeType::GpibSecondaryAddr;
    assert_eq!(encode(kind, AttrValue::SecondaryAddr(None)), Ok(0xFFFF));
    assert_eq!(encode(kind, AttrValue::SecondaryAddr(Some(12))), Ok(12));
    assert_eq!(decode(kind, RawValue::U16(0xFFFF)), Some(AttrValue::SecondaryAddr(None)));
    assert_eq!(decode(kind, RawValue::U16(30)), Some(AttrValue::SecondaryAddr(Some(30))));
    assert_eq!(decode(kind, RawValue::U16(31)), None);
    assert_eq!(decode(kind, RawValue::U16(0xFFFE)), None);
}

#[test]
fn the_cable_length_is_clamped_on_writing() {
    let kind = AttributeType::GpibHs488CblLen;
    let meters = |m| AttrValue::CableLength(GpibHs488CableLength::Meters(m));
    assert_eq!(encode(kind, meters(0)), Ok(1));
    assert_eq!(encode(kind, meters(1)), Ok(1));
    assert_eq!(encode(kind, meters(15)), Ok(15));
    assert_eq!(encode(kind, meters(16)), Ok(15));
    assert_eq!(encode(kind, meters(255)), Ok(15));
    assert_eq!(encode(kind, AttrValue::CableLength(GpibHs488CableLength::Disabled)), Ok(0));
    assert_eq!(encode(kind, AttrValue::CableLength(GpibHs488CableLength::NotImplemented)), Ok(u64::MAX));
    assert_eq!(decode(kind, RawValue::I16(-1)), Some(AttrValue::CableLength(GpibHs488CableLength::NotImplemented)));
    assert_eq!(decode(kind, RawValue::I16(0)), Some(AttrValue::CableLength(GpibHs488CableLength::Disabled)));
    assert_eq!(decode(kind, RawValue::I16(15)), Some(meters(15)));
    assert_eq!(decode(kind, RawValue::I16(16)), None);
    assert_eq!(decode(kind, RawValue::I16(-2)), None);
}

#[test]
fn timeouts_travel_as_milliseconds() {
    let kind = AttributeType::TmoValue;
    assert_eq!(encode(kind, AttrValue::Timeout(TimeSpan::from_millis(250))), Ok(250));
    assert_eq!(encode(kind, AttrValue::Timeout(TimeSpan { secs: 2, nanos: 1_999_999 })), Ok(2001));
    assert_eq!(decode(kind, RawValue::U32(250)), Some(AttrValue::Timeout(TimeSpan { secs: 0, nanos: 250_000_000 })));
    assert_eq!(decode(kind, RawValue::U32(u32::MAX)), Some(AttrValue::Timeout(TimeSpan { secs: 4294967, nanos: 295_000_000 })));
    // More than 64 bits of milliseconds are cut to the low 64 bits.
    assert_eq!(
        encode(kind, AttrValue::Timeout(TimeSpan { secs: u64::MAX, nanos: 0 })),
        Ok(((u64::MAX as u128 * 1000) % (1u128 << 64)) as u64)
    );
}

#[test]
fn characters_travel_as_their_own_byte() {
    let kind = AttributeType::AsrlXonChar;
    assert_eq!(encode(kind, AttrValue::Char('\u{11}')), Ok(0x11));
    assert_eq!(encode(kind, AttrValue::Char('A')), Ok(65));
    assert_eq!(encode(kind, AttrValue::Char('\u{7f}')), Ok(0x7F));
    assert_eq!(encode(kind, AttrValue::Char('\u{80}')), Ok(0x80));
    assert_eq!(encode(kind, AttrValue::Char('\u{e9}')), Ok(0xE9));
    assert_eq!(encode(kind, AttrValue::Char('\u{ff}')), Ok(0xFF));
    assert_eq!(decode(kind, RawValue::U8(65)), Some(AttrValue::Char('A')));
    assert_eq!(decode(kind, RawValue::U8(0xE9)), Some(AttrValue::Char('\u{e9}')));
    assert_eq!(decode(AttributeType::AsrlReplaceChar, RawValue::U8(0)), Some(AttrValue::Char('\0')));
}

#[test]
fn characters_beyond_one_byte_are_written_as_question_marks() {
    let kind = AttributeType::AsrlReplaceChar;
    assert_eq!(encode(kind, AttrValue::Char('\u{100}')), Ok(63));
    assert_eq!(encode(kind, AttrValue::Char('\u{20ac}')), Ok(63));
    assert_eq!(encode(kind, AttrValue::Char('\u{10ffff}')), Ok(63));
}

#[test]
fn line_states_keep_their_sign() {
    assert_eq!(decode(AttributeType::AsrlCtsState, RawValue::I16(-1)), Some(AttrValue::LineState(AsrlState::Unknown)));
    assert_eq!(decode(AttributeType::AsrlCtsState, RawValue::I16(1)), Some(AttrValue::LineState(AsrlState::Asserted)));
    assert_eq!(decode(AttributeType::AsrlCtsState, RawValue::I16(2)), None);
    assert_eq!(encode(AttributeType::AsrlCtsState, AttrValue::LineState(AsrlState::Asserted)), Err(ErrorType::AttrReadonly));
    assert_eq!(encode(AttributeType::AsrlRtsState, AttrValue::LineState(AsrlState::Unknown)), Ok(0xFFFF_FFFF));
    assert_eq!(encode(AttributeType::AsrlRtsState, AttrValue::LineState(AsrlState::Unasserted)), Ok(0));
    assert_eq!(decode(AttributeType::GpibAtnState, RawValue::I16(-1)), Some(AttrValue::State(State::Unknown)));
    assert_eq!(decode(AttributeType::GpibAtnState, RawValue::I16(0)), Some(AttrValue::State(State::Unasserted)));
    assert_eq!(AsrlState::Unknown.as_vi(), 0xFFFF_FFFF);
    assert_eq!(State::from_vi(-1), Some(State::Unknown));
}

#[test]
fn a_break_ends_a_write_and_no_read() {
    let brk = AttrValue::End(AsrlEnd::Break);
    assert_eq!(decode(AttributeType::AsrlEndIn, RawValue::U16(3)), None);
    assert_eq!(decode(AttributeType::AsrlEndOut, RawValue::U16(3)), Some(brk));
    assert_eq!(decode(AttributeType::AsrlEndOut, RawValue::U16(4)), None);
    assert_eq!(decode(AttributeType::AsrlEndIn, RawValue::U16(2)), Some(AttrValue::End(AsrlEnd::Termchar)));
    assert_eq!(decode(AttributeType::AsrlEndOut, RawValue::U16(0)), Some(AttrValue::End(AsrlEnd::Unterminated)));
    assert_eq!(encode(AttributeType::AsrlEndOut, brk), Ok(3));
    assert_eq!(AsrlEnd::from_vi(3), Some(AsrlEnd::Break));
}

#[test]
fn enumerations_have_their_wire_numbers() {
    assert_eq!(encode(AttributeType::AsrlStopBits, AttrValue::StopBits(AsrlStopBitsType::One5)), Ok(15));
    assert_eq!(decode(AttributeType::AsrlStopBits, RawValue::U16(20)), Some(AttrValue::StopBits(AsrlStopBitsType::Two)));
    assert_eq!(decode(AttributeType::AsrlStopBits, RawValue::U16(1)), None);
    assert_eq!(encode(AttributeType::AsrlFlowCntrl, AttrValue::FlowCntrl(AsrlFlowCntrlType::DtrDsr)), Ok(4));
    assert_eq!(decode(AttributeType::AsrlFlowCntrl, RawValue::U16(3)), None);
    assert_eq!(decode(AttributeType::IntfType, RawValue::U16(7)), Some(AttrValue::Interface(InterfaceType::Usb)));
    assert_eq!(decode(AttributeType::IntfType, RawValue::U16(0)), None);
    assert_eq!(decode(AttributeType::FdcMode, RawValue::U32(2)), Some(AttrValue::FdcMode(FdcModeType::Stream)));
    assert_eq!(decode(AttributeType::FdcMode, RawValue::U32(0)), None);
    assert_eq!(decode(AttributeType::WrBufOperMode, RawValue::U16(1)), Some(AttrValue::WrBufOperMode(WrBufOperModeType::OnAccess)));
    assert_eq!(decode(AttributeType::WrBufOperMode, RawValue::U16(3)), None);
    assert_eq!(decode(AttributeType::DestAccessPriv, RawValue::U16(7)), Some(AttrValue::AccessPrivilege(AccessPrivilege::D64NPriv)));
    assert_eq!(decode(AttributeType::DestAccessPriv, RawValue::U16(8)), None);
    assert_eq!(decode(AttributeType::SrcByteOrder, RawValue::U16(1)), Some(AttrValue::ByteOrder(ByteOrder::LittleEndian)));
    assert_eq!(decode(AttributeType::PxiSlotLbusLeft, RawValue::I16(1413)), Some(AttrValue::SlotLBus(PxiSlotLBus::StarTrigController)));
    assert_eq!(decode(AttributeType::PxiSlotLbusRight, RawValue::I16(1004)), Some(AttrValue::SlotLBus(PxiSlotLBus::StarTrigBus4)));
    assert_eq!(decode(AttributeType::PxiSlotLbusRight, RawValue::I16(-2)), None);
    assert_eq!(decode(AttributeType::VxiDevClass, RawValue::U16(4)), Some(AttrValue::DevClass(VxiDevClassType::Other)));
    assert_eq!(decode(AttributeType::GpibAddrState, RawValue::I16(2)), Some(AttrValue::AddrState(GpibAddrStateType::Listener)));
    assert_eq!(decode(AttributeType::RsrcLockState, RawValue::U32(4)), Some(AttrValue::Lock(AccessMode::LoadConfig)));
    assert_eq!(decode(AttributeType::RsrcLockState, RawValue::U32(3)), None);
    assert_eq!(encode(AttributeType::RsrcLockState, AttrValue::Lock(AccessMode::SharedLock)), Ok(2));
    assert_eq!(AccessMode::ExclusiveLock.as_vi(), 1);
    assert_eq!(AccessMode::NoLock.as_vi(), 0);
}

#[test]
fn written_states_are_cut_to_the_width() {
    assert_eq!(RawKind::U8.narrow(0x1FF), RawValue::U8(0xFF));
    assert_eq!(RawKind::U16.narrow(0x1_2345), RawValue::U16(0x2345));
    assert_eq!(RawKind::I16.narrow(0xFFFF), RawValue::I16(-1));
    assert_eq!(RawKind::I16.narrow(0x7FFF), RawValue::I16(0x7FFF));
    assert_eq!(RawKind::I16.narrow(0x8000), RawValue::I16(-0x8000));
    assert_eq!(RawKind::I16.narrow(u64::MAX), RawValue::I16(-1));
    assert_eq!(RawKind::U32.narrow(0x1_0000_0001), RawValue::U32(1));
    assert_eq!(RawKind::I32.narrow(0xFFFF_FFFF), RawValue::I32(-1));
    assert_eq!(RawKind::I32.narrow(0x8000_0000), RawValue::I32(i32::MIN));
    assert_eq!(RawKind::U64.narrow(u64::MAX), RawValue::U64(u64::MAX));
    assert_eq!(RawValue::I16(3).kind(), RawKind::I16);
    assert_eq!(sign_extend(-1), u64::MAX);
    assert_eq!(sign_extend(i32::MIN), 0xFFFF_FFFF_8000_0000);
    assert_eq!(sign_extend(7), 7);
    assert_eq!(encode(AttributeType::SrcIncrement, AttrValue::I32(-1)), Ok(u64::MAX));
}

fn round_trip(kind: AttributeType, value: AttrValue) {
    let state = encode(kind, value).unwrap();
    let width = kind.raw_kind().unwrap();
    assert_eq!(decode(kind, width.narrow(state)), Some(value));
}

#[test]
fn valid_values_come_back_unchanged() {
    round_trip(AttributeType::TmoValue, AttrValue::Timeout(TimeSpan::from_millis(250)));
    round_trip(AttributeType::TmoValue, AttrValue::Timeout(TimeSpan::from_millis(u32::MAX as u64)));
    round_trip(AttributeType::TmoValue, AttrValue::Timeout(TimeSpan::from_millis(0)));
    for parity in [AsrlParityType::NoParity, AsrlParityType::Odd, AsrlParityType::Even, AsrlParityType::Mark, AsrlParityType::Space] {
        round_trip(AttributeType::AsrlParity, AttrValue::Parity(parity));
    }
    for state in [AsrlState::Asserted, AsrlState::Unasserted, AsrlState::Unknown] {
        round_trip(AttributeType::AsrlDtrState, AttrValue::LineState(state));
        round_trip(AttributeType::AsrlRiState, AttrValue::LineState(state));
    }
    for m in 1..=15u8 {
        round_trip(AttributeType::GpibHs488CblLen, AttrValue::CableLength(GpibHs488CableLength::Meters(m)));
    }
    round_trip(AttributeType::GpibHs488CblLen, AttrValue::CableLength(GpibHs488CableLength::NotImplemented));
    round_trip(AttributeType::GpibHs488CblLen, AttrValue::CableLength(GpibHs488CableLength::Disabled));
    round_trip(AttributeType::GpibSecondaryAddr, AttrValue::SecondaryAddr(None));
    for n in 0..=30u16 {
        round_trip(AttributeType::GpibSecondaryAddr, AttrValue::SecondaryAddr(Some(n)));
    }
    for c in 0..=255u8 {
        round_trip(AttributeType::AsrlXoffChar, AttrValue::Char(c as char));
        round_trip(AttributeType::AsrlReplaceChar, AttrValue::Char(c as char));
    }
    for end in [AsrlEnd::Unterminated, AsrlEnd::LastBit, AsrlEnd::Termchar] {
        round_trip(AttributeType::AsrlEndIn, AttrValue::End(end));
        round_trip(AttributeType::AsrlEndOut, AttrValue::End(end));
    }
    round_trip(AttributeType::AsrlEndOut, AttrValue::End(AsrlEnd::Break));
    for mode in [AccessMode::NoLock, AccessMode::ExclusiveLock, AccessMode::SharedLock, AccessMode::LoadConfig] {
        round_trip(AttributeType::RsrcLockState, AttrValue::Lock(mode));
    }
    round_trip(AttributeType::SendEndEn, AttrValue::Bool(true));
    round_trip(AttributeType::TermChar, AttrValue::U8(10));
    round_trip(AttributeType::AsrlBaud, AttrValue::U32(115_200));
    round_trip(AttributeType::AsrlDataBits, AttrValue::U16(8));
    round_trip(AttributeType::FdcChnl, AttrValue::U16(7));
    round_trip(AttributeType::SrcIncrement, AttrValue::I32(1));
    round_trip(AttributeType::FdcMode, AttrValue::FdcMode(FdcModeType::Normal));
    round_trip(AttributeType::WinByteOrder, AttrValue::ByteOrder(ByteOrder::BigEndian));
    round_trip(AttributeType::WinAccessPriv, AttrValue::AccessPrivilege(AccessPrivilege::BlockPriv));
    round_trip(AttributeType::AsrlStopBits, AttrValue::StopBits(AsrlStopBitsType::One));
    round_trip(AttributeType::AsrlFlowCntrl, AttrValue::FlowCntrl(AsrlFlowCntrlType::RtsCts));
    round_trip(AttributeType::WrBufOperMode, AttrValue::WrBufOperMode(WrBufOperModeType::OnFull));
}

#[test]
fn values_of_the_wrong_domain_are_an_unsupported_state() {
    assert_eq!(encode(AttributeType::TmoValue, AttrValue::U32(250)), Err(ErrorType::NsupAttrState));
    assert_eq!(encode(AttributeType::AsrlParity, AttrValue::U16(1)), Err(ErrorType::NsupAttrState));
    assert_eq!(Codec::Parity.encode(AttrValue::StopBits(AsrlStopBitsType::One)), None);
    assert_eq!(Codec::State16.encode(AttrValue::State(State::Asserted)), None);
    assert_eq!(Codec::Text.decode(RawValue::U8(0)), None);
    assert_eq!(Codec::Text.raw_kind(), None);
    assert_eq!(Codec::Timeout.raw_kind(), Some(RawKind::U32));
}
