//! Values of the VXI attributes.
use crate::attribute::traits::AsViReadable;
use crate::bindings;
use vstd::prelude::*;

verus! {

/// The VXI-defined class of a device.
#[derive(Debug, Copy, Clone, PartialEq, Eq, Structural)]
pub enum VxiDevClassType {
    /// A memory device.
    Memory,
    /// An extended device.
    Extended,
    /// A message-based device.
    Message,
    /// A register-based device.
    Register,
    /// A device of no defined class.
    Other,
}

impl AsViReadable for VxiDevClassType {
    open spec fn wire(&self) -> int {
        match self {
            VxiDevClassType::Memory => bindings::VI_VXI_CLASS_MEMORY as int,
            VxiDevClassType::Extended => bindings::VI_VXI_CLASS_EXTENDED as int,
            VxiDevClassType::Message => bindings::VI_VXI_CLASS_MESSAGE as int,
            VxiDevClassType::Register => bindings::VI_VXI_CLASS_REGISTER as int,
            VxiDevClassType::Other => bindings::VI_VXI_CLASS_OTHER as int,
        }
    }

    open spec fn denoted(raw: int) -> Option<Self> {
        if raw == bindings::VI_VXI_CLASS_MEMORY {
            Some(VxiDevClassType::Memory)
        } else if raw == bindings::VI_VXI_CLASS_EXTENDED {
            Some(VxiDevClassType::Extended)
        } else if raw == bindings::VI_VXI_CLASS_MESSAGE {
            Some(VxiDevClassType::Message)
        } else if raw == bindings::VI_VXI_CLASS_REGISTER {
            Some(VxiDevClassType::Register)
        } else if raw == bindings::VI_VXI_CLASS_OTHER {
            Some(VxiDevClassType::Other)
        } else {
            None
        }
    }

    fn from_vi(raw: i64) -> (value: Option<Self>) {
        if raw == bindings::VI_VXI_CLASS_MEMORY as i64 {
            Some(VxiDevClassType::Memory)
        } else if raw == bindings::VI_VXI_CLASS_EXTENDED as i64 {
            Some(VxiDevClassType::Extended)
        } else if raw == bindings::VI_VXI_CLASS_MESSAGE as i64 {
            Some(VxiDevClassType::Message)
        } else if raw == bindings::VI_VXI_CLASS_REGISTER as i64 {
            Some(VxiDevClassType::Register)
        } else if raw == bindings::VI_VXI_CLASS_OTHER as i64 {
            Some(VxiDevClassType::Other)
        } else {
            None
        }
    }

    proof fn lemma_denoted(raw: int) {
    }
}

} // verus!
