//! Values of the PXI attributes.
use crate::attribute::traits::AsViReadable;
use crate::bindings;
use vstd::prelude::*;

verus! {

/// What a PXI slot's local bus is wired to.
#[derive(Debug, Copy, Clone, PartialEq, Eq, Structural)]
pub enum PxiSlotLBus {
    /// Star trigger bus 0.
    StarTrigBus0,
    /// Star trigger bus 1.
    StarTrigBus1,
    /// Star trigger bus 2.
    StarTrigBus2,
    /// Star trigger bus 3.
    StarTrigBus3,
    /// Star trigger bus 4.
    StarTrigBus4,
    /// Star trigger bus 5.
    StarTrigBus5,
    /// Star trigger bus 6.
    StarTrigBus6,
    /// Star trigger bus 7.
    StarTrigBus7,
    /// Star trigger bus 8.
    StarTrigBus8,
    /// Star trigger bus 9.
    StarTrigBus9,
    /// The star trigger controller.
    StarTrigController,
}

impl AsViReadable for PxiSlotLBus {
    open spec fn wire(&self) -> int {
        match self {
            PxiSlotLBus::StarTrigBus0 => bindings::VI_PXI_LBUS_STAR_TRIG_BUS_0 as int,
            PxiSlotLBus::StarTrigBus1 => bindings::VI_PXI_LBUS_STAR_TRIG_BUS_1 as int,
            PxiSlotLBus::StarTrigBus2 => bindings::VI_PXI_LBUS_STAR_TRIG_BUS_2 as int,
            PxiSlotLBus::StarTrigBus3 => bindings::VI_PXI_LBUS_STAR_TRIG_BUS_3 as int,
            PxiSlotLBus::StarTrigBus4 => bindings::VI_PXI_LBUS_STAR_TRIG_BUS_4 as int,
            PxiSlotLBus::StarTrigBus5 => bindings::VI_PXI_LBUS_STAR_TRIG_BUS_5 as int,
            PxiSlotLBus::StarTrigBus6 => bindings::VI_PXI_LBUS_STAR_TRIG_BUS_6 as int,
            PxiSlotLBus::StarTrigBus7 => bindings::VI_PXI_LBUS_STAR_TRIG_BUS_7 as int,
            PxiSlotLBus::StarTrigBus8 => bindings::VI_PXI_LBUS_STAR_TRIG_BUS_8 as int,
            PxiSlotLBus::StarTrigBus9 => bindings::VI_PXI_LBUS_STAR_TRIG_BUS_9 as int,
            PxiSlotLBus::StarTrigController => bindings::VI_PXI_STAR_TRIG_CONTROLLER as int,
        }
    }

    open spec fn denoted(raw: int) -> Option<Self> {
        if raw == bindings::VI_PXI_LBUS_STAR_TRIG_BUS_0 {
            Some(PxiSlotLBus::StarTrigBus0)
        } else if raw == bindings::VI_PXI_LBUS_STAR_TRIG_BUS_1 {
            Some(PxiSlotLBus::StarTrigBus1)
        } else if raw == bindings::VI_PXI_LBUS_STAR_TRIG_BUS_2 {
            Some(PxiSlotLBus::StarTrigBus2)
        } else if raw == bindings::VI_PXI_LBUS_STAR_TRIG_BUS_3 {
            Some(PxiSlotLBus::StarTrigBus3)
        } else if raw == bindings::VI_PXI_LBUS_STAR_TRIG_BUS_4 {
            Some(PxiSlotLBus::StarTrigBus4)
        } else if raw == bindings::VI_PXI_LBUS_STAR_TRIG_BUS_5 {
            Some(PxiSlotLBus::StarTrigBus5)
        } else if raw == bindings::VI_PXI_LBUS_STAR_TRIG_BUS_6 {
            Some(PxiSlotLBus::StarTrigBus6)
        } else if raw == bindings::VI_PXI_LBUS_STAR_TRIG_BUS_7 {
            Some(PxiSlotLBus::StarTrigBus7)
        } else if raw == bindings::VI_PXI_LBUS_STAR_TRIG_BUS_8 {
            Some(PxiSlotLBus::StarTrigBus8)
        } else if raw == bindings::VI_PXI_LBUS_STAR_TRIG_BUS_9 {
            Some(PxiSlotLBus::StarTrigBus9)
        } else if raw == bindings::VI_PXI_STAR_TRIG_CONTROLLER {
            Some(PxiSlotLBus::StarTrigController)
        } else {
            None
        }
    }

    fn from_vi(raw: i64) -> (value: Option<Self>) {
        if raw == bindings::VI_PXI_LBUS_STAR_TRIG_BUS_0 as i64 {
            Some(PxiSlotLBus::StarTrigBus0)
        } else if raw == bindings::VI_PXI_LBUS_STAR_TRIG_BUS_1 as i64 {
            Some(PxiSlotLBus::StarTrigBus1)
        } else if raw == bindings::VI_PXI_LBUS_STAR_TRIG_BUS_2 as i64 {
            Some(PxiSlotLBus::StarTrigBus2)
        } else if raw == bindings::VI_PXI_LBUS_STAR_TRIG_BUS_3 as i64 {
            Some(PxiSlotLBus::StarTrigBus3)
        } else if raw == bindings::VI_PXI_LBUS_STAR_TRIG_BUS_4 as i64 {
            Some(PxiSlotLBus::StarTrigBus4)
        } else if raw == bindings::VI_PXI_LBUS_STAR_TRIG_BUS_5 as i64 {
            Some(PxiSlotLBus::StarTrigBus5)
        } else if raw == bindings::VI_PXI_LBUS_STAR_TRIG_BUS_6 as i64 {
            Some(PxiSlotLBus::StarTrigBus6)
        } else if raw == bindings::VI_PXI_LBUS_STAR_TRIG_BUS_7 as i64 {
            Some(PxiSlotLBus::StarTrigBus7)
        } else if raw == bindings::VI_PXI_LBUS_STAR_TRIG_BUS_8 as i64 {
            Some(PxiSlotLBus::StarTrigBus8)
        } else if raw == bindings::VI_PXI_LBUS_STAR_TRIG_BUS_9 as i64 {
            Some(PxiSlotLBus::StarTrigBus9)
        } else if raw == bindings::VI_PXI_STAR_TRIG_CONTROLLER as i64 {
            Some(PxiSlotLBus::StarTrigController)
        } else {
            None
        }
    }

    proof fn lemma_denoted(raw: int) {
    }
}

} // verus!
