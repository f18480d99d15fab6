//! Attributes of a session: their identifiers, the values they take, and the
//! conversion between a value and its raw form on the wire.
pub mod access;
pub mod asrl;
pub mod codec;
pub mod gpib;
pub mod kind;
pub mod misc;
pub mod pxi;
pub mod raw;
pub mod state;
pub mod traits;
pub mod usb;
pub mod vxi;

pub use codec::{AttrValue, Codec};
pub use asrl::{AsrlEnd, AsrlFlowCntrlType, AsrlParityType, AsrlState, AsrlStopBitsType};
pub use kind::{decode, encode, Access, AttributeType, Descriptor};
pub use gpib::{GpibAddrStateType, GpibHs488CableLength};
pub use misc::{AccessPrivilege, ByteOrder, FdcModeType, InterfaceType, WrBufOperModeType};
pub use pxi::PxiSlotLBus;
pub use raw::{RawKind, RawValue};
pub use state::State;
pub use usb::UsbRecvIntrData;
pub use traits::{AccessMode, AsViReadable, AsViWritable};
pub use vxi::VxiDevClassType;
