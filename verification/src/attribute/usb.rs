//! The data of a USB interrupt.
use crate::attribute::access::undecodable;
use crate::attribute::codec::AttrValue;
use crate::attribute::kind::AttributeType;
use crate::attribute::raw::{RawKind, RawValue};
use crate::bindings;
use crate::error::{is_success, Error, ErrorType};
use crate::session::{next_call, Session};
use crate::transport::{Call, Link, Transport};
use vstd::prelude::*;

verus! {

/// The bytes as a block of exactly `N`; none where there are more or fewer.
pub fn block<const N: usize>(bytes: &[u8]) -> (array: Option<[u8; N]>)
    ensures
        match array {
            Some(a) => a@ == bytes@,
            None => bytes@.len() != N,
        },
{
    if bytes.len() != N {
        return None;
    }
    let mut out: [u8; N] = [0u8; N];
    let mut i: usize = 0;
    while i < N
        invariant
            0 <= i <= N,
            bytes@.len() == N,
            out@.len() == N,
            forall|j: int| 0 <= j < i ==> out@[j] == bytes@[j],
        decreases N - i,
    {
        out[i] = bytes[i];
        i += 1;
    }
    assert(out@ =~= bytes@);
    Some(out)
}

/// The data received with a USB interrupt. The buffer it is read into has to
/// be at least as large as the stored interrupt size says.
#[derive(Debug, Clone, PartialEq, Eq)]
pub struct UsbRecvIntrData<const USB_RECV_INTR_SIZE: usize>(pub [u8; USB_RECV_INTR_SIZE]);

impl<const USB_RECV_INTR_SIZE: usize> UsbRecvIntrData<USB_RECV_INTR_SIZE> {
    /// Wraps the received bytes.
    pub fn new(value: [u8; USB_RECV_INTR_SIZE]) -> (data: Self)
        ensures
            data.0 == value,
    {
        UsbRecvIntrData(value)
    }

    /// The identifier of the attribute that holds the data.
    pub fn attribute_type() -> (id: u32)
        ensures
            id == bindings::VI_ATTR_USB_RECV_INTR_DATA,
            id == AttributeType::UsbRecvIntrData.spec_id(),
    {
        AttributeType::UsbRecvIntrData.id()
    }

    /// Reads the data of the interrupt from the session, into a buffer of
    /// as many bytes as this type holds. Where the transport hands back
    /// another number of bytes, they are no value of this type, and the
    /// result is the error of an unsupported attribute state.
    pub fn read<T: Transport>(session: &Session, link: &mut Link<T>) -> (result: Result<
        Self,
        Error,
    >)
        ensures
            ({
                let call = next_call(old(link).trace(), final(link).trace());
                &&& old(link).trace().len() < final(link).trace().len()
                &&& call matches Call::GetAttributeBytes { session: s, attribute, length, status, data }
                &&& s == session.spec_session_id()
                &&& attribute == bindings::VI_ATTR_USB_RECV_INTR_DATA
                &&& length == USB_RECV_INTR_SIZE
                &&& if is_success(status) {
                    &&& final(link).trace() == old(link).trace().push(call)
                    &&& if data.len() == USB_RECV_INTR_SIZE {
                        result matches Ok(read) && read.0@ == data
                    } else {
                        result matches Err(error) && error.status == ErrorType::NsupAttrState
                            && error.text() == Some(
                            "Raw value outside the domain of the attribute"@,
                        )
                    }
                } else {
                    result matches Err(error) && error.raised(
                        status,
                        Some(s),
                        old(link).trace().push(call),
                        final(link).trace(),
                    )
                }
            }),
    {
        let bytes = session.get_bytes_attribute(
            link,
            AttributeType::UsbRecvIntrData,
            USB_RECV_INTR_SIZE,
        )?;
        match block::<USB_RECV_INTR_SIZE>(bytes.as_slice()) {
            Some(value) => Ok(UsbRecvIntrData(value)),
            None => Err(undecodable()),
        }
    }

    /// How large a buffer the stored data needs: the stored interrupt size,
    /// read from the session.
    pub fn get_required_size<T: Transport>(session: &Session, link: &mut Link<T>) -> (result:
        Result<usize, Error>)
        ensures
            ({
                let call = next_call(old(link).trace(), final(link).trace());
                &&& old(link).trace().len() < final(link).trace().len()
                &&& call matches Call::GetAttribute { session: s, attribute, width, status, value }
                &&& s == session.spec_session_id()
                &&& attribute == bindings::VI_ATTR_USB_RECV_INTR_SIZE
                &&& width == RawKind::U16
                &&& if is_success(status) {
                    &&& final(link).trace() == old(link).trace().push(call)
                    &&& match value {
                        RawValue::U16(size) => result == Ok::<usize, Error>(size as usize),
                        _ => result matches Err(error) && error.status
                            == ErrorType::NsupAttrState && error.text() == Some(
                            "Raw value outside the domain of the attribute"@,
                        ),
                    }
                } else {
                    result matches Err(error) && error.raised(
                        status,
                        Some(s),
                        old(link).trace().push(call),
                        final(link).trace(),
                    )
                }
            }),
    {
        match session.get_attribute(link, AttributeType::UsbRecvIntrSize)? {
            AttrValue::U16(size) => Ok(size as usize),
            _ => Err(undecodable()),
        }
    }
}

} // verus!
