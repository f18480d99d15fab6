//! Reading and writing attributes over a session.
//!
//! A typed read makes one raw read in the width of the kind and decodes what
//! came back. A typed write encodes first and refuses, before anything reaches
//! the transport, a kind that cannot be written. A raw value that cannot be
//! decoded is reported as an unsupported attribute state that describes
//! itself, with no description fetched, so that it is told from a failure of
//! the transport.
use crate::attribute::codec::{AttrValue, Codec};
use crate::attribute::kind::{decode, encode, AttributeType};
use crate::attribute::raw::{RawKind, RawValue};
use crate::bindings::{ViAttr, ViAttrState};
use crate::error::{is_success, Error, ErrorType};
use crate::session::{next_call, settled, Session};
use crate::text::{decode_text, until_nul, utf8_lossy};
use crate::transport::{Call, Link, Transport};
use vstd::prelude::*;
use vstd::string::StringExecFns;

verus! {

/// The error for a raw value that denotes no value of its attribute. It is
/// of the kind of an unsupported attribute state and describes itself, so
/// that it is told from what a transport answers.
pub fn undecodable() -> (error: Error)
    ensures
        error.status == ErrorType::NsupAttrState,
        error.text() == Some("Raw value outside the domain of the attribute"@),
{
    Error {
        status: ErrorType::NsupAttrState,
        description: Some(String::from_str("Raw value outside the domain of the attribute")),
    }
}

/// The size of the buffer that a string attribute is read into.
pub const TEXT_LENGTH: usize = 256;

impl Session {
    /// Reads an attribute in a raw width, whatever the attribute is.
    pub fn get_attribute_raw<T: Transport>(
        &self,
        link: &mut Link<T>,
        attr: ViAttr,
        width: RawKind,
    ) -> (result: Result<RawValue, Error>)
        ensures
            next_call(old(link).trace(), final(link).trace()) matches Call::GetAttribute {
                session,
                attribute,
                width: asked,
                status,
                value,
            } && session == self.spec_session_id() && attribute == attr && asked == width
                && settled(result, status, session, old(link).trace(), final(link).trace())
                && (result matches Ok(raw) ==> raw == value),
    {
        let reply = link.get_attribute(self.session_id(), attr, width);
        Error::wrap_binding(Some(self.session_id()), reply.0, link)?;
        Ok(reply.1)
    }

    /// Writes an attribute from a widened state, whatever the attribute is.
    pub fn set_attribute_raw<T: Transport>(
        &self,
        link: &mut Link<T>,
        attr: ViAttr,
        value: ViAttrState,
    ) -> (result: Result<(), Error>)
        ensures
            next_call(old(link).trace(), final(link).trace()) matches Call::SetAttribute {
                session,
                attribute,
                state,
                status,
            } && session == self.spec_session_id() && attribute == attr && state == value
                && settled(result, status, session, old(link).trace(), final(link).trace()),
    {
        let status = link.set_attribute(self.session_id(), attr, value);
        Error::wrap_binding(Some(self.session_id()), status, link)
    }

    /// Reads a scalar attribute and decodes it.
    ///
    /// A kind without a scalar codec is refused as not supported before
    /// anything is exchanged. Otherwise one raw read is made in the kind's
    /// width. If it fails, the failure is classified. If it succeeds, the
    /// result is the value that the raw value denotes, or, where it denotes
    /// none, the error of an unsupported attribute state.
    pub fn get_attribute<T: Transport>(
        &self,
        link: &mut Link<T>,
        kind: AttributeType,
    ) -> (result: Result<AttrValue, Error>)
        ensures
            kind.spec_raw_kind() is None ==> {
                &&& result matches Err(error)
                &&& error.status == ErrorType::NsupAttr
                &&& error.text() is None
                &&& final(link).trace() == old(link).trace()
            },
            kind.spec_raw_kind() matches Some(width) ==> {
                let call = next_call(old(link).trace(), final(link).trace());
                &&& old(link).trace().len() < final(link).trace().len()
                &&& call matches Call::GetAttribute { session, attribute, width: asked, status, value }
                &&& session == self.spec_session_id()
                &&& attribute == kind.spec_id()
                &&& asked == width
                &&& if is_success(status) {
                    &&& final(link).trace() == old(link).trace().push(call)
                    &&& match kind.decoded(value) {
                        Some(v) => result == Ok::<AttrValue, Error>(v),
                        None => result matches Err(error) && error.status
                            == ErrorType::NsupAttrState && error.text() == Some(
                            "Raw value outside the domain of the attribute"@,
                        ),
                    }
                } else {
                    result matches Err(error) && error.raised(
                        status,
                        Some(session),
                        old(link).trace().push(call),
                        final(link).trace(),
                    )
                }
            },
    {
        let width = match kind.raw_kind() {
            Some(width) => width,
            None => {
                return Err(Error { status: ErrorType::NsupAttr, description: None });
            },
        };
        let raw = self.get_attribute_raw(link, kind.id(), width)?;
        match decode(kind, raw) {
            Some(value) => Ok(value),
            None => Err(undecodable()),
        }
    }

    /// Encodes a value and writes it to an attribute.
    ///
    /// Where the kind cannot be written, or the value is not of its domain,
    /// the reason is returned and nothing is exchanged. Otherwise one raw
    /// write of the encoded state is made.
    pub fn set_attribute<T: Transport>(
        &self,
        link: &mut Link<T>,
        kind: AttributeType,
        value: AttrValue,
    ) -> (result: Result<(), Error>)
        ensures
            match kind.written(value) {
                Err(reason) => {
                    &&& result matches Err(error)
                    &&& error.status == reason
                    &&& error.text() is None
                    &&& final(link).trace() == old(link).trace()
                },
                Ok(encoded) => {
                    &&& next_call(old(link).trace(), final(link).trace()) matches Call::SetAttribute {
                        session,
                        attribute,
                        state,
                        status,
                    }
                    &&& session == self.spec_session_id()
                    &&& attribute == kind.spec_id()
                    &&& state == encoded
                    &&& settled(result, status, session, old(link).trace(), final(link).trace())
                },
            },
    {
        match encode(kind, value) {
            Ok(state) => self.set_attribute_raw(link, kind.id(), state),
            Err(reason) => Err(Error { status: reason, description: None }),
        }
    }

    /// Reads an attribute that is a block of bytes into a buffer of `length`
    /// bytes and hands back what the transport delivered. A kind that is not
    /// a block of bytes is refused as not supported before anything is
    /// exchanged.
    pub fn get_bytes_attribute<T: Transport>(
        &self,
        link: &mut Link<T>,
        kind: AttributeType,
        length: usize,
    ) -> (result: Result<Vec<u8>, Error>)
        ensures
            kind.spec_codec() != Some(Codec::Bytes) ==> {
                &&& result matches Err(error)
                &&& error.status == ErrorType::NsupAttr
                &&& error.text() is None
                &&& final(link).trace() == old(link).trace()
            },
            kind.spec_codec() == Some(Codec::Bytes) ==> {
                &&& next_call(old(link).trace(), final(link).trace()) matches Call::GetAttributeBytes {
                    session,
                    attribute,
                    length: asked,
                    status,
                    data,
                }
                &&& session == self.spec_session_id()
                &&& attribute == kind.spec_id()
                &&& asked == length
                &&& settled(result, status, session, old(link).trace(), final(link).trace())
                &&& result matches Ok(bytes) ==> bytes@ == data
            },
    {
        match kind.codec() {
            Some(Codec::Bytes) => {},
            _ => {
                return Err(Error { status: ErrorType::NsupAttr, description: None });
            },
        }
        let reply = link.get_attribute_bytes(self.session_id(), kind.id(), length);
        Error::wrap_binding(Some(self.session_id()), reply.0, link)?;
        Ok(reply.1)
    }

    /// Reads a string attribute: the C string that the transport wrote into
    /// the buffer, read leniently. A kind that is not a string is refused as
    /// not supported before anything is exchanged.
    pub fn get_text_attribute<T: Transport>(
        &self,
        link: &mut Link<T>,
        kind: AttributeType,
    ) -> (result: Result<String, Error>)
        ensures
            kind.spec_codec() != Some(Codec::Text) ==> {
                &&& result matches Err(error)
                &&& error.status == ErrorType::NsupAttr
                &&& error.text() is None
                &&& final(link).trace() == old(link).trace()
            },
            kind.spec_codec() == Some(Codec::Text) ==> {
                &&& next_call(old(link).trace(), final(link).trace()) matches Call::GetAttributeBytes {
                    session,
                    attribute,
                    length,
                    status,
                    data,
                }
                &&& session == self.spec_session_id()
                &&& attribute == kind.spec_id()
                &&& length == TEXT_LENGTH
                &&& settled(result, status, session, old(link).trace(), final(link).trace())
                &&& result matches Ok(text) ==> text@ == utf8_lossy(until_nul(data))
            },
    {
        match kind.codec() {
            Some(Codec::Text) => {},
            _ => {
                return Err(Error { status: ErrorType::NsupAttr, description: None });
            },
        }
        let reply = link.get_attribute_bytes(self.session_id(), kind.id(), TEXT_LENGTH);
        Error::wrap_binding(Some(self.session_id()), reply.0, link)?;
        Ok(decode_text(reply.1.as_slice()))
    }
}

} // verus!
