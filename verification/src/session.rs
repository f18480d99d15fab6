//! Sessions: opening and closing them, and the operations that pass straight
//! through to the transport.
//!
//! Every operation makes its call through a [`Link`] and hands the status to
//! the choke point. Its contract names the call that was added to the trace,
//! with its arguments, and says that the result is what the choke point makes
//! of that call's status.
use crate::bindings;
use crate::bindings::{ViSession, ViStatus};
use crate::error::{is_success, Error, ErrorType};
use crate::resource_manager::ResourceManager;
use crate::text::{c_string_bytes, contains_nul, until_nul, utf8_text};
use crate::time::TimeSpan;
use crate::transport::{continues, Call, Link, Transport};
use vstd::prelude::*;
use vstd::string::StringExecFns;
use vstd::string::StringSliceAdditionalSpecFns;
use vstd::utf8::{decode_utf8, valid_utf8};

verus! {

/// The call that was added to `before` first on the way to `after`.
pub open spec fn next_call(before: Seq<Call>, after: Seq<Call>) -> Call {
    after[before.len() as int]
}

/// A result without its payload: what the choke point decided.
pub open spec fn verdict<V>(result: Result<V, Error>) -> Result<(), Error> {
    match result {
        Ok(_) => Ok(()),
        Err(error) => Err(error),
    }
}

/// Whether `result` settles one call on `session` that returned `status`:
/// the trace grew by that call, and `result` is what the choke point makes of
/// the status, with the description fetch that a failure brings.
pub open spec fn settled<V>(
    result: Result<V, Error>,
    status: ViStatus,
    session: ViSession,
    before: Seq<Call>,
    after: Seq<Call>,
) -> bool {
    &&& before.len() < after.len()
    &&& continues(before, after)
    &&& Error::checked(
        verdict(result),
        status,
        Some(session),
        before.push(next_call(before, after)),
        after,
    )
}

/// The low 32 bits of a number.
pub open spec fn low32(number: int) -> int {
    number % 0x1_0000_0000
}

/// The low 32 bits of a size, which is what the transport is handed.
pub fn low_u32(size: usize) -> (low: u32)
    ensures
        low == low32(size as int),
{
    (size as u64 % 0x1_0000_0000) as u32
}

/// The whole milliseconds of a span, cut to 32 bits.
pub fn millis_u32(span: TimeSpan) -> (millis: u32)
    ensures
        millis == low32(span.millis()),
{
    (span.as_millis() % 0x1_0000_0000) as u32
}

/// The error for text that cannot be handed to the transport because it holds
/// a NUL.
pub fn nul_error() -> (error: Error)
    ensures
        error.status == ErrorType::InvParameter,
        error.text() == Some("Input contained a null byte"@),
{
    Error {
        status: ErrorType::InvParameter,
        description: Some(String::from_str("Input contained a null byte")),
    }
}

/// How a session is to be opened.
#[derive(Debug, Clone, Copy)]
pub struct SessionOptions {
    /// How long the open may take.
    pub timeout: TimeSpan,
    /// Whether to take an exclusive lock at once. Where the lock cannot be
    /// had, the open fails.
    pub exclusive_lock: bool,
    /// Whether to take the attribute values from an external configuration
    /// utility.
    pub load_config: bool,
}

impl Default for SessionOptions {
    fn default() -> (options: SessionOptions)
        ensures
            options == (SessionOptions {
                timeout: TimeSpan { secs: 0, nanos: 0 },
                exclusive_lock: false,
                load_config: false,
            }),
    {
        SessionOptions {
            timeout: TimeSpan { secs: 0, nanos: 0 },
            exclusive_lock: false,
            load_config: false,
        }
    }
}

impl SessionOptions {
    /// The access mode that these options ask for: the bit of the exclusive
    /// lock and the bit of the external configuration, each where it is
    /// asked for.
    pub open spec fn spec_access_mode(self) -> u32 {
        let lock = if self.exclusive_lock {
            bindings::VI_EXCLUSIVE_LOCK
        } else {
            bindings::VI_NO_LOCK
        };
        let config = if self.load_config {
            bindings::VI_LOAD_CONFIG
        } else {
            0u32
        };
        (lock + config) as u32
    }

    /// The access mode that these options ask for.
    #[verifier::when_used_as_spec(spec_access_mode)]
    pub fn access_mode(self) -> (mode: u32)
        ensures
            mode == self.spec_access_mode(),
    {
        let lock = if self.exclusive_lock {
            bindings::VI_EXCLUSIVE_LOCK
        } else {
            bindings::VI_NO_LOCK
        };
        let config = if self.load_config {
            bindings::VI_LOAD_CONFIG
        } else {
            0u32
        };
        lock + config
    }
}

/// The ways in which a trigger is asserted.
#[derive(Debug, Clone, Copy, PartialEq, Eq, Structural)]
pub enum TriggerProtocol {
    /// The default of the interface. Valid for GPIB, serial, TCP/IP, USB and VXI.
    Default,
    /// Asserts the line. Valid for VXI only.
    On,
    /// Releases the line. Valid for VXI only.
    Off,
    /// Pulses the line. Valid for VXI only.
    Sync,
    /// Reserves a trigger line. Valid for PXI only.
    Reserve,
    /// Releases a reserved trigger line. Valid for PXI only.
    Unreserve,
}

impl TriggerProtocol {
    /// The number of this protocol on the wire.
    pub open spec fn spec_code(self) -> u16 {
        match self {
            TriggerProtocol::Default => bindings::VI_TRIG_PROT_DEFAULT as u16,
            TriggerProtocol::On => bindings::VI_TRIG_PROT_ON as u16,
            TriggerProtocol::Off => bindings::VI_TRIG_PROT_OFF as u16,
            TriggerProtocol::Sync => bindings::VI_TRIG_PROT_SYNC as u16,
            TriggerProtocol::Reserve => bindings::VI_TRIG_PROT_RESERVE as u16,
            TriggerProtocol::Unreserve => bindings::VI_TRIG_PROT_UNRESERVE as u16,
        }
    }

    /// The number of this protocol on the wire.
    #[verifier::when_used_as_spec(spec_code)]
    pub fn code(self) -> (code: u16)
        ensures
            code == self.spec_code(),
    {
        match self {
            TriggerProtocol::Default => bindings::VI_TRIG_PROT_DEFAULT as u16,
            TriggerProtocol::On => bindings::VI_TRIG_PROT_ON as u16,
            TriggerProtocol::Off => bindings::VI_TRIG_PROT_OFF as u16,
            TriggerProtocol::Sync => bindings::VI_TRIG_PROT_SYNC as u16,
            TriggerProtocol::Reserve => bindings::VI_TRIG_PROT_RESERVE as u16,
            TriggerProtocol::Unreserve => bindings::VI_TRIG_PROT_UNRESERVE as u16,
        }
    }
}

/// The buffers of a session that can be sized and flushed.
#[derive(Debug, Clone, Copy, PartialEq, Eq, Structural)]
pub enum Buffer {
    /// The formatted read buffer.
    Read,
    /// The formatted write buffer.
    Write,
    /// The low-level receive buffer.
    IoIn,
    /// The low-level transmit buffer.
    IoOut,
}

impl Buffer {
    /// The mask that selects this buffer for flushing: to discard its
    /// contents, or to carry them out.
    pub open spec fn spec_flush_mask(self, discard: bool) -> u32 {
        match (self, discard) {
            (Buffer::Read, false) => bindings::VI_READ_BUF,
            (Buffer::Read, true) => bindings::VI_READ_BUF_DISCARD,
            (Buffer::Write, false) => bindings::VI_WRITE_BUF,
            (Buffer::Write, true) => bindings::VI_WRITE_BUF_DISCARD,
            (Buffer::IoIn, false) => bindings::VI_IO_IN_BUF,
            (Buffer::IoIn, true) => bindings::VI_IO_IN_BUF_DISCARD,
            (Buffer::IoOut, false) => bindings::VI_IO_OUT_BUF,
            (Buffer::IoOut, true) => bindings::VI_IO_OUT_BUF_DISCARD,
        }
    }

    /// The mask that selects this buffer for flushing.
    #[verifier::when_used_as_spec(spec_flush_mask)]
    pub fn flush_mask(self, discard: bool) -> (mask: u32)
        ensures
            mask == self.spec_flush_mask(discard),
    {
        match (self, discard) {
            (Buffer::Read, false) => bindings::VI_READ_BUF,
            (Buffer::Read, true) => bindings::VI_READ_BUF_DISCARD,
            (Buffer::Write, false) => bindings::VI_WRITE_BUF,
            (Buffer::Write, true) => bindings::VI_WRITE_BUF_DISCARD,
            (Buffer::IoIn, false) => bindings::VI_IO_IN_BUF,
            (Buffer::IoIn, true) => bindings::VI_IO_IN_BUF_DISCARD,
            (Buffer::IoOut, false) => bindings::VI_IO_OUT_BUF,
            (Buffer::IoOut, true) => bindings::VI_IO_OUT_BUF_DISCARD,
        }
    }
}

/// An open session to a resource: a small handle that can be copied.
#[derive(Debug, Clone, Copy)]
pub struct Session {
    vi: ViSession,
}

impl Default for Session {
    fn default() -> (session: Session)
        ensures
            session.spec_session_id() == 0,
    {
        Session { vi: 0 }
    }
}

impl Session {
    /// The session, as the transport names it.
    pub closed spec fn spec_session_id(&self) -> ViSession {
        self.vi
    }

    /// The session, as the transport names it.
    #[verifier::when_used_as_spec(spec_session_id)]
    pub fn session_id(&self) -> (id: ViSession)
        ensures
            id == self.spec_session_id(),
    {
        self.vi
    }

    /// Opens a session to the named resource.
    ///
    /// A name that holds a NUL and a timeout of more than 32 bits of
    /// milliseconds are refused before anything is exchanged. Otherwise one
    /// open is made, under the resource manager, with the access mode that the
    /// options ask for. A failed open is classified without a description,
    /// since there is no session to ask for one.
    pub fn new<T: Transport>(
        link: &mut Link<T>,
        rm: &ResourceManager,
        name: &str,
        options: SessionOptions,
    ) -> (result: Result<Self, Error>)
        ensures
            name.spec_bytes().contains(0u8) ==> {
                &&& result matches Err(error)
                &&& error.status == ErrorType::InvParameter
                &&& error.text() == Some("Input contained a null byte"@)
                &&& final(link).trace() == old(link).trace()
            },
            !name.spec_bytes().contains(0u8) && options.timeout.millis() > u32::MAX ==> {
                &&& result matches Err(error)
                &&& error.status == ErrorType::SystemError
                &&& error.text() == Some("Timeout too large"@)
                &&& final(link).trace() == old(link).trace()
            },
            !name.spec_bytes().contains(0u8) && options.timeout.millis() <= u32::MAX ==> {
                let call = next_call(old(link).trace(), final(link).trace());
                &&& call matches Call::Open { manager, name: asked, mode, timeout, status, session }
                &&& manager == rm.spec_session_id()
                &&& asked == name@
                &&& mode == options.spec_access_mode()
                &&& timeout == options.timeout.millis()
                &&& final(link).trace() == old(link).trace().push(call)
                &&& match result {
                    Ok(opened) => is_success(status) && opened.spec_session_id() == session,
                    Err(error) => !is_success(status) && error.raised(
                        status,
                        None,
                        final(link).trace(),
                        final(link).trace(),
                    ),
                }
            },
    {
        let mode = options.access_mode();
        if contains_nul(name.as_bytes()) {
            return Err(nul_error());
        }
        let millis = options.timeout.as_millis();
        if millis > u32::MAX as u128 {
            return Err(Error::from_msg("Timeout too large"));
        }
        let reply = link.open(rm.session_id(), name, mode, millis as u32);
        Error::wrap_binding(None, reply.0, link)?;
        Ok(Session { vi: reply.1 })
    }

    /// Clears the device.
    pub fn clear<T: Transport>(&self, link: &mut Link<T>) -> (result: Result<(), Error>)
        ensures
            next_call(old(link).trace(), final(link).trace()) matches Call::Clear {
                session,
                status,
            } && session == self.spec_session_id() && settled(
                result,
                status,
                session,
                old(link).trace(),
                final(link).trace(),
            ),
    {
        let status = link.clear(self.vi);
        Error::wrap_binding(Some(self.vi), status, link)
    }

    /// Closes the session.
    pub fn close<T: Transport>(self, link: &mut Link<T>) -> (result: Result<(), Error>)
        ensures
            next_call(old(link).trace(), final(link).trace()) matches Call::Close {
                session,
                status,
            } && session == self.spec_session_id() && settled(
                result,
                status,
                session,
                old(link).trace(),
                final(link).trace(),
            ),
    {
        let status = link.close(self.vi);
        Error::wrap_binding(Some(self.vi), status, link)
    }

    /// Sets the size of the buffers that `mask` selects, handing over the low
    /// 32 bits of `size`.
    fn set_buffer<T: Transport>(&self, link: &mut Link<T>, mask: u32, size: usize) -> (result:
        Result<(), Error>)
        requires
            mask <= u16::MAX,
        ensures
            next_call(old(link).trace(), final(link).trace()) matches Call::SetBuf {
                session,
                mask: sent,
                size: asked,
                status,
            } && session == self.spec_session_id() && sent == mask && asked == low32(size as int) && settled(
                result,
                status,
                session,
                old(link).trace(),
                final(link).trace(),
            ),
    {
        let status = link.set_buf(self.vi, mask as u16, low_u32(size));
        Error::wrap_binding(Some(self.vi), status, link)
    }

    /// Sets the size of the formatted read buffer.
    pub fn set_read_buffer<T: Transport>(&self, link: &mut Link<T>, size: usize) -> (result:
        Result<(), Error>)
        ensures
            next_call(old(link).trace(), final(link).trace()) matches Call::SetBuf {
                session,
                mask,
                size: asked,
                status,
            } && session == self.spec_session_id() && mask == bindings::VI_READ_BUF && asked == low32(size as int) && settled(
                result,
                status,
                session,
                old(link).trace(),
                final(link).trace(),
            ),
    {
        self.set_buffer(link, bindings::VI_READ_BUF, size)
    }

    /// Sets the size of the formatted write buffer.
    pub fn set_write_buffer<T: Transport>(&self, link: &mut Link<T>, size: usize) -> (result:
        Result<(), Error>)
        ensures
            next_call(old(link).trace(), final(link).trace()) matches Call::SetBuf {
                session,
                mask,
                size: asked,
                status,
            } && session == self.spec_session_id() && mask == bindings::VI_WRITE_BUF && asked == low32(size as int) && settled(
                result,
                status,
                session,
                old(link).trace(),
                final(link).trace(),
            ),
    {
        self.set_buffer(link, bindings::VI_WRITE_BUF, size)
    }

    /// Sets the size of both formatted buffers.
    pub fn set_rw_buffer<T: Transport>(&self, link: &mut Link<T>, size: usize) -> (result:
        Result<(), Error>)
        ensures
            next_call(old(link).trace(), final(link).trace()) matches Call::SetBuf {
                session,
                mask,
                size: asked,
                status,
            } && session == self.spec_session_id() && mask == bindings::VI_READ_BUF
                + bindings::VI_WRITE_BUF && asked == low32(size as int) && settled(
                result,
                status,
                session,
                old(link).trace(),
                final(link).trace(),
            ),
    {
        self.set_buffer(link, bindings::VI_READ_BUF + bindings::VI_WRITE_BUF, size)
    }

    /// Sets the size of the low-level receive buffer.
    pub fn set_io_in_buffer<T: Transport>(&self, link: &mut Link<T>, size: usize) -> (result:
        Result<(), Error>)
        ensures
            next_call(old(link).trace(), final(link).trace()) matches Call::SetBuf {
                session,
                mask,
                size: asked,
                status,
            } && session == self.spec_session_id() && mask == bindings::VI_IO_IN_BUF && asked == low32(size as int) && settled(
                result,
                status,
                session,
                old(link).trace(),
                final(link).trace(),
            ),
    {
        self.set_buffer(link, bindings::VI_IO_IN_BUF, size)
    }

    /// Sets the size of the low-level transmit buffer.
    pub fn set_io_out_buffer<T: Transport>(&self, link: &mut Link<T>, size: usize) -> (result:
        Result<(), Error>)
        ensures
            next_call(old(link).trace(), final(link).trace()) matches Call::SetBuf {
                session,
                mask,
                size: asked,
                status,
            } && session == self.spec_session_id() && mask == bindings::VI_IO_OUT_BUF && asked == low32(size as int) && settled(
                result,
                status,
                session,
                old(link).trace(),
                final(link).trace(),
            ),
    {
        self.set_buffer(link, bindings::VI_IO_OUT_BUF, size)
    }

    /// Sets the size of both low-level buffers.
    pub fn set_io_buffer<T: Transport>(&self, link: &mut Link<T>, size: usize) -> (result:
        Result<(), Error>)
        ensures
            next_call(old(link).trace(), final(link).trace()) matches Call::SetBuf {
                session,
                mask,
                size: asked,
                status,
            } && session == self.spec_session_id() && mask == bindings::VI_IO_IN_BUF
                + bindings::VI_IO_OUT_BUF && asked == low32(size as int) && settled(
                result,
                status,
                session,
                old(link).trace(),
                final(link).trace(),
            ),
    {
        self.set_buffer(link, bindings::VI_IO_IN_BUF + bindings::VI_IO_OUT_BUF, size)
    }

    /// Writes the bytes to the formatted write buffer, to be sent when the
    /// buffer is flushed.
    pub fn buffer_write<T: Transport>(&self, link: &mut Link<T>, buf: &[u8]) -> (result: Result<
        (),
        Error,
    >)
        ensures
            next_call(old(link).trace(), final(link).trace()) matches Call::BufWrite {
                session,
                data,
                status,
                written,
            } && session == self.spec_session_id() && data == buf@ && settled(
                result,
                status,
                session,
                old(link).trace(),
                final(link).trace(),
            ),
    {
        let reply = link.buf_write(self.vi, buf);
        Error::wrap_binding(Some(self.vi), reply.0, link)
    }

    /// Reads at most `len` bytes through the formatted read buffer and hands
    /// back what the transport delivered.
    pub fn buffer_read<T: Transport>(&self, link: &mut Link<T>, len: usize) -> (result: Result<
        Vec<u8>,
        Error,
    >)
        ensures
            next_call(old(link).trace(), final(link).trace()) matches Call::BufRead {
                session,
                count,
                status,
                data,
            } && session == self.spec_session_id() && count == low32(len as int) && settled(
                result,
                status,
                session,
                old(link).trace(),
                final(link).trace(),
            ) && (result matches Ok(bytes) ==> bytes@ == data),
    {
        let reply = link.buf_read(self.vi, low_u32(len));
        Error::wrap_binding(Some(self.vi), reply.0, link)?;
        Ok(reply.1)
    }

    /// Flushes the buffers that `mask` selects.
    fn flush_inner<T: Transport>(&self, link: &mut Link<T>, mask: u32) -> (result: Result<
        (),
        Error,
    >)
        requires
            mask <= u16::MAX,
        ensures
            next_call(old(link).trace(), final(link).trace()) matches Call::Flush {
                session,
                mask: sent,
                status,
            } && session == self.spec_session_id() && sent == mask && settled(
                result,
                status,
                session,
                old(link).trace(),
                final(link).trace(),
            ),
    {
        let status = link.flush(self.vi, mask as u16);
        Error::wrap_binding(Some(self.vi), status, link)
    }

    /// Flushes the formatted read buffer: discards its contents where
    /// `discard` is set, and otherwise reads on to the end of the message
    /// first.
    pub fn flush_read_buffer<T: Transport>(&self, link: &mut Link<T>, discard: bool) -> (result:
        Result<(), Error>)
        ensures
            next_call(old(link).trace(), final(link).trace()) matches Call::Flush {
                session,
                mask,
                status,
            } && session == self.spec_session_id() && mask == Buffer::Read.spec_flush_mask(
                discard,
            ) && settled(result, status, session, old(link).trace(), final(link).trace()),
    {
        self.flush_inner(link, Buffer::Read.flush_mask(discard))
    }

    /// Flushes the formatted write buffer: discards its contents where
    /// `discard` is set, and otherwise sends them.
    pub fn flush_write_buffer<T: Transport>(&self, link: &mut Link<T>, discard: bool) -> (result:
        Result<(), Error>)
        ensures
            next_call(old(link).trace(), final(link).trace()) matches Call::Flush {
                session,
                mask,
                status,
            } && session == self.spec_session_id() && mask == Buffer::Write.spec_flush_mask(
                discard,
            ) && settled(result, status, session, old(link).trace(), final(link).trace()),
    {
        self.flush_inner(link, Buffer::Write.flush_mask(discard))
    }

    /// Flushes the low-level receive buffer.
    pub fn flush_io_in_buffer<T: Transport>(&self, link: &mut Link<T>, discard: bool) -> (result:
        Result<(), Error>)
        ensures
            next_call(old(link).trace(), final(link).trace()) matches Call::Flush {
                session,
                mask,
                status,
            } && session == self.spec_session_id() && mask == Buffer::IoIn.spec_flush_mask(
                discard,
            ) && settled(result, status, session, old(link).trace(), final(link).trace()),
    {
        self.flush_inner(link, Buffer::IoIn.flush_mask(discard))
    }

    /// Flushes the low-level transmit buffer.
    pub fn flush_io_out_buffer<T: Transport>(&self, link: &mut Link<T>, discard: bool) -> (result:
        Result<(), Error>)
        ensures
            next_call(old(link).trace(), final(link).trace()) matches Call::Flush {
                session,
                mask,
                status,
            } && session == self.spec_session_id() && mask == Buffer::IoOut.spec_flush_mask(
                discard,
            ) && settled(result, status, session, old(link).trace(), final(link).trace()),
    {
        self.flush_inner(link, Buffer::IoOut.flush_mask(discard))
    }

    /// Asserts a trigger in the given protocol.
    pub fn assert_trigger<T: Transport>(
        &self,
        link: &mut Link<T>,
        protocol: TriggerProtocol,
    ) -> (result: Result<(), Error>)
        ensures
            next_call(old(link).trace(), final(link).trace()) matches Call::AssertTrigger {
                session,
                protocol: sent,
                status,
            } && session == self.spec_session_id() && sent == protocol.spec_code() && settled(
                result,
                status,
                session,
                old(link).trace(),
                final(link).trace(),
            ),
    {
        let status = link.assert_trigger(self.vi, protocol.code());
        Error::wrap_binding(Some(self.vi), status, link)
    }

    /// Reads the service request status. The transport answers in 16 bits of
    /// which the upper eight are always zero; the lower eight are the status
    /// byte.
    pub fn read_status<T: Transport>(&self, link: &mut Link<T>) -> (result: Result<u8, Error>)
        ensures
            next_call(old(link).trace(), final(link).trace()) matches Call::ReadStb {
                session,
                status,
                status_byte,
            } && session == self.spec_session_id() && settled(
                result,
                status,
                session,
                old(link).trace(),
                final(link).trace(),
            ) && (result matches Ok(byte) ==> byte == status_byte % 0x100),
    {
        let reply = link.read_stb(self.vi);
        Error::wrap_binding(Some(self.vi), reply.0, link)?;
        Ok((reply.1 % 0x100) as u8)
    }

    /// Takes an exclusive lock on the session, waiting at most `lock_timeout`,
    /// of which the low 32 bits of milliseconds are handed over.
    pub fn lock<T: Transport>(&self, link: &mut Link<T>, lock_timeout: TimeSpan) -> (result:
        Result<(), Error>)
        ensures
            next_call(old(link).trace(), final(link).trace()) matches Call::Lock {
                session,
                lock_type,
                timeout,
                requested_key,
                status,
                access_key,
            } && session == self.spec_session_id() && lock_type == bindings::VI_EXCLUSIVE_LOCK
                && timeout == low32(lock_timeout.millis()) && requested_key is None
                && settled(result, status, session, old(link).trace(), final(link).trace()),
    {
        let reply = link.lock(
            self.vi,
            bindings::VI_EXCLUSIVE_LOCK,
            millis_u32(lock_timeout),
            None,
        );
        Error::wrap_binding(Some(self.vi), reply.0, link)
    }

    /// Takes a shared lock under the requested key and hands back the key in
    /// effect, which other holders present to share the lock.
    ///
    /// A requested key that holds a NUL is refused before anything is
    /// exchanged. Otherwise one lock request is made. If it succeeds, the key
    /// is the C string that the transport handed back; where that is not
    /// UTF-8, the result is an error although the lock is held.
    pub fn lock_shared<T: Transport>(
        &self,
        link: &mut Link<T>,
        lock_timeout: TimeSpan,
        requested_key: &str,
    ) -> (result: Result<String, Error>)
        ensures
            requested_key.spec_bytes().contains(0u8) ==> {
                &&& result matches Err(error)
                &&& error.status == ErrorType::InvParameter
                &&& error.text() == Some("Input contained a null byte"@)
                &&& final(link).trace() == old(link).trace()
            },
            !requested_key.spec_bytes().contains(0u8) ==> {
                let call = next_call(old(link).trace(), final(link).trace());
                &&& old(link).trace().len() < final(link).trace().len()
                &&& call matches Call::Lock {
                    session,
                    lock_type,
                    timeout,
                    requested_key: asked,
                    status,
                    access_key,
                }
                &&& session == self.spec_session_id()
                &&& lock_type == bindings::VI_SHARED_LOCK
                &&& timeout == low32(lock_timeout.millis())
                &&& asked == Some(requested_key@)
                &&& if !is_success(status) {
                    result matches Err(error) && error.raised(
                        status,
                        Some(session),
                        old(link).trace().push(call),
                        final(link).trace(),
                    )
                } else if valid_utf8(until_nul(access_key)) {
                    &&& final(link).trace() == old(link).trace().push(call)
                    &&& result matches Ok(key)
                    &&& key@ == decode_utf8(until_nul(access_key))
                } else {
                    &&& final(link).trace() == old(link).trace().push(call)
                    &&& result matches Err(error)
                    &&& error.status == ErrorType::SystemError
                    &&& error.text() == Some("Invalid lock key"@)
                }
            },
    {
        if contains_nul(requested_key.as_bytes()) {
            return Err(nul_error());
        }
        let reply = link.lock(
            self.vi,
            bindings::VI_SHARED_LOCK,
            millis_u32(lock_timeout),
            Some(requested_key),
        );
        Error::wrap_binding(Some(self.vi), reply.0, link)?;
        match utf8_text(c_string_bytes(reply.1.as_slice())) {
            Some(key) => Ok(key),
            None => Err(Error::from_msg("Invalid lock key")),
        }
    }

    /// Gives up one lock on the session.
    pub fn unlock<T: Transport>(&self, link: &mut Link<T>) -> (result: Result<(), Error>)
        ensures
            next_call(old(link).trace(), final(link).trace()) matches Call::Unlock {
                session,
                status,
            } && session == self.spec_session_id() && settled(
                result,
                status,
                session,
                old(link).trace(),
                final(link).trace(),
            ),
    {
        let status = link.unlock(self.vi);
        Error::wrap_binding(Some(self.vi), status, link)
    }
}

} // verus!
