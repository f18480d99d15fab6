//! The transport: the primitives that an instrument bus offers, and a link
//! that records every exchange made through them.
//!
//! Nothing is promised of a transport. It may fail any call with any status and
//! hand back any data. The functions of this crate reach it only through a
//! [`Link`], which keeps, as ghost state, the sequence of calls made and what
//! each returned. Contracts elsewhere speak of that trace: which primitives a
//! function used, in which order, with which arguments, and how its result
//! follows from what came back.
use crate::attribute::raw::{RawKind, RawValue};
use crate::bindings::{
    ViAttr, ViAttrState, ViEvent, ViEventFilter, ViEventType, ViFindList, ViJobId, ViSession,
    ViStatus,
};
use crate::event::HandlerId;
use vstd::prelude::*;

verus! {

/// The primitives of a VISA implementation, each returning its status first.
pub trait Transport {
    /// Opens the default resource manager and hands back its session.
    fn open_default_rm(&mut self) -> (ViStatus, ViSession);

    /// Opens a session to the named resource under a resource manager.
    fn open(&mut self, manager: ViSession, name: &str, mode: u32, timeout: u32) -> (ViStatus, ViSession);

    /// Closes a session, an event context or a search list.
    fn close(&mut self, session: ViSession) -> ViStatus;

    /// Reads at most `count` bytes, blocking until data, an end condition or the session's timeout.
    fn read(&mut self, session: ViSession, count: u32) -> (ViStatus, Vec<u8>);

    /// Writes the bytes, blocking until they are sent or the session's timeout elapses.
    fn write(&mut self, session: ViSession, data: &[u8]) -> (ViStatus, u32);

    /// Clears the device.
    fn clear(&mut self, session: ViSession) -> ViStatus;

    /// Sets the size of the buffers that the mask selects.
    fn set_buf(&mut self, session: ViSession, mask: u16, size: u32) -> ViStatus;

    /// Writes the bytes to the formatted write buffer.
    fn buf_write(&mut self, session: ViSession, data: &[u8]) -> (ViStatus, u32);

    /// Reads at most `count` bytes through the formatted read buffer.
    fn buf_read(&mut self, session: ViSession, count: u32) -> (ViStatus, Vec<u8>);

    /// Flushes the buffers that the mask selects.
    fn flush(&mut self, session: ViSession, mask: u16) -> ViStatus;

    /// Asserts a software or hardware trigger.
    fn assert_trigger(&mut self, session: ViSession, protocol: u16) -> ViStatus;

    /// Reads the service request status.
    fn read_stb(&mut self, session: ViSession) -> (ViStatus, u16);

    /// Reads a scalar attribute in the given raw width.
    fn get_attribute(&mut self, session: ViSession, attribute: ViAttr, width: RawKind) -> (ViStatus, RawValue);

    /// Reads an attribute that is a string or a block of bytes into a buffer of `length` bytes.
    fn get_attribute_bytes(&mut self, session: ViSession, attribute: ViAttr, length: usize) -> (ViStatus, Vec<u8>);

    /// Writes an attribute from its widened state.
    fn set_attribute(&mut self, session: ViSession, attribute: ViAttr, state: ViAttrState) -> ViStatus;

    /// Requests an exclusive lock, which takes no key, or a shared lock under the requested key; hands back the key in effect.
    fn lock(&mut self, session: ViSession, lock_type: u32, timeout: u32, requested_key: Option<&str>) -> (ViStatus, Vec<u8>);

    /// Gives up one lock on the session.
    fn unlock(&mut self, session: ViSession) -> ViStatus;

    /// Enables notification of an event type for a mechanism.
    fn enable_event(&mut self, session: ViSession, event_type: ViEventType, mechanism: u16, filter: ViEventFilter) -> ViStatus;

    /// Stops new notifications of an event type for a mechanism.
    fn disable_event(&mut self, session: ViSession, event_type: ViEventType, mechanism: u16) -> ViStatus;

    /// Discards the occurrences that are still queued.
    fn discard_events(&mut self, session: ViSession, event_type: ViEventType, mechanism: u16) -> ViStatus;

    /// Installs a handler, with its user data, for an event type.
    fn install_handler(&mut self, session: ViSession, event_type: ViEventType, handler: HandlerId, user_data: u64) -> ViStatus;

    /// Removes the handler installed with exactly this user data.
    fn uninstall_handler(&mut self, session: ViSession, event_type: ViEventType, handler: HandlerId, user_data: u64) -> ViStatus;

    /// Waits for an occurrence of an enabled event and hands back its context.
    fn wait_on_event(&mut self, session: ViSession, event_type: ViEventType, timeout: u32) -> (ViStatus, ViEvent);

    /// Starts an asynchronous read of `count` bytes and hands back its job.
    fn read_async(&mut self, session: ViSession, count: u32) -> (ViStatus, ViJobId);

    /// Starts an asynchronous write of the bytes and hands back its job.
    fn write_async(&mut self, session: ViSession, data: &[u8]) -> (ViStatus, ViJobId);

    /// Aborts an asynchronous job.
    fn terminate(&mut self, session: ViSession, job: ViJobId) -> ViStatus;

    /// Fetches the text that describes a status code, NUL-terminated.
    fn status_desc(&mut self, session: ViSession, code: ViStatus) -> (ViStatus, Vec<u8>);

    /// Sends `count` bytes of the named file.
    fn write_from_file(&mut self, session: ViSession, path: &str, count: u32) -> (ViStatus, u32);

    /// Receives `count` bytes into the named file.
    fn read_to_file(&mut self, session: ViSession, path: &str, count: u32) -> (ViStatus, u32);

    /// Searches for the resources that match an expression; hands back the list, how many were found, and the name of the first.
    fn find_rsrc(&mut self, manager: ViSession, expr: &str) -> (ViStatus, ViFindList, u32, Vec<u8>);

    /// The name of the next resource in a list of search results.
    fn find_next(&mut self, list: ViFindList) -> (ViStatus, Vec<u8>);

    /// Parses a resource name into interface type, board number, class, expanded name and alias.
    fn parse_rsrc(&mut self, manager: ViSession, name: &str) -> (ViStatus, u16, u16, Vec<u8>, Vec<u8>, Vec<u8>);
}

/// One completed exchange: the primitive, its arguments, and what came back.
pub enum Call {
    OpenDefaultRm { status: ViStatus, manager: ViSession },
    Open {
        manager: ViSession,
        name: Seq<char>,
        mode: u32,
        timeout: u32,
        status: ViStatus,
        session: ViSession,
    },
    Close { session: ViSession, status: ViStatus },
    Read { session: ViSession, count: u32, status: ViStatus, data: Seq<u8> },
    Write { session: ViSession, data: Seq<u8>, status: ViStatus, written: u32 },
    Clear { session: ViSession, status: ViStatus },
    SetBuf { session: ViSession, mask: u16, size: u32, status: ViStatus },
    BufWrite { session: ViSession, data: Seq<u8>, status: ViStatus, written: u32 },
    BufRead { session: ViSession, count: u32, status: ViStatus, data: Seq<u8> },
    Flush { session: ViSession, mask: u16, status: ViStatus },
    AssertTrigger { session: ViSession, protocol: u16, status: ViStatus },
    ReadStb { session: ViSession, status: ViStatus, status_byte: u16 },
    GetAttribute {
        session: ViSession,
        attribute: ViAttr,
        width: RawKind,
        status: ViStatus,
        value: RawValue,
    },
    GetAttributeBytes {
        session: ViSession,
        attribute: ViAttr,
        length: usize,
        status: ViStatus,
        data: Seq<u8>,
    },
    SetAttribute { session: ViSession, attribute: ViAttr, state: ViAttrState, status: ViStatus },
    Lock {
        session: ViSession,
        lock_type: u32,
        timeout: u32,
        requested_key: Option<Seq<char>>,
        status: ViStatus,
        access_key: Seq<u8>,
    },
    Unlock { session: ViSession, status: ViStatus },
    EnableEvent {
        session: ViSession,
        event_type: ViEventType,
        mechanism: u16,
        filter: ViEventFilter,
        status: ViStatus,
    },
    DisableEvent { session: ViSession, event_type: ViEventType, mechanism: u16, status: ViStatus },
    DiscardEvents { session: ViSession, event_type: ViEventType, mechanism: u16, status: ViStatus },
    InstallHandler {
        session: ViSession,
        event_type: ViEventType,
        handler: HandlerId,
        user_data: u64,
        status: ViStatus,
    },
    UninstallHandler {
        session: ViSession,
        event_type: ViEventType,
        handler: HandlerId,
        user_data: u64,
        status: ViStatus,
    },
    WaitOnEvent {
        session: ViSession,
        event_type: ViEventType,
        timeout: u32,
        status: ViStatus,
        context: ViEvent,
    },
    ReadAsync { session: ViSession, count: u32, status: ViStatus, job: ViJobId },
    WriteAsync { session: ViSession, data: Seq<u8>, status: ViStatus, job: ViJobId },
    Terminate { session: ViSession, job: ViJobId, status: ViStatus },
    StatusDesc { session: ViSession, code: ViStatus, status: ViStatus, text: Seq<u8> },
    WriteFromFile {
        session: ViSession,
        path: Seq<char>,
        count: u32,
        status: ViStatus,
        transferred: u32,
    },
    ReadToFile {
        session: ViSession,
        path: Seq<char>,
        count: u32,
        status: ViStatus,
        transferred: u32,
    },
    FindRsrc {
        manager: ViSession,
        expr: Seq<char>,
        status: ViStatus,
        list: ViFindList,
        count: u32,
        first: Seq<u8>,
    },
    FindNext { list: ViFindList, status: ViStatus, desc: Seq<u8> },
    ParseRsrc {
        manager: ViSession,
        name: Seq<char>,
        status: ViStatus,
        interface_type: u16,
        board: u16,
        class: Seq<u8>,
        expanded_name: Seq<u8>,
        alias: Seq<u8>,
    },
}

/// The requested key of a lock, as the trace records it.
pub open spec fn key_model(key: Option<&str>) -> Option<Seq<char>> {
    match key {
        Some(k) => Some(k@),
        None => None,
    }
}

/// Whether `after` carries `before` on: nothing that was exchanged is
/// forgotten or changed.
pub open spec fn continues(before: Seq<Call>, after: Seq<Call>) -> bool {
    &&& before.len() <= after.len()
    &&& forall|i: int| 0 <= i < before.len() ==> #[trigger] after[i] == before[i]
}

/// A transport together with the record of what was exchanged over it.
pub struct Link<T: Transport> {
    transport: T,
    calls: Ghost<Seq<Call>>,
}

impl<T: Transport> Link<T> {
    /// Every exchange made through this link so far, oldest first.
    pub closed spec fn trace(&self) -> Seq<Call> {
        self.calls@
    }

    /// Wraps a transport; nothing has been exchanged yet.
    pub fn new(transport: T) -> (link: Self)
        ensures
            link.trace() == Seq::<Call>::empty(),
    {
        Link { transport, calls: Ghost(Seq::empty()) }
    }

    /// The transport behind this link.
    pub closed spec fn inner(&self) -> T {
        self.transport
    }

    /// Gives the transport back.
    pub fn into_inner(self) -> (transport: T)
        ensures
            transport == self.inner(),
    {
        self.transport
    }

    /// The transport, for inspection.
    pub fn transport(&self) -> (transport: &T)
        ensures
            *transport == self.inner(),
    {
        &self.transport
    }

    /// Opens the default resource manager and hands back its session.
    pub fn open_default_rm(&mut self) -> (reply: (ViStatus, ViSession))
        ensures
            final(self).trace() == old(self).trace().push(
                Call::OpenDefaultRm {
                    status: reply.0,
                    manager: reply.1,
                },
            ),
    {
        let reply = self.transport.open_default_rm();
        proof {
            self.calls@ = self.calls@.push(
                Call::OpenDefaultRm {
                    status: reply.0,
                    manager: reply.1,
                },
            );
        }
        reply
    }

    /// Opens a session to the named resource under a resource manager.
    pub fn open(&mut self, manager: ViSession, name: &str, mode: u32, timeout: u32) -> (reply: (ViStatus, ViSession))
        ensures
            final(self).trace() == old(self).trace().push(
                Call::Open {
                    manager,
                    name: name@,
                    mode,
                    timeout,
                    status: reply.0,
                    session: reply.1,
                },
            ),
    {
        let reply = self.transport.open(manager, name, mode, timeout);
        proof {
            self.calls@ = self.calls@.push(
                Call::Open {
                    manager,
                    name: name@,
                    mode,
                    timeout,
                    status: reply.0,
                    session: reply.1,
                },
            );
        }
        reply
    }

    /// Closes a session, an event context or a search list.
    pub fn close(&mut self, session: ViSession) -> (reply: ViStatus)
        ensures
            final(self).trace() == old(self).trace().push(
                Call::Close {
                    session,
                    status: reply,
                },
            ),
    {
        let reply = self.transport.close(session);
        proof {
            self.calls@ = self.calls@.push(
                Call::Close {
                    session,
                    status: reply,
                },
            );
        }
        reply
    }

    /// Reads at most `count` bytes, blocking until data, an end condition or the session's timeout.
    pub fn read(&mut self, session: ViSession, count: u32) -> (reply: (ViStatus, Vec<u8>))
        ensures
            final(self).trace() == old(self).trace().push(
                Call::Read {
                    session,
                    count,
                    status: reply.0,
                    data: reply.1@,
                },
            ),
    {
        let reply = self.transport.read(session, count);
        proof {
            self.calls@ = self.calls@.push(
                Call::Read {
                    session,
                    count,
                    status: reply.0,
                    data: reply.1@,
                },
            );
        }
        reply
    }

    /// Writes the bytes, blocking until they are sent or the session's timeout elapses.
    pub fn write(&mut self, session: ViSession, data: &[u8]) -> (reply: (ViStatus, u32))
        ensures
            final(self).trace() == old(self).trace().push(
                Call::Write {
                    session,
                    data: data@,
                    status: reply.0,
                    written: reply.1,
                },
            ),
    {
        let reply = self.transport.write(session, data);
        proof {
            self.calls@ = self.calls@.push(
                Call::Write {
                    session,
                    data: data@,
                    status: reply.0,
                    written: reply.1,
                },
            );
        }
        reply
    }

    /// Clears the device.
    pub fn clear(&mut self, session: ViSession) -> (reply: ViStatus)
        ensures
            final(self).trace() == old(self).trace().push(
                Call::Clear {
                    session,
                    status: reply,
                },
            ),
    {
        let reply = self.transport.clear(session);
        proof {
            self.calls@ = self.calls@.push(
                Call::Clear {
                    session,
                    status: reply,
                },
            );
        }
        reply
    }

    /// Sets the size of the buffers that the mask selects.
    pub fn set_buf(&mut self, session: ViSession, mask: u16, size: u32) -> (reply: ViStatus)
        ensures
            final(self).trace() == old(self).trace().push(
                Call::SetBuf {
                    session,
                    mask,
                    size,
                    status: reply,
                },
            ),
    {
        let reply = self.transport.set_buf(session, mask, size);
        proof {
            self.calls@ = self.calls@.push(
                Call::SetBuf {
                    session,
                    mask,
                    size,
                    status: reply,
                },
            );
        }
        reply
    }

    /// Writes the bytes to the formatted write buffer.
    pub fn buf_write(&mut self, session: ViSession, data: &[u8]) -> (reply: (ViStatus, u32))
        ensures
            final(self).trace() == old(self).trace().push(
                Call::BufWrite {
                    session,
                    data: data@,
                    status: reply.0,
                    written: reply.1,
                },
            ),
    {
        let reply = self.transport.buf_write(session, data);
        proof {
            self.calls@ = self.calls@.push(
                Call::BufWrite {
                    session,
                    data: data@,
                    status: reply.0,
                    written: reply.1,
                },
            );
        }
        reply
    }

    /// Reads at most `count` bytes through the formatted read buffer.
    pub fn buf_read(&mut self, session: ViSession, count: u32) -> (reply: (ViStatus, Vec<u8>))
        ensures
            final(self).trace() == old(self).trace().push(
                Call::BufRead {
                    session,
                    count,
                    status: reply.0,
                    data: reply.1@,
                },
            ),
    {
        let reply = self.transport.buf_read(session, count);
        proof {
            self.calls@ = self.calls@.push(
                Call::BufRead {
                    session,
                    count,
                    status: reply.0,
                    data: reply.1@,
                },
            );
        }
        reply
    }

    /// Flushes the buffers that the mask selects.
    pub fn flush(&mut self, session: ViSession, mask: u16) -> (reply: ViStatus)
        ensures
            final(self).trace() == old(self).trace().push(
                Call::Flush {
                    session,
                    mask,
                    status: reply,
                },
            ),
    {
        let reply = self.transport.flush(session, mask);
        proof {
            self.calls@ = self.calls@.push(
                Call::Flush {
                    session,
                    mask,
                    status: reply,
                },
            );
        }
        reply
    }

    /// Asserts a software or hardware trigger.
    pub fn assert_trigger(&mut self, session: ViSession, protocol: u16) -> (reply: ViStatus)
        ensures
            final(self).trace() == old(self).trace().push(
                Call::AssertTrigger {
                    session,
                    protocol,
                    status: reply,
                },
            ),
    {
        let reply = self.transport.assert_trigger(session, protocol);
        proof {
            self.calls@ = self.calls@.push(
                Call::AssertTrigger {
                    session,
                    protocol,
                    status: reply,
                },
            );
        }
        reply
    }

    /// Reads the service request status.
    pub fn read_stb(&mut self, session: ViSession) -> (reply: (ViStatus, u16))
        ensures
            final(self).trace() == old(self).trace().push(
                Call::ReadStb {
                    session,
                    status: reply.0,
                    status_byte: reply.1,
                },
            ),
    {
        let reply = self.transport.read_stb(session);
        proof {
            self.calls@ = self.calls@.push(
                Call::ReadStb {
                    session,
                    status: reply.0,
                    status_byte: reply.1,
                },
            );
        }
        reply
    }

    /// Reads a scalar attribute in the given raw width.
    pub fn get_attribute(&mut self, session: ViSession, attribute: ViAttr, width: RawKind) -> (reply: (ViStatus, RawValue))
        ensures
            final(self).trace() == old(self).trace().push(
                Call::GetAttribute {
                    session,
                    attribute,
                    width,
                    status: reply.0,
                    value: reply.1,
                },
            ),
    {
        let reply = self.transport.get_attribute(session, attribute, width);
        proof {
            self.calls@ = self.calls@.push(
                Call::GetAttribute {
                    session,
                    attribute,
                    width,
                    status: reply.0,
                    value: reply.1,
                },
            );
        }
        reply
    }

    /// Reads an attribute that is a string or a block of bytes into a buffer of `length` bytes.
    pub fn get_attribute_bytes(&mut self, session: ViSession, attribute: ViAttr, length: usize) -> (reply: (ViStatus, Vec<u8>))
        ensures
            final(self).trace() == old(self).trace().push(
                Call::GetAttributeBytes {
                    session,
                    attribute,
                    length,
                    status: reply.0,
                    data: reply.1@,
                },
            ),
    {
        let reply = self.transport.get_attribute_bytes(session, attribute, length);
        proof {
            self.calls@ = self.calls@.push(
                Call::GetAttributeBytes {
                    session,
                    attribute,
                    length,
                    status: reply.0,
                    data: reply.1@,
                },
            );
        }
        reply
    }

    /// Writes an attribute from its widened state.
    pub fn set_attribute(&mut self, session: ViSession, attribute: ViAttr, state: ViAttrState) -> (reply: ViStatus)
        ensures
            final(self).trace() == old(self).trace().push(
                Call::SetAttribute {
                    session,
                    attribute,
                    state,
                    status: reply,
                },
            ),
    {
        let reply = self.transport.set_attribute(session, attribute, state);
        proof {
            self.calls@ = self.calls@.push(
                Call::SetAttribute {
                    session,
                    attribute,
                    state,
                    status: reply,
                },
            );
        }
        reply
    }

    /// Requests an exclusive lock, which takes no key, or a shared lock under the requested key; hands back the key in effect.
    pub fn lock(&mut self, session: ViSession, lock_type: u32, timeout: u32, requested_key: Option<&str>) -> (reply: (ViStatus, Vec<u8>))
        ensures
            final(self).trace() == old(self).trace().push(
                Call::Lock {
                    session,
                    lock_type,
                    timeout,
                    requested_key: key_model(requested_key),
                    status: reply.0,
                    access_key: reply.1@,
                },
            ),
    {
        let reply = self.transport.lock(session, lock_type, timeout, requested_key);
        proof {
            self.calls@ = self.calls@.push(
                Call::Lock {
                    session,
                    lock_type,
                    timeout,
                    requested_key: key_model(requested_key),
                    status: reply.0,
                    access_key: reply.1@,
                },
            );
        }
        reply
    }

    /// Gives up one lock on the session.
    pub fn unlock(&mut self, session: ViSession) -> (reply: ViStatus)
        ensures
            final(self).trace() == old(self).trace().push(
                Call::Unlock {
                    session,
                    status: reply,
                },
            ),
    {
        let reply = self.transport.unlock(session);
        proof {
            self.calls@ = self.calls@.push(
                Call::Unlock {
                    session,
                    status: reply,
                },
            );
        }
        reply
    }

    /// Enables notification of an event type for a mechanism.
    pub fn enable_event(&mut self, session: ViSession, event_type: ViEventType, mechanism: u16, filter: ViEventFilter) -> (reply: ViStatus)
        ensures
            final(self).trace() == old(self).trace().push(
                Call::EnableEvent {
                    session,
                    event_type,
                    mechanism,
                    filter,
                    status: reply,
                },
            ),
    {
        let reply = self.transport.enable_event(session, event_type, mechanism, filter);
        proof {
            self.calls@ = self.calls@.push(
                Call::EnableEvent {
                    session,
                    event_type,
                    mechanism,
                    filter,
                    status: reply,
                },
            );
        }
        reply
    }

    /// Stops new notifications of an event type for a mechanism.
    pub fn disable_event(&mut self, session: ViSession, event_type: ViEventType, mechanism: u16) -> (reply: ViStatus)
        ensures
            final(self).trace() == old(self).trace().push(
                Call::DisableEvent {
                    session,
                    event_type,
                    mechanism,
                    status: reply,
                },
            ),
    {
        let reply = self.transport.disable_event(session, event_type, mechanism);
        proof {
            self.calls@ = self.calls@.push(
                Call::DisableEvent {
                    session,
                    event_type,
                    mechanism,
                    status: reply,
                },
            );
        }
        reply
    }

    /// Discards the occurrences that are still queued.
    pub fn discard_events(&mut self, session: ViSession, event_type: ViEventType, mechanism: u16) -> (reply: ViStatus)
        ensures
            final(self).trace() == old(self).trace().push(
                Call::DiscardEvents {
                    session,
                    event_type,
                    mechanism,
                    status: reply,
                },
            ),
    {
        let reply = self.transport.discard_events(session, event_type, mechanism);
        proof {
            self.calls@ = self.calls@.push(
                Call::DiscardEvents {
                    session,
                    event_type,
                    mechanism,
                    status: reply,
                },
            );
        }
        reply
    }

    /// Installs a handler, with its user data, for an event type.
    pub fn install_handler(&mut self, session: ViSession, event_type: ViEventType, handler: HandlerId, user_data: u64) -> (reply: ViStatus)
        ensures
            final(self).trace() == old(self).trace().push(
                Call::InstallHandler {
                    session,
                    event_type,
                    handler,
                    user_data,
                    status: reply,
                },
            ),
    {
        let reply = self.transport.install_handler(session, event_type, handler, user_data);
        proof {
            self.calls@ = self.calls@.push(
                Call::InstallHandler {
                    session,
                    event_type,
                    handler,
                    user_data,
                    status: reply,
                },
            );
        }
        reply
    }

    /// Removes the handler installed with exactly this user data.
    pub fn uninstall_handler(&mut self, session: ViSession, event_type: ViEventType, handler: HandlerId, user_data: u64) -> (reply: ViStatus)
        ensures
            final(self).trace() == old(self).trace().push(
                Call::UninstallHandler {
                    session,
                    event_type,
                    handler,
                    user_data,
                    status: reply,
                },
            ),
    {
        let reply = self.transport.uninstall_handler(session, event_type, handler, user_data);
        proof {
            self.calls@ = self.calls@.push(
                Call::UninstallHandler {
                    session,
                    event_type,
                    handler,
                    user_data,
                    status: reply,
                },
            );
        }
        reply
    }

    /// Waits for an occurrence of an enabled event and hands back its context.
    pub fn wait_on_event(&mut self, session: ViSession, event_type: ViEventType, timeout: u32) -> (reply: (ViStatus, ViEvent))
        ensures
            final(self).trace() == old(self).trace().push(
                Call::WaitOnEvent {
                    session,
                    event_type,
                    timeout,
                    status: reply.0,
                    context: reply.1,
                },
            ),
    {
        let reply = self.transport.wait_on_event(session, event_type, timeout);
        proof {
            self.calls@ = self.calls@.push(
                Call::WaitOnEvent {
                    session,
                    event_type,
                    timeout,
                    status: reply.0,
                    context: reply.1,
                },
            );
        }
        reply
    }

    /// Starts an asynchronous read of `count` bytes and hands back its job.
    pub fn read_async(&mut self, session: ViSession, count: u32) -> (reply: (ViStatus, ViJobId))
        ensures
            final(self).trace() == old(self).trace().push(
                Call::ReadAsync {
                    session,
                    count,
                    status: reply.0,
                    job: reply.1,
                },
            ),
    {
        let reply = self.transport.read_async(session, count);
        proof {
            self.calls@ = self.calls@.push(
                Call::ReadAsync {
                    session,
                    count,
                    status: reply.0,
                    job: reply.1,
                },
            );
        }
        reply
    }

    /// Starts an asynchronous write of the bytes and hands back its job.
    pub fn write_async(&mut self, session: ViSession, data: &[u8]) -> (reply: (ViStatus, ViJobId))
        ensures
            final(self).trace() == old(self).trace().push(
                Call::WriteAsync {
                    session,
                    data: data@,
                    status: reply.0,
                    job: reply.1,
                },
            ),
    {
        let reply = self.transport.write_async(session, data);
        proof {
            self.calls@ = self.calls@.push(
                Call::WriteAsync {
                    session,
                    data: data@,
                    status: reply.0,
                    job: reply.1,
                },
            );
        }
        reply
    }

    /// Aborts an asynchronous job.
    pub fn terminate(&mut self, session: ViSession, job: ViJobId) -> (reply: ViStatus)
        ensures
            final(self).trace() == old(self).trace().push(
                Call::Terminate {
                    session,
                    job,
                    status: reply,
                },
            ),
    {
        let reply = self.transport.terminate(session, job);
        proof {
            self.calls@ = self.calls@.push(
                Call::Terminate {
                    session,
                    job,
                    status: reply,
                },
            );
        }
        reply
    }

    /// Fetches the text that describes a status code, NUL-terminated.
    pub fn status_desc(&mut self, session: ViSession, code: ViStatus) -> (reply: (ViStatus, Vec<u8>))
        ensures
            final(self).trace() == old(self).trace().push(
                Call::StatusDesc {
                    session,
                    code,
                    status: reply.0,
                    text: reply.1@,
                },
            ),
    {
        let reply = self.transport.status_desc(session, code);
        proof {
            self.calls@ = self.calls@.push(
                Call::StatusDesc {
                    session,
                    code,
                    status: reply.0,
                    text: reply.1@,
                },
            );
        }
        reply
    }

    /// Sends `count` bytes of the named file.
    pub fn write_from_file(&mut self, session: ViSession, path: &str, count: u32) -> (reply: (ViStatus, u32))
        ensures
            final(self).trace() == old(self).trace().push(
                Call::WriteFromFile {
                    session,
                    path: path@,
                    count,
                    status: reply.0,
                    transferred: reply.1,
                },
            ),
    {
        let reply = self.transport.write_from_file(session, path, count);
        proof {
            self.calls@ = self.calls@.push(
                Call::WriteFromFile {
                    session,
                    path: path@,
                    count,
                    status: reply.0,
                    transferred: reply.1,
                },
            );
        }
        reply
    }

    /// Receives `count` bytes into the named file.
    pub fn read_to_file(&mut self, session: ViSession, path: &str, count: u32) -> (reply: (ViStatus, u32))
        ensures
            final(self).trace() == old(self).trace().push(
                Call::ReadToFile {
                    session,
                    path: path@,
                    count,
                    status: reply.0,
                    transferred: reply.1,
                },
            ),
    {
        let reply = self.transport.read_to_file(session, path, count);
        proof {
            self.calls@ = self.calls@.push(
                Call::ReadToFile {
                    session,
                    path: path@,
                    count,
                    status: reply.0,
                    transferred: reply.1,
                },
            );
        }
        reply
    }

    /// Searches for the resources that match an expression; hands back the list, how many were found, and the name of the first.
    pub fn find_rsrc(&mut self, manager: ViSession, expr: &str) -> (reply: (ViStatus, ViFindList, u32, Vec<u8>))
        ensures
            final(self).trace() == old(self).trace().push(
                Call::FindRsrc {
                    manager,
                    expr: expr@,
                    status: reply.0,
                    list: reply.1,
                    count: reply.2,
                    first: reply.3@,
                },
            ),
    {
        let reply = self.transport.find_rsrc(manager, expr);
        proof {
            self.calls@ = self.calls@.push(
                Call::FindRsrc {
                    manager,
                    expr: expr@,
                    status: reply.0,
                    list: reply.1,
                    count: reply.2,
                    first: reply.3@,
                },
            );
        }
        reply
    }

    /// The name of the next resource in a list of search results.
    pub fn find_next(&mut self, list: ViFindList) -> (reply: (ViStatus, Vec<u8>))
        ensures
            final(self).trace() == old(self).trace().push(
                Call::FindNext {
                    list,
                    status: reply.0,
                    desc: reply.1@,
                },
            ),
    {
        let reply = self.transport.find_next(list);
        proof {
            self.calls@ = self.calls@.push(
                Call::FindNext {
                    list,
                    status: reply.0,
                    desc: reply.1@,
                },
            );
        }
        reply
    }

    /// Parses a resource name into interface type, board number, class, expanded name and alias.
    pub fn parse_rsrc(&mut self, manager: ViSession, name: &str) -> (reply: (ViStatus, u16, u16, Vec<u8>, Vec<u8>, Vec<u8>))
        ensures
            final(self).trace() == old(self).trace().push(
                Call::ParseRsrc {
                    manager,
                    name: name@,
                    status: reply.0,
                    interface_type: reply.1,
                    board: reply.2,
                    class: reply.3@,
                    expanded_name: reply.4@,
                    alias: reply.5@,
                },
            ),
    {
        let reply = self.transport.parse_rsrc(manager, name);
        proof {
            self.calls@ = self.calls@.push(
                Call::ParseRsrc {
                    manager,
                    name: name@,
                    status: reply.0,
                    interface_type: reply.1,
                    board: reply.2,
                    class: reply.3@,
                    expanded_name: reply.4@,
                    alias: reply.5@,
                },
            );
        }
        reply
    }
}

} // verus!
