//! Event notification on a session: enabling and disabling event types,
//! installing and removing handlers, and waiting on the queue.
use crate::bindings::{ViEvent, ViEventFilter};
use crate::error::Error;
use crate::event::{without, Event, EventDispatcher, EventRegistration, HandlerId, HandlingMechanism};
use crate::session::{low32, millis_u32, next_call, settled, Session};
use crate::time::TimeSpan;
use crate::transport::{Call, Link, Transport};
use vstd::prelude::*;

verus! {

impl Session {
    /// Enables notification of an event type for a mechanism.
    pub fn enable_event<T: Transport>(
        &self,
        link: &mut Link<T>,
        event_type: Event,
        mechanism: HandlingMechanism,
        filter: ViEventFilter,
    ) -> (result: Result<(), Error>)
        ensures
            next_call(old(link).trace(), final(link).trace()) matches Call::EnableEvent {
                session,
                event_type: sent,
                mechanism: how,
                filter: passed,
                status,
            } && session == self.spec_session_id() && sent == event_type.spec_code() && how
                == mechanism.spec_code() && passed == filter && settled(
                result,
                status,
                session,
                old(link).trace(),
                final(link).trace(),
            ),
    {
        let status = link.enable_event(
            self.session_id(),
            event_type.code(),
            mechanism.code(),
            filter,
        );
        Error::wrap_binding(Some(self.session_id()), status, link)
    }

    /// Stops new notifications of an event type for a mechanism. Occurrences
    /// that are already queued stay queued.
    pub fn disable_event<T: Transport>(
        &self,
        link: &mut Link<T>,
        event_type: Event,
        mechanism: HandlingMechanism,
    ) -> (result: Result<(), Error>)
        ensures
            next_call(old(link).trace(), final(link).trace()) matches Call::DisableEvent {
                session,
                event_type: sent,
                mechanism: how,
                status,
            } && session == self.spec_session_id() && sent == event_type.spec_code() && how
                == mechanism.spec_code() && settled(
                result,
                status,
                session,
                old(link).trace(),
                final(link).trace(),
            ),
    {
        let status = link.disable_event(self.session_id(), event_type.code(), mechanism.code());
        Error::wrap_binding(Some(self.session_id()), status, link)
    }

    /// Discards the occurrences of an event type that are still queued.
    pub fn discard_events<T: Transport>(
        &self,
        link: &mut Link<T>,
        event_type: Event,
        mechanism: HandlingMechanism,
    ) -> (result: Result<(), Error>)
        ensures
            next_call(old(link).trace(), final(link).trace()) matches Call::DiscardEvents {
                session,
                event_type: sent,
                mechanism: how,
                status,
            } && session == self.spec_session_id() && sent == event_type.spec_code() && how
                == mechanism.spec_code() && settled(
                result,
                status,
                session,
                old(link).trace(),
                final(link).trace(),
            ),
    {
        let status = link.discard_events(self.session_id(), event_type.code(), mechanism.code());
        Error::wrap_binding(Some(self.session_id()), status, link)
    }

    /// The registration of a handler on this session.
    pub open spec fn registration(
        &self,
        event_type: Event,
        handler: HandlerId,
        user_data: u64,
    ) -> EventRegistration {
        EventRegistration { session: self.spec_session_id(), event_type, handler, user_data }
    }

    /// Installs a handler with its data for an event type. The handler is
    /// entered in the dispatcher, after those already there, once the
    /// transport has accepted it; where the transport refuses, the dispatcher
    /// stays as it was.
    pub fn add_event_handler<T: Transport>(
        &self,
        link: &mut Link<T>,
        dispatcher: &mut EventDispatcher,
        event_type: Event,
        handler: HandlerId,
        user_data: u64,
    ) -> (result: Result<(), Error>)
        ensures
            next_call(old(link).trace(), final(link).trace()) matches Call::InstallHandler {
                session,
                event_type: sent,
                handler: entry,
                user_data: data,
                status,
            } && session == self.spec_session_id() && sent == event_type.spec_code() && entry
                == handler && data == user_data && settled(
                result,
                status,
                session,
                old(link).trace(),
                final(link).trace(),
            ),
            final(dispatcher)@ == if result is Ok {
                old(dispatcher)@.push(self.registration(event_type, handler, user_data))
            } else {
                old(dispatcher)@
            },
    {
        let status = link.install_handler(self.session_id(), event_type.code(), handler, user_data);
        Error::wrap_binding(Some(self.session_id()), status, link)?;
        dispatcher.install(
            EventRegistration { session: self.session_id(), event_type, handler, user_data },
        );
        Ok(())
    }

    /// Removes the handler that was installed with exactly this data. Once
    /// the transport has let it go, every registration of it leaves the
    /// dispatcher; where the transport refuses, the dispatcher stays as it
    /// was.
    pub fn remove_event_handler<T: Transport>(
        &self,
        link: &mut Link<T>,
        dispatcher: &mut EventDispatcher,
        event_type: Event,
        handler: HandlerId,
        user_data: u64,
    ) -> (result: Result<(), Error>)
        ensures
            next_call(old(link).trace(), final(link).trace()) matches Call::UninstallHandler {
                session,
                event_type: sent,
                handler: entry,
                user_data: data,
                status,
            } && session == self.spec_session_id() && sent == event_type.spec_code() && entry
                == handler && data == user_data && settled(
                result,
                status,
                session,
                old(link).trace(),
                final(link).trace(),
            ),
            final(dispatcher)@ == if result is Ok {
                without(old(dispatcher)@, self.registration(event_type, handler, user_data))
            } else {
                old(dispatcher)@
            },
    {
        let status = link.uninstall_handler(
            self.session_id(),
            event_type.code(),
            handler,
            user_data,
        );
        Error::wrap_binding(Some(self.session_id()), status, link)?;
        dispatcher.uninstall(
            EventRegistration { session: self.session_id(), event_type, handler, user_data },
        );
        Ok(())
    }

    /// Waits for an occurrence of an enabled event type, at most `timeout`,
    /// of which the low 32 bits of milliseconds are handed over, and hands
    /// back the context of the occurrence.
    pub fn wait_on_event<T: Transport>(
        &self,
        link: &mut Link<T>,
        in_event_type: Event,
        timeout: TimeSpan,
    ) -> (result: Result<ViEvent, Error>)
        ensures
            next_call(old(link).trace(), final(link).trace()) matches Call::WaitOnEvent {
                session,
                event_type,
                timeout: waited,
                status,
                context,
            } && session == self.spec_session_id() && event_type == in_event_type.spec_code()
                && waited == low32(timeout.millis()) && settled(
                result,
                status,
                session,
                old(link).trace(),
                final(link).trace(),
            ) && (result matches Ok(event) ==> event == context),
    {
        let reply = link.wait_on_event(
            self.session_id(),
            in_event_type.code(),
            millis_u32(timeout),
        );
        Error::wrap_binding(Some(self.session_id()), reply.0, link)?;
        Ok(reply.1)
    }
}

} // verus!
