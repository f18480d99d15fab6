//! Events: their types and mechanisms, the handlers that receive them, and
//! the table of installed handlers.
use crate::bindings;
use crate::bindings::{ViEvent, ViEventType, ViSession, ViStatus};
use crate::error::{is_success, Error, ErrorType};
use vstd::prelude::*;

verus! {

/// The types of events that a session can be notified of.
#[derive(Debug, Copy, Clone, PartialEq, Eq, Structural)]
pub enum Event {
    /// An asynchronous operation has completed.
    IoCompletion,
    /// A trigger was received.
    Trig,
    /// The device requests service.
    ServiceReq,
    /// The local controller was sent a device clear.
    Clear,
    /// An operation ended in an error.
    Exception,
    /// The GPIB controller gained or lost controller-in-charge status.
    GpibCic,
    /// The GPIB controller was addressed to talk.
    GpibTalk,
    /// The GPIB controller was addressed to listen.
    GpibListen,
    /// The VXI/VME SYSFAIL line was asserted.
    VxiVmeSysfail,
    /// The VXI/VME SYSRESET line was asserted.
    VxiVmeSysreset,
    /// A VXI signal or interrupt was received.
    VxiSigp,
    /// A VXI/VME interrupt was received.
    VxiVmeIntr,
    /// A PXI interrupt occurred.
    PxiIntr,
    /// A TCP/IP connection was made.
    TcpipConnect,
    /// A USB interrupt occurred.
    UsbIntr,
    /// Every event type that is enabled on the session.
    All,
}

impl Event {
    /// The identifier of this event type on the wire.
    pub open spec fn spec_code(self) -> ViEventType {
        match self {
            Event::IoCompletion => bindings::VI_EVENT_IO_COMPLETION,
            Event::Trig => bindings::VI_EVENT_TRIG,
            Event::ServiceReq => bindings::VI_EVENT_SERVICE_REQ,
            Event::Clear => bindings::VI_EVENT_CLEAR,
            Event::Exception => bindings::VI_EVENT_EXCEPTION,
            Event::GpibCic => bindings::VI_EVENT_GPIB_CIC,
            Event::GpibTalk => bindings::VI_EVENT_GPIB_TALK,
            Event::GpibListen => bindings::VI_EVENT_GPIB_LISTEN,
            Event::VxiVmeSysfail => bindings::VI_EVENT_VXI_VME_SYSFAIL,
            Event::VxiVmeSysreset => bindings::VI_EVENT_VXI_VME_SYSRESET,
            Event::VxiSigp => bindings::VI_EVENT_VXI_SIGP,
            Event::VxiVmeIntr => bindings::VI_EVENT_VXI_VME_INTR,
            Event::PxiIntr => bindings::VI_EVENT_PXI_INTR,
            Event::TcpipConnect => bindings::VI_EVENT_TCPIP_CONNECT,
            Event::UsbIntr => bindings::VI_EVENT_USB_INTR,
            Event::All => bindings::VI_ALL_ENABLED_EVENTS,
        }
    }

    /// The identifier of this event type on the wire.
    #[verifier::when_used_as_spec(spec_code)]
    pub fn code(self) -> (code: ViEventType)
        ensures
            code == self.spec_code(),
    {
        match self {
            Event::IoCompletion => bindings::VI_EVENT_IO_COMPLETION,
            Event::Trig => bindings::VI_EVENT_TRIG,
            Event::ServiceReq => bindings::VI_EVENT_SERVICE_REQ,
            Event::Clear => bindings::VI_EVENT_CLEAR,
            Event::Exception => bindings::VI_EVENT_EXCEPTION,
            Event::GpibCic => bindings::VI_EVENT_GPIB_CIC,
            Event::GpibTalk => bindings::VI_EVENT_GPIB_TALK,
            Event::GpibListen => bindings::VI_EVENT_GPIB_LISTEN,
            Event::VxiVmeSysfail => bindings::VI_EVENT_VXI_VME_SYSFAIL,
            Event::VxiVmeSysreset => bindings::VI_EVENT_VXI_VME_SYSRESET,
            Event::VxiSigp => bindings::VI_EVENT_VXI_SIGP,
            Event::VxiVmeIntr => bindings::VI_EVENT_VXI_VME_INTR,
            Event::PxiIntr => bindings::VI_EVENT_PXI_INTR,
            Event::TcpipConnect => bindings::VI_EVENT_TCPIP_CONNECT,
            Event::UsbIntr => bindings::VI_EVENT_USB_INTR,
            Event::All => bindings::VI_ALL_ENABLED_EVENTS,
        }
    }

    /// The event type with this identifier; none where the identifier is not
    /// recognized.
    pub open spec fn with_code(value: ViEventType) -> Option<Event> {
        match value {
            bindings::VI_EVENT_IO_COMPLETION => Some(Event::IoCompletion),
            bindings::VI_EVENT_TRIG => Some(Event::Trig),
            bindings::VI_EVENT_SERVICE_REQ => Some(Event::ServiceReq),
            bindings::VI_EVENT_CLEAR => Some(Event::Clear),
            bindings::VI_EVENT_EXCEPTION => Some(Event::Exception),
            bindings::VI_EVENT_GPIB_CIC => Some(Event::GpibCic),
            bindings::VI_EVENT_GPIB_TALK => Some(Event::GpibTalk),
            bindings::VI_EVENT_GPIB_LISTEN => Some(Event::GpibListen),
            bindings::VI_EVENT_VXI_VME_SYSFAIL => Some(Event::VxiVmeSysfail),
            bindings::VI_EVENT_VXI_VME_SYSRESET => Some(Event::VxiVmeSysreset),
            bindings::VI_EVENT_VXI_SIGP => Some(Event::VxiSigp),
            bindings::VI_EVENT_VXI_VME_INTR => Some(Event::VxiVmeIntr),
            bindings::VI_EVENT_PXI_INTR => Some(Event::PxiIntr),
            bindings::VI_EVENT_TCPIP_CONNECT => Some(Event::TcpipConnect),
            bindings::VI_EVENT_USB_INTR => Some(Event::UsbIntr),
            bindings::VI_ALL_ENABLED_EVENTS => Some(Event::All),
            _ => None,
        }
    }

    /// The event type with this identifier. An identifier that is not
    /// recognized is refused with the default error.
    pub fn try_from(value: ViEventType) -> (event: Result<Event, Error>)
        ensures
            match event {
                Ok(e) => Event::with_code(value) == Some(e),
                Err(error) => Event::with_code(value) is None && error.status
                    == ErrorType::SystemError && error.text() is None,
            },
    {
        match value {
            bindings::VI_EVENT_IO_COMPLETION => Ok(Event::IoCompletion),
            bindings::VI_EVENT_TRIG => Ok(Event::Trig),
            bindings::VI_EVENT_SERVICE_REQ => Ok(Event::ServiceReq),
            bindings::VI_EVENT_CLEAR => Ok(Event::Clear),
            bindings::VI_EVENT_EXCEPTION => Ok(Event::Exception),
            bindings::VI_EVENT_GPIB_CIC => Ok(Event::GpibCic),
            bindings::VI_EVENT_GPIB_TALK => Ok(Event::GpibTalk),
            bindings::VI_EVENT_GPIB_LISTEN => Ok(Event::GpibListen),
            bindings::VI_EVENT_VXI_VME_SYSFAIL => Ok(Event::VxiVmeSysfail),
            bindings::VI_EVENT_VXI_VME_SYSRESET => Ok(Event::VxiVmeSysreset),
            bindings::VI_EVENT_VXI_SIGP => Ok(Event::VxiSigp),
            bindings::VI_EVENT_VXI_VME_INTR => Ok(Event::VxiVmeIntr),
            bindings::VI_EVENT_PXI_INTR => Ok(Event::PxiIntr),
            bindings::VI_EVENT_TCPIP_CONNECT => Ok(Event::TcpipConnect),
            bindings::VI_EVENT_USB_INTR => Ok(Event::UsbIntr),
            bindings::VI_ALL_ENABLED_EVENTS => Ok(Event::All),
            _ => Err(Error::default()),
        }
    }

    /// An event type is found again from its identifier, and an identifier
    /// that is recognized is the identifier of the type found.
    pub proof fn lemma_code_round_trip(event: Event, value: ViEventType)
        ensures
            Event::with_code(event.spec_code()) == Some(event),
            Event::with_code(value) matches Some(e) ==> e.spec_code() == value,
    {
    }
}

/// The ways in which an event reaches the application.
#[derive(Debug, Copy, Clone, PartialEq, Eq, Structural)]
pub enum HandlingMechanism {
    /// Occurrences are queued and taken by waiting.
    Queue,
    /// A handler is called on each occurrence.
    Handler,
    /// Occurrences are held back until handlers are resumed.
    SuspendHandler,
}

impl HandlingMechanism {
    /// The number of this mechanism on the wire.
    pub open spec fn spec_code(self) -> u16 {
        match self {
            HandlingMechanism::Queue => bindings::VI_QUEUE as u16,
            HandlingMechanism::Handler => bindings::VI_HNDLR as u16,
            HandlingMechanism::SuspendHandler => bindings::VI_SUSPEND_HNDLR as u16,
        }
    }

    /// The number of this mechanism on the wire.
    #[verifier::when_used_as_spec(spec_code)]
    pub fn code(self) -> (code: u16)
        ensures
            code == self.spec_code(),
    {
        match self {
            HandlingMechanism::Queue => bindings::VI_QUEUE as u16,
            HandlingMechanism::Handler => bindings::VI_HNDLR as u16,
            HandlingMechanism::SuspendHandler => bindings::VI_SUSPEND_HNDLR as u16,
        }
    }
}

/// A handler that needs no data of its own.
pub trait Handler {
    /// Handles one occurrence.
    fn handle(session: ViSession, event_type: Event, event: ViEvent) -> Result<(), Error>;
}

/// A handler that is installed together with data, which it is handed back on
/// each occurrence.
pub trait HandlerWithData {
    /// The data that the handler is installed with.
    type Data;

    /// Whether `outcome` is an outcome that handling this occurrence with this
    /// data comes to. Each handler says this of itself; one that says nothing
    /// may come to any outcome.
    open spec fn handles(
        session: ViSession,
        event_type: Event,
        event: ViEvent,
        user_data: &Self::Data,
        outcome: Result<(), Error>,
    ) -> bool {
        true
    }

    /// Handles one occurrence.
    fn handle(
        session: ViSession,
        event_type: Event,
        event: ViEvent,
        user_data: &Self::Data,
    ) -> (outcome: Result<(), Error>)
        ensures
            Self::handles(session, event_type, event, user_data, outcome),
    ;
}

impl<T: Handler> HandlerWithData for T {
    type Data = ();

    /// A handler without data comes to the outcomes that it comes to when
    /// it is handed the occurrence as it came.
    open spec fn handles(
        session: ViSession,
        event_type: Event,
        event: ViEvent,
        user_data: &Self::Data,
        outcome: Result<(), Error>,
    ) -> bool {
        call_ensures(<T as Handler>::handle, (session, event_type, event), outcome)
    }

    /// A handler without data is a handler with empty data: the occurrence
    /// is handed to it as it came, and the outcome is the one it gave.
    fn handle(
        session: ViSession,
        event_type: Event,
        event: ViEvent,
        _user_data: &Self::Data,
    ) -> (outcome: Result<(), Error>) {
        <T as Handler>::handle(session, event_type, event)
    }
}

/// The status that a handler's outcome is reported to the transport as.
pub open spec fn status_of(outcome: Result<(), Error>) -> ViStatus {
    match outcome {
        Ok(()) => bindings::VI_SUCCESS,
        Err(error) => error.status.spec_code(),
    }
}

/// The status that a handler's outcome is reported to the transport as:
/// success, or the code of the error's kind.
pub fn callback_status(outcome: Result<(), Error>) -> (status: ViStatus)
    ensures
        status == status_of(outcome),
{
    match outcome {
        Ok(()) => bindings::VI_SUCCESS,
        Err(error) => error.status.code(),
    }
}

/// The entry point that the transport calls on an occurrence: it types the
/// raw event type, calls the handler, and reports what came of it. An event
/// type that is not recognized is refused without calling the handler. For
/// one that is recognized, the handler is handed the session, the typed event
/// type, the event and the data as they came, and the status is that of the
/// outcome it gave.
pub fn c_handler<H: HandlerWithData>(
    session: ViSession,
    event_type: ViEventType,
    event: ViEvent,
    user_data: &H::Data,
) -> (status: ViStatus)
    ensures
        Event::with_code(event_type) is None ==> status == bindings::VI_ERROR_INV_EVENT,
        Event::with_code(event_type) matches Some(typed) ==> exists|outcome: Result<(), Error>|
            H::handles(session, typed, event, user_data, outcome) && status == status_of(outcome),
{
    let typed = match Event::try_from(event_type) {
        Ok(typed) => typed,
        Err(_) => {
            return bindings::VI_ERROR_INV_EVENT;
        },
    };
    let outcome = H::handle(session, typed, event, user_data);
    callback_status(outcome)
}

/// Names a handler entry point in a registration.
pub type HandlerId = u32;

/// One installed handler: the session and event type it is installed for,
/// the handler, and the data it was installed with.
#[derive(Debug, Copy, Clone, PartialEq, Eq, Structural)]
pub struct EventRegistration {
    pub session: ViSession,
    pub event_type: Event,
    pub handler: HandlerId,
    pub user_data: u64,
}

/// The handlers that are installed, in the order of their installation.
pub struct EventDispatcher {
    installed: Vec<EventRegistration>,
}

impl View for EventDispatcher {
    type V = Seq<EventRegistration>;

    closed spec fn view(&self) -> Seq<EventRegistration> {
        self.installed@
    }
}

/// The registrations among `installed` that an occurrence on `session` of
/// `event_type` reaches, last installed first.
pub open spec fn reached(
    installed: Seq<EventRegistration>,
    session: ViSession,
    event_type: Event,
) -> Seq<EventRegistration>
    decreases installed.len(),
{
    if installed.len() == 0 {
        Seq::empty()
    } else if installed.last().session == session && installed.last().event_type == event_type {
        seq![installed.last()] + reached(installed.drop_last(), session, event_type)
    } else {
        reached(installed.drop_last(), session, event_type)
    }
}

/// Whether `status` is what calling `handlers` in turn comes to, for an
/// occurrence that came with `user_data`: a handler installed with other data
/// is passed over; each of the others is called, and the first whose answer is
/// a failure ends the round with that answer; where none fails, the status is
/// success.
pub open spec fn delivered<F: Fn(EventRegistration) -> ViStatus>(
    call: F,
    handlers: Seq<EventRegistration>,
    user_data: u64,
    status: ViStatus,
) -> bool
    decreases handlers.len(),
{
    if handlers.len() == 0 {
        status == bindings::VI_SUCCESS
    } else if handlers[0].user_data != user_data {
        delivered(call, handlers.drop_first(), user_data, status)
    } else {
        exists|answer: ViStatus| #[trigger]
            call_ensures(call, (handlers[0],), answer) && if is_success(answer) {
                delivered(call, handlers.drop_first(), user_data, status)
            } else {
                status == answer
            }
    }
}

/// `installed` without every registration equal to `registration`, the rest
/// in their order.
pub open spec fn without(
    installed: Seq<EventRegistration>,
    registration: EventRegistration,
) -> Seq<EventRegistration>
    decreases installed.len(),
{
    if installed.len() == 0 {
        Seq::empty()
    } else if installed.last() == registration {
        without(installed.drop_last(), registration)
    } else {
        without(installed.drop_last(), registration).push(installed.last())
    }
}

impl EventDispatcher {
    /// A dispatcher with no handler installed.
    pub fn new() -> (dispatcher: Self)
        ensures
            dispatcher@ == Seq::<EventRegistration>::empty(),
    {
        EventDispatcher { installed: Vec::new() }
    }

    /// Installs a handler after those already installed.
    pub fn install(&mut self, registration: EventRegistration)
        ensures
            final(self)@ == old(self)@.push(registration),
    {
        self.installed.push(registration);
    }

    /// Whether exactly this handler, with exactly this data, is installed.
    pub fn is_installed(&self, registration: EventRegistration) -> (installed: bool)
        ensures
            installed == self@.contains(registration),
    {
        let mut i: usize = 0;
        while i < self.installed.len()
            invariant
                0 <= i <= self.installed.len(),
                forall|j: int| 0 <= j < i ==> self.installed@[j] != registration,
            decreases self.installed.len() - i,
        {
            if self.installed[i] == registration {
                return true;
            }
            i += 1;
        }
        false
    }

    /// Removes every registration of exactly this handler with exactly this
    /// data, and says whether there was one. A registration that differs in
    /// its data does not match and stays.
    pub fn uninstall(&mut self, registration: EventRegistration) -> (removed: bool)
        ensures
            final(self)@ == without(old(self)@, registration),
            removed == old(self)@.contains(registration),
    {
        let mut kept: Vec<EventRegistration> = Vec::new();
        let mut removed = false;
        let mut i: usize = 0;
        while i < self.installed.len()
            invariant
                0 <= i <= self.installed.len(),
                kept@ == without(self.installed@.take(i as int), registration),
                removed == self.installed@.take(i as int).contains(registration),
            decreases self.installed.len() - i,
        {
            let current = self.installed[i];
            proof {
                let prefix = self.installed@.take(i as int);
                let upto = self.installed@.take(i + 1);
                assert(upto.last() == current);
                assert(upto.drop_last() == prefix);
                if upto.contains(registration) && current != registration {
                    let k = choose|k: int| 0 <= k < upto.len() && upto[k] == registration;
                    assert(prefix[k] == registration);
                }
                if prefix.contains(registration) {
                    let k = choose|k: int| 0 <= k < prefix.len() && prefix[k] == registration;
                    assert(upto[k] == registration);
                }
                if current == registration {
                    assert(upto[i as int] == registration);
                }
            }
            if current == registration {
                removed = true;
            } else {
                kept.push(current);
            }
            i += 1;
        }
        assert(self.installed@.take(i as int) == self.installed@);
        self.installed = kept;
        removed
    }

    /// The handlers that an occurrence reaches, in the order in which they
    /// are to be called: last installed first.
    pub fn handlers_for(&self, session: ViSession, event_type: Event) -> (handlers: Vec<
        EventRegistration,
    >)
        ensures
            handlers@ == reached(self@, session, event_type),
    {
        let mut handlers: Vec<EventRegistration> = Vec::new();
        let mut i: usize = self.installed.len();
        proof {
            assert(self.installed@.take(i as int) =~= self.installed@);
            assert(handlers@ + reached(self.installed@, session, event_type) =~= reached(
                self.installed@,
                session,
                event_type,
            ));
        }
        while i > 0
            invariant
                0 <= i <= self.installed.len(),
                handlers@ + reached(self.installed@.take(i as int), session, event_type)
                    == reached(self.installed@, session, event_type),
            decreases i,
        {
            i -= 1;
            let current = self.installed[i];
            proof {
                let upto = self.installed@.take(i + 1);
                assert(upto.last() == current);
                assert(upto.drop_last() == self.installed@.take(i as int));
            }
            if current.session == session && current.event_type == event_type {
                proof {
                    let rest = reached(self.installed@.take(i as int), session, event_type);
                    assert(handlers@.push(current) + rest =~= handlers@ + (seq![current] + rest));
                }
                handlers.push(current);
            }
        }
        proof {
            assert(self.installed@.take(0) =~= Seq::<EventRegistration>::empty());
            assert(handlers@ + Seq::<EventRegistration>::empty() =~= handlers@);
        }
        handlers
    }

    /// What the transport's callback comes to for a raw event type: the
    /// handlers to call, or the status that refuses an event type that is not
    /// recognized.
    pub fn dispatch(&self, session: ViSession, event_type: ViEventType) -> (handlers: Result<
        Vec<EventRegistration>,
        ViStatus,
    >)
        ensures
            match handlers {
                Ok(list) => Event::with_code(event_type) matches Some(typed) && list@ == reached(
                    self@,
                    session,
                    typed,
                ),
                Err(status) => Event::with_code(event_type) is None && status
                    == bindings::VI_ERROR_INV_EVENT,
            },
    {
        match Event::try_from(event_type) {
            Ok(typed) => Ok(self.handlers_for(session, typed)),
            Err(_) => Err(bindings::VI_ERROR_INV_EVENT),
        }
    }

    /// Delivers an occurrence that came with `user_data` to the handlers
    /// installed for it: `call` is called on each registration that the
    /// occurrence reaches and that was installed with this data, last
    /// installed first, until one answers with a failure. An event type that
    /// is not recognized is refused and nothing is called.
    pub fn deliver<F: Fn(EventRegistration) -> ViStatus>(
        &self,
        session: ViSession,
        event_type: ViEventType,
        user_data: u64,
        call: F,
    ) -> (status: ViStatus)
        requires
            forall|registration: EventRegistration| call_requires(call, (registration,)),
        ensures
            match Event::with_code(event_type) {
                Some(typed) => delivered(call, reached(self@, session, typed), user_data, status),
                None => status == bindings::VI_ERROR_INV_EVENT,
            },
    {
        let handlers = match self.dispatch(session, event_type) {
            Ok(handlers) => handlers,
            Err(status) => {
                return status;
            },
        };
        let mut i: usize = 0;
        proof {
            assert(handlers@.skip(0) =~= handlers@);
        }
        while i < handlers.len()
            invariant
                0 <= i <= handlers.len(),
                Event::with_code(event_type) matches Some(typed) && handlers@ == reached(
                    self@,
                    session,
                    typed,
                ),
                forall|registration: EventRegistration| call_requires(call, (registration,)),
                forall|status: ViStatus| #[trigger]
                    delivered(call, handlers@.skip(i as int), user_data, status) ==> delivered(
                        call,
                        handlers@,
                        user_data,
                        status,
                    ),
            decreases handlers.len() - i,
        {
            let registration = handlers[i];
            proof {
                assert(handlers@.skip(i as int)[0] == registration);
                assert(handlers@.skip(i as int).drop_first() =~= handlers@.skip(i + 1));
            }
            if registration.user_data == user_data {
                let answer = call(registration);
                if !Error::succeeded(answer) {
                    assert(delivered(call, handlers@.skip(i as int), user_data, answer));
                    return answer;
                }
                assert forall|status: ViStatus| #[trigger]
                    delivered(call, handlers@.skip(i + 1), user_data, status) implies delivered(
                    call,
                    handlers@.skip(i as int),
                    user_data,
                    status,
                ) by {
                    assert(call_ensures(call, (handlers@.skip(i as int)[0],), answer));
                }
            } else {
                assert forall|status: ViStatus| #[trigger]
                    delivered(call, handlers@.skip(i + 1), user_data, status) implies delivered(
                    call,
                    handlers@.skip(i as int),
                    user_data,
                    status,
                ) by {}
            }
            i += 1;
        }
        proof {
            assert(handlers@.skip(i as int) =~= Seq::<EventRegistration>::empty());
            assert(delivered(call, handlers@.skip(i as int), user_data, bindings::VI_SUCCESS));
        }
        bindings::VI_SUCCESS
    }
}

/// Removing a handler leaves none of its registrations behind and keeps every
/// other one.
pub proof fn lemma_without(installed: Seq<EventRegistration>, registration: EventRegistration)
    ensures
        forall|other: EventRegistration| #[trigger]
            without(installed, registration).contains(other) <==> (other != registration
                && installed.contains(other)),
    decreases installed.len(),
{
    if installed.len() == 0 {
        assert forall|other: EventRegistration| !#[trigger] without(
            installed,
            registration,
        ).contains(other) by {}
    } else {
        let rest = installed.drop_last();
        let last = installed.last();
        lemma_without(rest, registration);
        let kept = without(rest, registration);
        assert forall|other: EventRegistration| #[trigger]
            without(installed, registration).contains(other) <==> (other != registration
                && installed.contains(other)) by {
            let now = without(installed, registration);
            if now.contains(other) {
                let k = choose|k: int| 0 <= k < now.len() && now[k] == other;
                if last != registration && k == kept.len() {
                    assert(installed[installed.len() - 1] == other);
                } else {
                    assert(kept[k] == other);
                    assert(kept.contains(other));
                    let j = choose|j: int| 0 <= j < rest.len() && rest[j] == other;
                    assert(installed[j] == other);
                }
            }
            if other != registration && installed.contains(other) {
                let j = choose|j: int| 0 <= j < installed.len() && installed[j] == other;
                if j == installed.len() - 1 {
                    assert(now[kept.len() as int] == other);
                } else {
                    assert(rest[j] == other);
                    assert(rest.contains(other));
                    assert(kept.contains(other));
                    let k = choose|k: int| 0 <= k < kept.len() && kept[k] == other;
                    assert(now[k] == other);
                }
            }
        }
    }
}

/// An occurrence reaches a registration exactly when it is installed for the
/// occurrence's session and event type.
pub proof fn lemma_reached(
    installed: Seq<EventRegistration>,
    session: ViSession,
    event_type: Event,
    registration: EventRegistration,
)
    ensures
        reached(installed, session, event_type).contains(registration) <==> (
        installed.contains(registration) && registration.session == session
            && registration.event_type == event_type),
    decreases installed.len(),
{
    if installed.len() > 0 {
        let rest = installed.drop_last();
        let last = installed.last();
        lemma_reached(rest, session, event_type, registration);
        let now = reached(installed, session, event_type);
        let before = reached(rest, session, event_type);
        let hit = last.session == session && last.event_type == event_type;
        if now.contains(registration) {
            let k = choose|k: int| 0 <= k < now.len() && now[k] == registration;
            if hit && k == 0 {
                assert(installed[installed.len() - 1] == registration);
            } else {
                if hit {
                    assert(before[k - 1] == registration);
                } else {
                    assert(before[k] == registration);
                }
                assert(before.contains(registration));
                let j = choose|j: int| 0 <= j < rest.len() && rest[j] == registration;
                assert(installed[j] == registration);
            }
        }
        if installed.contains(registration) && registration.session == session
            && registration.event_type == event_type {
            let j = choose|j: int| 0 <= j < installed.len() && installed[j] == registration;
            if j == installed.len() - 1 {
                assert(now[0] == registration);
            } else {
                assert(rest[j] == registration);
                assert(rest.contains(registration));
                let k = choose|k: int| 0 <= k < before.len() && before[k] == registration;
                if hit {
                    assert(now[k + 1] == registration);
                } else {
                    assert(now[k] == registration);
                }
            }
        }
    }
}

} // verus!
