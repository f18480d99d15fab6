//! Asynchronous transfers: the task that stands for one job in flight.
//!
//! A task is polled, never waited on. Its completion is signaled by the
//! transport on a thread of its own choosing: the callback marks the job in
//! the registry, and the next poll of the task consumes the mark. A task that
//! sees no mark before its timeout has elapsed times out. The states are
//! `Pending`, from which every task starts, and the three terminal states
//! `Completed`, `TimedOut` and `Terminated`, which no transition leaves.
//!
//! Job identifiers belong to the transport, which may use one again. A task
//! therefore takes everything it left behind with it: terminating or
//! releasing it removes its handler from the dispatcher and its mark from the
//! registry, so that a later job under the same identifier starts clean. A
//! task that is neither terminated nor released leaves both behind, and a
//! later job under its identifier may then be found completed too early.
use crate::bindings;
use crate::bindings::{ViEventType, ViJobId, ViSession, ViStatus};
use crate::error::{is_success, Error, ErrorType};
use crate::event::{without, Event, EventDispatcher, EventRegistration, HandlerId};
use crate::registry::AsyncTaskRegistry;
use crate::session::{low32, low_u32, next_call, Session};
use crate::time::TimeSpan;
use crate::transport::{continues, Call, Link, Transport};
use std::time::Instant;
use vstd::prelude::*;
use vstd::string::StringExecFns;

verus! {

#[verifier::external_type_specification]
#[verifier::external_body]
pub struct ExInstant(Instant);

/// Reads the monotonic clock through `Instant::now`. Nothing is known of the
/// instant.
#[verifier::external_body]
pub(crate) fn clock_now() -> Instant {
    Instant::now()
}

/// The time since `start`, through `Instant::elapsed`. The nanoseconds beyond
/// the whole seconds are less than a second; nothing else is known of the
/// span.
#[verifier::external_body]
pub(crate) fn clock_elapsed(start: &Instant) -> (elapsed: TimeSpan)
    ensures
        elapsed.nanos < 1_000_000_000,
{
    let elapsed = start.elapsed();
    TimeSpan { secs: elapsed.as_secs(), nanos: elapsed.subsec_nanos() }
}

/// The handler that marks a job done on its completion event. It is
/// installed with the job as its data.
pub const COMPLETION_HANDLER: HandlerId = 0;

/// Where a task stands.
#[derive(Debug, Copy, Clone, PartialEq, Eq, Structural)]
pub enum TaskState {
    /// The job is in flight.
    Pending,
    /// The job has completed and the task has seen it.
    Completed,
    /// The timeout elapsed before the task saw a completion.
    TimedOut,
    /// The job was aborted.
    Terminated,
}

/// What a poll finds.
#[derive(Debug)]
pub enum TaskPoll {
    /// The job is still in flight; poll again later.
    Pending,
    /// The task has ended, well or badly.
    Ready(Result<(), Error>),
}

/// One asynchronous read or write in flight.
#[derive(Debug)]
pub struct AsyncTask {
    session: Session,
    job_id: ViJobId,
    started: Instant,
    timeout: TimeSpan,
    state: TaskState,
    watched: bool,
}

/// The registration of the completion handler for a job.
pub open spec fn completion_registration(session: ViSession, job: ViJobId) -> EventRegistration {
    EventRegistration {
        session,
        event_type: Event::IoCompletion,
        handler: COMPLETION_HANDLER,
        user_data: job as u64,
    }
}

/// What a completion signal leaves in the registry: the job is marked where
/// the event type is recognized and the completion handler is installed for
/// this session, event type and job; otherwise nothing changes.
pub open spec fn signaled(
    installed: Seq<EventRegistration>,
    done: Set<(ViSession, ViJobId)>,
    session: ViSession,
    event_type: ViEventType,
    job: ViJobId,
) -> Set<(ViSession, ViJobId)> {
    match Event::with_code(event_type) {
        Some(typed) => if installed.contains(
            EventRegistration {
                session,
                event_type: typed,
                handler: COMPLETION_HANDLER,
                user_data: job as u64,
            },
        ) {
            done.insert((session, job))
        } else {
            done
        },
        None => done,
    }
}

/// Delivers a completion signal of the transport: the callback for the
/// completion handler. An event type that is not recognized is refused and
/// nothing is marked. A signal for which no completion handler is installed
/// marks nothing either.
pub fn signal_completion(
    dispatcher: &EventDispatcher,
    registry: &mut AsyncTaskRegistry,
    session: ViSession,
    event_type: ViEventType,
    job: ViJobId,
) -> (status: ViStatus)
    ensures
        final(registry)@ == signaled(dispatcher@, old(registry)@, session, event_type, job),
        status == if Event::with_code(event_type) is Some {
            bindings::VI_SUCCESS
        } else {
            bindings::VI_ERROR_INV_EVENT
        },
{
    let typed = match Event::try_from(event_type) {
        Ok(typed) => typed,
        Err(_) => {
            return bindings::VI_ERROR_INV_EVENT;
        },
    };
    let registration = EventRegistration {
        session,
        event_type: typed,
        handler: COMPLETION_HANDLER,
        user_data: job as u64,
    };
    if dispatcher.is_installed(registration) {
        registry.mark_done(session, job);
    }
    bindings::VI_SUCCESS
}

impl AsyncTask {
    /// The session that started the job.
    pub closed spec fn session(&self) -> ViSession {
        self.session.spec_session_id()
    }

    /// The job.
    pub closed spec fn job(&self) -> ViJobId {
        self.job_id
    }

    /// How long the task waits for the completion.
    pub closed spec fn timeout(&self) -> TimeSpan {
        self.timeout
    }

    /// Where the task stands.
    pub closed spec fn spec_state(&self) -> TaskState {
        self.state
    }

    /// Whether the completion handler of the task is still installed.
    pub closed spec fn spec_watched(&self) -> bool {
        self.watched
    }

    /// Whether the completion handler of the task is still installed.
    #[verifier::when_used_as_spec(spec_watched)]
    pub fn watched(&self) -> (watched: bool)
        ensures
            watched == self.spec_watched(),
    {
        self.watched
    }

    /// Where the task stands.
    #[verifier::when_used_as_spec(spec_state)]
    pub fn state(&self) -> (state: TaskState)
        ensures
            state == self.spec_state(),
    {
        self.state
    }

    /// The job.
    pub fn job_id(&self) -> (job: ViJobId)
        ensures
            job == self.job(),
    {
        self.job_id
    }

    /// The session that started the job.
    pub fn session_id(&self) -> (session: ViSession)
        ensures
            session == self.session(),
    {
        self.session.session_id()
    }

    /// When the job was started.
    pub closed spec fn started_at(&self) -> Instant {
        self.started
    }

    /// Whether `after` stands for the same job as `self`: the same job of the
    /// same session, started at the same instant, with the same timeout.
    pub open spec fn same_job(&self, after: &AsyncTask) -> bool {
        &&& after.session() == self.session()
        &&& after.job() == self.job()
        &&& after.started_at() == self.started_at()
        &&& after.timeout() == self.timeout()
    }

    /// Whether `result` is what removing the completion handler comes to,
    /// with the removal expected to follow `before` in `after`: when the
    /// transport has let the handler go, no registration of it is left in the
    /// dispatcher and no mark of the job in the registry; where it refuses,
    /// the failure is classified and both stay as they were.
    pub open spec fn unwatched(
        &self,
        result: Result<(), Error>,
        before: Seq<Call>,
        after: Seq<Call>,
        installed: Seq<EventRegistration>,
        kept: Seq<EventRegistration>,
        done: Set<(ViSession, ViJobId)>,
        left: Set<(ViSession, ViJobId)>,
    ) -> bool {
        let removal = next_call(before, after);
        &&& before.len() < after.len()
        &&& continues(before, after)
        &&& removal matches Call::UninstallHandler {
            session,
            event_type,
            handler,
            user_data,
            status,
        }
        &&& session == self.session()
        &&& event_type == bindings::VI_EVENT_IO_COMPLETION
        &&& handler == COMPLETION_HANDLER
        &&& user_data == self.job()
        &&& if is_success(status) {
            &&& result is Ok
            &&& after == before.push(removal)
            &&& kept == without(installed, completion_registration(session, self.job()))
            &&& left == done.remove((session, self.job()))
        } else {
            &&& result matches Err(error)
            &&& error.raised(status, Some(session), before.push(removal), after)
            &&& kept == installed
            &&& left == done
        }
    }

    /// Whether `poll` reports the timeout.
    pub open spec fn is_timeout(poll: TaskPoll) -> bool {
        poll matches TaskPoll::Ready(Err(error)) && error.status == ErrorType::Tmo && error.text()
            == Some("Async IO Timeout"@)
    }

    /// Whether a poll that finds `elapsed` on the clock takes the task from
    /// `self` to `after` and the registry from `done` to `left`, and reports
    /// `poll`.
    ///
    /// A pending task whose job is marked done consumes the mark and is
    /// completed. Otherwise, if more than the timeout has elapsed, it times
    /// out. Otherwise it stays pending. A task in a terminal state stays
    /// there, leaves the registry alone and reports how it ended: well if
    /// completed, with the timeout if timed out, with an abort if terminated.
    pub open spec fn polled(
        &self,
        after: &AsyncTask,
        done: Set<(ViSession, ViJobId)>,
        left: Set<(ViSession, ViJobId)>,
        elapsed: TimeSpan,
        poll: TaskPoll,
    ) -> bool {
        &&& self.same_job(after)
        &&& after.spec_watched() == self.spec_watched()
        &&& match self.spec_state() {
            TaskState::Pending => if done.contains((self.session(), self.job())) {
                &&& after.spec_state() == TaskState::Completed
                &&& left == done.remove((self.session(), self.job()))
                &&& poll matches TaskPoll::Ready(Ok(()))
            } else if elapsed.total_nanos() > self.timeout().total_nanos() {
                &&& after.spec_state() == TaskState::TimedOut
                &&& left == done
                &&& Self::is_timeout(poll)
            } else {
                &&& after.spec_state() == TaskState::Pending
                &&& left == done
                &&& poll is Pending
            },
            TaskState::Completed => {
                &&& after.spec_state() == TaskState::Completed
                &&& left == done
                &&& poll matches TaskPoll::Ready(Ok(()))
            },
            TaskState::TimedOut => {
                &&& after.spec_state() == TaskState::TimedOut
                &&& left == done
                &&& Self::is_timeout(poll)
            },
            TaskState::Terminated => {
                &&& after.spec_state() == TaskState::Terminated
                &&& left == done
                &&& poll matches TaskPoll::Ready(Err(error))
                &&& error.status == ErrorType::Abort
                &&& error.text() is None
            },
        }
    }

    fn timeout_error() -> (error: Error)
        ensures
            error.status == ErrorType::Tmo,
            error.text() == Some("Async IO Timeout"@),
    {
        Error { status: ErrorType::Tmo, description: Some(String::from_str("Async IO Timeout")) }
    }

    /// Polls the task at a given reading of the clock: `elapsed` is the time
    /// since the job was started.
    pub fn poll_at(&mut self, registry: &mut AsyncTaskRegistry, elapsed: TimeSpan) -> (poll:
        TaskPoll)
        ensures
            old(self).polled(final(self), old(registry)@, final(registry)@, elapsed, poll),
    {
        match self.state {
            TaskState::Pending => {
                if registry.take_done(self.session.session_id(), self.job_id) {
                    self.state = TaskState::Completed;
                    TaskPoll::Ready(Ok(()))
                } else if elapsed.exceeds(self.timeout) {
                    assert(final(registry)@ =~= old(registry)@);
                    self.state = TaskState::TimedOut;
                    TaskPoll::Ready(Err(Self::timeout_error()))
                } else {
                    assert(final(registry)@ =~= old(registry)@);
                    TaskPoll::Pending
                }
            },
            TaskState::Completed => TaskPoll::Ready(Ok(())),
            TaskState::TimedOut => TaskPoll::Ready(Err(Self::timeout_error())),
            TaskState::Terminated => TaskPoll::Ready(
                Err(Error { status: ErrorType::Abort, description: None }),
            ),
        }
    }

    /// Polls the task now. The clock is read once; whatever it shows, the
    /// poll is the one that [`AsyncTask::poll_at`] makes of that reading. A
    /// job that is marked done is found completed whatever the clock shows.
    pub fn poll(&mut self, registry: &mut AsyncTaskRegistry) -> (poll: TaskPoll)
        ensures
            exists|elapsed: TimeSpan|
                old(self).polled(final(self), old(registry)@, final(registry)@, elapsed, poll),
            old(self).spec_state() == TaskState::Pending && old(registry)@.contains(
                (old(self).session(), old(self).job()),
            ) ==> final(self).spec_state() == TaskState::Completed && poll matches TaskPoll::Ready(
                Ok(()),
            ),
    {
        let elapsed = clock_elapsed(&self.started);
        self.poll_at(registry, elapsed)
    }

    /// Whether `result` is what terminating the pending task `self` comes to,
    /// leaving the task as `ended`: the job is aborted; a failed abort is
    /// classified and changes nothing; after a successful abort the
    /// completion handler is removed, and when that has succeeded too the
    /// task is terminated. Where either fails the task stays pending.
    pub open spec fn aborted(
        &self,
        ended: &AsyncTask,
        result: Result<(), Error>,
        before: Seq<Call>,
        after: Seq<Call>,
        installed: Seq<EventRegistration>,
        kept: Seq<EventRegistration>,
        done: Set<(ViSession, ViJobId)>,
        left: Set<(ViSession, ViJobId)>,
    ) -> bool {
        let abort = next_call(before, after);
        &&& before.len() < after.len()
        &&& abort matches Call::Terminate { session, job, status }
        &&& session == self.session()
        &&& job == self.job()
        &&& ended.spec_state() == if result is Ok {
            TaskState::Terminated
        } else {
            TaskState::Pending
        }
        &&& if !is_success(status) {
            &&& result matches Err(error)
            &&& error.raised(status, Some(session), before.push(abort), after)
            &&& ended.spec_watched() == self.spec_watched()
            &&& kept == installed
            &&& left == done
        } else {
            &&& ended.spec_watched() == (self.spec_watched() && result is Err)
            &&& self.unwatched(result, before.push(abort), after, installed, kept, done, left)
        }
    }

    /// Whether `result` is what releasing the pending task `self` comes to,
    /// leaving the task as `ended`. The job is aborted. Whether or not the
    /// transport accepts the abort, the completion handler is removed next,
    /// so that no registration outlives the task.
    ///
    /// After an accepted abort the result is that of the removal. A refused
    /// abort is classified, with its description fetched, and is the result
    /// whatever the removal comes to. Either way the task is terminated
    /// exactly when the transport has let the handler go; then no
    /// registration of the handler is left in the dispatcher and no mark of
    /// the job in the registry. Where the removal is refused, both stay as
    /// they were and the task stays pending.
    pub open spec fn abandoned(
        &self,
        ended: &AsyncTask,
        result: Result<(), Error>,
        before: Seq<Call>,
        after: Seq<Call>,
        installed: Seq<EventRegistration>,
        kept: Seq<EventRegistration>,
        done: Set<(ViSession, ViJobId)>,
        left: Set<(ViSession, ViJobId)>,
    ) -> bool {
        let abort = next_call(before, after);
        &&& before.len() < after.len()
        &&& abort matches Call::Terminate { session, job, status }
        &&& session == self.session()
        &&& job == self.job()
        &&& if is_success(status) {
            &&& ended.spec_state() == if result is Ok {
                TaskState::Terminated
            } else {
                TaskState::Pending
            }
            &&& ended.spec_watched() == (self.spec_watched() && result is Err)
            &&& self.unwatched(result, before.push(abort), after, installed, kept, done, left)
        } else {
            let fetched = after.take(before.len() as int + 2);
            &&& before.len() + 2 < after.len()
            &&& result matches Err(error)
            &&& error.raised(status, Some(session), before.push(abort), fetched)
            &&& exists|removal: Result<(), Error>|
                {
                    &&& #[trigger] self.unwatched(
                        removal,
                        fetched,
                        after,
                        installed,
                        kept,
                        done,
                        left,
                    )
                    &&& ended.spec_state() == if removal is Ok {
                        TaskState::Terminated
                    } else {
                        TaskState::Pending
                    }
                    &&& ended.spec_watched() == (self.spec_watched() && removal is Err)
                }
        }
    }

    /// Removes the completion handler and the mark of the job.
    fn unwatch<T: Transport>(
        &mut self,
        link: &mut Link<T>,
        dispatcher: &mut EventDispatcher,
        registry: &mut AsyncTaskRegistry,
    ) -> (result: Result<(), Error>)
        ensures
            old(self).same_job(final(self)),
            final(self).spec_state() == old(self).spec_state(),
            final(self).spec_watched() == (old(self).spec_watched() && result is Err),
            old(self).unwatched(
                result,
                old(link).trace(),
                final(link).trace(),
                old(dispatcher)@,
                final(dispatcher)@,
                old(registry)@,
                final(registry)@,
            ),
    {
        let session = self.session;
        session.remove_event_handler(
            link,
            dispatcher,
            Event::IoCompletion,
            COMPLETION_HANDLER,
            self.job_id as u64,
        )?;
        registry.take_done(session.session_id(), self.job_id);
        self.watched = false;
        Ok(())
    }

    /// Terminates the task.
    ///
    /// A task in a terminal state is left as it is: nothing is exchanged and
    /// the result is success. For a pending task the job is aborted and then
    /// the completion handler is removed; when both have succeeded the task is
    /// terminated, no registration of its handler is left in the dispatcher
    /// and no mark of its job in the registry. Where either fails, the
    /// failure is classified and returned, and the task stays pending.
    pub fn terminate<T: Transport>(
        &mut self,
        link: &mut Link<T>,
        dispatcher: &mut EventDispatcher,
        registry: &mut AsyncTaskRegistry,
    ) -> (result: Result<(), Error>)
        ensures
            old(self).same_job(final(self)),
            old(self).spec_state() != TaskState::Pending ==> {
                &&& result is Ok
                &&& final(self).spec_state() == old(self).spec_state()
                &&& final(self).spec_watched() == old(self).spec_watched()
                &&& final(link).trace() == old(link).trace()
                &&& final(dispatcher)@ == old(dispatcher)@
                &&& final(registry)@ == old(registry)@
            },
            old(self).spec_state() == TaskState::Pending ==> old(self).aborted(
                final(self),
                result,
                old(link).trace(),
                final(link).trace(),
                old(dispatcher)@,
                final(dispatcher)@,
                old(registry)@,
                final(registry)@,
            ),
    {
        match self.state {
            TaskState::Pending => {},
            _ => {
                return Ok(());
            },
        }
        let session = self.session;
        let status = link.terminate(session.session_id(), self.job_id);
        Error::wrap_binding(Some(session.session_id()), status, link)?;
        self.unwatch(link, dispatcher, registry)?;
        self.state = TaskState::Terminated;
        Ok(())
    }

    /// Releases the task: what is to be done when the task is no longer
    /// wanted, whatever its state.
    ///
    /// For a pending task the job is aborted and, whether or not the
    /// transport accepts the abort, the completion handler is removed, and
    /// with it the mark of the job; the task is terminated once the handler is
    /// gone. A task that has ended and whose completion handler is still
    /// installed has the handler removed, and with it the mark of its job. A
    /// task that left nothing behind is left alone: nothing is exchanged and
    /// the result is success.
    pub fn release<T: Transport>(
        &mut self,
        link: &mut Link<T>,
        dispatcher: &mut EventDispatcher,
        registry: &mut AsyncTaskRegistry,
    ) -> (result: Result<(), Error>)
        ensures
            old(self).same_job(final(self)),
            old(self).spec_state() != TaskState::Pending && !old(self).spec_watched() ==> {
                &&& result is Ok
                &&& final(self).spec_state() == old(self).spec_state()
                &&& !final(self).spec_watched()
                &&& final(link).trace() == old(link).trace()
                &&& final(dispatcher)@ == old(dispatcher)@
                &&& final(registry)@ == old(registry)@
            },
            old(self).spec_state() != TaskState::Pending && old(self).spec_watched() ==> {
                &&& final(self).spec_state() == old(self).spec_state()
                &&& final(self).spec_watched() == result is Err
                &&& old(self).unwatched(
                    result,
                    old(link).trace(),
                    final(link).trace(),
                    old(dispatcher)@,
                    final(dispatcher)@,
                    old(registry)@,
                    final(registry)@,
                )
            },
            old(self).spec_state() == TaskState::Pending ==> old(self).abandoned(
                final(self),
                result,
                old(link).trace(),
                final(link).trace(),
                old(dispatcher)@,
                final(dispatcher)@,
                old(registry)@,
                final(registry)@,
            ),
    {
        match self.state {
            TaskState::Pending => {
                let session = self.session;
                let status = link.terminate(session.session_id(), self.job_id);
                let aborted = Error::wrap_binding(Some(session.session_id()), status, link);
                let ghost fetched = link.trace();
                let removal = self.unwatch(link, dispatcher, registry);
                if removal.is_ok() {
                    self.state = TaskState::Terminated;
                }
                proof {
                    assert(final(link).trace().take(fetched.len() as int) =~= fetched);
                }
                match aborted {
                    Ok(()) => removal,
                    Err(error) => Err(error),
                }
            },
            _ => {
                if self.watched {
                    self.unwatch(link, dispatcher, registry)
                } else {
                    Ok(())
                }
            },
        }
    }
}

impl Session {
    /// What starting a job comes to, after the call `start` that started
    /// `job` with the status `status`, where `task` stands for the successful
    /// result: a failed start is classified; otherwise the completion handler
    /// is installed with the job as its data, and when the transport has
    /// accepted it the task is pending and the handler is entered in the
    /// dispatcher.
    pub open spec fn started(
        &self,
        result: Result<AsyncTask, Error>,
        start: Call,
        status: ViStatus,
        job: ViJobId,
        timeout: TimeSpan,
        before: Seq<Call>,
        after: Seq<Call>,
        installed: Seq<EventRegistration>,
        kept: Seq<EventRegistration>,
    ) -> bool {
        let session = self.spec_session_id();
        if !is_success(status) {
            &&& result matches Err(error)
            &&& error.raised(status, Some(session), before.push(start), after)
            &&& kept == installed
        } else {
            let install = next_call(before.push(start), after);
            &&& before.len() + 1 < after.len()
            &&& install matches Call::InstallHandler {
                session: s,
                event_type,
                handler,
                user_data,
                status: accepted,
            }
            &&& s == session
            &&& event_type == bindings::VI_EVENT_IO_COMPLETION
            &&& handler == COMPLETION_HANDLER
            &&& user_data == job
            &&& match result {
                Ok(task) => {
                    &&& is_success(accepted)
                    &&& after == before.push(start).push(install)
                    &&& task.session() == session
                    &&& task.job() == job
                    &&& task.timeout() == timeout
                    &&& task.spec_state() == TaskState::Pending
                    &&& task.spec_watched()
                    &&& kept == installed.push(completion_registration(session, job))
                },
                Err(error) => {
                    &&& !is_success(accepted)
                    &&& error.raised(accepted, Some(session), before.push(start).push(install), after)
                    &&& kept == installed
                },
            }
        }
    }

    fn watch<T: Transport>(
        &self,
        link: &mut Link<T>,
        dispatcher: &mut EventDispatcher,
        status: ViStatus,
        job: ViJobId,
        timeout: TimeSpan,
        Ghost(before): Ghost<Seq<Call>>,
        Ghost(start): Ghost<Call>,
    ) -> (result: Result<AsyncTask, Error>)
        requires
            old(link).trace() == before.push(start),
        ensures
            before.len() < final(link).trace().len(),
            next_call(before, final(link).trace()) == start,
            self.started(
                result,
                start,
                status,
                job,
                timeout,
                before,
                final(link).trace(),
                old(dispatcher)@,
                final(dispatcher)@,
            ),
    {
        Error::wrap_binding(Some(self.session_id()), status, link)?;
        self.add_event_handler(
            link,
            dispatcher,
            Event::IoCompletion,
            COMPLETION_HANDLER,
            job as u64,
        )?;
        Ok(
            AsyncTask {
                session: *self,
                job_id: job,
                started: clock_now(),
                timeout,
                state: TaskState::Pending,
                watched: true,
            },
        )
    }

    /// Starts an asynchronous read of `bytes` bytes, of which the low 32 bits
    /// are handed over, and hands back the task that stands for it.
    pub fn read_async<T: Transport>(
        &self,
        link: &mut Link<T>,
        dispatcher: &mut EventDispatcher,
        bytes: usize,
        timeout: TimeSpan,
    ) -> (result: Result<AsyncTask, Error>)
        ensures
            old(link).trace().len() < final(link).trace().len(),
            next_call(old(link).trace(), final(link).trace()) matches Call::ReadAsync {
                session,
                count,
                status,
                job,
            } && session == self.spec_session_id() && count == low32(bytes as int)
                && self.started(
                result,
                next_call(old(link).trace(), final(link).trace()),
                status,
                job,
                timeout,
                old(link).trace(),
                final(link).trace(),
                old(dispatcher)@,
                final(dispatcher)@,
            ),
    {
        let ghost before = link.trace();
        let reply = link.read_async(self.session_id(), low_u32(bytes));
        let ghost start = link.trace().last();
        self.watch(link, dispatcher, reply.0, reply.1, timeout, Ghost(before), Ghost(start))
    }

    /// Starts an asynchronous write of the bytes and hands back the task that
    /// stands for it.
    pub fn write_async<T: Transport>(
        &self,
        link: &mut Link<T>,
        dispatcher: &mut EventDispatcher,
        buf: &[u8],
        timeout: TimeSpan,
    ) -> (result: Result<AsyncTask, Error>)
        ensures
            old(link).trace().len() < final(link).trace().len(),
            next_call(old(link).trace(), final(link).trace()) matches Call::WriteAsync {
                session,
                data,
                status,
                job,
            } && session == self.spec_session_id() && data == buf@ && self.started(
                result,
                next_call(old(link).trace(), final(link).trace()),
                status,
                job,
                timeout,
                old(link).trace(),
                final(link).trace(),
                old(dispatcher)@,
                final(dispatcher)@,
            ),
    {
        let ghost before = link.trace();
        let reply = link.write_async(self.session_id(), buf);
        let ghost start = link.trace().last();
        self.watch(link, dispatcher, reply.0, reply.1, timeout, Ghost(before), Ghost(start))
    }
}

/// Once a task has been terminated, a completion signal for its job marks
/// nothing: the termination left no registration of the completion handler
/// for the job in the dispatcher, whatever else is installed there.
pub proof fn lemma_terminated_is_deaf(
    installed: Seq<EventRegistration>,
    done: Set<(ViSession, ViJobId)>,
    session: ViSession,
    job: ViJobId,
)
    ensures
        signaled(
            without(installed, completion_registration(session, job)),
            done,
            session,
            bindings::VI_EVENT_IO_COMPLETION,
            job,
        ) == done,
{
    crate::event::lemma_without(installed, completion_registration(session, job));
    assert(Event::with_code(bindings::VI_EVENT_IO_COMPLETION) == Some(Event::IoCompletion));
}

} // verus!
