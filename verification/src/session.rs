//! The course of one signing operation.
//!
//! A signing operation alternates between work that only the embedding
//! program can do (telling the user to touch the device, waiting for the
//! authenticator) and decisions about what follows. The decisions are made
//! here: a [`SignSession`] says which action is due, takes the event that
//! answers it, and moves on. The embedding program performs the actions.
//!
//! The order is fixed. Every notifier is started, in the order of
//! registration; then the backend is invoked once; after it has returned a
//! payload every notifier is ended, in the same order; then the payload is
//! read. The first failure ends the operation.

use crate::assertion::authenticator_data;
use crate::assertion::authenticator_data_of;
use crate::assertion::parse_assertion;
use crate::assertion::payload_counter;
use crate::assertion::payload_signature;
use crate::assertion::payload_user_presence;
use crate::assertion::well_formed_payload;
use crate::assertion::SignedAssertion;
use crate::error::NotifierError;
use crate::error::SignError;
use vstd::prelude::*;

verus! {

/// Why a backend returned no payload.
#[derive(Debug)]
pub enum BackendFailure {
    /// The result channel closed without a value.
    ChannelClosed,
    /// The device was absent, not registered, or the user declined.
    DeviceError,
    /// Nobody touched the device before the backend's timeout ran out.
    TimedOut,
    /// The operating system's assertion facility returned this error code.
    PlatformApi(i32),
}

/// What a backend returns on success.
#[derive(Debug)]
pub enum BackendOutput {
    /// A raw U2F signature payload, as the transport service delivers it.
    RawSignature(Vec<u8>),
    /// Signature and authenticator data, as the native facility delivers
    /// them.
    Assertion { signature: Vec<u8>, authenticator_data: Vec<u8> },
}

/// What the embedding program reports back after performing an action.
#[derive(Debug)]
pub enum SignEvent {
    /// The notifier call that was due returned without error.
    NotifierSucceeded,
    /// The notifier call that was due failed.
    NotifierFailed(NotifierError),
    /// The backend returned a payload.
    BackendReturned(BackendOutput),
    /// The backend returned no payload.
    BackendFailed(BackendFailure),
}

/// What the embedding program has to do next.
#[derive(Debug, Clone, Copy, PartialEq, Eq, Structural)]
pub enum SignAction {
    /// Call `notify_start` on the notifier with this index.
    NotifyStart(usize),
    /// Issue the blocking request to the backend.
    InvokeBackend,
    /// Call `notify_end` on the notifier with this index.
    NotifyEnd(usize),
    /// Nothing: the operation has ended and its outcome can be taken.
    Finished,
}

/// A backend's output as byte sequences.
pub enum OutputModel {
    RawSignature(Seq<u8>),
    Assertion { signature: Seq<u8>, authenticator_data: Seq<u8> },
}

/// An event with its payload as byte sequences.
pub enum EventModel {
    NotifierSucceeded,
    NotifierFailed(NotifierError),
    BackendReturned(OutputModel),
    BackendFailed(BackendFailure),
}

/// Where an operation stands.
pub enum PhaseModel {
    /// The notifier with this index is to be started.
    NotifyingStart(usize),
    /// The backend is to be invoked.
    AwaitingBackend,
    /// The backend has returned this output, and the notifier with this
    /// index is to be ended.
    NotifyingEnd(usize, OutputModel),
    /// The operation has produced a signature.
    Succeeded { signature: Seq<u8>, authenticator_data: Seq<u8> },
    /// The operation has failed.
    Failed(SignError),
}

/// An operation: what was fixed when it began, and where it stands.
pub struct SessionModel {
    pub notifier_count: usize,
    pub client_data: Seq<char>,
    pub application_digest: Seq<u8>,
    pub phase: PhaseModel,
}

impl View for BackendOutput {
    type V = OutputModel;

    open spec fn view(&self) -> OutputModel {
        match *self {
            BackendOutput::RawSignature(raw) => OutputModel::RawSignature(raw@),
            BackendOutput::Assertion { signature, authenticator_data } => OutputModel::Assertion {
                signature: signature@,
                authenticator_data: authenticator_data@,
            },
        }
    }
}

impl View for SignEvent {
    type V = EventModel;

    open spec fn view(&self) -> EventModel {
        match *self {
            SignEvent::NotifierSucceeded => EventModel::NotifierSucceeded,
            SignEvent::NotifierFailed(e) => EventModel::NotifierFailed(e),
            SignEvent::BackendReturned(output) => EventModel::BackendReturned(output@),
            SignEvent::BackendFailed(failure) => EventModel::BackendFailed(failure),
        }
    }
}

/// The error that a backend failure is reported as. A timeout is an
/// authentication failure like a missing or declining device.
pub open spec fn backend_error(failure: BackendFailure) -> SignError {
    match failure {
        BackendFailure::ChannelClosed => SignError::CommunicationError,
        BackendFailure::DeviceError => SignError::AuthenticationError,
        BackendFailure::TimedOut => SignError::AuthenticationError,
        BackendFailure::PlatformApi(code) => SignError::PlatformApiError(code),
    }
}

/// How an operation ends once the backend's output is read. A raw payload is
/// split and the authenticator data rebuilt around the application digest; a
/// payload too short for that fails. Output that already comes as signature
/// and authenticator data is taken as it is.
pub open spec fn conclusion(application_digest: Seq<u8>, output: OutputModel) -> PhaseModel {
    match output {
        OutputModel::RawSignature(raw) => if well_formed_payload(raw) {
            PhaseModel::Succeeded {
                signature: payload_signature(raw),
                authenticator_data: authenticator_data_of(
                    application_digest,
                    payload_user_presence(raw),
                    payload_counter(raw) as u32,
                ),
            }
        } else {
            PhaseModel::Failed(SignError::MalformedSignaturePayload)
        },
        OutputModel::Assertion { signature, authenticator_data } => PhaseModel::Succeeded {
            signature,
            authenticator_data,
        },
    }
}

/// The action that is due in a phase.
pub open spec fn action_of(phase: PhaseModel) -> SignAction {
    match phase {
        PhaseModel::NotifyingStart(index) => SignAction::NotifyStart(index),
        PhaseModel::AwaitingBackend => SignAction::InvokeBackend,
        PhaseModel::NotifyingEnd(index, _) => SignAction::NotifyEnd(index),
        PhaseModel::Succeeded { .. } => SignAction::Finished,
        PhaseModel::Failed(_) => SignAction::Finished,
    }
}

/// Whether an event answers an action: a notifier's success or failure
/// answers a call of a notifier, the backend's output or failure answers its
/// invocation, and nothing answers an operation that has ended.
pub open spec fn answers(event: EventModel, action: SignAction) -> bool {
    match action {
        SignAction::NotifyStart(_) => event is NotifierSucceeded || event is NotifierFailed,
        SignAction::NotifyEnd(_) => event is NotifierSucceeded || event is NotifierFailed,
        SignAction::InvokeBackend => event is BackendReturned || event is BackendFailed,
        SignAction::Finished => false,
    }
}

/// The phase in which an operation with this many notifiers begins.
pub open spec fn first_phase(notifier_count: usize) -> PhaseModel {
    if notifier_count == 0 {
        PhaseModel::AwaitingBackend
    } else {
        PhaseModel::NotifyingStart(0)
    }
}

/// A fresh operation.
pub open spec fn initial_session(
    notifier_count: usize,
    client_data: Seq<char>,
    application_digest: Seq<u8>,
) -> SessionModel {
    SessionModel {
        notifier_count,
        client_data,
        application_digest,
        phase: first_phase(notifier_count),
    }
}

impl SessionModel {
    /// Every notifier index that is due names a registered notifier.
    pub open spec fn wf(self) -> bool {
        match self.phase {
            PhaseModel::NotifyingStart(index) => index < self.notifier_count,
            PhaseModel::NotifyingEnd(index, _) => index < self.notifier_count,
            _ => true,
        }
    }

    /// Whether the operation has ended.
    pub open spec fn finished(self) -> bool {
        action_of(self.phase) == SignAction::Finished
    }

    /// How far the operation has come: one step for each notifier that was
    /// started, one for the backend, one for each notifier that was ended.
    pub open spec fn progress(self) -> nat {
        match self.phase {
            PhaseModel::NotifyingStart(index) => index as nat,
            PhaseModel::AwaitingBackend => self.notifier_count as nat,
            PhaseModel::NotifyingEnd(index, _) => (self.notifier_count + 1 + index) as nat,
            PhaseModel::Succeeded { .. } => (2 * self.notifier_count + 1) as nat,
            PhaseModel::Failed(_) => (2 * self.notifier_count + 1) as nat,
        }
    }

    /// The phase after an event. An event that does not answer the action
    /// that is due changes nothing.
    pub open spec fn next_phase(self, event: EventModel) -> PhaseModel {
        match (self.phase, event) {
            (PhaseModel::NotifyingStart(index), EventModel::NotifierSucceeded) => if index + 1
                < self.notifier_count {
                PhaseModel::NotifyingStart((index + 1) as usize)
            } else {
                PhaseModel::AwaitingBackend
            },
            (PhaseModel::NotifyingStart(_), EventModel::NotifierFailed(e)) => PhaseModel::Failed(
                SignError::NotifierFailed(e),
            ),
            (PhaseModel::AwaitingBackend, EventModel::BackendReturned(output)) => if self.notifier_count
                == 0 {
                conclusion(self.application_digest, output)
            } else {
                PhaseModel::NotifyingEnd(0, output)
            },
            (PhaseModel::AwaitingBackend, EventModel::BackendFailed(failure)) => PhaseModel::Failed(
                backend_error(failure),
            ),
            (PhaseModel::NotifyingEnd(index, output), EventModel::NotifierSucceeded) => if index + 1
                < self.notifier_count {
                PhaseModel::NotifyingEnd((index + 1) as usize, output)
            } else {
                conclusion(self.application_digest, output)
            },
            (PhaseModel::NotifyingEnd(_, _), EventModel::NotifierFailed(e)) => PhaseModel::Failed(
                SignError::NotifierFailed(e),
            ),
            (phase, _) => phase,
        }
    }

    /// The operation after an event.
    pub open spec fn next(self, event: EventModel) -> SessionModel {
        SessionModel { phase: self.next_phase(event), ..self }
    }

    /// The operation after a series of events, the first of them first.
    pub open spec fn run(self, events: Seq<EventModel>) -> SessionModel
        decreases events.len(),
    {
        if events.len() == 0 {
            self
        } else {
            self.run(events.drop_last()).next(events.last())
        }
    }
}

/// An event never makes a notifier index point past the registered ones.
pub proof fn lemma_next_preserves_wf(session: SessionModel, event: EventModel)
    requires
        session.wf(),
    ensures
        session.next(event).wf(),
{
}

/// A series of events never makes a notifier index point past the
/// registered ones.
pub proof fn lemma_run_preserves_wf(session: SessionModel, events: Seq<EventModel>)
    requires
        session.wf(),
    ensures
        session.run(events).wf(),
    decreases events.len(),
{
    if events.len() > 0 {
        lemma_run_preserves_wf(session, events.drop_last());
        lemma_next_preserves_wf(session.run(events.drop_last()), events.last());
    }
}

/// An event that answers the action that is due moves the operation
/// forward; any other event changes nothing.
pub proof fn lemma_events_move_forward(session: SessionModel, event: EventModel)
    requires
        session.wf(),
    ensures
        answers(event, action_of(session.phase)) ==> session.next(event).progress()
            > session.progress(),
        !answers(event, action_of(session.phase)) ==> session.next(event) == session,
{
}

/// An operation has ended exactly when it has come all the way: after
/// every notifier was started and ended and the backend was invoked, or
/// after a failure. As every answer moves it forward, an operation around
/// `n` notifiers ends after at most `2 * n + 1` answers.
pub proof fn lemma_finished_at_full_progress(session: SessionModel)
    requires
        session.wf(),
    ensures
        session.progress() <= 2 * session.notifier_count + 1,
        session.finished() <==> session.progress() == 2 * session.notifier_count + 1,
{
}

/// No series of events moves an operation backwards.
pub proof fn lemma_run_moves_forward(session: SessionModel, events: Seq<EventModel>)
    requires
        session.wf(),
    ensures
        session.run(events).progress() >= session.progress(),
    decreases events.len(),
{
    if events.len() > 0 {
        lemma_run_moves_forward(session, events.drop_last());
        lemma_run_preserves_wf(session, events.drop_last());
        lemma_events_move_forward(session.run(events.drop_last()), events.last());
    }
}

/// Nothing is asked for twice. Once an event has answered the action that
/// was due, that action never comes due again, whatever is reported later:
/// every notifier is started at most once and ended at most once, the
/// backend is invoked at most once, and nothing is retried.
pub proof fn lemma_no_action_twice(session: SessionModel, event: EventModel, later: Seq<EventModel>)
    requires
        session.wf(),
        answers(event, action_of(session.phase)),
    ensures
        action_of(session.next(event).run(later).phase) != action_of(session.phase),
{
    lemma_events_move_forward(session, event);
    lemma_next_preserves_wf(session, event);
    lemma_run_moves_forward(session.next(event), later);
    lemma_run_preserves_wf(session.next(event), later);
    lemma_run_keeps_setup(session.next(event), later);
}

/// Events change the phase of an operation and nothing else.
pub proof fn lemma_run_keeps_setup(session: SessionModel, events: Seq<EventModel>)
    ensures
        session.run(events).notifier_count == session.notifier_count,
        session.run(events).client_data == session.client_data,
        session.run(events).application_digest == session.application_digest,
    decreases events.len(),
{
    if events.len() > 0 {
        lemma_run_keeps_setup(session, events.drop_last());
    }
}

/// An operation that has ended stays as it is, whatever is reported to it
/// afterwards: no further action is ever due.
pub proof fn lemma_finished_is_final(session: SessionModel, later: Seq<EventModel>)
    requires
        session.finished(),
    ensures
        session.run(later) == session,
    decreases later.len(),
{
    if later.len() > 0 {
        lemma_finished_is_final(session, later.drop_last());
    }
}

/// When a notifier fails to start, the operation fails with that
/// notifier's error, and whatever is reported afterwards, nothing more is
/// asked for: no later notifier is started, the backend is not invoked, and
/// no notifier is ended.
pub proof fn lemma_failed_start_stops_operation(
    session: SessionModel,
    index: usize,
    failure: NotifierError,
    later: Seq<EventModel>,
)
    requires
        session.phase == PhaseModel::NotifyingStart(index),
    ensures
        session.next(EventModel::NotifierFailed(failure)).phase == PhaseModel::Failed(
            SignError::NotifierFailed(failure),
        ),
        session.next(EventModel::NotifierFailed(failure)).run(later).phase == PhaseModel::Failed(
            SignError::NotifierFailed(failure),
        ),
        action_of(session.next(EventModel::NotifierFailed(failure)).run(later).phase)
            == SignAction::Finished,
{
    lemma_finished_is_final(session.next(EventModel::NotifierFailed(failure)), later);
}

/// When the backend returns no payload, the operation fails with the error
/// for that failure, and no notifier is ended, then or later. A timeout
/// gives `AuthenticationError`.
pub proof fn lemma_backend_failure_skips_end(
    session: SessionModel,
    failure: BackendFailure,
    later: Seq<EventModel>,
)
    requires
        session.phase == PhaseModel::AwaitingBackend,
    ensures
        session.next(EventModel::BackendFailed(failure)).phase == PhaseModel::Failed(
            backend_error(failure),
        ),
        session.next(EventModel::BackendFailed(failure)).run(later).phase == PhaseModel::Failed(
            backend_error(failure),
        ),
        action_of(session.next(EventModel::BackendFailed(failure)).run(later).phase)
            == SignAction::Finished,
        failure == BackendFailure::TimedOut ==> backend_error(failure) == SignError::AuthenticationError,
{
    lemma_finished_is_final(session.next(EventModel::BackendFailed(failure)), later);
}

/// A series of `count` reports of a notifier's success.
pub open spec fn successes(count: nat) -> Seq<EventModel> {
    Seq::new(count, |i: int| EventModel::NotifierSucceeded)
}

/// In a fresh operation the notifiers are started one after the other in the
/// order of registration, and the backend is invoked right after the last of
/// them has started, not before.
pub proof fn lemma_starts_precede_backend(
    notifier_count: usize,
    client_data: Seq<char>,
    application_digest: Seq<u8>,
    started: nat,
)
    requires
        started <= notifier_count,
    ensures
        action_of(
            initial_session(notifier_count, client_data, application_digest).run(
                successes(started),
            ).phase,
        ) == if started < notifier_count {
            SignAction::NotifyStart(started as usize)
        } else {
            SignAction::InvokeBackend
        },
        initial_session(notifier_count, client_data, application_digest).run(
            successes(started),
        ).phase == if started < notifier_count {
            PhaseModel::NotifyingStart(started as usize)
        } else {
            PhaseModel::AwaitingBackend
        },
    decreases started,
{
    let fresh = initial_session(notifier_count, client_data, application_digest);
    if started == 0 {
        assert(fresh.run(successes(0)) == fresh);
    } else {
        lemma_run_keeps_setup(fresh, successes((started - 1) as nat));
        lemma_starts_precede_backend(
            notifier_count,
            client_data,
            application_digest,
            (started - 1) as nat,
        );
        assert(successes(started).drop_last() =~= successes((started - 1) as nat));
        assert(successes(started).last() == EventModel::NotifierSucceeded);
    }
}

/// After the backend has returned a payload, the notifiers are ended one
/// after the other in the order of registration, and only then is the
/// payload read.
pub proof fn lemma_ends_precede_conclusion(
    session: SessionModel,
    output: OutputModel,
    ended: nat,
)
    requires
        session.phase == PhaseModel::AwaitingBackend,
        ended <= session.notifier_count,
    ensures
        session.next(EventModel::BackendReturned(output)).run(successes(ended)).phase == if ended
            < session.notifier_count {
            PhaseModel::NotifyingEnd(ended as usize, output)
        } else {
            conclusion(session.application_digest, output)
        },
    decreases ended,
{
    let returned = session.next(EventModel::BackendReturned(output));
    if ended == 0 {
        assert(returned.run(successes(0)) == returned);
    } else {
        lemma_run_keeps_setup(returned, successes((ended - 1) as nat));
        lemma_ends_precede_conclusion(session, output, (ended - 1) as nat);
        assert(successes(ended).drop_last() =~= successes((ended - 1) as nat));
        assert(successes(ended).last() == EventModel::NotifierSucceeded);
    }
}

/// The phase of a running operation, with what it holds on to.
enum Phase {
    NotifyingStart(usize),
    AwaitingBackend,
    NotifyingEnd(usize, BackendOutput),
    Succeeded { signature: Vec<u8>, authenticator_data: Vec<u8> },
    Failed(SignError),
}

impl View for Phase {
    type V = PhaseModel;

    closed spec fn view(&self) -> PhaseModel {
        match *self {
            Phase::NotifyingStart(index) => PhaseModel::NotifyingStart(index),
            Phase::AwaitingBackend => PhaseModel::AwaitingBackend,
            Phase::NotifyingEnd(index, output) => PhaseModel::NotifyingEnd(index, output@),
            Phase::Succeeded { signature, authenticator_data } => PhaseModel::Succeeded {
                signature: signature@,
                authenticator_data: authenticator_data@,
            },
            Phase::Failed(e) => PhaseModel::Failed(e),
        }
    }
}

/// One signing operation in progress.
pub struct SignSession {
    notifier_count: usize,
    client_data: String,
    application_digest: Vec<u8>,
    phase: Phase,
}

/// Reads the backend's output and says how the operation ends.
fn conclude(application_digest: &Vec<u8>, output: BackendOutput) -> (phase: Phase)
    ensures
        phase@ == conclusion(application_digest@, output@),
{
    match output {
        BackendOutput::RawSignature(raw) => {
            match parse_assertion(raw.as_slice()) {
                Ok(parsed) => {
                    let data = authenticator_data(
                        application_digest.as_slice(),
                        parsed.user_presence,
                        parsed.counter,
                    );
                    Phase::Succeeded { signature: parsed.signature, authenticator_data: data }
                },
                Err(e) => Phase::Failed(e),
            }
        },
        BackendOutput::Assertion { signature, authenticator_data } => Phase::Succeeded {
            signature,
            authenticator_data,
        },
    }
}

impl SignSession {
    #[verifier::type_invariant]
    spec fn indices_in_range(self) -> bool {
        match self.phase {
            Phase::NotifyingStart(index) => index < self.notifier_count,
            Phase::NotifyingEnd(index, _) => index < self.notifier_count,
            _ => true,
        }
    }

    /// The operation as a mathematical value.
    pub closed spec fn model(&self) -> SessionModel {
        SessionModel {
            notifier_count: self.notifier_count,
            client_data: self.client_data@,
            application_digest: self.application_digest@,
            phase: self.phase@,
        }
    }

    /// Begins an operation around `notifier_count` notifiers.
    pub fn begin(notifier_count: usize, client_data: String, application_digest: Vec<u8>) -> (session:
        Self)
        ensures
            session.model() == initial_session(notifier_count, client_data@, application_digest@),
    {
        let phase = if notifier_count == 0 {
            Phase::AwaitingBackend
        } else {
            Phase::NotifyingStart(0)
        };
        SignSession { notifier_count, client_data, application_digest, phase }
    }

    /// The action that is due. A notifier index in it names a registered
    /// notifier.
    pub fn next_action(&self) -> (action: SignAction)
        ensures
            action == action_of(self.model().phase),
            self.model().wf(),
    {
        proof {
            use_type_invariant(self);
        }
        match &self.phase {
            Phase::NotifyingStart(index) => SignAction::NotifyStart(*index),
            Phase::AwaitingBackend => SignAction::InvokeBackend,
            Phase::NotifyingEnd(index, _) => SignAction::NotifyEnd(*index),
            Phase::Succeeded { .. } => SignAction::Finished,
            Phase::Failed(_) => SignAction::Finished,
        }
    }

    /// Takes the event that answers the action that was due and moves on.
    pub fn advance(self, event: SignEvent) -> (next: Self)
        ensures
            next.model() == self.model().next(event@),
    {
        proof {
            use_type_invariant(&self);
        }
        let SignSession { notifier_count, client_data, application_digest, phase } = self;
        let phase = match (phase, event) {
            (Phase::NotifyingStart(index), SignEvent::NotifierSucceeded) => {
                if index + 1 < notifier_count {
                    Phase::NotifyingStart(index + 1)
                } else {
                    Phase::AwaitingBackend
                }
            },
            (Phase::NotifyingStart(_), SignEvent::NotifierFailed(e)) => Phase::Failed(
                SignError::NotifierFailed(e),
            ),
            (Phase::AwaitingBackend, SignEvent::BackendReturned(output)) => {
                if notifier_count == 0 {
                    conclude(&application_digest, output)
                } else {
                    Phase::NotifyingEnd(0, output)
                }
            },
            (Phase::AwaitingBackend, SignEvent::BackendFailed(failure)) => Phase::Failed(
                classify_backend_failure(failure),
            ),
            (Phase::NotifyingEnd(index, output), SignEvent::NotifierSucceeded) => {
                if index + 1 < notifier_count {
                    Phase::NotifyingEnd(index + 1, output)
                } else {
                    conclude(&application_digest, output)
                }
            },
            (Phase::NotifyingEnd(_, _), SignEvent::NotifierFailed(e)) => Phase::Failed(
                SignError::NotifierFailed(e),
            ),
            (phase, _) => phase,
        };
        SignSession { notifier_count, client_data, application_digest, phase }
    }

    /// Ends the operation and hands out its outcome: the signed assertion
    /// or the error. `None` while an action is still due.
    pub fn into_outcome(self) -> (outcome: Option<Result<SignedAssertion, SignError>>)
        ensures
            match self.model().phase {
                PhaseModel::Succeeded { signature, authenticator_data } => outcome matches Some(
                    Ok(assertion),
                ) && assertion.client_data@ == self.model().client_data && assertion.signature@
                    == signature && assertion.authenticator_data@ == authenticator_data,
                PhaseModel::Failed(e) => outcome == Some(
                    Err::<SignedAssertion, SignError>(e),
                ),
                _ => outcome is None,
            },
    {
        match self.phase {
            Phase::Succeeded { signature, authenticator_data } => Some(
                Ok(SignedAssertion { client_data: self.client_data, signature, authenticator_data }),
            ),
            Phase::Failed(e) => Some(Err(e)),
            _ => None,
        }
    }
}

/// The error for a backend failure.
pub fn classify_backend_failure(failure: BackendFailure) -> (e: SignError)
    ensures
        e == backend_error(failure),
{
    match failure {
        BackendFailure::ChannelClosed => SignError::CommunicationError,
        BackendFailure::DeviceError => SignError::AuthenticationError,
        BackendFailure::TimedOut => SignError::AuthenticationError,
        BackendFailure::PlatformApi(code) => SignError::PlatformApiError(code),
    }
}

} // verus!
