//! The dispatcher: what it does with one connection, and how it moves
//! between listening and running a command.

use crate::codec::{decode, decoded, DecodeError};
use crate::command::{synthesize, synthesized, Invocation, InvocationView, SynthesisError};
use crate::identity::{
    authorize, first_match, first_match_is_first, identities_view, AuthorizationError,
    IdentityView, RemoteIdentity,
};
use vstd::prelude::*;

verus! {

/// Why a command did not run to a good end.
#[derive(Clone, Copy, Debug, PartialEq, Eq, Structural)]
pub enum ExecutionError {
    /// The command could not be started.
    NotLaunched,
    /// The command ended with this exit code, which is not 0, or without an
    /// exit code.
    Status(Option<i32>),
}

/// Why a connection was not served.
#[derive(Clone, Copy, Debug, PartialEq, Eq, Structural)]
pub enum DispatchError {
    /// The connection, or the identities to hold it against, could not be
    /// read.
    Connection,
    /// The bytes are not a message.
    Decode(DecodeError),
    /// The message's secret authorizes nothing.
    Authorization(AuthorizationError),
    /// No command stands for the request.
    Synthesis(SynthesisError),
    /// The command did not run to a good end.
    Execution(ExecutionError),
}

/// The stages that a connection passes through.
#[derive(Clone, Copy, Debug, PartialEq, Eq, Structural)]
pub enum Stage {
    Accepted,
    Decoding,
    Authorizing,
    Synthesizing,
    Executing,
}

impl DispatchError {
    /// The stage at which a connection fails with this error.
    pub open spec fn spec_stage(self) -> Stage {
        match self {
            DispatchError::Connection => Stage::Accepted,
            DispatchError::Decode(_) => Stage::Decoding,
            DispatchError::Authorization(_) => Stage::Authorizing,
            DispatchError::Synthesis(_) => Stage::Synthesizing,
            DispatchError::Execution(_) => Stage::Executing,
        }
    }

    /// The stage at which a connection fails with this error.
    pub fn stage(self) -> (stage: Stage)
        ensures
            stage == self.spec_stage(),
    {
        match self {
            DispatchError::Connection => Stage::Accepted,
            DispatchError::Decode(_) => Stage::Decoding,
            DispatchError::Authorization(_) => Stage::Authorizing,
            DispatchError::Synthesis(_) => Stage::Synthesizing,
            DispatchError::Execution(_) => Stage::Executing,
        }
    }
}

/// The command that the bytes of one connection ask for, given the known
/// identities: the bytes are decoded, the message's secret picks the first
/// identity that has it, and the request becomes a command for that
/// identity.
pub open spec fn accepted(bytes: Seq<u8>, identities: Seq<IdentityView>) -> Result<
    InvocationView,
    DispatchError,
> {
    match decoded(bytes) {
        Err(e) => Err(DispatchError::Decode(e)),
        Ok(message) => match first_match(identities, message.secret) {
            None => Err(DispatchError::Authorization(AuthorizationError::NoMatch)),
            Some(i) => match synthesized(identities[i], message.request) {
                Err(e) => Err(DispatchError::Synthesis(e)),
                Ok(invocation) => Ok(invocation),
            },
        },
    }
}

/// Decides what to run for the bytes of one connection: decodes them,
/// authorizes the message's secret against `identities`, and makes the
/// command for the request. No command is made for a secret that no
/// identity has.
pub fn accept(bytes: &[u8], identities: &Vec<RemoteIdentity>) -> (outcome: Result<
    Invocation,
    DispatchError,
>)
    ensures
        match outcome {
            Ok(invocation) => accepted(bytes@, identities_view(identities@)) == Ok::<
                _,
                DispatchError,
            >(invocation@),
            Err(e) => accepted(bytes@, identities_view(identities@)) == Err::<InvocationView, _>(e),
        },
{
    let message = match decode(bytes) {
        Ok(message) => message,
        Err(e) => return Err(DispatchError::Decode(e)),
    };
    let identity = match authorize(&message.secret, identities) {
        Ok(identity) => identity,
        Err(e) => return Err(DispatchError::Authorization(e)),
    };
    proof {
        first_match_is_first(identities_view(identities@), message@.secret);
    }
    match synthesize(identity, &message.request) {
        Ok(invocation) => Ok(invocation),
        Err(e) => Err(DispatchError::Synthesis(e)),
    }
}

/// What the dispatcher waits for.
#[derive(Clone, Copy, Debug, PartialEq, Eq, Structural)]
pub enum State {
    /// The next connection.
    Listening,
    /// The end of the command that it has asked to run.
    Executing,
    /// Nothing: the listener is lost.
    Stopped,
}

/// What happens to the dispatcher.
pub enum Event {
    /// A peer has connected and closed its side; these are the bytes it
    /// sent and the identities known at this time.
    Connected { bytes: Vec<u8>, identities: Vec<RemoteIdentity> },
    /// A connection, or the identities for it, could not be read.
    ConnectionLost,
    /// The command has ended, with this exit code if it has one.
    Exited { code: Option<i32> },
    /// The command could not be started.
    LaunchFailed,
    /// The listener cannot go on.
    ListenerLost,
}

/// An event as a mathematical value.
pub ghost enum EventView {
    Connected { bytes: Seq<u8>, identities: Seq<IdentityView> },
    ConnectionLost,
    Exited { code: Option<i32> },
    LaunchFailed,
    ListenerLost,
}

impl View for Event {
    type V = EventView;

    open spec fn view(&self) -> EventView {
        match *self {
            Event::Connected { bytes, identities } => EventView::Connected {
                bytes: bytes@,
                identities: identities_view(identities@),
            },
            Event::ConnectionLost => EventView::ConnectionLost,
            Event::Exited { code } => EventView::Exited { code },
            Event::LaunchFailed => EventView::LaunchFailed,
            Event::ListenerLost => EventView::ListenerLost,
        }
    }
}

/// What is told to the operator at the end of a connection.
#[derive(Clone, Copy, Debug, PartialEq, Eq, Structural)]
pub enum Report {
    /// The command ran and ended with exit code 0.
    Completed,
    /// The connection was not served.
    Failed(DispatchError),
}

/// What the dispatcher asks to be done.
#[derive(Debug)]
pub enum Action {
    /// Run this command to its end, then hand back `Exited`, or
    /// `LaunchFailed` where it does not start.
    Launch(Invocation),
    /// Tell the operator, then listen again.
    Report(Report),
    /// Nothing: the event does not belong to what the dispatcher waits for.
    Ignore,
    /// End the process.
    Stop,
}

/// An action as a mathematical value.
pub ghost enum ActionView {
    Launch(InvocationView),
    Report(Report),
    Ignore,
    Stop,
}

impl View for Action {
    type V = ActionView;

    open spec fn view(&self) -> ActionView {
        match *self {
            Action::Launch(invocation) => ActionView::Launch(invocation@),
            Action::Report(report) => ActionView::Report(report),
            Action::Ignore => ActionView::Ignore,
            Action::Stop => ActionView::Stop,
        }
    }
}

/// What the end of a command is reported as.
pub open spec fn exit_report(code: Option<i32>) -> Report {
    if code == Some(0i32) {
        Report::Completed
    } else {
        Report::Failed(DispatchError::Execution(ExecutionError::Status(code)))
    }
}

/// The state after `event` in `state`, and what is to be done.
///
/// While listening, a connection either gives a command to launch or is
/// reported as failed; while a command runs, its end is reported. Either
/// way the dispatcher listens again. Only the loss of the listener stops
/// it. An event that does not belong to the state changes nothing.
pub open spec fn stepped(state: State, event: EventView) -> (State, ActionView) {
    match (state, event) {
        (State::Stopped, _) => (State::Stopped, ActionView::Stop),
        (_, EventView::ListenerLost) => (State::Stopped, ActionView::Stop),
        (State::Listening, EventView::Connected { bytes, identities }) => match accepted(
            bytes,
            identities,
        ) {
            Ok(invocation) => (State::Executing, ActionView::Launch(invocation)),
            Err(e) => (State::Listening, ActionView::Report(Report::Failed(e))),
        },
        (State::Listening, EventView::ConnectionLost) => (
            State::Listening,
            ActionView::Report(Report::Failed(DispatchError::Connection)),
        ),
        (State::Executing, EventView::Exited { code }) => (
            State::Listening,
            ActionView::Report(exit_report(code)),
        ),
        (State::Executing, EventView::LaunchFailed) => (
            State::Listening,
            ActionView::Report(
                Report::Failed(DispatchError::Execution(ExecutionError::NotLaunched)),
            ),
        ),
        (_, _) => (state, ActionView::Ignore),
    }
}

/// Takes the dispatcher from `state` through `event`: the state after it,
/// and what is to be done.
pub fn step(state: State, event: Event) -> (next: (State, Action))
    ensures
        (next.0, next.1@) == stepped(state, event@),
{
    match state {
        State::Stopped => (State::Stopped, Action::Stop),
        State::Listening => match event {
            Event::ListenerLost => (State::Stopped, Action::Stop),
            Event::Connected { bytes, identities } => match accept(bytes.as_slice(), &identities) {
                Ok(invocation) => (State::Executing, Action::Launch(invocation)),
                Err(e) => (State::Listening, Action::Report(Report::Failed(e))),
            },
            Event::ConnectionLost => (
                State::Listening,
                Action::Report(Report::Failed(DispatchError::Connection)),
            ),
            _ => (State::Listening, Action::Ignore),
        },
        State::Executing => match event {
            Event::ListenerLost => (State::Stopped, Action::Stop),
            Event::Exited { code } => {
                let report = match code {
                    Some(0) => Report::Completed,
                    _ => Report::Failed(DispatchError::Execution(ExecutionError::Status(code))),
                };
                (State::Listening, Action::Report(report))
            },
            Event::LaunchFailed => (
                State::Listening,
                Action::Report(
                    Report::Failed(DispatchError::Execution(ExecutionError::NotLaunched)),
                ),
            ),
            _ => (State::Executing, Action::Ignore),
        },
    }
}

/// Nothing but the loss of the listener stops the dispatcher.
pub proof fn only_listener_loss_stops(state: State, event: EventView)
    requires
        state != State::Stopped,
        event != EventView::ListenerLost,
    ensures
        stepped(state, event).0 != State::Stopped,
{
}

/// A command is launched only while listening, and only for a connection
/// whose bytes are a message with a secret that one of the identities has:
/// it is the command for the first such identity and the message's request.
pub proof fn launch_is_authorized(state: State, event: EventView, invocation: InvocationView)
    requires
        stepped(state, event).1 == ActionView::Launch(invocation),
    ensures
        state == State::Listening,
        event is Connected,
        decoded(event->bytes) is Ok,
        ({
            let message = decoded(event->bytes)->Ok_0;
            let known = event->identities;
            let i = first_match(known, message.secret)->Some_0;
            &&& first_match(known, message.secret) is Some
            &&& 0 <= i < known.len()
            &&& known[i].secret == message.secret
            &&& synthesized(known[i], message.request) == Ok::<_, SynthesisError>(invocation)
        }),
{
    if event is Connected && decoded(event->bytes) is Ok {
        first_match_is_first(event->identities, decoded(event->bytes)->Ok_0.secret);
    }
}

/// A connection that fails, at whatever stage, leaves the dispatcher
/// listening, and the connection after it is served in full: its command is
/// launched, the end of the command is reported, and the dispatcher listens
/// again.
pub proof fn failed_connection_is_isolated(
    failing: Seq<u8>,
    known_then: Seq<IdentityView>,
    served: Seq<u8>,
    known_now: Seq<IdentityView>,
    code: Option<i32>,
)
    requires
        accepted(failing, known_then) is Err,
        accepted(served, known_now) is Ok,
    ensures
        ({
            let first = EventView::Connected { bytes: failing, identities: known_then };
            let second = EventView::Connected { bytes: served, identities: known_now };
            let (after_failure, told) = stepped(State::Listening, first);
            let (running, asked) = stepped(after_failure, second);
            let (after_exit, reported) = stepped(running, EventView::Exited { code });
            &&& after_failure == State::Listening
            &&& told == ActionView::Report(Report::Failed(accepted(failing, known_then)->Err_0))
            &&& running == State::Executing
            &&& asked == ActionView::Launch(accepted(served, known_now)->Ok_0)
            &&& after_exit == State::Listening
            &&& reported == ActionView::Report(exit_report(code))
        }),
{
}

} // verus!
