//! The accept loop, as a state machine.
//!
//! The loop is entered once the driver has been asked to bind the listening
//! socket. From then on the driver reports what the socket did, and [`listen`]
//! answers with the next thing to do. A bind that fails ends the loop at once.
//! Every accepted connection gets a handler of its own and the loop goes on
//! accepting; nothing that happens on a connection is an event here. An accept
//! that fails for the one connection it was about leaves the loop accepting.
//! Only a failure of the listening socket itself ends the loop;
//! [`classify_accept_error`] tells the two apart.

use vstd::prelude::*;

verus! {

/// Where a serving call stands.
#[derive(Clone, Copy, Debug, PartialEq, Eq, Structural)]
pub enum ServePhase {
    /// Serving has not been asked for yet.
    Idle,
    /// The driver has been asked to bind the listening socket.
    Binding,
    /// The socket is bound and the driver accepts connections.
    Accepting,
    /// The call is over. No event leads out of this phase.
    Finished,
}

/// What the driver reports about the listening socket.
#[derive(Clone, Copy, Debug, PartialEq, Eq, Structural)]
pub enum ListenerEvent {
    /// The socket was bound.
    Bound,
    /// The socket could not be bound.
    BindFailed,
    /// A connection was accepted.
    Accepted,
    /// Accepting one connection failed; the socket is still usable.
    AcceptFailed,
    /// The listening socket itself failed.
    ListenerFailed,
}

/// What the accept loop asks the driver to do next.
#[derive(Clone, Copy, Debug, PartialEq, Eq, Structural)]
pub enum ListenerAction {
    /// Wait for the next connection and report the outcome.
    Accept,
    /// Start a handler for the connection just accepted, do not wait for it,
    /// then wait for the next connection and report the outcome.
    Spawn,
    /// The listening socket failed; the loop is over.
    Exit,
    /// The socket could not be bound; the loop never ran.
    Fail,
    /// The event does not belong to the phase; nothing changed.
    Reject,
}

/// The kind of error that accepting a connection reported, as the system
/// names it.
#[derive(Clone, Copy, Debug, PartialEq, Eq, Structural)]
pub enum AcceptErrorKind {
    /// The peer gave the connection up before it was accepted.
    ConnectionAborted,
    /// The peer reset the connection before it was accepted.
    ConnectionReset,
    /// The connection was refused on its way in.
    ConnectionRefused,
    /// The peer's host could not be reached.
    HostUnreachable,
    /// The peer's network could not be reached.
    NetworkUnreachable,
    /// The network that the connection came over went down.
    NetworkDown,
    /// The connection timed out before it was accepted.
    TimedOut,
    /// The call was interrupted before it had a connection.
    Interrupted,
    /// No connection was waiting.
    WouldBlock,
    /// The system did not admit the connection.
    PermissionDenied,
    /// The system is out of memory.
    OutOfMemory,
    /// The socket is not one that accepts connections.
    InvalidInput,
    /// The socket does not support accepting.
    Unsupported,
    /// Any other error, a closed or invalid socket among them.
    Other,
}

/// Whether an accept error means that the listening socket itself has failed.
///
/// The kinds that speak of the one connection that was on its way in, or of
/// a call that ended before it had a connection, do not: the socket is as
/// usable as before. Every other kind does. `Other` is among them because it
/// is all that the system reports of a socket that was closed under the loop.
pub open spec fn is_listener_failure(kind: AcceptErrorKind) -> bool {
    match kind {
        AcceptErrorKind::ConnectionAborted => false,
        AcceptErrorKind::ConnectionReset => false,
        AcceptErrorKind::ConnectionRefused => false,
        AcceptErrorKind::HostUnreachable => false,
        AcceptErrorKind::NetworkUnreachable => false,
        AcceptErrorKind::NetworkDown => false,
        AcceptErrorKind::TimedOut => false,
        AcceptErrorKind::Interrupted => false,
        AcceptErrorKind::WouldBlock => false,
        AcceptErrorKind::PermissionDenied => false,
        AcceptErrorKind::OutOfMemory => true,
        AcceptErrorKind::InvalidInput => true,
        AcceptErrorKind::Unsupported => true,
        AcceptErrorKind::Other => true,
    }
}

/// One step of the accept loop: the phase after `event`, and the action that
/// the loop asks for.
pub open spec fn listen_step(phase: ServePhase, event: ListenerEvent) -> (
    ServePhase,
    ListenerAction,
) {
    match (phase, event) {
        (ServePhase::Binding, ListenerEvent::Bound) => (
            ServePhase::Accepting,
            ListenerAction::Accept,
        ),
        (ServePhase::Binding, ListenerEvent::BindFailed) => (
            ServePhase::Finished,
            ListenerAction::Fail,
        ),
        (ServePhase::Accepting, ListenerEvent::Accepted) => (
            ServePhase::Accepting,
            ListenerAction::Spawn,
        ),
        (ServePhase::Accepting, ListenerEvent::AcceptFailed) => (
            ServePhase::Accepting,
            ListenerAction::Accept,
        ),
        (ServePhase::Accepting, ListenerEvent::ListenerFailed) => (
            ServePhase::Finished,
            ListenerAction::Exit,
        ),
        _ => (phase, ListenerAction::Reject),
    }
}

/// The run of the accept loop over `events`, from `phase`: the phase at the
/// end, and the actions it asked for, one for each event.
pub open spec fn listen_run(phase: ServePhase, events: Seq<ListenerEvent>) -> (
    ServePhase,
    Seq<ListenerAction>,
)
    decreases events.len(),
{
    if events.len() == 0 {
        (phase, Seq::empty())
    } else {
        let (at, actions) = listen_run(phase, events.drop_last());
        let (next, action) = listen_step(at, events.last());
        (next, actions.push(action))
    }
}

/// An accepting loop goes on accepting for as long as the listening socket
/// holds. Over any run of accepted connections and failed accepts, in any
/// number and order, it stays in `Accepting`, answers every accepted
/// connection with `Spawn` and every failed accept with `Accept`, and never
/// exits.
pub proof fn lemma_failed_accepts_do_not_end_the_loop(events: Seq<ListenerEvent>)
    requires
        forall|k: int|
            0 <= k < events.len() ==> #[trigger] events[k] == ListenerEvent::Accepted || events[k]
                == ListenerEvent::AcceptFailed,
    ensures
        listen_run(ServePhase::Accepting, events).0 == ServePhase::Accepting,
        listen_run(ServePhase::Accepting, events).1.len() == events.len(),
        forall|k: int|
            0 <= k < events.len() ==> #[trigger] listen_run(ServePhase::Accepting, events).1[k]
                == (if events[k] == ListenerEvent::Accepted {
                ListenerAction::Spawn
            } else {
                ListenerAction::Accept
            }),
    decreases events.len(),
{
    if events.len() > 0 {
        let earlier = events.drop_last();
        assert forall|k: int| 0 <= k < earlier.len() implies #[trigger] earlier[k]
            == ListenerEvent::Accepted || earlier[k] == ListenerEvent::AcceptFailed by {
            assert(earlier[k] == events[k]);
        }
        lemma_failed_accepts_do_not_end_the_loop(earlier);
        assert(events.last() == events[events.len() - 1]);
    }
}

/// The accept loop ends in two ways only: the socket could not be bound, or
/// the listening socket itself failed while accepting.
pub proof fn lemma_only_the_listener_ends_the_loop(phase: ServePhase, event: ListenerEvent)
    requires
        phase != ServePhase::Finished,
    ensures
        listen_step(phase, event).0 == ServePhase::Finished <==> (phase == ServePhase::Binding
            && event == ListenerEvent::BindFailed) || (phase == ServePhase::Accepting && event
            == ListenerEvent::ListenerFailed),
        listen_step(phase, event).1 == ListenerAction::Exit <==> (phase == ServePhase::Accepting
            && event == ListenerEvent::ListenerFailed),
{
}

/// Tells what an accept error means for the loop: `ListenerFailed` where the
/// kind says that the listening socket itself has failed, `AcceptFailed`
/// where it speaks of one connection only; see [`is_listener_failure`].
pub fn classify_accept_error(kind: AcceptErrorKind) -> (event: ListenerEvent)
    ensures
        event == (if is_listener_failure(kind) {
            ListenerEvent::ListenerFailed
        } else {
            ListenerEvent::AcceptFailed
        }),
{
    match kind {
        AcceptErrorKind::OutOfMemory => ListenerEvent::ListenerFailed,
        AcceptErrorKind::InvalidInput => ListenerEvent::ListenerFailed,
        AcceptErrorKind::Unsupported => ListenerEvent::ListenerFailed,
        AcceptErrorKind::Other => ListenerEvent::ListenerFailed,
        _ => ListenerEvent::AcceptFailed,
    }
}

/// Advances the accept loop by one event.
///
/// While binding, a bound socket starts the accepting and a failed bind ends
/// the loop with `Fail`. While accepting, each accepted connection is answered
/// with `Spawn` and each failed accept with `Accept`, and the loop stays where
/// it is; a failure of the listening socket ends the loop with `Exit`. Any
/// other pairing of phase and event is answered with `Reject` and leaves the
/// phase as it was.
pub fn listen(phase: ServePhase, event: ListenerEvent) -> (next: (ServePhase, ListenerAction))
    ensures
        next == listen_step(phase, event),
{
    match phase {
        ServePhase::Binding => match event {
            ListenerEvent::Bound => (ServePhase::Accepting, ListenerAction::Accept),
            ListenerEvent::BindFailed => (ServePhase::Finished, ListenerAction::Fail),
            _ => (phase, ListenerAction::Reject),
        },
        ServePhase::Accepting => match event {
            ListenerEvent::Accepted => (ServePhase::Accepting, ListenerAction::Spawn),
            ListenerEvent::AcceptFailed => (ServePhase::Accepting, ListenerAction::Accept),
            ListenerEvent::ListenerFailed => (ServePhase::Finished, ListenerAction::Exit),
            _ => (phase, ListenerAction::Reject),
        },
        _ => (phase, ListenerAction::Reject),
    }
}

} // verus!
