//! The proxy as a whole: one serving call and the handlers it has started.
//!
//! The model puts the pieces of this crate together the way a driver does. A
//! serving call advances on what the listening socket reports and starts a
//! handler for every connection it accepts; each handler advances on what its
//! own connection reports. The laws below say what the pieces cannot do to each
//! other.

use vstd::prelude::*;
use crate::acceptor::{ListenerEvent, ServePhase};
use crate::connection::{
    handler_run,
    handler_step,
    HandlerActionView,
    HandlerEventView,
    HandlerState,
};
use crate::proxy::{serve_run, serve_step, ServeAction, ServeEvent};
use crate::state::ProxyStateView;

verus! {

/// A proxy with a serving call in `phase` and one handler for each connection
/// accepted so far, in the order of their arrival.
pub struct SystemView {
    pub proxy: ProxyStateView,
    pub phase: ServePhase,
    pub handlers: Seq<HandlerState>,
}

/// Something reported to the proxy as a whole.
pub enum SystemEvent {
    /// An event of the serving call.
    Serve(ServeEvent),
    /// An event of the connection with the given index.
    Connection(int, HandlerEventView),
}

/// What the proxy as a whole asks for.
pub enum SystemAction {
    /// An action of the serving call.
    Serve(ServeAction),
    /// An action of the handler with the given index.
    Connection(int, HandlerActionView),
    /// The event named a connection that does not exist; nothing changed.
    Unknown,
}

/// One step of the whole proxy. An event of the serving call advances the
/// call, and where the call answers `Spawn`, a new handler starts in `Reading`.
/// An event of a connection advances the handler of that connection.
pub open spec fn system_step(system: SystemView, event: SystemEvent) -> (SystemView, SystemAction) {
    match event {
        SystemEvent::Serve(event) => {
            let (proxy, phase, action) = serve_step(system.proxy, system.phase, event);
            let handlers = if action == ServeAction::Spawn {
                system.handlers.push(HandlerState::Reading)
            } else {
                system.handlers
            };
            (SystemView { proxy, phase, handlers }, SystemAction::Serve(action))
        },
        SystemEvent::Connection(index, event) => if 0 <= index < system.handlers.len() {
            let (state, action) = handler_step(system.handlers[index], event);
            (
                SystemView { handlers: system.handlers.update(index, state), ..system },
                SystemAction::Connection(index, action),
            )
        } else {
            (system, SystemAction::Unknown)
        },
    }
}

/// The run of the whole proxy over `events`: the system at the end, and the
/// actions it asked for, one for each event.
pub open spec fn system_run(system: SystemView, events: Seq<SystemEvent>) -> (
    SystemView,
    Seq<SystemAction>,
)
    decreases events.len(),
{
    if events.len() == 0 {
        (system, Seq::empty())
    } else {
        let (before, actions) = system_run(system, events.drop_last());
        let (after, action) = system_step(before, events.last());
        (after, actions.push(action))
    }
}

/// The events among `events` that belong to the connection `index`, in order.
pub open spec fn events_of_connection(events: Seq<SystemEvent>, index: int) -> Seq<
    HandlerEventView,
>
    decreases events.len(),
{
    if events.len() == 0 {
        Seq::empty()
    } else {
        let earlier = events_of_connection(events.drop_last(), index);
        match events.last() {
            SystemEvent::Connection(i, event) if i == index => earlier.push(event),
            _ => earlier,
        }
    }
}

/// The actions among `actions` that belong to the connection `index`, in
/// order.
pub open spec fn actions_of_connection(actions: Seq<SystemAction>, index: int) -> Seq<
    HandlerActionView,
>
    decreases actions.len(),
{
    if actions.len() == 0 {
        Seq::empty()
    } else {
        let earlier = actions_of_connection(actions.drop_last(), index);
        match actions.last() {
            SystemAction::Connection(i, action) if i == index => earlier.push(action),
            _ => earlier,
        }
    }
}

/// The events among `events` that belong to the serving call, in order.
pub open spec fn events_of_serving(events: Seq<SystemEvent>) -> Seq<ServeEvent>
    decreases events.len(),
{
    if events.len() == 0 {
        Seq::empty()
    } else {
        let earlier = events_of_serving(events.drop_last());
        match events.last() {
            SystemEvent::Serve(event) => earlier.push(event),
            _ => earlier,
        }
    }
}

/// The actions among `actions` that belong to the serving call, in order.
pub open spec fn actions_of_serving(actions: Seq<SystemAction>) -> Seq<ServeAction>
    decreases actions.len(),
{
    if actions.len() == 0 {
        Seq::empty()
    } else {
        let earlier = actions_of_serving(actions.drop_last());
        match actions.last() {
            SystemAction::Serve(action) => earlier.push(action),
            _ => earlier,
        }
    }
}

/// The number of handlers that `actions` asked to start.
pub open spec fn handlers_started(actions: Seq<SystemAction>) -> nat
    decreases actions.len(),
{
    if actions.len() == 0 {
        0
    } else {
        let earlier = handlers_started(actions.drop_last());
        if actions.last() == SystemAction::Serve(ServeAction::Spawn) {
            earlier + 1
        } else {
            earlier
        }
    }
}

/// One handler for each accepted connection, and no bound on their number.
/// Over any run of the whole proxy, the handlers at the end are those at the
/// start and one more for every `Spawn` that the serving call answered with;
/// none is ever removed, so each keeps its index.
pub proof fn lemma_one_handler_for_each_spawn(system: SystemView, events: Seq<SystemEvent>)
    ensures
        system_run(system, events).1.len() == events.len(),
        system_run(system, events).0.handlers.len() == system.handlers.len() + handlers_started(
            system_run(system, events).1,
        ),
    decreases events.len(),
{
    if events.len() > 0 {
        lemma_one_handler_for_each_spawn(system, events.drop_last());
        let (before, actions) = system_run(system, events.drop_last());
        let (after, action) = system_step(before, events.last());
        assert(actions.push(action).drop_last() == actions);
    }
}

/// Connections are independent. In any run of the whole proxy, however the
/// events of the serving call and of the other connections are interleaved
/// with its own, a connection ends in the state, and is given the actions,
/// that its handler would reach and give if it ran alone on its own events.
pub proof fn lemma_connections_are_independent(
    system: SystemView,
    events: Seq<SystemEvent>,
    index: int,
)
    requires
        0 <= index < system.handlers.len(),
    ensures
        index < system_run(system, events).0.handlers.len(),
        system_run(system, events).0.handlers[index] == handler_run(
            system.handlers[index],
            events_of_connection(events, index),
        ).0,
        actions_of_connection(system_run(system, events).1, index) == handler_run(
            system.handlers[index],
            events_of_connection(events, index),
        ).1,
    decreases events.len(),
{
    if events.len() > 0 {
        lemma_connections_are_independent(system, events.drop_last(), index);
        let (before, actions) = system_run(system, events.drop_last());
        let (after, action) = system_step(before, events.last());
        assert(actions.push(action).drop_last() == actions);
        match events.last() {
            SystemEvent::Connection(i, event) if i == index => {
                let own = events_of_connection(events.drop_last(), index);
                assert(own.push(event).drop_last() == own);
            },
            _ => {},
        }
    }
}

/// The serving call is independent of the connections. In any run of the
/// whole proxy, whatever happens on the connections, the proxy state and the
/// phase at the end, and the actions of the serving call, are those of the
/// serving call run alone on its own events.
pub proof fn lemma_serving_ignores_connections(system: SystemView, events: Seq<SystemEvent>)
    ensures
        system_run(system, events).0.proxy == serve_run(
            system.proxy,
            system.phase,
            events_of_serving(events),
        ).0,
        system_run(system, events).0.phase == serve_run(
            system.proxy,
            system.phase,
            events_of_serving(events),
        ).1,
        actions_of_serving(system_run(system, events).1) == serve_run(
            system.proxy,
            system.phase,
            events_of_serving(events),
        ).2,
    decreases events.len(),
{
    if events.len() > 0 {
        lemma_serving_ignores_connections(system, events.drop_last());
        let (before, actions) = system_run(system, events.drop_last());
        let (after, action) = system_step(before, events.last());
        assert(actions.push(action).drop_last() == actions);
        match events.last() {
            SystemEvent::Serve(event) => {
                let own = events_of_serving(events.drop_last());
                assert(own.push(event).drop_last() == own);
            },
            _ => {},
        }
    }
}

/// A failing peer is contained. When a read or a write fails on a connection,
/// its handler closes and asks for the connection to be dropped; the proxy
/// state, the phase of the serving call and every other handler are left as
/// they were. A serving call that was accepting therefore still is, and
/// answers the next accepted connection with `Spawn`, which starts a new
/// handler in `Reading`.
pub proof fn lemma_peer_failure_is_contained(
    system: SystemView,
    index: int,
    failure: HandlerEventView,
)
    requires
        0 <= index < system.handlers.len(),
        failure == HandlerEventView::ReadFailed || failure == HandlerEventView::WriteFailed,
    ensures
        ({
            let (after, action) = system_step(system, SystemEvent::Connection(index, failure));
            let (later, next) = system_step(
                after,
                SystemEvent::Serve(ServeEvent::Listener(ListenerEvent::Accepted)),
            );
            &&& action == SystemAction::Connection(index, HandlerActionView::Terminate)
            &&& after.handlers[index] == HandlerState::Closed
            &&& after.proxy == system.proxy
            &&& after.phase == system.phase
            &&& after.handlers.len() == system.handlers.len()
            &&& forall|other: int|
                0 <= other < system.handlers.len() && other != index
                    ==> #[trigger] after.handlers[other] == system.handlers[other]
            &&& system.phase == ServePhase::Accepting ==> {
                &&& next == SystemAction::Serve(ServeAction::Spawn)
                &&& later.phase == ServePhase::Accepting
                &&& later.handlers == after.handlers.push(HandlerState::Reading)
            }
        }),
{
}

/// A failed accept is contained as well. When accepting one connection fails,
/// the proxy state, the phase of the serving call and every handler are left
/// as they were, and the serving call asks for the next connection; the
/// connection accepted after that is answered with `Spawn`, which starts a new
/// handler in `Reading`.
pub proof fn lemma_failed_accept_is_contained(system: SystemView)
    requires
        system.phase == ServePhase::Accepting,
    ensures
        ({
            let (after, action) = system_step(
                system,
                SystemEvent::Serve(ServeEvent::Listener(ListenerEvent::AcceptFailed)),
            );
            let (later, next) = system_step(
                after,
                SystemEvent::Serve(ServeEvent::Listener(ListenerEvent::Accepted)),
            );
            &&& action == SystemAction::Serve(ServeAction::Accept)
            &&& after == system
            &&& next == SystemAction::Serve(ServeAction::Spawn)
            &&& later.proxy == system.proxy
            &&& later.phase == ServePhase::Accepting
            &&& later.handlers == system.handlers.push(HandlerState::Reading)
        }),
{
}

} // verus!
