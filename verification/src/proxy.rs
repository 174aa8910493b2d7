//! The proxy facade: construction, lifecycle queries, shutdown, and the
//! decisions of the serving entry point.

use vstd::prelude::*;
use crate::acceptor::{listen, listen_step, ListenerAction, ListenerEvent, ServePhase};
use crate::address::BindAddress;
use crate::config::{Config, ConfigView};
use crate::state::{ProxyState, ProxyStateView};

verus! {

/// Why a proxy could not start.
#[derive(Clone, Copy, Debug, PartialEq, Eq, Structural)]
pub enum StartupError {
    /// The configured proxy-facing address is not a socket address.
    MalformedProxyAddress,
    /// The configured admin-facing address is not a socket address.
    MalformedAdminAddress,
    /// The listening socket could not be bound.
    BindFailed,
}

/// What the driver reports to a serving call.
#[derive(Clone, Copy, Debug, PartialEq, Eq, Structural)]
pub enum ServeEvent {
    /// Serving was asked for.
    Invoked,
    /// The listening socket did something.
    Listener(ListenerEvent),
}

/// What a serving call asks the driver to do next.
#[derive(Clone, Copy, Debug, PartialEq, Eq)]
pub enum ServeAction {
    /// Bind a listening socket on this address and report the outcome.
    Bind(BindAddress),
    /// Wait for the next connection and report the outcome.
    Accept,
    /// Start a handler for the connection just accepted, do not wait for it,
    /// then wait for the next connection and report the outcome.
    Spawn,
    /// Return to the caller; there is nothing more to do.
    Return,
    /// Return to the caller with this error.
    Fail(StartupError),
    /// The event does not belong to the phase; nothing changed.
    Reject,
}

/// The proxy that results from a configuration and from what resolving its
/// two addresses gave: the error of the first address that did not resolve,
/// the proxy-facing one first, or else a proxy in its initial state.
pub open spec fn startup_result(
    config: ConfigView,
    proxy_addr: Option<BindAddress>,
    admin_addr: Option<BindAddress>,
) -> Result<ProxyStateView, StartupError> {
    match (proxy_addr, admin_addr) {
        (None, _) => Err(StartupError::MalformedProxyAddress),
        (Some(_), None) => Err(StartupError::MalformedAdminAddress),
        (Some(proxy), Some(admin)) => Ok(ProxyStateView::initial(config, proxy, admin)),
    }
}

/// One step of a serving call: the proxy state and the phase after `event`,
/// and the action that the call asks for.
pub open spec fn serve_step(state: ProxyStateView, phase: ServePhase, event: ServeEvent) -> (
    ProxyStateView,
    ServePhase,
    ServeAction,
) {
    match event {
        ServeEvent::Invoked => if phase != ServePhase::Idle {
            (state, phase, ServeAction::Reject)
        } else if state.is_closed() {
            (state, ServePhase::Finished, ServeAction::Return)
        } else {
            (state, ServePhase::Binding, ServeAction::Bind(state.proxy_bind_address))
        },
        ServeEvent::Listener(event) => {
            let (next, action) = listen_step(phase, event);
            match action {
                ListenerAction::Accept => (state, next, ServeAction::Accept),
                ListenerAction::Spawn => (state, next, ServeAction::Spawn),
                ListenerAction::Exit => (state.close(), next, ServeAction::Return),
                ListenerAction::Fail => (state, next, ServeAction::Fail(StartupError::BindFailed)),
                ListenerAction::Reject => (state, next, ServeAction::Reject),
            }
        },
    }
}

/// The run of a serving call over `events`, from `state` and `phase`: the
/// proxy state and the phase at the end, and the actions it asked for, one for
/// each event.
pub open spec fn serve_run(state: ProxyStateView, phase: ServePhase, events: Seq<ServeEvent>) -> (
    ProxyStateView,
    ServePhase,
    Seq<ServeAction>,
)
    decreases events.len(),
{
    if events.len() == 0 {
        (state, phase, Seq::empty())
    } else {
        let (before, at, actions) = serve_run(state, phase, events.drop_last());
        let (after, next, action) = serve_step(before, at, events.last());
        (after, next, actions.push(action))
    }
}

/// Something that changes a proxy: a shutdown, or one step of a serving call
/// that stands in the given phase.
pub enum ProxyOp {
    Close,
    Serve(ServePhase, ServeEvent),
}

/// The proxy state after one operation.
pub open spec fn apply_op(state: ProxyStateView, op: ProxyOp) -> ProxyStateView {
    match op {
        ProxyOp::Close => state.close(),
        ProxyOp::Serve(phase, event) => serve_step(state, phase, event).0,
    }
}

/// The proxy state after the operations `ops`, applied in order.
pub open spec fn apply_ops(state: ProxyStateView, ops: Seq<ProxyOp>) -> ProxyStateView
    decreases ops.len(),
{
    if ops.len() == 0 {
        state
    } else {
        apply_op(apply_ops(state, ops.drop_last()), ops.last())
    }
}

/// Whatever is done to a proxy, by shutdowns and by serving calls in any
/// number and order, nothing but `closed` ever differs from the state it
/// started in; the two addresses in particular stay as they were built.
pub proof fn lemma_operations_change_only_closed(state: ProxyStateView, ops: Seq<ProxyOp>)
    ensures
        apply_ops(state, ops) == (ProxyStateView {
            closed: apply_ops(state, ops).closed,
            ..state
        }),
        apply_ops(state, ops).proxy_bind_address == state.proxy_bind_address,
        apply_ops(state, ops).admin_bind_address == state.admin_bind_address,
    decreases ops.len(),
{
    if ops.len() > 0 {
        lemma_operations_change_only_closed(state, ops.drop_last());
    }
}

/// Once a proxy is closed it stays closed: if it is closed after the first
/// `i` of the operations `ops`, it is closed after the first `j` of them, for
/// every `j` from `i` on.
pub proof fn lemma_closed_is_permanent(state: ProxyStateView, ops: Seq<ProxyOp>, i: int, j: int)
    requires
        0 <= i <= j <= ops.len(),
        apply_ops(state, ops.subrange(0, i)).is_closed(),
    ensures
        apply_ops(state, ops.subrange(0, j)).is_closed(),
    decreases j - i,
{
    if i < j {
        lemma_closed_is_permanent(state, ops, i, j - 1);
        assert(ops.subrange(0, j).drop_last() == ops.subrange(0, j - 1));
    }
}

/// A proxy is closed after any run of operations that holds a shutdown.
pub proof fn lemma_closed_after_close(state: ProxyStateView, ops: Seq<ProxyOp>, i: int)
    requires
        0 <= i < ops.len(),
        ops[i] == ProxyOp::Close,
    ensures
        apply_ops(state, ops).is_closed(),
{
    assert(ops.subrange(0, i + 1).drop_last() == ops.subrange(0, i));
    lemma_closed_is_permanent(state, ops, i + 1, ops.len() as int);
    assert(ops.subrange(0, ops.len() as int) == ops);
}

/// A proxy that was started by this crate is never online, whatever is done
/// to it afterwards: it starts with the flag unset, and no operation sets it.
pub proof fn lemma_started_proxy_is_never_online(
    config: ConfigView,
    proxy_addr: BindAddress,
    admin_addr: BindAddress,
    ops: Seq<ProxyOp>,
)
    ensures
        !apply_ops(ProxyStateView::initial(config, proxy_addr, admin_addr), ops).is_online(),
{
    lemma_operations_change_only_closed(
        ProxyStateView::initial(config, proxy_addr, admin_addr),
        ops,
    );
}

/// Serving a closed proxy is over at once: the first step returns to the
/// caller, asks for no socket, and leaves the proxy as it was.
pub proof fn lemma_closed_short_circuits_serving(state: ProxyStateView)
    requires
        state.is_closed(),
    ensures
        serve_step(state, ServePhase::Idle, ServeEvent::Invoked) == (
            state,
            ServePhase::Finished,
            ServeAction::Return,
        ),
{
}

/// A failed accept costs nothing but the connection it was about: the proxy
/// is left as it was, not closed by it, the call goes on accepting, and the
/// connection accepted next is answered with `Spawn`.
pub proof fn lemma_failed_accept_keeps_serving(state: ProxyStateView)
    ensures
        serve_step(state, ServePhase::Accepting, ServeEvent::Listener(ListenerEvent::AcceptFailed))
            == (state, ServePhase::Accepting, ServeAction::Accept),
        serve_step(state, ServePhase::Accepting, ServeEvent::Listener(ListenerEvent::Accepted))
            == (state, ServePhase::Accepting, ServeAction::Spawn),
{
}

/// A serving call changes the proxy in one way only: it closes it, when the
/// listening socket itself fails while the call is accepting. Every other
/// step leaves the proxy as it was.
pub proof fn lemma_only_listener_failure_closes(
    state: ProxyStateView,
    phase: ServePhase,
    event: ServeEvent,
)
    ensures
        serve_step(state, phase, event).0 == (if phase == ServePhase::Accepting && event
            == ServeEvent::Listener(ListenerEvent::ListenerFailed) {
            state.close()
        } else {
            state
        }),
{
}

/// A serving call on a closed proxy never asks for a socket to be bound, for
/// a connection to be accepted or for a handler to be started, whatever the
/// driver reports and however long it goes on: every answer is `Return` or
/// `Reject`, and the proxy is left as it was.
pub proof fn lemma_closed_proxy_binds_nothing(state: ProxyStateView, events: Seq<ServeEvent>)
    requires
        state.is_closed(),
    ensures
        serve_run(state, ServePhase::Idle, events).0 == state,
        serve_run(state, ServePhase::Idle, events).1 == ServePhase::Idle || serve_run(
            state,
            ServePhase::Idle,
            events,
        ).1 == ServePhase::Finished,
        serve_run(state, ServePhase::Idle, events).2.len() == events.len(),
        forall|k: int|
            0 <= k < events.len() ==> {
                let action = #[trigger] serve_run(state, ServePhase::Idle, events).2[k];
                action == ServeAction::Return || action == ServeAction::Reject
            },
    decreases events.len(),
{
    if events.len() > 0 {
        lemma_closed_proxy_binds_nothing(state, events.drop_last());
    }
}

/// A proxy: its lifecycle record, and the operations on it.
#[derive(Debug)]
pub struct Proxy {
    state: ProxyState,
}

impl View for Proxy {
    type V = ProxyStateView;

    closed spec fn view(&self) -> ProxyStateView {
        self.state@
    }
}

impl Proxy {
    /// Builds a proxy from a configuration and from what resolving its two
    /// addresses gave, `None` standing for an address that is not one.
    ///
    /// Fails with the error of the first address that did not resolve, the
    /// proxy-facing one first. Otherwise the proxy is in its initial state:
    /// not online, not closed, with an empty credential.
    pub fn startup(
        config: Config,
        proxy_addr: Option<BindAddress>,
        admin_addr: Option<BindAddress>,
    ) -> (result: Result<Proxy, StartupError>)
        ensures
            match startup_result(config@, proxy_addr, admin_addr) {
                Ok(state) => result is Ok && result->Ok_0@ == state,
                Err(error) => result == Err::<Proxy, StartupError>(error),
            },
    {
        let proxy_bind_address = match proxy_addr {
            Some(address) => address,
            None => {
                return Err(StartupError::MalformedProxyAddress);
            },
        };
        let admin_bind_address = match admin_addr {
            Some(address) => address,
            None => {
                return Err(StartupError::MalformedAdminAddress);
            },
        };
        Ok(Proxy { state: ProxyState::new(config, proxy_bind_address, admin_bind_address) })
    }

    /// The lifecycle record of the proxy.
    pub fn state(&self) -> (state: &ProxyState)
        ensures
            state@ == self@,
    {
        &self.state
    }

    /// Whether the proxy is serviceable: flagged online and not closed.
    pub fn is_online(&self) -> (online: bool)
        ensures
            online == self@.is_online(),
    {
        self.state.is_online()
    }

    /// Whether the proxy has been shut down.
    pub fn is_closed(&self) -> (closed: bool)
        ensures
            closed == self@.is_closed(),
    {
        self.state.is_closed()
    }

    /// Shuts the proxy down. On a closed proxy this changes nothing.
    pub fn close(&mut self)
        ensures
            final(self)@ == old(self)@.close(),
    {
        self.state.close();
    }

    /// Advances a serving call by one event.
    ///
    /// A call starts in `Idle` with `Invoked`. On a closed proxy it is over at
    /// once, with `Return`, and nothing is bound. Otherwise the driver is
    /// asked to bind the proxy-facing address, and the accept loop decides
    /// from there; see [`listen`]. When the loop fails to bind, the call ends
    /// with `Fail` and the proxy is left as it was. A failed accept leaves
    /// the proxy as it was and the call accepting. When the listening socket
    /// itself fails, the loop exits, the proxy is closed and the call ends
    /// with `Return`. An event that does not belong to the phase is answered
    /// with `Reject` and changes nothing.
    pub fn serve_proxy(&mut self, phase: ServePhase, event: ServeEvent) -> (next: (
        ServePhase,
        ServeAction,
    ))
        ensures
            (final(self)@, next.0, next.1) == serve_step(old(self)@, phase, event),
    {
        match self.serve_proxy_shared(phase, event) {
            Some(next) => next,
            None => {
                self.state.close();
                (ServePhase::Finished, ServeAction::Return)
            },
        }
    }

    /// Advances a serving call by one event where that leaves the proxy as it
    /// is, and says so where it does not.
    ///
    /// The result is the step that [`Proxy::serve_proxy`] takes on the same
    /// arguments, whenever that step does not change the proxy; a shared
    /// reference is enough for it. It is `None` for the one step that does:
    /// the exit of the accept loop on a proxy that is not yet closed.
    pub fn serve_proxy_shared(&self, phase: ServePhase, event: ServeEvent) -> (next: Option<
        (ServePhase, ServeAction),
    >)
        ensures
            next == (if serve_step(self@, phase, event).0 == self@ {
                Some((serve_step(self@, phase, event).1, serve_step(self@, phase, event).2))
            } else {
                None
            }),
    {
        match event {
            ServeEvent::Invoked => match phase {
                ServePhase::Idle => {
                    if self.state.is_closed() {
                        Some((ServePhase::Finished, ServeAction::Return))
                    } else {
                        Some(
                            (
                                ServePhase::Binding,
                                ServeAction::Bind(self.state.proxy_bind_address()),
                            ),
                        )
                    }
                },
                _ => Some((phase, ServeAction::Reject)),
            },
            ServeEvent::Listener(event) => {
                let (next, action) = listen(phase, event);
                match action {
                    ListenerAction::Accept => Some((next, ServeAction::Accept)),
                    ListenerAction::Spawn => Some((next, ServeAction::Spawn)),
                    ListenerAction::Exit => {
                        if self.state.is_closed() {
                            Some((next, ServeAction::Return))
                        } else {
                            None
                        }
                    },
                    ListenerAction::Fail => Some(
                        (next, ServeAction::Fail(StartupError::BindFailed)),
                    ),
                    ListenerAction::Reject => Some((next, ServeAction::Reject)),
                }
            },
        }
    }
}

} // verus!
