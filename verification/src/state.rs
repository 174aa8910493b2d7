//! The lifecycle record of a proxy.
//!
//! One [`ProxyState`] exists per proxy. It is built once, from a configuration
//! and the two addresses resolved from it. After that only one thing about it
//! ever changes: `closed` goes from false to true, once, and stays.

use vstd::prelude::*;
use crate::address::BindAddress;
use crate::config::{Config, ConfigView};

verus! {

/// The record of a proxy's identity, addresses and lifecycle flags.
#[derive(Debug)]
pub struct ProxyState {
    auth_token: String,
    online: bool,
    closed: bool,
    proxy_bind_address: BindAddress,
    admin_bind_address: BindAddress,
    config: Config,
}

/// The mathematical value of a [`ProxyState`].
pub struct ProxyStateView {
    /// Credential material for the admin plane; empty in every state that this
    /// crate builds.
    pub auth_token: Seq<char>,
    /// Whether the proxy counts as actively serving, as long as it is not
    /// closed. No operation of this crate sets the flag.
    pub online: bool,
    /// Whether the proxy has been shut down. Never reverts.
    pub closed: bool,
    /// The address that the proxy listens on.
    pub proxy_bind_address: BindAddress,
    /// The address reserved for the admin plane.
    pub admin_bind_address: BindAddress,
    /// The configuration that the state was built from.
    pub config: ConfigView,
}

impl ProxyStateView {
    /// The state of a proxy that has just been built.
    pub open spec fn initial(
        config: ConfigView,
        proxy_bind_address: BindAddress,
        admin_bind_address: BindAddress,
    ) -> ProxyStateView {
        ProxyStateView {
            auth_token: Seq::empty(),
            online: false,
            closed: false,
            proxy_bind_address,
            admin_bind_address,
            config,
        }
    }

    /// Whether the proxy is serviceable: flagged online and not closed.
    pub open spec fn is_online(self) -> bool {
        self.online && !self.closed
    }

    /// Whether the proxy has been shut down.
    pub open spec fn is_closed(self) -> bool {
        self.closed
    }

    /// The state after a shutdown: closed, and otherwise as before.
    pub open spec fn close(self) -> ProxyStateView {
        ProxyStateView { closed: true, ..self }
    }
}

/// The state after `n` shutdowns in a row.
pub open spec fn close_times(state: ProxyStateView, n: nat) -> ProxyStateView
    decreases n,
{
    if n == 0 {
        state
    } else {
        close_times(state, (n - 1) as nat).close()
    }
}

/// A proxy is online exactly when it is flagged online and is not closed; an
/// online proxy is therefore never closed.
pub proof fn lemma_online_implies_not_closed(state: ProxyStateView)
    ensures
        state.is_online() == (state.online && !state.closed),
        state.is_online() ==> !state.is_closed(),
{
}

/// A shutdown leaves the proxy closed and touches nothing else; a second
/// shutdown, or one of a closed proxy, changes nothing.
pub proof fn lemma_close_is_idempotent(state: ProxyStateView)
    ensures
        state.close().is_closed(),
        !state.close().is_online(),
        state.close().close() == state.close(),
        state.is_closed() ==> state.close() == state,
        state.close() == (ProxyStateView { closed: true, ..state }),
{
}

/// Any number of shutdowns in a row, from one on, leaves the proxy in the
/// state that the first one left it in: closed.
pub proof fn lemma_one_close_is_as_good_as_many(state: ProxyStateView, n: nat)
    requires
        n >= 1,
    ensures
        close_times(state, n) == state.close(),
        close_times(state, n).is_closed(),
    decreases n,
{
    if n > 1 {
        lemma_one_close_is_as_good_as_many(state, (n - 1) as nat);
    } else {
        assert(close_times(state, 0) == state);
    }
}

impl View for ProxyState {
    type V = ProxyStateView;

    closed spec fn view(&self) -> ProxyStateView {
        ProxyStateView {
            auth_token: self.auth_token@,
            online: self.online,
            closed: self.closed,
            proxy_bind_address: self.proxy_bind_address,
            admin_bind_address: self.admin_bind_address,
            config: self.config@,
        }
    }
}

impl ProxyState {
    /// Builds the state of a proxy that has not served yet: not online, not
    /// closed, with an empty credential.
    pub fn new(
        config: Config,
        proxy_bind_address: BindAddress,
        admin_bind_address: BindAddress,
    ) -> (state: ProxyState)
        ensures
            state@ == ProxyStateView::initial(config@, proxy_bind_address, admin_bind_address),
    {
        ProxyState {
            auth_token: String::new(),
            online: false,
            closed: false,
            proxy_bind_address,
            admin_bind_address,
            config,
        }
    }

    /// Whether the proxy is serviceable: flagged online and not closed.
    pub fn is_online(&self) -> (online: bool)
        ensures
            online == self@.is_online(),
    {
        self.online && !self.closed
    }

    /// Whether the proxy has been shut down.
    pub fn is_closed(&self) -> (closed: bool)
        ensures
            closed == self@.is_closed(),
    {
        self.closed
    }

    /// Shuts the proxy down. On a closed proxy this changes nothing.
    pub fn close(&mut self)
        ensures
            final(self)@ == old(self)@.close(),
    {
        self.closed = true;
    }

    /// The address that the proxy listens on.
    pub fn proxy_bind_address(&self) -> (address: BindAddress)
        ensures
            address == self@.proxy_bind_address,
    {
        self.proxy_bind_address
    }

    /// The address reserved for the admin plane.
    pub fn admin_bind_address(&self) -> (address: BindAddress)
        ensures
            address == self@.admin_bind_address,
    {
        self.admin_bind_address
    }

    /// The credential reserved for the admin plane.
    pub fn auth_token(&self) -> (token: &str)
        ensures
            token@ == self@.auth_token,
    {
        self.auth_token.as_str()
    }

    /// The configuration that the state was built from.
    pub fn config(&self) -> (config: &Config)
        ensures
            config@ == self@.config,
    {
        &self.config
    }
}

} // verus!
