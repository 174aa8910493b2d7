//! The configuration that a proxy is started with.

use vstd::prelude::*;

verus! {

/// A configuration snapshot: the two addresses to listen on, as the text that
/// the configuration source gave, and the rest of the configuration as bytes
/// that this crate carries and never reads.
#[derive(Debug)]
pub struct Config {
    proxy_addr: String,
    admin_addr: String,
    snapshot: Vec<u8>,
}

/// The mathematical value of a [`Config`].
pub struct ConfigView {
    pub proxy_addr: Seq<char>,
    pub admin_addr: Seq<char>,
    pub snapshot: Seq<u8>,
}

impl View for Config {
    type V = ConfigView;

    closed spec fn view(&self) -> ConfigView {
        ConfigView {
            proxy_addr: self.proxy_addr@,
            admin_addr: self.admin_addr@,
            snapshot: self.snapshot@,
        }
    }
}

impl Config {
    /// A snapshot made of the given parts.
    pub fn new(proxy_addr: String, admin_addr: String, snapshot: Vec<u8>) -> (config: Config)
        ensures
            config@ == (ConfigView {
                proxy_addr: proxy_addr@,
                admin_addr: admin_addr@,
                snapshot: snapshot@,
            }),
    {
        Config { proxy_addr, admin_addr, snapshot }
    }

    /// The text of the proxy-facing address.
    pub fn proxy_addr(&self) -> (text: &str)
        ensures
            text@ == self@.proxy_addr,
    {
        self.proxy_addr.as_str()
    }

    /// The text of the admin-facing address.
    pub fn admin_addr(&self) -> (text: &str)
        ensures
            text@ == self@.admin_addr,
    {
        self.admin_addr.as_str()
    }

    /// The bytes of the rest of the configuration.
    pub fn snapshot(&self) -> (bytes: &[u8])
        ensures
            bytes@ == self@.snapshot,
    {
        self.snapshot.as_slice()
    }
}

} // verus!
