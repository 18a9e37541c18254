//! The service's configuration and the listener that carries it.

use crate::text::{decimal_digits, push_decimal};
use vstd::prelude::*;
use vstd::string::StringExecFns;

verus! {

/// The port the game server listens on unless configured otherwise.
pub const DEFAULT_PORT: u16 = 27015;

/// Configuration of the service.
#[derive(Clone, Debug)]
pub struct PluginConfig {
    /// Port of the HTTP and WebSocket listener.
    pub http_port: u16,
    /// Port of the game server on this machine.
    pub game_port: u16,
    /// Public address announced for NAT traversal, if any.
    pub public_ip: Option<String>,
}

impl Default for PluginConfig {
    /// Both ports at the game's default port, no public address.
    fn default() -> (c: Self)
        ensures
            c.http_port == DEFAULT_PORT,
            c.game_port == DEFAULT_PORT,
            c.public_ip is None,
    {
        PluginConfig { http_port: DEFAULT_PORT, game_port: DEFAULT_PORT, public_ip: None }
    }
}

/// The address of the game server: the loopback address and its port.
pub open spec fn server_addr_text(port: u16) -> Seq<char> {
    "127.0.0.1:"@ + decimal_digits(port as nat)
}

impl PluginConfig {
    /// The address the bridge's UDP socket connects to.
    pub fn game_server_addr(&self) -> (r: String)
        ensures
            r@ == server_addr_text(self.game_port),
    {
        let mut r = String::from_str("127.0.0.1:");
        push_decimal(&mut r, self.game_port as u64);
        r
    }
}

/// The HTTP and WebSocket listener, with the configuration it serves under.
pub struct Server {
    config: PluginConfig,
}

impl Server {
    /// A listener for this configuration.
    pub fn new(config: PluginConfig) -> (s: Self)
        ensures
            s.spec_config() == config,
    {
        Server { config }
    }

    pub closed spec fn spec_config(&self) -> PluginConfig {
        self.config
    }

    pub fn config(&self) -> (r: &PluginConfig)
        ensures
            *r == self.spec_config(),
    {
        &self.config
    }
}

} // verus!
