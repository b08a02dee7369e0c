//! The node's command line and the listening address that it asks for.

use vstd::prelude::*;
use vstd::string::StringExecFns;
use crate::text::{append_decimal, decimal_text};
use crate::peers::{multiaddr_from_text, multiaddr_parse};
use libp2p::Multiaddr;

verus! {

/// The node's command line.
pub struct Cli {
    /// The file holding the node's key pair.
    pub key_file: Option<String>,
    /// The multiaddresses of the nodes to join through.
    pub bootstrap_nodes: Option<Vec<String>>,
    /// The address to listen on, whole.
    pub multiaddr: Option<String>,
    /// The IPv4 address to listen on, with `port`.
    pub ip: Option<String>,
    /// The TCP port to listen on.
    pub port: Option<u16>,
    /// The port of the REST API.
    pub rpc_port: u16,
}

/// The text of the address a node listens on: the multiaddress given, or
/// the TCP port on the IPv4 address given (the loopback address by default).
pub open spec fn listen_address_text(multiaddr: Option<Seq<char>>, ip: Option<Seq<char>>, port: Option<u16>) -> Seq<char> {
    match multiaddr {
        Some(m) => m,
        None => {
            let ip_text = match ip {
                Some(i) => i,
                None => "127.0.0.1"@,
            };
            "/ip4/"@ + ip_text + "/tcp/"@ + decimal_text(port->Some_0 as nat)
        },
    }
}

/// The view of an optional string.
pub open spec fn opt_text(s: Option<String>) -> Option<Seq<char>> {
    match s {
        Some(t) => Some(t@),
        None => None,
    }
}

impl Cli {
    /// The text of the address to listen on. Exactly one of a multiaddress
    /// and a port must be given.
    pub fn listen_address(&self) -> (r: String)
        requires
            self.multiaddr is Some != self.port is Some,
        ensures
            r@ == listen_address_text(opt_text(self.multiaddr), opt_text(self.ip), self.port),
    {
        match &self.multiaddr {
            Some(m) => m.clone(),
            None => {
                let port = match self.port {
                    Some(p) => p,
                    None => 0,
                };
                let mut s = String::from_str("/ip4/");
                match &self.ip {
                    Some(ip) => s.append(ip.as_str()),
                    None => s.append("127.0.0.1"),
                }
                s.append("/tcp/");
                append_decimal(&mut s, port as u64);
                assert(s@ =~= listen_address_text(opt_text(self.multiaddr), opt_text(self.ip), self.port));
                s
            },
        }
    }

    /// The address to listen on, parsed; `None` when its text is no
    /// multiaddress. Exactly one of a multiaddress and a port must be given.
    pub fn listen_multiaddr(&self) -> (r: Option<Multiaddr>)
        requires
            self.multiaddr is Some != self.port is Some,
        ensures
            r == multiaddr_parse(listen_address_text(opt_text(self.multiaddr), opt_text(self.ip), self.port)),
    {
        let text = self.listen_address();
        multiaddr_from_text(text.as_str())
    }
}

} // verus!
