//! Network addresses as the bootstrap protocol sees them: a listen endpoint,
//! optionally extended with the encryption protocols (peer public key and
//! handshake version) a dialer needs to reach it.

use vstd::prelude::*;
use crate::keys::PublicKey;

verus! {

/// Handshake protocol version shared by both ends of an internally wired link.
pub const HANDSHAKE_VERSION: u8 = 0;

/// Transport security advertised as part of an address.
#[derive(Clone, Copy, Debug, PartialEq, Eq, Structural)]
pub enum Encryption {
    /// Bare listen endpoint, no peer identity attached.
    Plain,
    /// Authenticated link: the peer's public key and the handshake version.
    Noise { key: PublicKey, handshake: u8 },
}

/// A network listen address for one plane of one node.
#[derive(Clone, Copy, Debug, PartialEq, Eq, Structural)]
pub struct NetworkAddress {
    pub host: u32,
    pub port: u16,
    pub encryption: Encryption,
}

impl NetworkAddress {
    /// A bare endpoint on `host:port`.
    pub fn endpoint(host: u32, port: u16) -> (a: NetworkAddress)
        ensures
            a == (NetworkAddress { host, port, encryption: Encryption::Plain }),
    {
        NetworkAddress { host, port, encryption: Encryption::Plain }
    }

    /// The same endpoint, extended with the production protocols a dialer
    /// needs: the listener's public key and the handshake version.
    pub fn append_prod_protos(&self, key: PublicKey, handshake: u8) -> (a: NetworkAddress)
        ensures
            a == (NetworkAddress {
                host: self.host,
                port: self.port,
                encryption: Encryption::Noise { key, handshake },
            }),
    {
        NetworkAddress { host: self.host, port: self.port, encryption: Encryption::Noise { key, handshake } }
    }
}

} // verus!
