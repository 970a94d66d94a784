//! Network identity binding: turning a namespace's stored network keys into
//! node-level network configuration.
//!
//! The special case is pairing a validator's internal network with a full
//! node's VFN plane: an explicit bidirectional binding that produces two new
//! network plane values — the validator's internal plane, and the full
//! node's plane statically seeded with the validator's peer id and address —
//! instead of mutating planes in place. Discovery on both internally wired
//! planes is disabled; both sides carry the same handshake version.

use vstd::prelude::*;
use crate::BootstrapError;
use crate::genesis::{genesis_eqv, Genesis};
use crate::keys::{from_public_key, spec_address_of, AccountAddress, PublicKey};
use crate::net::{Encryption, NetworkAddress, HANDSHAKE_VERSION};
use crate::store::{SecureStore, StoreSlot, StoredValue};
use crate::waypoint::Waypoint;

verus! {

/// The network planes a node may participate in.
#[derive(Clone, Copy, Debug, PartialEq, Eq, Structural)]
pub enum NetworkPlane {
    Validator,
    Public,
    Vfn,
}

/// How a plane finds its peers.
#[derive(Clone, Copy, Debug, PartialEq, Eq, Structural)]
pub enum DiscoveryMethod {
    Gossip,
    Disabled,
}

/// The role a node plays.
#[derive(Clone, Copy, Debug, PartialEq, Eq, Structural)]
pub enum RoleType {
    Validator,
    FullNode,
}

/// What a per-node store binding is used for.
#[derive(Clone, Copy, Debug, PartialEq, Eq, Structural)]
pub enum UsageTag {
    Validator,
    FullNode,
    SafetyRules,
    Waypoint,
    PfnFullNode,
}

/// Binds one usage of one node to an isolated namespace of the secure
/// store; distinct usages point at distinct namespaces even when they share
/// a physical store.
#[derive(Debug, PartialEq, Eq)]
pub struct SecureBackend {
    pub usage: UsageTag,
    pub namespace: String,
}

impl SecureBackend {
    /// An equal copy of this binding.
    pub fn dup(&self) -> (r: SecureBackend)
        ensures
            r == *self,
    {
        SecureBackend { usage: self.usage, namespace: self.namespace.clone() }
    }
}

/// Constructs the store binding for one usage of one node.
pub fn secure_backend(ns: &String, usage: UsageTag) -> (b: SecureBackend)
    ensures
        b == (SecureBackend { usage, namespace: *ns }),
{
    SecureBackend { usage, namespace: ns.clone() }
}

/// Where a plane's identity key lives: nowhere yet, or in a named slot of a
/// namespace-scoped store binding.
#[derive(Debug, PartialEq, Eq)]
pub enum Identity {
    Unassigned,
    FromStorage { key_name: StoreSlot, account_name: StoreSlot, backend: SecureBackend },
}

impl Identity {
    /// Identity resolved through the secure store.
    pub fn from_storage(key_name: StoreSlot, account_name: StoreSlot, backend: SecureBackend) -> (r:
        Identity)
        ensures
            r == (Identity::FromStorage { key_name, account_name, backend }),
    {
        Identity::FromStorage { key_name, account_name, backend }
    }

    /// An equal copy of this identity.
    pub fn dup(&self) -> (r: Identity)
        ensures
            r == *self,
    {
        match self {
            Identity::Unassigned => Identity::Unassigned,
            Identity::FromStorage { key_name, account_name, backend } => Identity::FromStorage {
                key_name: *key_name,
                account_name: *account_name,
                backend: backend.dup(),
            },
        }
    }
}

/// A statically configured peer: its id and the address to dial.
#[derive(Clone, Copy, Debug, PartialEq, Eq, Structural)]
pub struct SeedPeer {
    pub peer_id: AccountAddress,
    pub address: NetworkAddress,
}

/// The configuration of one network plane of one node.
#[derive(Debug)]
pub struct NetworkConfig {
    pub network_id: NetworkPlane,
    pub listen_address: NetworkAddress,
    pub discovery_method: DiscoveryMethod,
    pub mutual_authentication: bool,
    pub identity: Identity,
    pub seed_peers: Vec<SeedPeer>,
}

/// Field-for-field equality of two plane configurations.
pub open spec fn net_cfg_eqv(a: NetworkConfig, b: NetworkConfig) -> bool {
    &&& a.network_id == b.network_id
    &&& a.listen_address == b.listen_address
    &&& a.discovery_method == b.discovery_method
    &&& a.mutual_authentication == b.mutual_authentication
    &&& a.identity == b.identity
    &&& a.seed_peers@ == b.seed_peers@
}

impl NetworkConfig {
    /// A fresh plane for the given network, listening on `host:port`:
    /// dynamic discovery, no identity, no seeds.
    pub fn network_with_id(id: NetworkPlane, host: u32, port: u16) -> (c: NetworkConfig)
        ensures
            c.network_id == id,
            c.listen_address == (NetworkAddress { host, port, encryption: Encryption::Plain }),
            c.discovery_method == DiscoveryMethod::Gossip,
            c.mutual_authentication == false,
            c.identity == Identity::Unassigned,
            c.seed_peers@ == Seq::<SeedPeer>::empty(),
    {
        NetworkConfig {
            network_id: id,
            listen_address: NetworkAddress::endpoint(host, port),
            discovery_method: DiscoveryMethod::Gossip,
            mutual_authentication: false,
            identity: Identity::Unassigned,
            seed_peers: Vec::new(),
        }
    }
}

/// Where a node gets its waypoint at startup.
#[derive(Debug, PartialEq, Eq)]
pub enum WaypointConfig {
    Unset,
    FromConfig(Waypoint),
    FromStorage(SecureBackend),
}

impl WaypointConfig {
    /// An equal copy of this waypoint source.
    pub fn dup(&self) -> (r: WaypointConfig)
        ensures
            r == *self,
    {
        match self {
            WaypointConfig::Unset => WaypointConfig::Unset,
            WaypointConfig::FromConfig(w) => WaypointConfig::FromConfig(*w),
            WaypointConfig::FromStorage(b) => WaypointConfig::FromStorage(b.dup()),
        }
    }
}

/// The bootstrap-relevant configuration of one node.
#[derive(Debug)]
pub struct NodeConfig {
    pub role: RoleType,
    pub validator_network: Option<NetworkConfig>,
    pub full_node_networks: Vec<NetworkConfig>,
    pub safety_rules_backend: Option<SecureBackend>,
    pub waypoint: WaypointConfig,
    pub genesis: Option<Genesis>,
}

impl Default for NodeConfig {
    /// A blank validator-role configuration with no planes bound yet.
    fn default() -> (c: NodeConfig)
        ensures
            c.role == RoleType::Validator,
            c.validator_network is None,
            c.full_node_networks@ == Seq::<NetworkConfig>::empty(),
            c.safety_rules_backend is None,
            c.waypoint == WaypointConfig::Unset,
            c.genesis is None,
    {
        NodeConfig {
            role: RoleType::Validator,
            validator_network: None,
            full_node_networks: Vec::new(),
            safety_rules_backend: None,
            waypoint: WaypointConfig::Unset,
            genesis: None,
        }
    }
}

/// Pairs a validator's internal network with a full node's VFN plane.
///
/// The validator's single public full-node plane is handed over to the full
/// node (that is the plane clients connect to) and replaced by a new
/// internal VFN plane listening on `v_vfn_port`, whose identity is resolved
/// from the validator's namespace. The returned full-node configuration
/// carries its own VFN plane on `fn_vfn_port`, statically seeded — discovery
/// disabled on both sides — with the validator's peer id and its VFN listen
/// address extended by the validator's public key and the shared handshake
/// version; it inherits the validator's waypoint source and genesis and runs
/// in the full-node role.
pub fn attach_validator_full_node(
    store: &SecureStore,
    validator_config: &mut NodeConfig,
    ns: &String,
    v_vfn_port: u16,
    fn_vfn_port: u16,
) -> (r: Result<NodeConfig, BootstrapError>)
    requires
        old(validator_config).full_node_networks@.len() == 1,
    ensures
        match store.lookup(ns@, StoreSlot::FullNodeNetworkKey) {
            Some(StoredValue::KeyPair(sk)) => {
                let pk = sk.spec_public_key();
                let v_listen = NetworkAddress {
                    host: 0,
                    port: v_vfn_port,
                    encryption: Encryption::Plain,
                };
                &&& r matches Ok(fnc) && {
                    &&& fnc.role == RoleType::FullNode
                    &&& fnc.validator_network is None
                    &&& fnc.safety_rules_backend is None
                    &&& fnc.full_node_networks@.len() == 2
                    &&& fnc.full_node_networks@[0].network_id == NetworkPlane::Vfn
                    &&& fnc.full_node_networks@[0].discovery_method == DiscoveryMethod::Disabled
                    &&& fnc.full_node_networks@[0].listen_address == (NetworkAddress {
                        host: 0,
                        port: fn_vfn_port,
                        encryption: Encryption::Plain,
                    })
                    &&& fnc.full_node_networks@[0].identity == Identity::Unassigned
                    &&& fnc.full_node_networks@[0].seed_peers@ == seq![
                        SeedPeer {
                            peer_id: spec_address_of(pk),
                            address: NetworkAddress {
                                host: 0,
                                port: v_vfn_port,
                                encryption: Encryption::Noise {
                                    key: pk,
                                    handshake: HANDSHAKE_VERSION,
                                },
                            },
                        },
                    ]
                    &&& net_cfg_eqv(
                        fnc.full_node_networks@[1],
                        old(validator_config).full_node_networks@[0],
                    )
                    &&& fnc.waypoint == old(validator_config).waypoint
                    &&& match old(validator_config).genesis {
                        Some(g) => fnc.genesis matches Some(g2) && genesis_eqv(g2, g),
                        None => fnc.genesis is None,
                    }
                }
                &&& final(validator_config).full_node_networks@.len() == 1
                &&& final(validator_config).full_node_networks@[0].network_id == NetworkPlane::Vfn
                &&& final(validator_config).full_node_networks@[0].discovery_method
                    == DiscoveryMethod::Disabled
                &&& final(validator_config).full_node_networks@[0].listen_address == v_listen
                &&& final(validator_config).full_node_networks@[0].seed_peers@ == Seq::<
                    SeedPeer,
                >::empty()
                &&& final(validator_config).full_node_networks@[0].identity == (
                Identity::FromStorage {
                    key_name: StoreSlot::FullNodeNetworkKey,
                    account_name: StoreSlot::OperatorAccount,
                    backend: SecureBackend { usage: UsageTag::PfnFullNode, namespace: *ns },
                })
                &&& final(validator_config).role == old(validator_config).role
                &&& final(validator_config).validator_network == old(
                    validator_config,
                ).validator_network
                &&& final(validator_config).safety_rules_backend == old(
                    validator_config,
                ).safety_rules_backend
                &&& final(validator_config).waypoint == old(validator_config).waypoint
                &&& final(validator_config).genesis == old(validator_config).genesis
            },
            Some(_) => r matches Err(BootstrapError::MalformedRecord) && *final(validator_config)
                == *old(validator_config),
            None => r matches Err(BootstrapError::NotFound) && *final(validator_config) == *old(
                validator_config,
            ),
        },
{
    let pk = match store.get(ns, StoreSlot::FullNodeNetworkKey) {
        Ok(v) => match v {
            StoredValue::KeyPair(sk) => sk.public_key(),
            _ => {
                return Err(BootstrapError::MalformedRecord);
            },
        },
        Err(_) => {
            return Err(BootstrapError::NotFound);
        },
    };
    // The validator's new internal VFN plane, identity resolved from its own
    // namespace.
    let mut v_vfn = NetworkConfig::network_with_id(NetworkPlane::Vfn, 0, v_vfn_port);
    v_vfn.discovery_method = DiscoveryMethod::Disabled;
    v_vfn.identity = Identity::from_storage(
        StoreSlot::FullNodeNetworkKey,
        StoreSlot::OperatorAccount,
        secure_backend(ns, UsageTag::PfnFullNode),
    );
    // The seed entry the dialing side needs: the listener's peer id, and its
    // listen address extended with key and handshake version.
    let seed_address = v_vfn.listen_address.append_prod_protos(pk, HANDSHAKE_VERSION);
    let peer_id = from_public_key(&pk);
    // The full node's own VFN plane, statically wired to the validator.
    let mut fn_vfn = NetworkConfig::network_with_id(NetworkPlane::Vfn, 0, fn_vfn_port);
    fn_vfn.discovery_method = DiscoveryMethod::Disabled;
    fn_vfn.seed_peers.push(SeedPeer { peer_id, address: seed_address });
    // Hand the validator's public plane over and bind its internal plane.
    let pfn = match validator_config.full_node_networks.pop() {
        Some(c) => c,
        None => {
            return Err(BootstrapError::MalformedRecord);
        },
    };
    validator_config.full_node_networks.push(v_vfn);
    let mut full_node_networks: Vec<NetworkConfig> = Vec::new();
    full_node_networks.push(fn_vfn);
    full_node_networks.push(pfn);
    let fnc = NodeConfig {
        role: RoleType::FullNode,
        validator_network: None,
        full_node_networks,
        safety_rules_backend: None,
        waypoint: validator_config.waypoint.dup(),
        genesis: match &validator_config.genesis {
            Some(g) => Some(g.dup()),
            None => None,
        },
    };
    Ok(fnc)
}

} // verus!
