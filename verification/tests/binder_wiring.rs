//! The validator-to-full-node VFN wiring: symmetric, statically seeded,
//! discovery disabled on both internally wired planes.

use genesis_bootstrap::binder::{
    attach_validator_full_node, DiscoveryMethod, NetworkConfig, NetworkPlane, NodeConfig,
    RoleType, WaypointConfig,
};
use genesis_bootstrap::custody::{generate_network_keys, NetworkUsage};
use genesis_bootstrap::keys::from_public_key;
use genesis_bootstrap::net::{Encryption, HANDSHAKE_VERSION};
use genesis_bootstrap::store::SecureStore;
use genesis_bootstrap::waypoint::Waypoint;

#[test]
fn attach_wires_the_two_vfn_planes_symmetrically() {
    let mut store = SecureStore::new();
    let ns = "0".to_string();
    let vfn_key = generate_network_keys(&mut store, &ns, NetworkUsage::FullNodeNetwork).unwrap();

    let mut validator_config = NodeConfig::default();
    let mut pfn = NetworkConfig::network_with_id(NetworkPlane::Public, 0, 6280);
    pfn.discovery_method = DiscoveryMethod::Disabled;
    validator_config.full_node_networks.push(pfn);
    validator_config.waypoint = WaypointConfig::FromConfig(Waypoint { version: 0, root_hash: 42 });

    let full_node_config =
        attach_validator_full_node(&store, &mut validator_config, &ns, 7180, 7280).unwrap();

    // The validator's public plane was replaced by one internal VFN plane.
    assert_eq!(validator_config.full_node_networks.len(), 1);
    let v_vfn = &validator_config.full_node_networks[0];
    assert_eq!(v_vfn.network_id, NetworkPlane::Vfn);
    assert_eq!(v_vfn.discovery_method, DiscoveryMethod::Disabled);
    assert_eq!(v_vfn.listen_address.port, 7180);

    // The full node runs in the full-node role, carries its own VFN plane
    // first and the validator's former public plane second.
    assert_eq!(full_node_config.role, RoleType::FullNode);
    assert_eq!(full_node_config.full_node_networks.len(), 2);
    let fn_vfn = &full_node_config.full_node_networks[0];
    assert_eq!(fn_vfn.network_id, NetworkPlane::Vfn);
    assert_eq!(fn_vfn.discovery_method, DiscoveryMethod::Disabled);
    assert_eq!(full_node_config.full_node_networks[1].network_id, NetworkPlane::Public);
    assert_eq!(full_node_config.full_node_networks[1].listen_address.port, 6280);

    // The dialer is seeded with the listener's peer id and its address
    // extended by the listener's key and the shared handshake version.
    assert_eq!(fn_vfn.seed_peers.len(), 1);
    let seed = fn_vfn.seed_peers[0];
    assert_eq!(seed.peer_id, from_public_key(&vfn_key));
    assert_eq!(seed.address.port, 7180);
    assert_eq!(
        seed.address.encryption,
        Encryption::Noise { key: vfn_key, handshake: HANDSHAKE_VERSION }
    );
    // The listener side needs no seed of its own.
    assert_eq!(v_vfn.seed_peers.len(), 0);

    // Waypoint source and genesis travel with the full node.
    assert_eq!(
        full_node_config.waypoint,
        WaypointConfig::FromConfig(Waypoint { version: 0, root_hash: 42 })
    );
    assert!(full_node_config.genesis.is_none());
}
