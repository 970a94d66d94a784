//! One input per error kind: each failure mode of the protocol is reachable
//! and names what went wrong.

use genesis_bootstrap::binder::attach_validator_full_node;
use genesis_bootstrap::binder::NodeConfig;
use genesis_bootstrap::binder::{NetworkConfig, NetworkPlane};
use genesis_bootstrap::custody::{export_private_key, generate_account_key, submit_validator_config};
use genesis_bootstrap::genesis::assemble;
use genesis_bootstrap::keys::from_public_key;
use genesis_bootstrap::layout::{publish, read, Layout};
use genesis_bootstrap::net::NetworkAddress;
use genesis_bootstrap::store::{SecureStore, StoreSlot};
use genesis_bootstrap::waypoint::{create_waypoint, insert_waypoint};
use genesis_bootstrap::BootstrapError;

#[test]
fn read_layout_not_found() {
    let store = SecureStore::new();
    let common = "common".to_string();
    assert_eq!(read(&store, &common).unwrap_err(), BootstrapError::NotFound);
}

#[test]
fn read_layout_rejects_empty_association() {
    let mut store = SecureStore::new();
    let common = "common".to_string();
    let layout = Layout { association: vec![], operators: vec!["0_shared".to_string()] };
    publish(&mut store, &common, layout);
    assert_eq!(read(&store, &common).unwrap_err(), BootstrapError::ParseError);
}

#[test]
fn read_layout_rejects_duplicate_operators() {
    let mut store = SecureStore::new();
    let common = "common".to_string();
    let layout = Layout {
        association: vec!["association_shared".to_string()],
        operators: vec!["0_shared".to_string(), "0_shared".to_string()],
    };
    publish(&mut store, &common, layout);
    assert_eq!(read(&store, &common).unwrap_err(), BootstrapError::ParseError);
}

#[test]
fn assemble_requires_association_key() {
    let mut store = SecureStore::new();
    let common = "common".to_string();
    let layout = Layout {
        association: vec!["association_shared".to_string()],
        operators: vec![],
    };
    publish(&mut store, &common, layout);
    let l = read(&store, &common).unwrap();
    assert_eq!(assemble(l, &store).unwrap_err(), BootstrapError::NotFound);
}

#[test]
fn assemble_names_the_operator_that_did_not_submit() {
    let mut store = SecureStore::new();
    let common = "common".to_string();
    let assoc_shared = "association_shared".to_string();
    generate_account_key(&mut store, &"association".to_string(), &assoc_shared).unwrap();
    let layout = Layout {
        association: vec![assoc_shared],
        operators: vec!["0_shared".to_string(), "1_shared".to_string()],
    };
    publish(&mut store, &common, layout);
    let key = generate_account_key(&mut store, &"0".to_string(), &"0_shared".to_string()).unwrap();
    submit_validator_config(
        &mut store,
        from_public_key(&key),
        NetworkAddress::endpoint(0, 1),
        NetworkAddress::endpoint(0, 2),
        &"0_shared".to_string(),
    )
    .unwrap();
    let l = read(&store, &common).unwrap();
    assert_eq!(
        assemble(l, &store).unwrap_err(),
        BootstrapError::IncompleteSubmission("1_shared".to_string())
    );
}

#[test]
fn assemble_rejects_duplicate_accounts() {
    let mut store = SecureStore::new();
    let common = "common".to_string();
    let assoc_shared = "association_shared".to_string();
    generate_account_key(&mut store, &"association".to_string(), &assoc_shared).unwrap();
    let layout = Layout {
        association: vec![assoc_shared],
        operators: vec!["0_shared".to_string(), "1_shared".to_string()],
    };
    publish(&mut store, &common, layout);
    // Both operators submit the same account address.
    let key = generate_account_key(&mut store, &"0".to_string(), &"0_shared".to_string()).unwrap();
    let account = from_public_key(&key);
    for shared in ["0_shared", "1_shared"] {
        submit_validator_config(
            &mut store,
            account,
            NetworkAddress::endpoint(0, 1),
            NetworkAddress::endpoint(0, 2),
            &shared.to_string(),
        )
        .unwrap();
    }
    let l = read(&store, &common).unwrap();
    assert_eq!(assemble(l, &store).unwrap_err(), BootstrapError::DuplicateAccount);
}

#[test]
fn export_private_key_failures() {
    let mut store = SecureStore::new();
    let ns = "op".to_string();
    assert_eq!(
        export_private_key(&store, &ns, StoreSlot::AccountKey).unwrap_err(),
        BootstrapError::NotFound
    );
    // The slot exists but holds public material, not a keypair.
    generate_account_key(&mut store, &ns, &"op_shared".to_string()).unwrap();
    assert_eq!(
        export_private_key(&store, &"op_shared".to_string(), StoreSlot::AccountKey).unwrap_err(),
        BootstrapError::MalformedRecord
    );
}

#[test]
fn create_waypoint_needs_a_layout() {
    let mut store = SecureStore::new();
    let common = "common".to_string();
    assert_eq!(create_waypoint(&mut store, &common).unwrap_err(), BootstrapError::NotFound);
}

#[test]
fn insert_waypoint_needs_a_published_waypoint() {
    let mut store = SecureStore::new();
    assert_eq!(
        insert_waypoint(&mut store, &"0".to_string(), &"common".to_string()).unwrap_err(),
        BootstrapError::NotFound
    );
}

#[test]
fn attach_needs_the_full_node_network_key() {
    let store = SecureStore::new();
    let mut validator_config = NodeConfig::default();
    validator_config
        .full_node_networks
        .push(NetworkConfig::network_with_id(NetworkPlane::Public, 0, 6280));
    assert_eq!(
        attach_validator_full_node(&store, &mut validator_config, &"0".to_string(), 7180, 7280)
            .unwrap_err(),
        BootstrapError::NotFound
    );
}
