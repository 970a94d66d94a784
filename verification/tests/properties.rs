//! Scenario tests for the protocol's central properties: deterministic
//! assembly, idempotent key generation, verification soundness, waypoint
//! agreement and the bounded connectivity check.

use genesis_bootstrap::connectivity::{check_connectivity, connectivity_status, NodePolls};
use genesis_bootstrap::custody::{generate_account_key, generate_network_keys, initialize, submit_validator_config, NetworkUsage};
use genesis_bootstrap::genesis::{assemble, Genesis};
use genesis_bootstrap::keys::{from_public_key, PublicKey};
use genesis_bootstrap::layout::{publish, read, Layout};
use genesis_bootstrap::net::NetworkAddress;
use genesis_bootstrap::store::SecureStore;
use genesis_bootstrap::verification::verify;
use genesis_bootstrap::waypoint::{compute_waypoint, create_waypoint, insert_waypoint, Waypoint};
use genesis_bootstrap::BootstrapError;

/// Builds a store with a published layout, generated keys and submitted
/// records for `n` operators; returns the store and the common namespace.
fn bootstrap_round(n: usize) -> (SecureStore, String) {
    let mut store = SecureStore::new();
    let common = "common".to_string();
    let association = "association".to_string();
    let association_shared = "association_shared".to_string();
    let layout = Layout {
        association: vec![association_shared.clone()],
        operators: (0..n).map(|v| format!("{}_shared", v)).collect(),
    };
    publish(&mut store, &common, layout);
    initialize(&mut store, &association).unwrap();
    generate_account_key(&mut store, &association, &association_shared).unwrap();
    for i in 0..n {
        let ns = i.to_string();
        let ns_shared = format!("{}_shared", i);
        initialize(&mut store, &ns).unwrap();
        let key = generate_account_key(&mut store, &ns, &ns_shared).unwrap();
        generate_network_keys(&mut store, &ns, NetworkUsage::ValidatorNetwork).unwrap();
        generate_network_keys(&mut store, &ns, NetworkUsage::FullNodeNetwork).unwrap();
        let account = from_public_key(&key);
        let vaddr = NetworkAddress::endpoint(0, 6000 + i as u16);
        let faddr = NetworkAddress::endpoint(0, 7000 + i as u16);
        submit_validator_config(&mut store, account, vaddr, faddr, &ns_shared).unwrap();
    }
    (store, common)
}

#[test]
fn assemble_is_deterministic_across_invocations() {
    let (store, common) = bootstrap_round(3);
    let layout = read(&store, &common).unwrap();
    let g1 = assemble(layout, &store).unwrap();
    let g2 = assemble(layout, &store).unwrap();
    assert_eq!(g1, g2);
    // An independent caller reading the same published state converges on
    // the same genesis, word for word.
    let layout_again = read(&store, &common).unwrap();
    let g3 = assemble(layout_again, &store).unwrap();
    assert_eq!(g1, g3);
    assert_eq!(compute_waypoint(&g1), compute_waypoint(&g3));
}

#[test]
fn assemble_orders_by_account_not_layout_order() {
    // Two rounds that publish the same records under operator lists in
    // different orders produce the same validator set.
    let mut s1 = SecureStore::new();
    let mut s2 = SecureStore::new();
    let common = "common".to_string();
    let assoc_shared = "association_shared".to_string();
    for s in [&mut s1, &mut s2] {
        generate_account_key(s, &"association".to_string(), &assoc_shared).unwrap();
    }
    let l1 = Layout {
        association: vec![assoc_shared.clone()],
        operators: vec!["a_shared".to_string(), "b_shared".to_string()],
    };
    let l2 = Layout {
        association: vec![assoc_shared.clone()],
        operators: vec!["b_shared".to_string(), "a_shared".to_string()],
    };
    publish(&mut s1, &common, l1);
    publish(&mut s2, &common, l2);
    for s in [&mut s1, &mut s2] {
        let ka = generate_account_key(s, &"a".to_string(), &"a_shared".to_string()).unwrap();
        let kb = generate_account_key(s, &"b".to_string(), &"b_shared".to_string()).unwrap();
        submit_validator_config(
            s,
            from_public_key(&ka),
            NetworkAddress::endpoint(0, 1),
            NetworkAddress::endpoint(0, 2),
            &"a_shared".to_string(),
        )
        .unwrap();
        submit_validator_config(
            s,
            from_public_key(&kb),
            NetworkAddress::endpoint(0, 3),
            NetworkAddress::endpoint(0, 4),
            &"b_shared".to_string(),
        )
        .unwrap();
    }
    let g1 = assemble(read(&s1, &common).unwrap(), &s1).unwrap();
    let g2 = assemble(read(&s2, &common).unwrap(), &s2).unwrap();
    assert_eq!(g1.validators, g2.validators);
}

#[test]
fn key_generation_is_idempotent() {
    let mut store = SecureStore::new();
    let ns = "op".to_string();
    let shared = "op_shared".to_string();
    let first = generate_account_key(&mut store, &ns, &shared).unwrap();
    let seed_after_first = store.next_seed;
    let second = generate_account_key(&mut store, &ns, &shared).unwrap();
    assert_eq!(first, second);
    // No second private key was created.
    assert_eq!(store.next_seed, seed_after_first);

    let n1 = generate_network_keys(&mut store, &ns, NetworkUsage::ValidatorNetwork).unwrap();
    let seed_after_net = store.next_seed;
    let n2 = generate_network_keys(&mut store, &ns, NetworkUsage::ValidatorNetwork).unwrap();
    assert_eq!(n1, n2);
    assert_eq!(store.next_seed, seed_after_net);
    // Distinct usage tags yield distinct keys in the same namespace.
    let n3 = generate_network_keys(&mut store, &ns, NetworkUsage::FullNodeNetwork).unwrap();
    assert_ne!(n1, n3);
}

#[test]
fn verification_full_match_iff_same_genesis() {
    let (store, common) = bootstrap_round(3);
    let layout = read(&store, &common).unwrap();
    let genesis = assemble(layout, &store).unwrap();
    let report = verify(layout, &store, &genesis).unwrap();
    assert!(report.full_match());
    assert_eq!(
        report.render(),
        "association key: match\nvalidator accounts: match\nvalidator network addresses: match\nfull node network addresses: match\n"
    );
}

#[test]
fn verification_attributes_a_single_mutated_address() {
    let (store, common) = bootstrap_round(3);
    let layout = read(&store, &common).unwrap();
    let mut candidate = assemble(layout, &store).unwrap();
    candidate.validators[1].validator_network_address = NetworkAddress::endpoint(0, 9999);
    let report = verify(layout, &store, &candidate).unwrap();
    assert!(report.association_key_match);
    assert!(report.accounts_match);
    assert!(!report.validator_addresses_match);
    assert!(report.full_node_addresses_match);
    assert!(!report.full_match());
    // Exactly one field differs in the rendered report.
    let output = report.render();
    assert_eq!(output.split("match").count(), 4);
    assert_eq!(output.split("different").count(), 2);
}

#[test]
fn waypoint_agreement_across_nodes() {
    let (mut store, common) = bootstrap_round(4);
    let layout = read(&store, &common).unwrap().dup();
    let published = create_waypoint(&mut store, &common).unwrap();
    for i in 0..4usize {
        let ns = i.to_string();
        // The node copies the published waypoint ...
        let copied = insert_waypoint(&mut store, &ns, &common).unwrap();
        assert_eq!(copied, published);
        // ... and its own re-derivation from the shared state agrees.
        let genesis = assemble(&layout, &store).unwrap();
        assert_eq!(compute_waypoint(&genesis), published);
    }
}

#[test]
fn waypoint_digest_matches_reference_fold() {
    let (store, common) = bootstrap_round(2);
    let layout = read(&store, &common).unwrap();
    let genesis = assemble(layout, &store).unwrap();
    let w = compute_waypoint(&genesis);
    assert_eq!(w.version, 0);
    // Reference fold over the canonical words: header, then per record its
    // account and two five-word addresses.
    let mut words: Vec<u64> = vec![genesis.association_key.id, genesis.validators.len() as u64];
    for r in &genesis.validators {
        words.push(r.account.value);
        for a in [r.validator_network_address, r.full_node_network_address] {
            words.push(a.host as u64);
            words.push(a.port as u64);
            words.push(0);
            words.push(0);
            words.push(0);
        }
    }
    let mut h: u64 = 0xcbf29ce484222325;
    for w in words {
        h = (h ^ w).wrapping_mul(0x100000001b3);
    }
    assert_eq!(w.root_hash, h);
}

#[test]
fn waypoint_of_trivial_genesis_is_fixed() {
    // A genesis with key id 0 and no validators encodes as two zero words;
    // its digest is a fixed constant, the same on every machine.
    let g = Genesis { association_key: PublicKey { id: 0 }, validators: Vec::new() };
    assert_eq!(
        compute_waypoint(&g),
        Waypoint { version: 0, root_hash: 0x8328807b4eb6fed }
    );
}

#[test]
fn connectivity_succeeds_within_budget() {
    // Convergence exactly at the last attempt inside the budget.
    let mut late = vec![0u64; 60];
    late[59] = 1;
    let polls = vec![NodePolls { reports: late }, NodePolls { reports: vec![1] }];
    assert!(check_connectivity(&polls, 1));
    assert!(connectivity_status(&polls, 1).is_ok());
}

#[test]
fn connectivity_fails_without_convergence() {
    // Convergence only after the budget is exhausted does not count.
    let mut too_late = vec![0u64; 61];
    too_late[60] = 1;
    let polls = vec![NodePolls { reports: too_late }];
    assert!(!check_connectivity(&polls, 1));
    // A node that never converges fails the check, with an error value, not
    // a panic.
    let polls = vec![NodePolls { reports: vec![0, 0, 0] }];
    assert!(!check_connectivity(&polls, 1));
    assert_eq!(connectivity_status(&polls, 1), Err(BootstrapError::ConnectivityTimeout));
    // No nodes at all: trivially connected.
    let polls: Vec<NodePolls> = Vec::new();
    assert!(check_connectivity(&polls, 1));
}

#[test]
fn confirm_waypoint_reports_mismatch() {
    let a = Waypoint { version: 0, root_hash: 7 };
    let b = Waypoint { version: 0, root_hash: 8 };
    assert!(genesis_bootstrap::waypoint::confirm_waypoint(a, a).is_ok());
    assert_eq!(
        genesis_bootstrap::waypoint::confirm_waypoint(a, b),
        Err(BootstrapError::WaypointMismatch)
    );
}
