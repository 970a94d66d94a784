//! Per-namespace key custody.
//!
//! Each party owns a private namespace (signing keys only it may read) and a
//! shared namespace (the public material it publishes). Key generation is
//! idempotent: a repeat call returns the existing key and creates nothing,
//! so a crashed bootstrap run can be resumed safely.

use vstd::prelude::*;
use crate::BootstrapError;
use crate::genesis::ValidatorConfigRecord;
use crate::keys::{from_public_key, spec_address_of, AccountAddress, PrivateKey, PublicKey};
use crate::net::NetworkAddress;
use crate::store::{SecureStore, StoreSlot, StoredValue};

verus! {

/// The network plane a network identity key is scoped to.
#[derive(Clone, Copy, Debug, PartialEq, Eq, Structural)]
pub enum NetworkUsage {
    ValidatorNetwork,
    FullNodeNetwork,
}

/// The private-namespace slot a usage tag selects.
pub open spec fn spec_usage_slot(usage: NetworkUsage) -> StoreSlot {
    match usage {
        NetworkUsage::ValidatorNetwork => StoreSlot::ValidatorNetworkKey,
        NetworkUsage::FullNodeNetwork => StoreSlot::FullNodeNetworkKey,
    }
}

/// Opens (or creates) the storage handle for a namespace; idempotent.
pub fn initialize(store: &mut SecureStore, ns: &String) -> (r: Result<(), BootstrapError>)
    ensures
        r matches Ok(_),
        final(store).spec_has_namespace(ns@),
        old(store).spec_has_namespace(ns@) ==> *final(store) == *old(store),
        final(store).entries@ == old(store).entries@,
        final(store).next_seed == old(store).next_seed,
{
    store.register_namespace(ns);
    Ok(())
}

/// Creates the namespace's account signing key if absent, publishes its
/// public key into the shared namespace, and records the derived account
/// address. A repeat call returns the existing key and creates no second
/// private key.
pub fn generate_account_key(store: &mut SecureStore, ns: &String, shared_ns: &String) -> (r:
    Result<PublicKey, BootstrapError>)
    requires
        old(store).next_seed < u64::MAX,
        ns@ != shared_ns@,
    ensures
        match old(store).lookup(ns@, StoreSlot::AccountKey) {
            Some(StoredValue::KeyPair(sk)) => {
                &&& r matches Ok(pk) && pk == sk.spec_public_key()
                &&& final(store).next_seed == old(store).next_seed
                &&& final(store).lookup(ns@, StoreSlot::AccountKey) == old(store).lookup(
                    ns@,
                    StoreSlot::AccountKey,
                )
            },
            Some(_) => r matches Err(BootstrapError::MalformedRecord) && *final(store) == *old(
                store,
            ),
            None => {
                let sk = PrivateKey { seed: old(store).next_seed };
                &&& r matches Ok(pk) && pk == sk.spec_public_key()
                &&& final(store).lookup(ns@, StoreSlot::AccountKey) == Some(
                    StoredValue::KeyPair(sk),
                )
                &&& final(store).next_seed == old(store).next_seed + 1
            },
        },
        r matches Ok(pk) ==> {
            &&& final(store).lookup(shared_ns@, StoreSlot::AccountKey) == Some(
                StoredValue::PublicKeyOf(pk),
            )
            &&& final(store).lookup(ns@, StoreSlot::OperatorAccount) == Some(
                StoredValue::AddressOf(spec_address_of(pk)),
            )
            &&& forall|n: Seq<char>, k: StoreSlot|
                !((n == ns@ && (k == StoreSlot::AccountKey || k == StoreSlot::OperatorAccount))
                    || (n == shared_ns@ && k == StoreSlot::AccountKey)) ==> final(store).lookup(
                    n,
                    k,
                ) == old(store).lookup(n, k)
            &&& final(store).namespaces@ == old(store).namespaces@
        },
{
    let pk = match store.create_key(ns, StoreSlot::AccountKey) {
        Ok(pk) => pk,
        Err(e) => {
            return Err(e);
        },
    };
    let addr = from_public_key(&pk);
    store.set(shared_ns, StoreSlot::AccountKey, StoredValue::PublicKeyOf(pk));
    store.set(ns, StoreSlot::OperatorAccount, StoredValue::AddressOf(addr));
    Ok(pk)
}

/// An operator's account key: the same idempotent-create pattern as the
/// association's, in the operator's own pair of namespaces.
pub fn generate_operator_key(store: &mut SecureStore, ns: &String, shared_ns: &String) -> (r:
    Result<PublicKey, BootstrapError>)
    requires
        old(store).next_seed < u64::MAX,
        ns@ != shared_ns@,
    ensures
        match old(store).lookup(ns@, StoreSlot::AccountKey) {
            Some(StoredValue::KeyPair(sk)) => {
                &&& r matches Ok(pk) && pk == sk.spec_public_key()
                &&& final(store).next_seed == old(store).next_seed
                &&& final(store).lookup(ns@, StoreSlot::AccountKey) == old(store).lookup(
                    ns@,
                    StoreSlot::AccountKey,
                )
            },
            Some(_) => r matches Err(BootstrapError::MalformedRecord) && *final(store) == *old(
                store,
            ),
            None => {
                let sk = PrivateKey { seed: old(store).next_seed };
                &&& r matches Ok(pk) && pk == sk.spec_public_key()
                &&& final(store).lookup(ns@, StoreSlot::AccountKey) == Some(
                    StoredValue::KeyPair(sk),
                )
                &&& final(store).next_seed == old(store).next_seed + 1
            },
        },
        r matches Ok(pk) ==> {
            &&& final(store).lookup(shared_ns@, StoreSlot::AccountKey) == Some(
                StoredValue::PublicKeyOf(pk),
            )
            &&& final(store).lookup(ns@, StoreSlot::OperatorAccount) == Some(
                StoredValue::AddressOf(spec_address_of(pk)),
            )
            &&& forall|n: Seq<char>, k: StoreSlot|
                !((n == ns@ && (k == StoreSlot::AccountKey || k == StoreSlot::OperatorAccount))
                    || (n == shared_ns@ && k == StoreSlot::AccountKey)) ==> final(store).lookup(
                    n,
                    k,
                ) == old(store).lookup(n, k)
            &&& final(store).namespaces@ == old(store).namespaces@
        },
{
    generate_account_key(store, ns, shared_ns)
}

/// Creates the network identity key for the given plane if absent; same
/// idempotent-create pattern as the account key, scoped by the usage tag so
/// distinct planes' keys coexist in one namespace without collision.
pub fn generate_network_keys(store: &mut SecureStore, ns: &String, usage: NetworkUsage) -> (r:
    Result<PublicKey, BootstrapError>)
    requires
        old(store).next_seed < u64::MAX,
    ensures
        match old(store).lookup(ns@, spec_usage_slot(usage)) {
            Some(StoredValue::KeyPair(sk)) => {
                &&& r matches Ok(pk) && pk == sk.spec_public_key()
                &&& *final(store) == *old(store)
            },
            Some(_) => r matches Err(BootstrapError::MalformedRecord) && *final(store) == *old(
                store,
            ),
            None => {
                let sk = PrivateKey { seed: old(store).next_seed };
                &&& r matches Ok(pk) && pk == sk.spec_public_key()
                &&& final(store).lookup(ns@, spec_usage_slot(usage)) == Some(
                    StoredValue::KeyPair(sk),
                )
                &&& forall|n: Seq<char>, k: StoreSlot|
                    !(n == ns@ && k == spec_usage_slot(usage)) ==> final(store).lookup(n, k)
                        == old(store).lookup(n, k)
                &&& final(store).next_seed == old(store).next_seed + 1
                &&& final(store).namespaces@ == old(store).namespaces@
            },
        },
{
    let slot = match usage {
        NetworkUsage::ValidatorNetwork => StoreSlot::ValidatorNetworkKey,
        NetworkUsage::FullNodeNetwork => StoreSlot::FullNodeNetworkKey,
    };
    store.create_key(ns, slot)
}

/// Hands a single designated private key across a trust boundary; the only
/// way private material ever leaves its namespace.
pub fn export_private_key(store: &SecureStore, ns: &String, slot: StoreSlot) -> (r: Result<
    PrivateKey,
    BootstrapError,
>)
    ensures
        match store.lookup(ns@, slot) {
            Some(StoredValue::KeyPair(sk)) => r matches Ok(k) && k == sk,
            Some(_) => r matches Err(BootstrapError::MalformedRecord),
            None => r matches Err(BootstrapError::NotFound),
        },
{
    match store.get(ns, slot) {
        Ok(v) => match v {
            StoredValue::KeyPair(sk) => Ok(*sk),
            _ => Err(BootstrapError::MalformedRecord),
        },
        Err(_) => Err(BootstrapError::NotFound),
    }
}

/// Submits the operator's public validator-configuration record into its
/// shared namespace, where the genesis assembler reads it.
pub fn submit_validator_config(
    store: &mut SecureStore,
    account: AccountAddress,
    validator_network_address: NetworkAddress,
    full_node_network_address: NetworkAddress,
    shared_ns: &String,
) -> (r: Result<(), BootstrapError>)
    ensures
        r matches Ok(_),
        final(store).lookup(shared_ns@, StoreSlot::ValidatorConfig) == Some(
            StoredValue::Record(
                ValidatorConfigRecord {
                    account,
                    validator_network_address,
                    full_node_network_address,
                },
            ),
        ),
        forall|n: Seq<char>, k: StoreSlot|
            !(n == shared_ns@ && k == StoreSlot::ValidatorConfig) ==> final(store).lookup(n, k)
                == old(store).lookup(n, k),
        final(store).next_seed == old(store).next_seed,
        final(store).namespaces@ == old(store).namespaces@,
{
    let record = ValidatorConfigRecord { account, validator_network_address, full_node_network_address };
    store.set(shared_ns, StoreSlot::ValidatorConfig, StoredValue::Record(record));
    Ok(())
}

} // verus!
