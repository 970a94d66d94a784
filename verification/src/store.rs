//! The namespaced secure store the protocol runs against.
//!
//! Each namespace is an isolated credential domain; the same slot name can
//! exist independently in many namespaces. The store exposes get/set over
//! named slots and idempotent key creation; every operation's effect is
//! stated over the store's lookup function, so callers reason purely about
//! which (namespace, slot) pairs changed.

use vstd::prelude::*;
use crate::BootstrapError;
use crate::genesis::ValidatorConfigRecord;
use crate::keys::{AccountAddress, PrivateKey, PublicKey};
use crate::layout::Layout;
use crate::waypoint::Waypoint;

verus! {

/// The well-known slot names of the protocol: per-namespace key material and
/// published records, plus the common-namespace layout and waypoint slots.
#[derive(Clone, Copy, Debug, PartialEq, Eq, Structural)]
pub enum StoreSlot {
    /// The namespace's signing keypair (private side) or its exported public
    /// key (shared side).
    AccountKey,
    /// The validator-network identity keypair.
    ValidatorNetworkKey,
    /// The full-node-network identity keypair.
    FullNodeNetworkKey,
    /// Pointer naming the account a namespace's network identities belong to.
    OperatorAccount,
    /// The operator's published validator-configuration record.
    ValidatorConfig,
    /// The layout manifest of the round (common namespace).
    LayoutDoc,
    /// The published waypoint of the round (common namespace).
    WaypointValue,
}

/// A value held in one store slot.
#[derive(Debug)]
pub enum StoredValue {
    KeyPair(PrivateKey),
    PublicKeyOf(PublicKey),
    AddressOf(AccountAddress),
    Record(ValidatorConfigRecord),
    LayoutOf(Layout),
    WaypointOf(Waypoint),
}

/// One (namespace, slot) binding.
#[derive(Debug)]
pub struct StoreEntry {
    pub ns: String,
    pub slot: StoreSlot,
    pub value: StoredValue,
}

/// Returns the most recent value bound to (ns, slot), scanning entries from
/// the newest (last) to the oldest.
pub open spec fn lookup_entries(s: Seq<StoreEntry>, ns: Seq<char>, slot: StoreSlot) -> Option<
    StoredValue,
>
    decreases s.len(),
{
    if s.len() == 0 {
        None
    } else if s.last().ns@ == ns && s.last().slot == slot {
        Some(s.last().value)
    } else {
        lookup_entries(s.drop_last(), ns, slot)
    }
}

/// An in-memory namespaced secure store: the bootstrap model of the external
/// storage engine. `next_seed` is the source of fresh key material.
pub struct SecureStore {
    pub entries: Vec<StoreEntry>,
    pub namespaces: Vec<String>,
    pub next_seed: u64,
}

impl SecureStore {
    /// What (ns, slot) currently holds, if anything.
    pub open spec fn lookup(self, ns: Seq<char>, slot: StoreSlot) -> Option<StoredValue> {
        lookup_entries(self.entries@, ns, slot)
    }

    /// Whether a namespace handle has been created.
    pub open spec fn spec_has_namespace(self, ns: Seq<char>) -> bool {
        exists|i: int| 0 <= i < self.namespaces@.len() && self.namespaces@[i]@ == ns
    }

    /// A fresh, empty store.
    pub fn new() -> (s: SecureStore)
        ensures
            forall|n: Seq<char>, k: StoreSlot| s.lookup(n, k) is None,
            forall|n: Seq<char>| !s.spec_has_namespace(n),
            s.next_seed == 0,
    {
        SecureStore { entries: Vec::new(), namespaces: Vec::new(), next_seed: 0 }
    }

    /// Creates the namespace's handle if absent; idempotent, so a crashed
    /// run may safely call it again.
    pub fn register_namespace(&mut self, ns: &String)
        ensures
            final(self).spec_has_namespace(ns@),
            old(self).spec_has_namespace(ns@) ==> *final(self) == *old(self),
            final(self).entries@ == old(self).entries@,
            final(self).next_seed == old(self).next_seed,
            forall|n: Seq<char>|
                final(self).spec_has_namespace(n) == (old(self).spec_has_namespace(n) || n
                    == ns@),
    {
        let mut i: usize = 0;
        while i < self.namespaces.len()
            invariant
                i <= self.namespaces@.len(),
                forall|j: int| 0 <= j < i ==> self.namespaces@[j]@ != ns@,
            decreases self.namespaces@.len() - i,
        {
            if self.namespaces[i] == *ns {
                proof {
                    assert(self.namespaces@[i as int]@ == ns@);
                    assert(self.spec_has_namespace(ns@));
                }
                return ;
            }
            i = i + 1;
        }
        self.namespaces.push(ns.clone());
        proof {
            let idx = old(self).namespaces@.len() as int;
            assert(self.namespaces@[idx]@ == ns@);
            assert(self.spec_has_namespace(ns@));
            assert forall|n: Seq<char>|
                self.spec_has_namespace(n) == (old(self).spec_has_namespace(n) || n
                    == ns@) by {
                if self.spec_has_namespace(n) {
                    let w = choose|w: int|
                        0 <= w < self.namespaces@.len() && self.namespaces@[w]@ == n;
                    if w < idx {
                        assert(old(self).namespaces@[w]@ == n);
                        assert(old(self).spec_has_namespace(n));
                    } else {
                        assert(n == ns@);
                    }
                }
                if old(self).spec_has_namespace(n) {
                    let w = choose|w: int|
                        0 <= w < old(self).namespaces@.len() && old(self).namespaces@[w]@ == n;
                    assert(self.namespaces@[w]@ == n);
                    assert(self.spec_has_namespace(n));
                }
            }
        }
    }

    /// Reads the value bound to (ns, slot), or fails with `NotFound`.
    pub fn get(&self, ns: &String, slot: StoreSlot) -> (r: Result<&StoredValue, BootstrapError>)
        ensures
            match self.lookup(ns@, slot) {
                Some(v) => r matches Ok(rv) && *rv == v,
                None => r matches Err(BootstrapError::NotFound),
            },
    {
        let mut i: usize = self.entries.len();
        proof {
            assert(self.entries@.take(self.entries@.len() as int) =~= self.entries@);
        }
        while i > 0
            invariant
                i <= self.entries@.len(),
                lookup_entries(self.entries@, ns@, slot) == lookup_entries(
                    self.entries@.take(i as int),
                    ns@,
                    slot,
                ),
            decreases i,
        {
            i = i - 1;
            let e = &self.entries[i];
            proof {
                assert(self.entries@.take(i as int + 1).last() == self.entries@[i as int]);
                assert(self.entries@.take(i as int + 1).drop_last() =~= self.entries@.take(
                    i as int,
                ));
            }
            if e.slot == slot && e.ns == *ns {
                return Ok(&e.value);
            }
        }
        Err(BootstrapError::NotFound)
    }

    /// Binds (ns, slot) to `value`, leaving every other binding as it was.
    pub fn set(&mut self, ns: &String, slot: StoreSlot, value: StoredValue)
        ensures
            final(self).lookup(ns@, slot) == Some(value),
            forall|n: Seq<char>, k: StoreSlot|
                !(n == ns@ && k == slot) ==> final(self).lookup(n, k) == old(self).lookup(n, k),
            final(self).next_seed == old(self).next_seed,
            final(self).namespaces@ == old(self).namespaces@,
    {
        let e = StoreEntry { ns: ns.clone(), slot, value };
        self.entries.push(e);
        proof {
            assert(self.entries@.drop_last() =~= old(self).entries@);
        }
    }

    /// Creates a signing keypair in (ns, slot) if the slot is empty and
    /// returns its public key; a repeat call returns the existing key and
    /// leaves the store untouched, so key generation is idempotent. Fails
    /// with `MalformedRecord` when the slot holds something other than a
    /// keypair.
    pub fn create_key(&mut self, ns: &String, slot: StoreSlot) -> (r: Result<
        PublicKey,
        BootstrapError,
    >)
        requires
            old(self).next_seed < u64::MAX,
        ensures
            match old(self).lookup(ns@, slot) {
                Some(StoredValue::KeyPair(sk)) => {
                    &&& r matches Ok(pk) && pk == sk.spec_public_key()
                    &&& *final(self) == *old(self)
                },
                Some(_) => {
                    &&& r matches Err(BootstrapError::MalformedRecord)
                    &&& *final(self) == *old(self)
                },
                None => {
                    let sk = PrivateKey { seed: old(self).next_seed };
                    &&& r matches Ok(pk) && pk == sk.spec_public_key()
                    &&& final(self).lookup(ns@, slot) == Some(StoredValue::KeyPair(sk))
                    &&& forall|n: Seq<char>, k: StoreSlot|
                        !(n == ns@ && k == slot) ==> final(self).lookup(n, k) == old(self).lookup(
                            n,
                            k,
                        )
                    &&& final(self).next_seed == old(self).next_seed + 1
                    &&& final(self).namespaces@ == old(self).namespaces@
                },
            },
    {
        let existing = self.get(ns, slot);
        match existing {
            Ok(v) => match v {
                StoredValue::KeyPair(sk) => Ok(sk.public_key()),
                _ => Err(BootstrapError::MalformedRecord),
            },
            Err(_) => {
                let sk = PrivateKey { seed: self.next_seed };
                self.next_seed = self.next_seed + 1;
                let pk = sk.public_key();
                self.set(ns, slot, StoredValue::KeyPair(sk));
                Ok(pk)
            },
        }
    }
}

} // verus!
