//! Cryptographic identity model: keypairs and derived account addresses.
//!
//! The physical signing algorithm is out of scope of this protocol; what the
//! bootstrap logic relies on is only that key generation yields fresh seeds,
//! that the public key is a pure function of the private key, and that the
//! account address is a pure (injective) function of the public key. Keys are
//! therefore modeled by their seed, and both derivations are explicit pure
//! functions, so every claim of determinism is checkable.

use vstd::prelude::*;

verus! {

/// The private half of a keypair; lives only in its owning private namespace.
#[derive(Clone, Copy, Debug, PartialEq, Eq, Structural)]
pub struct PrivateKey {
    pub seed: u64,
}

/// The public half of a keypair; the only key material a party publishes.
#[derive(Clone, Copy, Debug, PartialEq, Eq, Structural)]
pub struct PublicKey {
    pub id: u64,
}

/// An account address, derived deterministically from a public key.
#[derive(Clone, Copy, Debug, PartialEq, Eq, Structural)]
pub struct AccountAddress {
    pub value: u64,
}

impl PrivateKey {
    /// The public key is a pure function of the private key.
    pub open spec fn spec_public_key(self) -> PublicKey {
        PublicKey { id: self.seed }
    }

    /// Derives the public half of this keypair.
    pub fn public_key(&self) -> (pk: PublicKey)
        ensures
            pk == self.spec_public_key(),
    {
        PublicKey { id: self.seed }
    }
}

/// The address a public key resolves to: a pure, injective derivation.
pub open spec fn spec_address_of(pk: PublicKey) -> AccountAddress {
    AccountAddress { value: pk.id }
}

/// Derives the account address owned by the holder of `pk`.
pub fn from_public_key(pk: &PublicKey) -> (addr: AccountAddress)
    ensures
        addr == spec_address_of(*pk),
{
    AccountAddress { value: pk.id }
}

} // verus!
