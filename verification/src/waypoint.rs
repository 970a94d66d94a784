//! Waypoints: compact checkpoints binding trust to a specific genesis.
//!
//! A waypoint is a pure function of the canonical genesis encoding, so every
//! node that assembles the same genesis re-derives the same waypoint. The
//! verifier re-assembles genesis from the published shared state, compares a
//! candidate field by field, and reports each check separately so a mismatch
//! is attributable.

use vstd::prelude::*;
use vstd::string::StringExecFns;
use crate::BootstrapError;
use crate::genesis::{
    assemble, genesis_eqv, spec_assembled, spec_assoc_key, spec_assoc_slot, spec_can_assemble,
    spec_genesis_validators, spec_operator_slot, Genesis, ValidatorConfigRecord,
};
use crate::keys::PublicKey;
use crate::layout::Layout;
use crate::net::{Encryption, NetworkAddress};
use crate::store::{SecureStore, StoreSlot, StoredValue};

verus! {

/// A fixed-size checkpoint identifying one genesis: a version marker plus a
/// digest of the canonical genesis encoding.
#[derive(Clone, Copy, Debug, PartialEq, Eq, Structural)]
pub struct Waypoint {
    pub version: u64,
    pub root_hash: u64,
}

/// Multiplier of the waypoint digest.
pub const DIGEST_PRIME: u64 = 0x100000001b3;

/// Initial state of the waypoint digest.
pub const DIGEST_SEED: u64 = 0xcbf29ce484222325;

/// Canonical encoding of one network address: five words, fixed shape.
pub open spec fn spec_addr_words(a: NetworkAddress) -> Seq<u64> {
    match a.encryption {
        Encryption::Plain => seq![a.host as u64, a.port as u64, 0u64, 0u64, 0u64],
        Encryption::Noise { key, handshake } => seq![
            a.host as u64,
            a.port as u64,
            1u64,
            key.id,
            handshake as u64,
        ],
    }
}

/// Canonical encoding of one operator record.
pub open spec fn spec_record_words(r: ValidatorConfigRecord) -> Seq<u64> {
    seq![r.account.value] + spec_addr_words(r.validator_network_address) + spec_addr_words(
        r.full_node_network_address,
    )
}

/// Canonical encoding of a validator set, in its given order.
pub open spec fn spec_validator_words(s: Seq<ValidatorConfigRecord>) -> Seq<u64>
    decreases s.len(),
{
    if s.len() == 0 {
        Seq::empty()
    } else {
        spec_record_words(s[0]) + spec_validator_words(s.drop_first())
    }
}

/// Canonical encoding of a genesis given by its parts.
pub open spec fn spec_genesis_words_kv(key: PublicKey, validators: Seq<ValidatorConfigRecord>) -> Seq<
    u64,
> {
    seq![key.id, validators.len() as u64] + spec_validator_words(validators)
}

/// Canonical encoding of an assembled genesis.
pub open spec fn spec_genesis_words(g: Genesis) -> Seq<u64> {
    spec_genesis_words_kv(g.association_key, g.validators@)
}

/// One digest step: fold the next word into the state.
pub open spec fn spec_digest_step(h: u64, w: u64) -> u64 {
    vstd::wrapping::u64_specs::wrapping_mul(h ^ w, DIGEST_PRIME)
}

/// Digest of a word sequence, folded left to right.
pub open spec fn spec_digest_words(s: Seq<u64>) -> u64
    decreases s.len(),
{
    if s.len() == 0 {
        DIGEST_SEED
    } else {
        spec_digest_step(spec_digest_words(s.drop_last()), s.last())
    }
}

/// The waypoint a genesis with these parts commits every node to.
pub open spec fn spec_waypoint_kv(key: PublicKey, validators: Seq<ValidatorConfigRecord>) -> Waypoint {
    Waypoint { version: 0, root_hash: spec_digest_words(spec_genesis_words_kv(key, validators)) }
}

/// The waypoint of an assembled genesis.
pub open spec fn spec_waypoint_of(g: Genesis) -> Waypoint {
    spec_waypoint_kv(g.association_key, g.validators@)
}

proof fn lemma_validator_words_snoc(s: Seq<ValidatorConfigRecord>, r: ValidatorConfigRecord)
    ensures
        spec_validator_words(s.push(r)) == spec_validator_words(s) + spec_record_words(r),
    decreases s.len(),
{
    if s.len() == 0 {
        assert(s.push(r)[0] == r);
        let e = s.push(r).drop_first();
        assert(e =~= Seq::<ValidatorConfigRecord>::empty());
        assert(spec_validator_words(e) =~= Seq::<u64>::empty());
        assert(spec_validator_words(s.push(r)) == spec_record_words(r) + spec_validator_words(e));
        assert(spec_record_words(r) + Seq::<u64>::empty() =~= spec_record_words(r));
        assert(spec_validator_words(s) + spec_record_words(r) =~= spec_record_words(r));
    } else {
        assert(s.push(r)[0] == s[0]);
        assert(s.push(r).drop_first() =~= s.drop_first().push(r));
        lemma_validator_words_snoc(s.drop_first(), r);
        assert(spec_record_words(s[0]) + (spec_validator_words(s.drop_first())
            + spec_record_words(r)) =~= (spec_record_words(s[0]) + spec_validator_words(
            s.drop_first(),
        )) + spec_record_words(r));
    }
}

/// Appends the canonical words of one address.
fn push_addr_words(out: &mut Vec<u64>, a: &NetworkAddress)
    ensures
        final(out)@ == old(out)@ + spec_addr_words(*a),
{
    out.push(a.host as u64);
    out.push(a.port as u64);
    match a.encryption {
        Encryption::Plain => {
            out.push(0u64);
            out.push(0u64);
            out.push(0u64);
        },
        Encryption::Noise { key, handshake } => {
            out.push(1u64);
            out.push(key.id);
            out.push(handshake as u64);
        },
    }
    proof {
        assert(out@ =~= old(out)@ + spec_addr_words(*a));
    }
}

/// Produces the canonical word encoding of a genesis. Two geneses with equal
/// fields encode identically — the encoding depends on nothing else.
pub fn encode_genesis(g: &Genesis) -> (w: Vec<u64>)
    ensures
        w@ == spec_genesis_words(*g),
{
    let mut out: Vec<u64> = Vec::new();
    out.push(g.association_key.id);
    out.push(g.validators.len() as u64);
    proof {
        assert(out@ =~= seq![g.association_key.id, g.validators@.len() as u64]
            + spec_validator_words(g.validators@.take(0)));
    }
    let mut i: usize = 0;
    while i < g.validators.len()
        invariant
            i <= g.validators@.len(),
            out@ == seq![g.association_key.id, g.validators@.len() as u64]
                + spec_validator_words(g.validators@.take(i as int)),
        decreases g.validators@.len() - i,
    {
        let r = g.validators[i];
        let ghost pre = out@;
        out.push(r.account.value);
        push_addr_words(&mut out, &r.validator_network_address);
        push_addr_words(&mut out, &r.full_node_network_address);
        proof {
            assert(out@ =~= pre + spec_record_words(r));
            assert(g.validators@.take(i as int + 1) =~= g.validators@.take(i as int).push(r));
            lemma_validator_words_snoc(g.validators@.take(i as int), r);
            assert(pre + spec_record_words(r) =~= seq![
                g.association_key.id,
                g.validators@.len() as u64,
            ] + spec_validator_words(g.validators@.take(i as int + 1)));
        }
        i = i + 1;
    }
    proof {
        assert(g.validators@.take(g.validators@.len() as int) =~= g.validators@);
    }
    out
}

/// Digests a word sequence.
fn digest_words(w: &Vec<u64>) -> (h: u64)
    ensures
        h == spec_digest_words(w@),
{
    let mut h: u64 = DIGEST_SEED;
    proof {
        assert(w@.take(0) =~= Seq::<u64>::empty());
    }
    let mut i: usize = 0;
    while i < w.len()
        invariant
            i <= w@.len(),
            h == spec_digest_words(w@.take(i as int)),
        decreases w@.len() - i,
    {
        let word = w[i];
        h = (h ^ word).wrapping_mul(DIGEST_PRIME);
        proof {
            assert(w@.take(i as int + 1).drop_last() =~= w@.take(i as int));
            assert(w@.take(i as int + 1).last() == w@[i as int]);
        }
        i = i + 1;
    }
    proof {
        assert(w@.take(w@.len() as int) =~= w@);
    }
    h
}

/// Computes the waypoint of a genesis: a pure function of the canonical
/// genesis encoding and nothing else.
pub fn compute_waypoint(g: &Genesis) -> (w: Waypoint)
    ensures
        w == spec_waypoint_of(*g),
{
    let words = encode_genesis(g);
    let root_hash = digest_words(&words);
    Waypoint { version: 0, root_hash }
}

/// Equal geneses encode identically, word for word, and so commit to equal
/// waypoints.
pub proof fn lemma_waypoint_pure(a: Genesis, b: Genesis)
    requires
        genesis_eqv(a, b),
    ensures
        spec_genesis_words(a) == spec_genesis_words(b),
        spec_waypoint_of(a) == spec_waypoint_of(b),
{
}

/// Publishes the waypoint once into the common namespace; one publish per
/// round, so the slot must still be empty.
pub fn publish(store: &mut SecureStore, common_ns: &String, w: Waypoint)
    requires
        old(store).lookup(common_ns@, StoreSlot::WaypointValue) is None,
    ensures
        final(store).lookup(common_ns@, StoreSlot::WaypointValue) == Some(
            StoredValue::WaypointOf(w),
        ),
        forall|n: Seq<char>, k: StoreSlot|
            !(n == common_ns@ && k == StoreSlot::WaypointValue) ==> final(store).lookup(n, k)
                == old(store).lookup(n, k),
        final(store).next_seed == old(store).next_seed,
        final(store).namespaces@ == old(store).namespaces@,
{
    store.set(common_ns, StoreSlot::WaypointValue, StoredValue::WaypointOf(w));
}

/// Assembles genesis from the published state, computes its waypoint and
/// publishes it. On success the returned waypoint is exactly the waypoint of
/// the genesis the published state determines.
pub fn create_waypoint(store: &mut SecureStore, common_ns: &String) -> (r: Result<
    Waypoint,
    BootstrapError,
>)
    requires
        old(store).lookup(common_ns@, StoreSlot::WaypointValue) is None,
    ensures
        (r matches Ok(_)) <==> (match old(store).lookup(common_ns@, StoreSlot::LayoutDoc) {
            Some(StoredValue::LayoutOf(l)) => l.valid() && spec_can_assemble(l, *old(store)),
            _ => false,
        }),
        match old(store).lookup(common_ns@, StoreSlot::LayoutDoc) {
            Some(StoredValue::LayoutOf(l)) => (l.valid() && spec_can_assemble(l, *old(store)))
                ==> {
                &&& r matches Ok(w) && w == spec_waypoint_kv(
                    spec_assoc_key(l, *old(store)),
                    spec_genesis_validators(l, *old(store)),
                )
                &&& final(store).lookup(common_ns@, StoreSlot::WaypointValue) matches Some(v) && (
                r matches Ok(w) && v == StoredValue::WaypointOf(w))
                &&& forall|n: Seq<char>, k: StoreSlot|
                    !(n == common_ns@ && k == StoreSlot::WaypointValue) ==> final(store).lookup(
                        n,
                        k,
                    ) == old(store).lookup(n, k)
                &&& final(store).next_seed == old(store).next_seed
            },
            _ => true,
        },
        r matches Err(_) ==> *final(store) == *old(store),
{
    let layout = match crate::layout::read(store, common_ns) {
        Ok(l) => l,
        Err(e) => {
            return Err(e);
        },
    };
    let g = match assemble(&layout, store) {
        Ok(g) => g,
        Err(e) => {
            return Err(e);
        },
    };
    let w = compute_waypoint(&g);
    publish(store, common_ns, w);
    Ok(w)
}

/// Copies the published waypoint into a node's local slot so the node can
/// self-verify at startup without re-assembling genesis; returns the copied
/// value.
pub fn insert_waypoint(store: &mut SecureStore, node_ns: &String, common_ns: &String) -> (r:
    Result<Waypoint, BootstrapError>)
    ensures
        match old(store).lookup(common_ns@, StoreSlot::WaypointValue) {
            Some(StoredValue::WaypointOf(w)) => {
                &&& r matches Ok(got) && got == w
                &&& final(store).lookup(node_ns@, StoreSlot::WaypointValue) == Some(
                    StoredValue::WaypointOf(w),
                )
                &&& forall|n: Seq<char>, k: StoreSlot|
                    !(n == node_ns@ && k == StoreSlot::WaypointValue) ==> final(store).lookup(
                        n,
                        k,
                    ) == old(store).lookup(n, k)
                &&& final(store).next_seed == old(store).next_seed
                &&& final(store).namespaces@ == old(store).namespaces@
            },
            Some(_) => r matches Err(BootstrapError::MalformedRecord) && *final(store) == *old(
                store,
            ),
            None => r matches Err(BootstrapError::NotFound) && *final(store) == *old(store),
        },
{
    let w = match store.get(common_ns, StoreSlot::WaypointValue) {
        Ok(v) => match v {
            StoredValue::WaypointOf(w) => *w,
            _ => {
                return Err(BootstrapError::MalformedRecord);
            },
        },
        Err(_) => {
            return Err(BootstrapError::NotFound);
        },
    };
    store.set(node_ns, StoreSlot::WaypointValue, StoredValue::WaypointOf(w));
    Ok(w)
}

/// Confirms a locally re-derived waypoint against the published one; the
/// mismatch is reported, not thrown, so the caller decides fatality.
pub fn confirm_waypoint(published: Waypoint, derived: Waypoint) -> (r: Result<
    (),
    BootstrapError,
>)
    ensures
        (r matches Ok(_)) <==> published == derived,
        r matches Err(e) ==> e == BootstrapError::WaypointMismatch,
{
    if published == derived {
        Ok(())
    } else {
        Err(BootstrapError::WaypointMismatch)
    }
}

/// Waypoint agreement: two parties that assemble from published state which
/// agrees on the association key and every operator record re-derive one and
/// the same waypoint.
pub proof fn lemma_waypoint_agreement(
    l1: Layout,
    s1: SecureStore,
    l2: Layout,
    s2: SecureStore,
    g1: Genesis,
    g2: Genesis,
)
    requires
        l1.association@.len() > 0 && l2.association@.len() > 0,
        l1.association@[0]@ == l2.association@[0]@,
        l1.operators@.len() == l2.operators@.len(),
        forall|i: int| 0 <= i < l1.operators@.len() ==> l1.operators@[i]@ == l2.operators@[i]@,
        spec_assoc_slot(l1, s1) == spec_assoc_slot(l2, s2),
        forall|i: int|
            0 <= i < l1.operators@.len() ==> spec_operator_slot(l1, s1, i) == spec_operator_slot(
                l2,
                s2,
                i,
            ),
        spec_assembled(l1, s1, g1),
        spec_assembled(l2, s2, g2),
    ensures
        spec_waypoint_of(g1) == spec_waypoint_of(g2),
{
    crate::genesis::lemma_assemble_deterministic(l1, s1, l2, s2, g1, g2);
    lemma_waypoint_pure(g1, g2);
}

} // verus!
