//! Deterministic genesis assembly.
//!
//! Genesis is a pure function of published public state: the layout plus each
//! operator's validator-configuration record, with the operator records put
//! in a fixed total order (by account address) so that the result does not
//! depend on read or arrival order.

use vstd::prelude::*;
use crate::BootstrapError;
use crate::keys::{AccountAddress, PublicKey};
use crate::layout::Layout;
use crate::net::NetworkAddress;
use crate::store::{SecureStore, StoreSlot, StoredValue};

verus! {

/// The public record one operator submits into its shared namespace: its
/// account address and the listen addresses of its two network planes.
#[derive(Clone, Copy, Debug, PartialEq, Eq, Structural)]
pub struct ValidatorConfigRecord {
    pub account: AccountAddress,
    pub validator_network_address: NetworkAddress,
    pub full_node_network_address: NetworkAddress,
}

/// The deterministic aggregate of the association key and all operator
/// records, ordered by account address.
#[derive(Clone, Debug, PartialEq, Eq)]
pub struct Genesis {
    pub association_key: PublicKey,
    pub validators: Vec<ValidatorConfigRecord>,
}

/// Value equality of two genesis transactions.
pub open spec fn genesis_eqv(a: Genesis, b: Genesis) -> bool {
    a.association_key == b.association_key && a.validators@ == b.validators@
}

impl Genesis {
    /// An equal copy of this genesis.
    pub fn dup(&self) -> (r: Genesis)
        ensures
            genesis_eqv(r, *self),
    {
        let mut validators: Vec<ValidatorConfigRecord> = Vec::new();
        let mut i: usize = 0;
        while i < self.validators.len()
            invariant
                i <= self.validators.len(),
                validators@ == self.validators@.take(i as int),
            decreases self.validators.len() - i,
        {
            validators.push(self.validators[i]);
            proof {
                assert(self.validators@.take(i as int).push(self.validators@[i as int])
                    =~= self.validators@.take(i as int + 1));
            }
            i = i + 1;
        }
        proof {
            assert(self.validators@.take(self.validators@.len() as int) =~= self.validators@);
        }
        Genesis { association_key: self.association_key, validators }
    }
}

/// Where `r` belongs in the already account-sorted sequence `s`.
pub open spec fn spec_insert_sorted(r: ValidatorConfigRecord, s: Seq<ValidatorConfigRecord>) -> Seq<
    ValidatorConfigRecord,
>
    decreases s.len(),
{
    if s.len() == 0 {
        seq![r]
    } else if r.account.value <= s[0].account.value {
        seq![r] + s
    } else {
        seq![s[0]] + spec_insert_sorted(r, s.drop_first())
    }
}

/// The fixed total order genesis puts operator records in: sorted by account
/// address, a pure function of the records themselves, never of read order.
pub open spec fn spec_sort_by_account(s: Seq<ValidatorConfigRecord>) -> Seq<ValidatorConfigRecord>
    decreases s.len(),
{
    if s.len() == 0 {
        Seq::empty()
    } else {
        spec_insert_sorted(s.last(), spec_sort_by_account(s.drop_last()))
    }
}

/// The canonical order really is one: every record ends up account-sorted.
pub open spec fn spec_sorted_by_account(s: Seq<ValidatorConfigRecord>) -> bool {
    forall|i: int, j: int| 0 <= i < j < s.len() ==> s[i].account.value <= s[j].account.value
}

proof fn lemma_cons_to_multiset(x: ValidatorConfigRecord, s: Seq<ValidatorConfigRecord>)
    ensures
        (seq![x] + s).to_multiset() == s.to_multiset().insert(x),
{
    broadcast use vstd::seq_lib::group_to_multiset_ensures;

    let t = seq![x] + s;
    assert(t.remove(0) =~= s);
    assert(s.to_multiset() =~= t.to_multiset().remove(x));
    assert(t.contains(x)) by {
        assert(t[0] == x);
    }
    assert(t.to_multiset().count(x) > 0);
    assert(t.to_multiset() =~= s.to_multiset().insert(x));
}

proof fn lemma_insert_sorted_props(r: ValidatorConfigRecord, s: Seq<ValidatorConfigRecord>)
    requires
        spec_sorted_by_account(s),
    ensures
        spec_sorted_by_account(spec_insert_sorted(r, s)),
        spec_insert_sorted(r, s).to_multiset() == s.to_multiset().insert(r),
    decreases s.len(),
{
    broadcast use vstd::seq_lib::group_to_multiset_ensures;

    if s.len() == 0 {
        assert(s =~= Seq::<ValidatorConfigRecord>::empty());
        assert(seq![r] =~= Seq::<ValidatorConfigRecord>::empty().push(r));
    } else if r.account.value <= s[0].account.value {
        lemma_cons_to_multiset(r, s);
        let t = seq![r] + s;
        assert forall|i: int, j: int|
            0 <= i < j < t.len() implies t[i].account.value <= t[j].account.value by {
            if i > 0 {
                assert(t[i] == s[i - 1] && t[j] == s[j - 1]);
            } else {
                assert(t[j] == s[j - 1]);
                assert(r.account.value <= s[0].account.value);
            }
        }
    } else {
        lemma_insert_sorted_props(r, s.drop_first());
        let inner = spec_insert_sorted(r, s.drop_first());
        lemma_cons_to_multiset(s[0], inner);
        lemma_cons_to_multiset(s[0], s.drop_first());
        assert(seq![s[0]] + s.drop_first() =~= s);
        assert((seq![s[0]] + inner).to_multiset() =~= s.to_multiset().insert(r));
        // Everything in the inner insertion is either r or from s.drop_first(),
        // so s[0] stays a lower bound of the tail.
        let t = seq![s[0]] + inner;
        assert forall|i: int, j: int|
            0 <= i < j < t.len() implies t[i].account.value <= t[j].account.value by {
            if i > 0 {
                assert(t[i] == inner[i - 1] && t[j] == inner[j - 1]);
            } else {
                assert(t[j] == inner[j - 1]);
                assert(inner.to_multiset().contains(inner[j - 1])) by {
                    assert(inner.contains(inner[j - 1]));
                }
                assert(inner.to_multiset() == s.drop_first().to_multiset().insert(r));
                if inner[j - 1] == r {
                    assert(s[0].account.value <= r.account.value);
                } else {
                    assert(s.drop_first().to_multiset().contains(inner[j - 1]));
                    assert(s.drop_first().contains(inner[j - 1]));
                    let w = choose|w: int|
                        0 <= w < s.drop_first().len() && s.drop_first()[w] == inner[j - 1];
                    assert(s[w + 1] == inner[j - 1]);
                    assert(s[0].account.value <= s[w + 1].account.value);
                }
            }
        }
    }
}

/// The canonical order is a sort: account-ordered, and a permutation of the
/// submitted records — nothing added, nothing dropped.
pub proof fn lemma_canonical_order(s: Seq<ValidatorConfigRecord>)
    ensures
        spec_sorted_by_account(spec_sort_by_account(s)),
        spec_sort_by_account(s).to_multiset() == s.to_multiset(),
    decreases s.len(),
{
    broadcast use vstd::seq_lib::group_to_multiset_ensures;

    if s.len() > 0 {
        lemma_canonical_order(s.drop_last());
        lemma_insert_sorted_props(s.last(), spec_sort_by_account(s.drop_last()));
        assert(s =~= s.drop_last().push(s.last()));
        assert(s.to_multiset() =~= s.drop_last().to_multiset().insert(s.last()));
    }
}

proof fn lemma_insert_sorted_at(s: Seq<ValidatorConfigRecord>, r: ValidatorConfigRecord, j: int)
    requires
        0 <= j <= s.len(),
        forall|k: int| 0 <= k < j ==> s[k].account.value < r.account.value,
        j < s.len() ==> s[j].account.value >= r.account.value,
    ensures
        spec_insert_sorted(r, s) == s.insert(j, r),
    decreases j,
{
    if j == 0 {
        if s.len() == 0 {
            assert(spec_insert_sorted(r, s) =~= s.insert(0, r));
        } else {
            assert(spec_insert_sorted(r, s) == seq![r] + s);
            assert(seq![r] + s =~= s.insert(0, r));
        }
    } else {
        assert(s[0].account.value < r.account.value);
        lemma_insert_sorted_at(s.drop_first(), r, j - 1);
        assert(seq![s[0]] + s.drop_first().insert(j - 1, r) =~= s.insert(j, r));
    }
}

/// Inserts one record into an account-sorted list, keeping it sorted.
fn insert_sorted(out: &mut Vec<ValidatorConfigRecord>, r: ValidatorConfigRecord)
    ensures
        final(out)@ == spec_insert_sorted(r, old(out)@),
{
    let mut j: usize = 0;
    while j < out.len() && out[j].account.value < r.account.value
        invariant
            j <= out@.len(),
            out@ == old(out)@,
            forall|k: int| 0 <= k < j ==> out@[k].account.value < r.account.value,
        decreases out@.len() - j,
    {
        j = j + 1;
    }
    proof {
        lemma_insert_sorted_at(out@, r, j as int);
    }
    out.insert(j, r);
}

/// Sorts operator records by account address.
fn sort_records(v: &Vec<ValidatorConfigRecord>) -> (r: Vec<ValidatorConfigRecord>)
    ensures
        r@ == spec_sort_by_account(v@),
{
    let mut out: Vec<ValidatorConfigRecord> = Vec::new();
    let mut i: usize = 0;
    while i < v.len()
        invariant
            i <= v@.len(),
            out@ == spec_sort_by_account(v@.take(i as int)),
        decreases v@.len() - i,
    {
        insert_sorted(&mut out, v[i]);
        proof {
            assert(v@.take(i as int + 1).drop_last() =~= v@.take(i as int));
            assert(v@.take(i as int + 1).last() == v@[i as int]);
        }
        i = i + 1;
    }
    proof {
        assert(v@.take(v@.len() as int) =~= v@);
    }
    out
}

/// The association's published public key slot, seen by every assembler.
pub open spec fn spec_assoc_slot(layout: Layout, s: SecureStore) -> Option<StoredValue> {
    s.lookup(layout.association@[0]@, StoreSlot::AccountKey)
}

/// The association public key genesis is built around.
pub open spec fn spec_assoc_key(layout: Layout, s: SecureStore) -> PublicKey {
    match spec_assoc_slot(layout, s) {
        Some(StoredValue::PublicKeyOf(pk)) => pk,
        _ => arbitrary(),
    }
}

/// Operator `i`'s published record slot.
pub open spec fn spec_operator_slot(layout: Layout, s: SecureStore, i: int) -> Option<StoredValue> {
    s.lookup(layout.operators@[i]@, StoreSlot::ValidatorConfig)
}

/// Whether operator `i` has submitted a well-formed record.
pub open spec fn spec_operator_ok(layout: Layout, s: SecureStore, i: int) -> bool {
    spec_operator_slot(layout, s, i) matches Some(StoredValue::Record(_))
}

/// Operator `i`'s submitted record.
pub open spec fn spec_record(layout: Layout, s: SecureStore, i: int) -> ValidatorConfigRecord {
    match spec_operator_slot(layout, s, i) {
        Some(StoredValue::Record(r)) => r,
        _ => arbitrary(),
    }
}

/// All submitted records, in layout order (before the canonical sort).
pub open spec fn spec_records(layout: Layout, s: SecureStore) -> Seq<ValidatorConfigRecord> {
    Seq::new(layout.operators@.len(), |i: int| spec_record(layout, s, i))
}

/// The first operator (in layout order) from `i` on whose record slot is
/// missing or malformed, if any.
pub open spec fn spec_first_bad_operator(layout: Layout, s: SecureStore, i: int) -> Option<int>
    decreases layout.operators@.len() - i,
{
    if i < 0 || i >= layout.operators@.len() {
        None
    } else if !spec_operator_ok(layout, s, i) {
        Some(i)
    } else {
        spec_first_bad_operator(layout, s, i + 1)
    }
}

/// No two records resolve to the same account address.
pub open spec fn spec_distinct_accounts(s: Seq<ValidatorConfigRecord>) -> bool {
    forall|i: int, j: int| 0 <= i < j < s.len() ==> s[i].account != s[j].account
}

/// All the published state genesis assembly needs is in place: the
/// association key, one well-formed record per operator, distinct accounts.
pub open spec fn spec_can_assemble(layout: Layout, s: SecureStore) -> bool {
    &&& spec_assoc_slot(layout, s) matches Some(StoredValue::PublicKeyOf(_))
    &&& spec_first_bad_operator(layout, s, 0) is None
    &&& spec_distinct_accounts(spec_records(layout, s))
}

/// The validator set genesis carries: the records in canonical order.
pub open spec fn spec_genesis_validators(layout: Layout, s: SecureStore) -> Seq<
    ValidatorConfigRecord,
> {
    spec_sort_by_account(spec_records(layout, s))
}

/// The genesis value assembly is obligated to produce.
pub open spec fn spec_assembled(layout: Layout, s: SecureStore, g: Genesis) -> bool {
    &&& g.association_key == spec_assoc_key(layout, s)
    &&& g.validators@ == spec_genesis_validators(layout, s)
}

proof fn lemma_first_bad_none(layout: Layout, s: SecureStore, i: int)
    requires
        0 <= i <= layout.operators@.len(),
        forall|k: int| i <= k < layout.operators@.len() ==> spec_operator_ok(layout, s, k),
    ensures
        spec_first_bad_operator(layout, s, i) is None,
    decreases layout.operators@.len() - i,
{
    if i < layout.operators@.len() {
        lemma_first_bad_none(layout, s, i + 1);
    }
}

proof fn lemma_first_bad_at(layout: Layout, s: SecureStore, i: int, bad: int)
    requires
        0 <= i <= bad < layout.operators@.len(),
        forall|k: int| i <= k < bad ==> spec_operator_ok(layout, s, k),
        !spec_operator_ok(layout, s, bad),
    ensures
        spec_first_bad_operator(layout, s, i) == Some(bad),
    decreases bad - i,
{
    if i < bad {
        lemma_first_bad_at(layout, s, i + 1, bad);
    }
}

/// Reports whether all record accounts are pairwise distinct.
fn distinct_accounts(v: &Vec<ValidatorConfigRecord>) -> (b: bool)
    ensures
        b == spec_distinct_accounts(v@),
{
    let mut i: usize = 1;
    while i < v.len()
        invariant
            i >= 1,
            forall|p: int, q: int| 0 <= p < q < i ==> v@[p].account != v@[q].account,
        decreases v@.len() - i,
    {
        let mut j: usize = 0;
        while j < i
            invariant
                j <= i,
                i < v@.len(),
                forall|p: int| 0 <= p < j ==> v@[p].account != v@[i as int].account,
            decreases i - j,
        {
            if v[j].account == v[i].account {
                assert(v@[j as int].account == v@[i as int].account);
                return false;
            }
            j = j + 1;
        }
        i = i + 1;
    }
    true
}

/// Assembles genesis from the layout and the published shared state.
///
/// The result is referentially deterministic: it is pinned, field for field,
/// to a pure function of the layout and the published records, so identical
/// inputs give an identical genesis regardless of who assembles, or how
/// often. Failure names the first problem in layout order: a missing
/// association key (`NotFound`), a missing operator record
/// (`IncompleteSubmission` with the namespace), a malformed slot
/// (`MalformedRecord`), or two operators sharing an account
/// (`DuplicateAccount`).
pub fn assemble(layout: &Layout, store: &SecureStore) -> (r: Result<Genesis, BootstrapError>)
    requires
        layout.valid(),
    ensures
        r matches Ok(g) ==> spec_can_assemble(*layout, *store) && spec_assembled(
            *layout,
            *store,
            g,
        ),
        spec_can_assemble(*layout, *store) ==> r matches Ok(_),
        spec_assoc_slot(*layout, *store) is None ==> r matches Err(BootstrapError::NotFound),
        (spec_assoc_slot(*layout, *store) matches Some(v) && !(v matches
            StoredValue::PublicKeyOf(_))) ==> r matches Err(BootstrapError::MalformedRecord),
        forall|i: int|
            (spec_assoc_slot(*layout, *store) matches Some(StoredValue::PublicKeyOf(_))
                && spec_first_bad_operator(*layout, *store, 0) == Some(i)) ==> match #[trigger] spec_operator_slot(
                *layout,
                *store,
                i,
            ) {
                None => r matches Err(BootstrapError::IncompleteSubmission(n)) && n@
                    == layout.operators@[i]@,
                _ => r matches Err(BootstrapError::MalformedRecord),
            },
        (spec_assoc_slot(*layout, *store) matches Some(StoredValue::PublicKeyOf(_))
            && spec_first_bad_operator(*layout, *store, 0) is None && !spec_distinct_accounts(
            spec_records(*layout, *store),
        )) ==> r matches Err(BootstrapError::DuplicateAccount),
{
    let assoc_ns = &layout.association[0];
    let association_key = match store.get(assoc_ns, StoreSlot::AccountKey) {
        Ok(v) => match v {
            StoredValue::PublicKeyOf(pk) => *pk,
            _ => {
                return Err(BootstrapError::MalformedRecord);
            },
        },
        Err(_) => {
            return Err(BootstrapError::NotFound);
        },
    };
    let mut records: Vec<ValidatorConfigRecord> = Vec::new();
    let mut i: usize = 0;
    while i < layout.operators.len()
        invariant
            i <= layout.operators@.len(),
            records@.len() == i,
            spec_assoc_slot(*layout, *store) == Some(StoredValue::PublicKeyOf(association_key)),
            forall|k: int| 0 <= k < i ==> spec_operator_ok(*layout, *store, k),
            forall|k: int| 0 <= k < i ==> records@[k] == spec_record(*layout, *store, k),
        decreases layout.operators@.len() - i,
    {
        let ns = &layout.operators[i];
        match store.get(ns, StoreSlot::ValidatorConfig) {
            Ok(v) => match v {
                StoredValue::Record(rec) => {
                    records.push(*rec);
                },
                _ => {
                    proof {
                        lemma_first_bad_at(*layout, *store, 0, i as int);
                    }
                    return Err(BootstrapError::MalformedRecord);
                },
            },
            Err(_) => {
                proof {
                    lemma_first_bad_at(*layout, *store, 0, i as int);
                }
                return Err(BootstrapError::IncompleteSubmission(ns.clone()));
            },
        }
        i = i + 1;
    }
    proof {
        lemma_first_bad_none(*layout, *store, 0);
        assert(records@ =~= spec_records(*layout, *store));
    }
    if !distinct_accounts(&records) {
        return Err(BootstrapError::DuplicateAccount);
    }
    let validators = sort_records(&records);
    Ok(Genesis { association_key, validators })
}

/// Determinism of assembly: two assembled geneses agree whenever their
/// layouts name the same namespaces and the two stores publish the same
/// association key and operator records — independent callers with only
/// read access to the shared namespaces converge on one genesis.
pub proof fn lemma_assemble_deterministic(
    l1: Layout,
    s1: SecureStore,
    l2: Layout,
    s2: SecureStore,
    g1: Genesis,
    g2: Genesis,
)
    requires
        l1.association@.len() > 0 && l2.association@.len() > 0,
        l1.association@[0]@ == l2.association@[0]@,
        l1.operators@.len() == l2.operators@.len(),
        forall|i: int| 0 <= i < l1.operators@.len() ==> l1.operators@[i]@ == l2.operators@[i]@,
        spec_assoc_slot(l1, s1) == spec_assoc_slot(l2, s2),
        forall|i: int|
            0 <= i < l1.operators@.len() ==> spec_operator_slot(l1, s1, i) == spec_operator_slot(
                l2,
                s2,
                i,
            ),
        spec_assembled(l1, s1, g1),
        spec_assembled(l2, s2, g2),
    ensures
        genesis_eqv(g1, g2),
{
    assert(spec_records(l1, s1) =~= spec_records(l2, s2));
}

} // verus!

