//! Independent genesis verification.
//!
//! A party re-assembles genesis from the published shared state with the
//! same algorithm as the assembler and compares a candidate genesis against
//! it field by field. The result is a report with one entry per checked
//! field — a human-auditable record in which a partial mismatch is
//! attributable to a specific field — rather than a bare boolean; a failed
//! check is reported, not thrown, and the caller decides whether it is fatal.

use vstd::prelude::*;
use vstd::string::StringExecFns;
use crate::BootstrapError;
use crate::genesis::{
    assemble, spec_assoc_key, spec_assoc_slot, spec_can_assemble,
    spec_distinct_accounts, spec_first_bad_operator, spec_genesis_validators, spec_operator_slot,
    spec_records, Genesis, ValidatorConfigRecord,
};
use crate::keys::{AccountAddress, PublicKey};
use crate::layout::Layout;
use crate::net::NetworkAddress;
use crate::store::{SecureStore, StoredValue};

verus! {

/// The accounts of a validator set, in order.
pub open spec fn spec_accounts(s: Seq<ValidatorConfigRecord>) -> Seq<AccountAddress> {
    s.map_values(|r: ValidatorConfigRecord| r.account)
}

/// The validator-network addresses of a validator set, in order.
pub open spec fn spec_validator_addresses(s: Seq<ValidatorConfigRecord>) -> Seq<NetworkAddress> {
    s.map_values(|r: ValidatorConfigRecord| r.validator_network_address)
}

/// The full-node-network addresses of a validator set, in order.
pub open spec fn spec_full_node_addresses(s: Seq<ValidatorConfigRecord>) -> Seq<NetworkAddress> {
    s.map_values(|r: ValidatorConfigRecord| r.full_node_network_address)
}

/// One line per checked field: did the candidate agree with the re-assembled
/// genesis on that field?
#[derive(Clone, Copy, Debug, PartialEq, Eq, Structural)]
pub struct VerificationReport {
    pub association_key_match: bool,
    pub accounts_match: bool,
    pub validator_addresses_match: bool,
    pub full_node_addresses_match: bool,
}

/// The report comparing a candidate against the expected genesis parts.
pub open spec fn spec_report(
    expected_key: PublicKey,
    expected: Seq<ValidatorConfigRecord>,
    candidate: Genesis,
) -> VerificationReport {
    VerificationReport {
        association_key_match: candidate.association_key == expected_key,
        accounts_match: spec_accounts(candidate.validators@) == spec_accounts(expected),
        validator_addresses_match: spec_validator_addresses(candidate.validators@)
            == spec_validator_addresses(expected),
        full_node_addresses_match: spec_full_node_addresses(candidate.validators@)
            == spec_full_node_addresses(expected),
    }
}

impl VerificationReport {
    /// Every checked field agreed.
    pub open spec fn spec_full_match(self) -> bool {
        &&& self.association_key_match
        &&& self.accounts_match
        &&& self.validator_addresses_match
        &&& self.full_node_addresses_match
    }

    /// Reports whether every checked field agreed.
    pub fn full_match(&self) -> (b: bool)
        ensures
            b == self.spec_full_match(),
    {
        self.association_key_match && self.accounts_match && self.validator_addresses_match
            && self.full_node_addresses_match
    }
}

/// The rendered marker of one field check.
pub open spec fn spec_marker(matched: bool) -> Seq<char> {
    if matched {
        ": match\n"@
    } else {
        ": different\n"@
    }
}

/// The rendered report: one line per checked field.
pub open spec fn spec_render(rep: VerificationReport) -> Seq<char> {
    "association key"@ + spec_marker(rep.association_key_match) + "validator accounts"@
        + spec_marker(rep.accounts_match) + "validator network addresses"@ + spec_marker(
        rep.validator_addresses_match,
    ) + "full node network addresses"@ + spec_marker(rep.full_node_addresses_match)
}

/// Appends a field's marker line ending.
fn append_marker(s: &mut String, matched: bool)
    ensures
        final(s)@ == old(s)@ + spec_marker(matched),
{
    if matched {
        s.append(": match\n");
    } else {
        s.append(": different\n");
    }
}

impl VerificationReport {
    /// Renders the report, one line per checked field, with a match or
    /// difference marker after each field name.
    pub fn render(&self) -> (out: String)
        ensures
            out@ == spec_render(*self),
    {
        let mut out = String::new();
        out.append("association key");
        append_marker(&mut out, self.association_key_match);
        out.append("validator accounts");
        append_marker(&mut out, self.accounts_match);
        out.append("validator network addresses");
        append_marker(&mut out, self.validator_addresses_match);
        out.append("full node network addresses");
        append_marker(&mut out, self.full_node_addresses_match);
        out
    }
}

/// Compares the accounts of two validator sets.
fn accounts_eq(a: &Vec<ValidatorConfigRecord>, b: &Vec<ValidatorConfigRecord>) -> (r: bool)
    ensures
        r == (spec_accounts(a@) == spec_accounts(b@)),
{
    if a.len() != b.len() {
        return false;
    }
    let mut i: usize = 0;
    while i < a.len()
        invariant
            i <= a@.len(),
            a@.len() == b@.len(),
            forall|k: int| 0 <= k < i ==> a@[k].account == b@[k].account,
        decreases a@.len() - i,
    {
        if !(a[i].account == b[i].account) {
            assert(spec_accounts(a@)[i as int] != spec_accounts(b@)[i as int]);
            return false;
        }
        i = i + 1;
    }
    proof {
        assert(spec_accounts(a@) =~= spec_accounts(b@));
    }
    true
}

/// Compares the validator-network addresses of two validator sets.
fn validator_addresses_eq(a: &Vec<ValidatorConfigRecord>, b: &Vec<ValidatorConfigRecord>) -> (r:
    bool)
    ensures
        r == (spec_validator_addresses(a@) == spec_validator_addresses(b@)),
{
    if a.len() != b.len() {
        return false;
    }
    let mut i: usize = 0;
    while i < a.len()
        invariant
            i <= a@.len(),
            a@.len() == b@.len(),
            forall|k: int|
                0 <= k < i ==> a@[k].validator_network_address == b@[k].validator_network_address,
        decreases a@.len() - i,
    {
        if !(a[i].validator_network_address == b[i].validator_network_address) {
            assert(spec_validator_addresses(a@)[i as int] != spec_validator_addresses(b@)[i as int]);
            return false;
        }
        i = i + 1;
    }
    proof {
        assert(spec_validator_addresses(a@) =~= spec_validator_addresses(b@));
    }
    true
}

/// Compares the full-node-network addresses of two validator sets.
fn full_node_addresses_eq(a: &Vec<ValidatorConfigRecord>, b: &Vec<ValidatorConfigRecord>) -> (r:
    bool)
    ensures
        r == (spec_full_node_addresses(a@) == spec_full_node_addresses(b@)),
{
    if a.len() != b.len() {
        return false;
    }
    let mut i: usize = 0;
    while i < a.len()
        invariant
            i <= a@.len(),
            a@.len() == b@.len(),
            forall|k: int|
                0 <= k < i ==> a@[k].full_node_network_address == b@[k].full_node_network_address,
        decreases a@.len() - i,
    {
        if !(a[i].full_node_network_address == b[i].full_node_network_address) {
            assert(spec_full_node_addresses(a@)[i as int] != spec_full_node_addresses(
                b@,
            )[i as int]);
            return false;
        }
        i = i + 1;
    }
    proof {
        assert(spec_full_node_addresses(a@) =~= spec_full_node_addresses(b@));
    }
    true
}

/// Re-assembles genesis from the published shared state — every party sees
/// the same shared namespaces, so any vantage point re-derives the same
/// expected genesis — and compares the candidate field by field.
pub fn verify(layout: &Layout, store: &SecureStore, candidate: &Genesis) -> (r: Result<
    VerificationReport,
    BootstrapError,
>)
    requires
        layout.valid(),
    ensures
        (r matches Ok(_)) <==> spec_can_assemble(*layout, *store),
        r matches Ok(rep) ==> rep == spec_report(
            spec_assoc_key(*layout, *store),
            spec_genesis_validators(*layout, *store),
            *candidate,
        ),
        spec_assoc_slot(*layout, *store) is None ==> r matches Err(BootstrapError::NotFound),
        (spec_assoc_slot(*layout, *store) matches Some(v) && !(v matches
            StoredValue::PublicKeyOf(_))) ==> r matches Err(BootstrapError::MalformedRecord),
        forall|i: int|
            (spec_assoc_slot(*layout, *store) matches Some(StoredValue::PublicKeyOf(_))
                && spec_first_bad_operator(*layout, *store, 0) == Some(i)) ==> match #[trigger] spec_operator_slot(
                *layout,
                *store,
                i,
            ) {
                None => r matches Err(BootstrapError::IncompleteSubmission(n)) && n@
                    == layout.operators@[i]@,
                _ => r matches Err(BootstrapError::MalformedRecord),
            },
        (spec_assoc_slot(*layout, *store) matches Some(StoredValue::PublicKeyOf(_))
            && spec_first_bad_operator(*layout, *store, 0) is None && !spec_distinct_accounts(
            spec_records(*layout, *store),
        )) ==> r matches Err(BootstrapError::DuplicateAccount),
{
    let expected = match assemble(layout, store) {
        Ok(g) => g,
        Err(e) => {
            return Err(e);
        },
    };
    let association_key_match = candidate.association_key == expected.association_key;
    let accounts_match = accounts_eq(&candidate.validators, &expected.validators);
    let validator_addresses_match = validator_addresses_eq(
        &candidate.validators,
        &expected.validators,
    );
    let full_node_addresses_match = full_node_addresses_eq(
        &candidate.validators,
        &expected.validators,
    );
    Ok(
        VerificationReport {
            association_key_match,
            accounts_match,
            validator_addresses_match,
            full_node_addresses_match,
        },
    )
}

/// Soundness of verification: the report is a full match exactly when the
/// candidate equals, field for field, the genesis assembly would produce
/// from the same layout and records — nothing else can pass.
pub proof fn lemma_verification_sound(
    expected_key: PublicKey,
    expected: Seq<ValidatorConfigRecord>,
    candidate: Genesis,
)
    ensures
        spec_report(expected_key, expected, candidate).spec_full_match() <==> (
        candidate.association_key == expected_key && candidate.validators@ == expected),
{
    if spec_report(expected_key, expected, candidate).spec_full_match() {
        assert(spec_accounts(candidate.validators@).len() == candidate.validators@.len());
        assert(spec_accounts(expected).len() == expected.len());
        assert(candidate.validators@.len() == expected.len());
        assert forall|i: int| 0 <= i < expected.len() implies candidate.validators@[i]
            == expected[i] by {
            assert(spec_accounts(candidate.validators@)[i] == spec_accounts(expected)[i]);
            assert(spec_validator_addresses(candidate.validators@)[i] == spec_validator_addresses(
                expected,
            )[i]);
            assert(spec_full_node_addresses(candidate.validators@)[i] == spec_full_node_addresses(
                expected,
            )[i]);
        }
        assert(candidate.validators@ =~= expected);
    }
}

/// Attributability: corrupting a single operator's validator-network address
/// flips exactly one field of the report — the three untouched fields still
/// match, the address field alone differs.
pub proof fn lemma_single_address_mismatch(
    expected_key: PublicKey,
    expected: Seq<ValidatorConfigRecord>,
    candidate: Genesis,
    i: int,
    addr: NetworkAddress,
)
    requires
        0 <= i < expected.len(),
        addr != expected[i].validator_network_address,
        candidate.association_key == expected_key,
        candidate.validators@ == expected.update(
            i,
            ValidatorConfigRecord { validator_network_address: addr, ..expected[i] },
        ),
    ensures
        spec_report(expected_key, expected, candidate).association_key_match,
        spec_report(expected_key, expected, candidate).accounts_match,
        !spec_report(expected_key, expected, candidate).validator_addresses_match,
        spec_report(expected_key, expected, candidate).full_node_addresses_match,
{
    assert(spec_accounts(candidate.validators@) =~= spec_accounts(expected));
    assert(spec_full_node_addresses(candidate.validators@) =~= spec_full_node_addresses(expected));
    assert(spec_validator_addresses(candidate.validators@)[i] == addr);
    assert(spec_validator_addresses(expected)[i] == expected[i].validator_network_address);
}

} // verus!
