//! The layout manifest: which namespaces act as association authority and
//! which as operators. Published once into the common namespace and read by
//! every participant; its invariant (association non-empty, no duplicate
//! operator namespaces) is enforced at read time.

use vstd::prelude::*;
use crate::BootstrapError;
use crate::store::{SecureStore, StoreSlot, StoredValue};

verus! {

/// The shared manifest coordinating one bootstrap round.
#[derive(Debug)]
pub struct Layout {
    pub association: Vec<String>,
    pub operators: Vec<String>,
}

impl Layout {
    /// The invariant every consumer relies on: a non-empty association set
    /// and no operator namespace named twice.
    pub open spec fn valid(self) -> bool {
        &&& self.association@.len() > 0
        &&& forall|i: int, j: int|
            0 <= i < j < self.operators@.len() ==> self.operators@[i]@ != self.operators@[j]@
    }

    /// An equal copy of this layout.
    pub fn dup(&self) -> (r: Layout)
        ensures
            r.association@ == self.association@,
            r.operators@ == self.operators@,
    {
        Layout {
            association: clone_names(&self.association),
            operators: clone_names(&self.operators),
        }
    }
}

/// Copies a list of namespace names, element for element.
fn clone_names(v: &Vec<String>) -> (r: Vec<String>)
    ensures
        r@ == v@,
{
    let mut r: Vec<String> = Vec::new();
    let mut i: usize = 0;
    while i < v.len()
        invariant
            i <= v.len(),
            r@ == v@.take(i as int),
        decreases v.len() - i,
    {
        r.push(v[i].clone());
        proof {
            assert(v@.take(i as int).push(v@[i as int]) =~= v@.take(i as int + 1));
        }
        i = i + 1;
    }
    proof {
        assert(v@.take(v@.len() as int) =~= v@);
    }
    r
}

/// Reports whether no two of the given namespace names are equal.
pub fn distinct_names(v: &Vec<String>) -> (b: bool)
    ensures
        b == (forall|i: int, j: int| 0 <= i < j < v@.len() ==> v@[i]@ != v@[j]@),
{
    let mut i: usize = 1;
    while i < v.len()
        invariant
            i >= 1,
            forall|p: int, q: int| 0 <= p < q < i ==> v@[p]@ != v@[q]@,
        decreases v.len() - i,
    {
        let mut j: usize = 0;
        while j < i
            invariant
                j <= i,
                i < v@.len(),
                forall|p: int| 0 <= p < j ==> v@[p]@ != v@[i as int]@,
            decreases i - j,
        {
            if v[j] == v[i] {
                return false;
            }
            j = j + 1;
        }
        i = i + 1;
    }
    true
}

/// Publishes the manifest into the common namespace. The layout of a round
/// is written once: republishing requires a fresh round, so the slot must
/// still be empty.
pub fn publish(store: &mut SecureStore, common_ns: &String, layout: Layout)
    requires
        old(store).lookup(common_ns@, StoreSlot::LayoutDoc) is None,
    ensures
        final(store).lookup(common_ns@, StoreSlot::LayoutDoc) == Some(
            StoredValue::LayoutOf(layout),
        ),
        forall|n: Seq<char>, k: StoreSlot|
            !(n == common_ns@ && k == StoreSlot::LayoutDoc) ==> final(store).lookup(n, k) == old(
                store,
            ).lookup(n, k),
        final(store).next_seed == old(store).next_seed,
        final(store).namespaces@ == old(store).namespaces@,
{
    store.set(common_ns, StoreSlot::LayoutDoc, StoredValue::LayoutOf(layout));
}

/// Reads the published manifest back: `NotFound` when absent, `ParseError`
/// when the slot holds something else or the manifest breaks the layout
/// invariant (empty association, duplicate operators).
pub fn read<'a>(store: &'a SecureStore, common_ns: &String) -> (r: Result<
    &'a Layout,
    BootstrapError,
>)
    ensures
        match store.lookup(common_ns@, StoreSlot::LayoutDoc) {
            Some(v) => match v {
                StoredValue::LayoutOf(l) => if l.valid() {
                    r matches Ok(out) && *out == l
                } else {
                    r matches Err(BootstrapError::ParseError)
                },
                _ => r matches Err(BootstrapError::ParseError),
            },
            None => r matches Err(BootstrapError::NotFound),
        },
        r matches Ok(out) ==> out.valid(),
{
    match store.get(common_ns, StoreSlot::LayoutDoc) {
        Ok(v) => match v {
            StoredValue::LayoutOf(l) => {
                if l.association.len() > 0 && distinct_names(&l.operators) {
                    Ok(l)
                } else {
                    Err(BootstrapError::ParseError)
                }
            },
            _ => Err(BootstrapError::ParseError),
        },
        Err(_) => Err(BootstrapError::NotFound),
    }
}

} // verus!
