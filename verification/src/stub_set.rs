//! The hash set that holds stubs: `fnv::FnvHashSet`, which is the standard
//! library's `HashSet` with the deterministic hasher `fnv::FnvHasher`.
//!
//! Nothing in this file is proved. Each function wraps one operation of the
//! set and states what that operation does to what the set holds.
//!
//! The set tells stubs apart by `==` and `Hash`. `==` on [`Stub`] is proved to
//! hold exactly when the views are equal, and the derived `Hash` feeds the
//! hasher the variant and the text of each field, so that equal stubs hash
//! alike. To the set, then, two stubs are one exactly when their views are
//! equal, and what it holds is a set of views.

use crate::identity::{views, Stub, StubView};
use fnv::FnvHashSet;
use vstd::prelude::*;

verus! {

/// `fnv::FnvHasher`, the state of one FNV-1a hash computation.
#[verifier::external_type_specification]
#[verifier::external_body]
pub struct ExFnvHasher(fnv::FnvHasher);

/// `std::hash::BuildHasherDefault`, which makes each hasher by `Default`.
#[verifier::external_type_specification]
#[verifier::external_body]
#[verifier::reject_recursive_types(H)]
pub struct ExBuildHasherDefault<H>(std::hash::BuildHasherDefault<H>);

/// The stubs that a set holds, each by its view.
pub uninterp spec fn contents(set: FnvHashSet<Stub>) -> Set<StubView>;

/// `FnvHashSet::default`, that is `HashSet::default` with a new
/// `FnvBuildHasher`: the set it makes holds nothing.
#[verifier::external_body]
pub(crate) fn empty() -> (set: FnvHashSet<Stub>)
    ensures
        contents(set) == Set::<StubView>::empty(),
{
    FnvHashSet::default()
}

/// `HashSet::contains` on an `FnvHashSet`: whether the set holds a stub equal
/// to `stub`.
#[verifier::external_body]
pub(crate) fn contains(set: &FnvHashSet<Stub>, stub: &Stub) -> (found: bool)
    ensures
        found == contents(*set).contains(stub@),
{
    set.contains(stub)
}

/// `HashSet::insert` on an `FnvHashSet`: afterwards the set holds `stub` and
/// what it held before. The result says whether `stub` was new to the set;
/// where it was not, the set keeps the stub it held.
#[verifier::external_body]
pub(crate) fn insert(set: &mut FnvHashSet<Stub>, stub: Stub) -> (fresh: bool)
    ensures
        contents(*final(set)) == contents(*old(set)).insert(stub@),
        fresh == !contents(*old(set)).contains(stub@),
{
    set.insert(stub)
}

/// `HashSet::iter` on an `FnvHashSet`, collected into a vector: every stub
/// that the set holds, each once. The order is that of the hash table, and
/// nothing is said of it.
#[verifier::external_body]
pub(crate) fn items<'a>(set: &'a FnvHashSet<Stub>) -> (held: Vec<&'a Stub>)
    ensures
        views(held@).no_duplicates(),
        views(held@).to_set() == contents(*set),
{
    set.iter().collect()
}

} // verus!
