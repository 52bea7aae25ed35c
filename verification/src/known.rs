//! The catalogue of stubs that are known before anything runs.

use crate::identity::{views, Stub, StubView};
use crate::stub_set;
use fnv::FnvHashSet;
use vstd::prelude::*;

verus! {

/// The stubs that a list declares, each by its view.
pub open spec fn declared(stubs: Seq<Stub>) -> Set<StubView> {
    views(stubs).to_set()
}

/// Everything that is known to be a stub: what either list declares.
pub open spec fn catalogue(local: Seq<Stub>, external: Seq<Stub>) -> Set<StubView> {
    declared(local).union(declared(external))
}

/// Declaring one more stub adds that stub to what the list declares.
proof fn lemma_declared_next(stubs: Seq<Stub>, i: int)
    requires
        0 <= i < stubs.len(),
    ensures
        declared(stubs.take(i + 1)) == declared(stubs.take(i)).insert(stubs[i]@),
{
    let before = stubs.take(i);
    assert(stubs.take(i + 1) =~= before.push(stubs[i]));
    assert(views(before.push(stubs[i])) =~= views(before).push(stubs[i]@));
    views(before).lemma_push_to_set_commute(stubs[i]@);
}

/// Collects the stubs declared by the parts of the program (`local`) and
/// those of a catalogue that was generated elsewhere (`external`) into one
/// set, in which a stub that is declared more than once is held once.
///
/// Each call builds a new set, which the caller owns.
pub fn get_known_stubs(local: &[Stub], external: &[Stub]) -> (known: FnvHashSet<Stub>)
    ensures
        stub_set::contents(known) == catalogue(local@, external@),
{
    let mut result = stub_set::empty();
    for i in 0..local.len()
        invariant
            stub_set::contents(result) == declared(local@.take(i as int)),
    {
        proof {
            lemma_declared_next(local@, i as int);
        }
        stub_set::insert(&mut result, local[i].clone());
    }
    assert(local@.take(local@.len() as int) =~= local@);
    for i in 0..external.len()
        invariant
            stub_set::contents(result) == catalogue(local@, external@.take(i as int)),
    {
        proof {
            lemma_declared_next(external@, i as int);
        }
        stub_set::insert(&mut result, external[i].clone());
    }
    assert(external@.take(external@.len() as int) =~= external@);
    result
}

/// The catalogue is finite, and holds at most as many stubs as the two lists
/// have entries.
pub proof fn lemma_catalogue_is_finite(local: Seq<Stub>, external: Seq<Stub>)
    ensures
        catalogue(local, external).finite(),
        catalogue(local, external).len() <= local.len() + external.len(),
{
    views(local).lemma_cardinality_of_set();
    views(external).lemma_cardinality_of_set();
    vstd::set_lib::lemma_len_union(declared(local), declared(external));
}

/// Where the two lists have no stub in common, the catalogue holds as many
/// stubs as the two lists declare together. With `n` different stubs in one
/// list and `m` different stubs in the other, that is `n + m`.
pub proof fn lemma_catalogue_of_disjoint_lists(local: Seq<Stub>, external: Seq<Stub>)
    requires
        declared(local).disjoint(declared(external)),
    ensures
        catalogue(local, external).len() == declared(local).len() + declared(external).len(),
        views(local).no_duplicates() && views(external).no_duplicates() ==> catalogue(
            local,
            external,
        ).len() == local.len() + external.len(),
{
    vstd::set_lib::lemma_set_disjoint_lens(declared(local), declared(external));
    if views(local).no_duplicates() && views(external).no_duplicates() {
        views(local).unique_seq_to_set();
        views(external).unique_seq_to_set();
    }
}

/// Where the two lists declare the same stubs, the catalogue holds exactly
/// those. With `n` different stubs in each list, it holds `n`.
pub proof fn lemma_catalogue_of_equal_lists(local: Seq<Stub>, external: Seq<Stub>)
    requires
        declared(local) == declared(external),
    ensures
        catalogue(local, external) == declared(local),
        views(local).no_duplicates() ==> catalogue(local, external).len() == local.len(),
        views(external).no_duplicates() ==> catalogue(local, external).len() == external.len(),
{
    if views(local).no_duplicates() {
        views(local).unique_seq_to_set();
    }
    if views(external).no_duplicates() {
        views(external).unique_seq_to_set();
    }
}

} // verus!
