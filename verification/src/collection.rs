//! The stubs that one session has run into, and what is reported of them.

use crate::identity::{views, Stub, StubView};
use crate::stub_set;
use fnv::FnvHashSet;
use vstd::prelude::*;

verus! {

/// The stubs encountered so far. It starts empty and only grows.
#[derive(Debug)]
pub struct StubCollection {
    inner: FnvHashSet<Stub>,
}

impl View for StubCollection {
    type V = Set<StubView>;

    closed spec fn view(&self) -> Set<StubView> {
        stub_set::contents(self.inner)
    }
}

/// The line to log when `stub` is encountered: its description the first
/// time, nothing after that.
pub open spec fn reported(seen: Set<StubView>, stub: StubView) -> Option<Seq<char>> {
    if seen.contains(stub) {
        None
    } else {
        Some(stub.description())
    }
}

/// The stubs seen after a run of encounters, where `seen` were seen before it.
pub open spec fn seen_after(seen: Set<StubView>, stubs: Seq<StubView>) -> Set<StubView>
    decreases stubs.len(),
{
    if stubs.len() == 0 {
        seen
    } else {
        seen_after(seen, stubs.drop_last()).insert(stubs.last())
    }
}

/// The lines logged over a run of encounters, the earliest first, where `seen`
/// were seen before it.
pub open spec fn logged(seen: Set<StubView>, stubs: Seq<StubView>) -> Seq<Seq<char>>
    decreases stubs.len(),
{
    if stubs.len() == 0 {
        Seq::empty()
    } else {
        let earlier = stubs.drop_last();
        match reported(seen_after(seen, earlier), stubs.last()) {
            Some(line) => logged(seen, earlier).push(line),
            None => logged(seen, earlier),
        }
    }
}

/// A run of `n` encounters of one stub.
pub open spec fn repeated(stub: StubView, n: nat) -> Seq<StubView> {
    Seq::new(n, |i: int| stub)
}

impl StubCollection {
    /// A collection that has seen nothing.
    pub fn new() -> (collection: Self)
        ensures
            collection@ == Set::<StubView>::empty(),
    {
        StubCollection { inner: stub_set::empty() }
    }

    /// Records that `stub` was reached.
    ///
    /// The first time a stub is encountered the result is the line that the
    /// caller must log as a warning: the stub's description. Every later
    /// encounter of an equal stub returns `None` and changes nothing.
    pub fn encounter(&mut self, stub: &Stub) -> (report: Option<String>)
        ensures
            final(self)@ == old(self)@.insert(stub@),
            old(self)@.contains(stub@) ==> final(self)@ == old(self)@,
            report.deep_view() == reported(old(self)@, stub@),
    {
        if !stub_set::contains(&self.inner, stub) {
            let line = stub.to_string();
            stub_set::insert(&mut self.inner, stub.clone());
            Some(line)
        } else {
            None
        }
    }

    /// Every stub seen so far, each once, in no particular order.
    pub fn iter(&self) -> (stubs: Vec<&Stub>)
        ensures
            views(stubs@).no_duplicates(),
            views(stubs@).to_set() == self@,
            self@.finite(),
            stubs@.len() == self@.len(),
    {
        let stubs = stub_set::items(&self.inner);
        proof {
            views(stubs@).unique_seq_to_set();
        }
        stubs
    }
}

impl Default for StubCollection {
    /// A collection that has seen nothing.
    fn default() -> (collection: Self)
        ensures
            collection@ == Set::<StubView>::empty(),
    {
        StubCollection::new()
    }
}

/// After any run of encounters the collection holds what it held before and
/// every stub of the run: nothing is forgotten. One line is logged for each
/// stub that the run has added, however often the run encounters it.
pub proof fn lemma_one_line_for_each_new_stub(seen: Set<StubView>, stubs: Seq<StubView>)
    requires
        seen.finite(),
    ensures
        seen_after(seen, stubs) == seen.union(stubs.to_set()),
        seen_after(seen, stubs).finite(),
        logged(seen, stubs).len() == seen_after(seen, stubs).len() - seen.len(),
    decreases stubs.len(),
{
    if stubs.len() > 0 {
        let earlier = stubs.drop_last();
        lemma_one_line_for_each_new_stub(seen, earlier);
        assert(stubs =~= earlier.push(stubs.last()));
    }
}

/// However often a stub is encountered, at least once, it is seen from then
/// on, it is logged once if it had not been seen before and not at all if it
/// had, and a listing of the stubs seen holds it exactly once.
pub proof fn lemma_repeated_encounters(
    seen: Set<StubView>,
    stub: StubView,
    n: nat,
    listing: Seq<StubView>,
)
    requires
        n >= 1,
        listing.no_duplicates(),
        listing.to_set() == seen_after(seen, repeated(stub, n)),
    ensures
        seen_after(seen, repeated(stub, n)) == seen.insert(stub),
        !seen.contains(stub) ==> logged(seen, repeated(stub, n)) == seq![stub.description()],
        seen.contains(stub) ==> logged(seen, repeated(stub, n)) == Seq::<Seq<char>>::empty(),
        listing.to_multiset().count(stub) == 1,
{
    lemma_repeated_run(seen, stub, n);
    assert(listing.to_set().contains(stub));
    listing.to_multiset_ensures();
    listing.lemma_multiset_has_no_duplicates();
}

/// What a run of `n` encounters of one stub leaves behind and logs.
proof fn lemma_repeated_run(seen: Set<StubView>, stub: StubView, n: nat)
    requires
        n >= 1,
    ensures
        seen_after(seen, repeated(stub, n)) == seen.insert(stub),
        !seen.contains(stub) ==> logged(seen, repeated(stub, n)) == seq![stub.description()],
        seen.contains(stub) ==> logged(seen, repeated(stub, n)) == Seq::<Seq<char>>::empty(),
    decreases n,
{
    let run = repeated(stub, n);
    let earlier = repeated(stub, (n - 1) as nat);
    assert(run.drop_last() =~= earlier);
    if n == 1 {
        assert(logged(seen, earlier) =~= Seq::<Seq<char>>::empty());
    } else {
        lemma_repeated_run(seen, stub, (n - 1) as nat);
    }
}

/// Two stubs whose fields hold the same text are one stub: once either has
/// been encountered, an encounter of the other logs nothing and changes
/// nothing.
pub proof fn lemma_equal_stubs_are_one(seen: Set<StubView>, first: Stub, second: Stub)
    requires
        first@ == second@,
    ensures
        reported(seen.insert(first@), second@) is None,
        seen.insert(first@).insert(second@) == seen.insert(first@),
        reported(seen, second@) == reported(seen, first@),
{
}

/// Stubs that differ in any field are tracked apart: an encounter of one
/// does not change what an encounter of the other logs, so two stubs that
/// have not been seen are both logged.
pub proof fn lemma_distinct_stubs_are_apart(seen: Set<StubView>, first: Stub, second: Stub)
    requires
        first@ != second@,
    ensures
        reported(seen.insert(first@), second@) == reported(seen, second@),
        !seen.contains(first@) && !seen.contains(second@) ==> logged(
            seen,
            seq![first@, second@],
        ) == seq![first@.description(), second@.description()],
{
    let run = seq![first@, second@];
    let earlier = seq![first@];
    let none = Seq::<StubView>::empty();
    assert(run.drop_last() =~= earlier);
    assert(earlier.drop_last() =~= none);
    assert(logged(seen, none) =~= Seq::<Seq<char>>::empty());
    if !seen.contains(first@) && !seen.contains(second@) {
        assert(logged(seen, earlier) =~= seq![first@.description()]);
    }
}

} // verus!
