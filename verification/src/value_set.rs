use std::collections::HashSet;
use vstd::prelude::*;

verus! {

broadcast use vstd::std_specs::hash::group_hash_axioms;

/// The handles `order` with `value` added behind them, unless it is among them.
pub open spec fn inserted(order: Seq<u64>, value: u64) -> Seq<u64> {
    if order.contains(value) {
        order
    } else {
        order.push(value)
    }
}

/// The handles `order` after each of `values` was added in turn.
pub open spec fn inserted_all(order: Seq<u64>, values: Seq<u64>) -> Seq<u64>
    decreases values.len(),
{
    if values.len() == 0 {
        order
    } else {
        inserted(inserted_all(order, values.drop_last()), values.last())
    }
}

/// A set of opaque handles that remembers the order in which they came.
///
/// Its view is the handles in the order of their first insertion.
#[derive(Debug)]
pub struct ValueSet {
    members: HashSet<u64>,
    order: Vec<u64>,
}

impl ValueSet {
    /// The two halves agree: `order` lists each member once.
    pub closed spec fn wf(&self) -> bool {
        &&& self.members@ == self.order@.to_set()
        &&& self.order@.no_duplicates()
    }

    /// The handles, in the order of their first insertion.
    pub closed spec fn view(&self) -> Seq<u64> {
        self.order@
    }

    /// Makes an empty set.
    pub fn new() -> (set: ValueSet)
        ensures
            set.wf(),
            set@ == Seq::<u64>::empty(),
    {
        let set = ValueSet { members: HashSet::new(), order: Vec::new() };
        assert(set.members@ =~= set.order@.to_set());
        set
    }

    /// Adds `value`; answers whether it was new.
    pub fn insert(&mut self, value: u64) -> (fresh: bool)
        requires
            old(self).wf(),
        ensures
            final(self).wf(),
            final(self)@ == inserted(old(self)@, value),
            fresh == !old(self)@.contains(value),
    {
        let fresh: bool = self.members.insert(value);
        if fresh {
            self.order.push(value);
        }
        proof {
            lemma_inserted(old(self)@, value);
        }
        fresh
    }

    /// Adds each of `values` in turn.
    pub fn insert_all(&mut self, values: &[u64])
        requires
            old(self).wf(),
        ensures
            final(self).wf(),
            final(self)@ == inserted_all(old(self)@, values@),
    {
        let mut i: usize = 0;
        while i < values.len()
            invariant
                i <= values.len(),
                self.wf(),
                self@ == inserted_all(old(self)@, values@.subrange(0, i as int)),
            decreases values.len() - i,
        {
            assert(values@.subrange(0, i + 1).drop_last() =~= values@.subrange(0, i as int));
            self.insert(values[i]);
            i += 1;
        }
        assert(values@.subrange(0, i as int) =~= values@);
    }

    /// Whether `value` is in the set.
    pub fn contains(&self, value: u64) -> (found: bool)
        requires
            self.wf(),
        ensures
            found == self@.contains(value),
    {
        self.members.contains(&value)
    }

    /// The number of handles.
    pub fn len(&self) -> (n: usize)
        ensures
            n == self@.len(),
    {
        self.order.len()
    }

    /// The handle that came `i`-th.
    pub fn get(&self, i: usize) -> (value: u64)
        requires
            i < self@.len(),
        ensures
            value == self@[i as int],
    {
        self.order[i]
    }

    /// A second set with the same handles in the same order.
    pub fn duplicate(&self) -> (copy: ValueSet)
        requires
            self.wf(),
        ensures
            copy.wf(),
            copy@ == self@,
    {
        let mut copy = ValueSet::new();
        let mut i: usize = 0;
        while i < self.order.len()
            invariant
                i <= self.order.len(),
                self.wf(),
                copy.wf(),
                copy@ =~= self.order@.subrange(0, i as int),
            decreases self.order.len() - i,
        {
            copy.insert(self.order[i]);
            i += 1;
        }
        assert(self.order@.subrange(0, i as int) =~= self.order@);
        copy
    }

    /// No handle is listed twice.
    pub proof fn lemma_no_duplicates(&self)
        requires
            self.wf(),
        ensures
            self@.no_duplicates(),
    {
    }

    /// The handles, in the order of their first insertion.
    pub fn to_vec(&self) -> (values: Vec<u64>)
        ensures
            values@ == self@,
    {
        let mut values: Vec<u64> = Vec::new();
        let mut i: usize = 0;
        while i < self.order.len()
            invariant
                i <= self.order.len(),
                values@ =~= self.order@.subrange(0, i as int),
            decreases self.order.len() - i,
        {
            values.push(self.order[i]);
            i += 1;
        }
        assert(self.order@.subrange(0, i as int) =~= self.order@);
        values
    }
}

/// Adding a handle keeps each handle listed once, and adds exactly that handle
/// to the set.
pub proof fn lemma_inserted(order: Seq<u64>, value: u64)
    requires
        order.no_duplicates(),
    ensures
        inserted(order, value).no_duplicates(),
        inserted(order, value).to_set() == order.to_set().insert(value),
        inserted(order, value).contains(value),
        forall|w: u64| order.contains(w) ==> inserted(order, value).contains(w),
{
    let after = inserted(order, value);
    if order.contains(value) {
        assert(after.to_set() =~= order.to_set().insert(value));
    } else {
        assert forall|w: u64| after.to_set().contains(w) <==> order.to_set().insert(
            value,
        ).contains(w) by {
            if after.contains(w) {
                let k = choose|k: int| 0 <= k < after.len() && after[k] == w;
                if k < order.len() {
                    assert(order[k] == w);
                }
            }
            if order.contains(w) {
                let k = choose|k: int| 0 <= k < order.len() && order[k] == w;
                assert(after[k] == w);
            }
            if w == value {
                assert(after[order.len() as int] == value);
            }
        }
        assert(after.to_set() =~= order.to_set().insert(value));
        assert(after[order.len() as int] == value);
        assert forall|w: u64| order.contains(w) implies after.contains(w) by {
            let k = choose|k: int| 0 <= k < order.len() && order[k] == w;
            assert(after[k] == w);
        }
    }
}

/// Adding a run of handles keeps each handle listed once; the set then holds
/// what it held before and every handle of the run, and nothing else.
pub proof fn lemma_inserted_all(order: Seq<u64>, values: Seq<u64>)
    requires
        order.no_duplicates(),
    ensures
        inserted_all(order, values).no_duplicates(),
        forall|w: u64|
            inserted_all(order, values).contains(w) <==> (order.contains(w) || values.contains(w)),
    decreases values.len(),
{
    if values.len() > 0 {
        let front = values.drop_last();
        let mid = inserted_all(order, front);
        lemma_inserted_all(order, front);
        lemma_inserted(mid, values.last());
        let after = inserted_all(order, values);
        assert forall|w: u64| after.contains(w) <==> (order.contains(w) || values.contains(
            w,
        )) by {
            assert(after.to_set().contains(w) <==> mid.to_set().insert(values.last()).contains(w));
            if values.contains(w) {
                let k = choose|k: int| 0 <= k < values.len() && values[k] == w;
                if k < front.len() {
                    assert(front[k] == w);
                }
            }
            if front.contains(w) {
                let k = choose|k: int| 0 <= k < front.len() && front[k] == w;
                assert(values[k] == w);
            }
            assert(values[values.len() - 1] == values.last());
        }
    }
}

} // verus!
