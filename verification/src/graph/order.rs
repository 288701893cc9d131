//! Dependency ordering.
use vstd::prelude::*;

verus! {

/// Everything an item depends on is in the list.
pub open spec fn ready(deps: Seq<Seq<int>>, i: int, order: Seq<int>) -> bool {
    forall|k: int| 0 <= k < deps[i].len() ==> order.contains(#[trigger] deps[i][k])
}

/// The list after a look at the items from `i` on: each that is ready and not in it yet is appended.
pub open spec fn sweep(deps: Seq<Seq<int>>, i: int, order: Seq<int>) -> Seq<int>
    decreases deps.len() - i,
{
    if !(0 <= i < deps.len()) {
        order
    } else if !order.contains(i) && ready(deps, i, order) {
        sweep(deps, i + 1, order.push(i))
    } else {
        sweep(deps, i + 1, order)
    }
}

/// The list after as many sweeps as add something to it.
pub open spec fn sweeps(deps: Seq<Seq<int>>, order: Seq<int>) -> Seq<int>
    decreases (if order.len() < deps.len() { deps.len() - order.len() } else { 0 }),
{
    let next = sweep(deps, 0, order);
    if order.len() < deps.len() && next.len() > order.len() {
        sweeps(deps, next)
    } else {
        order
    }
}

/// All items in an order in which each comes after what it depends on, as far as there is one.
pub open spec fn sorted(deps: Seq<Seq<int>>) -> Seq<int> {
    sweeps(deps, seq![])
}

/// The items from `i` on that are not in a list.
pub open spec fn missing(order: Seq<int>, i: int, count: int) -> Seq<int>
    decreases count - i,
{
    if i >= count {
        seq![]
    } else if order.contains(i) {
        missing(order, i + 1, count)
    } else {
        seq![i] + missing(order, i + 1, count)
    }
}

/// A list in which each item comes once, and after what it depends on.
pub open spec fn in_order(deps: Seq<Seq<int>>, order: Seq<int>) -> bool {
    &&& forall|p: int| 0 <= p < order.len() ==> 0 <= #[trigger] order[p] < deps.len()
    &&& forall|p: int, q: int| 0 <= p < q < order.len() ==> order[p] != order[q]
    &&& forall|p: int| 0 <= p < order.len() ==> ready(deps, #[trigger] order[p], order.take(p))
}

/// Dependencies are items.
pub open spec fn within(deps: Seq<Seq<int>>) -> bool {
    forall|i: int, k: int| 0 <= i < deps.len() && 0 <= k < deps[i].len() ==> 0 <= #[trigger] deps[i][k] < deps.len()
}

proof fn lemma_append(deps: Seq<Seq<int>>, order: Seq<int>, i: int)
    requires
        in_order(deps, order),
        0 <= i < deps.len(),
        !order.contains(i),
        ready(deps, i, order),
    ensures
        in_order(deps, order.push(i)),
{
    let next = order.push(i);
    assert forall|p: int| 0 <= p < next.len() implies ready(deps, #[trigger] next[p], next.take(p)) by {
        if p < order.len() {
            assert(next.take(p) =~= order.take(p));
            assert(next[p] == order[p]);
        } else {
            assert(next.take(p) =~= order);
        }
    }
}

proof fn lemma_sweep(deps: Seq<Seq<int>>, i: int, order: Seq<int>)
    requires
        in_order(deps, order),
        0 <= i <= deps.len(),
    ensures
        in_order(deps, sweep(deps, i, order)),
        order.is_prefix_of(sweep(deps, i, order)),
        sweep(deps, i, order).len() == order.len() ==> sweep(deps, i, order) == order && forall|j: int|
            i <= j < deps.len() && !order.contains(j) ==> !#[trigger] ready(deps, j, order),
    decreases deps.len() - i,
{
    if i < deps.len() {
        if !order.contains(i) && ready(deps, i, order) {
            lemma_append(deps, order, i);
            lemma_sweep(deps, i + 1, order.push(i));
        } else {
            lemma_sweep(deps, i + 1, order);
        }
    }
}

proof fn lemma_sweeps(deps: Seq<Seq<int>>, order: Seq<int>)
    requires
        in_order(deps, order),
    ensures
        in_order(deps, sweeps(deps, order)),
        sweeps(deps, order).len() < deps.len() ==> forall|j: int|
            0 <= j < deps.len() && !sweeps(deps, order).contains(j) ==> !#[trigger] ready(deps, j, sweeps(deps, order)),
    decreases (if order.len() < deps.len() { deps.len() - order.len() } else { 0 }),
{
    lemma_sweep(deps, 0, order);
    let next = sweep(deps, 0, order);
    if order.len() < deps.len() && next.len() > order.len() {
        lemma_sweeps(deps, next);
    } else if order.len() < deps.len() {
        assert(next == order);
    }
}

/// A list in order is no longer than there are items.
proof fn lemma_no_longer(deps: Seq<Seq<int>>, order: Seq<int>)
    requires
        in_order(deps, order),
    ensures
        order.len() <= deps.len(),
        order.len() == deps.len() ==> forall|i: int| 0 <= i < deps.len() ==> #[trigger] order.contains(i),
{
    let all = vstd::set_lib::set_int_range(0, deps.len() as int);
    vstd::set_lib::lemma_int_range(0, deps.len() as int);
    order.unique_seq_to_set();
    assert(order.to_set().subset_of(all));
    vstd::set_lib::lemma_len_subset(order.to_set(), all);
    if order.len() == deps.len() {
        vstd::set_lib::lemma_subset_equality(order.to_set(), all);
        assert forall|i: int| 0 <= i < deps.len() implies #[trigger] order.contains(i) by {
            assert(all.contains(i));
            assert(order.to_set().contains(i));
        }
    }
}

/// Whatever is sorted comes after what it depends on and comes once; and where not everything could
/// be sorted, each item left over depends on another one left over, so that some of them form a loop.
pub proof fn lemma_sorted(deps: Seq<Seq<int>>)
    requires
        within(deps),
    ensures
        in_order(deps, sorted(deps)),
        sorted(deps).len() <= deps.len(),
        sorted(deps).len() == deps.len() ==> forall|i: int| 0 <= i < deps.len() ==> #[trigger] sorted(deps).contains(i),
        sorted(deps).len() < deps.len() ==> forall|j: int|
            0 <= j < deps.len() && !#[trigger] sorted(deps).contains(j) ==> exists|k: int|
                0 <= k < deps[j].len() && !sorted(deps).contains(#[trigger] deps[j][k]),
{
    let none: Seq<int> = seq![];
    lemma_sweeps(deps, none);
    lemma_no_longer(deps, sorted(deps));
    if sorted(deps).len() < deps.len() {
        assert forall|j: int| 0 <= j < deps.len() && !#[trigger] sorted(deps).contains(j) implies exists|k: int|
            0 <= k < deps[j].len() && !sorted(deps).contains(#[trigger] deps[j][k]) by {
            assert(!ready(deps, j, sorted(deps)));
        }
    }
}

/// Where the dependencies form no loop, that is where the items can be ranked so that each ranks
/// above what it depends on, everything can be sorted.
pub proof fn lemma_sorts_what_has_no_loop(deps: Seq<Seq<int>>, rank: spec_fn(int) -> int)
    requires
        within(deps),
        forall|i: int, k: int|
            0 <= i < deps.len() && 0 <= k < deps[i].len() ==> rank(#[trigger] deps[i][k]) < rank(i),
    ensures
        sorted(deps).len() == deps.len(),
{
    lemma_sorted(deps);
    let order = sorted(deps);
    let all = vstd::set_lib::set_int_range(0, deps.len() as int);
    vstd::set_lib::lemma_int_range(0, deps.len() as int);
    order.unique_seq_to_set();
    assert forall|i: int| all.contains(i) implies order.to_set().contains(i) by {
        lemma_ranked_is_sorted(deps, rank, i, seq![]);
    }
    assert(all.subset_of(order.to_set()));
    vstd::set_lib::lemma_len_subset(all, order.to_set());
}

/// An item that can be ranked is sorted. From one left over a path would lead down the ranks, and
/// such a path visits no item twice, so it ends.
proof fn lemma_ranked_is_sorted(deps: Seq<Seq<int>>, rank: spec_fn(int) -> int, i: int, path: Seq<int>)
    requires
        0 <= i < deps.len(),
        within(deps),
        forall|i: int, k: int|
            0 <= i < deps.len() && 0 <= k < deps[i].len() ==> rank(#[trigger] deps[i][k]) < rank(i),
        path.len() <= deps.len(),
        forall|p: int| 0 <= p < path.len() ==> 0 <= #[trigger] path[p] < deps.len() && rank(path[p]) > rank(i),
        forall|p: int, q: int| 0 <= p < q < path.len() ==> rank(#[trigger] path[p]) > rank(#[trigger] path[q]),
    ensures
        sorted(deps).contains(i),
    decreases deps.len() - path.len(),
{
    lemma_sorted(deps);
    let next = path.push(i);
    let none: Seq<Seq<int>> = Seq::new(deps.len(), |j: int| seq![]);
    assert(in_order(none, next)) by {
        assert forall|p: int, q: int| 0 <= p < q < next.len() implies next[p] != next[q] by {
            if q < path.len() {
                assert(rank(path[p]) > rank(path[q]));
            }
        }
    }
    lemma_no_longer(none, next);
    if !sorted(deps).contains(i) {
        let k = choose|k: int| 0 <= k < deps[i].len() && !sorted(deps).contains(#[trigger] deps[i][k]);
        lemma_ranked_is_sorted(deps, rank, deps[i][k], next);
    }
}

/// The numbers of a list.
pub open spec fn ints(list: Seq<usize>) -> Seq<int> {
    Seq::new(list.len(), |k: int| list[k] as int)
}

/// The numbers of a list of lists.
pub open spec fn int_lists(lists: Seq<Vec<usize>>) -> Seq<Seq<int>> {
    Seq::new(lists.len(), |i: int| ints(lists[i]@))
}

fn all_done(deps: &Vec<usize>, done: &Vec<bool>, Ghost(order): Ghost<Seq<int>>) -> (r: bool)
    requires
        forall|k: int| 0 <= k < deps@.len() ==> #[trigger] deps@[k] < done@.len(),
        forall|i: int| 0 <= i < done@.len() ==> done@[i] == order.contains(i),
    ensures
        r == (forall|k: int| 0 <= k < ints(deps@).len() ==> order.contains(#[trigger] ints(deps@)[k])),
{
    let mut k: usize = 0;
    while k < deps.len()
        invariant
            k <= deps@.len(),
            forall|k: int| 0 <= k < deps@.len() ==> #[trigger] deps@[k] < done@.len(),
            forall|i: int| 0 <= i < done@.len() ==> done@[i] == order.contains(i),
            forall|j: int| 0 <= j < k ==> order.contains(#[trigger] ints(deps@)[j]),
        decreases deps@.len() - k,
    {
        assert(deps@[k as int] < done@.len());
        if !done[deps[k]] {
            assert(!order.contains(ints(deps@)[k as int]));
            return false;
        }
        k = k + 1;
    }
    true
}

/// Order items so each comes after its dependencies, or say which are left over because they, or
/// what they depend on, form a loop.
pub fn topo_order(deps: &Vec<Vec<usize>>) -> (r: Result<Vec<usize>, Vec<usize>>)
    requires
        forall|i: int, k: int| 0 <= i < deps@.len() && 0 <= k < deps@[i]@.len() ==> #[trigger] deps@[i]@[k] < deps@.len(),
    ensures
        match r {
            Ok(order) => ints(order@) == sorted(int_lists(deps@)) && order@.len() == deps@.len(),
            Err(stuck) => sorted(int_lists(deps@)).len() < deps@.len() && ints(stuck@) == missing(
                sorted(int_lists(deps@)),
                0,
                deps@.len() as int,
            ),
        },
{
    let count = deps.len();
    let ghost all = int_lists(deps@);
    let mut done: Vec<bool> = vec![false; count];
    let mut order: Vec<usize> = Vec::new();
    proof {
        assert(ints(order@) =~= seq![]);
        assert(within(all)) by {
            assert forall|i: int, k: int| 0 <= i < all.len() && 0 <= k < all[i].len() implies 0 <= #[trigger] all[i][k]
                < all.len() by {
                assert(deps@[i]@[k] < deps@.len());
            }
        }
        lemma_sorted(all);
    }
    while order.len() < count
        invariant
            count == deps@.len(),
            all == int_lists(deps@),
            within(all),
            done@.len() == count,
            forall|i: int, k: int|
                0 <= i < deps@.len() && 0 <= k < deps@[i]@.len() ==> #[trigger] deps@[i]@[k] < deps@.len(),
            forall|i: int| 0 <= i < count ==> done@[i] == ints(order@).contains(i),
            in_order(all, ints(order@)),
            sweeps(all, ints(order@)) == sorted(all),
        decreases count - order@.len(),
    {
        let ghost before = ints(order@);
        let before_len = order.len();
        let mut i: usize = 0;
        while i < count
            invariant
                i <= count == deps@.len(),
                all == int_lists(deps@),
                done@.len() == count,
                before_len <= order@.len(),
                forall|i: int, k: int|
                    0 <= i < deps@.len() && 0 <= k < deps@[i]@.len() ==> #[trigger] deps@[i]@[k] < deps@.len(),
                forall|i: int| 0 <= i < count ==> done@[i] == ints(order@).contains(i),
                in_order(all, ints(order@)),
                sweep(all, 0, before) == sweep(all, i as int, ints(order@)),
            decreases count - i,
        {
            let ghost list = ints(order@);
            assert(all[i as int] == ints(deps@[i as int]@));
            if !done[i] && all_done(&deps[i], &done, Ghost(list)) {
                assert(ready(all, i as int, list));
                done.set(i, true);
                order.push(i);
                proof {
                    lemma_append(all, list, i as int);
                    assert(ints(order@) =~= list.push(i as int));
                    assert forall|j: int| 0 <= j < count implies done@[j] == ints(order@).contains(j) by {
                        if j != i {
                            assert(list.push(i as int).contains(j) == list.contains(j)) by {
                                if list.contains(j) {
                                    let p = choose|p: int| 0 <= p < list.len() && list[p] == j;
                                    assert(list.push(i as int)[p] == j);
                                }
                            }
                        } else {
                            assert(list.push(i as int)[list.len() as int] == i);
                        }
                    }
                }
            } else {
                assert(list.contains(i as int) || !ready(all, i as int, list));
            }
            i = i + 1;
        }
        proof {
            lemma_no_longer(all, ints(order@));
        }
        if order.len() == before_len {
            proof {
                lemma_sweep(all, 0, before);
            }
            let mut stuck: Vec<usize> = Vec::new();
            let mut j: usize = 0;
            assert(ints(stuck@) + missing(before, 0, count as int) =~= missing(before, 0, count as int));
            while j < count
                invariant
                    j <= count,
                    done@.len() == count,
                    forall|i: int| 0 <= i < count ==> done@[i] == before.contains(i),
                    ints(stuck@) + missing(before, j as int, count as int) == missing(before, 0, count as int),
                decreases count - j,
            {
                if !done[j] {
                    let ghost was = ints(stuck@);
                    stuck.push(j);
                    assert(ints(stuck@) =~= was.push(j as int));
                    assert(ints(stuck@) + missing(before, j + 1, count as int) =~= was + (seq![j as int] + missing(
                        before,
                        j + 1,
                        count as int,
                    )));
                }
                j = j + 1;
            }
            assert(ints(stuck@) + missing(before, count as int, count as int) =~= ints(stuck@));
            return Err(stuck);
        }
    }
    proof {
        lemma_no_longer(all, ints(order@));
    }
    Ok(order)
}

} // verus!
