use vstd::prelude::*;

verus! {

/// Whether entry `a` ranks before entry `b` when entries are ordered by
/// descending key, equal keys keeping their original order.
pub open spec fn ranks_before(keys: Seq<u128>, a: int, b: int) -> bool {
    keys[a] > keys[b] || (keys[a] == keys[b] && a < b)
}

/// `order` lists every index of `keys` once, from the largest key down;
/// among equal keys the earlier index comes first. This is the order a
/// stable sort by descending key leaves the entries in.
pub open spec fn is_ranking(keys: Seq<u128>, order: Seq<usize>) -> bool {
    &&& order.len() == keys.len()
    &&& forall|i: int| 0 <= i < order.len() ==> #[trigger] order[i] < keys.len()
    &&& forall|k: usize| k < keys.len() ==> #[trigger] order.contains(k)
    &&& forall|i: int, j: int|
        0 <= i < j < order.len() ==> ranks_before(keys, #[trigger] order[i] as int, #[trigger] order[j] as int)
}

/// The indices of `keys` from the largest key down, equal keys in their
/// original order (a stable sort by descending key).
pub fn rank_descending(keys: &Vec<u128>) -> (order: Vec<usize>)
    ensures
        is_ranking(keys@, order@),
{
    let n: usize = keys.len();
    let mut order: Vec<usize> = Vec::new();
    let mut i: usize = 0;
    while i < n
        invariant
            n == keys@.len(),
            i <= n,
            order@.len() == i,
            forall|p: int| 0 <= p < order@.len() ==> #[trigger] order@[p] < i,
            forall|k: usize| k < i ==> #[trigger] order@.contains(k),
            forall|p: int, q: int|
                0 <= p < q < order@.len() ==> ranks_before(keys@, #[trigger] order@[p] as int, #[trigger] order@[q] as int),
        decreases n - i,
    {
        let key: u128 = keys[i];
        let mut j: usize = 0;
        while j < order.len() && keys[order[j]] >= key
            invariant
                n == keys@.len(),
                i < n,
                key == keys@[i as int],
                order@.len() == i,
                j <= order@.len(),
                forall|p: int| 0 <= p < order@.len() ==> #[trigger] order@[p] < i,
                forall|p: int| 0 <= p < j ==> keys@[#[trigger] order@[p] as int] >= key,
            decreases order@.len() - j,
        {
            j = j + 1;
        }
        let ghost old_order = order@;
        order.insert(j, i);
        proof {
            assert forall|p: int| 0 <= p < order@.len() implies #[trigger] order@[p] < i + 1 by {
                if p < j {
                    assert(order@[p] == old_order[p]);
                } else if p > j {
                    assert(order@[p] == old_order[p - 1]);
                }
            }
            assert forall|k: usize| k < i + 1 implies #[trigger] order@.contains(k) by {
                if k == i {
                    assert(order@[j as int] == i);
                } else {
                    assert(old_order.contains(k));
                    let p = choose|p: int| 0 <= p < old_order.len() && old_order[p] == k as usize;
                    if p < j {
                        assert(order@[p] == k);
                    } else {
                        assert(order@[p + 1] == k);
                    }
                }
            }
            assert forall|p: int, q: int| 0 <= p < q < order@.len() implies ranks_before(
                keys@,
                #[trigger] order@[p] as int,
                #[trigger] order@[q] as int,
            ) by {
                if q < j {
                    assert(order@[p] == old_order[p] && order@[q] == old_order[q]);
                } else if q == j {
                    assert(order@[p] == old_order[p]);
                    assert(keys@[old_order[p] as int] >= key);
                } else if p > j {
                    assert(order@[p] == old_order[p - 1] && order@[q] == old_order[q - 1]);
                } else if p == j {
                    assert(order@[q] == old_order[q - 1]);
                    assert(keys@[old_order[j as int] as int] < key);
                    if q - 1 > j {
                        assert(ranks_before(keys@, old_order[j as int] as int, old_order[q - 1] as int));
                    }
                } else {
                    assert(order@[p] == old_order[p] && order@[q] == old_order[q - 1]);
                }
            }
        }
        i = i + 1;
    }
    order
}

/// The indices of the entries that do not make the cut when only the `keep`
/// entries with the largest keys are kept (equal keys favour the earlier
/// entry), listed in rank order.
pub fn surplus(keys: &Vec<u128>, keep: usize) -> (discard: Vec<usize>)
    ensures
        discard@.len() == if keep < keys@.len() { keys@.len() - keep } else { 0 },
        exists|order: Seq<usize>|
            #[trigger] is_ranking(keys@, order) && discard@ == order.subrange(
                if keep < keys@.len() { keep as int } else { keys@.len() as int },
                keys@.len() as int,
            ),
{
    let order = rank_descending(keys);
    let n: usize = order.len();
    let mut discard: Vec<usize> = Vec::new();
    let mut p: usize = keep;
    while p < n
        invariant
            n == order@.len(),
            keep <= p,
            p <= n || discard@.len() == 0,
            p < n ==> discard@ == order@.subrange(keep as int, p as int),
            p >= n ==> discard@ == order@.subrange(if keep < n { keep as int } else { n as int }, n as int),
        decreases n - p,
    {
        discard.push(order[p]);
        p = p + 1;
        assert(discard@ =~= order@.subrange(keep as int, p as int));
    }
    assert(discard@ =~= order@.subrange(if keep < n { keep as int } else { n as int }, n as int));
    discard
}

/// Ranking is exact: the keys decide the ranking completely, so any two
/// rankings of the same keys are the same sequence.
pub proof fn lemma_ranking_unique(keys: Seq<u128>, o1: Seq<usize>, o2: Seq<usize>)
    requires
        is_ranking(keys, o1),
        is_ranking(keys, o2),
    ensures
        o1 == o2,
{
    assert forall|p: int| 0 <= p < o1.len() implies o1[p] == o2[p] by {
        lemma_ranking_agrees_at(keys, o1, o2, p);
    }
    assert(o1 =~= o2);
}

proof fn lemma_ranking_agrees_at(keys: Seq<u128>, o1: Seq<usize>, o2: Seq<usize>, p: int)
    requires
        is_ranking(keys, o1),
        is_ranking(keys, o2),
        0 <= p < o1.len(),
    ensures
        o1[p] == o2[p],
    decreases p,
{
    if o1[p] != o2[p] {
        let a = o1[p];
        let b = o2[p];
        assert forall|r: int| 0 <= r < p implies o1[r] == o2[r] by {
            lemma_ranking_agrees_at(keys, o1, o2, r);
        }
        assert(o1.contains(b));
        let q = choose|q: int| 0 <= q < o1.len() && o1[q] == b;
        assert(o2.contains(a));
        let r = choose|r: int| 0 <= r < o2.len() && o2[r] == a;
        if q < p {
            assert(o2[q] == b);
            assert(ranks_before(keys, o2[q] as int, o2[p] as int));
        }
        if r < p {
            assert(o1[r] == a);
            assert(ranks_before(keys, o1[r] as int, o1[p] as int));
        }
        assert(q > p);
        assert(r > p);
        assert(ranks_before(keys, o1[p] as int, o1[q] as int));
        assert(ranks_before(keys, o2[p] as int, o2[r] as int));
    }
}

/// Whatever is kept outranks whatever is discarded: in a ranking, every
/// entry before the cut has a key at least as large as every entry after it.
pub proof fn lemma_kept_outrank_discarded(keys: Seq<u128>, order: Seq<usize>, keep: int, p: int, q: int)
    requires
        is_ranking(keys, order),
        0 <= p < keep <= q < order.len(),
    ensures
        keys[order[p] as int] >= keys[order[q] as int],
{
    assert(ranks_before(keys, order[p] as int, order[q] as int));
}

} // verus!
