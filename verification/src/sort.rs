//! Stable ordering of the merged item list by the configured key: the
//! publication instant under Date (absent dates first), one shared empty key
//! under Channel (so that mode reorders nothing).
use vstd::prelude::*;

use crate::config::Order;
use crate::item::{views_of, DisplayItem, DisplayItemV};

verus! {

/// The sort key of one record under an ordering selection: its publication
/// instant under Date, with absent dates giving the empty key; the empty key
/// for every record under Channel, which therefore performs no reordering.
pub open spec fn sort_key(order: Order, d: DisplayItemV) -> Option<int> {
    match order {
        Order::Date => match d.pub_date {
            Some(p) => Some(p.0),
            None => None,
        },
        Order::Channel => None,
    }
}

/// Key order: the empty key comes before every present key.
pub open spec fn key_le(a: Option<int>, b: Option<int>) -> bool {
    match (a, b) {
        (Option::None, _) => true,
        (Option::Some(_), Option::None) => false,
        (Option::Some(x), Option::Some(y)) => x <= y,
    }
}

/// The records stand in nondecreasing key order.
pub open spec fn sorted_by_key(order: Order, s: Seq<DisplayItemV>) -> bool {
    forall|i: int, j: int|
        0 <= i < j < s.len() ==> key_le(
            sort_key(order, #[trigger] s[i]),
            sort_key(order, #[trigger] s[j]),
        )
}

/// The subsequence of records whose key is exactly `k`, in their present
/// order. A stable sort leaves this subsequence unchanged for every key.
pub open spec fn key_filter(order: Order, s: Seq<DisplayItemV>, k: Option<int>) -> Seq<
    DisplayItemV,
> {
    s.filter(|d: DisplayItemV| sort_key(order, d) == k)
}

/// Filtering by key distributes over concatenation.
proof fn lemma_key_filter_add(order: Order, p: Seq<DisplayItemV>, q: Seq<DisplayItemV>, k: Option<int>)
    ensures
        key_filter(order, p + q, k) == key_filter(order, p, k) + key_filter(order, q, k),
{
    broadcast use vstd::seq_lib::group_filter_ensures;

    assert(key_filter(order, p + q, k) =~= key_filter(order, p, k) + key_filter(order, q, k));
}

/// A sequence none of whose records has key `k` filters to the empty sequence.
proof fn lemma_key_filter_none(order: Order, s: Seq<DisplayItemV>, k: Option<int>)
    requires
        forall|t: int| 0 <= t < s.len() ==> sort_key(order, #[trigger] s[t]) != k,
    ensures
        key_filter(order, s, k) == Seq::<DisplayItemV>::empty(),
    decreases s.len(),
{
    reveal_with_fuel(Seq::filter, 2);
    if s.len() > 0 {
        lemma_key_filter_none(order, s.drop_last(), k);
    }
}

/// Filtering a single record by key keeps it exactly when its key is `k`.
proof fn lemma_key_filter_one(order: Order, x: DisplayItemV, k: Option<int>)
    ensures
        key_filter(order, seq![x], k) == if sort_key(order, x) == k {
            seq![x]
        } else {
            Seq::<DisplayItemV>::empty()
        },
{
    reveal_with_fuel(Seq::filter, 2);
    assert(seq![x].drop_last() =~= Seq::<DisplayItemV>::empty());
    if sort_key(order, x) == k {
        assert(key_filter(order, seq![x], k) =~= seq![x]);
    } else {
        assert(key_filter(order, seq![x], k) =~= Seq::<DisplayItemV>::empty());
    }
}

/// Moving the record at `i` back to position `j`, past records whose keys are
/// all strictly greater, preserves the record multiset and every per-key
/// subsequence.
proof fn lemma_move_preserves(order: Order, s: Seq<DisplayItemV>, i: int, j: int)
    requires
        0 <= j <= i < s.len(),
        forall|t: int|
            j <= t < i ==> !key_le(sort_key(order, #[trigger] s[t]), sort_key(order, s[i])),
    ensures
        s.remove(i).insert(j, s[i]).to_multiset() == s.to_multiset(),
        forall|k: Option<int>|
            #[trigger] key_filter(order, s.remove(i).insert(j, s[i]), k) == key_filter(
                order,
                s,
                k,
            ),
{
    broadcast use vstd::multiset::group_multiset_axioms;

    let x = s[i];
    let a = s.subrange(0, j);
    let b = s.subrange(j, i);
    let c = s.subrange(i + 1, s.len() as int);
    let t = s.remove(i).insert(j, x);
    assert(s =~= a + b + seq![x] + c);
    assert(t =~= a + seq![x] + b + c);
    assert(s.to_multiset() == a.to_multiset().add(b.to_multiset()).add(
        seq![x].to_multiset(),
    ).add(c.to_multiset())) by {
        vstd::seq_lib::lemma_multiset_commutative(a + b + seq![x], c);
        vstd::seq_lib::lemma_multiset_commutative(a + b, seq![x]);
        vstd::seq_lib::lemma_multiset_commutative(a, b);
    }
    assert(t.to_multiset() == a.to_multiset().add(seq![x].to_multiset()).add(
        b.to_multiset(),
    ).add(c.to_multiset())) by {
        vstd::seq_lib::lemma_multiset_commutative(a + seq![x] + b, c);
        vstd::seq_lib::lemma_multiset_commutative(a + seq![x], b);
        vstd::seq_lib::lemma_multiset_commutative(a, seq![x]);
    }
    assert(t.to_multiset() =~= s.to_multiset());
    assert forall|k: Option<int>| #[trigger] key_filter(order, t, k) == key_filter(order, s, k) by {
        lemma_key_filter_add(order, a + b + seq![x], c, k);
        lemma_key_filter_add(order, a + b, seq![x], k);
        lemma_key_filter_add(order, a, b, k);
        lemma_key_filter_add(order, a + seq![x] + b, c, k);
        lemma_key_filter_add(order, a + seq![x], b, k);
        lemma_key_filter_add(order, a, seq![x], k);
        lemma_key_filter_one(order, x, k);
        if sort_key(order, x) == k {
            lemma_key_filter_none(order, b, k);
            assert(key_filter(order, t, k) =~= key_filter(order, s, k));
        } else {
            assert(key_filter(order, t, k) =~= key_filter(order, s, k));
        }
    }
}

/// Taking views commutes with removing an element.
proof fn lemma_views_remove(s: Seq<DisplayItem>, i: int)
    requires
        0 <= i < s.len(),
    ensures
        views_of(s.remove(i)) == views_of(s).remove(i),
{
    assert(views_of(s.remove(i)) =~= views_of(s).remove(i));
}

/// Taking views commutes with inserting an element.
proof fn lemma_views_insert(s: Seq<DisplayItem>, i: int, x: DisplayItem)
    requires
        0 <= i <= s.len(),
    ensures
        views_of(s.insert(i, x)) == views_of(s).insert(i, x@),
{
    assert(views_of(s.insert(i, x)) =~= views_of(s).insert(i, x@));
}

/// In a key-sorted sequence, every record with an absent timestamp stands
/// before every record with a present one.
pub proof fn lemma_sorted_absent_first(order: Order, s: Seq<DisplayItemV>)
    requires
        sorted_by_key(order, s),
    ensures
        forall|p: int, q: int|
            0 <= p < q < s.len() && (#[trigger] sort_key(order, s[p])) is Some ==> (
            #[trigger] sort_key(order, s[q])) is Some,
{
}

/// The sort key of one record, for comparison during sorting.
fn item_key(order: Order, d: &DisplayItem) -> (r: Option<i64>)
    ensures
        match r {
            Some(e) => sort_key(order, d@) == Some(e as int),
            None => sort_key(order, d@) is None,
        },
{
    match order {
        Order::Date => match &d.pub_date {
            Some(p) => Some(p.epoch),
            None => None,
        },
        Order::Channel => None,
    }
}

/// Whether `a`'s key comes strictly after `b`'s.
fn key_gt(order: Order, a: &DisplayItem, b: &DisplayItem) -> (r: bool)
    ensures
        r == !key_le(sort_key(order, a@), sort_key(order, b@)),
{
    let ka = item_key(order, a);
    let kb = item_key(order, b);
    match (ka, kb) {
        (Option::None, _) => false,
        (Option::Some(_), Option::None) => true,
        (Option::Some(x), Option::Some(y)) => x > y,
    }
}

/// Stable sort of the merged records by the configured key. The result is in
/// nondecreasing key order — records with absent timestamps all come before
/// records with present ones — holds the same records, and keeps the records
/// of each exact key in their original relative order, whatever the input
/// order was.
pub fn sort_items(items: &mut Vec<DisplayItem>, order: Order)
    ensures
        final(items)@.len() == old(items)@.len(),
        sorted_by_key(order, views_of(final(items)@)),
        views_of(final(items)@).to_multiset() == views_of(old(items)@).to_multiset(),
        forall|k: Option<int>|
            #[trigger] key_filter(order, views_of(final(items)@), k) == key_filter(
                order,
                views_of(old(items)@),
                k,
            ),
{
    let n = items.len();
    if n <= 1 {
        return ;
    }
    let mut i: usize = 1;
    while i < n
        invariant
            1 <= i <= n,
            n == items@.len(),
            n == old(items)@.len(),
            sorted_by_key(order, views_of(items@).take(i as int)),
            views_of(items@).to_multiset() == views_of(old(items)@).to_multiset(),
            forall|k: Option<int>|
                #[trigger] key_filter(order, views_of(items@), k) == key_filter(
                    order,
                    views_of(old(items)@),
                    k,
                ),
        decreases n - i,
    {
        let mut j: usize = i;
        while j > 0 && key_gt(order, &items[j - 1], &items[i])
            invariant
                0 <= j <= i < n,
                n == items@.len(),
                forall|t: int|
                    j <= t < i ==> !key_le(
                        sort_key(order, views_of(items@)[t]),
                        sort_key(order, views_of(items@)[i as int]),
                    ),
                sorted_by_key(order, views_of(items@).take(i as int)),
            decreases j,
        {
            j -= 1;
        }
        let ghost pre_items = items@;
        let ghost pre = views_of(items@);
        let x = items.remove(i);
        let ghost mid_items = items@;
        items.insert(j, x);
        proof {
            lemma_views_remove(pre_items, i as int);
            lemma_views_insert(mid_items, j as int, x);
            assert(views_of(items@) == pre.remove(i as int).insert(j as int, pre[i as int]));
            lemma_move_preserves(order, pre, i as int, j as int);
            let post = views_of(items@);
            assert forall|p: int, q: int| 0 <= p < q < i + 1 implies key_le(
                sort_key(order, #[trigger] post.take(i + 1)[p]),
                sort_key(order, #[trigger] post.take(i + 1)[q]),
            ) by {
                assert(forall|t: int| 0 <= t < j ==> post[t] == pre[t]);
                assert(post[j as int] == pre[i as int]);
                assert(forall|t: int| j < t <= i ==> post[t] == pre[t - 1]);
                if j > 0 {
                    assert(key_le(sort_key(order, pre[j - 1]), sort_key(order, pre[i as int])));
                }
            }
            assert(sorted_by_key(order, post.take(i + 1)));
        }
        i += 1;
    }
    proof {
        assert(views_of(items@).take(n as int) =~= views_of(items@));
    }
}

} // verus!
