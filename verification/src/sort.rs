//! Stable sorting under a caller-supplied precedence relation.
//!
//! The sorted form of a sequence is defined by inserting its items one by
//! one, each after every item that may stand before it. For a total preorder
//! this arrangement is ordered, holds the same items, and keeps tied items
//! in the relative order in which they stood.

use crate::text::{
    compare_str, lemma_str_order_antisymmetric, lemma_str_order_equal,
    lemma_str_order_transitive, str_order, Order,
};
use vstd::prelude::*;

verus! {

/// A precedence relation on the model values `V`.
pub trait SpecOrder<V> {
    /// Whether `a` may stand before `b` (they are tied if both directions hold).
    spec fn le(&self, a: V, b: V) -> bool;
}

/// A precedence relation that can be decided on the items themselves.
pub trait Precedence<T: DeepView>: SpecOrder<T::V> {
    /// Decides whether `a` may stand before `b`.
    fn precedes(&self, a: &T, b: &T) -> (r: bool)
        ensures
            r == self.le(a.deep_view(), b.deep_view()),
    ;
}

/// The model values of a sequence of items.
pub open spec fn models<T: DeepView>(s: Seq<T>) -> Seq<T::V> {
    Seq::new(s.len(), |i: int| s[i].deep_view())
}

/// `by` relates every two values one way or the other, and is transitive.
pub open spec fn is_total_preorder<V, O: SpecOrder<V>>(by: O) -> bool {
    &&& forall|a: V, b: V| #[trigger] by.le(a, b) || by.le(b, a)
    &&& forall|a: V, b: V, c: V| #[trigger] by.le(a, b) && #[trigger] by.le(b, c) ==> by.le(a, c)
}

/// Every item may stand before every later one.
pub open spec fn is_sorted<V, O: SpecOrder<V>>(s: Seq<V>, by: O) -> bool {
    forall|i: int, j: int| 0 <= i < j < s.len() ==> by.le(#[trigger] s[i], #[trigger] s[j])
}

/// `s` with `x` placed after the last item that may stand before it.
pub open spec fn insert_sorted<V, O: SpecOrder<V>>(s: Seq<V>, x: V, by: O) -> Seq<V>
    decreases s.len(),
{
    if s.len() == 0 {
        seq![x]
    } else if by.le(s.last(), x) {
        s.push(x)
    } else {
        insert_sorted(s.drop_last(), x, by).push(s.last())
    }
}

/// The stable arrangement of `s` under `by`.
pub open spec fn stable_sorted<V, O: SpecOrder<V>>(s: Seq<V>, by: O) -> Seq<V>
    decreases s.len(),
{
    if s.len() == 0 {
        s
    } else {
        insert_sorted(stable_sorted(s.drop_last(), by), s.last(), by)
    }
}

/// Where `insert_sorted` puts `x`: at `j`, when nothing from `j` on may
/// stand before `x` and the item before `j` may.
pub proof fn lemma_insert_sorted_at<V, O: SpecOrder<V>>(s: Seq<V>, x: V, by: O, j: int)
    requires
        0 <= j <= s.len(),
        forall|t: int| j <= t < s.len() ==> !by.le(#[trigger] s[t], x),
        j == 0 || by.le(s[j - 1], x),
    ensures
        insert_sorted(s, x, by) == s.insert(j, x),
    decreases s.len(),
{
    if s.len() == 0 {
        assert(seq![x] =~= s.insert(j, x));
    } else if j == s.len() {
        assert(s.push(x) =~= s.insert(j, x));
    } else {
        assert(!by.le(s[s.len() - 1], x));
        lemma_insert_sorted_at(s.drop_last(), x, by, j);
        assert(s.drop_last().insert(j, x).push(s.last()) =~= s.insert(j, x));
    }
}

/// Inserting keeps the length plus one and the items, each as often as before.
pub proof fn lemma_insert_sorted_items<V, O: SpecOrder<V>>(s: Seq<V>, x: V, by: O)
    ensures
        insert_sorted(s, x, by).len() == s.len() + 1,
        insert_sorted(s, x, by).to_multiset() == s.to_multiset().insert(x),
    decreases s.len(),
{
    broadcast use vstd::seq_lib::group_to_multiset_ensures;

    if s.len() == 0 {
        assert(s =~= Seq::<V>::empty());
        assert(seq![x] =~= Seq::<V>::empty().push(x));
    } else if by.le(s.last(), x) {
    } else {
        let rest = s.drop_last();
        lemma_insert_sorted_items(rest, x, by);
        assert(s =~= rest.push(s.last()));
        assert(rest.to_multiset().insert(x).insert(s.last()) =~= rest.to_multiset().insert(
            s.last(),
        ).insert(x));
    }
}

/// The stable arrangement holds the same items as the input, each as often.
pub proof fn lemma_stable_sorted_items<V, O: SpecOrder<V>>(s: Seq<V>, by: O)
    ensures
        stable_sorted(s, by).len() == s.len(),
        stable_sorted(s, by).to_multiset() == s.to_multiset(),
    decreases s.len(),
{
    broadcast use vstd::seq_lib::group_to_multiset_ensures;

    if s.len() > 0 {
        lemma_stable_sorted_items(s.drop_last(), by);
        lemma_insert_sorted_items(stable_sorted(s.drop_last(), by), s.last(), by);
        assert(s =~= s.drop_last().push(s.last()));
    }
}

/// Inserting into an ordered sequence leaves it ordered.
pub proof fn lemma_insert_sorted_keeps_order<V, O: SpecOrder<V>>(s: Seq<V>, x: V, by: O)
    requires
        is_total_preorder(by),
        is_sorted(s, by),
    ensures
        is_sorted(insert_sorted(s, x, by), by),
    decreases s.len(),
{
    let out = insert_sorted(s, x, by);
    if s.len() == 0 {
    } else if by.le(s.last(), x) {
        assert forall|i: int, j: int| 0 <= i < j < out.len() implies by.le(
            #[trigger] out[i],
            #[trigger] out[j],
        ) by {
            if j == s.len() {
                if i < s.len() - 1 {
                    assert(by.le(s[i], s[s.len() - 1]));
                }
                assert(by.le(s[i], s.last()) && by.le(s.last(), x));
            }
        }
    } else {
        let rest = s.drop_last();
        let last = s.last();
        lemma_insert_sorted_keeps_order(rest, x, by);
        let mid = insert_sorted(rest, x, by);
        lemma_insert_sorted_items(rest, x, by);
        assert(by.le(last, x) || by.le(x, last));
        assert forall|k: int| 0 <= k < mid.len() implies by.le(#[trigger] mid[k], last) by {
            // every item of `mid` is `x` or an item of `rest`
            lemma_insert_sorted_members(rest, x, by, k);
            if mid[k] != x {
                let t = choose|t: int| 0 <= t < rest.len() && rest[t] == mid[k];
                assert(by.le(s[t], s[s.len() - 1]));
            }
        }
        assert forall|i: int, j: int| 0 <= i < j < out.len() implies by.le(
            #[trigger] out[i],
            #[trigger] out[j],
        ) by {
            if j < mid.len() {
                assert(by.le(mid[i], mid[j]));
            }
        }
    }
}

/// Each item of the result of an insertion is the inserted one or was there before.
pub proof fn lemma_insert_sorted_members<V, O: SpecOrder<V>>(s: Seq<V>, x: V, by: O, k: int)
    requires
        0 <= k < insert_sorted(s, x, by).len(),
    ensures
        insert_sorted(s, x, by)[k] == x || exists|t: int|
            0 <= t < s.len() && s[t] == insert_sorted(s, x, by)[k],
    decreases s.len(),
{
    if s.len() == 0 {
    } else if by.le(s.last(), x) {
        if k < s.len() {
            assert(s[k] == insert_sorted(s, x, by)[k]);
        }
    } else {
        let rest = s.drop_last();
        lemma_insert_sorted_items(rest, x, by);
        if k < rest.len() + 1 {
            lemma_insert_sorted_members(rest, x, by, k);
            if insert_sorted(rest, x, by)[k] != x {
                let t = choose|t: int| 0 <= t < rest.len() && rest[t] == insert_sorted(rest, x, by)[k];
                assert(s[t] == insert_sorted(s, x, by)[k]);
            }
        } else {
            assert(s[s.len() - 1] == insert_sorted(s, x, by)[k]);
        }
    }
}

/// Under a total preorder the stable arrangement is ordered.
pub proof fn lemma_stable_sorted_is_sorted<V, O: SpecOrder<V>>(s: Seq<V>, by: O)
    requires
        is_total_preorder(by),
    ensures
        is_sorted(stable_sorted(s, by), by),
    decreases s.len(),
{
    if s.len() > 0 {
        lemma_stable_sorted_is_sorted(s.drop_last(), by);
        lemma_insert_sorted_keeps_order(stable_sorted(s.drop_last(), by), s.last(), by);
    }
}

/// Sorting an ordered sequence changes nothing.
pub proof fn lemma_stable_sorted_fixes_sorted<V, O: SpecOrder<V>>(s: Seq<V>, by: O)
    requires
        is_sorted(s, by),
    ensures
        stable_sorted(s, by) == s,
    decreases s.len(),
{
    if s.len() > 0 {
        let rest = s.drop_last();
        assert forall|i: int, j: int| 0 <= i < j < rest.len() implies by.le(
            #[trigger] rest[i],
            #[trigger] rest[j],
        ) by {
            assert(by.le(s[i], s[j]));
        }
        lemma_stable_sorted_fixes_sorted(rest, by);
        if rest.len() == 0 {
            assert(seq![s.last()] =~= s);
        } else {
            assert(by.le(s[rest.len() - 1], s[s.len() - 1]));
            assert(rest.push(s.last()) =~= s);
        }
    }
}

/// Whether `a` and `b` tie: each may stand before the other.
pub open spec fn tied<V, O: SpecOrder<V>>(a: V, b: V, by: O) -> bool {
    by.le(a, b) && by.le(b, a)
}

/// The items of `s` that tie with `x`, in order.
pub open spec fn ties_of<V, O: SpecOrder<V>>(s: Seq<V>, x: V, by: O) -> Seq<V>
    decreases s.len(),
{
    if s.len() == 0 {
        s
    } else if tied(s.last(), x, by) {
        ties_of(s.drop_last(), x, by).push(s.last())
    } else {
        ties_of(s.drop_last(), x, by)
    }
}

/// An inserted item comes behind the items that tie with it.
pub proof fn lemma_insert_sorted_keeps_ties<V, O: SpecOrder<V>>(s: Seq<V>, y: V, x: V, by: O)
    requires
        is_total_preorder(by),
    ensures
        ties_of(insert_sorted(s, y, by), x, by) == if tied(y, x, by) {
            ties_of(s, x, by).push(y)
        } else {
            ties_of(s, x, by)
        },
    decreases s.len(),
{
    if s.len() == 0 {
        assert(seq![y].drop_last() =~= s);
    } else if by.le(s.last(), y) {
        assert(s.push(y).drop_last() =~= s);
    } else {
        let rest = s.drop_last();
        lemma_insert_sorted_keeps_ties(rest, y, x, by);
        assert(insert_sorted(rest, y, by).push(s.last()).drop_last() =~= insert_sorted(
            rest,
            y,
            by,
        ));
        if tied(y, x, by) && tied(s.last(), x, by) {
            assert(by.le(s.last(), x) && by.le(x, y));
        }
    }
}

/// Sorting is stable: the items that tie with one another stand in the
/// result in the order in which they stood before.
pub proof fn stable_sorted_keeps_ties<V, O: SpecOrder<V>>(s: Seq<V>, x: V, by: O)
    requires
        is_total_preorder(by),
    ensures
        ties_of(stable_sorted(s, by), x, by) == ties_of(s, x, by),
    decreases s.len(),
{
    if s.len() > 0 {
        stable_sorted_keeps_ties(s.drop_last(), x, by);
        lemma_insert_sorted_keeps_ties(stable_sorted(s.drop_last(), by), s.last(), x, by);
    }
}

/// Every item of the stable arrangement is an item of the input.
pub proof fn lemma_stable_sorted_members<V, O: SpecOrder<V>>(s: Seq<V>, by: O, k: int)
    requires
        0 <= k < stable_sorted(s, by).len(),
    ensures
        exists|t: int| 0 <= t < s.len() && s[t] == stable_sorted(s, by)[k],
    decreases s.len(),
{
    if s.len() > 0 {
        let rest = stable_sorted(s.drop_last(), by);
        lemma_stable_sorted_items(s.drop_last(), by);
        lemma_insert_sorted_members(rest, s.last(), by, k);
        if stable_sorted(s, by)[k] == s.last() {
            assert(s[s.len() - 1] == stable_sorted(s, by)[k]);
        } else {
            let j = choose|j: int| 0 <= j < rest.len() && rest[j] == stable_sorted(s, by)[k];
            lemma_stable_sorted_members(s.drop_last(), by, j);
            let t = choose|t: int|
                0 <= t < s.drop_last().len() && s.drop_last()[t] == stable_sorted(
                    s.drop_last(),
                    by,
                )[j];
            assert(s[t] == stable_sorted(s, by)[k]);
        }
    }
}

/// No two items of `s` tie.
pub open spec fn has_no_ties<V, O: SpecOrder<V>>(s: Seq<V>, by: O) -> bool {
    forall|i: int, j: int|
        0 <= i < s.len() && 0 <= j < s.len() && i != j ==> !tied(#[trigger] s[i], #[trigger] s[j], by)
}

/// Items of which no two tie can be put in order in one way only.
pub proof fn lemma_sorted_arrangement_is_unique<V, O: SpecOrder<V>>(a: Seq<V>, b: Seq<V>, by: O)
    requires
        is_total_preorder(by),
        is_sorted(a, by),
        is_sorted(b, by),
        has_no_ties(a, by),
        a.to_multiset() == b.to_multiset(),
    ensures
        a == b,
    decreases a.len(),
{
    vstd::seq_lib::to_multiset_len(a);
    vstd::seq_lib::to_multiset_len(b);
    if a.len() > 0 {
        let x = a[0];
        let y = b[0];
        // each of the two first items may stand before the other
        assert(b.contains(y));
        vstd::seq_lib::to_multiset_contains(b, y);
        vstd::seq_lib::to_multiset_contains(a, y);
        let s = choose|s: int| 0 <= s < a.len() && a[s] == y;
        assert(a.contains(x));
        vstd::seq_lib::to_multiset_contains(a, x);
        vstd::seq_lib::to_multiset_contains(b, x);
        let t = choose|t: int| 0 <= t < b.len() && b[t] == x;
        assert(by.le(x, x) || by.le(x, x));
        assert(by.le(x, y)) by {
            if s > 0 {
                assert(by.le(a[0], a[s]));
            }
        }
        assert(by.le(y, x)) by {
            if t > 0 {
                assert(by.le(b[0], b[t]));
            } else {
                assert(by.le(y, y) || by.le(y, y));
            }
        }
        if s != 0 {
            assert(tied(a[0], a[s], by));
        }
        assert(x == y);
        vstd::seq_lib::to_multiset_remove(a, 0);
        vstd::seq_lib::to_multiset_remove(b, 0);
        let ta = a.remove(0);
        let tb = b.remove(0);
        assert forall|i: int, j: int| 0 <= i < j < ta.len() implies by.le(
            #[trigger] ta[i],
            #[trigger] ta[j],
        ) by {
            assert(by.le(a[i + 1], a[j + 1]));
        }
        assert forall|i: int, j: int| 0 <= i < j < tb.len() implies by.le(
            #[trigger] tb[i],
            #[trigger] tb[j],
        ) by {
            assert(by.le(b[i + 1], b[j + 1]));
        }
        assert forall|i: int, j: int|
            0 <= i < ta.len() && 0 <= j < ta.len() && i != j implies !tied(
            #[trigger] ta[i],
            #[trigger] ta[j],
            by,
        ) by {
            assert(!tied(a[i + 1], a[j + 1], by));
        }
        lemma_sorted_arrangement_is_unique(ta, tb, by);
        assert(a =~= seq![x] + ta);
        assert(b =~= seq![y] + tb);
    }
}

/// Two relations that agree on every pair arrange every sequence alike.
pub proof fn lemma_stable_sorted_same<V, O1: SpecOrder<V>, O2: SpecOrder<V>>(
    s: Seq<V>,
    first: O1,
    second: O2,
)
    requires
        forall|a: V, b: V| #[trigger] first.le(a, b) == second.le(a, b),
    ensures
        stable_sorted(s, first) == stable_sorted(s, second),
    decreases s.len(),
{
    if s.len() > 0 {
        lemma_stable_sorted_same(s.drop_last(), first, second);
        lemma_insert_sorted_same(stable_sorted(s.drop_last(), first), s.last(), first, second);
    }
}

/// Two relations that agree on every pair insert alike.
pub proof fn lemma_insert_sorted_same<V, O1: SpecOrder<V>, O2: SpecOrder<V>>(
    s: Seq<V>,
    x: V,
    first: O1,
    second: O2,
)
    requires
        forall|a: V, b: V| #[trigger] first.le(a, b) == second.le(a, b),
    ensures
        insert_sorted(s, x, first) == insert_sorted(s, x, second),
    decreases s.len(),
{
    if s.len() > 0 {
        assert(first.le(s.last(), x) == second.le(s.last(), x));
        lemma_insert_sorted_same(s.drop_last(), x, first, second);
    }
}

/// Sorts `v` in place, keeping tied items in the relative order in which they stood.
pub fn stable_sort<T: DeepView, P: Precedence<T>>(v: &mut Vec<T>, by: &P)
    ensures
        final(v).deep_view() == stable_sorted(old(v).deep_view(), *by),
        final(v)@.len() == old(v)@.len(),
        final(v).deep_view().to_multiset() == old(v).deep_view().to_multiset(),
        is_total_preorder(*by) ==> is_sorted(final(v).deep_view(), *by),
{
    let ghost orig = v@;
    let n = v.len();
    let mut i: usize = 0;
    proof {
        assert(models(orig.take(0)) =~= Seq::<T::V>::empty());
    }
    while i < n
        invariant
            v.len() == n,
            n == orig.len(),
            i <= n,
            models(v@.take(i as int)) == stable_sorted(models(orig.take(i as int)), *by),
            v@.skip(i as int) == orig.skip(i as int),
        decreases n - i,
    {
        let ghost before = v@;
        let mut j: usize = i;
        loop
            invariant_except_break
                j <= i,
            invariant
                i < n,
                v@ == before,
                v.len() == n,
                j <= i,
                forall|t: int| j <= t < i ==> !by.le(#[trigger] v@[t].deep_view(), v@[i as int].deep_view()),
            ensures
                j == 0 || by.le(v@[j - 1].deep_view(), v@[i as int].deep_view()),
            decreases j,
        {
            if j == 0 {
                break ;
            }
            if by.precedes(&v[j - 1], &v[i]) {
                break ;
            }
            j -= 1;
        }
        let x = v.remove(i);
        v.insert(j, x);
        proof {
            let prefix = models(before.take(i as int));
            let xv = before[i as int].deep_view();
            assert(before[i as int] == orig[i as int]) by {
                assert(before.skip(i as int)[0] == orig.skip(i as int)[0]);
            }
            assert forall|t: int| j <= t < prefix.len() implies !by.le(#[trigger] prefix[t], xv) by {
                assert(prefix[t] == before[t].deep_view());
            }
            lemma_insert_sorted_at(prefix, xv, *by, j as int);
            assert(models(v@.take(i + 1)) =~= prefix.insert(j as int, xv));
            assert(orig.take(i + 1).drop_last() =~= orig.take(i as int));
            assert(models(orig.take(i + 1)).drop_last() =~= models(orig.take(i as int)));
            assert(models(orig.take(i + 1)).last() == xv);
            assert forall|t: int| i + 1 <= t < n implies #[trigger] v@[t] == orig[t] by {
                assert(before.skip(i as int)[t - i] == orig.skip(i as int)[t - i]);
            }
            assert(v@.skip(i + 1) =~= orig.skip(i + 1));
        }
        i += 1;
    }
    proof {
        assert(v@.take(n as int) =~= v@);
        assert(orig.take(n as int) =~= orig);
        assert(v.deep_view() =~= models(v@));
        assert(old(v).deep_view() =~= models(orig));
        lemma_stable_sorted_items(models(orig), *by);
        if is_total_preorder(*by) {
            lemma_stable_sorted_is_sorted(models(orig), *by);
        }
    }
}


/// The precedence of strings by their bytes.
pub struct ByteOrder;

impl SpecOrder<Seq<char>> for ByteOrder {
    open spec fn le(&self, a: Seq<char>, b: Seq<char>) -> bool {
        str_order(a, b) != Order::Greater
    }
}

impl Precedence<String> for ByteOrder {
    fn precedes(&self, a: &String, b: &String) -> (r: bool) {
        compare_str(a.as_str(), b.as_str()) != Order::Greater
    }
}

/// The order of strings by their bytes is total.
pub proof fn byte_order_is_total()
    ensures
        is_total_preorder::<Seq<char>, ByteOrder>(ByteOrder),
{
    let by = ByteOrder;
    assert forall|a: Seq<char>, b: Seq<char>| #[trigger] by.le(a, b) || by.le(b, a) by {
        lemma_str_order_antisymmetric(a, b);
    }
    assert forall|a: Seq<char>, b: Seq<char>, c: Seq<char>| #[trigger]
        by.le(a, b) && #[trigger] by.le(b, c) implies by.le(a, c) by {
        lemma_str_order_transitive(a, b, c);
    }
}

/// `v` stands at place `k` of `s`, and at no other.
pub open spec fn stands_only_at<T>(s: Seq<T>, v: T, k: int) -> bool {
    &&& 0 <= k < s.len()
    &&& s[k] == v
    &&& forall|m: int| 0 <= m < s.len() && #[trigger] s[m] == v ==> m == k
}

/// `v` stands at exactly one place of `s`.
pub open spec fn held_once<T>(s: Seq<T>, v: T) -> bool {
    exists|k: int| stands_only_at(s, v, k)
}

/// An item stands at exactly one place of a list exactly when the list
/// holds it once.
pub proof fn lemma_held_once_counts<T>(s: Seq<T>, v: T)
    ensures
        held_once(s, v) <==> s.to_multiset().count(v) == 1,
    decreases s.len(),
{
    if s.len() == 0 {
        assert(s.to_multiset().len() == 0) by {
            vstd::seq_lib::to_multiset_len(s);
        }
        assert(s.to_multiset().count(v) == 0) by {
            vstd::seq_lib::to_multiset_contains(s, v);
        }
        if held_once(s, v) {
            let k = choose|k: int| stands_only_at(s, v, k);
            assert(false);
        }
    } else {
        let rest = s.drop_last();
        let last = s.last();
        assert(s =~= rest.push(last));
        vstd::seq_lib::to_multiset_build(rest, last);
        vstd::seq_lib::to_multiset_contains(rest, v);
        lemma_held_once_counts(rest, v);
        let n = s.len() - 1;
        if held_once(s, v) {
            let k = choose|k: int| stands_only_at(s, v, k);
            if last == v {
                assert(s[n] == v);
                assert(k == n);
                if rest.contains(v) {
                    let m = choose|m: int| 0 <= m < rest.len() && rest[m] == v;
                    assert(s[m] == v);
                }
            } else {
                assert(k < n);
                assert(rest[k] == v);
                assert forall|m: int| 0 <= m < rest.len() && #[trigger] rest[m] == v implies m
                    == k by {
                    assert(s[m] == v);
                }
                assert(stands_only_at(rest, v, k));
            }
        }
        if s.to_multiset().count(v) == 1 {
            if last == v {
                assert(!rest.contains(v));
                assert forall|m: int| 0 <= m < s.len() && #[trigger] s[m] == v implies m == n by {
                    if m < n {
                        assert(rest[m] == v);
                    }
                }
                assert(stands_only_at(s, v, n));
            } else {
                let k = choose|k: int| stands_only_at(rest, v, k);
                assert(s[k] == rest[k]);
                assert forall|m: int| 0 <= m < s.len() && #[trigger] s[m] == v implies m == k by {
                    if m < n {
                        assert(rest[m] == v);
                    }
                }
                assert(stands_only_at(s, v, k));
            }
        }
    }
}

/// Where exactly one item of a list has a property, exactly one item of
/// every rearrangement of the list has it, and it is the same item.
pub proof fn lemma_only_one_rearranged<T>(
    s: Seq<T>,
    t: Seq<T>,
    fits: spec_fn(T) -> bool,
    at: int,
) -> (k: int)
    requires
        s.to_multiset() == t.to_multiset(),
        0 <= at < s.len(),
        fits(s[at]),
        forall|m: int| 0 <= m < s.len() && fits(#[trigger] s[m]) ==> m == at,
    ensures
        0 <= k < t.len(),
        t[k] == s[at],
        forall|m: int| 0 <= m < t.len() && fits(#[trigger] t[m]) ==> m == k,
{
    let v = s[at];
    assert(stands_only_at(s, v, at));
    lemma_held_once_counts(s, v);
    lemma_held_once_counts(t, v);
    let k = choose|k: int| stands_only_at(t, v, k);
    assert forall|m: int| 0 <= m < t.len() && fits(#[trigger] t[m]) implies m == k by {
        assert(t.contains(t[m]));
        vstd::seq_lib::to_multiset_contains(t, t[m]);
        vstd::seq_lib::to_multiset_contains(s, t[m]);
        let p = choose|p: int| 0 <= p < s.len() && s[p] == t[m];
        assert(fits(s[p]));
        assert(t[m] == v);
    }
    k
}

/// Strings of which none occurs twice come out in one order, whatever
/// the order in which they are given.
pub proof fn sorted_strings_ignore_order(a: Seq<Seq<char>>, b: Seq<Seq<char>>)
    requires
        a.no_duplicates(),
        a.to_multiset() == b.to_multiset(),
    ensures
        stable_sorted(a, ByteOrder) == stable_sorted(b, ByteOrder),
{
    let by = ByteOrder;
    let x = stable_sorted(a, by);
    let y = stable_sorted(b, by);
    byte_order_is_total();
    lemma_stable_sorted_is_sorted(a, by);
    lemma_stable_sorted_is_sorted(b, by);
    lemma_stable_sorted_items(a, by);
    lemma_stable_sorted_items(b, by);
    a.lemma_multiset_has_no_duplicates();
    x.lemma_multiset_has_no_duplicates_conv();
    assert forall|i: int, j: int| 0 <= i < x.len() && 0 <= j < x.len() && i != j implies !tied(
        #[trigger] x[i],
        #[trigger] x[j],
        by,
    ) by {
        lemma_str_order_antisymmetric(x[i], x[j]);
        lemma_str_order_equal(x[i], x[j]);
    }
    lemma_sorted_arrangement_is_unique(x, y, by);
}

/// A copy of `items` in the order of their bytes.
pub fn sorted_strings(items: &Vec<String>) -> (r: Vec<String>)
    ensures
        r.deep_view() == stable_sorted(items.deep_view(), ByteOrder),
        r.len() == items.len(),
        r.deep_view().to_multiset() == items.deep_view().to_multiset(),
        is_sorted(r.deep_view(), ByteOrder),
{
    proof {
        byte_order_is_total();
    }
    let mut r = items.clone();
    proof {
        assert(r.deep_view() =~= items.deep_view());
    }
    stable_sort(&mut r, &ByteOrder);
    r
}

} // verus!
