//! Putting lists in order.
use vstd::prelude::*;

verus! {

/// What can be put in order.
pub trait Ranked: View + Sized {
    /// Whether `a` may stand before `b`.
    spec fn precedes(a: Self::V, b: Self::V) -> bool;

    /// Any two can be put in order.
    proof fn total(a: Self::V, b: Self::V)
        ensures
            Self::precedes(a, b) || Self::precedes(b, a),
    ;

    /// The order carries over.
    proof fn transitive(a: Self::V, b: Self::V, c: Self::V)
        requires
            Self::precedes(a, b),
            Self::precedes(b, c),
        ensures
            Self::precedes(a, c),
    ;

    /// Whether this may stand before `other`.
    fn may_precede(&self, other: &Self) -> (b: bool)
        ensures
            b == Self::precedes(self@, other@),
    ;
}

/// What the items of a list stand for.
pub open spec fn views<T: View>(items: Seq<T>) -> Seq<T::V> {
    Seq::new(items.len(), |i: int| items[i]@)
}

/// Whether each item of `s` may stand before the later ones.
pub open spec fn in_rank<T: Ranked>(s: Seq<T::V>) -> bool {
    forall|i: int, j: int| 0 <= i < j < s.len() ==> T::precedes(#[trigger] s[i], #[trigger] s[j])
}

/// The items that rank as `x` does.
pub open spec fn ranked_as<T: Ranked>(x: T::V) -> spec_fn(T::V) -> bool {
    |y: T::V| T::precedes(x, y) && T::precedes(y, x)
}

/// Whether `sorted` holds the items of `given` in order, and those of equal rank as they were.
pub open spec fn stably_sorted<T: Ranked>(sorted: Seq<T::V>, given: Seq<T::V>) -> bool {
    &&& in_rank::<T>(sorted)
    &&& forall|x: T::V|
        sorted.filter(ranked_as::<T>(x)) == given.filter(#[trigger] ranked_as::<T>(x))
}

/// How far down from the `k`th place `x` moves: past all that it has to stand before.
pub open spec fn place_below<T: Ranked>(s: Seq<T::V>, x: T::V, k: int) -> int
    decreases k,
{
    if k > 0 && !T::precedes(s[k - 1], x) {
        place_below::<T>(s, x, k - 1)
    } else {
        k
    }
}

/// `given` in order; see [`sorting_is_stable`].
pub open spec fn arranged<T: Ranked>(given: Seq<T::V>) -> Seq<T::V>
    decreases given.len(),
{
    if given.len() == 0 {
        given
    } else {
        let s = arranged::<T>(given.drop_last());
        s.insert(place_below::<T>(s, given.last(), s.len() as int), given.last())
    }
}

proof fn lemma_filter_one<V>(x: V, pred: spec_fn(V) -> bool)
    ensures
        seq![x].filter(pred) == (if pred(x) {
            seq![x]
        } else {
            seq![]
        }),
{
    reveal(Seq::filter);
    assert(seq![x].drop_last() =~= seq![]);
    assert(seq![x].drop_last().filter(pred) =~= seq![]);
    assert(Seq::<V>::empty().push(x) =~= seq![x]);
}

proof fn lemma_filter_none<V>(s: Seq<V>, pred: spec_fn(V) -> bool)
    requires
        forall|i: int| 0 <= i < s.len() ==> !pred(#[trigger] s[i]),
    ensures
        s.filter(pred) == Seq::<V>::empty(),
    decreases s.len(),
{
    reveal(Seq::filter);
    if s.len() > 0 {
        lemma_filter_none(s.drop_last(), pred);
    }
}

/// Putting `x` behind all that may stand before it, and before all that may not, keeps a list in
/// order, and puts `x` last among those that rank as it does.
proof fn lemma_placed<T: Ranked>(s: Seq<T::V>, x: T::V, k: int)
    requires
        in_rank::<T>(s),
        0 <= k <= s.len(),
        k > 0 ==> T::precedes(s[k - 1], x),
        forall|j: int| k <= j < s.len() ==> !T::precedes(#[trigger] s[j], x),
    ensures
        in_rank::<T>(s.insert(k, x)),
        forall|y: T::V|
            s.insert(k, x).filter(#[trigger] ranked_as::<T>(y)) == s.filter(ranked_as::<T>(y))
                + seq![x].filter(ranked_as::<T>(y)),
{
    let t = s.insert(k, x);
    assert forall|i: int, j: int| 0 <= i < j < t.len() implies T::precedes(
        #[trigger] t[i],
        #[trigger] t[j],
    ) by {
        if i < k && j == k {
            if i < k - 1 {
                assert(T::precedes(s[i], s[k - 1]));
                T::transitive(s[i], s[k - 1], x);
            }
        } else if i == k && j > k {
            assert(t[j] == s[j - 1]);
            assert(!T::precedes(s[j - 1], x));
            T::total(x, s[j - 1]);
        } else if i < k && j < k {
            assert(T::precedes(s[i], s[j]));
        } else if i < k {
            assert(T::precedes(s[i], s[j - 1]));
        } else {
            assert(T::precedes(s[i - 1], s[j - 1]));
        }
    }
    assert forall|y: T::V|
        s.insert(k, x).filter(#[trigger] ranked_as::<T>(y)) == s.filter(ranked_as::<T>(y)) + seq![
            x,
        ].filter(ranked_as::<T>(y)) by {
        let pred = ranked_as::<T>(y);
        let front = s.take(k);
        let back = s.skip(k);
        assert(t =~= front + seq![x] + back);
        assert(s =~= front + back);
        Seq::filter_distributes_over_add(front + seq![x], back, pred);
        Seq::filter_distributes_over_add(front, seq![x], pred);
        Seq::filter_distributes_over_add(front, back, pred);
        lemma_filter_one(x, pred);
        if pred(x) {
            assert forall|j: int| 0 <= j < back.len() implies !pred(#[trigger] back[j]) by {
                assert(back[j] == s[k + j]);
                assert(!T::precedes(s[k + j], x));
                if pred(back[j]) {
                    T::transitive(s[k + j], y, x);
                }
            }
            lemma_filter_none(back, pred);
            assert(s.filter(pred) =~= front.filter(pred));
            assert(t.filter(pred) =~= front.filter(pred) + seq![x]);
        } else {
            assert(t.filter(pred) =~= front.filter(pred) + back.filter(pred));
            assert(s.filter(pred) + seq![x].filter(pred) =~= front.filter(pred) + back.filter(
                pred,
            ));
        }
    }
}

proof fn lemma_place_below<T: Ranked>(s: Seq<T::V>, x: T::V, k: int)
    requires
        0 <= k <= s.len(),
        forall|j: int| k <= j < s.len() ==> !T::precedes(#[trigger] s[j], x),
    ensures
        ({
            let at = place_below::<T>(s, x, k);
            &&& 0 <= at <= k
            &&& at > 0 ==> T::precedes(s[at - 1], x)
            &&& forall|j: int| at <= j < s.len() ==> !T::precedes(#[trigger] s[j], x)
        }),
    decreases k,
{
    if k > 0 && !T::precedes(s[k - 1], x) {
        lemma_place_below::<T>(s, x, k - 1);
    }
}

/// Sorting puts the items in order, and those of equal rank stay as they were.
pub proof fn sorting_is_stable<T: Ranked>(given: Seq<T::V>)
    ensures
        stably_sorted::<T>(arranged::<T>(given), given),
        arranged::<T>(given).len() == given.len(),
    decreases given.len(),
{
    if given.len() > 0 {
        let rest = given.drop_last();
        let x = given.last();
        let s = arranged::<T>(rest);
        sorting_is_stable::<T>(rest);
        lemma_place_below::<T>(s, x, s.len() as int);
        let k = place_below::<T>(s, x, s.len() as int);
        lemma_placed::<T>(s, x, k);
        assert forall|y: T::V|
            arranged::<T>(given).filter(ranked_as::<T>(y)) == given.filter(
                #[trigger] ranked_as::<T>(y),
            ) by {
            let pred = ranked_as::<T>(y);
            assert(given =~= rest + seq![x]);
            Seq::filter_distributes_over_add(rest, seq![x], pred);
            assert(s.filter(pred) == rest.filter(pred));
        }
    }
}

/// Puts `items` in order; those of equal rank stay as they were.
pub fn sort<T: Ranked>(items: Vec<T>) -> (sorted: Vec<T>)
    ensures
        views(sorted@) == arranged::<T>(views(items@)),
{
    let ghost given = views(items@);
    let mut rest = items;
    let mut sorted: Vec<T> = Vec::new();
    assert(given.take(0) =~= Seq::<T::V>::empty());
    assert(views(sorted@) =~= arranged::<T>(given.take(0)));
    assert(given.skip(0) =~= given);
    while rest.len() > 0
        invariant
            rest@.len() + sorted@.len() == given.len(),
            views(rest@) == given.skip(sorted@.len() as int),
            views(sorted@) == arranged::<T>(given.take(sorted@.len() as int)),
        decreases rest.len(),
    {
        let ghost n = sorted@.len() as int;
        let ghost before = views(sorted@);
        let ghost left = rest@;
        let item = rest.remove(0);
        let ghost x = item@;
        assert(x == views(left)[0]);
        assert(given.skip(n)[0] == given[n]);
        assert forall|j: int| 0 <= j < rest@.len() implies views(rest@)[j] == given.skip(n + 1)[j] by {
            assert(rest@[j] == left[j + 1]);
            assert(views(left)[j + 1] == given.skip(n)[j + 1]);
        }
        assert(views(rest@) =~= given.skip(n + 1));
        let mut k: usize = sorted.len();
        while k > 0 && !sorted[k - 1].may_precede(&item)
            invariant
                k <= sorted@.len(),
                x == item@,
                before == views(sorted@),
                place_below::<T>(before, x, before.len() as int) == place_below::<T>(
                    before,
                    x,
                    k as int,
                ),
            decreases k,
        {
            assert(before[k - 1] == sorted@[k - 1]@);
            k -= 1;
        }
        assert(k > 0 ==> before[k - 1] == sorted@[k - 1]@);
        sorted.insert(k, item);
        assert(given.take(n + 1).drop_last() =~= given.take(n));
        assert(views(sorted@) =~= before.insert(k as int, x));
    }
    assert(given.take(sorted@.len() as int) =~= given);
    sorted
}

/// Sorting neither loses an item nor makes one up.
pub proof fn sorting_keeps_the_items<T: Ranked>(sorted: Seq<T::V>, given: Seq<T::V>, x: T::V)
    requires
        stably_sorted::<T>(sorted, given),
    ensures
        sorted.contains(x) <==> given.contains(x),
{
    let pred = ranked_as::<T>(x);
    T::total(x, x);
    assert(sorted.filter(pred) == given.filter(pred));
    if sorted.contains(x) {
        let i = choose|i: int| 0 <= i < sorted.len() && sorted[i] == x;
        sorted.lemma_filter_contains(pred, i);
        lemma_filter_inside(given, pred, x);
    }
    if given.contains(x) {
        let i = choose|i: int| 0 <= i < given.len() && given[i] == x;
        given.lemma_filter_contains(pred, i);
        lemma_filter_inside(sorted, pred, x);
    }
}

proof fn lemma_filter_inside<V>(s: Seq<V>, pred: spec_fn(V) -> bool, x: V)
    requires
        s.filter(pred).contains(x),
    ensures
        s.contains(x),
    decreases s.len(),
{
    reveal(Seq::filter);
    if s.len() > 0 {
        if x == s.last() {
            assert(s[s.len() - 1] == x);
        } else {
            let i = choose|i: int| 0 <= i < s.filter(pred).len() && s.filter(pred)[i] == x;
            assert(s.drop_last().filter(pred)[i] == x);
            lemma_filter_inside(s.drop_last(), pred, x);
            let j = choose|j: int| 0 <= j < s.drop_last().len() && s.drop_last()[j] == x;
            assert(s[j] == x);
        }
    }
}

}
