use crate::text::str_eq;
use vstd::prelude::*;

verus! {

/// Whether `list` holds the string `s`.
pub open spec fn spec_holds(list: Seq<String>, s: Seq<char>) -> bool {
    exists|k: int| 0 <= k < list.len() && (#[trigger] list[k])@ == s
}

/// That `list` holds, in rising order and each once, the numbers below
/// `len` of which `wanted` holds.
pub open spec fn is_selection(list: Seq<usize>, len: int, wanted: spec_fn(int) -> bool) -> bool {
    &&& forall|a: int, b: int| 0 <= a < b < list.len() ==> list[a] < list[b]
    &&& forall|a: int| 0 <= a < list.len() ==> (#[trigger] list[a]) < len && wanted(list[a] as int)
    &&& forall|i: int| 0 <= i < len && #[trigger] wanted(i) ==> spec_lists(list, i)
}

/// Whether `list` holds the number `i`.
pub open spec fn spec_lists(list: Seq<usize>, i: int) -> bool {
    exists|k: int| 0 <= k < list.len() && #[trigger] list[k] == i
}

/// A selection is fixed by what it selects: two of them are the same list.
pub proof fn lemma_selection_unique(a: Seq<usize>, b: Seq<usize>, len: int, wanted: spec_fn(int) -> bool)
    requires
        is_selection(a, len, wanted),
        is_selection(b, len, wanted),
    ensures
        a == b,
    decreases a.len() + b.len(),
{
    if a.len() == 0 {
        if b.len() > 0 {
            assert(wanted(b[0] as int));
            assert(spec_lists(a, b[0] as int));
        }
        assert(a =~= b);
    } else if b.len() == 0 {
        assert(wanted(a[0] as int));
        assert(spec_lists(b, a[0] as int));
    } else {
        let la = a.last();
        let lb = b.last();
        assert(wanted(la as int));
        assert(wanted(lb as int));
        assert(spec_lists(b, la as int));
        assert(spec_lists(a, lb as int));
        let ia = choose|k: int| 0 <= k < b.len() && #[trigger] b[k] == la as int;
        let ib = choose|k: int| 0 <= k < a.len() && #[trigger] a[k] == lb as int;
        assert(la == lb) by {
            if la < lb {
                if ib < a.len() - 1 {
                    assert(a[ib] < a[a.len() - 1]);
                }
            } else if lb < la {
                if ia < b.len() - 1 {
                    assert(b[ia] < b[b.len() - 1]);
                }
            }
        }
        let wanted2 = |i: int| wanted(i) && i != la;
        let a2 = a.drop_last();
        let b2 = b.drop_last();
        lemma_selection_drop_last(a, len, wanted, wanted2);
        lemma_selection_drop_last(b, len, wanted, wanted2);
        lemma_selection_unique(a2, b2, len, wanted2);
        assert(a =~= a2.push(la));
        assert(b =~= b2.push(lb));
    }
}

proof fn lemma_selection_drop_last(
    a: Seq<usize>,
    len: int,
    wanted: spec_fn(int) -> bool,
    wanted2: spec_fn(int) -> bool,
)
    requires
        a.len() > 0,
        is_selection(a, len, wanted),
        forall|i: int| #[trigger] wanted2(i) == (wanted(i) && i != a.last()),
    ensures
        is_selection(a.drop_last(), len, wanted2),
{
    let a2 = a.drop_last();
    assert forall|i: int| 0 <= i < len && #[trigger] wanted2(i) implies spec_lists(a2, i) by {
        assert(wanted(i));
        assert(spec_lists(a, i));
        let k = choose|k: int| 0 <= k < a.len() && #[trigger] a[k] == i;
        assert(k < a.len() - 1);
        assert(a2[k] == i);
    }
    assert forall|k: int| 0 <= k < a2.len() implies (#[trigger] a2[k]) < len && wanted2(
        a2[k] as int,
    ) by {
        assert(a[k] < a[a.len() - 1]);
        assert(wanted(a[k] as int));
    }
    assert forall|x: int, y: int| 0 <= x < y < a2.len() implies a2[x] < a2[y] by {
        assert(a[x] < a[y]);
    }
}

/// Whether `list` holds the string `s`.
pub fn holds(list: &Vec<String>, s: &str) -> (b: bool)
    ensures
        b == spec_holds(list@, s@),
{
    let mut i: usize = 0;
    while i < list.len()
        invariant
            i <= list.len(),
            forall|j: int| 0 <= j < i ==> (#[trigger] list@[j])@ != s@,
        decreases list.len() - i,
    {
        if str_eq(list[i].as_str(), s) {
            return true;
        }
        i += 1;
    }
    false
}

/// Filtering one more item of a list: the item joins what has been kept
/// where the test holds of it, and is passed over where not.
pub proof fn lemma_filter_step<A>(s: Seq<A>, i: int, pred: spec_fn(A) -> bool)
    requires
        0 <= i < s.len(),
    ensures
        s.take(i + 1).filter(pred) == if pred(s[i]) {
            s.take(i).filter(pred).push(s[i])
        } else {
            s.take(i).filter(pred)
        },
{
    reveal_with_fuel(Seq::filter, 2);
    assert(s.take(i + 1).drop_last() =~= s.take(i));
    assert(s.take(i + 1).last() == s[i]);
}

/// A filter that every item passes keeps the whole list.
pub proof fn lemma_filter_all<A>(s: Seq<A>, pred: spec_fn(A) -> bool)
    requires
        forall|i: int| 0 <= i < s.len() ==> pred(#[trigger] s[i]),
    ensures
        s.filter(pred) == s,
    decreases s.len(),
{
    reveal_with_fuel(Seq::filter, 1);
    if s.len() > 0 {
        lemma_filter_all(s.drop_last(), pred);
        assert(s.drop_last().push(s.last()) =~= s);
    }
}

/// A filter that no item passes keeps nothing.
pub proof fn lemma_filter_none<A>(s: Seq<A>, pred: spec_fn(A) -> bool)
    requires
        forall|i: int| 0 <= i < s.len() ==> !pred(#[trigger] s[i]),
    ensures
        s.filter(pred).len() == 0,
    decreases s.len(),
{
    reveal_with_fuel(Seq::filter, 1);
    if s.len() > 0 {
        lemma_filter_none(s.drop_last(), pred);
    }
}

} // verus!
