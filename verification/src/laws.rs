use vstd::prelude::*;
use crate::vec::{swap_removed, truncated, extended_by_clones};

verus! {

broadcast use vstd::seq_lib::group_to_multiset_ensures;

/// Popping right after a push gives back the pushed item and leaves the
/// elements as they were before the push.
pub proof fn push_then_pop<T>(s: Seq<T>, x: T)
    ensures
        s.push(x).last() == x,
        s.push(x).drop_last() == s,
{
    assert(s.push(x).drop_last() =~= s);
}

/// `swap_remove` takes out exactly the returned element: the remaining
/// elements together with it are, as a multiset, the elements before.
pub proof fn swap_remove_keeps_other_elements<T>(s: Seq<T>, i: int)
    requires
        0 <= i < s.len(),
    ensures
        swap_removed(s, i).len() == s.len() - 1,
        swap_removed(s, i).to_multiset().insert(s[i]) == s.to_multiset(),
{
    let t = swap_removed(s, i);
    let last = s.last();
    let n = s.len();
    if i == n - 1 {
        assert(t =~= s.drop_last());
        assert(s.drop_last().push(last) =~= s);
    } else {
        let u = s.update(i, last);
        assert(u.drop_last().push(last) =~= u);
        assert(u.remove(i) =~= s.remove(i));
        assert(u[i] == last);
        assert(u.to_multiset() =~= t.to_multiset().insert(last));
        assert(u.remove(i).to_multiset() =~= u.to_multiset().remove(last));
        assert(s.remove(i).to_multiset() =~= s.to_multiset().remove(s[i]));
        assert(t.to_multiset() =~= u.to_multiset().remove(last));
        assert(s.to_multiset().count(s[i]) > 0);
        assert(t.to_multiset().insert(s[i]) =~= s.to_multiset());
    }
}

/// Taking out the last element with `swap_remove` is the same as popping it.
pub proof fn swap_remove_last_is_pop<T>(s: Seq<T>)
    requires
        s.len() > 0,
    ensures
        swap_removed(s, s.len() - 1) == s.drop_last(),
{
    assert(swap_removed(s, s.len() - 1) =~= s.drop_last());
}

/// `swap_remove` leaves every element but the one taken out and the last
/// in its place, and moves the last one into the gap.
pub proof fn swap_remove_positions<T>(s: Seq<T>, i: int, j: int)
    requires
        0 <= i < s.len(),
        0 <= j < s.len() - 1,
    ensures
        j != i ==> swap_removed(s, i)[j] == s[j],
        j == i ==> swap_removed(s, i)[j] == s.last(),
{
}

/// Truncating keeps the first `min(n, len)` elements, in order.
pub proof fn truncate_keeps_prefix<T>(s: Seq<T>, n: int)
    requires
        n >= 0,
    ensures
        truncated(s, n).len() == if n < s.len() { n } else { s.len() as int },
        forall|j: int| 0 <= j < truncated(s, n).len() ==> #[trigger] truncated(s, n)[j] == s[j],
        truncated(s, 0) == Seq::<T>::empty(),
{
    assert(truncated(s, 0) =~= Seq::<T>::empty());
}

/// Truncating twice is truncating once to the smaller length.
pub proof fn truncate_twice<T>(s: Seq<T>, a: int, b: int)
    requires
        a >= 0,
        b >= 0,
    ensures
        truncated(truncated(s, a), b) == truncated(s, if a < b { a } else { b }),
{
    assert(truncated(truncated(s, a), b) =~= truncated(s, if a < b { a } else { b }));
}

/// Where cloning an element gives an equal element, a successful
/// `extend_from_slice` appends exactly the elements of the slice.
pub proof fn extend_with_exact_clones<T: Clone>(s: Seq<T>, o: Seq<T>, t: Seq<T>)
    requires
        forall|a: T, b: T| cloned::<T>(a, b) ==> a == b,
        extended_by_clones(s, o, t),
    ensures
        t == s + o,
{
    assert forall|j: int| 0 <= j < t.len() implies t[j] == (s + o)[j] by {
        if j < s.len() {
            assert(t.take(s.len() as int)[j] == t[j]);
        } else {
            assert(cloned::<T>(o[j - s.len()], t[s.len() + (j - s.len())]));
        }
    }
    assert(t =~= s + o);
}

/// Where cloning an element gives an equal element, `clone` gives a
/// vector with the same elements.
pub proof fn clone_with_exact_clones<T: Clone>(s: Seq<T>, v: Seq<T>)
    requires
        forall|a: T, b: T| cloned::<T>(a, b) ==> a == b,
        v.len() == s.len(),
        forall|i: int| 0 <= i < s.len() ==> cloned::<T>(s[i], #[trigger] v[i]),
    ensures
        v == s,
{
    assert(v =~= s);
}

} // verus!
