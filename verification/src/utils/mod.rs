//! Sums over sequences, by which the population figures are defined.
use vstd::prelude::*;

verus! {

/// The sum of `weight` over the entries of `s`.
pub open spec fn sum_by<T>(s: Seq<T>, weight: spec_fn(T) -> nat) -> nat
    decreases s.len(),
{
    if s.len() == 0 {
        0
    } else {
        sum_by(s.drop_last(), weight) + weight(s.last())
    }
}

/// A new last entry adds its weight.
pub proof fn lemma_sum_by_push<T>(s: Seq<T>, e: T, weight: spec_fn(T) -> nat)
    ensures
        sum_by(s.push(e), weight) == sum_by(s, weight) + weight(e),
{
    assert(s.push(e).drop_last() =~= s);
}

/// Replacing an entry exchanges its weight for that of the new entry.
pub proof fn lemma_sum_by_update<T>(s: Seq<T>, i: int, e: T, weight: spec_fn(T) -> nat)
    requires
        0 <= i < s.len(),
    ensures
        sum_by(s.update(i, e), weight) + weight(s[i]) == sum_by(s, weight) + weight(e),
    decreases s.len(),
{
    if i == s.len() - 1 {
        assert(s.update(i, e).drop_last() =~= s.drop_last());
    } else {
        lemma_sum_by_update(s.drop_last(), i, e, weight);
        assert(s.update(i, e).drop_last() =~= s.drop_last().update(i, e));
    }
}

/// No entry weighs more than the whole.
pub proof fn lemma_sum_by_member<T>(s: Seq<T>, i: int, weight: spec_fn(T) -> nat)
    requires
        0 <= i < s.len(),
    ensures
        weight(s[i]) <= sum_by(s, weight),
    decreases s.len(),
{
    if i < s.len() - 1 {
        lemma_sum_by_member(s.drop_last(), i, weight);
    }
}

/// No prefix weighs more than the whole.
pub proof fn lemma_sum_by_prefix<T>(s: Seq<T>, k: int, weight: spec_fn(T) -> nat)
    requires
        0 <= k <= s.len(),
    ensures
        sum_by(s.take(k), weight) <= sum_by(s, weight),
    decreases s.len(),
{
    if k == s.len() {
        assert(s.take(k) =~= s);
    } else {
        lemma_sum_by_prefix(s.drop_last(), k, weight);
        assert(s.drop_last().take(k) =~= s.take(k));
    }
}

/// Where every entry weighs nothing, so does the whole.
pub proof fn lemma_sum_by_none<T>(s: Seq<T>, weight: spec_fn(T) -> nat)
    requires
        forall|i: int| 0 <= i < s.len() ==> weight(#[trigger] s[i]) == 0,
    ensures
        sum_by(s, weight) == 0,
    decreases s.len(),
{
    if s.len() > 0 {
        assert forall|i: int| 0 <= i < s.drop_last().len() implies weight(
            #[trigger] s.drop_last()[i],
        ) == 0 by {
            assert(s.drop_last()[i] == s[i]);
        }
        lemma_sum_by_none(s.drop_last(), weight);
        assert(s.last() == s[s.len() - 1]);
    }
}

/// Where one entry alone has weight, the whole weighs what it does.
pub proof fn lemma_sum_by_single<T>(s: Seq<T>, i: int, weight: spec_fn(T) -> nat)
    requires
        0 <= i < s.len(),
        forall|j: int| 0 <= j < s.len() && j != i ==> weight(#[trigger] s[j]) == 0,
    ensures
        sum_by(s, weight) == weight(s[i]),
    decreases s.len(),
{
    if i == s.len() - 1 {
        assert forall|j: int| 0 <= j < s.drop_last().len() implies weight(
            #[trigger] s.drop_last()[j],
        ) == 0 by {
            assert(s.drop_last()[j] == s[j]);
        }
        lemma_sum_by_none(s.drop_last(), weight);
    } else {
        assert forall|j: int| 0 <= j < s.drop_last().len() && j != i implies weight(
            #[trigger] s.drop_last()[j],
        ) == 0 by {
            assert(s.drop_last()[j] == s[j]);
        }
        lemma_sum_by_single(s.drop_last(), i, weight);
        assert(s.last() == s[s.len() - 1]);
    }
}

/// The sum over two sequences joined is the sum of their sums.
pub proof fn lemma_sum_by_concat<T>(a: Seq<T>, b: Seq<T>, weight: spec_fn(T) -> nat)
    ensures
        sum_by(a + b, weight) == sum_by(a, weight) + sum_by(b, weight),
    decreases b.len(),
{
    if b.len() == 0 {
        assert(a + b =~= a);
    } else {
        lemma_sum_by_concat(a, b.drop_last(), weight);
        assert((a + b).drop_last() =~= a + b.drop_last());
        assert((a + b).last() == b.last());
    }
}

/// A sum that is not nothing has an entry that weighs something.
pub proof fn lemma_sum_by_positive<T>(s: Seq<T>, weight: spec_fn(T) -> nat) -> (i: int)
    requires
        sum_by(s, weight) > 0,
    ensures
        0 <= i < s.len(),
        weight(s[i]) > 0,
    decreases s.len(),
{
    if weight(s.last()) > 0 {
        s.len() - 1
    } else {
        let i = lemma_sum_by_positive(s.drop_last(), weight);
        assert(s.drop_last()[i] == s[i]);
        i
    }
}

/// Taking an entry out takes its weight out.
pub proof fn lemma_sum_by_remove<T>(s: Seq<T>, i: int, weight: spec_fn(T) -> nat)
    requires
        0 <= i < s.len(),
    ensures
        sum_by(s.remove(i), weight) + weight(s[i]) == sum_by(s, weight),
    decreases s.len(),
{
    if i == s.len() - 1 {
        assert(s.remove(i) =~= s.drop_last());
    } else {
        lemma_sum_by_remove(s.drop_last(), i, weight);
        assert(s.remove(i).drop_last() =~= s.drop_last().remove(i));
        assert(s.remove(i).last() == s.last());
    }
}

/// The order of the entries does not matter to their sum: two sequences
/// that hold the same entries, each as often, weigh the same.
pub proof fn lemma_sum_by_any_order<T>(first: Seq<T>, second: Seq<T>, weight: spec_fn(T) -> nat)
    requires
        first.to_multiset() == second.to_multiset(),
    ensures
        sum_by(first, weight) == sum_by(second, weight),
    decreases first.len(),
{
    first.to_multiset_ensures();
    second.to_multiset_ensures();
    if first.len() > 0 {
        let last = first.len() - 1;
        let entry = first[last];
        assert(first.contains(entry));
        assert(first.to_multiset().count(entry) > 0);
        assert(second.to_multiset().count(entry) > 0);
        assert(second.contains(entry));
        let j = choose|j: int| 0 <= j < second.len() && second[j] == entry;
        assert(first.remove(last) =~= first.drop_last());
        assert(first.remove(last).to_multiset() == first.to_multiset().remove(entry));
        assert(second.remove(j).to_multiset() == second.to_multiset().remove(entry));
        lemma_sum_by_any_order(first.drop_last(), second.remove(j), weight);
        lemma_sum_by_remove(second, j, weight);
    }
}

} // verus!
