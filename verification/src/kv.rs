use vstd::prelude::*;

verus! {

/// The value bound to the first occurrence of `k` in an association sequence.
pub open spec fn find_pair<K, V>(pairs: Seq<(K, V)>, k: K) -> Option<V>
    decreases pairs.len(),
{
    if pairs.len() == 0 {
        Option::None
    } else if pairs[0].0 == k {
        Option::Some(pairs[0].1)
    } else {
        find_pair(pairs.drop_first(), k)
    }
}

/// Rebinds `k` in place if present, else appends `(k, v)` at the end — the
/// way an order-preserving map's insert behaves.
pub open spec fn upsert_pair<K, V>(pairs: Seq<(K, V)>, k: K, v: V) -> Seq<(K, V)>
    decreases pairs.len(),
{
    if pairs.len() == 0 {
        seq![(k, v)]
    } else if pairs[0].0 == k {
        seq![(pairs[0].0, v)] + pairs.drop_first()
    } else {
        seq![pairs[0]] + upsert_pair(pairs.drop_first(), k, v)
    }
}

/// After rebinding `k`, looking `k` up yields the new value.
pub proof fn lemma_find_upsert_same<K, V>(pairs: Seq<(K, V)>, k: K, v: V)
    ensures
        find_pair(upsert_pair(pairs, k, v), k) == Option::Some(v),
    decreases pairs.len(),
{
    if pairs.len() == 0 {
    } else if pairs[0].0 == k {
        assert(upsert_pair(pairs, k, v)[0] == (pairs[0].0, v));
    } else {
        lemma_find_upsert_same(pairs.drop_first(), k, v);
        assert(upsert_pair(pairs, k, v).drop_first() =~= upsert_pair(
            pairs.drop_first(),
            k,
            v,
        ));
    }
}

/// Rebinding `k` leaves every other key's binding alone.
pub proof fn lemma_find_upsert_other<K, V>(pairs: Seq<(K, V)>, k: K, v: V, q: K)
    requires
        q != k,
    ensures
        find_pair(upsert_pair(pairs, k, v), q) == find_pair(pairs, q),
    decreases pairs.len(),
{
    if pairs.len() == 0 {
        assert(upsert_pair(pairs, k, v) =~= seq![(k, v)]);
        assert(upsert_pair(pairs, k, v)[0].0 == k);
        assert(upsert_pair(pairs, k, v).drop_first().len() == 0);
        assert(find_pair(upsert_pair(pairs, k, v), q) == find_pair(
            upsert_pair(pairs, k, v).drop_first(),
            q,
        ));
    } else if pairs[0].0 == k {
        assert(upsert_pair(pairs, k, v)[0] == (pairs[0].0, v));
        assert(upsert_pair(pairs, k, v).drop_first() =~= pairs.drop_first());
    } else {
        lemma_find_upsert_other(pairs.drop_first(), k, v, q);
        assert(upsert_pair(pairs, k, v)[0] == pairs[0]);
        assert(upsert_pair(pairs, k, v).drop_first() =~= upsert_pair(
            pairs.drop_first(),
            k,
            v,
        ));
    }
}

/// Rebinding a key no pair carries appends it at the end.
pub proof fn lemma_upsert_absent<K, V>(pairs: Seq<(K, V)>, k: K, v: V)
    requires
        forall|i: int| 0 <= i < pairs.len() ==> (#[trigger] pairs[i]).0 != k,
    ensures
        upsert_pair(pairs, k, v) =~= pairs + seq![(k, v)],
    decreases pairs.len(),
{
    if pairs.len() == 0 {
        assert(upsert_pair(pairs, k, v) =~= pairs + seq![(k, v)]);
    } else {
        assert(pairs[0].0 != k);
        lemma_upsert_absent(pairs.drop_first(), k, v);
        assert(upsert_pair(pairs, k, v) =~= seq![pairs[0]] + upsert_pair(
            pairs.drop_first(),
            k,
            v,
        ));
        assert(seq![pairs[0]] + (pairs.drop_first() + seq![(k, v)]) =~= pairs + seq![(k, v)]);
    }
}

} // verus!
