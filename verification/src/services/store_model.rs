use vstd::prelude::*;

verus! {

/// The association-list model shared by the keyed stores: a sequence of
/// key/value pairs read as a map, later entries shadowing earlier ones.
pub open spec fn kv_map<V>(s: Seq<(Seq<char>, V)>) -> Map<Seq<char>, V>
    decreases s.len(),
{
    if s.len() == 0 {
        Map::empty()
    } else {
        kv_map(s.drop_last()).insert(s.last().0, s.last().1)
    }
}

/// No two entries share a key.
pub open spec fn kv_unique<V>(s: Seq<(Seq<char>, V)>) -> bool {
    forall|i: int, j: int| 0 <= i < j < s.len() ==> (#[trigger] s[i]).0 != (#[trigger] s[j]).0
}

/// A key is in the map exactly when some entry carries it.
pub proof fn lemma_kv_map_contains<V>(s: Seq<(Seq<char>, V)>, k: Seq<char>)
    ensures
        kv_map(s).contains_key(k) <==> (exists|i: int| 0 <= i < s.len() && (#[trigger] s[i]).0
            == k),
    decreases s.len(),
{
    if s.len() > 0 {
        let t = s.drop_last();
        lemma_kv_map_contains(t, k);
        assert(forall|i: int| 0 <= i < t.len() ==> #[trigger] t[i] == s[i]);
        if kv_map(s).contains_key(k) {
            if s.last().0 == k {
                assert((s[s.len() - 1]).0 == k);
            } else {
                let i = choose|i: int| 0 <= i < t.len() && (#[trigger] t[i]).0 == k;
                assert((s[i]).0 == k);
            }
        }
        if exists|i: int| 0 <= i < s.len() && (#[trigger] s[i]).0 == k {
            let i = choose|i: int| 0 <= i < s.len() && (#[trigger] s[i]).0 == k;
            if i == s.len() - 1 {
                assert(s.last().0 == k);
            } else {
                assert((t[i]).0 == k);
            }
        }
    }
}

/// Every element of a sequence is in the set it converts to.
pub proof fn lemma_index_to_set<A>(s: Seq<A>, i: int)
    requires
        0 <= i < s.len(),
    ensures
        s.to_set().contains(s[i]),
{
    assert(s.contains(s[i]));
}

/// An element no entry equals is outside the set.
pub proof fn lemma_absent_to_set<A>(s: Seq<A>, x: A)
    requires
        forall|i: int| 0 <= i < s.len() ==> #[trigger] s[i] != x,
    ensures
        !s.to_set().contains(x),
{
    assert(!s.contains(x));
}

/// Appending an element inserts it into the set.
pub proof fn lemma_push_to_set<A>(s: Seq<A>, x: A)
    ensures
        s.push(x).to_set() =~= s.to_set().insert(x),
{
    assert forall|y: A| s.push(x).to_set().contains(y) implies s.to_set().insert(
        x,
    ).contains(y) by {
        let i = choose|i: int| 0 <= i < s.push(x).len() && s.push(x)[i] == y;
        if i < s.len() {
            assert(s[i] == y);
            assert(s.contains(y));
        }
    }
    assert forall|y: A| s.to_set().insert(x).contains(y) implies s.push(x).to_set().contains(
        y,
    ) by {
        if y == x {
            assert(s.push(x)[s.len() as int] == y);
        } else {
            let i = choose|i: int| 0 <= i < s.len() && s[i] == y;
            assert(s.push(x)[i] == y);
        }
        assert(s.push(x).contains(y));
    }
}

/// When keys are unique, the entry holding a key gives the map's value
/// at that key.
pub proof fn lemma_kv_map_index<V>(s: Seq<(Seq<char>, V)>, i: int)
    requires
        kv_unique(s),
        0 <= i < s.len(),
    ensures
        kv_map(s).contains_key(s[i].0),
        kv_map(s)[s[i].0] == s[i].1,
    decreases s.len(),
{
    if i == s.len() - 1 {
        assert(s.last() == s[i]);
    } else {
        assert(kv_unique(s.drop_last())) by {
            assert(forall|m: int, n: int|
                0 <= m < n < s.drop_last().len() ==> (#[trigger] s.drop_last()[m]).0 != (
                #[trigger] s.drop_last()[n]).0) by {
                assert(forall|m: int| 0 <= m < s.drop_last().len() ==> (#[trigger] s.drop_last()[m])
                    == s[m]);
            }
        }
        lemma_kv_map_index(s.drop_last(), i);
        assert(s.drop_last()[i] == s[i]);
        assert(s[i].0 != s.last().0);
    }
}

/// Appending a fresh entry inserts its pair into the map.
pub proof fn lemma_kv_map_push<V>(s: Seq<(Seq<char>, V)>, k: Seq<char>, v: V)
    ensures
        kv_map(s.push((k, v))) =~= kv_map(s).insert(k, v),
{
    assert(s.push((k, v)).drop_last() =~= s);
    assert(s.push((k, v)).last() == (k, v));
}

/// Removing the entry that holds a key removes the key from the map.
pub proof fn lemma_kv_map_remove<V>(s: Seq<(Seq<char>, V)>, i: int)
    requires
        kv_unique(s),
        0 <= i < s.len(),
    ensures
        kv_map(s.remove(i)) =~= kv_map(s).remove(s[i].0),
    decreases s.len(),
{
    let k = s[i].0;
    let t = s.remove(i);
    if i == s.len() - 1 {
        assert(t =~= s.drop_last());
        lemma_kv_map_contains(s.drop_last(), k);
        assert(forall|m: int| 0 <= m < s.drop_last().len() ==> (#[trigger] s.drop_last()[m])
            == s[m]);
        assert(!kv_map(s.drop_last()).contains_key(k));
        assert(kv_map(s.drop_last()) =~= kv_map(s.drop_last()).insert(k, s[i].1).remove(k));
    } else {
        assert(kv_unique(s.drop_last())) by {
            assert(forall|m: int| 0 <= m < s.drop_last().len() ==> (#[trigger] s.drop_last()[m])
                == s[m]);
        }
        lemma_kv_map_remove(s.drop_last(), i);
        assert(t.drop_last() =~= s.drop_last().remove(i));
        assert(t.last() == s.last());
        assert(s[i].0 != s.last().0);
        assert(kv_map(t) =~= kv_map(s.drop_last()).remove(k).insert(s.last().0, s.last().1));
        assert(kv_map(s).remove(k) =~= kv_map(s.drop_last()).insert(s.last().0,
            s.last().1).remove(k));
    }
}

/// Dropping an entry keeps the remaining keys unique and frees the
/// dropped entry's key.
pub proof fn lemma_kv_remove_frees_key<V>(s: Seq<(Seq<char>, V)>, i: int)
    requires
        kv_unique(s),
        0 <= i < s.len(),
    ensures
        kv_unique(s.remove(i)),
        forall|j: int| 0 <= j < s.remove(i).len() ==> (#[trigger] s.remove(i)[j]).0 != s[i].0,
{
    let t = s.remove(i);
    assert(forall|j: int|
        0 <= j < t.len() ==> #[trigger] t[j] == (if j < i {
            s[j]
        } else {
            s[j + 1]
        }));
}

/// When no entry holds a key, the map lacks it.
pub proof fn lemma_kv_map_absent<V>(s: Seq<(Seq<char>, V)>, k: Seq<char>)
    requires
        forall|i: int| 0 <= i < s.len() ==> (#[trigger] s[i]).0 != k,
    ensures
        !kv_map(s).contains_key(k),
{
    lemma_kv_map_contains(s, k);
}

} // verus!
