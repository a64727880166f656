//! Key-value mappings held as lists of entries, with unique keys.
use crate::minecraft::Os;
use vstd::prelude::*;

verus! {

/// The mapping that a list of entries stands for, keyed by the keys' views;
/// a later entry overrides an earlier one with the same key.
pub open spec fn entries_map<K: View, V>(s: Seq<(K, V)>) -> Map<K::V, V>
    decreases s.len(),
{
    if s.len() == 0 {
        Map::empty()
    } else {
        entries_map(s.drop_last()).insert(s.last().0@, s.last().1)
    }
}

/// No two entries share a key.
pub open spec fn keys_unique<K: View, V>(s: Seq<(K, V)>) -> bool {
    forall|i: int, j: int| 0 <= i < j < s.len() ==> s[i].0@ != s[j].0@
}

/// Where `k` stands in `s`, if anywhere.
pub open spec fn key_position<K: View, V>(s: Seq<(K, V)>, k: K::V, r: Option<usize>) -> bool {
    match r {
        Some(i) => i < s.len() && s[i as int].0@ == k,
        None => forall|j: int| 0 <= j < s.len() ==> s[j].0@ != k,
    }
}

/// A key is in the mapping exactly when some entry has it.
pub proof fn lemma_entries_map_dom<K: View, V>(s: Seq<(K, V)>, k: K::V)
    ensures
        entries_map(s).contains_key(k) <==> exists|i: int| 0 <= i < s.len() && s[i].0@ == k,
    decreases s.len(),
{
    if s.len() > 0 {
        let t = s.drop_last();
        lemma_entries_map_dom(t, k);
        if entries_map(s).contains_key(k) && s.last().0@ != k {
            let i = choose|i: int| 0 <= i < t.len() && t[i].0@ == k;
            assert(s[i].0@ == k);
        }
        if exists|i: int| 0 <= i < s.len() && s[i].0@ == k {
            let i = choose|i: int| 0 <= i < s.len() && s[i].0@ == k;
            if i < t.len() {
                assert(t[i].0@ == k);
            }
        }
    }
}

/// With unique keys, the mapping sends each entry's key to that entry's value.
pub proof fn lemma_entries_map_index<K: View, V>(s: Seq<(K, V)>, i: int)
    requires
        keys_unique(s),
        0 <= i < s.len(),
    ensures
        entries_map(s).contains_key(s[i].0@),
        entries_map(s)[s[i].0@] == s[i].1,
    decreases s.len(),
{
    let t = s.drop_last();
    if i < s.len() - 1 {
        assert(t[i] == s[i]);
        lemma_entries_map_index(t, i);
    }
}

/// Replacing the value of an entry, under a key with the same view, updates the mapping there.
pub proof fn lemma_entries_map_update<K: View, V>(s: Seq<(K, V)>, i: int, k: K, v: V)
    requires
        keys_unique(s),
        0 <= i < s.len(),
        s[i].0@ == k@,
    ensures
        keys_unique(s.update(i, (k, v))),
        entries_map(s.update(i, (k, v))) == entries_map(s).insert(k@, v),
    decreases s.len(),
{
    let u = s.update(i, (k, v));
    let t = s.drop_last();
    if i == s.len() - 1 {
        assert(u.drop_last() =~= t);
    } else {
        assert(u.drop_last() =~= t.update(i, (k, v)));
        lemma_entries_map_update(t, i, k, v);
        assert(entries_map(u) =~= entries_map(s).insert(k@, v));
    }
}

/// Appending an entry under a new key keeps the keys unique and adds it to the mapping.
pub proof fn lemma_entries_map_push<K: View, V>(s: Seq<(K, V)>, k: K, v: V)
    requires
        keys_unique(s),
        forall|j: int| 0 <= j < s.len() ==> s[j].0@ != k@,
    ensures
        keys_unique(s.push((k, v))),
        entries_map(s.push((k, v))) == entries_map(s).insert(k@, v),
{
    assert(s.push((k, v)).drop_last() =~= s);
}

/// Sets the value under `k`: in place where `at` says the key already stands,
/// at the end where it says the key is new.
pub fn put_entry<K: View, V>(s: &mut Vec<(K, V)>, at: Option<usize>, k: K, v: V)
    requires
        keys_unique(old(s)@),
        key_position(old(s)@, k@, at),
    ensures
        keys_unique(final(s)@),
        entries_map(final(s)@) == entries_map(old(s)@).insert(k@, v),
{
    match at {
        Some(i) => {
            proof {
                lemma_entries_map_update(s@, i as int, k, v);
            }
            s.set(i, (k, v));
        },
        None => {
            proof {
                lemma_entries_map_push(s@, k, v);
            }
            s.push((k, v));
        },
    }
}

/// Where the key `k` stands among string-keyed entries.
pub fn find_string_key<V>(s: &Vec<(String, V)>, k: &String) -> (r: Option<usize>)
    ensures
        key_position(s@, k@, r),
{
    let mut i: usize = 0;
    while i < s.len()
        invariant
            i <= s@.len(),
            forall|j: int| 0 <= j < i ==> s@[j].0@ != k@,
        decreases s@.len() - i,
    {
        if s[i].0 == *k {
            return Some(i);
        }
        i = i + 1;
    }
    None
}

/// The mapping of a prefix one entry longer.
pub proof fn lemma_entries_map_prefix<K: View, V>(s: Seq<(K, V)>, n: int)
    requires
        0 <= n < s.len(),
    ensures
        entries_map(s.subrange(0, n + 1)) == entries_map(s.subrange(0, n)).insert(s[n].0@, s[n].1),
{
    assert(s.subrange(0, n + 1).drop_last() =~= s.subrange(0, n));
}

/// Every entry of `from`, in its order, put into `into`: the result maps like
/// `into` overridden by `from`.
pub fn put_string_entries<V>(into: &mut Vec<(String, V)>, from: Vec<(String, V)>)
    requires
        keys_unique(old(into)@),
    ensures
        keys_unique(final(into)@),
        entries_map(final(into)@) == entries_map(old(into)@).union_prefer_right(entries_map(from@)),
{
    let ghost base = entries_map(into@);
    let ghost src = from@;
    let mut rest = from;
    while rest.len() > 0
        invariant
            keys_unique(into@),
            rest@.len() <= src.len(),
            rest@ == src.subrange(src.len() - rest@.len(), src.len() as int),
            entries_map(into@) == base.union_prefer_right(
                entries_map(src.subrange(0, src.len() - rest@.len())),
            ),
        decreases rest@.len(),
    {
        let ghost n = src.len() - rest@.len();
        let (k, v) = rest.remove(0);
        proof {
            assert(src[n] == (k, v));
            lemma_entries_map_prefix(src, n);
            assert(base.union_prefer_right(entries_map(src.subrange(0, n + 1))) =~= base.union_prefer_right(
                entries_map(src.subrange(0, n)),
            ).insert(k@, v));
            assert(rest@ =~= src.subrange(src.len() - rest@.len(), src.len() as int));
        }
        let at = find_string_key(into, &k);
        put_entry(into, at, k, v);
    }
    assert(src.subrange(0, src.len() as int) =~= src);
}

/// Where the operating system `k` stands among entries keyed by it.
pub fn find_os_key<V>(s: &Vec<(Os, V)>, k: Os) -> (r: Option<usize>)
    ensures
        key_position(s@, k@, r),
{
    let mut i: usize = 0;
    while i < s.len()
        invariant
            i <= s@.len(),
            forall|j: int| 0 <= j < i ==> s@[j].0@ != k@,
        decreases s@.len() - i,
    {
        if s[i].0 == k {
            return Some(i);
        }
        i = i + 1;
    }
    None
}

/// Every entry of `from`, in its order, put into `into`: the result maps like
/// `into` overridden by `from`.
pub fn put_os_entries<V>(into: &mut Vec<(Os, V)>, from: Vec<(Os, V)>)
    requires
        keys_unique(old(into)@),
    ensures
        keys_unique(final(into)@),
        entries_map(final(into)@) == entries_map(old(into)@).union_prefer_right(entries_map(from@)),
{
    let ghost base = entries_map(into@);
    let ghost src = from@;
    let mut rest = from;
    while rest.len() > 0
        invariant
            keys_unique(into@),
            rest@.len() <= src.len(),
            rest@ == src.subrange(src.len() - rest@.len(), src.len() as int),
            entries_map(into@) == base.union_prefer_right(
                entries_map(src.subrange(0, src.len() - rest@.len())),
            ),
        decreases rest@.len(),
    {
        let ghost n = src.len() - rest@.len();
        let (k, v) = rest.remove(0);
        proof {
            assert(src[n] == (k, v));
            lemma_entries_map_prefix(src, n);
            assert(base.union_prefer_right(entries_map(src.subrange(0, n + 1))) =~= base.union_prefer_right(
                entries_map(src.subrange(0, n)),
            ).insert(k@, v));
            assert(rest@ =~= src.subrange(src.len() - rest@.len(), src.len() as int));
        }
        let at = find_os_key(into, k);
        put_entry(into, at, k, v);
    }
    assert(src.subrange(0, src.len() as int) =~= src);
}

} // verus!
