//! Facts about sequences that the store's proofs rest on.

use vstd::prelude::*;

verus! {

/// A filter that every element passes changes nothing.
pub proof fn lemma_filter_keeps_all<A>(s: Seq<A>, p: spec_fn(A) -> bool)
    requires
        forall|i: int| 0 <= i < s.len() ==> p(#[trigger] s[i]),
    ensures
        s.filter(p) == s,
    decreases s.len(),
{
    reveal(Seq::filter);
    if s.len() > 0 {
        lemma_filter_keeps_all(s.drop_last(), p);
        assert(s.drop_last().push(s.last()) =~= s);
    }
}

/// The first occurrence of a value is where it occurs with no occurrence before.
pub proof fn lemma_first_index<A>(s: Seq<A>, x: A, i: int)
    requires
        0 <= i < s.len(),
        s[i] == x,
        forall|j: int| 0 <= j < i ==> s[j] != x,
    ensures
        s.contains(x),
        s.index_of_first(x) == Some(i),
{
    s.index_of_first_ensures(x);
    assert(s.contains(x));
    let k = s.index_of_first(x).unwrap();
    assert(s[k] == x);
    if k < i {
        assert(s[k] != x);
    }
    if i < k {
        assert(s[i] != x);
    }
}

/// Filtering a sequence and then taking its values as a set is filtering the
/// set of its values.
pub proof fn lemma_filter_to_set<A>(s: Seq<A>, p: spec_fn(A) -> bool)
    ensures
        s.filter(p).to_set() == s.to_set().filter(p),
{
    broadcast use vstd::seq_lib::group_filter_ensures;

    let f = s.filter(p);
    assert forall|x: A| f.to_set().contains(x) <==> s.to_set().filter(p).contains(x) by {
        if f.contains(x) {
            s.lemma_filter_contains_rev(p, x);
            let j = choose|j: int| 0 <= j < f.len() && f[j] == x;
            assert(p(f[j]));
        }
        if s.contains(x) && p(x) {
            let k = choose|k: int| 0 <= k < s.len() && s[k] == x;
            assert(f.contains(s[k]));
        }
    }
    assert(f.to_set() =~= s.to_set().filter(p));
}

/// Taking an element out of a sequence without duplicates leaves no
/// duplicates behind.
pub proof fn lemma_remove_keeps_unique<A>(s: Seq<A>, i: int)
    requires
        0 <= i < s.len(),
        s.no_duplicates(),
    ensures
        s.remove(i).no_duplicates(),
{
    let t = s.remove(i);
    assert forall|a: int, b: int| 0 <= a < t.len() && 0 <= b < t.len() && a != b implies t[a]
        != t[b] by {
        let a0 = if a < i {
            a
        } else {
            a + 1
        };
        let b0 = if b < i {
            b
        } else {
            b + 1
        };
        assert(t[a] == s[a0] && t[b] == s[b0]);
    }
}

/// Where no two elements of a sequence have the same key, no two elements
/// that pass a filter have.
pub proof fn lemma_filter_keeps_unique_keys<A, K>(
    s: Seq<A>,
    p: spec_fn(A) -> bool,
    key: spec_fn(A) -> K,
)
    requires
        s.map_values(key).no_duplicates(),
    ensures
        s.filter(p).map_values(key).no_duplicates(),
    decreases s.len(),
{
    reveal(Seq::filter);
    if s.len() > 0 {
        let rest = s.drop_last();
        let last = s.last();
        assert forall|a: int, b: int|
            0 <= a < rest.len() && 0 <= b < rest.len() && a != b implies rest.map_values(key)[a]
            != rest.map_values(key)[b] by {
            assert(s.map_values(key)[a] != s.map_values(key)[b]);
        }
        lemma_filter_keeps_unique_keys(rest, p, key);
        if p(last) {
            let kept = rest.filter(p);
            let keys = kept.map_values(key);
            assert(s.filter(p).map_values(key) =~= keys.push(key(last)));
            assert forall|j: int| 0 <= j < keys.len() implies keys[j] != key(last) by {
                assert(kept.contains(kept[j]));
                rest.lemma_filter_contains_rev(p, kept[j]);
                let i = choose|i: int| 0 <= i < rest.len() && rest[i] == kept[j];
                assert(s.map_values(key)[i] != s.map_values(key)[s.len() - 1]);
            }
        }
    }
}

/// What passes a filter was in the sequence, and passes the filter's test.
pub proof fn lemma_filter_member<A>(s: Seq<A>, p: spec_fn(A) -> bool, j: int)
    requires
        0 <= j < s.filter(p).len(),
    ensures
        p(s.filter(p)[j]),
        s.contains(s.filter(p)[j]),
{
    broadcast use vstd::seq_lib::group_filter_ensures;

    let kept = s.filter(p);
    assert(kept.contains(kept[j]));
    s.lemma_filter_contains_rev(p, kept[j]);
}

/// Filtering by a test and then by a narrower one is filtering by the
/// narrower one.
pub proof fn lemma_filter_narrows<A>(s: Seq<A>, wide: spec_fn(A) -> bool, narrow: spec_fn(A) -> bool)
    requires
        forall|i: int| 0 <= i < s.len() && narrow(#[trigger] s[i]) ==> wide(s[i]),
    ensures
        s.filter(wide).filter(narrow) == s.filter(narrow),
    decreases s.len(),
{
    reveal(Seq::filter);
    if s.len() > 0 {
        let rest = s.drop_last();
        assert forall|i: int| 0 <= i < rest.len() && narrow(#[trigger] rest[i]) implies wide(
            rest[i],
        ) by {
            assert(rest[i] == s[i]);
        }
        lemma_filter_narrows(rest, wide, narrow);
        assert(narrow(s.last()) ==> wide(s.last())) by {
            assert(s.last() == s[s.len() - 1]);
        }
        if wide(s.last()) {
            rest.filter(wide).lemma_filter_push(s.last(), narrow);
        }
    }
}

/// One step of filtering in place, where the element under the cursor goes.
///
/// `cur` is the sequence being filtered: its first `i` elements are what the
/// filter keeps of the first `k` elements of `before`, and the rest of it is
/// the rest of `before`.
pub proof fn lemma_retain_drop<A>(before: Seq<A>, cur: Seq<A>, p: spec_fn(A) -> bool, i: int, k: int)
    requires
        0 <= i < cur.len(),
        0 <= k <= before.len(),
        cur.take(i) == before.take(k).filter(p),
        cur.skip(i) == before.skip(k),
        !p(cur[i]),
    ensures
        k < before.len(),
        cur.remove(i).take(i) == before.take(k + 1).filter(p),
        cur.remove(i).skip(i) == before.skip(k + 1),
{
    assert(cur.skip(i).len() == cur.len() - i);
    assert(before.skip(k).len() == before.len() - k);
    assert(cur[i] == cur.skip(i)[0]);
    assert(before[k] == before.skip(k)[0]);
    before.lemma_take_succ_push(k);
    before.take(k).lemma_filter_push(before[k], p);
    assert(cur.remove(i).take(i) =~= cur.take(i));
    let cur_rest = cur.remove(i).skip(i);
    let before_rest = before.skip(k + 1);
    assert forall|j: int| 0 <= j < cur_rest.len() implies #[trigger] cur_rest[j]
        == before_rest[j] by {
        assert(cur_rest[j] == cur[i + j + 1]);
        assert(cur.skip(i)[j + 1] == cur[i + j + 1]);
        assert(before.skip(k)[j + 1] == before[k + j + 1]);
        assert(before_rest[j] == before[k + 1 + j]);
    }
    assert(cur_rest =~= before_rest);
}

/// One step of filtering in place, where the element under the cursor stays.
pub proof fn lemma_retain_keep<A>(before: Seq<A>, cur: Seq<A>, p: spec_fn(A) -> bool, i: int, k: int)
    requires
        0 <= i < cur.len(),
        0 <= k <= before.len(),
        cur.take(i) == before.take(k).filter(p),
        cur.skip(i) == before.skip(k),
        p(cur[i]),
    ensures
        k < before.len(),
        cur.take(i + 1) == before.take(k + 1).filter(p),
        cur.skip(i + 1) == before.skip(k + 1),
{
    assert(cur.skip(i).len() == cur.len() - i);
    assert(before.skip(k).len() == before.len() - k);
    assert(cur[i] == cur.skip(i)[0]);
    assert(before[k] == before.skip(k)[0]);
    before.lemma_take_succ_push(k);
    before.take(k).lemma_filter_push(before[k], p);
    cur.lemma_take_succ_push(i);
    let cur_rest = cur.skip(i + 1);
    let before_rest = before.skip(k + 1);
    assert forall|j: int| 0 <= j < cur_rest.len() implies #[trigger] cur_rest[j]
        == before_rest[j] by {
        assert(cur_rest[j] == cur[i + j + 1]);
        assert(cur.skip(i)[j + 1] == cur[i + j + 1]);
        assert(before.skip(k)[j + 1] == before[k + j + 1]);
        assert(before_rest[j] == before[k + 1 + j]);
    }
    assert(cur_rest =~= before_rest);
}

/// Filtering in place is done when the cursor has reached the end.
pub proof fn lemma_retain_done<A>(before: Seq<A>, cur: Seq<A>, p: spec_fn(A) -> bool, k: int)
    requires
        0 <= k <= before.len(),
        cur.take(cur.len() as int) == before.take(k).filter(p),
        cur.skip(cur.len() as int) == before.skip(k),
    ensures
        cur == before.filter(p),
{
    assert(before.skip(k).len() == 0);
    cur.lemma_take_len();
    before.lemma_take_len();
}

} // verus!
