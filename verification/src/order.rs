//! Ordering strings as `String::cmp` does (by Unicode scalar value, which
//! is also the order of their UTF-8 bytes), and a stable sort of
//! `(key, value)` string pairs by key.
use vstd::prelude::*;
use crate::text::chars_of;

verus! {

/// `a` comes strictly before `b` in lexicographic order of characters.
pub open spec fn seq_lt(a: Seq<char>, b: Seq<char>) -> bool
    decreases a.len(),
{
    if a.len() == 0 {
        b.len() > 0
    } else if b.len() == 0 {
        false
    } else if a[0] != b[0] {
        (a[0] as u32) < (b[0] as u32)
    } else {
        seq_lt(a.drop_first(), b.drop_first())
    }
}

/// Whether `a` comes strictly before `b`.
pub fn chars_lt(a: &Vec<char>, b: &Vec<char>) -> (r: bool)
    ensures
        r == seq_lt(a@, b@),
{
    let mut i: usize = 0;
    assert(a@.skip(0) =~= a@);
    assert(b@.skip(0) =~= b@);
    while i < a.len() && i < b.len() && a[i] == b[i]
        invariant
            i <= a@.len(),
            i <= b@.len(),
            seq_lt(a@, b@) == seq_lt(a@.skip(i as int), b@.skip(i as int)),
        decreases a.len() - i,
    {
        assert(a@.skip(i as int).drop_first() =~= a@.skip(i + 1));
        assert(b@.skip(i as int).drop_first() =~= b@.skip(i + 1));
        i = i + 1;
    }
    if i == a.len() {
        assert(a@.skip(i as int).len() == 0);
        i < b.len()
    } else if i == b.len() {
        assert(b@.skip(i as int).len() == 0);
        false
    } else {
        assert(a@.skip(i as int)[0] == a@[i as int]);
        assert(b@.skip(i as int)[0] == b@[i as int]);
        (a[i] as u32) < (b[i] as u32)
    }
}

/// The pairs as plain values.
pub open spec fn pairs_of(v: Seq<(String, String)>) -> Seq<(Seq<char>, Seq<char>)> {
    v.map_values(|p: (String, String)| (p.0@, p.1@))
}

/// `s` with `x` inserted after every pair whose key does not come after
/// `x`'s key (what a stable sort does with a later element).
pub open spec fn insert_by_key(s: Seq<(Seq<char>, Seq<char>)>, x: (Seq<char>, Seq<char>)) -> Seq<(Seq<char>, Seq<char>)>
    decreases s.len(),
{
    if s.len() == 0 {
        seq![x]
    } else if seq_lt(x.0, s.last().0) {
        insert_by_key(s.drop_last(), x).push(s.last())
    } else {
        s.push(x)
    }
}

/// The pairs sorted by key, pairs with equal keys in the order they came
/// (`sort_by` on the key).
pub open spec fn sort_by_key(s: Seq<(Seq<char>, Seq<char>)>) -> Seq<(Seq<char>, Seq<char>)>
    decreases s.len(),
{
    if s.len() == 0 {
        s
    } else {
        insert_by_key(sort_by_key(s.drop_last()), s.last())
    }
}

proof fn lemma_insert_at(s: Seq<(Seq<char>, Seq<char>)>, x: (Seq<char>, Seq<char>), j: int)
    requires
        0 <= j <= s.len(),
        forall|k: int| j <= k < s.len() ==> seq_lt(x.0, #[trigger] s[k].0),
        j == 0 || !seq_lt(x.0, s[j - 1].0),
    ensures
        insert_by_key(s, x) == s.take(j).push(x) + s.skip(j),
    decreases s.len(),
{
    if j == s.len() {
        assert(s.take(j) =~= s);
        assert(s.skip(j) =~= Seq::<(Seq<char>, Seq<char>)>::empty());
        assert(s.take(j).push(x) + s.skip(j) =~= s.push(x));
    } else {
        let t = s.drop_last();
        assert forall|k: int| j <= k < t.len() implies seq_lt(x.0, #[trigger] t[k].0) by {
            assert(t[k] == s[k]);
        }
        if j > 0 {
            assert(t[j - 1] == s[j - 1]);
        }
        lemma_insert_at(t, x, j);
        assert(s.last() == s[s.len() - 1]);
        assert(t.take(j).push(x) + t.skip(j) + seq![s.last()] =~= s.take(j).push(x) + s.skip(j));
        assert((t.take(j).push(x) + t.skip(j)).push(s.last()) =~= t.take(j).push(x) + t.skip(j) + seq![s.last()]);
    }
}

/// The pairs sorted by key, stably.
pub fn sort_pairs_by_key(v: Vec<(String, String)>) -> (r: Vec<(String, String)>)
    ensures
        pairs_of(r@) == sort_by_key(pairs_of(v@)),
{
    let ghost pv = pairs_of(v@);
    let mut r: Vec<(String, String)> = Vec::new();
    let mut keys: Vec<Vec<char>> = Vec::new();
    let mut i: usize = 0;
    while i < v.len()
        invariant
            pv == pairs_of(v@),
            i <= v@.len(),
            pairs_of(r@) == sort_by_key(pv.take(i as int)),
            keys@.len() == r@.len(),
            forall|k: int| 0 <= k < keys@.len() ==> #[trigger] keys@[k]@ == r@[k].0@,
        decreases v.len() - i,
    {
        assert(pv.take(i + 1).drop_last() =~= pv.take(i as int));
        assert(pv.take(i + 1).last() == pv[i as int]);
        let item = (v[i].0.clone(), v[i].1.clone());
        let key = chars_of(item.0.as_str());
        let mut j = r.len();
        while j > 0 && chars_lt(&key, &keys[j - 1])
            invariant
                j <= r@.len(),
                keys@.len() == r@.len(),
                key@ == item.0@,
                forall|k: int| 0 <= k < keys@.len() ==> #[trigger] keys@[k]@ == r@[k].0@,
                forall|k: int| j <= k < r@.len() ==> seq_lt(key@, #[trigger] pairs_of(r@)[k].0),
            decreases j,
        {
            assert(pairs_of(r@)[j - 1].0 == keys@[j - 1]@);
            j = j - 1;
        }
        proof {
            if j > 0 {
                assert(pairs_of(r@)[j - 1].0 == keys@[j - 1]@);
            }
            lemma_insert_at(pairs_of(r@), (item.0@, item.1@), j as int);
        }
        let ghost before = r@;
        let ghost kbefore = keys@;
        r.insert(j, item);
        keys.insert(j, key);
        assert(pairs_of(r@) =~= pairs_of(before).take(j as int).push((item.0@, item.1@)) + pairs_of(before).skip(j as int));
        assert forall|k: int| 0 <= k < keys@.len() implies #[trigger] keys@[k]@ == r@[k].0@ by {
            if k < j {
                assert(keys@[k] == kbefore[k]);
                assert(r@[k] == before[k]);
            } else if k > j {
                assert(keys@[k] == kbefore[k - 1]);
                assert(r@[k] == before[k - 1]);
            }
        }
        i = i + 1;
    }
    assert(pv.take(v@.len() as int) =~= pv);
    r
}

} // verus!
