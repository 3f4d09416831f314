//! The JSON body of a secret request, built from the caller's key/value pairs.
use vstd::prelude::*;
use crate::json::{json_object_text, object_text, pairs_view};

verus! {

/// The views of a list of borrowed key/value pairs.
pub open spec fn str_pairs_view(kwargs: Seq<(&str, &str)>) -> Seq<(Seq<char>, Seq<char>)> {
    kwargs.map_values(|e: (&str, &str)| (e.0@, e.1@))
}

/// The index of the last pair of `s` whose key is `k`, or -1 where there is none.
pub open spec fn key_index(s: Seq<(Seq<char>, Seq<char>)>, k: Seq<char>) -> int
    decreases s.len(),
{
    if s.len() == 0 {
        -1
    } else if s.last().0 == k {
        s.len() - 1
    } else {
        key_index(s.drop_last(), k)
    }
}

/// The pairs of `kw` inserted one after another into an ordered map: a key
/// keeps the place where it first came, and takes the value that came last.
pub open spec fn merged(kw: Seq<(Seq<char>, Seq<char>)>) -> Seq<(Seq<char>, Seq<char>)>
    decreases kw.len(),
{
    if kw.len() == 0 {
        Seq::empty()
    } else {
        let prev = merged(kw.drop_last());
        let j = key_index(prev, kw.last().0);
        if j >= 0 {
            prev.update(j, kw.last())
        } else {
            prev.push(kw.last())
        }
    }
}

/// The request body for `kwargs`: JSON null where there are none, else the
/// JSON object of the merged pairs.
pub open spec fn body_text(kwargs: Option<Seq<(Seq<char>, Seq<char>)>>) -> Seq<char> {
    match kwargs {
        None => "null"@,
        Some(kw) => json_object_text(merged(kw)),
    }
}

/// The views of the pairs that a request body is built from, if any.
pub open spec fn kwargs_view(kwargs: Option<&Vec<(&str, &str)>>) -> Option<
    Seq<(Seq<char>, Seq<char>)>,
> {
    match kwargs {
        None => None,
        Some(v) => Some(str_pairs_view(v@)),
    }
}

proof fn lemma_key_index_range(s: Seq<(Seq<char>, Seq<char>)>, k: Seq<char>)
    ensures
        -1 <= key_index(s, k) < s.len(),
        key_index(s, k) >= 0 ==> s[key_index(s, k)].0 == k,
        key_index(s, k) == -1 ==> forall|i: int| 0 <= i < s.len() ==> s[i].0 != k,
    decreases s.len(),
{
    if s.len() > 0 && s.last().0 != k {
        lemma_key_index_range(s.drop_last(), k);
        if key_index(s, k) == -1 {
            assert forall|i: int| 0 <= i < s.len() implies s[i].0 != k by {
                if i < s.len() - 1 {
                    assert(s[i] == s.drop_last()[i]);
                }
            }
        }
    }
}

proof fn lemma_key_index_keys(a: Seq<(Seq<char>, Seq<char>)>, b: Seq<(Seq<char>, Seq<char>)>, k: Seq<char>)
    requires
        a.len() == b.len(),
        forall|i: int| 0 <= i < a.len() ==> a[i].0 == b[i].0,
    ensures
        key_index(a, k) == key_index(b, k),
    decreases a.len(),
{
    if a.len() > 0 {
        lemma_key_index_keys(a.drop_last(), b.drop_last(), k);
    }
}

/// Merging keeps a key exactly where the pairs name it, and gives it the value
/// of the last pair that names it: on repeated keys the last write wins.
pub proof fn lemma_last_write_wins(kw: Seq<(Seq<char>, Seq<char>)>, k: Seq<char>)
    ensures
        (key_index(merged(kw), k) >= 0) == (key_index(kw, k) >= 0),
        key_index(kw, k) >= 0 ==> merged(kw)[key_index(merged(kw), k)] == kw[key_index(kw, k)],
    decreases kw.len(),
{
    if kw.len() > 0 {
        let s = kw.drop_last();
        let x = kw.last();
        let p = merged(s);
        let j = key_index(p, x.0);
        lemma_last_write_wins(s, k);
        lemma_key_index_range(s, k);
        lemma_key_index_range(p, x.0);
        lemma_key_index_range(p, k);
        if j >= 0 {
            let q = p.update(j, x);
            assert forall|i: int| 0 <= i < q.len() implies q[i].0 == p[i].0 by {}
            lemma_key_index_keys(q, p, k);
            if k == x.0 {
                assert(key_index(q, k) == j);
            } else {
                assert(key_index(kw, k) == key_index(s, k));
                let m = key_index(s, k);
                if m >= 0 {
                    let n = key_index(p, k);
                    assert(n != j);
                    assert(q[n] == p[n]);
                    assert(kw[m] == s[m]);
                }
            }
        } else {
            let q = p.push(x);
            assert(q.drop_last() =~= p);
            if k != x.0 {
                assert(key_index(q, k) == key_index(p, k));
                assert(key_index(kw, k) == key_index(s, k));
                let m = key_index(s, k);
                if m >= 0 {
                    let n = key_index(p, k);
                    assert(q[n] == p[n]);
                    assert(kw[m] == s[m]);
                }
            }
        }
    }
}

fn find_key(entries: &Vec<(String, String)>, key: &String) -> (r: Option<usize>)
    ensures
        match r {
            Some(j) => j < entries@.len() && j as int == key_index(pairs_view(entries@), key@),
            None => key_index(pairs_view(entries@), key@) == -1,
        },
{
    let ghost all = pairs_view(entries@);
    let mut j: usize = entries.len();
    assert(all.take(j as int) =~= all);
    while j > 0
        invariant
            j <= entries@.len(),
            all == pairs_view(entries@),
            key_index(all, key@) == key_index(all.take(j as int), key@),
        decreases j,
    {
        assert(all.take(j as int).drop_last() =~= all.take(j - 1));
        if entries[j - 1].0 == *key {
            return Some(j - 1);
        }
        j = j - 1;
    }
    None
}

/// The pairs of `kwargs` merged as into an ordered map: each key once, in the
/// order of its first pair, with the value of its last.
pub fn merge_pairs(kwargs: &Vec<(&str, &str)>) -> (r: Vec<(String, String)>)
    ensures
        pairs_view(r@) == merged(str_pairs_view(kwargs@)),
{
    let ghost all = str_pairs_view(kwargs@);
    let mut out: Vec<(String, String)> = Vec::new();
    let mut i: usize = 0;
    while i < kwargs.len()
        invariant
            i <= kwargs@.len(),
            all == str_pairs_view(kwargs@),
            pairs_view(out@) == merged(all.take(i as int)),
        decreases kwargs.len() - i,
    {
        assert(all.take(i + 1).drop_last() =~= all.take(i as int));
        let (k, v) = kwargs[i];
        let key = k.to_owned();
        let value = v.to_owned();
        let ghost before = out@;
        match find_key(&out, &key) {
            Some(j) => {
                out.set(j, (key, value));
                assert(pairs_view(out@) =~= pairs_view(before).update(j as int, all[i as int]));
            },
            None => {
                out.push((key, value));
                assert(pairs_view(out@) =~= pairs_view(before).push(all[i as int]));
            },
        }
        i = i + 1;
    }
    assert(all.take(kwargs@.len() as int) =~= all);
    out
}

/// The JSON text sent as the body of a secret request.
pub fn request_body(kwargs: Option<&Vec<(&str, &str)>>) -> (r: String)
    ensures
        r@ == body_text(kwargs_view(kwargs)),
{
    match kwargs {
        None => "null".to_owned(),
        Some(kw) => object_text(&merge_pairs(kw)),
    }
}

} // verus!
