//! The order of strings (character by character, which for UTF-8 is the
//! order of their bytes) and sorted lists without repetitions.
use vstd::prelude::*;

use crate::error::texts;
use crate::strings::to_chars;

verus! {

/// `a` comes before `b`: at the first difference its character is smaller,
/// or `a` is a proper prefix of `b`.
pub open spec fn text_lt(a: Seq<char>, b: Seq<char>) -> bool
    decreases a.len(),
{
    if a.len() == 0 {
        b.len() > 0
    } else if b.len() == 0 {
        false
    } else if a[0] != b[0] {
        a[0] < b[0]
    } else {
        text_lt(a.drop_first(), b.drop_first())
    }
}

/// Every element comes before every later one.
pub open spec fn strictly_sorted(s: Seq<Seq<char>>) -> bool {
    forall|i: int, j: int| 0 <= i < j < s.len() ==> text_lt(#[trigger] s[i], #[trigger] s[j])
}

/// `a` and `b` hold the same values.
pub open spec fn same_values(a: Seq<Seq<char>>, b: Seq<Seq<char>>) -> bool {
    forall|x: Seq<char>| #[trigger] a.contains(x) <==> b.contains(x)
}

/// No string comes before itself.
pub proof fn lemma_text_lt_irreflexive(a: Seq<char>)
    ensures
        !text_lt(a, a),
    decreases a.len(),
{
    if a.len() > 0 {
        lemma_text_lt_irreflexive(a.drop_first());
    }
}

/// Of two different strings, one comes before the other, and never both.
pub proof fn lemma_text_lt_total(a: Seq<char>, b: Seq<char>)
    ensures
        a != b ==> (text_lt(a, b) || text_lt(b, a)),
        !(text_lt(a, b) && text_lt(b, a)),
    decreases a.len(),
{
    if a.len() > 0 && b.len() > 0 && a[0] == b[0] {
        lemma_text_lt_total(a.drop_first(), b.drop_first());
        if a != b {
            assert(a.drop_first() != b.drop_first()) by {
                if a.drop_first() == b.drop_first() {
                    assert(a =~= seq![a[0]] + a.drop_first());
                    assert(b =~= seq![b[0]] + b.drop_first());
                }
            }
        }
    }
    if a.len() == 0 && b.len() == 0 {
        assert(a =~= b);
    }
}

/// The order is transitive.
pub proof fn lemma_text_lt_transitive(a: Seq<char>, b: Seq<char>, c: Seq<char>)
    requires
        text_lt(a, b),
        text_lt(b, c),
    ensures
        text_lt(a, c),
    decreases a.len(),
{
    if a.len() > 0 && b.len() > 0 && c.len() > 0 && a[0] == b[0] && b[0] == c[0] {
        lemma_text_lt_transitive(a.drop_first(), b.drop_first(), c.drop_first());
    }
}

proof fn lemma_text_lt_skip(a: Seq<char>, b: Seq<char>, k: int)
    requires
        0 <= k <= a.len(),
        k <= b.len(),
        a.take(k) == b.take(k),
    ensures
        text_lt(a, b) == text_lt(a.skip(k), b.skip(k)),
    decreases k,
{
    if k > 0 {
        assert(a[0] == a.take(k)[0]);
        assert(b[0] == b.take(k)[0]);
        assert(a.drop_first().take(k - 1) =~= a.take(k).drop_first());
        assert(b.drop_first().take(k - 1) =~= b.take(k).drop_first());
        lemma_text_lt_skip(a.drop_first(), b.drop_first(), k - 1);
        assert(a.drop_first().skip(k - 1) =~= a.skip(k));
        assert(b.drop_first().skip(k - 1) =~= b.skip(k));
    } else {
        assert(a.skip(0) =~= a);
        assert(b.skip(0) =~= b);
    }
}

/// Compares two strings: negative when `a` comes first, zero when they are
/// equal, positive when `b` comes first.
pub fn compare_text(a: &str, b: &str) -> (r: i8)
    ensures
        r < 0 <==> text_lt(a@, b@),
        r == 0 <==> a@ == b@,
        r > 0 <==> text_lt(b@, a@),
{
    let va = to_chars(a);
    let vb = to_chars(b);
    let mut k: usize = 0;
    while k < va.len() && k < vb.len() && va[k] == vb[k]
        invariant
            k <= va.len(),
            k <= vb.len(),
            va@.take(k as int) == vb@.take(k as int),
        decreases va.len() - k,
    {
        assert(va@.take(k + 1) =~= va@.take(k as int).push(va@[k as int]));
        assert(vb@.take(k + 1) =~= vb@.take(k as int).push(vb@[k as int]));
        k = k + 1;
    }
    proof {
        lemma_text_lt_skip(va@, vb@, k as int);
        lemma_text_lt_skip(vb@, va@, k as int);
        lemma_text_lt_total(va@, vb@);
        lemma_text_lt_irreflexive(va@);
    }
    if k == va.len() && k == vb.len() {
        assert(va@ =~= va@.take(k as int));
        assert(vb@ =~= vb@.take(k as int));
        0
    } else if k == va.len() {
        assert(va@.skip(k as int).len() == 0);
        -1
    } else if k == vb.len() {
        assert(vb@.skip(k as int).len() == 0);
        1
    } else {
        assert(va@.skip(k as int)[0] == va@[k as int]);
        assert(vb@.skip(k as int)[0] == vb@[k as int]);
        if va[k] < vb[k] {
            -1
        } else {
            1
        }
    }
}

/// Inserts `s` into the sorted list `r` unless it holds it already.
fn insert_sorted(r: &mut Vec<String>, s: String)
    requires
        strictly_sorted(texts(old(r)@)),
    ensures
        strictly_sorted(texts(final(r)@)),
        forall|x: Seq<char>| #[trigger]
            texts(final(r)@).contains(x) <==> (texts(old(r)@).contains(x) || x == s@),
{
    let ghost old_t = texts(r@);
    let mut p: usize = 0;
    while p < r.len() && compare_text(r[p].as_str(), s.as_str()) < 0
        invariant
            p <= r.len(),
            r@ == old(r)@,
            old_t == texts(r@),
            strictly_sorted(old_t),
            forall|q: int| 0 <= q < p ==> text_lt(#[trigger] old_t[q], s@),
        decreases r.len() - p,
    {
        p = p + 1;
    }
    if p < r.len() && compare_text(r[p].as_str(), s.as_str()) == 0 {
        assert(texts(r@).contains(s@)) by {
            assert(texts(r@)[p as int] == s@);
        }
        return;
    }
    proof {
        if p < r.len() {
            lemma_text_lt_total(old_t[p as int], s@);
        }
    }
    let ghost sv = s@;
    r.insert(p, s);
    proof {
        let t = texts(r@);
        assert(t =~= old_t.insert(p as int, sv));
        assert forall|i: int, j: int| 0 <= i < j < t.len() implies text_lt(
            #[trigger] t[i],
            #[trigger] t[j],
        ) by {
            if j < p {
                assert(t[i] == old_t[i] && t[j] == old_t[j]);
            } else if j == p {
                assert(t[i] == old_t[i]);
            } else if i == p {
                assert(t[j] == old_t[j - 1]);
                if j - 1 > p {
                    lemma_text_lt_transitive(sv, old_t[p as int], old_t[j - 1]);
                }
            } else if i < p {
                assert(t[i] == old_t[i] && t[j] == old_t[j - 1]);
                assert(text_lt(sv, old_t[j - 1])) by {
                    if j - 1 > p {
                        lemma_text_lt_transitive(sv, old_t[p as int], old_t[j - 1]);
                    }
                }
                lemma_text_lt_transitive(old_t[i], sv, old_t[j - 1]);
            } else {
                assert(t[i] == old_t[i - 1] && t[j] == old_t[j - 1]);
            }
        }
        assert forall|x: Seq<char>| #[trigger] t.contains(x) <==> (old_t.contains(x) || x == sv) by {
            if t.contains(x) {
                let k = choose|k: int| 0 <= k < t.len() && t[k] == x;
                if k < p {
                    assert(old_t[k] == x);
                } else if k > p {
                    assert(old_t[k - 1] == x);
                }
            }
            if old_t.contains(x) {
                let k = choose|k: int| 0 <= k < old_t.len() && old_t[k] == x;
                if k < p {
                    assert(t[k] == x);
                } else {
                    assert(t[k + 1] == x);
                }
            }
            if x == sv {
                assert(t[p as int] == x);
            }
        }
    }
}

/// The strings of `v` in order, each once.
pub fn sorted_unique(v: &Vec<String>) -> (r: Vec<String>)
    ensures
        strictly_sorted(texts(r@)),
        same_values(texts(r@), texts(v@)),
{
    let mut r: Vec<String> = Vec::new();
    let mut i: usize = 0;
    while i < v.len()
        invariant
            i <= v.len(),
            strictly_sorted(texts(r@)),
            same_values(texts(r@), texts(v@.take(i as int))),
        decreases v.len() - i,
    {
        let s = v[i].clone();
        insert_sorted(&mut r, s);
        i = i + 1;
        proof {
            let tv = texts(v@.take(i as int));
            let tp = texts(v@.take(i - 1));
            assert(tv =~= tp.push(v@[i - 1]@));
            assert forall|x: Seq<char>| #[trigger] texts(r@).contains(x) <==> tv.contains(x) by {
                if tv.contains(x) {
                    let k = choose|k: int| 0 <= k < tv.len() && tv[k] == x;
                    if k < tp.len() {
                        assert(tp[k] == x);
                    }
                }
                if tp.contains(x) {
                    let k = choose|k: int| 0 <= k < tp.len() && tp[k] == x;
                    assert(tv[k] == x);
                }
                if x == v@[i - 1]@ {
                    assert(tv[tp.len() as int] == x);
                }
            }
        }
    }
    assert(v@.take(v.len() as int) =~= v@);
    r
}

} // verus!
