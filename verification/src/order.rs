//! The order of texts, and lists kept in it.

use vstd::prelude::*;

use crate::text::{texts, to_chars};

verus! {

/// Whether `a` comes before `b` when both are read from position `i` on,
/// character by character, a character with the smaller code point first and
/// a text before its own extensions.
pub open spec fn before_from(a: Seq<char>, b: Seq<char>, i: int) -> bool
    decreases a.len() - i,
{
    if i < 0 || i >= b.len() {
        false
    } else if i >= a.len() {
        true
    } else if a[i] != b[i] {
        (a[i] as u32) < (b[i] as u32)
    } else {
        before_from(a, b, i + 1)
    }
}

/// The order of texts: by code points, from the first character on.
pub open spec fn text_lt(a: Seq<char>, b: Seq<char>) -> bool {
    before_from(a, b, 0)
}

/// Each text of the sequence comes before those that follow it.
pub open spec fn strictly_sorted(s: Seq<Seq<char>>) -> bool {
    forall|i: int, j: int| 0 <= i < j < s.len() ==> text_lt(s[i], s[j])
}

/// The two sequences hold the same texts, however often and in whatever
/// order.
pub open spec fn same_members(s: Seq<Seq<char>>, t: Seq<Seq<char>>) -> bool {
    forall|x: Seq<char>| s.contains(x) <==> t.contains(x)
}

/// Two texts that agree before `i` and of which neither comes before the
/// other from `i` on are the same text.
pub proof fn lemma_neither_before(a: Seq<char>, b: Seq<char>, i: int)
    requires
        0 <= i <= a.len(),
        i <= b.len(),
        forall|j: int| 0 <= j < i ==> a[j] == b[j],
        !before_from(a, b, i),
        !before_from(b, a, i),
    ensures
        a == b,
    decreases a.len() - i,
{
    if i >= a.len() || i >= b.len() {
        assert(a =~= b);
    } else {
        vstd::utf8::char_u32_cast(a[i], a[i] as u32);
        vstd::utf8::char_u32_cast(b[i], b[i] as u32);
        assert(a[i] == b[i]);
        lemma_neither_before(a, b, i + 1);
    }
}

/// Of two different texts one comes before the other.
pub proof fn lemma_text_lt_total(a: Seq<char>, b: Seq<char>)
    ensures
        text_lt(a, b) || text_lt(b, a) || a == b,
{
    if !text_lt(a, b) && !text_lt(b, a) {
        lemma_neither_before(a, b, 0);
    }
}

/// No text comes before itself.
pub proof fn lemma_text_lt_irreflexive(a: Seq<char>, i: int)
    requires
        0 <= i,
    ensures
        !before_from(a, a, i),
    decreases a.len() - i,
{
    if i < a.len() {
        lemma_text_lt_irreflexive(a, i + 1);
    }
}

/// The order is transitive, from any position before which the three texts
/// agree.
pub proof fn lemma_before_transitive(a: Seq<char>, b: Seq<char>, c: Seq<char>, i: int)
    requires
        0 <= i,
        before_from(a, b, i),
        before_from(b, c, i),
    ensures
        before_from(a, c, i),
    decreases a.len() - i,
{
    if i < a.len() && i < b.len() && i < c.len() && a[i] == b[i] && b[i] == c[i] {
        lemma_before_transitive(a, b, c, i + 1);
    }
}

/// The order is transitive.
pub proof fn lemma_text_lt_transitive(a: Seq<char>, b: Seq<char>, c: Seq<char>)
    requires
        text_lt(a, b),
        text_lt(b, c),
    ensures
        text_lt(a, c),
{
    lemma_before_transitive(a, b, c, 0);
}

/// A sorted sequence without repetition is determined by the texts that it
/// holds.
pub proof fn lemma_sorted_determined(a: Seq<Seq<char>>, b: Seq<Seq<char>>)
    requires
        strictly_sorted(a),
        strictly_sorted(b),
        same_members(a, b),
    ensures
        a == b,
    decreases a.len(),
{
    if a.len() == 0 {
        if b.len() > 0 {
            assert(b.contains(b[0]));
        }
        assert(a =~= b);
    } else {
        assert(a.contains(a[0]));
        assert(b.contains(a[0]));
        let k = choose|k: int| 0 <= k < b.len() && b[k] == a[0];
        assert(b.contains(b[0]));
        let m = choose|m: int| 0 <= m < a.len() && a[m] == b[0];
        lemma_text_lt_irreflexive(a[0], 0);
        if k > 0 {
            assert(text_lt(b[0], b[k]));
            if m > 0 {
                assert(text_lt(a[0], a[m]));
                lemma_text_lt_transitive(a[0], b[0], a[0]);
            }
        }
        assert(a[0] == b[0]);
        let x = a.drop_first();
        let y = b.drop_first();
        assert forall|i: int, j: int| 0 <= i < j < x.len() implies text_lt(x[i], x[j]) by {
            assert(text_lt(a[i + 1], a[j + 1]));
        }
        assert forall|i: int, j: int| 0 <= i < j < y.len() implies text_lt(y[i], y[j]) by {
            assert(text_lt(b[i + 1], b[j + 1]));
        }
        assert forall|t: Seq<char>| x.contains(t) <==> y.contains(t) by {
            if x.contains(t) {
                let i = choose|i: int| 0 <= i < x.len() && x[i] == t;
                assert(a[i + 1] == t);
                assert(text_lt(a[0], a[i + 1]));
                assert(a.contains(t));
                let j = choose|j: int| 0 <= j < b.len() && b[j] == t;
                lemma_text_lt_irreflexive(t, 0);
                assert(y[j - 1] == t);
            }
            if y.contains(t) {
                let i = choose|i: int| 0 <= i < y.len() && y[i] == t;
                assert(b[i + 1] == t);
                assert(text_lt(b[0], b[i + 1]));
                assert(b.contains(t));
                let j = choose|j: int| 0 <= j < a.len() && a[j] == t;
                lemma_text_lt_irreflexive(t, 0);
                assert(x[j - 1] == t);
            }
        }
        lemma_sorted_determined(x, y);
        assert(a =~= seq![a[0]] + x);
        assert(b =~= seq![b[0]] + y);
    }
}

/// The texts of `s` in their order, each once.
pub open spec fn sorted_texts(s: Seq<Seq<char>>) -> Seq<Seq<char>> {
    choose|r: Seq<Seq<char>>| strictly_sorted(r) && same_members(r, s)
}

/// Whether the first list of characters comes before the second.
fn chars_before(a: &Vec<char>, b: &Vec<char>) -> (r: bool)
    ensures
        r == text_lt(a@, b@),
{
    let mut i: usize = 0;
    while i < a.len() && i < b.len()
        invariant
            i <= a@.len(),
            i <= b@.len(),
            text_lt(a@, b@) == before_from(a@, b@, i as int),
        decreases a@.len() - i,
    {
        if a[i] != b[i] {
            return (a[i] as u32) < (b[i] as u32);
        }
        i += 1;
    }
    i < b.len()
}

/// Whether the first text comes before the second.
pub fn text_before(a: &str, b: &str) -> (r: bool)
    ensures
        r == text_lt(a@, b@),
{
    let x = to_chars(a);
    let y = to_chars(b);
    chars_before(&x, &y)
}

/// Enters a text into a sorted list at its place, unless the list has it
/// already.
pub fn insert_sorted(v: &mut Vec<String>, x: String)
    requires
        strictly_sorted(texts(old(v)@)),
    ensures
        strictly_sorted(texts(final(v)@)),
        forall|t: Seq<char>|
            texts(final(v)@).contains(t) <==> (texts(old(v)@).contains(t) || t == x@),
{
    let ghost s = texts(v@);
    let xs = to_chars(x.as_str());
    let mut i: usize = 0;
    while i < v.len()
        invariant
            v@ == old(v)@,
            s == texts(v@),
            xs@ == x@,
            i <= v@.len(),
            forall|j: int| 0 <= j < i ==> text_lt(s[j], x@),
        ensures
            i < v@.len() ==> !text_lt(s[i as int], x@),
        decreases v@.len() - i,
    {
        let here = to_chars(v[i].as_str());
        assert(here@ == s[i as int]);
        if !chars_before(&here, &xs) {
            break ;
        }
        i += 1;
    }
    let found = i < v.len() && !chars_before(&xs, &to_chars(v[i].as_str()));
    if found {
        proof {
            lemma_text_lt_total(s[i as int], x@);
            assert(s[i as int] == x@);
            assert forall|t: Seq<char>| s.contains(t) || t == x@ implies s.contains(t) by {
                assert(s[i as int] == x@);
            }
        }
    } else {
        let ghost xv = x@;
        v.insert(i, x);
        proof {
            let t = texts(v@);
            assert(t =~= s.insert(i as int, xv));
            assert forall|a: int, b: int| 0 <= a < b < t.len() implies text_lt(t[a], t[b]) by {
                if b < i {
                    assert(text_lt(s[a], s[b]));
                } else if b == i {
                    assert(text_lt(s[a], xv));
                } else if a == i {
                    if b - 1 > i {
                        assert(text_lt(s[i as int], s[b - 1]));
                        lemma_text_lt_transitive(xv, s[i as int], s[b - 1]);
                    }
                } else if a < i {
                    assert(text_lt(s[a], s[b - 1]));
                } else {
                    assert(text_lt(s[a - 1], s[b - 1]));
                }
            }
            assert forall|q: Seq<char>| t.contains(q) <==> (s.contains(q) || q == xv) by {
                if t.contains(q) {
                    let k = choose|k: int| 0 <= k < t.len() && t[k] == q;
                    if k < i {
                        assert(s[k] == q);
                    } else if k > i {
                        assert(s[k - 1] == q);
                    }
                }
                if s.contains(q) {
                    let k = choose|k: int| 0 <= k < s.len() && s[k] == q;
                    if k < i {
                        assert(t[k] == q);
                    } else {
                        assert(t[k + 1] == q);
                    }
                }
                if q == xv {
                    assert(t[i as int] == q);
                }
            }
        }
    }
}

/// The texts of a list in their order, each once.
pub fn sorted_unique(names: &Vec<String>) -> (r: Vec<String>)
    ensures
        strictly_sorted(texts(r@)),
        same_members(texts(r@), texts(names@)),
        texts(r@) == sorted_texts(texts(names@)),
{
    let ghost all = texts(names@);
    let mut out: Vec<String> = Vec::new();
    let mut i: usize = 0;
    assert(texts(out@) =~= Seq::<Seq<char>>::empty());
    while i < names.len()
        invariant
            all == texts(names@),
            i <= names@.len(),
            strictly_sorted(texts(out@)),
            forall|t: Seq<char>| texts(out@).contains(t) <==> all.take(i as int).contains(t),
        decreases names@.len() - i,
    {
        insert_sorted(&mut out, names[i].clone());
        proof {
            let t0 = all.take(i as int);
            let t1 = all.take(i + 1);
            assert forall|t: Seq<char>| texts(out@).contains(t) <==> t1.contains(t) by {
                if t1.contains(t) {
                    let k = choose|k: int| 0 <= k < t1.len() && t1[k] == t;
                    if k < i {
                        assert(t0[k] == t);
                    }
                }
                if t0.contains(t) {
                    let k = choose|k: int| 0 <= k < t0.len() && t0[k] == t;
                    assert(t1[k] == t);
                }
                if t == all[i as int] {
                    assert(t1[i as int] == t);
                }
            }
        }
        i += 1;
    }
    assert(all.take(i as int) =~= all);
    proof {
        lemma_sorted_determined(texts(out@), sorted_texts(all));
    }
    out
}

} // verus!
