//! Lexicographic order of texts by code point, which is also the byte order of their UTF-8
//! encodings and so the order of `String`'s `Ord`; and sorted sets of texts in that order.

use crate::text::str_eq;
use vstd::prelude::*;

verus! {

/// Whether `a` comes before `b`, comparing from position `i` on, the earlier positions being
/// equal.
pub open spec fn text_lt_from(a: Seq<char>, b: Seq<char>, i: int) -> bool
    decreases a.len() - i,
{
    if i < 0 || i >= a.len() {
        0 <= i < b.len()
    } else if i >= b.len() {
        false
    } else if a[i] != b[i] {
        (a[i] as u32) < (b[i] as u32)
    } else {
        text_lt_from(a, b, i + 1)
    }
}

/// Whether `a` comes strictly before `b` in lexicographic code-point order.
pub open spec fn text_lt(a: Seq<char>, b: Seq<char>) -> bool {
    text_lt_from(a, b, 0)
}

/// Whether a list of texts is strictly increasing.
pub open spec fn strictly_sorted(v: Seq<String>) -> bool {
    forall|i: int, j: int| 0 <= i < j < v.len() ==> text_lt(#[trigger] v[i]@, #[trigger] v[j]@)
}

/// Whether a list of texts holds `s`, by view.
pub open spec fn holds_text(v: Seq<String>, s: Seq<char>) -> bool {
    exists|i: int| 0 <= i < v.len() && (#[trigger] v[i])@ == s
}

proof fn lemma_lt_from_irreflexive(a: Seq<char>, i: int)
    requires
        0 <= i,
    ensures
        !text_lt_from(a, a, i),
    decreases a.len() - i,
{
    if i < a.len() {
        lemma_lt_from_irreflexive(a, i + 1);
    }
}

proof fn lemma_lt_from_transitive(a: Seq<char>, b: Seq<char>, c: Seq<char>, i: int)
    requires
        0 <= i,
        text_lt_from(a, b, i),
        text_lt_from(b, c, i),
    ensures
        text_lt_from(a, c, i),
    decreases a.len() - i,
{
    if i < a.len() && i < b.len() && i < c.len() && a[i] == b[i] && b[i] == c[i] {
        lemma_lt_from_transitive(a, b, c, i + 1);
    }
}

proof fn lemma_lt_from_asymmetric(a: Seq<char>, b: Seq<char>, i: int)
    requires
        0 <= i,
        text_lt_from(a, b, i),
    ensures
        !text_lt_from(b, a, i),
    decreases a.len() - i,
{
    if i < a.len() && i < b.len() && a[i] == b[i] {
        lemma_lt_from_asymmetric(a, b, i + 1);
    }
}

/// No text comes before itself.
pub proof fn lemma_text_lt_irreflexive(a: Seq<char>)
    ensures
        !text_lt(a, a),
{
    lemma_lt_from_irreflexive(a, 0);
}

/// Of two texts, at most one comes before the other.
pub proof fn lemma_text_lt_asymmetric(a: Seq<char>, b: Seq<char>)
    requires
        text_lt(a, b),
    ensures
        !text_lt(b, a),
{
    lemma_lt_from_asymmetric(a, b, 0);
}

/// The order is transitive.
pub proof fn lemma_text_lt_transitive(a: Seq<char>, b: Seq<char>, c: Seq<char>)
    requires
        text_lt(a, b),
        text_lt(b, c),
    ensures
        text_lt(a, c),
{
    lemma_lt_from_transitive(a, b, c, 0);
}

/// The outcome of comparing two texts.
#[derive(Debug, Clone, Copy, PartialEq, Eq, Structural)]
pub enum TextOrder {
    Before,
    Same,
    After,
}

/// Compares two texts in lexicographic code-point order.
pub fn compare_text(a: &str, b: &str) -> (r: TextOrder)
    ensures
        r == TextOrder::Before <==> text_lt(a@, b@),
        r == TextOrder::After <==> text_lt(b@, a@),
        r == TextOrder::Same <==> a@ == b@,
{
    let la = a.unicode_len();
    let lb = b.unicode_len();
    let mut i: usize = 0;
    while i < la && i < lb
        invariant
            la == a@.len(),
            lb == b@.len(),
            i <= la,
            i <= lb,
            a@.subrange(0, i as int) == b@.subrange(0, i as int),
            text_lt(a@, b@) == text_lt_from(a@, b@, i as int),
            text_lt(b@, a@) == text_lt_from(b@, a@, i as int),
        decreases la - i,
    {
        let ca = a.get_char(i);
        let cb = b.get_char(i);
        if ca != cb {
            proof {
                if a@ == b@ {
                    assert(a@[i as int] == b@[i as int]);
                }
            }
            if (ca as u32) < (cb as u32) {
                return TextOrder::Before;
            } else {
                return TextOrder::After;
            }
        }
        proof {
            assert(a@.subrange(0, i + 1) =~= a@.subrange(0, i as int).push(ca));
            assert(b@.subrange(0, i + 1) =~= b@.subrange(0, i as int).push(cb));
        }
        i += 1;
    }
    proof {
        if i == la && i == lb {
            assert(a@ =~= a@.subrange(0, i as int));
            assert(b@ =~= b@.subrange(0, i as int));
        }
        if a@ == b@ {
            assert(la == lb);
        }
    }
    if i == la && i == lb {
        TextOrder::Same
    } else if i == la {
        TextOrder::Before
    } else {
        TextOrder::After
    }
}

/// Whether a list holds a text, by view.
pub fn contains_text(v: &Vec<String>, s: &str) -> (r: bool)
    ensures
        r == holds_text(v@, s@),
{
    let mut i: usize = 0;
    while i < v.len()
        invariant
            i <= v@.len(),
            forall|j: int| 0 <= j < i ==> (#[trigger] v@[j])@ != s@,
        decreases v.len() - i,
    {
        if str_eq(v[i].as_str(), s) {
            return true;
        }
        i += 1;
    }
    false
}

/// Inserts a text into a strictly increasing list, unless the list already holds it.
pub fn insert_sorted(v: &mut Vec<String>, s: String)
    requires
        strictly_sorted(old(v)@),
    ensures
        strictly_sorted(final(v)@),
        forall|t: Seq<char>| #![trigger holds_text(final(v)@, t)] holds_text(final(v)@, t) <==> (holds_text(old(v)@, t) || t == s@),
{
    let ghost old_v = v@;
    let mut p: usize = 0;
    let mut stop = false;
    while p < v.len() && !stop
        invariant
            v@ == old_v,
            strictly_sorted(old_v),
            p <= old_v.len(),
            forall|j: int| 0 <= j < p ==> text_lt((#[trigger] old_v[j])@, s@),
            stop ==> p < old_v.len() && text_lt(s@, old_v[p as int]@),
        decreases v.len() - p, if stop { 0int } else { 1int },
    {
        match compare_text(v[p].as_str(), s.as_str()) {
            TextOrder::Before => {
                p += 1;
            },
            TextOrder::Same => {
                proof {
                    assert(holds_text(old_v, s@));
                    assert forall|t: Seq<char>| holds_text(v@, t) <==> (holds_text(old_v, t) || t == s@) by {
                        if t == s@ {
                            assert(old_v[p as int]@ == s@);
                        }
                    }
                }
                return;
            },
            TextOrder::After => {
                stop = true;
            },
        }
    }
    proof {
        assert forall|j: int| p <= j < old_v.len() implies text_lt(s@, (#[trigger] old_v[j])@) by {
            if j > p {
                assert(text_lt(old_v[p as int]@, old_v[j]@));
                lemma_text_lt_transitive(s@, old_v[p as int]@, old_v[j]@);
            }
        }
    }
    v.insert(p, s);
    proof {
        let nv = v@;
        assert(nv =~= old_v.subrange(0, p as int).push(s).add(old_v.subrange(p as int, old_v.len() as int)));
        assert forall|i: int, j: int| 0 <= i < j < nv.len() implies text_lt(#[trigger] nv[i]@, #[trigger] nv[j]@) by {
            if j < p {
                assert(nv[i] == old_v[i] && nv[j] == old_v[j]);
            } else if j == p {
                assert(nv[i] == old_v[i]);
            } else if i < p {
                assert(nv[i] == old_v[i] && nv[j] == old_v[j - 1]);
                lemma_text_lt_transitive(old_v[i]@, s@, old_v[j - 1]@);
            } else if i == p {
                assert(nv[j] == old_v[j - 1]);
            } else {
                assert(nv[i] == old_v[i - 1] && nv[j] == old_v[j - 1]);
            }
        }
        assert forall|t: Seq<char>| holds_text(nv, t) <==> (holds_text(old_v, t) || t == s@) by {
            if holds_text(nv, t) {
                let k = choose|k: int| 0 <= k < nv.len() && (#[trigger] nv[k])@ == t;
                if k < p {
                    assert(old_v[k]@ == t);
                } else if k > p {
                    assert(old_v[k - 1]@ == t);
                }
            }
            if holds_text(old_v, t) {
                let k = choose|k: int| 0 <= k < old_v.len() && (#[trigger] old_v[k])@ == t;
                if k < p {
                    assert(nv[k]@ == t);
                } else {
                    assert(nv[k + 1]@ == t);
                }
            }
            if t == s@ {
                assert(nv[p as int]@ == t);
            }
        }
    }
}

} // verus!
