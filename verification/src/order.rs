//! Lexicographic order on strings and a sort of string lists by it (the order of `str`'s `Ord`:
//! comparing UTF-8 bytes orders strings as comparing their characters does).
use vstd::prelude::*;
use vstd::relations::{sorted_by, total_ordering};

use crate::agent::tool::strings;
use crate::text::chars_of;

verus! {

broadcast use vstd::seq_lib::group_to_multiset_ensures;

/// `a` comes before `b` or equals it, character by character, a prefix first.
pub open spec fn lex_le(a: Seq<char>, b: Seq<char>) -> bool
    decreases a.len(),
{
    if a.len() == 0 {
        true
    } else if b.len() == 0 {
        false
    } else if a[0] < b[0] {
        true
    } else if a[0] > b[0] {
        false
    } else {
        lex_le(a.drop_first(), b.drop_first())
    }
}

pub open spec fn lex_order() -> spec_fn(Seq<char>, Seq<char>) -> bool {
    |a: Seq<char>, b: Seq<char>| lex_le(a, b)
}

proof fn lemma_lex_reflexive(a: Seq<char>)
    ensures
        lex_le(a, a),
    decreases a.len(),
{
    if a.len() > 0 {
        lemma_lex_reflexive(a.drop_first());
    }
}

proof fn lemma_lex_antisymmetric(a: Seq<char>, b: Seq<char>)
    requires
        lex_le(a, b),
        lex_le(b, a),
    ensures
        a == b,
    decreases a.len(),
{
    if a.len() == 0 {
        assert(b.len() == 0);
        assert(a =~= b);
    } else {
        lemma_lex_antisymmetric(a.drop_first(), b.drop_first());
        assert(a =~= seq![a[0]] + a.drop_first());
        assert(b =~= seq![b[0]] + b.drop_first());
    }
}

proof fn lemma_lex_transitive(a: Seq<char>, b: Seq<char>, c: Seq<char>)
    requires
        lex_le(a, b),
        lex_le(b, c),
    ensures
        lex_le(a, c),
    decreases a.len(),
{
    if a.len() > 0 && b.len() > 0 && c.len() > 0 && a[0] == b[0] && b[0] == c[0] {
        lemma_lex_transitive(a.drop_first(), b.drop_first(), c.drop_first());
    }
}

proof fn lemma_lex_connected(a: Seq<char>, b: Seq<char>)
    ensures
        lex_le(a, b) || lex_le(b, a),
    decreases a.len(),
{
    if a.len() > 0 && b.len() > 0 && a[0] == b[0] {
        lemma_lex_connected(a.drop_first(), b.drop_first());
    }
}

/// The lexicographic order is a total order.
pub proof fn lemma_lex_total()
    ensures
        total_ordering(lex_order()),
{
    let r = lex_order();
    assert forall|x: Seq<char>| #[trigger] r(x, x) by {
        lemma_lex_reflexive(x);
    }
    assert forall|x: Seq<char>, y: Seq<char>| #[trigger] r(x, y) && #[trigger] r(y, x) implies x == y by {
        lemma_lex_antisymmetric(x, y);
    }
    assert forall|x: Seq<char>, y: Seq<char>, z: Seq<char>|
        #[trigger] r(x, y) && #[trigger] r(y, z) implies r(x, z) by {
        lemma_lex_transitive(x, y, z);
    }
    assert forall|x: Seq<char>, y: Seq<char>| #[trigger] r(x, y) || #[trigger] r(y, x) by {
        lemma_lex_connected(x, y);
    }
}

/// Whether `a` comes before `b` or equals it.
pub fn lex_le_exec(a: &str, b: &str) -> (r: bool)
    ensures
        r == lex_le(a@, b@),
{
    let x = chars_of(a);
    let y = chars_of(b);
    let mut i: usize = 0;
    assert(x@.subrange(0, x.len() as int) =~= x@);
    assert(y@.subrange(0, y.len() as int) =~= y@);
    while i < x.len() && i < y.len() && x[i] == y[i]
        invariant
            i <= x.len(),
            i <= y.len(),
            lex_le(x@, y@) == lex_le(x@.subrange(i as int, x.len() as int), y@.subrange(i as int, y.len() as int)),
        decreases x.len() - i,
    {
        assert(x@.subrange(i as int, x.len() as int).drop_first() =~= x@.subrange(i + 1, x.len() as int));
        assert(y@.subrange(i as int, y.len() as int).drop_first() =~= y@.subrange(i + 1, y.len() as int));
        i = i + 1;
    }
    if i == x.len() {
        true
    } else if i == y.len() {
        false
    } else {
        x[i] < y[i]
    }
}

/// `v` sorted in lexicographic order.
pub fn sort_strings(v: Vec<String>) -> (r: Vec<String>)
    ensures
        strings(r@) == strings(v@).sort_by(lex_order()),
{
    proof {
        lemma_lex_total();
    }
    let ghost sv = strings(v@);
    let mut r: Vec<String> = Vec::new();
    let mut i: usize = 0;
    assert(strings(r@) =~= seq![]);
    assert(sv.take(0) =~= seq![]);
    while i < v.len()
        invariant
            i <= v.len(),
            sv == strings(v@),
            total_ordering(lex_order()),
            sorted_by(strings(r@), lex_order()),
            strings(r@).to_multiset() == sv.take(i as int).to_multiset(),
        decreases v.len() - i,
    {
        let x = &v[i];
        let ghost rs = strings(r@);
        let mut p: usize = 0;
        while p < r.len() && lex_le_exec(r[p].as_str(), x.as_str())
            invariant
                p <= r.len(),
                rs == strings(r@),
                forall|k: int| 0 <= k < p ==> lex_le(#[trigger] rs[k], x@),
            decreases r.len() - p,
        {
            p = p + 1;
        }
        let ghost xv = x@;
        r.insert(p, x.clone());
        proof {
            let ns = strings(r@);
            assert(ns =~= rs.insert(p as int, xv));
            let leq = lex_order();
            assert forall|a: int, b: int| 0 <= a < b < ns.len() implies #[trigger] leq(ns[a], ns[b]) by {
                if b < p {
                    assert(ns[a] == rs[a] && ns[b] == rs[b]);
                } else if b == p {
                    assert(ns[a] == rs[a]);
                } else if a == p {
                    assert(ns[b] == rs[b - 1]);
                    assert(!lex_le(rs[p as int], xv));
                    lemma_lex_connected(rs[p as int], xv);
                    if b - 1 > p {
                        assert(leq(rs[p as int], rs[b - 1]));
                        lemma_lex_transitive(xv, rs[p as int], rs[b - 1]);
                    }
                } else if a < p {
                    assert(ns[a] == rs[a] && ns[b] == rs[b - 1]);
                    assert(leq(rs[a], rs[b - 1]));
                } else {
                    assert(ns[a] == rs[a - 1] && ns[b] == rs[b - 1]);
                    assert(leq(rs[a - 1], rs[b - 1]));
                }
            }
            assert(sv.take(i + 1) =~= sv.take(i as int).push(xv));
        }
        i = i + 1;
    }
    proof {
        assert(sv.take(v.len() as int) =~= sv);
        sv.lemma_sort_by_ensures(lex_order());
        vstd::seq_lib::lemma_sorted_unique(strings(r@), sv.sort_by(lex_order()), lex_order());
    }
    r
}

} // verus!
