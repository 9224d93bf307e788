//! Deterministic batch ordering: grammars are processed in lexicographic
//! name order, so run output and logs are reproducible across invocations
//! whatever order the configuration enumerated them in.

use vstd::multiset::Multiset;
use vstd::prelude::*;
use vstd::string::StrSliceExecFns;

use crate::orchestrator::GrammarBuildSpec;

verus! {

broadcast use {vstd::seq_lib::group_to_multiset_ensures, vstd::multiset::group_multiset_axioms};

/// Lexicographic order on character sequences, by code point; a prefix
/// precedes every extension of it.
pub open spec fn lex_le(a: Seq<char>, b: Seq<char>) -> bool
    decreases a.len(),
{
    if a.len() == 0 {
        true
    } else if b.len() == 0 {
        false
    } else if a[0] == b[0] {
        lex_le(a.drop_first(), b.drop_first())
    } else {
        a[0] < b[0]
    }
}

/// The order is total: two sequences compare in one direction or the other.
pub proof fn lemma_lex_total(a: Seq<char>, b: Seq<char>)
    ensures
        lex_le(a, b) || lex_le(b, a),
    decreases a.len(),
{
    if a.len() > 0 && b.len() > 0 {
        if a[0] == b[0] {
            lemma_lex_total(a.drop_first(), b.drop_first());
        }
    }
}

/// Decide the lexicographic order of two strings.
pub fn str_lex_le(a: &str, b: &str) -> (r: bool)
    ensures
        r == lex_le(a@, b@),
{
    let a_len = a.unicode_len();
    let b_len = b.unicode_len();
    let mut i: usize = 0;
    proof {
        assert(a@.skip(0) =~= a@);
        assert(b@.skip(0) =~= b@);
    }
    loop
        invariant
            i <= a_len,
            i <= b_len,
            a_len == a@.len(),
            b_len == b@.len(),
            lex_le(a@, b@) == lex_le(a@.skip(i as int), b@.skip(i as int)),
        decreases a_len - i,
    {
        if i == a_len {
            return true;
        }
        if i == b_len {
            return false;
        }
        let ca = a.get_char(i);
        let cb = b.get_char(i);
        if ca == cb {
            proof {
                assert(a@.skip(i as int).drop_first() =~= a@.skip(i as int + 1));
                assert(b@.skip(i as int).drop_first() =~= b@.skip(i as int + 1));
            }
            i = i + 1;
        } else {
            return ca < cb;
        }
    }
}

/// Whether each spec's name precedes the next one's.
pub open spec fn sorted_by_name(s: Seq<GrammarBuildSpec>) -> bool {
    forall|i: int| 0 <= i < s.len() - 1 ==> #[trigger] lex_le(s[i].name@, s[i + 1].name@)
}

/// Arrange a batch in lexicographic name order. The result holds exactly
/// the given specs.
pub fn sort_specs_by_name(specs: Vec<GrammarBuildSpec>) -> (r: Vec<GrammarBuildSpec>)
    ensures
        sorted_by_name(r@),
        r@.to_multiset() == specs@.to_multiset(),
        r@.len() == specs@.len(),
{
    let ghost all = specs@;
    let mut src = specs;
    let mut r: Vec<GrammarBuildSpec> = Vec::new();
    proof {
        assert(r@.to_multiset() =~= Multiset::<GrammarBuildSpec>::empty());
        assert(r@.to_multiset().add(src@.to_multiset()) =~= all.to_multiset());
    }
    while src.len() > 0
        invariant
            sorted_by_name(r@),
            r@.to_multiset().add(src@.to_multiset()) == all.to_multiset(),
            r@.len() + src@.len() == all.len(),
        decreases src@.len(),
    {
        let ghost src_pre = src@;
        let x = src.remove(0);
        proof {
            assert(src@ == src_pre.remove(0));
            assert(src@.to_multiset() == src_pre.to_multiset().remove(x));
            assert(src_pre.to_multiset().count(x) > 0) by {
                assert(src_pre[0] == x);
                assert(src_pre.contains(x));
            }
        }
        let mut p: usize = 0;
        loop
            invariant
                p <= r@.len(),
                sorted_by_name(r@),
                forall|k: int| 0 <= k < p ==> lex_le(#[trigger] r@[k].name@, x.name@),
            ensures
                p <= r@.len(),
                forall|k: int| 0 <= k < p ==> lex_le(#[trigger] r@[k].name@, x.name@),
                p < r@.len() ==> !lex_le(r@[p as int].name@, x.name@),
            decreases r@.len() - p,
        {
            if p == r.len() {
                break;
            }
            if !str_lex_le(r[p].name.as_str(), x.name.as_str()) {
                break;
            }
            p = p + 1;
        }
        let ghost r_pre = r@;
        let ghost xv = x;
        r.insert(p, x);
        proof {
            assert(r@ == r_pre.insert(p as int, xv));
            assert(r@.to_multiset() == r_pre.to_multiset().insert(xv));
            assert(r@.to_multiset().add(src@.to_multiset()) =~= all.to_multiset());
            assert forall|k: int| 0 <= k < r@.len() - 1 implies #[trigger] lex_le(
                r@[k].name@,
                r@[k + 1].name@,
            ) by {
                if k + 1 < p as int {
                    assert(r@[k] == r_pre[k]);
                    assert(r@[k + 1] == r_pre[k + 1]);
                    assert(lex_le(r_pre[k].name@, r_pre[k + 1].name@));
                } else if k + 1 == p as int {
                    assert(r@[k] == r_pre[k]);
                    assert(r@[k + 1] == xv);
                    assert(lex_le(r_pre[k].name@, xv.name@));
                } else if k == p as int {
                    assert(r@[k] == xv);
                    assert(r@[k + 1] == r_pre[k]);
                    assert(!lex_le(r_pre[k].name@, xv.name@));
                    lemma_lex_total(r_pre[k].name@, xv.name@);
                } else {
                    let j = k - 1;
                    assert(r@[k] == r_pre[j]);
                    assert(r@[k + 1] == r_pre[j + 1]);
                    assert(lex_le(r_pre[j].name@, r_pre[j + 1].name@));
                }
            }
        }
    }
    proof {
        assert(src@.to_multiset() =~= Multiset::<GrammarBuildSpec>::empty());
        assert(r@.to_multiset().add(Multiset::<GrammarBuildSpec>::empty()) =~= r@.to_multiset());
        assert(r@.to_multiset().len() == all.to_multiset().len());
    }
    r
}

} // verus!
