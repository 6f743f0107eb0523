//! The order of texts that `str`'s `<` decides, and sorting by it.

use vstd::prelude::*;

use crate::text::string_views;

verus! {

broadcast use vstd::seq_lib::group_to_multiset_ensures;

/// `a` comes before `b`: lexicographically, comparing characters by their
/// code points, a proper prefix first.
pub open spec fn text_before(a: Seq<char>, b: Seq<char>) -> bool
    decreases a.len(),
{
    if a.len() == 0 {
        b.len() > 0
    } else if b.len() == 0 {
        false
    } else if (a[0] as int) < (b[0] as int) {
        true
    } else if (a[0] as int) > (b[0] as int) {
        false
    } else {
        text_before(a.drop_first(), b.drop_first())
    }
}

/// `a` does not come after `b`.
pub open spec fn text_le(a: Seq<char>, b: Seq<char>) -> bool {
    !text_before(b, a)
}

/// `<str as PartialOrd>::lt`: strings are ordered lexicographically by their
/// bytes, which orders code points by their position in the code charts.
#[verifier::external_body]
pub(crate) fn str_before(a: &str, b: &str) -> (r: bool)
    ensures
        r == text_before(a@, b@),
{
    a < b
}

pub proof fn lemma_before_irreflexive(a: Seq<char>)
    ensures
        !text_before(a, a),
    decreases a.len(),
{
    if a.len() > 0 {
        lemma_before_irreflexive(a.drop_first());
    }
}

pub proof fn lemma_before_asymmetric(a: Seq<char>, b: Seq<char>)
    ensures
        text_before(a, b) ==> !text_before(b, a),
    decreases a.len(),
{
    if a.len() > 0 && b.len() > 0 {
        lemma_before_asymmetric(a.drop_first(), b.drop_first());
    }
}

pub proof fn lemma_before_transitive(a: Seq<char>, b: Seq<char>, c: Seq<char>)
    ensures
        text_before(a, b) && text_before(b, c) ==> text_before(a, c),
    decreases a.len(),
{
    if a.len() > 0 && b.len() > 0 && c.len() > 0 {
        lemma_before_transitive(a.drop_first(), b.drop_first(), c.drop_first());
    }
}

pub proof fn lemma_before_total(a: Seq<char>, b: Seq<char>)
    ensures
        a != b ==> text_before(a, b) || text_before(b, a),
    decreases a.len(),
{
    if a.len() > 0 && b.len() > 0 {
        lemma_before_total(a.drop_first(), b.drop_first());
        if a[0] as int == b[0] as int && a != b {
            assert(a[0] == b[0]);
            assert(a.drop_first() != b.drop_first()) by {
                if a.drop_first() == b.drop_first() {
                    assert(a.drop_first().len() == b.drop_first().len());
                    assert(a.len() == b.len());
                    assert forall|i: int| 0 <= i < a.len() implies a[i] == b[i] by {
                        if i > 0 {
                            assert(a[i] == a.drop_first()[i - 1]);
                            assert(b[i] == b.drop_first()[i - 1]);
                        }
                    }
                    assert(a =~= b);
                }
            }
        }
    } else if a.len() == 0 && b.len() == 0 {
        assert(a =~= b);
    }
}

/// The texts appear in order: none comes after one that follows it.
pub open spec fn ascending(s: Seq<Seq<char>>) -> bool {
    forall|i: int, j: int| 0 <= i < j < s.len() ==> text_le(s[i], s[j])
}

/// The texts appear in strictly increasing order (so none repeats).
pub open spec fn strictly_ascending(s: Seq<Seq<char>>) -> bool {
    forall|i: int, j: int| 0 <= i < j < s.len() ==> text_before(s[i], s[j])
}

/// The index at which `x` goes into the ascending `v`: after every text
/// that does not come after it.
fn insertion_point(v: &Vec<String>, x: &str) -> (p: usize)
    requires
        ascending(string_views(v@)),
    ensures
        p <= v@.len(),
        forall|i: int| 0 <= i < p ==> text_le(#[trigger] v@[i]@, x@),
        forall|i: int| p <= i < v@.len() ==> text_before(x@, #[trigger] v@[i]@),
{
    let ghost s = string_views(v@);
    let mut p: usize = 0;
    while p < v.len() && !str_before(x, v[p].as_str())
        invariant
            p <= v@.len(),
            s == string_views(v@),
            ascending(s),
            forall|i: int| 0 <= i < p ==> text_le(#[trigger] v@[i]@, x@),
        decreases v@.len() - p,
    {
        p = p + 1;
    }
    assert forall|i: int| p <= i < v@.len() implies text_before(x@, #[trigger] v@[i]@) by {
        assert(s[p as int] == v@[p as int]@);
        assert(s[i] == v@[i]@);
        if i > p {
            assert(text_le(s[p as int], s[i]));
            lemma_before_total(v@[p as int]@, v@[i]@);
            lemma_before_transitive(x@, v@[p as int]@, v@[i]@);
        }
    }
    p
}

proof fn lemma_views_insert(v: Seq<String>, p: int, x: String)
    requires
        0 <= p <= v.len(),
    ensures
        string_views(v.insert(p, x)) == string_views(v).insert(p, x@),
{
    assert(string_views(v.insert(p, x)) =~= string_views(v).insert(p, x@));
}

/// `v` sorted ascending: the same texts, each as often, in order.
pub fn sort_texts(v: Vec<String>) -> (r: Vec<String>)
    ensures
        string_views(r@).to_multiset() == string_views(v@).to_multiset(),
        ascending(string_views(r@)),
{
    let mut r: Vec<String> = Vec::new();
    let mut i: usize = 0;
    proof {
        assert(string_views(v@).take(0) =~= Seq::<Seq<char>>::empty());
        assert(string_views(r@) =~= Seq::<Seq<char>>::empty());
    }
    while i < v.len()
        invariant
            i <= v@.len(),
            string_views(r@).to_multiset() == string_views(v@).take(i as int).to_multiset(),
            ascending(string_views(r@)),
        decreases v@.len() - i,
    {
        let x = v[i].clone();
        let p = insertion_point(&r, x.as_str());
        let ghost before = r@;
        r.insert(p, x);
        proof {
            lemma_views_insert(before, p as int, x);
            let s = string_views(before);
            assert(string_views(v@).take(i + 1) =~= string_views(v@).take(i as int).push(x@));
            assert(s.insert(p as int, x@).to_multiset() == s.to_multiset().insert(x@));
            let t = string_views(r@);
            assert forall|a: int, b: int| 0 <= a < b < t.len() implies text_le(t[a], t[b]) by {
                if a < p && b < p {
                    assert(t[a] == s[a] && t[b] == s[b]);
                } else if a < p && b == p {
                    assert(t[a] == before[a]@);
                } else if a < p && b > p {
                    assert(t[a] == s[a] && t[b] == s[b - 1]);
                    assert(text_le(before[a]@, x@));
                    assert(text_before(x@, before[b - 1]@));
                    lemma_before_total(s[a], x@);
                    lemma_before_transitive(s[a], x@, s[b - 1]);
                    lemma_before_asymmetric(s[a], s[b - 1]);
                } else if a == p {
                    assert(t[b] == before[b - 1]@);
                    lemma_before_asymmetric(x@, before[b - 1]@);
                } else {
                    assert(t[a] == s[a - 1] && t[b] == s[b - 1]);
                }
            }
        }
        i = i + 1;
    }
    proof {
        assert(string_views(v@).take(v@.len() as int) =~= string_views(v@));
    }
    r
}

/// Whether the ascending `v` holds `x`, and where it would go.
fn find_in_ascending(v: &Vec<String>, x: &str) -> (r: (bool, usize))
    requires
        strictly_ascending(string_views(v@)),
    ensures
        r.1 <= v@.len(),
        r.0 == string_views(v@).contains(x@),
        !r.0 ==> forall|i: int| 0 <= i < r.1 ==> text_before(#[trigger] v@[i]@, x@),
        !r.0 ==> forall|i: int| r.1 <= i < v@.len() ==> text_before(x@, #[trigger] v@[i]@),
{
    let ghost s = string_views(v@);
    let mut p: usize = 0;
    while p < v.len() && str_before(v[p].as_str(), x)
        invariant
            p <= v@.len(),
            s == string_views(v@),
            strictly_ascending(s),
            forall|i: int| 0 <= i < p ==> text_before(#[trigger] v@[i]@, x@),
        decreases v@.len() - p,
    {
        p = p + 1;
    }
    if p < v.len() && !str_before(x, v[p].as_str()) {
        proof {
            lemma_before_total(x@, v@[p as int]@);
            assert(s[p as int] == x@);
        }
        return (true, p);
    }
    proof {
        assert forall|i: int| p <= i < v@.len() implies text_before(x@, #[trigger] v@[i]@) by {
            lemma_before_total(x@, v@[p as int]@);
            assert(s[p as int] == v@[p as int]@);
            assert(s[i] == v@[i]@);
            if i > p {
                lemma_before_transitive(x@, v@[p as int]@, v@[i]@);
            }
        }
        assert(!s.contains(x@)) by {
            if s.contains(x@) {
                let k = choose|k: int| 0 <= k < s.len() && s[k] == x@;
                assert(s[k] == v@[k]@);
                if k < p {
                    lemma_before_irreflexive(x@);
                } else {
                    lemma_before_irreflexive(x@);
                }
            }
        }
    }
    (false, p)
}

/// Adds `x` to the strictly ascending `v` unless it is there already.
pub fn insert_distinct(v: &mut Vec<String>, x: String)
    requires
        strictly_ascending(string_views(old(v)@)),
    ensures
        strictly_ascending(string_views(final(v)@)),
        string_views(final(v)@).to_set() == string_views(old(v)@).to_set().insert(x@),
{
    let (found, p) = find_in_ascending(v, x.as_str());
    let ghost before = v@;
    let ghost s = string_views(before);
    if found {
        assert(s.to_set().insert(x@) =~= s.to_set());
        return ;
    }
    let ghost xv = x@;
    v.insert(p, x);
    proof {
        lemma_views_insert(before, p as int, x);
        let t = string_views(v@);
        assert(t =~= s.insert(p as int, xv));
        assert forall|a: int, b: int| 0 <= a < b < t.len() implies text_before(t[a], t[b]) by {
            if a < p && b < p {
                assert(t[a] == s[a] && t[b] == s[b]);
            } else if a < p && b == p {
                assert(t[a] == before[a]@);
            } else if a < p && b > p {
                assert(t[a] == s[a] && t[b] == s[b - 1]);
                assert(text_before(before[a]@, xv));
                assert(text_before(xv, before[b - 1]@));
                lemma_before_transitive(s[a], xv, s[b - 1]);
            } else if a == p {
                assert(t[b] == before[b - 1]@);
            } else {
                assert(t[a] == s[a - 1] && t[b] == s[b - 1]);
            }
        }
        assert forall|y: Seq<char>| t.to_set().contains(y) == s.to_set().insert(xv).contains(y) by {
            if t.contains(y) {
                let k = choose|k: int| 0 <= k < t.len() && t[k] == y;
                if k < p {
                    assert(s[k] == y);
                } else if k > p {
                    assert(s[k - 1] == y);
                }
            }
            if s.contains(y) {
                let k = choose|k: int| 0 <= k < s.len() && s[k] == y;
                if k < p {
                    assert(t[k] == y);
                } else {
                    assert(t[k + 1] == y);
                }
            }
            if y == xv {
                assert(t[p as int] == y);
            }
        }
        assert(t.to_set() =~= s.to_set().insert(xv));
    }
}

} // verus!
