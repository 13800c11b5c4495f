//! Sorted, duplicate-free id lists (the cover ids the desktop client loads
//! for its offline home screen).

use vstd::prelude::*;
use vstd::view::View as _;

verus! {

/// Lexicographic order of strings by code point (the order of `String`,
/// whose UTF-8 bytes compare as their code points do).
pub open spec fn str_lt(a: Seq<char>, b: Seq<char>) -> bool
    decreases a.len(),
{
    if a.len() == 0 {
        b.len() > 0
    } else if b.len() == 0 {
        false
    } else if a[0] != b[0] {
        (a[0] as int) < (b[0] as int)
    } else {
        str_lt(a.drop_first(), b.drop_first())
    }
}

proof fn lemma_lt_irreflexive(a: Seq<char>)
    ensures
        !str_lt(a, a),
    decreases a.len(),
{
    if a.len() > 0 {
        lemma_lt_irreflexive(a.drop_first());
    }
}

proof fn lemma_lt_transitive(a: Seq<char>, b: Seq<char>, c: Seq<char>)
    requires
        str_lt(a, b),
        str_lt(b, c),
    ensures
        str_lt(a, c),
    decreases a.len(),
{
    if a.len() > 0 && b.len() > 0 && c.len() > 0 {
        if a[0] == b[0] && b[0] == c[0] {
            lemma_lt_transitive(a.drop_first(), b.drop_first(), c.drop_first());
        }
    }
}

proof fn lemma_lt_total(a: Seq<char>, b: Seq<char>)
    ensures
        a == b || str_lt(a, b) || str_lt(b, a),
    decreases a.len(),
{
    if a.len() > 0 && b.len() > 0 {
        if a[0] == b[0] {
            lemma_lt_total(a.drop_first(), b.drop_first());
            if a.drop_first() == b.drop_first() {
                assert(a =~= seq![a[0]] + a.drop_first());
                assert(b =~= seq![b[0]] + b.drop_first());
            }
        } else {
            assert((a[0] as int) != (b[0] as int));
        }
    } else if a.len() == 0 && b.len() == 0 {
        assert(a =~= b);
    }
}

proof fn lemma_lt_skip(a: Seq<char>, b: Seq<char>, i: int)
    requires
        0 <= i < a.len(),
        i < b.len(),
        a[i] == b[i],
    ensures
        str_lt(a.skip(i), b.skip(i)) == str_lt(a.skip(i + 1), b.skip(i + 1)),
{
    assert(a.skip(i).drop_first() =~= a.skip(i + 1));
    assert(b.skip(i).drop_first() =~= b.skip(i + 1));
}

/// Whether `a` comes before `b` (see [`str_lt`]).
pub fn str_less(a: &str, b: &str) -> (r: bool)
    ensures
        r == str_lt(a@, b@),
{
    let la = a.unicode_len();
    let lb = b.unicode_len();
    let mut i: usize = 0;
    assert(a@.skip(0) =~= a@);
    assert(b@.skip(0) =~= b@);
    while i < la && i < lb
        invariant
            la == a@.len(),
            lb == b@.len(),
            i <= la,
            i <= lb,
            str_lt(a@, b@) == str_lt(a@.skip(i as int), b@.skip(i as int)),
        decreases la - i,
    {
        let ca = a.get_char(i);
        let cb = b.get_char(i);
        if ca != cb {
            assert(a@.skip(i as int)[0] == ca);
            assert(b@.skip(i as int)[0] == cb);
            let lt = (ca as u32) < (cb as u32);
            assert(lt == ((ca as int) < (cb as int)));
            return lt;
        }
        proof {
            lemma_lt_skip(a@, b@, i as int);
        }
        i = i + 1;
    }
    la - i < lb - i || (la == i && lb > i)
}

/// Whether `s` is strictly increasing in [`str_lt`] order.
pub open spec fn strictly_sorted(s: Seq<String>) -> bool {
    forall|i: int, j: int| 0 <= i < j < s.len() ==> str_lt(#[trigger] s[i]@, #[trigger] s[j]@)
}

/// Whether `s` holds a string with the characters `x`.
pub open spec fn holds(s: Seq<String>, x: Seq<char>) -> bool {
    exists|i: int| 0 <= i < s.len() && #[trigger] s[i]@ == x
}

/// Whether every string of `r` is one of `ids`.
pub open spec fn drawn_from(r: Seq<String>, ids: Seq<String>) -> bool {
    forall|i: int| #![trigger r[i]] 0 <= i < r.len() ==> exists|j: int| 0 <= j < ids.len() && r[i] == #[trigger] ids[j]
}

/// The ids of `ids` in [`str_lt`] order, each once.
pub fn sort_dedup(ids: Vec<String>) -> (r: Vec<String>)
    ensures
        strictly_sorted(r@),
        forall|x: Seq<char>| holds(r@, x) <==> holds(ids@, x),
        drawn_from(r@, ids@),
{
    let mut out: Vec<String> = Vec::new();
    let mut k: usize = 0;
    let n = ids.len();
    while k < n
        invariant
            n == ids@.len(),
            k <= n,
            strictly_sorted(out@),
            forall|x: Seq<char>| holds(out@, x) <==> holds(ids@.take(k as int), x),
            drawn_from(out@, ids@),
        decreases n - k,
    {
        let id = &ids[k];
        let mut p: usize = 0;
        while p < out.len() && str_less(out[p].as_str(), id.as_str())
            invariant
                p <= out@.len(),
                forall|i: int| 0 <= i < p ==> str_lt(#[trigger] out@[i]@, id@),
            decreases out@.len() - p,
        {
            p = p + 1;
        }
        let ghost before = out@;
        let ghost tk = ids@.take(k as int);
        let ghost tk1 = ids@.take(k + 1);
        assert(tk1 =~= tk.push(ids@[k as int]));
        if p < out.len() && !str_less(id.as_str(), out[p].as_str()) {
            proof {
                lemma_lt_total(out@[p as int]@, id@);
                assert(out@[p as int]@ == id@);
                assert forall|x: Seq<char>| holds(out@, x) <==> holds(tk1, x) by {
                    if holds(tk1, x) && !holds(tk, x) {
                        assert(x == id@);
                        assert(out@[p as int]@ == x);
                    }
                    if holds(tk, x) {
                        let j = choose|j: int| 0 <= j < tk.len() && #[trigger] tk[j]@ == x;
                        assert(tk1[j] == tk[j]);
                    }
                }
            }
        } else {
            out.insert(p, id.clone());
            proof {
                let after = out@;
                assert(after =~= before.subrange(0, p as int).push(ids@[k as int]) + before.subrange(p as int, before.len() as int));
                assert forall|i: int, j: int| 0 <= i < j < after.len() implies str_lt(#[trigger] after[i]@, #[trigger] after[j]@) by {
                    if j < p {
                        assert(after[i] == before[i] && after[j] == before[j]);
                    } else if j == p {
                        assert(after[i] == before[i]);
                    } else if i == p {
                        assert(after[j] == before[j - 1]);
                        lemma_lt_total(id@, before[p as int]@);
                        if j - 1 > p {
                            lemma_lt_transitive(id@, before[p as int]@, before[j - 1]@);
                        }
                    } else if i < p {
                        assert(after[i] == before[i] && after[j] == before[j - 1]);
                    } else {
                        assert(after[i] == before[i - 1] && after[j] == before[j - 1]);
                    }
                }
                assert forall|x: Seq<char>| holds(after, x) <==> holds(tk1, x) by {
                    if holds(after, x) {
                        let i = choose|i: int| 0 <= i < after.len() && #[trigger] after[i]@ == x;
                        if i == p {
                            assert(tk1[k as int]@ == x);
                        } else if i < p {
                            assert(before[i]@ == x);
                            assert(holds(before, x));
                            assert(holds(tk, x));
                            let j = choose|j: int| 0 <= j < tk.len() && #[trigger] tk[j]@ == x;
                            assert(tk1[j] == tk[j]);
                        } else {
                            assert(before[i - 1]@ == x);
                            assert(holds(before, x));
                            assert(holds(tk, x));
                            let j = choose|j: int| 0 <= j < tk.len() && #[trigger] tk[j]@ == x;
                            assert(tk1[j] == tk[j]);
                        }
                    }
                    if holds(tk1, x) {
                        let j = choose|j: int| 0 <= j < tk1.len() && #[trigger] tk1[j]@ == x;
                        if j == k {
                            assert(after[p as int]@ == x);
                        } else {
                            assert(tk[j] == tk1[j]);
                            assert(holds(tk, x));
                            assert(holds(before, x));
                            let i = choose|i: int| 0 <= i < before.len() && #[trigger] before[i]@ == x;
                            if i < p {
                                assert(after[i] == before[i]);
                            } else {
                                assert(after[i + 1] == before[i]);
                            }
                        }
                    }
                }
                assert forall|i: int| #![trigger after[i]] 0 <= i < after.len() implies exists|j: int| 0 <= j < ids@.len() && after[i] == #[trigger] ids@[j] by {
                    if i == p {
                        assert(after[i] == ids@[k as int]);
                    } else if i < p {
                        assert(after[i] == before[i]);
                        let j = choose|j: int| 0 <= j < ids@.len() && before[i] == #[trigger] ids@[j];
                        assert(after[i] == ids@[j]);
                    } else {
                        assert(after[i] == before[i - 1]);
                        let j = choose|j: int| 0 <= j < ids@.len() && before[i - 1] == #[trigger] ids@[j];
                        assert(after[i] == ids@[j]);
                    }
                }
            }
        }
        k = k + 1;
    }
    assert(ids@.take(n as int) =~= ids@);
    out
}


/// Whether some entry of `list` is a present id with the characters `x`.
pub open spec fn names_id(list: Seq<Option<String>>, x: Seq<char>) -> bool {
    exists|i: int| 0 <= i < list.len() && #[trigger] list[i] == Some(list[i]->0) && list[i]->0@ == x
}

proof fn lemma_push_present_step(
    old0: Seq<String>,
    before: Seq<String>,
    after: Seq<String>,
    t0: Seq<Option<String>>,
    e: Option<String>,
)
    requires
        forall|x: Seq<char>| holds(before, x) <==> (holds(old0, x) || names_id(t0, x)),
        e is Some ==> after == before.push(e->0),
        e is None ==> after == before,
    ensures
        forall|x: Seq<char>| holds(after, x) <==> (holds(old0, x) || names_id(t0.push(e), x)),
{
    let t1 = t0.push(e);
    assert forall|x: Seq<char>| holds(after, x) <==> (holds(old0, x) || names_id(t1, x)) by {
        if holds(after, x) {
            let j = choose|j: int| 0 <= j < after.len() && #[trigger] after[j]@ == x;
            if j < before.len() {
                assert(after[j] == before[j]);
                assert(holds(before, x));
                if names_id(t0, x) {
                    let m = choose|m: int| 0 <= m < t0.len() && #[trigger] t0[m] == Some(t0[m]->0) && t0[m]->0@ == x;
                    assert(t1[m] == t0[m]);
                }
            } else {
                assert(t1[t0.len() as int] == e);
            }
        }
        if names_id(t1, x) {
            let m = choose|m: int| 0 <= m < t1.len() && #[trigger] t1[m] == Some(t1[m]->0) && t1[m]->0@ == x;
            if m < t0.len() {
                assert(t0[m] == t1[m]);
                assert(names_id(t0, x));
                assert(holds(before, x));
                let j = choose|j: int| 0 <= j < before.len() && #[trigger] before[j]@ == x;
                assert(after[j] == before[j]);
            } else {
                assert(after[before.len() as int]@ == x);
            }
        }
        if holds(old0, x) {
            assert(holds(before, x));
            let j = choose|j: int| 0 <= j < before.len() && #[trigger] before[j]@ == x;
            assert(after[j] == before[j]);
        }
    }
}

fn push_present(out: &mut Vec<String>, list: &Vec<Option<String>>)
    ensures
        forall|x: Seq<char>|
            #![trigger holds(final(out)@, x)]
            #![trigger holds(old(out)@, x)]
            #![trigger names_id(list@, x)]
            holds(final(out)@, x) <==> (holds(old(out)@, x) || names_id(list@, x)),
{
    let ghost old0 = out@;
    let mut i: usize = 0;
    assert(list@.take(0) =~= Seq::<Option<String>>::empty());
    while i < list.len()
        invariant
            i <= list@.len(),
            forall|x: Seq<char>| holds(out@, x) <==> (holds(old0, x) || names_id(list@.take(i as int), x)),
        decreases list@.len() - i,
    {
        let ghost before = out@;
        let ghost t0 = list@.take(i as int);
        assert(list@.take(i + 1) =~= t0.push(list@[i as int]));
        match &list[i] {
            Some(id) => {
                out.push(id.clone());
            },
            None => {},
        }
        proof {
            lemma_push_present_step(old0, before, out@, t0, list@[i as int]);
        }
        i = i + 1;
    }
    assert(list@.take(list@.len() as int) =~= list@);
}

/// The cover ids to load for the offline home screen: every cover id of the
/// recent, newest and random album rows, in order and each once.
pub fn offline_home_cover_ids(
    recent: &Vec<Option<String>>,
    newest: &Vec<Option<String>>,
    random: &Vec<Option<String>>,
) -> (r: Vec<String>)
    ensures
        strictly_sorted(r@),
        forall|x: Seq<char>| holds(r@, x) <==> (names_id(recent@, x) || names_id(newest@, x) || names_id(random@, x)),
{
    let mut ids: Vec<String> = Vec::new();
    push_present(&mut ids, recent);
    let ghost s1 = ids@;
    push_present(&mut ids, newest);
    let ghost s2 = ids@;
    push_present(&mut ids, random);
    let ghost s3 = ids@;
    let r = sort_dedup(ids);
    assert forall|x: Seq<char>| holds(r@, x) <==> (names_id(recent@, x) || names_id(newest@, x) || names_id(random@, x)) by {
        assert(!holds(Seq::<String>::empty(), x));
        assert(holds(s1, x) <==> names_id(recent@, x));
        assert(holds(s2, x) <==> (holds(s1, x) || names_id(newest@, x)));
        assert(holds(s3, x) <==> (holds(s2, x) || names_id(random@, x)));
        assert(holds(r@, x) <==> holds(s3, x));
    }
    r
}

} // verus!
