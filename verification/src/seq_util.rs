use vstd::prelude::*;

verus! {

/// Extending a sequence by one element extends its filtered image as the
/// element decides.
pub proof fn lemma_filter_push<A>(s: Seq<A>, pred: spec_fn(A) -> bool, x: A)
    ensures
        s.push(x).filter(pred) == if pred(x) {
            s.filter(pred).push(x)
        } else {
            s.filter(pred)
        },
{
    reveal(Seq::filter);
    assert(s.push(x).drop_last() =~= s);
    assert(s.push(x).last() == x);
}

/// Every element of a filtered sequence comes from the original and
/// satisfies the predicate; every original element that satisfies it is
/// kept.
pub proof fn lemma_filter_char<A>(s: Seq<A>, pred: spec_fn(A) -> bool)
    ensures
        forall|i: int|
            0 <= i < s.filter(pred).len() ==> s.contains(#[trigger] s.filter(pred)[i]) && pred(
                s.filter(pred)[i],
            ),
        forall|j: int| 0 <= j < s.len() && pred(#[trigger] s[j]) ==> s.filter(pred).contains(s[j]),
    decreases s.len(),
{
    reveal(Seq::filter);
    if s.len() == 0 {
    } else {
        let dl = s.drop_last();
        let last = s.last();
        lemma_filter_char(dl, pred);
        let out = s.filter(pred);
        let outdl = dl.filter(pred);
        assert forall|i: int| 0 <= i < outdl.len() implies s.contains(outdl[i]) by {
            assert(dl.contains(outdl[i]));
            let j = choose|j: int| 0 <= j < dl.len() && dl[j] == outdl[i];
            assert(s[j] == outdl[i]);
        }
        if pred(last) {
            assert(out == outdl.push(last));
            assert(s[s.len() - 1] == last);
            assert(s.contains(last));
            assert forall|j: int|
                0 <= j < s.len() && pred(#[trigger] s[j]) implies out.contains(s[j]) by {
                if j < s.len() - 1 {
                    assert(dl[j] == s[j]);
                    assert(outdl.contains(s[j]));
                    let v = choose|v: int| 0 <= v < outdl.len() && outdl[v] == s[j];
                    assert(out[v] == s[j]);
                } else {
                    assert(out[out.len() - 1] == s[j]);
                }
            }
        } else {
            assert(out == outdl);
            assert forall|j: int|
                0 <= j < s.len() && pred(#[trigger] s[j]) implies out.contains(s[j]) by {
                assert(j < s.len() - 1);
                assert(dl[j] == s[j]);
            }
        }
    }
}

/// A filter that rejects nothing is the identity.
pub proof fn lemma_filter_all<A>(s: Seq<A>, pred: spec_fn(A) -> bool)
    requires
        forall|i: int| 0 <= i < s.len() ==> pred(#[trigger] s[i]),
    ensures
        s.filter(pred) == s,
    decreases s.len(),
{
    reveal(Seq::filter);
    if s.len() == 0 {
        assert(s.filter(pred) =~= s);
    } else {
        let dl = s.drop_last();
        assert forall|i: int| 0 <= i < dl.len() implies pred(#[trigger] dl[i]) by {
            assert(dl[i] == s[i]);
        }
        lemma_filter_all(dl, pred);
        assert(pred(s.last()));
        assert(s.filter(pred) == dl.push(s.last()));
        assert(dl.push(s.last()) =~= s);
    }
}

/// Filtering keeps pairwise-distinct keys pairwise distinct.
pub proof fn lemma_filter_distinct_keys<A>(s: Seq<A>, pred: spec_fn(A) -> bool, key: spec_fn(A) -> u128)
    requires
        forall|i: int, j: int|
            #![trigger key(s[i]), key(s[j])]
            0 <= i < j < s.len() ==> key(s[i]) != key(s[j]),
    ensures
        forall|i: int, j: int|
            #![trigger key(s.filter(pred)[i]), key(s.filter(pred)[j])]
            0 <= i < j < s.filter(pred).len() ==> key(s.filter(pred)[i]) != key(s.filter(pred)[j]),
    decreases s.len(),
{
    reveal(Seq::filter);
    if s.len() == 0 {
    } else {
        let dl = s.drop_last();
        let last = s.last();
        assert forall|i: int, j: int|
            #![trigger key(dl[i]), key(dl[j])]
            0 <= i < j < dl.len() implies key(dl[i]) != key(dl[j]) by {
            assert(dl[i] == s[i]);
            assert(dl[j] == s[j]);
        }
        lemma_filter_distinct_keys(dl, pred, key);
        lemma_filter_char(dl, pred);
        let out = s.filter(pred);
        let outdl = dl.filter(pred);
        if pred(last) {
            assert(out == outdl.push(last));
            assert forall|i: int, j: int|
                #![trigger key(out[i]), key(out[j])]
                0 <= i < j < out.len() implies key(out[i]) != key(out[j]) by {
                if j < outdl.len() {
                    assert(key(outdl[i]) != key(outdl[j]));
                } else {
                    assert(out[j] == last);
                    assert(dl.contains(outdl[i]));
                    let w = choose|w: int| 0 <= w < dl.len() && dl[w] == outdl[i];
                    assert(s[w] == out[i]);
                    assert(key(s[w]) != key(s[s.len() - 1]));
                }
            }
        } else {
            assert(out == outdl);
        }
    }
}

} // verus!
