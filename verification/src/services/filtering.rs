use vstd::prelude::*;

verus! {

/// An element that `f` keeps shows up in `s.filter_map(f)`.
pub(crate) proof fn lemma_filter_map_keeps<A, B>(s: Seq<A>, f: spec_fn(A) -> Option<B>, i: int)
    requires
        0 <= i < s.len(),
        f(s[i]) is Some,
    ensures
        s.filter_map(f).contains(f(s[i])->0),
    decreases s.len(),
{
    let rest = s.drop_last();
    let x = f(s[i])->0;
    if i == s.len() - 1 {
        let out = s.filter_map(f);
        assert(out[out.len() - 1] == x);
    } else {
        assert(rest[i] == s[i]);
        lemma_filter_map_keeps(rest, f, i);
        let j = choose|j: int| 0 <= j < rest.filter_map(f).len() && rest.filter_map(f)[j] == x;
        assert(s.filter_map(f)[j] == x);
    }
}

/// Every element of `s.filter_map(f)` is what `f` kept of some element of `s`.
pub(crate) proof fn lemma_filter_map_source<A, B>(s: Seq<A>, f: spec_fn(A) -> Option<B>, y: B)
    requires
        s.filter_map(f).contains(y),
    ensures
        exists|i: int| 0 <= i < s.len() && #[trigger] f(s[i]) == Some(y),
    decreases s.len(),
{
    let rest = s.drop_last();
    let out = s.filter_map(f);
    let j = choose|j: int| 0 <= j < out.len() && out[j] == y;
    match f(s.last()) {
        Some(x) => {
            if j == out.len() - 1 {
                assert(f(s[s.len() - 1]) == Some(y));
            } else {
                assert(rest.filter_map(f)[j] == y);
                lemma_filter_map_source(rest, f, y);
                let i = choose|i: int| 0 <= i < rest.len() && #[trigger] f(rest[i]) == Some(y);
                assert(s[i] == rest[i]);
            }
        },
        None => {
            assert(rest.filter_map(f)[j] == y);
            lemma_filter_map_source(rest, f, y);
            let i = choose|i: int| 0 <= i < rest.len() && #[trigger] f(rest[i]) == Some(y);
            assert(s[i] == rest[i]);
        },
    }
}

/// `s.filter_map(f)` is never longer than `s`.
pub(crate) proof fn lemma_filter_map_len<A, B>(s: Seq<A>, f: spec_fn(A) -> Option<B>)
    ensures
        s.filter_map(f).len() <= s.len(),
    decreases s.len(),
{
    if s.len() > 0 {
        lemma_filter_map_len(s.drop_last(), f);
    }
}

/// Where `f` keeps every element, `s.filter_map(f)` is `f` applied to each, in order.
pub(crate) proof fn lemma_filter_map_total<A, B>(s: Seq<A>, f: spec_fn(A) -> Option<B>)
    requires
        forall|i: int| 0 <= i < s.len() ==> #[trigger] f(s[i]) is Some,
    ensures
        s.filter_map(f).len() == s.len(),
        forall|i: int| 0 <= i < s.len() ==> Some(#[trigger] s.filter_map(f)[i]) == f(s[i]),
    decreases s.len(),
{
    if s.len() > 0 {
        let rest = s.drop_last();
        assert forall|i: int| 0 <= i < rest.len() implies #[trigger] f(rest[i]) is Some by {
            assert(rest[i] == s[i]);
        }
        lemma_filter_map_total(rest, f);
        assert forall|i: int| 0 <= i < s.len() implies Some(#[trigger] s.filter_map(f)[i]) == f(s[i]) by {
            if i < s.len() - 1 {
                assert(rest[i] == s[i]);
                assert(s.filter_map(f)[i] == rest.filter_map(f)[i]);
            }
        }
    }
}

} // verus!
