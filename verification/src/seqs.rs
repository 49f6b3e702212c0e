//! Sequence combinators used to state the conversions, with the facts the loops need.
use vstd::prelude::*;

verus! {

/// Applies `f` to each element and keeps the `Some` results, in order.
pub open spec fn filter_map<A, B>(s: Seq<A>, f: spec_fn(A) -> Option<B>) -> Seq<B>
    decreases s.len(),
{
    if s.len() == 0 {
        Seq::empty()
    } else {
        let rest = filter_map(s.drop_last(), f);
        match f(s.last()) {
            Some(b) => rest.push(b),
            None => rest,
        }
    }
}

/// Concatenates the sequences that `f` gives for each element, in order.
pub open spec fn flat_map<A, B>(s: Seq<A>, f: spec_fn(A) -> Seq<B>) -> Seq<B>
    decreases s.len(),
{
    if s.len() == 0 {
        Seq::empty()
    } else {
        flat_map(s.drop_last(), f) + f(s.last())
    }
}

/// The first element, if there is one.
pub open spec fn first_of<A>(s: Seq<A>) -> Option<A> {
    if s.len() > 0 {
        Some(s[0])
    } else {
        None
    }
}

pub proof fn lemma_filter_map_push<A, B>(s: Seq<A>, a: A, f: spec_fn(A) -> Option<B>)
    ensures
        filter_map(s.push(a), f) == (match f(a) {
            Some(b) => filter_map(s, f).push(b),
            None => filter_map(s, f),
        }),
{
    assert(s.push(a).drop_last() =~= s);
}

pub proof fn lemma_flat_map_push<A, B>(s: Seq<A>, a: A, f: spec_fn(A) -> Seq<B>)
    ensures
        flat_map(s.push(a), f) == flat_map(s, f) + f(a),
{
    assert(s.push(a).drop_last() =~= s);
}

/// Taking one more element of `s` extends the prefix by that element.
pub proof fn lemma_take_succ<A>(s: Seq<A>, i: int)
    requires
        0 <= i < s.len(),
    ensures
        s.take(i + 1) == s.take(i).push(s[i]),
{
    assert(s.take(i + 1) =~= s.take(i).push(s[i]));
}

/// What `filter_map` gives for a prefix is a prefix of what it gives for the whole.
pub proof fn lemma_filter_map_prefix<A, B>(s: Seq<A>, j: int, f: spec_fn(A) -> Option<B>)
    requires
        0 <= j <= s.len(),
    ensures
        filter_map(s.take(j), f).len() <= filter_map(s, f).len(),
        filter_map(s, f).take(filter_map(s.take(j), f).len() as int) == filter_map(s.take(j), f),
    decreases s.len(),
{
    if j == s.len() {
        assert(s.take(j) =~= s);
        assert(filter_map(s, f).take(filter_map(s, f).len() as int) =~= filter_map(s, f));
    } else {
        assert(s.take(j) =~= s.drop_last().take(j));
        lemma_filter_map_prefix(s.drop_last(), j, f);
        let p = filter_map(s.take(j), f);
        let r = filter_map(s.drop_last(), f);
        match f(s.last()) {
            Some(b) => {
                assert(r.push(b).take(p.len() as int) =~= r.take(p.len() as int));
            },
            None => {},
        }
    }
}

/// The first `Some` that `f` gives for the whole is the first one it gives for any
/// prefix that has one.
pub proof fn lemma_first_of_prefix<A, B>(s: Seq<A>, j: int, f: spec_fn(A) -> Option<B>)
    requires
        0 <= j <= s.len(),
        filter_map(s.take(j), f).len() > 0,
    ensures
        first_of(filter_map(s, f)) == first_of(filter_map(s.take(j), f)),
{
    lemma_filter_map_prefix(s, j, f);
    let p = filter_map(s.take(j), f);
    assert(filter_map(s, f).take(p.len() as int)[0] == p[0]);
}

/// `filter_map` distributes over concatenation.
pub proof fn lemma_filter_map_concat<A, B>(a: Seq<A>, b: Seq<A>, f: spec_fn(A) -> Option<B>)
    ensures
        filter_map(a + b, f) == filter_map(a, f) + filter_map(b, f),
    decreases b.len(),
{
    if b.len() == 0 {
        assert(a + b =~= a);
        assert(filter_map(a, f) + filter_map(b, f) =~= filter_map(a, f));
    } else {
        assert((a + b).drop_last() =~= a + b.drop_last());
        lemma_filter_map_concat(a, b.drop_last(), f);
        assert((a + b).last() == b.last());
        match f(b.last()) {
            Some(x) => {
                assert(filter_map(a, f) + filter_map(b.drop_last(), f).push(x) =~= (filter_map(a, f)
                    + filter_map(b.drop_last(), f)).push(x));
            },
            None => {},
        }
    }
}

/// When `f` gives `Some(g(x))` for every element, `filter_map` is `map_values` with `g`.
pub proof fn lemma_filter_map_total<A, B>(s: Seq<A>, f: spec_fn(A) -> Option<B>, g: spec_fn(A) -> B)
    requires
        forall|i: int| 0 <= i < s.len() ==> f(s[i]) == Some(g(s[i])),
    ensures
        filter_map(s, f) == s.map_values(g),
    decreases s.len(),
{
    if s.len() == 0 {
        assert(s.map_values(g) =~= Seq::<B>::empty());
    } else {
        lemma_filter_map_total(s.drop_last(), f, g);
        assert(s.map_values(g) =~= s.drop_last().map_values(g).push(g(s.last())));
    }
}

/// When `f` gives `None` for every element, `filter_map` gives nothing.
pub proof fn lemma_filter_map_empty<A, B>(s: Seq<A>, f: spec_fn(A) -> Option<B>)
    requires
        forall|i: int| 0 <= i < s.len() ==> f(s[i]) is None,
    ensures
        filter_map(s, f) == Seq::<B>::empty(),
    decreases s.len(),
{
    if s.len() > 0 {
        lemma_filter_map_empty(s.drop_last(), f);
    }
}

/// Two `filter_map`s in a row are one, with the composed function.
pub proof fn lemma_filter_map_compose<A, B, C>(
    s: Seq<A>,
    f: spec_fn(A) -> Option<B>,
    g: spec_fn(B) -> Option<C>,
    h: spec_fn(A) -> Option<C>,
)
    requires
        forall|a: A|
            #[trigger] h(a) == (match f(a) {
                Some(b) => g(b),
                None => None,
            }),
    ensures
        filter_map(filter_map(s, f), g) == filter_map(s, h),
    decreases s.len(),
{
    if s.len() > 0 {
        lemma_filter_map_compose(s.drop_last(), f, g, h);
        let r = filter_map(s.drop_last(), f);
        match f(s.last()) {
            Some(b) => {
                lemma_filter_map_push(r, b, g);
            },
            None => {},
        }
    }
}

/// Every result of `filter_map` is a `Some` that `f` gives, so a property of all of those
/// holds of every result.
pub proof fn lemma_filter_map_all<A, B>(s: Seq<A>, f: spec_fn(A) -> Option<B>, p: spec_fn(B) -> bool)
    requires
        forall|a: A| #[trigger] f(a) matches Some(b) ==> p(b),
    ensures
        forall|i: int| 0 <= i < filter_map(s, f).len() ==> p(#[trigger] filter_map(s, f)[i]),
    decreases s.len(),
{
    if s.len() > 0 {
        lemma_filter_map_all(s.drop_last(), f, p);
        assert(f(s.last()) matches Some(b) ==> p(b));
        let r = filter_map(s.drop_last(), f);
        match f(s.last()) {
            Some(b) => {
                assert forall|i: int| 0 <= i < r.push(b).len() implies p(#[trigger] r.push(b)[i]) by {
                    if i < r.len() {
                        assert(r.push(b)[i] == r[i]);
                    }
                }
            },
            None => {},
        }
    }
}

} // verus!
