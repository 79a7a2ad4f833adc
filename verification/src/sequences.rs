//! Facts about sequences that are built piece by piece from the elements of
//! another sequence.

use vstd::prelude::*;

verus! {

/// Two ways of making the pieces that agree on every element give the same
/// whole.
pub proof fn lemma_flat_map_agree<A, B>(
    s: Seq<A>,
    f: spec_fn(A) -> Seq<B>,
    g: spec_fn(A) -> Seq<B>,
)
    requires
        forall|i: int| 0 <= i < s.len() ==> f(s[i]) == g(s[i]),
    ensures
        s.flat_map(f) == s.flat_map(g),
{
    assert(s.map_values(f) =~= s.map_values(g));
}

/// Picking from the whole is picking from every piece.
pub proof fn lemma_flat_map_filter<A, B>(
    s: Seq<A>,
    f: spec_fn(A) -> Seq<B>,
    pick: spec_fn(B) -> bool,
)
    ensures
        s.flat_map(f).filter(pick) == s.flat_map(|a: A| f(a).filter(pick)),
    decreases s.len(),
{
    let picked = |a: A| f(a).filter(pick);
    if s.len() == 0 {
        reveal(Seq::filter);
        assert(s.map_values(f) =~= Seq::<Seq<B>>::empty());
        assert(s.map_values(picked) =~= Seq::<Seq<B>>::empty());
        assert(s.flat_map(f) =~= Seq::<B>::empty());
        assert(s.flat_map(picked) =~= Seq::<B>::empty());
    } else {
        let front = s.drop_last();
        assert(front.push(s.last()) =~= s);
        lemma_flat_map_filter(front, f, pick);
        front.lemma_flat_map_push(f, s.last());
        front.lemma_flat_map_push(picked, s.last());
        Seq::filter_distributes_over_add(front.flat_map(f), f(s.last()), pick);
    }
}

/// Where every element's piece is one item for an element that is kept and
/// nothing for the others, the whole holds the items of the kept elements, in
/// their order.
pub proof fn lemma_flat_map_kept<A, B>(
    s: Seq<A>,
    f: spec_fn(A) -> Seq<B>,
    keep: spec_fn(A) -> bool,
    item: spec_fn(A) -> B,
)
    requires
        forall|i: int|
            0 <= i < s.len() ==> #[trigger] f(s[i]) == if keep(s[i]) {
                seq![item(s[i])]
            } else {
                Seq::<B>::empty()
            },
    ensures
        s.flat_map(f) == s.filter(keep).map_values(item),
    decreases s.len(),
{
    if s.len() == 0 {
        reveal(Seq::filter);
        assert(s.map_values(f) =~= Seq::<Seq<B>>::empty());
        assert(s.flat_map(f) =~= s.filter(keep).map_values(item));
    } else {
        let front = s.drop_last();
        let last = s.last();
        assert(front.push(last) =~= s);
        assert forall|i: int| 0 <= i < front.len() implies #[trigger] f(front[i]) == if keep(
            front[i],
        ) {
            seq![item(front[i])]
        } else {
            Seq::<B>::empty()
        } by {
            assert(front[i] == s[i]);
        }
        lemma_flat_map_kept(front, f, keep, item);
        front.lemma_flat_map_push(f, last);
        front.lemma_filter_push(last, keep);
        assert(f(s[s.len() - 1]) == if keep(last) {
            seq![item(last)]
        } else {
            Seq::<B>::empty()
        });
        if keep(last) {
            assert(front.filter(keep).push(last).map_values(item) =~= front.filter(
                keep,
            ).map_values(item).push(item(last)));
            assert(front.flat_map(f) + seq![item(last)] =~= front.flat_map(f).push(item(last)));
        } else {
            assert(front.flat_map(f) + Seq::<B>::empty() =~= front.flat_map(f));
        }
    }
}

/// What holds of every item of every piece holds of every item of the whole.
pub proof fn lemma_flat_map_all<A, B>(s: Seq<A>, f: spec_fn(A) -> Seq<B>, holds: spec_fn(B) -> bool)
    requires
        forall|i: int, j: int|
            0 <= i < s.len() && 0 <= j < f(s[i]).len() ==> holds(#[trigger] f(s[i])[j]),
    ensures
        forall|k: int| 0 <= k < s.flat_map(f).len() ==> holds(#[trigger] s.flat_map(f)[k]),
    decreases s.len(),
{
    if s.len() == 0 {
        assert(s.map_values(f) =~= Seq::<Seq<B>>::empty());
    } else {
        let front = s.drop_last();
        let last = s.last();
        assert(front.push(last) =~= s);
        assert forall|i: int, j: int| 0 <= i < front.len() && 0 <= j < f(front[i]).len() implies holds(
            #[trigger] f(front[i])[j],
        ) by {
            assert(front[i] == s[i]);
        }
        lemma_flat_map_all(front, f, holds);
        front.lemma_flat_map_push(f, last);
        assert forall|k: int| 0 <= k < s.flat_map(f).len() implies holds(
            #[trigger] s.flat_map(f)[k],
        ) by {
            if k >= front.flat_map(f).len() {
                let j = k - front.flat_map(f).len();
                assert(s.flat_map(f)[k] == f(s[s.len() - 1])[j]);
            }
        }
    }
}

/// Pieces of equal lengths make wholes of equal lengths.
pub proof fn lemma_flat_map_same_len<A, B, C>(
    s: Seq<A>,
    f: spec_fn(A) -> Seq<B>,
    g: spec_fn(A) -> Seq<C>,
)
    requires
        forall|i: int| 0 <= i < s.len() ==> (#[trigger] f(s[i])).len() == g(s[i]).len(),
    ensures
        s.flat_map(f).len() == s.flat_map(g).len(),
    decreases s.len(),
{
    if s.len() == 0 {
        assert(s.map_values(f) =~= Seq::<Seq<B>>::empty());
        assert(s.map_values(g) =~= Seq::<Seq<C>>::empty());
    } else {
        let front = s.drop_last();
        let last = s.last();
        assert(front.push(last) =~= s);
        assert forall|i: int| 0 <= i < front.len() implies (#[trigger] f(front[i])).len() == g(
            front[i],
        ).len() by {
            assert(front[i] == s[i]);
        }
        lemma_flat_map_same_len(front, f, g);
        front.lemma_flat_map_push(f, last);
        front.lemma_flat_map_push(g, last);
        assert(f(s[s.len() - 1]).len() == g(s[s.len() - 1]).len());
    }
}

/// Picking from a sequence that holds nothing to pick gives nothing.
pub proof fn lemma_filter_nothing<B>(s: Seq<B>, pick: spec_fn(B) -> bool)
    requires
        forall|i: int| 0 <= i < s.len() ==> !pick(#[trigger] s[i]),
    ensures
        s.filter(pick) == Seq::<B>::empty(),
    decreases s.len(),
{
    reveal(Seq::filter);
    if s.len() > 0 {
        let front = s.drop_last();
        assert forall|i: int| 0 <= i < front.len() implies !pick(#[trigger] front[i]) by {
            assert(front[i] == s[i]);
        }
        lemma_filter_nothing(front, pick);
        assert(!pick(s[s.len() - 1]));
    }
}

/// Picking from a sequence that holds only what is picked gives the sequence.
pub proof fn lemma_filter_everything<B>(s: Seq<B>, pick: spec_fn(B) -> bool)
    requires
        forall|i: int| 0 <= i < s.len() ==> pick(#[trigger] s[i]),
    ensures
        s.filter(pick) == s,
    decreases s.len(),
{
    reveal(Seq::filter);
    if s.len() > 0 {
        let front = s.drop_last();
        assert forall|i: int| 0 <= i < front.len() implies pick(#[trigger] front[i]) by {
            assert(front[i] == s[i]);
        }
        lemma_filter_everything(front, pick);
        assert(pick(s[s.len() - 1]));
        assert(front.push(s.last()) =~= s);
    }
}

/// What holds of every item of two sequences holds of every item of the one
/// followed by the other.
pub proof fn lemma_concat_all<B>(a: Seq<B>, b: Seq<B>, holds: spec_fn(B) -> bool)
    requires
        forall|i: int| 0 <= i < a.len() ==> holds(#[trigger] a[i]),
        forall|i: int| 0 <= i < b.len() ==> holds(#[trigger] b[i]),
    ensures
        forall|i: int| 0 <= i < (a + b).len() ==> holds(#[trigger] (a + b)[i]),
{
    assert forall|i: int| 0 <= i < (a + b).len() implies holds(#[trigger] (a + b)[i]) by {
        if i >= a.len() {
            assert((a + b)[i] == b[i - a.len()]);
        }
    }
}

} // verus!
