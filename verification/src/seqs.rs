//! Views of sequences and options of values that have a view of their own.

use vstd::prelude::*;

verus! {

/// The views of the items of `s`, in order.
pub open spec fn views<T: View>(s: Seq<T>) -> Seq<T::V> {
    s.map_values(|x: T| x@)
}

/// The view of what `o` holds, if it holds anything.
pub open spec fn view_of<T: View>(o: Option<T>) -> Option<T::V> {
    match o {
        Some(x) => Some(x@),
        None => None,
    }
}

/// The texts of a list of responses, each of which may have failed to arrive.
pub open spec fn responses(pages: Seq<Option<String>>) -> Seq<Option<Seq<char>>> {
    pages.map_values(|page: Option<String>| view_of(page))
}

/// Appending an item appends its view.
pub proof fn lemma_views_push<T: View>(s: Seq<T>, x: T)
    ensures
        views(s.push(x)) == views(s).push(x@),
{
    assert(views(s.push(x)) =~= views(s).push(x@));
}

/// Whether `f` gives nothing for `x`.
pub open spec fn rejects<A, B>(f: spec_fn(A) -> Option<B>, x: A) -> bool {
    f(x) is None
}

/// How many items of `s` the function `f` gives nothing for.
pub open spec fn rejected<A, B>(s: Seq<A>, f: spec_fn(A) -> Option<B>) -> nat {
    s.filter(|x: A| rejects(f, x)).len()
}

/// Mapping a sequence with a function that may give nothing loses exactly the
/// items for which it gives nothing: the result is shorter than the sequence
/// by their number, and it is empty only where the function gives nothing for
/// every item.
pub proof fn lemma_filter_map_loses_only_rejected<A, B>(s: Seq<A>, f: spec_fn(A) -> Option<B>)
    ensures
        s.filter_map(f).len() + rejected(s, f) == s.len(),
        s.filter_map(f).len() == 0 <==> forall|i: int| 0 <= i < s.len() ==> rejects(f, #[trigger] s[i]),
    decreases s.len(),
{
    reveal(Seq::filter);
    if s.len() > 0 {
        let front = s.drop_last();
        lemma_filter_map_loses_only_rejected(front, f);
        assert forall|i: int| 0 <= i < front.len() implies front[i] == s[i] by {}
        if s.filter_map(f).len() == 0 {
            assert forall|i: int| 0 <= i < s.len() implies rejects(f, #[trigger] s[i]) by {
                if i < front.len() {
                    assert(rejects(f, front[i]));
                }
            }
        }
        if forall|i: int| 0 <= i < s.len() ==> rejects(f, #[trigger] s[i]) {
            assert forall|i: int| 0 <= i < front.len() implies rejects(f, #[trigger] front[i]) by {
                assert(rejects(f, s[i]));
            }
            assert(rejects(f, s[s.len() - 1]));
        }
    }
}

} // verus!
