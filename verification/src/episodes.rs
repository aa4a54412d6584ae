//! Restricting episodes to an inclusive range of episode numbers.

use vstd::prelude::*;
use std::ops::RangeInclusive;
use crate::{Episode, EpisodeView};
use crate::seqs::views;

verus! {

/// Whether `n` lies in `r`: between its two ends, both included. (A range that
/// has been iterated to its end no longer includes its upper end.)
pub open spec fn in_range(r: RangeInclusive<usize>, n: usize) -> bool {
    r@.start <= n && if r@.exhausted {
        n < r@.end
    } else {
        n <= r@.end
    }
}

/// Whether an episode numbered `n` is asked for: with no range, every one is.
pub open spec fn wanted(range: Option<RangeInclusive<usize>>, n: usize) -> bool {
    match range {
        Some(r) => in_range(r, n),
        None => true,
    }
}

/// The episodes of `episodes` that `range` asks for, in the order they stand in.
pub open spec fn kept(episodes: Seq<EpisodeView>, range: Option<RangeInclusive<usize>>) -> Seq<
    EpisodeView,
> {
    episodes.filter(|e: EpisodeView| wanted(range, e.number))
}

/// Whether an episode numbered `n` is asked for.
pub fn is_wanted(range: &Option<RangeInclusive<usize>>, n: usize) -> (b: bool)
    ensures
        b == wanted(*range, n),
{
    match range {
        Some(r) => r.contains(&n),
        None => true,
    }
}

/// Copies of the episodes that `range` asks for, in the order they stand in.
pub fn keep_wanted(episodes: &Vec<Episode>, range: &Option<RangeInclusive<usize>>) -> (out: Vec<
    Episode,
>)
    ensures
        views(out@) == kept(views(episodes@), *range),
{
    let mut out: Vec<Episode> = Vec::new();
    let ghost pred = |e: EpisodeView| wanted(*range, e.number);
    proof {
        reveal(Seq::filter);
        assert(views(out@) =~= views(episodes@).take(0).filter(pred));
    }
    for i in 0..episodes.len()
        invariant
            pred == (|e: EpisodeView| wanted(*range, e.number)),
            views(out@) == views(episodes@).take(i as int).filter(pred),
    {
        let episode = &episodes[i];
        proof {
            reveal(Seq::filter);
            let all = views(episodes@);
            assert(all.take(i + 1).drop_last() =~= all.take(i as int));
            assert(all.take(i + 1).last() == episode@);
        }
        if is_wanted(range, episode.get_number()) {
            let copy = Episode::new(episode.get_number(), episode.get_episode_id().clone());
            proof {
                crate::seqs::lemma_views_push(out@, copy);
            }
            out.push(copy);
        }
    }
    proof {
        assert(views(episodes@).take(episodes.len() as int) =~= views(episodes@));
    }
    out
}

/// An episode is kept exactly when its number lies between the two ends of the
/// range, and no more episodes are kept than there are.
pub proof fn lemma_kept_in_range(episodes: Seq<EpisodeView>, r: RangeInclusive<usize>)
    requires
        !r@.exhausted,
    ensures
        forall|e: EpisodeView| #[trigger]
            kept(episodes, Some(r)).contains(e) <==> episodes.contains(e) && r@.start <= e.number
                <= r@.end,
        kept(episodes, Some(r)).len() <= episodes.len(),
{
    let pred = |e: EpisodeView| wanted(Some(r), e.number);
    let found = kept(episodes, Some(r));
    episodes.lemma_filter_len(pred);
    assert forall|e: EpisodeView| #[trigger]
        found.contains(e) <==> episodes.contains(e) && r@.start <= e.number <= r@.end by {
        if found.contains(e) {
            let j = choose|j: int| 0 <= j < found.len() && found[j] == e;
            episodes.lemma_filter_pred(pred, j);
            episodes.lemma_filter_contains_rev(pred, e);
        }
        if episodes.contains(e) && pred(e) {
            let i = choose|i: int| 0 <= i < episodes.len() && episodes[i] == e;
            episodes.lemma_filter_contains(pred, i);
        }
    }
}

/// With no range, every episode is kept.
pub proof fn lemma_kept_all(episodes: Seq<EpisodeView>)
    ensures
        kept(episodes, None) == episodes,
    decreases episodes.len(),
{
    reveal(Seq::filter);
    if episodes.len() > 0 {
        lemma_kept_all(episodes.drop_last());
        assert(episodes.drop_last().push(episodes.last()) =~= episodes);
    }
}

} // verus!
