//! Arithmetic of paginated episode lists: a site that pages its episodes hands
//! them out in windows of [`PAGE_SIZE`] consecutive numbers, starting at 1.

use vstd::prelude::*;

verus! {

/// How many episode numbers one page request covers.
pub const PAGE_SIZE: usize = 120;

/// Number of pages needed to cover `count` episodes: `count / 120`, rounded up.
pub open spec fn pages_needed(count: int) -> int {
    (count + 119) / 120
}

/// First and last episode number of page `page`, pages counted from 1.
pub open spec fn window(page: int) -> (int, int) {
    ((page - 1) * 120 + 1, page * 120)
}

/// Number of pages needed to cover `count` episodes.
pub fn page_count(count: usize) -> (pages: usize)
    ensures
        pages == pages_needed(count as int),
{
    if count % PAGE_SIZE == 0 {
        count / PAGE_SIZE
    } else {
        count / PAGE_SIZE + 1
    }
}

/// First and last episode number of page `page`, pages counted from 1. The
/// numbers are wider than `usize`, so that the last page of any count has one.
pub fn page_window(page: usize) -> (w: (u128, u128))
    requires
        page >= 1,
    ensures
        (w.0 as int, w.1 as int) == window(page as int),
{
    let page = page as u128;
    let size = PAGE_SIZE as u128;
    ((page - 1) * size + 1, page * size)
}

/// `pages_needed` is the ceiling of `count / 120`: the least number of pages
/// whose windows reach `count`.
pub proof fn lemma_pages_needed_is_ceiling(count: int)
    requires
        count >= 0,
    ensures
        pages_needed(count) >= 0,
        pages_needed(count) * 120 >= count,
        (pages_needed(count) - 1) * 120 < count || count == 0,
        count == 0 <==> pages_needed(count) == 0,
{
}

/// Every episode number from 1 to `count` lies in the window of exactly one
/// of the pages `1..=pages_needed(count)`.
pub proof fn lemma_windows_cover(count: int, number: int)
    requires
        1 <= number <= count,
    ensures
        ({
            let page = pages_needed(number);
            &&& 1 <= page <= pages_needed(count)
            &&& window(page).0 <= number <= window(page).1
            &&& forall|other: int|
                (#[trigger] window(other)).0 <= number && number <= window(other).1 ==> other
                    == page
        }),
{
}

} // verus!
