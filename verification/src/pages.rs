//! The page bound of a crawl: how many feed pages cover an account.

use vstd::prelude::*;

verus! {

/// Number of entries the remote service puts on one feed page.
pub const POSTS_PER_TIMELINE: usize = 20;

/// Pages needed to cover `post_cnt` entries, counting one trailing page.
pub open spec fn spec_max_pages(post_cnt: nat) -> nat {
    post_cnt / 20 + 1
}

/// Pages a crawl fetches: the page bound, clamped down by the caller's limit.
pub open spec fn spec_pages_to_fetch(post_cnt: nat, page_limit: Option<nat>) -> nat {
    match page_limit {
        Some(limit) => if limit <= spec_max_pages(post_cnt) {
            limit
        } else {
            spec_max_pages(post_cnt)
        },
        None => spec_max_pages(post_cnt),
    }
}

/// The caller's limit as a mathematical value.
pub open spec fn limit_view(page_limit: Option<usize>) -> Option<nat> {
    match page_limit {
        Some(limit) => Some(limit as nat),
        None => None,
    }
}

/// The page bound of an account with `post_cnt` entries.
pub fn max_pages(post_cnt: usize) -> (pages: usize)
    ensures
        pages == spec_max_pages(post_cnt as nat),
        pages >= 1,
{
    post_cnt / POSTS_PER_TIMELINE + 1
}

/// The number of pages to request, given the account's entry count and an
/// optional limit. A limit above the page bound is clamped, never refused.
pub fn pages_to_fetch(post_cnt: usize, page_limit: Option<usize>) -> (pages: usize)
    ensures
        pages == spec_pages_to_fetch(post_cnt as nat, limit_view(page_limit)),
        pages <= spec_max_pages(post_cnt as nat),
        page_limit is None ==> pages == post_cnt / 20 + 1,
        page_limit is Some ==> pages <= page_limit->0,
{
    let bound: usize = max_pages(post_cnt);
    match page_limit {
        Some(limit) => if limit <= bound {
            limit
        } else {
            bound
        },
        None => bound,
    }
}

} // verus!
