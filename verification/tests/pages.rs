use candfans::pages::{max_pages, pages_to_fetch, POSTS_PER_TIMELINE};

#[test]
fn page_size_is_twenty() {
    assert_eq!(POSTS_PER_TIMELINE, 20);
}

#[test]
fn max_pages_counts_one_trailing_page() {
    assert_eq!(max_pages(0), 1);
    assert_eq!(max_pages(19), 1);
    assert_eq!(max_pages(20), 2);
    assert_eq!(max_pages(45), 3);
    assert_eq!(max_pages(usize::MAX), usize::MAX / 20 + 1);
}

#[test]
fn pages_without_limit_are_the_page_bound() {
    assert_eq!(pages_to_fetch(45, None), 3);
    assert_eq!(pages_to_fetch(40, None), 3);
    assert_eq!(pages_to_fetch(0, None), 1);
}

#[test]
fn pages_with_limit_are_the_smaller_of_both() {
    assert_eq!(pages_to_fetch(45, Some(2)), 2);
    assert_eq!(pages_to_fetch(45, Some(3)), 3);
    assert_eq!(pages_to_fetch(45, Some(0)), 0);
}

#[test]
fn limit_above_the_bound_is_clamped() {
    assert_eq!(pages_to_fetch(45, Some(100)), 3);
    assert_eq!(pages_to_fetch(0, Some(usize::MAX)), 1);
}

#[test]
fn pages_formula_holds_over_a_range() {
    for post_cnt in 0..200usize {
        let bound = post_cnt / 20 + 1;
        assert_eq!(pages_to_fetch(post_cnt, None), bound);
        for limit in 0..15usize {
            assert_eq!(pages_to_fetch(post_cnt, Some(limit)), limit.min(bound));
        }
    }
}
