use payment_engine::models::listing::{Page, DEFAULT_PAGE, DEFAULT_PER_PAGE};

#[test]
fn first_page_of_ten_is_the_default() {
    assert_eq!(DEFAULT_PAGE, 1);
    assert_eq!(DEFAULT_PER_PAGE, 10);
    assert_eq!(Page::of(None, None), Some(Page { page: 1, per_page: 10, offset: 0 }));
}

#[test]
fn offset_counts_the_rows_before_the_page() {
    assert_eq!(Page::of(Some(3), Some(25)), Some(Page { page: 3, per_page: 25, offset: 50 }));
    assert_eq!(Page::of(Some(2), None), Some(Page { page: 2, per_page: 10, offset: 10 }));
    assert_eq!(Page::of(None, Some(50)), Some(Page { page: 1, per_page: 50, offset: 0 }));
    assert_eq!(Page::of(Some(0), Some(10)), Some(Page { page: 0, per_page: 10, offset: -10 }));
    assert_eq!(Page::of(Some(-1), Some(-3)), Some(Page { page: -1, per_page: -3, offset: 6 }));
}

#[test]
fn offset_that_does_not_fit_is_refused() {
    assert_eq!(Page::of(Some(i64::MAX), Some(2)), None);
    assert_eq!(Page::of(Some(i64::MIN), Some(1)), None);
    assert_eq!(Page::of(Some(i64::MIN), Some(3)), None);
    assert_eq!(Page::of(Some(3), Some(i64::MAX)), None);
    assert_eq!(
        Page::of(Some(i64::MIN), Some(0)),
        Some(Page { page: i64::MIN, per_page: 0, offset: 0 })
    );
    assert_eq!(
        Page::of(Some(i64::MAX), Some(1)),
        Some(Page { page: i64::MAX, per_page: 1, offset: i64::MAX - 1 })
    );
    assert_eq!(
        Page::of(Some(2), Some(i64::MAX)),
        Some(Page { page: 2, per_page: i64::MAX, offset: i64::MAX })
    );
}
