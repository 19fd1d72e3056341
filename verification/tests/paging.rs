use dormtk::http::{data, page, NormalizedPagination, Pagination};

#[test]
fn normalized_fills_defaults() {
    let p = Pagination { page: None, page_size: None }.normalized();
    assert_eq!((p.page, p.page_size), (1, 20));
}

#[test]
fn normalized_clamps_page_and_size() {
    let p = Pagination { page: Some(0), page_size: Some(0) }.normalized();
    assert_eq!((p.page, p.page_size), (1, 1));
    let p = Pagination { page: Some(7), page_size: Some(500) }.normalized();
    assert_eq!((p.page, p.page_size), (7, 200));
    let p = Pagination { page: Some(3), page_size: Some(50) }.normalized();
    assert_eq!((p.page, p.page_size), (3, 50));
}

#[test]
fn normalizing_twice_changes_nothing() {
    let once = Pagination { page: Some(0), page_size: Some(999) }.normalized();
    let twice = Pagination { page: Some(once.page), page_size: Some(once.page_size) }.normalized();
    assert_eq!((once.page, once.page_size), (twice.page, twice.page_size));
}

#[test]
fn limit_and_offset_follow_page() {
    let p = NormalizedPagination { page: 3, page_size: 20 };
    assert_eq!(p.limit(), 20);
    assert_eq!(p.offset(), 40);
    let p = NormalizedPagination { page: 1, page_size: 200 };
    assert_eq!(p.offset(), 0);
}

#[test]
fn meta_never_reports_negative_total() {
    let p = NormalizedPagination { page: 2, page_size: 10 };
    let m = p.meta(-5);
    assert_eq!((m.page, m.page_size, m.total), (2, 10, 0));
    assert_eq!(p.meta(42).total, 42);
}

#[test]
fn envelopes_carry_their_content() {
    assert_eq!(data(5).data, 5);
    let r = page(vec![1, 2, 3], NormalizedPagination { page: 1, page_size: 3 }, 10);
    assert_eq!(r.data, vec![1, 2, 3]);
    assert_eq!((r.meta.page, r.meta.page_size, r.meta.total), (1, 3, 10));
}
