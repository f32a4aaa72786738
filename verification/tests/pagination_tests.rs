use blog_backend::dtos::{default_page, default_page_size, PaginatedResponse, Pagination};

#[test]
fn defaults_are_page_one_of_ten() {
    assert_eq!(default_page(), 1);
    assert_eq!(default_page_size(), 10);
}

#[test]
fn page_and_size_are_adjusted() {
    let p = Pagination::new(0, 0);
    assert_eq!(p.page(), 1);
    assert_eq!(p.page_size(), 10);
    assert_eq!(p.limit(), 10);
    assert_eq!(p.offset(), 0);
    let p = Pagination::new(3, 20);
    assert_eq!(p.page(), 3);
    assert_eq!(p.page_size(), 20);
    assert_eq!(p.limit(), 20);
    assert_eq!(p.offset(), 40);
    let p = Pagination::new(2, 1000);
    assert_eq!(p.page_size(), 100);
    assert_eq!(p.offset(), 100);
    let p = Pagination::new(7, 100);
    assert_eq!(p.page_size(), 100);
    assert_eq!(p.offset(), 600);
    let p = Pagination::new(5, 101);
    assert_eq!(p.limit(), 100);
}

#[test]
fn offset_is_held_at_the_largest_value() {
    let p = Pagination::new(u64::MAX, 100);
    assert_eq!(p.offset(), i64::MAX);
    let p = Pagination::new(u64::MAX, 1);
    assert_eq!(p.offset(), i64::MAX);
    let p = Pagination::new(i64::MAX as u64 + 1, 1);
    assert_eq!(p.offset(), i64::MAX);
    let p = Pagination::new(i64::MAX as u64, 1);
    assert_eq!(p.offset(), i64::MAX - 1);
}

#[test]
fn total_pages_round_up() {
    let r = PaginatedResponse::new(vec![1, 2, 3], 25, 1, 10);
    assert_eq!(r.total_pages, 3);
    assert_eq!(r.items, vec![1, 2, 3]);
    assert_eq!(r.total_items, 25);
    assert_eq!(r.page, 1);
    assert_eq!(r.page_size, 10);
    assert_eq!(PaginatedResponse::new(Vec::<u8>::new(), 30, 1, 10).total_pages, 3);
    assert_eq!(PaginatedResponse::new(Vec::<u8>::new(), 31, 1, 10).total_pages, 4);
    assert_eq!(PaginatedResponse::new(Vec::<u8>::new(), 1, 1, 10).total_pages, 1);
    assert_eq!(PaginatedResponse::new(Vec::<u8>::new(), 0, 1, 10).total_pages, 0);
    assert_eq!(PaginatedResponse::new(Vec::<u8>::new(), 5, 1, 0).total_pages, 0);
    assert_eq!(PaginatedResponse::new(Vec::<u8>::new(), -5, 1, 10).total_pages, 0);
    assert_eq!(PaginatedResponse::new(Vec::<u8>::new(), i64::MAX, 1, 1).total_pages, i64::MAX);
    assert_eq!(PaginatedResponse::new(Vec::<u8>::new(), 7, 1, u64::MAX).total_pages, 1);
}
