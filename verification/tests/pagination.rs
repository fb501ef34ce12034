use pm_service::util::page_response_builder::{
    page_request_valid, page_response_builder, page_response_extra_builder,
};
use pm_service::features::role::services::{role_listing, RoleListing};

#[test]
fn first_page_of_ten_items() {
    let data: Vec<u32> = (1..=10).collect();
    let r = page_response_builder(1, 3, &data);
    assert_eq!(r.data, &[1, 2, 3]);
    assert_eq!(r.page, 1);
    assert_eq!(r.page_size, 3);
    assert_eq!(r.total_items, 10);
    assert_eq!(r.total_pages, 4);
}

#[test]
fn last_page_is_short() {
    let data: Vec<u32> = (1..=10).collect();
    let r = page_response_builder(4, 3, &data);
    assert_eq!(r.data, &[10]);
    assert_eq!(r.total_pages, 4);
}

#[test]
fn page_right_after_the_end_is_empty() {
    let data: Vec<u32> = (1..=9).collect();
    assert!(page_request_valid(4, 3, data.len()));
    let r = page_response_builder(4, 3, &data);
    assert!(r.data.is_empty());
    assert_eq!(r.total_pages, 3);
}

#[test]
fn empty_listing_has_no_pages() {
    let data: Vec<u32> = Vec::new();
    let r = page_response_builder(1, 10, &data);
    assert!(r.data.is_empty());
    assert_eq!(r.total_items, 0);
    assert_eq!(r.total_pages, 0);
}

#[test]
fn negative_page_size_on_first_page_gives_everything() {
    let data: Vec<u32> = (1..=5).collect();
    assert!(page_request_valid(1, -2, data.len()));
    let r = page_response_builder(1, -2, &data);
    assert_eq!(r.data, &[1, 2, 3, 4, 5]);
    // (5 - 2 - 1) / -2 rounds toward zero
    assert_eq!(r.total_pages, -1);
}

#[test]
fn requests_that_would_panic_are_refused() {
    assert!(!page_request_valid(1, 0, 5));
    assert!(!page_request_valid(0, 3, 5));
    assert!(!page_request_valid(3, 3, 5));
    assert!(!page_request_valid(i32::MIN, 3, 5));
    assert!(!page_request_valid(i32::MAX, i32::MAX, 5));
    assert!(!page_request_valid(2, -2, 5));
    assert!(page_request_valid(2, 3, 5));
}

#[test]
fn pages_cover_the_listing_once_in_order() {
    let data: Vec<u32> = (1..=11).collect();
    let first = page_response_builder(1, 4, &data);
    let mut joined: Vec<u32> = Vec::new();
    for p in 1..=first.total_pages {
        assert!(page_request_valid(p, 4, data.len()));
        let r = page_response_builder(p, 4, &data);
        if p < first.total_pages {
            assert_eq!(r.data.len(), 4);
        }
        joined.extend_from_slice(r.data);
    }
    assert_eq!(joined, data);
}

#[test]
fn extra_data_travels_with_the_page() {
    let data = vec!["a", "b", "c"];
    let r = page_response_extra_builder(2, 2, &data, 42u8);
    assert_eq!(r.page.data, &["c"]);
    assert_eq!(r.extra_data, 42);
    assert_eq!(r.page.total_pages, 2);
}

#[test]
fn role_report_lists_everything() {
    let roles = vec![1, 2, 3];
    match role_listing(Some(true), 0, 0, &roles) {
        RoleListing::All(all) => assert_eq!(all, &[1, 2, 3]),
        RoleListing::Page(_) => panic!("expected every row"),
    }
    match role_listing(None, 1, 2, &roles) {
        RoleListing::Page(p) => assert_eq!(p.data, &[1, 2]),
        RoleListing::All(_) => panic!("expected one page"),
    }
}

#[test]
fn last_page_holds_the_remainder_and_page_count_is_least() {
    let data: Vec<u32> = (1..=7).collect();
    let r = page_response_builder(1, 7, &data);
    assert_eq!(r.total_pages, 1);
    assert_eq!(r.data.len(), 7);
    let r = page_response_builder(2, 3, &data);
    assert_eq!(r.total_pages, 3);
    let last = page_response_builder(3, 3, &data);
    assert_eq!(last.data, &[7]);
    let empty: Vec<u32> = Vec::new();
    assert_eq!(page_response_builder(1, 3, &empty).total_pages, 0);
}
