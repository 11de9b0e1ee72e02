//! Response classification, throttling and pagination.

use nc_data_export::api::client::{
    classify_failure, created_id, default_max_retries, is_success, next_page_step,
    rate_limit_exhausted, throttle_decision, PageStep, ThrottleAction,
};
use nc_data_export::errors::ApiError;
use nc_data_export::models::common::PageInfo;

/// Drives the pagination decision over a fixed run of page sizes, the way
/// the fetch loop does, and reports how many requests were issued and how
/// many items accumulated.
fn paginate(sizes: &[usize], page_size: u32, info_for: impl Fn(u32) -> Option<PageInfo>) -> (u32, usize) {
    let mut requests = 0u32;
    let mut items = 0usize;
    let mut page = 1u32;
    loop {
        let count = sizes[(page - 1) as usize];
        requests += 1;
        items += count;
        match next_page_step(page, count, page_size, &info_for(page)) {
            PageStep::Continue(next) => page = next,
            PageStep::Done => break,
        }
    }
    (requests, items)
}

#[test]
fn pagination_stops_on_a_short_page() {
    let (requests, items) = paginate(&[100, 100, 37], 100, |_| None);
    assert_eq!(requests, 3);
    assert_eq!(items, 237);
}

#[test]
fn pagination_stops_on_an_empty_first_page() {
    let (requests, items) = paginate(&[0], 100, |_| None);
    assert_eq!(requests, 1);
    assert_eq!(items, 0);
}

#[test]
fn pagination_honors_declared_total_pages() {
    let info = |page: u32| {
        Some(PageInfo {
            page,
            page_size: 100,
            total_pages: 2,
            total_items: 200,
        })
    };
    let (requests, items) = paginate(&[100, 100, 100], 100, info);
    assert_eq!(requests, 2);
    assert_eq!(items, 200);
}

#[test]
fn throttle_respects_the_retry_budget() {
    let max = default_max_retries();
    assert_eq!(max, 3);
    assert!(matches!(
        throttle_decision(3, max, None),
        ThrottleAction::GiveUp
    ));
    assert!(matches!(
        throttle_decision(0, max, None),
        ThrottleAction::Sleep(5)
    ));
    let header = "12".to_string();
    assert!(matches!(
        throttle_decision(1, max, Some(&header)),
        ThrottleAction::Sleep(12)
    ));
    let junk = "soon".to_string();
    assert!(matches!(
        throttle_decision(2, max, Some(&junk)),
        ThrottleAction::Sleep(5)
    ));
    assert!(matches!(
        rate_limit_exhausted(),
        ApiError::RateLimited {
            retry_after_secs: 60
        }
    ));
}

#[test]
fn failures_classify_by_status() {
    assert!(is_success(200) && is_success(299));
    assert!(!is_success(199) && !is_success(300));
    assert!(matches!(
        classify_failure(401, "/api/x", "no".to_string()),
        ApiError::Authentication(_)
    ));
    match classify_failure(404, "/api/devices/1", "gone".to_string()) {
        ApiError::NotFound(p) => assert_eq!(p, "/api/devices/1"),
        other => panic!("expected not-found, got {:?}", other),
    }
    assert!(matches!(
        classify_failure(500, "/api/x", "boom".to_string()),
        ApiError::Server { status: 500, .. }
    ));
}

#[test]
fn creation_ids_resolve_with_fallback() {
    assert_eq!(created_id(Some(7), Some(8)), 7);
    assert_eq!(created_id(None, Some(8)), 8);
    assert_eq!(created_id(None, None), 0);
}

#[test]
fn creation_ids_read_from_json_responses() {
    let with_primary: serde_json::Value = serde_json::from_str(
        "{\"customerId\": 31, \"id\": 99}",
    )
    .unwrap();
    assert_eq!(
        nc_data_export::api::client::extract_created_id(&with_primary, "customerId"),
        31
    );
    let with_alt: serde_json::Value = serde_json::from_str("{\"id\": 99}").unwrap();
    assert_eq!(
        nc_data_export::api::client::extract_created_id(&with_alt, "customerId"),
        99
    );
    let with_neither: serde_json::Value = serde_json::from_str("{\"ok\": true}").unwrap();
    assert_eq!(
        nc_data_export::api::client::extract_created_id(&with_neither, "customerId"),
        0
    );
}
