//! Response classification, throttle retries, and exhaustive pagination.
//!
//! Every remote call follows one pipeline: acquire a permit, obtain a
//! token, issue the request, classify the response.  The surrounding
//! application performs the request and the sleeps; the classification and
//! the loop decisions are the functions here.

use crate::errors::ApiError;
use crate::models::common::PageInfo;
use crate::text::{chars_of, parse_u64, spec_parse_u64};
use crate::trusted::{json_as_i64, json_field};
use vstd::prelude::*;

verus! {

/// The default number of attempts after a throttled response.
pub fn default_max_retries() -> (r: u32)
    ensures
        r == 3,
{
    3
}

/// Whether an HTTP status is a success.
pub open spec fn spec_is_success(status: u16) -> bool {
    200 <= status < 300
}

/// Whether an HTTP status is a success (2xx).
pub fn is_success(status: u16) -> (r: bool)
    ensures
        r == spec_is_success(status),
{
    200 <= status && status < 300
}

/// Classifies a failed (non-2xx, non-429) response: 401 and 403 are
/// authentication failures, 404 carries the path, anything else is an
/// opaque server failure.
pub fn classify_failure(status: u16, path: &str, message: String) -> (r: ApiError)
    requires
        !spec_is_success(status),
        status != 429,
    ensures
        (status == 401 || status == 403) ==> r == ApiError::Authentication(message),
        status == 404 && status != 401 && status != 403 ==> r is NotFound && r->NotFound_0@
            == path@,
        !(status == 401 || status == 403 || status == 404) ==> r == (ApiError::Server {
            status,
            message,
        }),
{
    if status == 401 || status == 403 {
        ApiError::Authentication(message)
    } else if status == 404 {
        ApiError::NotFound(path.to_owned())
    } else {
        ApiError::Server { status, message }
    }
}

/// What to do about a 429 response.
#[derive(Debug, Clone)]
pub enum ThrottleAction {
    /// Sleep this many seconds, then retry.
    Sleep(u64),
    /// The retry budget is exhausted: fail with `RateLimited`.
    GiveUp,
}

/// The seconds a `Retry-After` header asks for: its value when it parses as
/// an unsigned integer, five otherwise.
pub open spec fn spec_retry_delay(header: Option<Seq<char>>) -> int {
    match header {
        Some(h) => match spec_parse_u64(h) {
            Some(v) => v,
            None => 5,
        },
        None => 5,
    }
}

/// Decides what to do about a 429 response: give up once `retries` reaches
/// the budget, otherwise sleep for the server-requested delay (default
/// five seconds) and try again.
pub fn throttle_decision(retries: u32, max_retries: u32, retry_after: Option<&String>) -> (r:
    ThrottleAction)
    ensures
        retries >= max_retries ==> r == ThrottleAction::GiveUp,
        retries < max_retries ==> r == ThrottleAction::Sleep(
            spec_retry_delay(
                match retry_after {
                    Some(h) => Some(h@),
                    None => None,
                },
            ) as u64,
        ),
{
    if retries >= max_retries {
        ThrottleAction::GiveUp
    } else {
        match retry_after {
            Some(h) => {
                let cs = chars_of(h.as_str());
                match parse_u64(cs.as_slice()) {
                    Some(v) => ThrottleAction::Sleep(v),
                    None => ThrottleAction::Sleep(5),
                }
            },
            None => ThrottleAction::Sleep(5),
        }
    }
}

/// The error surfaced when the retry budget is exhausted.
pub fn rate_limit_exhausted() -> (r: ApiError)
    ensures
        r == (ApiError::RateLimited { retry_after_secs: 60u64 }),
{
    ApiError::RateLimited { retry_after_secs: 60 }
}

/// Whether the pagination loop continues, and with which page number.
#[derive(Debug, Clone)]
pub enum PageStep {
    /// Fetch this page next.
    Continue(u32),
    /// All items are in hand.
    Done,
}

/// The pagination decision after a page of `count` items: stop when the
/// server-declared total page count is reached, when a page comes back
/// empty, or when a page is shorter than the requested size; otherwise
/// fetch the next page.  The three conditions together make termination
/// independent of unreliable pagination metadata.
pub open spec fn spec_page_step(page: u32, count: int, page_size: u32, info: Option<PageInfo>) -> PageStep {
    if info is Some && page >= info->Some_0.total_pages {
        PageStep::Done
    } else if count == 0 {
        PageStep::Done
    } else if count < page_size {
        PageStep::Done
    } else {
        PageStep::Continue((page + 1) as u32)
    }
}

/// Decides whether pagination continues after a page of `count` items.
pub fn next_page_step(page: u32, count: usize, page_size: u32, info: &Option<PageInfo>) -> (r:
    PageStep)
    requires
        page < u32::MAX,
    ensures
        r == spec_page_step(page, count as int, page_size, *info),
{
    let done_by_total: bool = match info {
        Some(pi) => page >= pi.total_pages,
        None => false,
    };
    if done_by_total {
        PageStep::Done
    } else if count == 0 {
        PageStep::Done
    } else if (count as u64) < (page_size as u64) {
        PageStep::Done
    } else {
        PageStep::Continue(page + 1)
    }
}

/// The id a creation response yields: the entity-specific field when
/// present, else the generic `id` field, else zero (which marks the
/// creation as failed).
pub open spec fn spec_created_id(primary: Option<i64>, alt: Option<i64>) -> i64 {
    match primary {
        Some(v) => v,
        None => match alt {
            Some(v) => v,
            None => 0,
        },
    }
}

/// Resolves the id a creation response yields from the two candidate
/// fields.
pub fn created_id(primary: Option<i64>, alt: Option<i64>) -> (r: i64)
    ensures
        r == spec_created_id(primary, alt),
{
    match primary {
        Some(v) => v,
        None => match alt {
            Some(v) => v,
            None => 0,
        },
    }
}

/// Reads the created entity's id out of a creation response: the field
/// named `primary_key` when it is an integer, else the `id` field, else
/// zero.  What the JSON holds is decided by the outside parser; every
/// outcome flows through [`created_id`].
pub fn extract_created_id(resp: &serde_json::Value, primary_key: &str) -> i64 {
    let primary: Option<i64> = match json_field(resp, primary_key) {
        Some(v) => json_as_i64(v),
        None => None,
    };
    let alt: Option<i64> = match json_field(resp, "id") {
        Some(v) => json_as_i64(v),
        None => None,
    };
    created_id(primary, alt)
}

} // verus!
