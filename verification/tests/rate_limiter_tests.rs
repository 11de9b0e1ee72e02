//! Path normalization and limit resolution.

use nc_data_export::api::rate_limiter::{EndpointLimits, RateLimiter};

#[test]
fn test_normalize_path() {
    let limiter = RateLimiter::new();

    assert_eq!(
        limiter.normalize_path("/api/devices/12345"),
        "/api/devices/{id}"
    );
    assert_eq!(
        limiter.normalize_path("/api/devices/12345/custom-properties"),
        "/api/devices/{id}/custom-properties"
    );
    assert_eq!(
        limiter.normalize_path("/api/service-orgs"),
        "/api/service-orgs"
    );
}

#[test]
fn test_get_limit() {
    let limiter = RateLimiter::new();

    assert_eq!(limiter.get_limit("/api/auth/authenticate"), 50);
    assert_eq!(limiter.get_limit("/api/devices"), 5);
    assert_eq!(limiter.get_limit("/api/devices/12345"), 50);
    assert_eq!(limiter.get_limit("/api/unknown"), 5);
}

#[test]
fn normalization_is_idempotent_on_samples() {
    let limiter = RateLimiter::new();
    for path in [
        "/api/devices/12345",
        "/api/devices/12345/custom-properties",
        "/api/org-units/9/users",
        "/api/service-orgs",
        "",
        "/",
        "17",
        "/api/devices/-8/assets",
    ] {
        let once = limiter.normalize_path(path);
        let twice = limiter.normalize_path(&once);
        assert_eq!(once, twice, "normalization changed {:?} twice", path);
    }
}

#[test]
fn exact_match_wins_over_normalization() {
    // A digit-bearing pattern is configured alongside the placeholder its
    // normalization would hit; the exact entry must win.
    let limits = EndpointLimits {
        default: 9,
        endpoints: vec![
            ("/api/x/{id}".to_string(), 50),
            ("/api/x/7".to_string(), 7),
        ],
    };
    let limiter = RateLimiter::with_limits(limits);
    assert_eq!(limiter.get_limit("/api/x/7"), 7);
    assert_eq!(limiter.get_limit("/api/x/8"), 50);
    assert_eq!(limiter.get_limit("/api/y"), 9);
}

#[test]
fn every_configured_pattern_resolves_to_its_own_limit() {
    let limiter = RateLimiter::new();
    for (pattern, limit) in &limiter.limits.endpoints {
        assert_eq!(limiter.get_limit(pattern), *limit, "on {pattern:?}");
    }
}

#[test]
fn negative_and_signed_segments_count_as_ids() {
    let limiter = RateLimiter::new();
    assert_eq!(limiter.normalize_path("/api/devices/-5"), "/api/devices/{id}");
    assert_eq!(limiter.normalize_path("/api/devices/+5"), "/api/devices/{id}");
    assert_eq!(
        limiter.normalize_path("/api/devices/12a"),
        "/api/devices/12a"
    );
}
