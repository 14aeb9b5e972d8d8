use burgonet::config::{ModelConfig, Quota, QuotaPeriod};
use burgonet::rate::{
    RateLimiter, check_rate_limits, get_rate_limit_config, rate_limit_headers,
};

fn model_with_request_caps(caps: QuotaPeriod) -> ModelConfig {
    ModelConfig {
        location: "/chat".to_string(),
        model_name: "demo".to_string(),
        proxy_pass: "https://upstream.example/v1/chat".to_string(),
        authorization_header: true,
        api_key: "k".to_string(),
        disabled_groups: "".to_string(),
        blacklist_words: "".to_string(),
        pii_protection_url: "".to_string(),
        parser: "openai".to_string(),
        quotas: Some(vec![Quota { max_tokens: None, max_requests: Some(caps) }]),
    }
}

#[test]
fn rate_limit_config_boundary() {
    assert_eq!(get_rate_limit_config(5, 5, 1), None);
    let c = get_rate_limit_config(5, 6, 1).unwrap();
    assert_eq!((c.limit, c.remaining, c.reset_seconds), (5, 0, 1));
    assert_eq!(get_rate_limit_config(0, isize::MAX, 1), None);
}

#[test]
fn second_window_rejects_request_after_the_limit() {
    let caps = QuotaPeriod { second: 1, minute: 0, hour: 0, day: 0, week: 0, month: 0 };
    let model = model_with_request_caps(caps);
    let mut seen_expected = false;
    for _ in 0..10 {
        let limiter = RateLimiter::new();
        let first = check_rate_limits(&limiter, "alice", &model);
        let second = check_rate_limits(&limiter, "alice", &model);
        if first.verdict.is_none() {
            if let Some(c) = second.verdict {
                assert_eq!((c.limit, c.remaining, c.reset_seconds), (1, 0, 1));
                seen_expected = true;
                break;
            }
        }
    }
    assert!(seen_expected, "two immediate requests never tripped the 1/s limit");
}

#[test]
fn zero_rate_limits_never_limit() {
    let model = model_with_request_caps(QuotaPeriod::new());
    let limiter = RateLimiter::new();
    for _ in 0..50 {
        let outcome = check_rate_limits(&limiter, "alice", &model);
        assert!(outcome.verdict.is_none());
    }
}

#[test]
fn unconfigured_quotas_never_limit() {
    let mut model = model_with_request_caps(QuotaPeriod::new());
    model.quotas = None;
    let limiter = RateLimiter::new();
    for _ in 0..20 {
        let outcome = check_rate_limits(&limiter, "alice", &model);
        assert!(outcome.verdict.is_none());
    }
}

#[test]
fn every_request_is_observed_in_both_windows() {
    let model = model_with_request_caps(QuotaPeriod::new());
    let limiter = RateLimiter::new();
    let outcome = check_rate_limits(&limiter, "alice", &model);
    assert!(outcome.curr_second >= 1);
    assert!(outcome.curr_minute >= 1);
}

#[test]
fn rate_limit_headers_values() {
    let c = get_rate_limit_config(5, 6, 60).unwrap();
    let headers = rate_limit_headers(&c);
    assert_eq!(
        headers,
        vec![
            ("X-Rate-Limit-Limit".to_string(), "5".to_string()),
            ("X-Rate-Limit-Remaining".to_string(), "0".to_string()),
            ("X-Rate-Limit-Reset".to_string(), "60".to_string()),
        ]
    );
}
