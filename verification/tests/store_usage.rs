use burgonet::clock::ClockTime;
use burgonet::config::{ModelConfig, Quota, QuotaPeriod};
use burgonet::store::{Store, TokenInsertError, token_insert};
use burgonet::usage::{
    TokenLimitError, check_token_limits, get_token_limit_config, get_usage_periods,
    token_limit_headers, update_usage_periods,
};

fn ct() -> ClockTime {
    ClockTime::new(2024, 3, 5, 14, 30).unwrap()
}

fn model_with_token_caps(caps: QuotaPeriod) -> ModelConfig {
    ModelConfig {
        location: "/chat".to_string(),
        model_name: "demo".to_string(),
        proxy_pass: "https://upstream.example/v1/chat".to_string(),
        authorization_header: true,
        api_key: "k".to_string(),
        disabled_groups: "".to_string(),
        blacklist_words: "".to_string(),
        pii_protection_url: "".to_string(),
        parser: "openai".to_string(),
        quotas: Some(vec![Quota { max_tokens: Some(caps), max_requests: None }]),
    }
}

#[test]
fn token_insert_round_trip() {
    let mut store = Store::open_memory().unwrap();
    let token = "a".repeat(32);
    token_insert(&mut store, &token, "alice").unwrap();
    let got = store.token_get(&token).unwrap();
    assert_eq!(got, Some("alice".to_string()));
}

#[test]
fn short_token_rejected_at_insertion() {
    let mut store = Store::open_memory().unwrap();
    let token = "a".repeat(31);
    let r = token_insert(&mut store, &token, "alice");
    assert_eq!(r, Err(TokenInsertError::TooShort));
    assert_eq!(store.token_get(&token).unwrap(), None);
}

#[test]
fn missing_buckets_read_as_zero() {
    let store = Store::open_memory().unwrap();
    let (uin, uout) = get_usage_periods(&store, "alice", &ct()).unwrap();
    assert_eq!(uin, QuotaPeriod::new());
    assert_eq!(uout, QuotaPeriod::new());
}

#[test]
fn usage_update_is_additive_over_two_requests() {
    let mut store = Store::open_memory().unwrap();
    let t = ct();
    let (i, o) = (7u64, 3u64);

    let (s_in, s_out) = get_usage_periods(&store, "alice", &t).unwrap();
    update_usage_periods(&mut store, "alice", &t, &s_in, &s_out, i, o).unwrap();

    let (s_in, s_out) = get_usage_periods(&store, "alice", &t).unwrap();
    assert_eq!((s_in.minute, s_out.minute), (7, 3));
    update_usage_periods(&mut store, "alice", &t, &s_in, &s_out, i, o).unwrap();

    let (f_in, f_out) = get_usage_periods(&store, "alice", &t).unwrap();
    for v in [f_in.minute, f_in.hour, f_in.day, f_in.week, f_in.month] {
        assert_eq!(v, 2 * i);
    }
    for v in [f_out.minute, f_out.hour, f_out.day, f_out.week, f_out.month] {
        assert_eq!(v, 2 * o);
    }
}

#[test]
fn usage_update_writes_exact_keys() {
    let mut store = Store::open_memory().unwrap();
    let t = ct();
    let zero = QuotaPeriod::new();
    update_usage_periods(&mut store, "alice", &t, &zero, &zero, 10, 5).unwrap();
    assert_eq!(store.usage_get("M:202403051430:alice:in").unwrap(), Some(10));
    assert_eq!(store.usage_get("M:202403051430:alice:out").unwrap(), Some(5));
    assert_eq!(store.usage_get("d:20240305:alice:in").unwrap(), Some(10));
    assert_eq!(store.usage_get("m:202403:alice:out").unwrap(), Some(5));
    assert_eq!(store.usage_get("M:202403051430:bob:in").unwrap(), None);
}

#[test]
fn usage_updates_of_two_users_do_not_mix() {
    let mut store = Store::open_memory().unwrap();
    let t = ct();
    let zero = QuotaPeriod::new();
    update_usage_periods(&mut store, "alice", &t, &zero, &zero, 10, 5).unwrap();
    update_usage_periods(&mut store, "bob", &t, &zero, &zero, 1, 2).unwrap();
    let (a_in, a_out) = get_usage_periods(&store, "alice", &t).unwrap();
    let (b_in, b_out) = get_usage_periods(&store, "bob", &t).unwrap();
    assert_eq!((a_in.hour, a_out.hour), (10, 5));
    assert_eq!((b_in.hour, b_out.hour), (1, 2));
}

#[test]
fn token_limit_config_values() {
    assert_eq!(get_token_limit_config(100, 100, 60), None);
    let c = get_token_limit_config(100, 101, 60).unwrap();
    assert_eq!((c.limit, c.remaining, c.reset_seconds), (100, 0, 60));
    assert_eq!(get_token_limit_config(0, u64::MAX, 60), None);
}

#[test]
fn token_limit_exceeded_reports_first_violated_period() {
    let mut store = Store::open_memory().unwrap();
    let t = ct();
    let zero = QuotaPeriod::new();
    update_usage_periods(&mut store, "alice", &t, &zero, &zero, 40, 21).unwrap();
    let caps = QuotaPeriod { second: 0, minute: 0, hour: 60, day: 0, week: 0, month: 0 };
    let model = model_with_token_caps(caps);
    match check_token_limits(&store, "alice", &model, &t) {
        Err(TokenLimitError::Exceeded(c)) => {
            assert_eq!((c.limit, c.remaining, c.reset_seconds), (60, 0, 3600));
        },
        other => panic!("expected an hourly violation, got {:?}", other.is_ok()),
    }
}

#[test]
fn zero_token_limits_never_limit() {
    let mut store = Store::open_memory().unwrap();
    let t = ct();
    let zero = QuotaPeriod::new();
    update_usage_periods(&mut store, "alice", &t, &zero, &zero, 1_000_000, 1_000_000).unwrap();
    let model = model_with_token_caps(QuotaPeriod::new());
    let r = check_token_limits(&store, "alice", &model, &t);
    assert!(r.is_ok());
}

#[test]
fn token_limit_headers_values() {
    let c = get_token_limit_config(100, 101, 3600).unwrap();
    let headers = token_limit_headers(&c);
    assert_eq!(
        headers,
        vec![
            ("X-Token-Limit-Limit".to_string(), "100".to_string()),
            ("X-Token-Limit-Remaining".to_string(), "0".to_string()),
            ("X-Token-Limit-Reset".to_string(), "3600".to_string()),
        ]
    );
}

#[test]
fn group_records() {
    let mut store = Store::open_memory().unwrap();
    store.group_put("alice", "admin, it, hr").unwrap();
    assert_eq!(store.group_get("alice").unwrap(), Some("admin, it, hr".to_string()));
    assert_eq!(store.group_get("bob").unwrap(), None);
}
