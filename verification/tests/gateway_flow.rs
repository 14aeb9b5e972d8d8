use burgonet::clock::ClockTime;
use burgonet::config::{ModelConfig, Quota, QuotaPeriod, ServerConf, resolve_model_api_key};
use burgonet::echo::HttpEchoApp;
use burgonet::gateway::{Admission, GatewayContext, GatewayRequest, admit_request};
use burgonet::rate::RateLimiter;
use burgonet::response::{
    HeaderOp, is_gzip_encoding, models_summary_json, process_response_body,
    response_header_ops,
};
use burgonet::store::{Store, token_insert};
use burgonet::upstream::upstream_plan;
use burgonet::usage::{get_usage_periods, update_usage_periods};
use std::io::Write;

fn ct() -> ClockTime {
    ClockTime::new(2024, 3, 5, 14, 30).unwrap()
}

fn chat_model() -> ModelConfig {
    ModelConfig {
        location: "/chat".to_string(),
        model_name: "demo".to_string(),
        proxy_pass: "https://upstream.example:8443/v1/chat".to_string(),
        authorization_header: true,
        api_key: "sk-123".to_string(),
        disabled_groups: "banned".to_string(),
        blacklist_words: "secret".to_string(),
        pii_protection_url: "".to_string(),
        parser: "openai".to_string(),
        quotas: Some(vec![Quota { max_tokens: None, max_requests: None }]),
    }
}

fn conf() -> ServerConf {
    ServerConf {
        models: vec![chat_model()],
        db_filepath: "database.redb".to_string(),
        port: 6191,
        host: "localhost".to_string(),
        prometheus_host: "127.0.0.1".to_string(),
        prometheus_port: 6192,
        admin_host: "127.0.0.1".to_string(),
        admin_port: 6189,
        chat_host: "127.0.0.1".to_string(),
        chat_port: 6190,
        echo_host: "127.0.0.1".to_string(),
        echo_port: 6193,
        trust_header_authentication: vec!["X-Trusted-User".to_string()],
        log_config_file: "log4rs.yml".to_string(),
    }
}

fn request(path: &str, headers: Vec<(&str, &str)>) -> GatewayRequest {
    GatewayRequest {
        path: path.to_string(),
        headers: headers
            .into_iter()
            .map(|(n, v)| (n.to_string(), v.to_string()))
            .collect(),
    }
}

fn gzip_bytes(data: &[u8]) -> Vec<u8> {
    let mut enc = flate2::write::GzEncoder::new(Vec::new(), flate2::Compression::default());
    enc.write_all(data).unwrap();
    enc.finish().unwrap()
}

#[test]
fn no_credential_is_denied_401() {
    let store = Store::open_memory().unwrap();
    let limiter = RateLimiter::new();
    let req = request("/chat", vec![]);
    match admit_request(&store, &limiter, &conf(), &req, &ct()) {
        Admission::Deny { status } => assert_eq!(status, 401),
        _ => panic!("expected a 401 denial"),
    }
}

#[test]
fn unknown_token_is_denied_401() {
    let store = Store::open_memory().unwrap();
    let limiter = RateLimiter::new();
    let req = request("/chat", vec![("Authorization", "Bearer nope")]);
    match admit_request(&store, &limiter, &conf(), &req, &ct()) {
        Admission::Deny { status } => assert_eq!(status, 401),
        _ => panic!("expected a 401 denial"),
    }
}

#[test]
fn unknown_location_is_denied_404() {
    let store = Store::open_memory().unwrap();
    let limiter = RateLimiter::new();
    let req = request("/nowhere", vec![("X-Trusted-User", "alice")]);
    match admit_request(&store, &limiter, &conf(), &req, &ct()) {
        Admission::Deny { status } => assert_eq!(status, 404),
        _ => panic!("expected a 404 denial"),
    }
}

#[test]
fn disabled_group_is_denied_401() {
    let mut store = Store::open_memory().unwrap();
    store.group_put("mallory", "users, banned").unwrap();
    let limiter = RateLimiter::new();
    let req = request("/chat", vec![("X-Trusted-User", "mallory")]);
    match admit_request(&store, &limiter, &conf(), &req, &ct()) {
        Admission::Deny { status } => assert_eq!(status, 401),
        _ => panic!("expected a 401 denial"),
    }
}

#[test]
fn bearer_user_in_disabled_group_is_denied_401() {
    let mut store = Store::open_memory().unwrap();
    let token = "b".repeat(32);
    token_insert(&mut store, &token, "mallory").unwrap();
    store.group_put("mallory", "users, banned").unwrap();
    let limiter = RateLimiter::new();
    let auth = format!("Bearer {}", token);
    let req = request("/chat", vec![("Authorization", auth.as_str())]);
    match admit_request(&store, &limiter, &conf(), &req, &ct()) {
        Admission::Deny { status } => assert_eq!(status, 401),
        _ => panic!("expected a 401 denial"),
    }
}

#[test]
fn bearer_user_with_unknown_location_is_denied_404() {
    let mut store = Store::open_memory().unwrap();
    let token = "c".repeat(32);
    token_insert(&mut store, &token, "carol").unwrap();
    let limiter = RateLimiter::new();
    let auth = format!("Bearer {}", token);
    let req = request("/nowhere", vec![("Authorization", auth.as_str())]);
    match admit_request(&store, &limiter, &conf(), &req, &ct()) {
        Admission::Deny { status } => assert_eq!(status, 404),
        _ => panic!("expected a 404 denial"),
    }
}

#[test]
fn trusted_header_authenticates() {
    let store = Store::open_memory().unwrap();
    let limiter = RateLimiter::new();
    let req = request("/chat", vec![("X-Trusted-User", "carol")]);
    match admit_request(&store, &limiter, &conf(), &req, &ct()) {
        Admission::Forward { user, model_index, .. } => {
            assert_eq!(user, "carol");
            assert_eq!(model_index, 0);
        },
        _ => panic!("expected the request to be admitted"),
    }
}

#[test]
fn root_path_serves_summary_without_touching_state() {
    let store = Store::open_memory().unwrap();
    let limiter = RateLimiter::new();
    let req = request("/", vec![]);
    match admit_request(&store, &limiter, &conf(), &req, &ct()) {
        Admission::RootSummary => {},
        _ => panic!("expected the root summary"),
    }
    let (uin, uout) = get_usage_periods(&store, "alice", &ct()).unwrap();
    assert_eq!(uin, QuotaPeriod::new());
    assert_eq!(uout, QuotaPeriod::new());
    assert_eq!(models_summary_json(&conf().models), "[{\"demo\":\"/chat\"}]");
}

#[test]
fn summary_escapes_special_characters() {
    let mut m = chat_model();
    m.model_name = "a\"b\\c".to_string();
    assert_eq!(models_summary_json(&vec![m]), "[{\"a\\\"b\\\\c\":\"/chat\"}]");
    assert_eq!(models_summary_json(&vec![]), "[]");
}

#[test]
fn gateway_end_to_end() {
    let mut store = Store::open_memory().unwrap();
    let token = "a".repeat(32);
    token_insert(&mut store, &token, "alice").unwrap();
    store.group_put("alice", "admin").unwrap();
    let limiter = RateLimiter::new();
    let now = ct();
    let auth_value = format!("Bearer {}", token);
    let req = request("/chat", vec![("Authorization", auth_value.as_str())]);

    let (user, usage_input, usage_output) =
        match admit_request(&store, &limiter, &conf(), &req, &now) {
            Admission::Forward { user, model_index, usage_input, usage_output } => {
                assert_eq!(model_index, 0);
                (user, usage_input, usage_output)
            },
            _ => panic!("expected the request to be admitted"),
        };
    assert_eq!(user, "alice");

    let mut ctx = GatewayContext::new(now);
    ctx.user = Some(user.clone());
    ctx.usage_input = usage_input;
    ctx.usage_output = usage_output;

    let upstream_body = b"{\"usage\":{\"prompt_tokens\":10,\"completion_tokens\":5}}";
    ctx.buffer_chunk(&gzip_bytes(upstream_body));
    ctx.response_gzip = is_gzip_encoding(Some(&"gzip".to_string()));
    assert!(ctx.response_gzip);

    let buffered = ctx.take_buffer();
    let (client_body, tin, tout) =
        process_response_body(buffered, ctx.response_gzip, "openai").unwrap();
    assert_eq!(client_body, upstream_body.to_vec());
    assert_eq!((tin, tout), (10, 5));
    ctx.input_tokens = tin;
    ctx.output_tokens = tout;

    let ops = response_header_ops();
    assert!(ops.iter().any(|op| matches!(
        op,
        HeaderOp::Remove(n) if n.as_str() == "Content-Encoding"
    )));
    assert!(ops.iter().any(|op| matches!(
        op,
        HeaderOp::Insert(n, v) if n.as_str() == "Transfer-Encoding" && v.as_str() == "Chunked"
    )));

    update_usage_periods(
        &mut store,
        &user,
        &now,
        &ctx.usage_input,
        &ctx.usage_output,
        ctx.input_tokens,
        ctx.output_tokens,
    )
    .unwrap();
    let (after_in, after_out) = get_usage_periods(&store, "alice", &now).unwrap();
    assert_eq!(after_in.minute, 10);
    assert_eq!(after_in.month, 10);
    assert_eq!(after_out.minute, 5);
    assert_eq!(after_out.month, 5);
}

#[test]
fn upstream_plan_from_model_url() {
    let plan = upstream_plan(&chat_model()).unwrap();
    assert_eq!(plan.host, "upstream.example");
    assert_eq!(plan.port, 8443);
    assert!(plan.tls);
    assert_eq!(plan.path, "/v1/chat");
    assert_eq!(
        plan.headers,
        vec![
            ("Authorization".to_string(), "Bearer sk-123".to_string()),
            ("Content-Type".to_string(), "application/json".to_string()),
            ("Host".to_string(), "upstream.example".to_string()),
        ]
    );

    let mut m = chat_model();
    m.proxy_pass = "https://upstream.example/v1".to_string();
    m.authorization_header = false;
    let plan2 = upstream_plan(&m).unwrap();
    assert_eq!(plan2.port, 443);
    assert_eq!(plan2.headers.len(), 2);

    let mut bad = chat_model();
    bad.proxy_pass = "not a url".to_string();
    assert_eq!(upstream_plan(&bad).unwrap_err(), 500);
}

#[test]
fn api_key_resolution_from_environment_value() {
    let mut m = chat_model();
    m.api_key = "$UPSTREAM_KEY".to_string();
    let resolved = resolve_model_api_key(m, Some("sk-real".to_string()));
    assert_eq!(resolved.api_key, "sk-real");
    assert!(resolved.authorization_header);

    let mut m2 = chat_model();
    m2.api_key = "$UPSTREAM_KEY".to_string();
    m2.proxy_pass = "https://up.example/v1?key=$UPSTREAM_KEY".to_string();
    let resolved2 = resolve_model_api_key(m2, Some("sk-real".to_string()));
    assert_eq!(resolved2.proxy_pass, "https://up.example/v1?key=sk-real");
    assert!(!resolved2.authorization_header);

    let mut m3 = chat_model();
    m3.api_key = "$MISSING".to_string();
    let resolved3 = resolve_model_api_key(m3, None);
    assert_eq!(resolved3.api_key, "");

    let m4 = chat_model();
    let resolved4 = resolve_model_api_key(m4, None);
    assert_eq!(resolved4.api_key, "sk-123");
}

#[test]
fn echo_returns_body_unchanged() {
    let app = HttpEchoApp;
    let body = b"ping".to_vec();
    assert_eq!(app.response_body(body.clone()), body);
}
