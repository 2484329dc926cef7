use goose_providers::base::Provider;
use goose_providers::base::Usage;
use goose_providers::config::Config;
use goose_providers::config::ConfigError;
use goose_providers::errors::ProviderError;
use goose_providers::google::backoff_delay_ms;
use goose_providers::google::model_served;
use goose_providers::google::GoogleProvider;
use goose_providers::google::PostStep;
use goose_providers::google::SendOutcome;
use goose_providers::google::GOOGLE_API_HOST;
use goose_providers::google::GOOGLE_DEFAULT_MODEL;
use goose_providers::google::GOOGLE_DOC_URL;
use goose_providers::google::GOOGLE_KNOWN_MODELS;
use goose_providers::google::GOOGLE_MAX_RETRIES;
use goose_providers::google::GOOGLE_REQUEST_TIMEOUT_SECS;
use goose_providers::google::JITTER_BOUND_MS;
use goose_providers::google::TOO_MANY_REQUESTS;
use goose_providers::model::ModelConfig;
use serde_json::Value;

fn adapter(host: Option<&str>, model: &str) -> GoogleProvider {
    let mut config = Config::new();
    config.set_secret("GOOGLE_API_KEY", "abc");
    if let Some(host) = host {
        config.set("GOOGLE_HOST", host);
    }
    GoogleProvider::from_env(ModelConfig::new(model.to_string()), &config).unwrap()
}

/// Runs a post against the given statuses, one per request, and tells how
/// many requests were sent, which delays were asked for before the retries,
/// and how the post ended: with the status delivered, or with the error.
fn run_post(
    provider: &GoogleProvider,
    statuses: &[u16],
) -> (usize, Vec<u64>, Result<u16, ProviderError>) {
    let mut sent = 0;
    let mut delays = Vec::new();
    let mut step = provider.post();
    loop {
        match step {
            PostStep::Send { attempt, delay_ms } => {
                if sent == 0 {
                    assert_eq!(delay_ms, 0);
                } else {
                    delays.push(delay_ms);
                }
                assert_eq!(attempt.retries() as usize, sent);
                let status = statuses[sent];
                sent += 1;
                step = attempt.on_outcome(SendOutcome::Responded(status));
                if let PostStep::Deliver = step {
                    return (sent, delays, Ok(status));
                }
            }
            PostStep::Fail(error) => return (sent, delays, Err(error)),
            PostStep::Deliver => unreachable!(),
        }
    }
}

#[test]
fn google_constants() {
    assert_eq!(GOOGLE_API_HOST, "https://generativelanguage.googleapis.com");
    assert_eq!(GOOGLE_DEFAULT_MODEL, "gemini-2.0-flash");
    assert_eq!(GOOGLE_DOC_URL, "https://ai.google/get-started/our-models/");
    assert_eq!(GOOGLE_REQUEST_TIMEOUT_SECS, 600);
    assert_eq!(GOOGLE_MAX_RETRIES, 5);
    assert_eq!(TOO_MANY_REQUESTS, 429);
    assert_eq!(JITTER_BOUND_MS, 1000);
    assert_eq!(GOOGLE_KNOWN_MODELS.len(), 8);
    assert_eq!(GOOGLE_KNOWN_MODELS[0], "models/gemini-1.5-pro-latest");
    assert_eq!(GOOGLE_KNOWN_MODELS[7], "models/gemini-2.0-pro-exp-02-05");
}

#[test]
fn google_from_env_needs_the_key() {
    let failed =
        GoogleProvider::from_env(ModelConfig::new("m".to_string()), &Config::new()).unwrap_err();
    assert_eq!(failed, ConfigError::NotFound("GOOGLE_API_KEY".to_string()));
}

#[test]
fn google_from_env_defaults_the_host() {
    let provider = adapter(None, "m");
    assert_eq!(provider.host(), GOOGLE_API_HOST);
    assert_eq!(provider.get_model_config(), ModelConfig::new("m".to_string()));
}

#[test]
fn google_from_env_takes_the_host_override() {
    let provider = adapter(Some("http://localhost:8080"), "m");
    assert_eq!(provider.host(), "http://localhost:8080");
}

#[test]
fn google_metadata_is_complete() {
    let metadata = GoogleProvider::metadata();
    assert_eq!(metadata.name, "google");
    assert_eq!(metadata.display_name, "Google Gemini");
    assert_eq!(metadata.description, "Gemini models from Google AI");
    assert_eq!(metadata.default_model, "gemini-2.0-flash");
    assert_eq!(
        metadata.known_models,
        vec![
            "models/gemini-1.5-pro-latest",
            "models/gemini-1.5-pro",
            "models/gemini-1.5-flash-latest",
            "models/gemini-1.5-flash",
            "models/gemini-2.0-flash",
            "models/gemini-2.0-flash-lite-preview-02-05",
            "models/gemini-2.0-flash-thinking-exp-01-21",
            "models/gemini-2.0-pro-exp-02-05",
        ]
    );
    assert_eq!(metadata.model_doc_link, "https://ai.google/get-started/our-models/");
    assert_eq!(metadata.config_keys.len(), 2);
    assert_eq!(metadata.config_keys[0].name, "GOOGLE_API_KEY");
    assert!(metadata.config_keys[0].required);
    assert!(metadata.config_keys[0].secret);
    assert_eq!(metadata.config_keys[0].default, None);
    assert_eq!(metadata.config_keys[1].name, "GOOGLE_HOST");
    assert!(!metadata.config_keys[1].required);
    assert!(!metadata.config_keys[1].secret);
    assert_eq!(
        metadata.config_keys[1].default,
        Some("https://generativelanguage.googleapis.com".to_string())
    );
}

#[test]
fn google_endpoint_path_holds_model_and_key() {
    let provider = adapter(None, "gemini-2.0-flash");
    assert_eq!(
        provider.endpoint_path(),
        "v1beta/models/gemini-2.0-flash:generateContent?key=abc"
    );
}

#[test]
fn google_endpoint_url_on_the_public_host() {
    let provider = adapter(None, "gemini-2.0-flash");
    assert_eq!(
        provider.endpoint_url(),
        Ok("https://generativelanguage.googleapis.com/v1beta/models/gemini-2.0-flash:generateContent?key=abc"
            .to_string())
    );
}

#[test]
fn google_endpoint_url_normalises_the_host() {
    let provider = adapter(Some("HTTP://LocalHost:80/"), "m");
    assert_eq!(
        provider.endpoint_url(),
        Ok("http://localhost/v1beta/models/m:generateContent?key=abc".to_string())
    );
}

#[test]
fn google_endpoint_url_resolves_against_the_host_path() {
    let below = adapter(Some("https://proxy.test/api/"), "m");
    assert_eq!(
        below.endpoint_url(),
        Ok("https://proxy.test/api/v1beta/models/m:generateContent?key=abc".to_string())
    );
    let beside = adapter(Some("https://proxy.test/api"), "m");
    assert_eq!(
        beside.endpoint_url(),
        Ok("https://proxy.test/v1beta/models/m:generateContent?key=abc".to_string())
    );
}

#[test]
fn google_endpoint_url_rejects_a_host_that_is_no_url() {
    let provider = adapter(Some("not a url"), "m");
    assert_eq!(
        provider.endpoint_url(),
        Err(ProviderError::RequestFailed(
            "Invalid base URL: relative URL without a base".to_string()
        ))
    );
}

#[test]
fn google_endpoint_url_rejects_a_host_that_is_no_base() {
    let provider = adapter(Some("mailto:someone@example.test"), "m");
    assert_eq!(
        provider.endpoint_url(),
        Err(ProviderError::RequestFailed(
            "Failed to construct endpoint URL: relative URL with a cannot-be-a-base base"
                .to_string()
        ))
    );
}

#[test]
fn google_post_begins_with_a_request_at_once() {
    let provider = adapter(None, "gemini-2.0-flash");
    match provider.post() {
        PostStep::Send { attempt, delay_ms } => {
            assert_eq!(delay_ms, 0);
            assert_eq!(attempt.retries(), 0);
            assert_eq!(
                attempt.url(),
                "https://generativelanguage.googleapis.com/v1beta/models/gemini-2.0-flash:generateContent?key=abc"
            );
        }
        other => panic!("unexpected step {:?}", other),
    }
}

#[test]
fn google_post_fails_before_sending_on_a_bad_host() {
    let provider = adapter(Some("::"), "m");
    let (sent, delays, end) = run_post(&provider, &[]);
    assert_eq!(sent, 0);
    assert!(delays.is_empty());
    match end {
        Err(ProviderError::RequestFailed(reason)) => {
            assert!(reason.starts_with("Invalid base URL: "));
            assert!(reason.len() > "Invalid base URL: ".len());
        }
        other => panic!("unexpected end {:?}", other),
    }
}

#[test]
fn google_post_delivers_the_first_response_that_is_not_throttled() {
    let provider = adapter(None, "m");
    for status in [200_u16, 201, 400, 401, 404, 428, 430, 500, 503] {
        let (sent, delays, end) = run_post(&provider, &[status]);
        assert_eq!(sent, 1);
        assert!(delays.is_empty());
        assert_eq!(end, Ok(status));
    }
}

#[test]
fn google_post_five_throttles_then_success_sends_six_requests() {
    let provider = adapter(None, "m");
    let (sent, delays, end) = run_post(&provider, &[429, 429, 429, 429, 429, 200]);
    assert_eq!(sent, 6);
    assert_eq!(end, Ok(200));
    assert_eq!(delays.len(), 5);
}

#[test]
fn google_post_six_throttles_exhaust_the_budget() {
    let provider = adapter(None, "m");
    let (sent, delays, end) = run_post(&provider, &[429, 429, 429, 429, 429, 429, 200]);
    assert_eq!(sent, 6);
    assert_eq!(delays.len(), 5);
    assert_eq!(
        end,
        Err(ProviderError::RateLimitExceeded("Max retries exceeded".to_string()))
    );
}

#[test]
fn google_post_delays_grow_by_powers_of_two_with_bounded_jitter() {
    let provider = adapter(None, "m");
    for _ in 0..50 {
        let (_, delays, _) = run_post(&provider, &[429, 429, 429, 429, 429, 200]);
        assert_eq!(delays.len(), 5);
        for (index, delay_ms) in delays.iter().enumerate() {
            let retry = index as u32 + 1;
            let floor = 2_u64.pow(retry) * 1000;
            assert!(*delay_ms >= floor, "retry {} waits {} ms", retry, delay_ms);
            assert!(*delay_ms < floor + 1000, "retry {} waits {} ms", retry, delay_ms);
        }
    }
}

#[test]
fn google_post_transport_failure_is_not_retried() {
    let provider = adapter(None, "m");
    let first = match provider.post() {
        PostStep::Send { attempt, .. } => attempt,
        other => panic!("unexpected step {:?}", other),
    };
    match first.on_outcome(SendOutcome::Failed("connection refused".to_string())) {
        PostStep::Fail(error) => assert_eq!(
            error,
            ProviderError::RequestFailed("Request failed: connection refused".to_string())
        ),
        other => panic!("unexpected step {:?}", other),
    }
}

#[test]
fn google_post_transport_failure_after_throttling_ends_the_post() {
    let provider = adapter(None, "m");
    let first = match provider.post() {
        PostStep::Send { attempt, .. } => attempt,
        other => panic!("unexpected step {:?}", other),
    };
    let second = match first.on_outcome(SendOutcome::Responded(429)) {
        PostStep::Send { attempt, delay_ms } => {
            assert!((2000..3000).contains(&delay_ms));
            assert_eq!(attempt.retries(), 1);
            attempt
        }
        other => panic!("unexpected step {:?}", other),
    };
    assert!(matches!(
        second.on_outcome(SendOutcome::Failed("reset".to_string())),
        PostStep::Fail(ProviderError::RequestFailed(reason)) if reason == "Request failed: reset"
    ));
}

fn first_attempt(provider: &GoogleProvider) -> goose_providers::google::PostAttempt {
    match provider.post() {
        PostStep::Send { attempt, .. } => attempt,
        other => panic!("unexpected step {:?}", other),
    }
}

#[test]
fn google_decide_is_exact_about_the_delay() {
    let provider = adapter(None, "m");
    let mut attempt = first_attempt(&provider);
    let jitters = [0_u64, 999, 17, 500, 1];
    let delays = [2000_u64, 4999, 8017, 16500, 32001];
    for retry in 0..5 {
        match attempt.decide(SendOutcome::Responded(429), jitters[retry]) {
            PostStep::Send { attempt: next, delay_ms } => {
                assert_eq!(delay_ms, delays[retry]);
                assert_eq!(next.retries() as usize, retry + 1);
                assert_eq!(next.url(), first_attempt(&provider).url());
                attempt = next;
            }
            other => panic!("unexpected step {:?}", other),
        }
    }
    assert!(matches!(
        attempt.decide(SendOutcome::Responded(429), 0),
        PostStep::Fail(ProviderError::RateLimitExceeded(reason)) if reason == "Max retries exceeded"
    ));
}

#[test]
fn google_decide_delivers_and_fails_without_regard_to_jitter() {
    let provider = adapter(None, "m");
    for jitter_ms in [0_u64, 1, 999] {
        assert!(matches!(
            first_attempt(&provider).decide(SendOutcome::Responded(200), jitter_ms),
            PostStep::Deliver
        ));
        assert!(matches!(
            first_attempt(&provider).decide(SendOutcome::Failed("down".to_string()), jitter_ms),
            PostStep::Fail(ProviderError::RequestFailed(reason)) if reason == "Request failed: down"
        ));
    }
}

#[test]
fn google_backoff_delay_is_exact() {
    assert_eq!(backoff_delay_ms(0, 0), 1000);
    assert_eq!(backoff_delay_ms(1, 0), 2000);
    assert_eq!(backoff_delay_ms(1, 999), 2999);
    assert_eq!(backoff_delay_ms(2, 17), 4017);
    assert_eq!(backoff_delay_ms(3, 500), 8500);
    assert_eq!(backoff_delay_ms(4, 1), 16001);
    assert_eq!(backoff_delay_ms(5, 999), 32999);
}

#[test]
fn google_post_failure_rewords_exhausted_retries_only() {
    assert_eq!(
        GoogleProvider::post_failure(ProviderError::RateLimitExceeded(
            "Max retries exceeded".to_string()
        )),
        ProviderError::Other("Gemini rate limit exceeded. Please try again later.".to_string())
    );
    for error in [
        ProviderError::RequestFailed("Request failed: x".to_string()),
        ProviderError::UsageError("no usage".to_string()),
        ProviderError::Other("other".to_string()),
    ] {
        assert_eq!(GoogleProvider::post_failure(error.clone()), error);
    }
}

#[test]
fn google_model_served_prefers_the_reported_version() {
    assert_eq!(model_served(Some(Some("gemini-x".to_string())), "configured"), "gemini-x");
    assert_eq!(model_served(Some(None), "configured"), "");
    assert_eq!(model_served(None, "configured"), "configured");
}

#[test]
fn google_served_model_reads_the_response() {
    let provider = adapter(None, "configured");
    let reported: Value =
        serde_json::from_str(r#"{"modelVersion":"gemini-2.0-flash-001","candidates":[]}"#).unwrap();
    assert_eq!(provider.served_model(&reported), "gemini-2.0-flash-001");
    let silent: Value = serde_json::from_str(r#"{"candidates":[]}"#).unwrap();
    assert_eq!(provider.served_model(&silent), "configured");
    let odd: Value = serde_json::from_str(r#"{"modelVersion":7}"#).unwrap();
    assert_eq!(provider.served_model(&odd), "");
    let no_object: Value = serde_json::from_str(r#"["modelVersion"]"#).unwrap();
    assert_eq!(provider.served_model(&no_object), "configured");
}

/// Stands for the format translator: the text of the first part of the
/// first candidate.
fn mock_message(response: &Value) -> Result<String, ProviderError> {
    response["candidates"][0]["content"]["parts"][0]["text"]
        .as_str()
        .map(|text| text.to_string())
        .ok_or(ProviderError::RequestFailed("no text".to_string()))
}

#[test]
fn google_completion_end_to_end() {
    let provider = adapter(None, "gemini-2.0-flash");
    let body = r#"{"candidates":[{"content":{"role":"model","parts":[{"text":"hello"}]}}],"modelVersion":"gemini-2.0-flash-001"}"#;
    let response: Value = serde_json::from_str(body).unwrap();
    let (message, served) = provider
        .completion(&response, mock_message(&response), Ok(Usage::new(4, 1, 5)))
        .unwrap();
    assert_eq!(message, "hello");
    assert_eq!(served.model, "gemini-2.0-flash-001");
    assert_eq!(served.usage, Usage::new(4, 1, 5));
}

#[test]
fn google_completion_falls_back_to_the_configured_model() {
    let provider = adapter(None, "gemini-2.0-flash");
    let body = r#"{"candidates":[{"content":{"parts":[{"text":"hi there"}]}}]}"#;
    let response: Value = serde_json::from_str(body).unwrap();
    let (message, served) = provider
        .completion(&response, mock_message(&response), Ok(Usage::default()))
        .unwrap();
    assert_eq!(message, "hi there");
    assert_eq!(served.model, "gemini-2.0-flash");
    assert_eq!(served.usage, Usage::new(0, 0, 0));
}

#[test]
fn google_completion_does_not_mend_a_usage_error() {
    let provider = adapter(None, "m");
    let response: Value = serde_json::from_str("{}").unwrap();
    let completed = provider.completion(
        &response,
        Ok("text".to_string()),
        Err(ProviderError::UsageError("malformed usage".to_string())),
    );
    assert_eq!(completed, Err(ProviderError::UsageError("malformed usage".to_string())));
}

#[test]
fn google_completion_reports_the_message_error_first() {
    let provider = adapter(None, "m");
    let response: Value = serde_json::from_str("{}").unwrap();
    let completed = provider.completion::<String>(
        &response,
        Err(ProviderError::RequestFailed("bad message".to_string())),
        Err(ProviderError::UsageError("bad usage".to_string())),
    );
    assert_eq!(completed, Err(ProviderError::RequestFailed("bad message".to_string())));
}
