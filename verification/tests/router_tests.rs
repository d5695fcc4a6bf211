use smsly_gateway::config::{flag_from_env_value, ChannelFlags, Settings};
use smsly_gateway::health::{aggregate_health, component_from_outcome, readiness, HealthStatus};
use smsly_gateway::metrics::{MetricLabels, MetricNames};
use smsly_gateway::router::{BaseAdapter, SMSAdapter};
use smsly_gateway::text::{ascii_lower, has_prefix, str_eq};

fn settings(channels: Vec<(&str, bool, bool)>) -> Settings {
    Settings::new(
        "secret".to_string(),
        channels
            .into_iter()
            .map(|(s, m, f)| ChannelFlags {
                service: s.to_string(),
                use_microservice: m,
                fallback_enabled: f,
            })
            .collect(),
    )
}

#[test]
fn env_style_flags_read_true_and_one_with_any_casing() {
    assert!(flag_from_env_value(&Some("true".to_string()), false));
    assert!(flag_from_env_value(&Some("TRUE".to_string()), false));
    assert!(flag_from_env_value(&Some("True".to_string()), false));
    assert!(flag_from_env_value(&Some("1".to_string()), false));
    assert!(!flag_from_env_value(&Some("0".to_string()), true));
    assert!(!flag_from_env_value(&Some("false".to_string()), true));
    assert!(!flag_from_env_value(&Some("yes".to_string()), true));
    assert!(flag_from_env_value(&None, true));
    assert!(!flag_from_env_value(&None, false));
}

#[test]
fn channel_switches_default_to_direct_path_with_fallback() {
    let s = settings(vec![("sms", true, false)]);
    assert!(s.is_microservice_enabled("sms"));
    assert!(!s.is_fallback_enabled("sms"));
    // channels without an entry: no microservice, fallback on
    assert!(!s.is_microservice_enabled("whatsapp"));
    assert!(s.is_fallback_enabled("whatsapp"));
}

#[test]
fn base_adapter_resolves_its_switches_once() {
    let s = settings(vec![("sms", true, true)]);
    let base = BaseAdapter::new("sms".to_string(), s);
    assert_eq!(base.service_name, "sms");
    assert!(base.use_microservice);
    assert!(base.fallback_enabled);

    let ev = base.track_request("send_sms", "legacy", false, 12);
    assert_eq!(ev.service, "sms");
    assert_eq!(ev.operation, "send_sms");
    assert_eq!(ev.provider, "legacy");
    assert!(!ev.success);
    assert_eq!(ev.duration_ms, 12);
}

#[test]
fn direct_path_reports_no_legacy_transport() {
    let adapter = SMSAdapter::new(settings(vec![]));
    let (resp, ev) = adapter.send_sms("+15550001", "hello", "acct-1", None, None);
    assert!(!resp.success);
    assert_eq!(resp.provider, "legacy");
    assert_eq!(resp.error, Some("Legacy service not available".to_string()));
    assert_eq!(resp.sms_id, None);
    assert_eq!(resp.status, None);
    assert!(resp.data.is_none());
    assert_eq!(ev.service, "sms");
    assert_eq!(ev.operation, "send_sms");
    assert_eq!(ev.provider, "legacy");
    assert!(!ev.success);
}

#[test]
fn microservice_path_with_fallback_defers_to_legacy() {
    let adapter = SMSAdapter::new(settings(vec![("sms", true, true)]));
    let (resp, ev) = adapter.send_sms("+15550001", "hello", "acct-1", Some("p1"), Some("+15550009"));
    assert!(!resp.success);
    assert_eq!(resp.provider, "legacy");
    assert_eq!(resp.error, Some("Legacy service not available".to_string()));
    assert_eq!(ev.provider, "legacy");
}

#[test]
fn microservice_path_without_fallback_reports_unavailable() {
    let adapter = SMSAdapter::new(settings(vec![("sms", true, false)]));
    let (resp, ev) = adapter.send_sms("+15550001", "hello", "acct-1", None, None);
    assert!(!resp.success);
    assert_eq!(resp.provider, "microservice");
    assert_eq!(resp.error, Some("Microservice unavailable".to_string()));
    assert_eq!(resp.sms_id, None);
    assert_eq!(ev.provider, "microservice");
    assert!(!ev.success);
}

#[test]
fn component_outcomes_classify_as_connected_or_error() {
    let ok = component_from_outcome(Ok(5));
    assert_eq!(ok.status, "connected");
    assert_eq!(ok.latency_ms, Some(5));
    assert_eq!(ok.error, None);

    let bad = component_from_outcome(Err("connection refused".to_string()));
    assert_eq!(bad.status, "error");
    assert_eq!(bad.latency_ms, None);
    assert_eq!(bad.error, Some("connection refused".to_string()));
}

#[test]
fn health_aggregation_and_readiness() {
    let ok = component_from_outcome(Ok(3));
    let bad = component_from_outcome(Err("down".to_string()));

    assert_eq!(aggregate_health(&None, &None), HealthStatus::Healthy);
    assert_eq!(aggregate_health(&Some(ok.clone()), &Some(ok.clone())), HealthStatus::Healthy);
    assert_eq!(aggregate_health(&Some(bad.clone()), &Some(ok.clone())), HealthStatus::Unhealthy);
    assert_eq!(aggregate_health(&Some(bad.clone()), &Some(bad.clone())), HealthStatus::Unhealthy);
    assert_eq!(aggregate_health(&Some(ok.clone()), &Some(bad.clone())), HealthStatus::Degraded);
    assert_eq!(aggregate_health(&None, &Some(bad.clone())), HealthStatus::Degraded);

    assert!(readiness(&None));
    assert!(readiness(&Some(ok)));
    assert!(!readiness(&Some(bad)));
}

#[test]
fn metric_labels_default_and_series_names() {
    let l = MetricLabels::default();
    assert_eq!(l.service, "unknown");
    assert_eq!(l.environment, "production");
    assert_eq!(l.version, "1.0.0");

    assert_eq!(MetricNames::HTTP_REQUESTS_TOTAL, "http_requests");
    assert_eq!(MetricNames::HTTP_REQUEST_DURATION, "http_request_duration_seconds");
    assert_eq!(MetricNames::MESSAGES_SENT_TOTAL, "smsly_messages_sent");
}

#[test]
fn text_helpers_fold_compare_and_prefix() {
    assert_eq!(ascii_lower("TwIlIo"), "twilio");
    assert_eq!(ascii_lower(""), "");
    assert_eq!(ascii_lower("abc-123"), "abc-123");
    assert!(str_eq("abc", "abc"));
    assert!(!str_eq("abc", "abd"));
    assert!(!str_eq("abc", "abcd"));
    assert!(str_eq("", ""));
    assert!(has_prefix("/health/live", "/health"));
    assert!(has_prefix("/health", "/health"));
    assert!(!has_prefix("/heal", "/health"));
    assert!(!has_prefix("/api/health", "/health"));
}
