use gcp_observability::config::{
    choose_project_id, credentials_path_from_values, nonblank_value, project_id_from_gcloud_output,
};
use gcp_observability::pubsub::{find_named, subscription_path, topic_path};
use gcp_observability::{
    Command, DeliveryContext, EnvVarGetter, LogEntry, MetricData, ObservabilityError, Payload,
    TraceSpan,
};

fn ctx(default_service: Option<&str>) -> DeliveryContext {
    DeliveryContext {
        project_id: "proj".to_string(),
        service_account_path: "/keys/sa.json".to_string(),
        default_service_name: default_service.map(|s| s.to_string()),
    }
}

#[test]
fn log_without_service_uses_default_service() {
    let d = Command::Log(LogEntry::new("INFO", "hello")).plan(&ctx(Some("svc")), 1_500).unwrap();
    assert_eq!(d.url, "https://logging.googleapis.com/v2/entries:write");
    assert_eq!(d.operation, "Log");
    match d.payload {
        Payload::Log(p) => {
            assert_eq!(p.log_name, "projects/proj/logs/gcp-observability-rs");
            assert_eq!(p.severity, "INFO");
            assert_eq!(p.text, "hello");
            assert_eq!(p.timestamp, "1970-01-01T00:00:01.500Z");
            assert_eq!(p.labels, vec![("service_name".to_string(), "svc".to_string())]);
        }
        _ => panic!("expected a log payload"),
    }
}

#[test]
fn log_own_service_and_stream_win() {
    let e = LogEntry::new("ERROR", "boom").with_service_name("mine").with_log_name("audit");
    let d = Command::Log(e).plan(&ctx(Some("svc")), 1_700_000_000_000).unwrap();
    match d.payload {
        Payload::Log(p) => {
            assert_eq!(p.log_name, "projects/proj/logs/audit");
            assert_eq!(p.timestamp, "2023-11-14T22:13:20.000Z");
            assert_eq!(p.labels, vec![("service_name".to_string(), "mine".to_string())]);
        }
        _ => panic!("expected a log payload"),
    }
    let d = Command::Log(LogEntry::new("INFO", "x")).plan(&ctx(None), 0).unwrap();
    match d.payload {
        Payload::Log(p) => assert!(p.labels.is_empty()),
        _ => panic!("expected a log payload"),
    }
}

#[test]
fn metric_without_labels_has_empty_labels() {
    let m = MetricData::new("custom.googleapis.com/requests", 42.0f64.to_bits(), "INT64", "GAUGE");
    let d = Command::Metric(m).plan(&ctx(None), 2_000).unwrap();
    assert_eq!(d.url, "https://monitoring.googleapis.com/v3/projects/proj/timeSeries");
    assert_eq!(d.operation, "Metric");
    match d.payload {
        Payload::Metric(p) => {
            assert!(p.labels.is_empty());
            assert_eq!(p.metric_type, "custom.googleapis.com/requests");
            assert_eq!(p.metric_kind, "GAUGE");
            assert_eq!(p.value_field, "int64Value");
            assert_eq!(p.end_time, "1970-01-01T00:00:02.000Z");
            assert_eq!(f64::from_bits(p.value_bits), 42.0);
        }
        _ => panic!("expected a metric payload"),
    }
}

#[test]
fn metric_labels_and_double_field() {
    let m = MetricData::new("m", 125.5f64.to_bits(), "Double", "GAUGE")
        .with_labels(vec![("env".to_string(), "dev".to_string())]);
    let d = Command::Metric(m).plan(&ctx(None), 0).unwrap();
    match d.payload {
        Payload::Metric(p) => {
            assert_eq!(p.value_field, "doubleValue");
            assert_eq!(p.labels, vec![("env".to_string(), "dev".to_string())]);
        }
        _ => panic!("expected a metric payload"),
    }
}

#[test]
fn span_payload_names_and_times() {
    let s = TraceSpan::new("abc".to_string(), "def".to_string(), "HTTP Request", 1_000, 150)
        .with_parent_span_id("parent-a".to_string());
    let d = Command::Trace(s).plan(&ctx(None), 0).unwrap();
    assert_eq!(d.url, "https://cloudtrace.googleapis.com/v2/projects/proj/traces:batchWrite");
    assert_eq!(d.operation, "Trace");
    match d.payload {
        Payload::Span(p) => {
            assert_eq!(p.name, "projects/proj/traces/abc/spans/def");
            assert_eq!(p.span_id, "def");
            assert_eq!(p.parent_span_id.as_deref(), Some("parent-a"));
            assert_eq!(p.display_name, "HTTP Request");
            assert_eq!(p.start_time, "1970-01-01T00:00:01.000Z");
            assert_eq!(p.end_time, "1970-01-01T00:00:01.150Z");
        }
        _ => panic!("expected a span payload"),
    }
}

#[test]
fn times_beyond_range_are_refused() {
    let s = TraceSpan::new("a".to_string(), "b".to_string(), "x", u64::MAX - 1, 5);
    match Command::Trace(s).plan(&ctx(None), 0) {
        Err(ObservabilityError::ApiError(m)) => assert_eq!(m, "timestamp out of range"),
        _ => panic!("expected an error"),
    }
    match Command::Log(LogEntry::new("INFO", "x")).plan(&ctx(None), 8_000_000_000_000_001) {
        Err(ObservabilityError::ApiError(m)) => assert_eq!(m, "timestamp out of range"),
        _ => panic!("expected an error"),
    }
    assert!(Command::Log(LogEntry::new("INFO", "x")).plan(&ctx(None), 8_000_000_000_000_000).is_ok());
}

#[test]
fn env_var_getter_trims_or_names_variable() {
    assert_eq!(EnvVarGetter::get("K", Some("  v \n".to_string())), Ok("v".to_string()));
    assert_eq!(
        EnvVarGetter::get("K", None),
        Err("Environment variable 'K' is not set".to_string())
    );
}

#[test]
fn credentials_path_prefers_standard_variable() {
    assert_eq!(
        credentials_path_from_values(Some(" /a.json ".to_string()), Some("/b.json".to_string())),
        Ok("/a.json".to_string())
    );
    assert_eq!(
        credentials_path_from_values(Some("   ".to_string()), Some("/b.json".to_string())),
        Ok("/b.json".to_string())
    );
    assert!(credentials_path_from_values(None, Some("".to_string()))
        .unwrap_err()
        .starts_with("Missing credentials env var"));
}

#[test]
fn project_id_resolution() {
    assert_eq!(
        choose_project_id(Some(" proj-a ".to_string()), Some("proj-b".to_string())),
        Some("proj-a".to_string())
    );
    assert_eq!(choose_project_id(Some("".to_string()), Some(" proj-b".to_string())), Some("proj-b".to_string()));
    assert_eq!(choose_project_id(None, None), None);
    assert_eq!(nonblank_value(Some("\t".to_string())), None);
    assert_eq!(project_id_from_gcloud_output(true, "my-proj\n", ""), Ok("my-proj".to_string()));
    assert_eq!(
        project_id_from_gcloud_output(true, "  \n", ""),
        Err("gcloud returned an empty project id".to_string())
    );
    assert_eq!(
        project_id_from_gcloud_output(false, "", " not logged in \n"),
        Err("gcloud failed to read project (is gcloud installed/logged in?): not logged in".to_string())
    );
}

#[test]
fn pubsub_paths_and_lookup() {
    assert_eq!(topic_path("proj", "events", "dev"), "projects/proj/topics/events-dev");
    assert_eq!(subscription_path("proj", "events-sub"), "projects/proj/subscriptions/events-sub");
    let names = vec!["a".to_string(), "b".to_string(), "a".to_string()];
    assert_eq!(find_named(&names, "a"), Some(0));
    assert_eq!(find_named(&names, "b"), Some(1));
    assert_eq!(find_named(&names, "c"), None);
}
