use gcp_observability::client::{enqueue_outcome, QueueRefusal};
use gcp_observability::delivery::Payload;
use gcp_observability::{
    Command, DeliveryContext, LogEntry, MetricData, ObservabilityClient, ObservabilityError,
    TraceSpan, Worker, WorkerAction, QUEUE_CAPACITY,
};

fn ctx() -> DeliveryContext {
    DeliveryContext {
        project_id: "proj".to_string(),
        service_account_path: "/keys/sa.json".to_string(),
        default_service_name: Some("default-svc".to_string()),
    }
}

fn message_of(c: &Command) -> String {
    match c {
        Command::Log(e) => e.message.clone(),
        _ => panic!("expected a log command"),
    }
}

#[test]
fn queue_keeps_order_of_one_producer() {
    let (client, mut rx) =
        ObservabilityClient::new("proj".to_string(), "/keys/sa.json".to_string(), None);
    for i in 0..50 {
        let msg = format!("m{}", i);
        assert!(client.send_log(LogEntry::new("INFO", &msg)).is_ok());
    }
    for i in 0..50 {
        let c = rx.try_recv().expect("queued command");
        assert_eq!(message_of(&c), format!("m{}", i));
    }
    assert!(rx.try_recv().is_err());
}

#[test]
fn enqueue_beyond_capacity_fails_at_once() {
    let (client, _rx) =
        ObservabilityClient::new("proj".to_string(), "/keys/sa.json".to_string(), None);
    assert_eq!(QUEUE_CAPACITY, 1027);
    for _ in 0..QUEUE_CAPACITY {
        assert!(client.send_log(LogEntry::new("INFO", "x")).is_ok());
    }
    match client.send_log(LogEntry::new("INFO", "one too many")) {
        Err(ObservabilityError::ApiError(m)) => {
            assert_eq!(m, "Failed to queue log entry: queue is full")
        }
        other => panic!("unexpected {:?}", other),
    }
    match client.send_metric(MetricData::new("m", 1.0f64.to_bits(), "INT64", "GAUGE")) {
        Err(ObservabilityError::ApiError(m)) => assert_eq!(m, "Failed to queue metric: queue is full"),
        other => panic!("unexpected {:?}", other),
    }
}

#[test]
fn enqueue_after_worker_gone_fails() {
    let (client, rx) =
        ObservabilityClient::new("proj".to_string(), "/keys/sa.json".to_string(), None);
    drop(rx);
    match client.shutdown() {
        Err(ObservabilityError::ApiError(m)) => {
            assert_eq!(m, "Failed to queue shutdown: worker has stopped")
        }
        other => panic!("unexpected {:?}", other),
    }
    let span = TraceSpan::new("t".to_string(), "s".to_string(), "op", 0, 1);
    match client.send_trace(span) {
        Err(ObservabilityError::ApiError(m)) => {
            assert_eq!(m, "Failed to queue trace span: worker has stopped")
        }
        other => panic!("unexpected {:?}", other),
    }
}

#[test]
fn enqueue_outcome_maps_refusals() {
    assert!(enqueue_outcome(Ok(()), "x").is_ok());
    match enqueue_outcome(Err(QueueRefusal::Full), "x") {
        Err(ObservabilityError::ApiError(m)) => assert_eq!(m, "Failed to queue x: queue is full"),
        other => panic!("unexpected {:?}", other),
    }
    match enqueue_outcome(Err(QueueRefusal::Closed), "x") {
        Err(ObservabilityError::ApiError(m)) => {
            assert_eq!(m, "Failed to queue x: worker has stopped")
        }
        other => panic!("unexpected {:?}", other),
    }
}

#[test]
fn worker_executes_in_order_and_stops_at_shutdown() {
    let (client, mut rx) =
        ObservabilityClient::new("proj".to_string(), "/keys/sa.json".to_string(), None);
    for i in 0..3 {
        client.send_log(LogEntry::new("INFO", &format!("before{}", i))).unwrap();
    }
    client.shutdown().unwrap();
    client.send_log(LogEntry::new("INFO", "after")).unwrap();

    let context = ctx();
    let mut worker = Worker::new();
    let mut delivered = Vec::new();
    loop {
        let received = rx.try_recv().ok();
        match worker.step(received, &context, 1_000) {
            WorkerAction::Submit(d) => match d.payload {
                Payload::Log(p) => delivered.push(p.text),
                _ => panic!("expected a log payload"),
            },
            WorkerAction::Discard(e) => panic!("unexpected {:?}", e),
            WorkerAction::Stop => break,
        }
    }
    assert!(worker.stopped);
    assert_eq!(delivered, vec!["before0", "before1", "before2"]);
    // The command behind the shutdown is still queued and never executed.
    assert_eq!(message_of(&rx.try_recv().unwrap()), "after");
}

#[test]
fn worker_stops_when_queue_is_closed_and_drained() {
    let mut worker = Worker::new();
    let context = ctx();
    let a = worker.step(Some(Command::Log(LogEntry::new("INFO", "only"))), &context, 5);
    assert!(matches!(a, WorkerAction::Submit(_)));
    assert!(!worker.stopped);
    let b = worker.step(None, &context, 5);
    assert!(matches!(b, WorkerAction::Stop));
    assert!(worker.stopped);
}

#[test]
fn worker_discards_unplannable_record() {
    let mut worker = Worker::new();
    let context = ctx();
    let a = worker.step(
        Some(Command::Log(LogEntry::new("INFO", "late"))),
        &context,
        9_000_000_000_000_000,
    );
    match a {
        WorkerAction::Discard(ObservabilityError::ApiError(m)) => {
            assert_eq!(m, "timestamp out of range")
        }
        _ => panic!("expected the error to be discarded"),
    }
    assert!(!worker.stopped);
}

#[test]
fn shutdown_command_plans_to_shutdown_signal() {
    let r = Command::Shutdown.plan(&ctx(), 0);
    match r {
        Err(e) => assert!(e.is_shutdown()),
        Ok(_) => panic!("shutdown must not plan a delivery"),
    }
    assert!(Command::Shutdown.is_shutdown());
    assert!(!Command::Log(LogEntry::new("INFO", "x")).is_shutdown());
}

#[test]
fn client_keeps_its_context() {
    let (client, _rx) = ObservabilityClient::new(
        "proj".to_string(),
        "/keys/sa.json".to_string(),
        Some("svc".to_string()),
    );
    let c = client.context();
    assert_eq!(c.project_id, "proj");
    assert_eq!(c.service_account_path, "/keys/sa.json");
    assert_eq!(c.default_service_name.as_deref(), Some("svc"));
}

#[test]
fn rate_limit_refuses_calls_within_window() {
    let (mut client, _rx) =
        ObservabilityClient::new("proj".to_string(), "/keys/sa.json".to_string(), None);
    assert!(client.check_rate_limit_at("logging", 1_000).is_ok());
    match client.check_rate_limit_at("logging", 1_199) {
        Err(ObservabilityError::RateLimitError(m)) => {
            assert_eq!(m, "Rate limit exceeded for logging")
        }
        other => panic!("unexpected {:?}", other),
    }
    // Other kinds are throttled on their own.
    assert!(client.check_rate_limit_at("tracing", 1_100).is_ok());
    // The refused call did not move the window.
    assert!(client.check_rate_limit_at("logging", 1_200).is_ok());
    assert!(client.check_rate_limit_at("logging", 1_300).is_err());
    // A clock that went back does not throttle.
    assert!(client.check_rate_limit_at("logging", 10).is_ok());
    // The first call of a kind recorded at time 0 never throttles the next.
    assert!(client.check_rate_limit_at("monitoring", 0).is_ok());
    assert!(client.check_rate_limit_at("monitoring", 1).is_ok());
}

#[test]
fn rate_limit_at_wall_clock() {
    let (mut client, _rx) =
        ObservabilityClient::new("proj".to_string(), "/keys/sa.json".to_string(), None);
    assert!(client.check_rate_limit("logging").is_ok());
    match client.check_rate_limit("logging") {
        Err(ObservabilityError::RateLimitError(m)) => {
            assert_eq!(m, "Rate limit exceeded for logging")
        }
        other => panic!("unexpected {:?}", other),
    }
}
