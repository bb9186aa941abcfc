use gcp_observability::auth::{
    bearer_header, has_active_identity, is_expiry_message, mentions_expiry_text, setup_next,
};
use gcp_observability::transport::{is_auth_status_text, is_success_status_text, reply_from_output};
use gcp_observability::{
    HttpReply, ObservabilityError, SetupStage, SubmitAttempt, SubmitStep, TokenAttempt, TokenKind,
    TokenStep, MAX_RETRIES,
};

fn reply(status: &str) -> HttpReply {
    HttpReply { completed: true, status: status.to_string(), body: format!("body {}", status) }
}

/// Runs a submission against the given replies; returns whether it was
/// delivered, the number of refreshes, and the error if any.
fn run(replies: &[HttpReply]) -> (bool, u32, Option<ObservabilityError>) {
    let mut attempt = SubmitAttempt::new();
    let mut refreshes = 0;
    for r in replies {
        match attempt.on_reply("Log", r) {
            SubmitStep::Delivered => return (true, refreshes, None),
            SubmitStep::RefreshAndRetry => refreshes += 1,
            SubmitStep::Failed(e) => return (false, refreshes, Some(e)),
        }
    }
    panic!("ran out of replies")
}

#[test]
fn refused_once_then_accepted_refreshes_once() {
    let (ok, refreshes, err) = run(&[reply("401"), reply("200")]);
    assert!(ok);
    assert_eq!(refreshes, 1);
    assert!(err.is_none());
}

#[test]
fn persistent_refusal_fails_after_max_retries() {
    assert_eq!(MAX_RETRIES, 2);
    let (ok, refreshes, err) = run(&[reply("403"), reply("403"), reply("403"), reply("200")]);
    assert!(!ok);
    assert_eq!(refreshes, MAX_RETRIES);
    match err {
        Some(ObservabilityError::ApiError(m)) => {
            assert_eq!(m, "Log API call failed with status 403: body 403")
        }
        other => panic!("unexpected {:?}", other),
    }
}

#[test]
fn other_errors_are_not_retried() {
    let (ok, refreshes, err) = run(&[reply("500"), reply("200")]);
    assert!(!ok);
    assert_eq!(refreshes, 0);
    match err {
        Some(ObservabilityError::ApiError(m)) => {
            assert_eq!(m, "Log API call failed with status 500: body 500")
        }
        other => panic!("unexpected {:?}", other),
    }
    let unsent = HttpReply { completed: false, status: String::new(), body: "no route".to_string() };
    let (ok, _, err) = run(&[unsent]);
    assert!(!ok);
    match err {
        Some(ObservabilityError::ApiError(m)) => assert_eq!(m, "Log request could not be sent: no route"),
        other => panic!("unexpected {:?}", other),
    }
}

#[test]
fn status_classes() {
    assert!(is_success_status_text("200"));
    assert!(is_success_status_text("204"));
    assert!(!is_success_status_text("210"));
    assert!(!is_success_status_text("2"));
    assert!(is_auth_status_text("401"));
    assert!(is_auth_status_text("403"));
    assert!(!is_auth_status_text("4010"));
    assert!(!is_auth_status_text("404"));
    // An incomplete call is never a success, whatever its status says.
    let mut a = SubmitAttempt::new();
    let r = HttpReply { completed: false, status: "200".to_string(), body: String::new() };
    assert!(matches!(a.on_reply("Metric", &r), SubmitStep::Failed(_)));
}

#[test]
fn expired_login_is_reinstalled_once() {
    let mut t = TokenAttempt::new(TokenKind::Access);
    let msg = "ERROR: Reauthentication failed. Token EXPIRED.";
    assert!(matches!(t.on_failure(msg), TokenStep::Reinstall));
    assert!(t.reinstalled);
    match t.on_failure(msg) {
        TokenStep::Failed(ObservabilityError::ApiError(m)) => {
            assert_eq!(m, format!("Failed to get access token: {}", msg))
        }
        _ => panic!("second expiry must fail"),
    }
}

#[test]
fn other_token_failures_surface_at_once() {
    let mut t = TokenAttempt::new(TokenKind::Identity);
    match t.on_failure("network unreachable") {
        TokenStep::Failed(ObservabilityError::ApiError(m)) => {
            assert_eq!(m, "Failed to get identity token: network unreachable")
        }
        _ => panic!("must fail"),
    }
    assert!(!t.reinstalled);
}

#[test]
fn expiry_words_in_any_case() {
    assert!(is_expiry_message("You are Not Logged In"));
    assert!(is_expiry_message("AUTHENTICATION required"));
    assert!(!is_expiry_message("quota exceeded"));
    assert!(mentions_expiry_text("token expired"));
    // The lower-case check alone does not fold case.
    assert!(!mentions_expiry_text("token EXPIRED"));
}

#[test]
fn bearer_header_trims_printed_token() {
    assert_eq!(bearer_header("  ya29.abc\n"), "Bearer ya29.abc");
}

#[test]
fn setup_runs_in_order_and_fails_atomically() {
    assert_eq!(setup_next(SetupStage::CheckTool, true, "").unwrap(), SetupStage::Activate);
    assert_eq!(setup_next(SetupStage::CheckTool, false, "").unwrap(), SetupStage::InstallTool);
    assert_eq!(setup_next(SetupStage::InstallTool, true, "").unwrap(), SetupStage::Activate);
    assert_eq!(setup_next(SetupStage::Activate, true, "").unwrap(), SetupStage::BindProject);
    assert_eq!(setup_next(SetupStage::BindProject, true, "").unwrap(), SetupStage::Verify);
    assert_eq!(setup_next(SetupStage::Verify, true, "").unwrap(), SetupStage::Ready);
    match setup_next(SetupStage::InstallTool, false, "") {
        Err(ObservabilityError::SetupError(m)) => assert!(m.starts_with("Failed to install gcloud CLI.")),
        other => panic!("unexpected {:?}", other),
    }
    match setup_next(SetupStage::Activate, false, "bad key") {
        Err(ObservabilityError::AuthenticationError(m)) => {
            assert_eq!(m, "Failed to authenticate with service account: bad key")
        }
        other => panic!("unexpected {:?}", other),
    }
    match setup_next(SetupStage::BindProject, false, "no such project") {
        Err(ObservabilityError::AuthenticationError(m)) => {
            assert_eq!(m, "Failed to set project: no such project")
        }
        other => panic!("unexpected {:?}", other),
    }
    match setup_next(SetupStage::Verify, false, "") {
        Err(ObservabilityError::AuthenticationError(m)) => {
            assert_eq!(m, "Authentication verification failed")
        }
        other => panic!("unexpected {:?}", other),
    }
}

#[test]
fn active_identity_listing() {
    assert!(has_active_identity(r#"[{"account": "a@b", "status": "ACTIVE"}]"#));
    assert!(!has_active_identity("[]"));
}

#[test]
fn error_descriptions() {
    assert_eq!(ObservabilityError::ApiError("x".to_string()).describe(), "API error: x");
    assert_eq!(
        ObservabilityError::AuthenticationError("y".to_string()).describe(),
        "Authentication error: y"
    );
    assert_eq!(ObservabilityError::SetupError("z".to_string()).describe(), "Setup error: z");
    assert_eq!(
        ObservabilityError::RateLimitError("w".to_string()).describe(),
        "Rate limit error: w"
    );
    assert_eq!(ObservabilityError::Shutdown.describe(), "Shutdown requested");
    assert!(ObservabilityError::Shutdown.is_shutdown());
    assert!(!ObservabilityError::ApiError(String::new()).is_shutdown());
}

#[test]
fn reply_is_read_from_tool_output() {
    let r = reply_from_output(true, "{\"a\":1}\nline two\n401", "");
    assert!(r.completed);
    assert_eq!(r.status, "401");
    assert_eq!(r.body, "{\"a\":1}\nline two");
    let r = reply_from_output(true, "200", "");
    assert_eq!(r.status, "200");
    assert_eq!(r.body, "");
    let r = reply_from_output(false, "ignored", "could not resolve host");
    assert!(!r.completed);
    assert_eq!(r.body, "could not resolve host");
    assert_eq!(r.status, "");
}
