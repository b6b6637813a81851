use agent_ffi::finish_stop;
use agent_ffi::Config;
use agent_ffi::ControlState;
use agent_ffi::SessionState;
use agent_ffi::StartOutcome;
use agent_ffi::StatusSnapshot;

fn sample_config() -> Config {
    Config {
        secret_key: String::from("SECRET-REDACTED"),
        api_url: None,
        poll_interval_ms: None,
    }
}

fn outcome_code(o: &StartOutcome) -> i32 {
    o.code_value()
}

#[test]
fn init_then_query_is_stopped() {
    let mut ctrl = ControlState::new();
    let mut snapshot = StatusSnapshot::new();
    ctrl.apply_init(&mut snapshot, sample_config());
    let status = snapshot.query_status();
    assert_eq!(status.code, 0);
    assert!(status.last_address.is_none());
    assert!(status.last_error.is_none());
}

#[test]
fn init_clears_prior_error_and_address() {
    let mut ctrl = ControlState::new();
    let mut snapshot = StatusSnapshot::new();
    snapshot.record_error(b"boom".to_vec());
    ctrl.apply_init(&mut snapshot, sample_config());
    let status = snapshot.query_status();
    assert_eq!(status.code, 0);
    assert!(status.last_address.is_none());
    assert!(status.last_error.is_none());
}

#[test]
fn start_without_init_is_not_configured() {
    let mut ctrl = ControlState::new();
    let mut snapshot = StatusSnapshot::new();
    let outcome = ctrl.apply_start(&mut snapshot);
    assert_eq!(outcome_code(&outcome), -1);
    assert!(matches!(ctrl.session, SessionState::Idle));
}

#[test]
fn start_twice_is_already_running() {
    let mut ctrl = ControlState::new();
    let mut snapshot = StatusSnapshot::new();
    ctrl.apply_init(&mut snapshot, sample_config());
    let first = ctrl.apply_start(&mut snapshot);
    assert_eq!(outcome_code(&first), 0);
    let second = ctrl.apply_start(&mut snapshot);
    assert_eq!(outcome_code(&second), -2);
    assert!(matches!(ctrl.session, SessionState::Running));
}

#[test]
fn start_returns_the_stored_config() {
    let mut ctrl = ControlState::new();
    let mut snapshot = StatusSnapshot::new();
    ctrl.apply_init(
        &mut snapshot,
        Config {
            secret_key: String::from("SECRET-REDACTED"),
            api_url: Some(String::from("https://example.invalid")),
            poll_interval_ms: Some(250),
        },
    );
    match ctrl.apply_start(&mut snapshot) {
        StartOutcome::Started(config) => {
            assert_eq!(config.secret_key, "SECRET-REDACTED");
            assert_eq!(config.api_url.as_deref(), Some("https://example.invalid"));
            assert_eq!(config.poll_interval_ms, Some(250));
        }
        _ => panic!("start should have been permitted"),
    }
}

#[test]
fn start_publishes_connecting() {
    let mut ctrl = ControlState::new();
    let mut snapshot = StatusSnapshot::new();
    ctrl.apply_init(&mut snapshot, sample_config());
    let outcome = ctrl.apply_start(&mut snapshot);
    assert_eq!(outcome_code(&outcome), 0);
    let status = snapshot.query_status();
    assert_eq!(status.code, 1);
    assert!(status.last_address.is_none());
    assert!(status.last_error.is_none());
}

#[test]
fn stop_when_idle_is_a_no_op() {
    let mut ctrl = ControlState::new();
    let mut snapshot = StatusSnapshot::new();
    ctrl.apply_init(&mut snapshot, sample_config());
    let before = snapshot.query_status();
    let was_running = ctrl.apply_stop();
    assert!(!was_running);
    let after = snapshot.query_status();
    assert_eq!(before.code, after.code);
    assert_eq!(before.last_address, after.last_address);
    assert_eq!(before.last_error, after.last_error);
    assert_eq!(after.code, 0);
    assert!(matches!(ctrl.session, SessionState::Idle));
}

#[test]
fn stop_moves_a_running_session_to_stopping() {
    let mut ctrl = ControlState::new();
    let mut snapshot = StatusSnapshot::new();
    ctrl.apply_init(&mut snapshot, sample_config());
    assert_eq!(outcome_code(&ctrl.apply_start(&mut snapshot)), 0);
    let was_running = ctrl.apply_stop();
    assert!(was_running);
    assert!(matches!(ctrl.session, SessionState::Stopping));
    assert!(!ctrl.has_stop_channel);
    assert!(!ctrl.has_keep_running);
}

#[test]
fn start_during_stopping_is_rejected() {
    let mut ctrl = ControlState::new();
    let mut snapshot = StatusSnapshot::new();
    ctrl.apply_init(&mut snapshot, sample_config());
    assert_eq!(outcome_code(&ctrl.apply_start(&mut snapshot)), 0);
    assert!(ctrl.apply_stop());
    // The worker's exit has not landed: a start here must be refused.
    let outcome = ctrl.apply_start(&mut snapshot);
    assert_eq!(outcome_code(&outcome), -2);
    assert!(matches!(ctrl.session, SessionState::Stopping));
}

#[test]
fn second_stop_during_stopping_is_a_no_op() {
    let mut ctrl = ControlState::new();
    let mut snapshot = StatusSnapshot::new();
    ctrl.apply_init(&mut snapshot, sample_config());
    assert_eq!(outcome_code(&ctrl.apply_start(&mut snapshot)), 0);
    assert!(ctrl.apply_stop());
    assert!(!ctrl.apply_stop());
    assert!(matches!(ctrl.session, SessionState::Stopping));
}

#[test]
fn stop_then_restart_succeeds() {
    let mut ctrl = ControlState::new();
    let mut snapshot = StatusSnapshot::new();
    ctrl.apply_init(&mut snapshot, sample_config());
    assert_eq!(outcome_code(&ctrl.apply_start(&mut snapshot)), 0);
    let was_running = ctrl.apply_stop();
    assert!(was_running);
    // The worker exits and the stopping caller's rendezvous completes:
    ctrl.worker_cleanup();
    finish_stop(&mut snapshot);
    let status = snapshot.query_status();
    assert_eq!(status.code, 0);
    assert!(status.last_address.is_none());
    assert!(status.last_error.is_none());
    assert_eq!(outcome_code(&ctrl.apply_start(&mut snapshot)), 0);
}

#[test]
fn finish_stop_forces_stopped_after_late_publication() {
    let mut ctrl = ControlState::new();
    let mut snapshot = StatusSnapshot::new();
    ctrl.apply_init(&mut snapshot, sample_config());
    assert_eq!(outcome_code(&ctrl.apply_start(&mut snapshot)), 0);
    assert!(ctrl.apply_stop());
    // A worker mid-poll may still publish before it notices the stop:
    snapshot.set_status(
        agent_ffi::PlayitStatusCode::Connected,
        Some(b"late.example".to_vec()),
        None,
    );
    ctrl.worker_cleanup();
    finish_stop(&mut snapshot);
    let status = snapshot.query_status();
    assert_eq!(status.code, 0);
    assert!(status.last_address.is_none());
}

#[test]
fn worker_cleanup_keeps_published_status() {
    let mut ctrl = ControlState::new();
    let mut snapshot = StatusSnapshot::new();
    ctrl.apply_init(&mut snapshot, sample_config());
    assert_eq!(outcome_code(&ctrl.apply_start(&mut snapshot)), 0);
    ctrl.mark_agent_live();
    assert!(ctrl.has_keep_running);
    snapshot.record_error(b"failed to load run data".to_vec());
    ctrl.worker_cleanup();
    assert!(matches!(ctrl.session, SessionState::Idle));
    assert!(!ctrl.has_stop_channel);
    assert!(!ctrl.has_keep_running);
    let status = snapshot.query_status();
    assert_eq!(status.code, 4);
    assert_eq!(status.last_error.as_deref(), Some(b"failed to load run data".as_slice()));
}

#[test]
fn worker_cleanup_leaves_an_idle_record_alone() {
    let mut ctrl = ControlState::new();
    let mut snapshot = StatusSnapshot::new();
    ctrl.apply_init(&mut snapshot, sample_config());
    ctrl.worker_cleanup();
    assert!(matches!(ctrl.session, SessionState::Idle));
    assert!(ctrl.config.is_some());
    let status = snapshot.query_status();
    assert_eq!(status.code, 0);
}

#[test]
fn effective_settings_use_defaults() {
    let config = sample_config();
    assert_eq!(config.effective_api_url(), "https://api.playit.gg");
    assert_eq!(config.effective_poll_interval_ms(), 3000);
}

#[test]
fn effective_settings_use_overrides() {
    let config = Config {
        secret_key: String::from("SECRET-REDACTED"),
        api_url: Some(String::from("https://example.invalid")),
        poll_interval_ms: Some(100),
    };
    assert_eq!(config.effective_api_url(), "https://example.invalid");
    assert_eq!(config.effective_poll_interval_ms(), 100);
}

#[test]
fn init_while_running_keeps_the_session() {
    let mut ctrl = ControlState::new();
    let mut snapshot = StatusSnapshot::new();
    ctrl.apply_init(&mut snapshot, sample_config());
    assert_eq!(outcome_code(&ctrl.apply_start(&mut snapshot)), 0);
    ctrl.apply_init(&mut snapshot, sample_config());
    // The active session is neither stopped nor forgotten; a start is still
    // refused until it winds down.
    assert!(matches!(ctrl.session, SessionState::Running));
    assert!(ctrl.has_stop_channel);
    assert_eq!(outcome_code(&ctrl.apply_start(&mut snapshot)), -2);
    let status = snapshot.query_status();
    assert_eq!(status.code, 0);
}
