use kiro_supervisor::credentials::AccountRecord;
use kiro_supervisor::errors::ServerError;
use kiro_supervisor::supervisor::{ServerProcessState, ServerStatus, StartDecision};

fn account(token: Option<&str>, status: &str, provider: Option<&str>) -> AccountRecord {
    AccountRecord {
        refresh_token: token.map(|t| t.to_string()),
        status: status.to_string(),
        provider: provider.map(|p| p.to_string()),
    }
}

fn env_value(env: &[(String, String)], name: &str) -> Option<String> {
    env.iter().find(|(n, _)| n == name).map(|(_, v)| v.clone())
}

#[test]
fn new_supervisor_is_stopped_with_no_worker() {
    let s = ServerProcessState::new();
    assert_eq!(s.get_server_status(), ServerStatus::Stopped);
    assert_eq!(s.child_process, None);
}

#[test]
fn start_with_one_idc_account_builds_the_environment() {
    let mut s = ServerProcessState::new();
    let accounts = vec![account(Some("abc"), "active", Some("idc"))];
    let data_dir = Some("/tmp/appdata".to_string());
    let decision = s.begin_start(&accounts, &data_dir).unwrap();
    let env = match decision {
        StartDecision::Launch(env) => env,
        StartDecision::AlreadyActive => panic!("expected a launch"),
    };
    assert_eq!(s.get_server_status(), ServerStatus::Starting);
    assert_eq!(
        env_value(&env, "KIRO_AUTH_TOKEN").unwrap(),
        r#"[{"auth":"IdC","refreshToken":"abc"}]"#
    );
    assert_eq!(env_value(&env, "PORT").unwrap(), "7860");
    assert_eq!(env_value(&env, "KIRO_CLIENT_TOKEN").unwrap(), "local-sidecar-token");
    assert_eq!(env_value(&env, "KIRO_KV_PATH").unwrap(), "/tmp/appdata/kiro_server.kv");
    assert_eq!(env.len(), 4);

    let r = s.finish_start(Ok(4242));
    assert!(r.is_ok());
    assert_eq!(s.get_server_status(), ServerStatus::Running);
    assert_eq!(s.child_process, Some(4242));
}

#[test]
fn start_without_data_dir_omits_the_storage_path() {
    let mut s = ServerProcessState::new();
    let accounts = vec![account(Some("abc"), "active", None)];
    let decision = s.begin_start(&accounts, &None).unwrap();
    let env = match decision {
        StartDecision::Launch(env) => env,
        StartDecision::AlreadyActive => panic!("expected a launch"),
    };
    assert_eq!(env_value(&env, "KIRO_KV_PATH"), None);
    assert_eq!(env.len(), 3);
}

#[test]
fn start_without_eligible_accounts_is_refused_and_changes_nothing() {
    let mut s = ServerProcessState::new();
    let accounts = vec![account(None, "active", None)];
    let r = s.begin_start(&accounts, &None);
    assert_eq!(r.unwrap_err(), ServerError::EmptyCredentials);
    assert_eq!(s.get_server_status(), ServerStatus::Stopped);
    assert_eq!(s.child_process, None);
}

#[test]
fn start_while_running_is_a_no_op() {
    let mut s = ServerProcessState::new();
    let accounts = vec![account(Some("abc"), "active", None)];
    s.begin_start(&accounts, &None).unwrap();
    s.finish_start(Ok(7)).unwrap();
    let r = s.begin_start(&accounts, &None).unwrap();
    assert!(matches!(r, StartDecision::AlreadyActive));
    assert_eq!(s.get_server_status(), ServerStatus::Running);
    assert_eq!(s.child_process, Some(7));
}

#[test]
fn start_while_starting_is_a_no_op() {
    let mut s = ServerProcessState::new();
    let accounts = vec![account(Some("abc"), "active", None)];
    s.begin_start(&accounts, &None).unwrap();
    assert_eq!(s.get_server_status(), ServerStatus::Starting);
    let r = s.begin_start(&accounts, &None).unwrap();
    assert!(matches!(r, StartDecision::AlreadyActive));
    assert_eq!(s.get_server_status(), ServerStatus::Starting);
}

#[test]
fn spawn_failure_moves_to_error_and_surfaces_the_message() {
    let mut s = ServerProcessState::new();
    let accounts = vec![account(Some("abc"), "active", None)];
    s.begin_start(&accounts, &None).unwrap();
    let r = s.finish_start(Err("no such binary".to_string()));
    assert_eq!(r.unwrap_err(), ServerError::SpawnFailure("no such binary".to_string()));
    assert_eq!(s.get_server_status(), ServerStatus::Error);
    assert_eq!(s.child_process, None);
}

#[test]
fn start_is_allowed_again_after_an_error() {
    let mut s = ServerProcessState::new();
    let accounts = vec![account(Some("abc"), "active", None)];
    s.begin_start(&accounts, &None).unwrap();
    s.finish_start(Err("boom".to_string())).unwrap_err();
    let r = s.begin_start(&accounts, &None).unwrap();
    assert!(matches!(r, StartDecision::Launch(_)));
    assert_eq!(s.get_server_status(), ServerStatus::Starting);
}

#[test]
fn stop_while_stopped_is_a_no_op() {
    let mut s = ServerProcessState::new();
    let pid = s.stop();
    assert_eq!(pid, None);
    assert_eq!(s.get_server_status(), ServerStatus::Stopped);
    assert_eq!(s.child_process, None);
}

#[test]
fn stop_while_running_clears_the_worker() {
    let mut s = ServerProcessState::new();
    let accounts = vec![account(Some("abc"), "active", None)];
    s.begin_start(&accounts, &None).unwrap();
    s.finish_start(Ok(99)).unwrap();
    let pid = s.stop();
    assert_eq!(pid, Some(99));
    assert_eq!(s.get_server_status(), ServerStatus::Stopped);
    assert_eq!(s.child_process, None);
}
