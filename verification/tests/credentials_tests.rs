use kiro_supervisor::credentials::{aggregate_credentials, AccountRecord, AuthKind};
use kiro_supervisor::errors::ServerError;

fn account(token: Option<&str>, status: &str, provider: Option<&str>) -> AccountRecord {
    AccountRecord {
        refresh_token: token.map(|t| t.to_string()),
        status: status.to_string(),
        provider: provider.map(|p| p.to_string()),
    }
}

#[test]
fn empty_list_is_refused() {
    let accounts: Vec<AccountRecord> = Vec::new();
    let r = aggregate_credentials(&accounts);
    assert_eq!(r.unwrap_err(), ServerError::EmptyCredentials);
}

#[test]
fn missing_token_is_refused() {
    let accounts = vec![account(None, "active", None)];
    let r = aggregate_credentials(&accounts);
    assert_eq!(r.unwrap_err(), ServerError::EmptyCredentials);
}

#[test]
fn empty_token_is_refused() {
    let accounts = vec![account(Some(""), "active", None)];
    let r = aggregate_credentials(&accounts);
    assert_eq!(r.unwrap_err(), ServerError::EmptyCredentials);
}

#[test]
fn banned_account_is_refused() {
    let accounts = vec![account(Some("abc"), "banned", Some("idc"))];
    let r = aggregate_credentials(&accounts);
    assert_eq!(r.unwrap_err(), ServerError::EmptyCredentials);
}

#[test]
fn one_credential_per_eligible_account_in_order() {
    let accounts = vec![
        account(Some("t1"), "active", Some("idc")),
        account(None, "active", Some("idc")),
        account(Some("t2"), "banned", Some("idc")),
        account(Some("t3"), "active", None),
        account(Some("t4"), "active", Some("social")),
    ];
    let configs = aggregate_credentials(&accounts).unwrap();
    assert_eq!(configs.len(), 3);
    assert_eq!(configs[0].refresh_token, "t1");
    assert_eq!(configs[0].auth, AuthKind::IdC);
    assert_eq!(configs[1].refresh_token, "t3");
    assert_eq!(configs[1].auth, AuthKind::Social);
    assert_eq!(configs[2].refresh_token, "t4");
    assert_eq!(configs[2].auth, AuthKind::Social);
}

#[test]
fn provider_matching_is_case_insensitive() {
    for p in ["idc", "IdC", "IDC", "iDc"] {
        let configs = aggregate_credentials(&vec![account(Some("t"), "active", Some(p))]).unwrap();
        assert_eq!(configs[0].auth, AuthKind::IdC, "provider {p}");
    }
    for p in ["id", "idcx", "social", ""] {
        let configs = aggregate_credentials(&vec![account(Some("t"), "active", Some(p))]).unwrap();
        assert_eq!(configs[0].auth, AuthKind::Social, "provider {p}");
    }
}

#[test]
fn error_messages_describe_the_failure() {
    assert_eq!(
        ServerError::EmptyCredentials.message(),
        "no eligible accounts; add an account before starting the server"
    );
    assert_eq!(ServerError::SpawnFailure("boom".to_string()).message(), "boom");
}
