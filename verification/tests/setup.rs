use axum::http::{HeaderMap, HeaderValue};
use federog::account::Account;
use federog::replies::{Reply, StoreError};
use federog::setup::{
    account_ready, account_stored, create_account, new_account, AccountRecord, SetupForm, SetupStep,
    StoredStep,
};

fn form(username: &str, name: &str) -> SetupForm {
    SetupForm { username: username.to_string(), name: name.to_string() }
}

fn forwarded() -> HeaderMap {
    let mut headers = HeaderMap::new();
    headers.insert("host", HeaderValue::from_static("127.0.0.1:3001"));
    headers.insert("x-forwarded-host", HeaderValue::from_static("blog.example"));
    headers.insert("x-forwarded-proto", HeaderValue::from_static("https"));
    headers
}

fn alice() -> AccountRecord {
    new_account(&form(" alice ", " Alice "), "https://blog.example", "blog.example").unwrap()
}

fn leads_to(step: SetupStep, path: &str) -> bool {
    matches!(step, SetupStep::Answer(Reply::Redirect(to)) if to == path)
}

#[test]
fn a_form_becomes_an_account() {
    match create_account(Ok(None), &form(" alice\n", "\tAlice B "), &forwarded()) {
        SetupStep::Store(record) => {
            assert_eq!(record.username, "alice");
            assert_eq!(record.name, "Alice B");
            assert_eq!(record.handle, "@alice@blog.example");
            assert_eq!(record.uri, "https://blog.example/users/alice");
            assert_eq!(record.inbox_url, "https://blog.example/users/alice/inbox");
            assert_eq!(record.shared_inbox_url, "https://blog.example/inbox");
            assert_eq!(record.url, "https://blog.example/users/alice");
        }
        other => panic!("{other:?}"),
    }
}

#[test]
fn a_request_without_a_host_is_for_the_public_listener() {
    match create_account(Ok(None), &form("alice", "Alice"), &HeaderMap::new()) {
        SetupStep::Store(record) => {
            assert_eq!(record.uri, "http://0.0.0.0:3000/users/alice");
            assert_eq!(record.handle, "@alice@0.0.0.0:3000");
        }
        other => panic!("{other:?}"),
    }
}

#[test]
fn an_account_is_never_replaced() {
    let existing = Account {
        username: "bob".to_string(),
        name: None,
        handle: "@bob@blog.example".to_string(),
    };
    assert!(leads_to(create_account(Ok(Some(existing)), &form("alice", "Alice"), &forwarded()), "/"));
    assert!(leads_to(
        create_account(Err(StoreError), &form("alice", "Alice"), &forwarded()),
        "/setup"
    ));
}

#[test]
fn bad_forms_lead_back_to_the_form() {
    for (username, name) in [("Alice", "Alice"), ("", "Alice"), ("alice", ""), ("alice", " \n ")] {
        assert!(new_account(&form(username, name), "https://blog.example", "blog.example").is_none());
        assert!(leads_to(
            create_account(Ok(None), &form(username, name), &forwarded()),
            "/setup"
        ));
    }
}

#[test]
fn a_stored_account_is_published() {
    match account_stored(alice(), Ok(())) {
        StoredStep::Publish(account) => {
            assert_eq!(account.username, "alice");
            assert_eq!(account.name.as_deref(), Some("Alice"));
            assert_eq!(account.handle, "@alice@blog.example");
        }
        other => panic!("{other:?}"),
    }
    assert!(matches!(
        account_stored(alice(), Err(StoreError)),
        StoredStep::Answer(Reply::Redirect(to)) if to == "/setup"
    ));
    assert!(matches!(account_ready(), Reply::Redirect(to) if to == "/"));
}
