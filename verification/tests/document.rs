use federog::account::Account;
use federog::actor::{build_local_actor, local_actor_addresses, LocalActor, SingleActorDispatcher};
use federog::document::{actor_document, actor_json};
use federog::replies::Status;

const DOCUMENT: &str = r#"{
    "@context": ["https://www.w3.org/ns/activitystreams", "https://w3id.org/security/v1"],
    "type": "Person",
    "id": "https://blog.example/users/alice",
    "inbox": "https://blog.example/users/alice/inbox",
    "outbox": "https://blog.example/users/alice/outbox",
    "followers": "https://blog.example/users/alice/followers",
    "preferredUsername": "alice",
    "name": "Alice \"A\"",
    "endpoints": {"sharedInbox": "https://blog.example/inbox"},
    "publicKey": {
        "id": "https://blog.example/users/alice#main-key",
        "type": "CryptographicKey",
        "owner": "https://blog.example/users/alice",
        "publicKeyPem": "PEM"
    }
}"#;

fn alice() -> LocalActor {
    let account = Account {
        username: "alice".to_string(),
        name: Some("Alice \"A\"".to_string()),
        handle: "@alice@blog.example".to_string(),
    };
    let addresses = local_actor_addresses(&account, Some("https://blog.example")).unwrap();
    build_local_actor(&account, addresses, "PEM".to_string()).unwrap()
}

fn expected() -> serde_json::Value {
    serde_json::from_str(DOCUMENT).unwrap()
}

#[test]
fn an_actor_has_a_document() {
    assert_eq!(actor_document(&alice()).unwrap(), expected());
    assert_eq!(alice().key_owner().as_str(), "https://blog.example/users/alice");
}

#[test]
fn a_document_reads_back_as_the_actor() {
    let document = actor_document(&alice()).unwrap();
    let actor: feder_vocab::Actor = serde_json::from_value(document.clone()).unwrap();
    assert_eq!(actor.id.as_str(), "https://blog.example/users/alice");
    assert_eq!(actor.preferred_username.as_deref(), Some("alice"));
    assert_eq!(serde_json::to_value(&actor).unwrap(), document);
}

#[test]
fn a_served_document_names_its_page() {
    let actors = SingleActorDispatcher { actor: Some(alice()) };
    let served = actor_json(&actors, "alice").unwrap();
    assert_eq!(served["url"], served["id"]);
    assert_eq!(served["publicKey"]["publicKeyPem"], "PEM");
    let mut document = expected();
    document["url"] = document["id"].clone();
    assert_eq!(served, document);
}

#[test]
fn only_a_published_actor_has_a_served_document() {
    let actors = SingleActorDispatcher { actor: Some(alice()) };
    assert_eq!(actor_json(&actors, "bob").err(), Some(Status::InternalServerError));
    let none = SingleActorDispatcher { actor: None };
    assert_eq!(actor_json(&none, "alice").err(), Some(Status::InternalServerError));
}
