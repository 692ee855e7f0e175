use federog::account::Account;
use federog::address::{AddressError, OriginError};
use federog::replies::StoreError;
use federog::startup::{actor_with_key, ready, starting_account, KeyRequest, StartError};

const ORIGIN: Option<&str> = Some("https://blog.example:8443");

fn alice() -> Account {
    Account {
        username: "alice".to_string(),
        name: Some("Alice".to_string()),
        handle: "@alice@blog.example".to_string(),
    }
}

fn request() -> KeyRequest {
    starting_account(Ok(Some(alice())), ORIGIN).unwrap().unwrap()
}

#[test]
fn a_start_publishes_the_stored_account() {
    let waiting = request();
    assert_eq!(waiting.addresses.id.as_str(), "https://blog.example:8443/users/alice");
    let actor = actor_with_key(waiting, Ok("PEM".to_string())).unwrap();
    let started = ready(Some(actor), ORIGIN).unwrap();
    assert_eq!(started.handle_host, "blog.example:8443");
    let actor = started.actors.get_actor("alice").unwrap();
    assert_eq!(actor.addresses.id.as_str(), "https://blog.example:8443/users/alice");
    assert_eq!(actor.public_key_pem, "PEM");
    assert!(started.actors.get_actor("bob").is_none());
}

#[test]
fn a_new_blog_starts_without_an_actor() {
    assert!(starting_account(Ok(None), ORIGIN).unwrap().is_none());
    assert!(starting_account(Ok(None), Some("nowhere")).unwrap().is_none());
    let started = ready(None, ORIGIN).unwrap();
    assert!(started.actors.get_actor("alice").is_none());
}

#[test]
fn a_start_needs_its_store_and_an_origin() {
    assert!(matches!(starting_account(Err(StoreError), ORIGIN), Err(StartError::Store)));
    assert!(matches!(actor_with_key(request(), Err(StoreError)), Err(StartError::Store)));
    assert!(matches!(
        starting_account(Ok(Some(alice())), Some("nowhere")),
        Err(StartError::Address(AddressError::Origin(OriginError::Unparsable)))
    ));
    assert!(matches!(
        ready(None, Some("https://blog.example/path")),
        Err(StartError::Origin(OriginError::NotAnOrigin))
    ));
}

#[test]
fn a_restart_publishes_the_same_actor() {
    let publish = || actor_with_key(request(), Ok("PEM".to_string())).unwrap();
    assert_eq!(format!("{:?}", publish()), format!("{:?}", publish()));
}
