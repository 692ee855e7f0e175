use federog::account::Account;
use federog::actor::{
    actor_addresses, actor_profile, actor_profile_at, assemble_local_actor, build_local_actor,
    following_record, gather_addresses, handle_text, local_actor_addresses, unresolved_actor_profile, RemoteActor,
    SingleActorDispatcher,
};
use federog::address::{parse_iri, AddressError, OriginError};

fn alice() -> Account {
    Account {
        username: "alice".to_string(),
        name: Some("Alice".to_string()),
        handle: "@alice@blog.example".to_string(),
    }
}

fn bob() -> RemoteActor {
    RemoteActor {
        id: "https://remote.example:8443/users/bob".to_string(),
        preferred_username: Some("bob".to_string()),
        name: Some("Bob".to_string()),
        inbox: "https://remote.example/users/bob/inbox".to_string(),
        shared_inbox: Some("https://remote.example/inbox".to_string()),
    }
}

#[test]
fn remote_actors_are_shown_with_their_handle() {
    let profile = actor_profile(&bob());
    assert_eq!(profile.uri, "https://remote.example:8443/users/bob");
    assert_eq!(profile.name.as_deref(), Some("Bob"));
    assert_eq!(profile.handle, "@bob@remote.example");
    assert_eq!(handle_text("bob", "remote.example"), "@bob@remote.example");
}

#[test]
fn actors_without_a_username_or_host_go_by_their_id() {
    let mut unnamed = bob();
    unnamed.preferred_username = None;
    unnamed.name = Some(String::new());
    let profile = actor_profile(&unnamed);
    assert_eq!(profile.handle, "https://remote.example:8443/users/bob");
    assert_eq!(profile.name, None);

    let mut hostless = bob();
    hostless.id = "urn:example:bob".to_string();
    assert_eq!(actor_profile(&hostless).handle, "urn:example:bob");
    let mut unparsable = bob();
    unparsable.id = "bob".to_string();
    assert_eq!(actor_profile(&unparsable).handle, "bob");
    assert_eq!(actor_profile_at(&bob(), None).handle, bob().id);
    assert_eq!(actor_profile_at(&bob(), Some("h")).handle, "@bob@h");
}

#[test]
fn unresolved_actors_are_shown_by_their_id() {
    let profile = unresolved_actor_profile("https://remote.example/users/bob");
    assert_eq!(profile.uri, "https://remote.example/users/bob");
    assert_eq!(profile.name, None);
    assert_eq!(profile.handle, "https://remote.example/users/bob");
}

#[test]
fn followed_actors_are_recorded_as_they_are_shown() {
    let follow = parse_iri("https://blog.example/users/alice/activities/follow/00ff").unwrap();
    let record = following_record(&bob(), &follow);
    let profile = actor_profile(&bob());
    assert_eq!(record.uri, profile.uri);
    assert_eq!(record.handle, profile.handle);
    assert_eq!(record.name, profile.name);
    assert_eq!(record.inbox_url, "https://remote.example/users/bob/inbox");
    assert_eq!(record.shared_inbox_url.as_deref(), Some("https://remote.example/inbox"));
    assert_eq!(record.url, record.uri);
    assert_eq!(
        record.follow_activity_id,
        "https://blog.example/users/alice/activities/follow/00ff"
    );
}

#[test]
fn the_local_actor_has_its_addresses_under_the_origin() {
    let addresses = local_actor_addresses(&alice(), Some("https://blog.example")).unwrap();
    assert_eq!(addresses.id.as_str(), "https://blog.example/users/alice");
    assert_eq!(addresses.inbox.as_str(), "https://blog.example/users/alice/inbox");
    assert_eq!(addresses.outbox.as_str(), "https://blog.example/users/alice/outbox");
    assert_eq!(addresses.followers.as_str(), "https://blog.example/users/alice/followers");
    assert_eq!(addresses.shared_inbox.as_str(), "https://blog.example/inbox");

    let actor = build_local_actor(&alice(), addresses, "PEM".to_string()).unwrap();
    assert_eq!(actor.preferred_username, "alice");
    assert_eq!(actor.name, "Alice");
    assert_eq!(actor.key_id.as_str(), "https://blog.example/users/alice#main-key");
    assert_eq!(actor.public_key_pem, "PEM");
    assert_eq!(actor.url().as_str(), "https://blog.example/users/alice");
}

#[test]
fn the_local_actor_needs_addresses() {
    assert!(matches!(
        local_actor_addresses(&alice(), Some("ftp://blog.example")),
        Err(AddressError::Origin(OriginError::NotAnOrigin))
    ));
    match actor_addresses(&alice(), "no origin") {
        Err(AddressError::InvalidIri(text)) => assert_eq!(text, "no origin/users/alice"),
        other => panic!("{other:?}"),
    }
}

#[test]
fn the_dispatcher_finds_its_actor() {
    let mut dispatcher = SingleActorDispatcher { actor: None };
    assert!(dispatcher.get_actor("alice").is_none());
    assert!(dispatcher.get_actor_by_id("https://blog.example/users/alice").is_none());
    let addresses = actor_addresses(&alice(), "https://blog.example/").unwrap();
    dispatcher.set_actor(build_local_actor(&alice(), addresses, "PEM".to_string()).unwrap());
    assert_eq!(dispatcher.get_actor("alice").unwrap().name, "Alice");
    assert!(dispatcher.get_actor("bob").is_none());
    assert!(dispatcher.get_actor_by_id("https://blog.example/users/alice").is_some());
    assert!(dispatcher.get_actor_by_id("https://blog.example/users/bob").is_none());
}

#[test]
fn the_first_address_that_fails_is_reported() {
    let good = || parse_iri("https://blog.example/x");
    assert!(gather_addresses(good(), good(), good(), good(), good()).is_ok());
    for failing in 0..5 {
        let part = |i: i32| if i < failing { good() } else { parse_iri(&format!("no iri {i}")) };
        match gather_addresses(part(0), part(1), part(2), part(3), part(4)) {
            Err(AddressError::InvalidIri(text)) => assert_eq!(text, format!("no iri {failing}")),
            other => panic!("{other:?}"),
        }
    }
    let addresses = actor_addresses(&alice(), "https://blog.example/").unwrap();
    assert!(matches!(
        assemble_local_actor(&alice(), addresses, parse_iri("no key"), "PEM".to_string()),
        Err(AddressError::InvalidIri(text)) if text == "no key"
    ));
}
