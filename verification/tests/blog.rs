use axum::http::{header, HeaderMap, HeaderValue};
use federog::actor::{build_local_actor, local_actor_addresses, SingleActorDispatcher};
use federog::address::{public_handle_host, DEFAULT_PUBLIC_ORIGIN};
use federog::following::{follow_actor, follow_reply, follow_request, FollowOutcome};
use federog::inbox::{brings_object, handle_inbox};
use federog::pages::{post_html, PostRecord};
use federog::posting::{create_post, note_draft, post_reply, post_uri, Delivery};
use federog::reading::public_home;
use federog::replies::Reply;
use federog::request::wants_activity_json;
use federog::setup::{account_stored, create_account, SetupForm, SetupStep, StoredStep};

#[test]
fn a_blog_is_set_up_posted_to_and_followed_from() {
    let form = SetupForm { username: "alice".to_string(), name: "Alice".to_string() };
    let record = match create_account(Ok(None), &form, &HeaderMap::new()) {
        SetupStep::Store(record) => record,
        other => panic!("{other:?}"),
    };
    let account = match account_stored(record, Ok(())) {
        StoredStep::Publish(account) => account,
        other => panic!("{other:?}"),
    };

    let addresses = local_actor_addresses(&account, None).unwrap();
    let actor = build_local_actor(&account, addresses, "PEM".to_string()).unwrap();
    let actor_id = format!("{DEFAULT_PUBLIC_ORIGIN}/users/alice");
    assert_eq!(actor.addresses.id.as_str(), actor_id);
    assert_eq!(actor.url().as_str(), actor_id);
    let mut actors = SingleActorDispatcher { actor: None };
    actors.set_actor(actor);
    assert_eq!(actors.get_actor("alice").unwrap().addresses.id.as_str(), actor_id);
    assert_eq!(public_handle_host(None).unwrap(), "fedora.tuatara-lenok.ts.net");

    let mut headers = HeaderMap::new();
    headers.insert(header::ACCEPT, HeaderValue::from_static("application/activity+json"));
    assert!(wants_activity_json(&headers));

    let post = create_post(Ok(Some(account.duplicate())), "Hello Feder", None).unwrap();
    assert_eq!(post.content, "Hello Feder");
    let uri = post_uri(post.actor_id.as_str(), 1);
    let stored = || PostRecord {
        uri: uri.clone(),
        content: post.content.clone(),
        url: Some(uri.clone()),
        created: "2024-01-02 03:04:05".to_string(),
    };
    let note = note_draft(&post.actor_id, 1, Ok(Some(stored()))).unwrap();
    assert_eq!(note.content, "Hello Feder");
    assert_eq!(note.local_actor.as_str(), actor_id);
    assert_eq!(note.cc.as_str(), actors.get_actor("alice").unwrap().addresses.followers.as_str());
    assert!(matches!(
        post_reply("alice", 1, Delivery::Delivered),
        Reply::Redirect(to) if to == "/users/alice/posts/1"
    ));
    assert!(note.note_id.as_str().ends_with("/users/alice/posts/1"));

    let timeline = public_home(&account, Ok(vec![]));
    assert!(matches!(timeline, Reply::Page { html, .. } if html.contains("Alice's timeline")));
    assert!(post_html(&stored(), &account).contains("Hello Feder"));

    let remote = "http://127.0.0.1:4000/users/bob";
    let target = follow_actor(Ok(Some(account.duplicate())), remote).unwrap();
    assert_eq!(target.actor_id.as_str(), remote);
    let follow = follow_request(&target.account, Ok("0a".repeat(16)), None).unwrap();
    assert_eq!(follow.local_actor.as_str(), actor_id);
    assert_eq!(
        follow.follow_id.as_str(),
        format!("{actor_id}/activities/follow/{}", "0a".repeat(16))
    );
    assert!(matches!(follow_reply(FollowOutcome::Stored), Reply::Redirect(to) if to == "/"));

    let unsigned = br#"{"type": "Create", "actor": "https://remote.example/users/bob"}"#;
    let request = handle_inbox(&account, unsigned, None, true).unwrap();
    assert!(!brings_object(401, &request.summary));
    assert!(brings_object(202, &request.summary));
}
