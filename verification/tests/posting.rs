use federog::account::Account;
use federog::address::{parse_iri, AddressError, OriginError};
use federog::pages::PostRecord;
use federog::posting::{
    addressed_note, compose_post, create_post, note_draft, post_reply, post_uri, Delivery,
};
use federog::replies::{Reply, Status, StoreError};

const ORIGIN: &str = "https://blog.example";

fn alice() -> Account {
    Account {
        username: "alice".to_string(),
        name: Some("Alice".to_string()),
        handle: "@alice@blog.example".to_string(),
    }
}

fn stored(uri: &str) -> PostRecord {
    PostRecord {
        uri: uri.to_string(),
        content: "Hello Feder".to_string(),
        url: Some(uri.to_string()),
        created: "2024-01-02 03:04:05".to_string(),
    }
}

#[test]
fn a_post_is_trimmed_and_sanitized() {
    let post = create_post(Ok(Some(alice())), "  a < b\r\nc\n", Some(ORIGIN)).unwrap();
    assert_eq!(post.content, "a &lt; b<br>\nc");
    assert_eq!(post.actor_id.as_str(), "https://blog.example/users/alice");
    assert_eq!(post.account.username, "alice");
}

#[test]
fn posts_need_an_account_content_and_an_origin() {
    assert!(matches!(
        create_post(Ok(None), "a", Some(ORIGIN)),
        Err(Reply::Failure(Status::NotFound))
    ));
    assert!(matches!(
        create_post(Err(StoreError), "a", Some(ORIGIN)),
        Err(Reply::Failure(Status::InternalServerError))
    ));
    assert!(matches!(
        create_post(Ok(Some(alice())), " \r\n\t", Some(ORIGIN)),
        Err(Reply::Refusal { status: Status::BadRequest, text }) if text == "Content is required"
    ));
    assert!(matches!(
        create_post(Ok(Some(alice())), "", Some("nowhere")),
        Err(Reply::Refusal { status: Status::BadRequest, .. })
    ));
    assert!(matches!(
        create_post(Ok(Some(alice())), "a", Some("nowhere")),
        Err(Reply::Failure(Status::InternalServerError))
    ));
    assert!(matches!(
        compose_post(alice(), "a", Err(AddressError::Origin(OriginError::NoHost))),
        Err(Reply::Failure(Status::InternalServerError))
    ));
    let id = parse_iri("https://blog.example/users/alice").unwrap();
    assert_eq!(compose_post(alice(), " a ", Ok(id)).unwrap().content, "a");
}

#[test]
fn post_uris_number_the_posts() {
    let actor = "https://blog.example/users/alice";
    assert_eq!(post_uri(actor, 1), "https://blog.example/users/alice/posts/1");
    assert_eq!(
        post_uri(actor, i64::MAX),
        "https://blog.example/users/alice/posts/9223372036854775807"
    );
    assert_eq!(
        post_uri(actor, i64::MIN),
        "https://blog.example/users/alice/posts/-9223372036854775808"
    );
    assert_ne!(post_uri(actor, 1), post_uri(actor, -1));
}

#[test]
fn a_note_is_public_and_for_the_followers() {
    let actor = parse_iri("https://blog.example/users/alice").unwrap();
    let uri = post_uri(actor.as_str(), 7);
    let note = note_draft(&actor, 7, Ok(Some(stored(&uri)))).unwrap();
    assert_eq!(note.local_actor.as_str(), "https://blog.example/users/alice");
    assert_eq!(note.note_id.as_str(), "https://blog.example/users/alice/posts/7");
    assert_eq!(
        note.create_id.as_str(),
        "https://blog.example/users/alice/activities/create/7"
    );
    assert_eq!(note.to.as_str(), "https://www.w3.org/ns/activitystreams#Public");
    assert_eq!(note.cc.as_str(), "https://blog.example/users/alice/followers");
    assert_eq!(note.content, "Hello Feder");
    assert_eq!(note.media_type, "text/html");
    assert_eq!(note.published, "2024-01-02T03:04:05Z");
    assert_eq!(note.url.as_str(), "https://blog.example/users/alice/posts/7");
}

#[test]
fn a_note_needs_its_stored_post() {
    let actor = parse_iri("https://blog.example/users/alice").unwrap();
    for lost in [Ok(None), Err(StoreError), Ok(Some(stored("not an iri")))] {
        assert_eq!(note_draft(&actor, 7, lost).err(), Some(Status::InternalServerError));
    }
}

#[test]
fn an_author_is_sent_to_the_new_post() {
    for delivery in [Delivery::Delivered, Delivery::NotSent] {
        assert!(matches!(
            post_reply("alice", 1, delivery),
            Reply::Redirect(to) if to == "/users/alice/posts/1"
        ));
    }
    assert!(matches!(
        post_reply("alice", 1, Delivery::Failed),
        Reply::Failure(Status::InternalServerError)
    ));
}

#[test]
fn a_note_needs_each_of_its_addresses() {
    let actor = parse_iri("https://blog.example/users/alice").unwrap();
    for failing in 0..4 {
        let part = |i: i32| parse_iri(if i == failing { "no iri" } else { "https://a.example/" });
        let note = addressed_note(&actor, stored("x"), part(0), part(1), part(2), part(3));
        assert_eq!(note.err(), Some(Status::InternalServerError));
    }
    let part = |text: &str| parse_iri(text);
    let note = addressed_note(
        &actor,
        stored("x"),
        part("https://a.example/note"),
        part("https://a.example/create"),
        part("https://a.example/to"),
        part("https://a.example/cc"),
    )
    .unwrap();
    assert_eq!(note.note_id.as_str(), "https://a.example/note");
    assert_eq!(note.url.as_str(), "https://a.example/note");
    assert_eq!(note.create_id.as_str(), "https://a.example/create");
    assert_eq!(note.to.as_str(), "https://a.example/to");
    assert_eq!(note.cc.as_str(), "https://a.example/cc");
}
