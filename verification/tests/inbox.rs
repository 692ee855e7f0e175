use federog::account::Account;
use federog::address::{parse_iri, Iri};
use federog::inbox::{
    actor_reference_id, attributed_note, brings_object, checked_note, fits_in_a_body,
    handle_inbox, is_another_kind, receive_create_note, reference_id, remote_post, summarize, ActivitySummary,
    ActorReference, IncomingCreateNote, IncomingNote, NoteReference, RemoteNote,
};
use federog::json::get_member_text;
use federog::replies::{Status, StoreError};
use federog::routes::MAX_BODY;

const CREATE: &str = r#"{
    "@context": "https://www.w3.org/ns/activitystreams",
    "type": "Create",
    "id": "https://remote.example/activities/1",
    "actor": "https://remote.example/users/bob",
    "object": {
        "type": "Note",
        "id": "https://remote.example/posts/1",
        "attributedTo": "https://remote.example/users/bob",
        "content": "unsigned"
    }
}"#;

fn json(text: &str) -> serde_json::Value {
    serde_json::from_str(text).unwrap()
}

fn iri(text: &str) -> Iri {
    parse_iri(text).unwrap()
}

fn alice() -> Account {
    Account {
        username: "alice".to_string(),
        name: None,
        handle: "@alice@blog.example".to_string(),
    }
}

fn bobs_note() -> IncomingNote {
    IncomingNote {
        id: iri("https://remote.example/posts/1"),
        attributed_to: Some(ActorReference::Embedded { id: iri("https://remote.example/users/bob") }),
        url: None,
        content: Some("<p onclick=\"x()\">hi<script>y()</script></p>".to_string()),
    }
}

fn by_bob(object: NoteReference) -> IncomingCreateNote {
    IncomingCreateNote { actor: ActorReference::Id(iri("https://remote.example/users/bob")), object }
}

fn received(note: IncomingNote) -> Result<Option<RemoteNote>, Status> {
    receive_create_note(&json(CREATE), Some(&by_bob(NoteReference::Object(note))))
}

fn summary(activity_type: Option<&str>) -> ActivitySummary {
    ActivitySummary {
        activity_type: activity_type.map(str::to_string),
        id: None,
        actor: None,
        object: None,
    }
}

#[test]
fn an_inbox_request_is_read() {
    let request = handle_inbox(&alice(), CREATE.as_bytes(), Some("https://blog.example"), true).unwrap();
    assert_eq!(request.local_actor.unwrap().as_str(), "https://blog.example/users/alice");
    assert_eq!(request.activity, Some(json(CREATE)));
    assert_eq!(request.summary.activity_type.as_deref(), Some("Create"));
    assert_eq!(request.summary.id.as_deref(), Some("https://remote.example/activities/1"));
    assert_eq!(request.summary.actor.as_deref(), Some("https://remote.example/users/bob"));
    assert_eq!(request.summary.object.as_deref(), Some("https://remote.example/posts/1"));
}

#[test]
fn a_body_that_is_no_document_says_nothing() {
    let request = handle_inbox(&alice(), b"{", Some("https://blog.example"), true).unwrap();
    assert_eq!(request.activity, None);
    assert_eq!(request.summary.activity_type, None);
    assert_eq!(request.summary.object, None);
    assert_eq!(
        handle_inbox(&alice(), CREATE.as_bytes(), Some("nowhere"), true).err(),
        Some(Status::InternalServerError)
    );
}

#[test]
fn a_request_that_is_not_logged_needs_no_local_actor() {
    for origin in ["nowhere", "https://blog.example"] {
        let request = handle_inbox(&alice(), CREATE.as_bytes(), Some(origin), false).unwrap();
        assert!(request.local_actor.is_none());
        assert_eq!(request.activity, Some(json(CREATE)));
        assert_eq!(request.summary.activity_type.as_deref(), Some("Create"));
    }
}

#[test]
fn references_are_ids_or_objects_with_ids() {
    assert_eq!(reference_id(&json(r#""https://a.example/1""#)), Some("https://a.example/1"));
    assert_eq!(
        reference_id(&json(r#"{"id": "https://a.example/1"}"#)),
        Some("https://a.example/1")
    );
    for other in ["{}", r#"{"id": 1}"#, "[]", "null", "1", "true"] {
        assert_eq!(reference_id(&json(other)), None, "{other}");
    }
    assert_eq!(get_member_text(&json(r#"{"a": "b"}"#), "a"), Some("b"));
    assert_eq!(get_member_text(&json(r#"{"a": "b"}"#), "b"), None);
    assert_eq!(summarize(None).id, None);
    assert_eq!(summarize(Some(&json(r#"{"actor": {"id": "x"}}"#))).actor.as_deref(), Some("x"));
}

#[test]
fn only_handled_announcements_are_looked_at() {
    for status in [200, 202, 299] {
        assert!(brings_object(status, &summary(Some("Create"))));
    }
    for status in [199, 300, 401, 500] {
        assert!(!brings_object(status, &summary(Some("Create"))));
    }
    assert!(!brings_object(202, &summary(Some("Follow"))));
    assert!(!brings_object(202, &summary(Some("create"))));
    assert!(!brings_object(202, &summary(None)));
}

#[test]
fn other_kinds_of_objects_are_passed_over() {
    let article = json(r#"{"type": "Create", "object": {"type": "Article"}}"#);
    assert!(is_another_kind(&article));
    assert!(receive_create_note(&article, None).unwrap().is_none());
    let note = by_bob(NoteReference::Object(bobs_note()));
    assert!(receive_create_note(&article, Some(&note)).unwrap().is_none());
    for activity in [
        CREATE,
        r#"{"object": {"type": ["Article"]}}"#,
        r#"{"object": {}}"#,
        r#"{"object": "https://a.example/1"}"#,
        "{}",
        "[]",
    ] {
        assert!(!is_another_kind(&json(activity)), "{activity}");
    }
}

#[test]
fn unreadable_announcements_are_refused() {
    assert_eq!(receive_create_note(&json(CREATE), None).err(), Some(Status::BadRequest));
}

#[test]
fn linked_and_unattributed_notes_are_passed_over() {
    let linked = by_bob(NoteReference::Id(iri("https://remote.example/posts/1")));
    assert!(attributed_note(&linked).unwrap().is_none());
    assert!(receive_create_note(&json(CREATE), Some(&linked)).unwrap().is_none());
    let mut unattributed = bobs_note();
    unattributed.attributed_to = None;
    assert!(received(unattributed).unwrap().is_none());
}

#[test]
fn notes_of_other_authors_are_refused() {
    let mut foreign = bobs_note();
    foreign.attributed_to = Some(ActorReference::Id(iri("https://remote.example/users/eve")));
    assert_eq!(received(foreign).err(), Some(Status::Unauthorized));
    let embedded = ActorReference::Embedded { id: iri("https://remote.example/users/eve") };
    assert_eq!(actor_reference_id(&embedded).as_str(), "https://remote.example/users/eve");
}

#[test]
fn a_note_is_received_with_cleaned_markup() {
    let note = received(bobs_note()).unwrap().unwrap();
    assert_eq!(note.author, "https://remote.example/users/bob");
    assert_eq!(note.uri, "https://remote.example/posts/1");
    assert_eq!(note.url, "https://remote.example/posts/1");
    assert_eq!(note.content, "<p>hi</p>");
    let mut empty = bobs_note();
    empty.content = None;
    empty.url = Some(iri("https://Remote.example:443/@bob/1"));
    let note = received(empty).unwrap().unwrap();
    assert_eq!(note.content, "");
    assert_eq!(note.url, "https://remote.example/@bob/1");
}

#[test]
fn notes_need_web_addresses() {
    let mut urn = bobs_note();
    urn.id = iri("urn:example:1");
    assert_eq!(received(urn).err(), Some(Status::BadRequest));
    let mut hidden = bobs_note();
    hidden.url = Some(iri("https://u:p@remote.example/1"));
    assert_eq!(received(hidden).err(), Some(Status::BadRequest));
    let mut only_page = bobs_note();
    only_page.id = iri("urn:example:1");
    only_page.url = Some(iri("https://remote.example/1"));
    assert_eq!(received(only_page).err(), Some(Status::BadRequest));
    let bob = iri("https://remote.example/users/bob");
    let some = || Some("u".to_string());
    assert!(checked_note(&bob, &bobs_note(), some(), None, String::new()).is_err());
    assert!(checked_note(&bob, &bobs_note(), None, some(), String::new()).is_err());
    let note = checked_note(&bob, &bobs_note(), some(), Some("i".to_string()), "c".to_string());
    let note = note.unwrap();
    assert_eq!((note.url.as_str(), note.content.as_str()), ("u", "c"));
    assert_eq!(note.uri, "https://remote.example/posts/1");
}

#[test]
fn only_notes_of_followed_actors_are_stored() {
    let post = remote_post(received(bobs_note()).unwrap().unwrap(), Ok(Some(3))).unwrap().unwrap();
    assert_eq!(post.author_row, 3);
    assert_eq!(post.uri, "https://remote.example/posts/1");
    assert_eq!(post.url, "https://remote.example/posts/1");
    assert_eq!(post.content, "<p>hi</p>");
    let note = || received(bobs_note()).unwrap().unwrap();
    assert!(remote_post(note(), Ok(None)).unwrap().is_none());
    assert_eq!(remote_post(note(), Err(StoreError)).err(), Some(Status::InternalServerError));
}

#[test]
fn notes_are_no_longer_than_a_body() {
    let with = |length: usize| {
        let mut note = bobs_note();
        note.content = Some("é".repeat(length));
        by_bob(NoteReference::Object(note))
    };
    assert!(fits_in_a_body(&with(MAX_BODY)));
    assert!(!fits_in_a_body(&with(MAX_BODY + 1)));
    let mut empty = bobs_note();
    empty.content = None;
    assert!(fits_in_a_body(&by_bob(NoteReference::Object(empty))));
    assert!(fits_in_a_body(&by_bob(NoteReference::Id(iri("https://remote.example/posts/1")))));
}
