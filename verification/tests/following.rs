use federog::account::Account;
use federog::actor::{FollowingRecord, RemoteActor};
use federog::address::{parse_iri, AddressError, OriginError, WebUrl};
use federog::following::{
    follow_activity, follow_actor, follow_reply, follow_request, follow_resolved, follow_sent,
    follow_step, follow_stored, followed_id, FollowOutcome, FollowStep,
};
use federog::replies::{Reply, Status, StoreError};

fn alice() -> Account {
    Account {
        username: "alice".to_string(),
        name: None,
        handle: "@alice@blog.example".to_string(),
    }
}

fn is_invalid_url(reply: Reply) -> bool {
    matches!(
        reply,
        Reply::Refusal { status: Status::BadRequest, text } if text == "Invalid actor URL"
    )
}

#[test]
fn an_actor_is_followed_at_its_normal_address() {
    let target = follow_actor(Ok(Some(alice())), " https://Remote.example:443/users/bob\n").unwrap();
    assert_eq!(target.actor_id.as_str(), "https://remote.example/users/bob");
    assert_eq!(target.account.username, "alice");
}

#[test]
fn only_web_addresses_are_followed() {
    for actor in [
        "",
        "bob",
        "@bob@remote.example",
        "ftp://remote.example/bob",
        "https://u@remote.example/bob",
        "https://u:p@remote.example/bob",
        "mailto:bob@remote.example",
    ] {
        assert!(is_invalid_url(follow_actor(Ok(Some(alice())), actor).unwrap_err()), "{actor}");
    }
    assert!(is_invalid_url(followed_id(None).unwrap_err()));
}

#[test]
fn an_address_that_is_no_iri_is_refused() {
    let url = WebUrl {
        text: "no iri".to_string(),
        scheme: "https".to_string(),
        username: String::new(),
        has_password: false,
        host: Some("remote.example".to_string()),
        port: None,
        path: "/".to_string(),
        has_query: false,
        has_fragment: false,
    };
    assert!(matches!(followed_id(Some(&url)), Err(Reply::Failure(Status::BadRequest))));
}

#[test]
fn following_needs_an_account() {
    let actor = "https://remote.example/users/bob";
    assert!(matches!(follow_actor(Ok(None), actor), Err(Reply::Failure(Status::NotFound))));
    assert!(matches!(
        follow_actor(Err(StoreError), actor),
        Err(Reply::Failure(Status::InternalServerError))
    ));
}

#[test]
fn follow_activities_stand_under_the_actor() {
    let request =
        follow_request(&alice(), Ok("00ff".to_string()), Some("https://blog.example")).unwrap();
    assert_eq!(request.local_actor.as_str(), "https://blog.example/users/alice");
    assert_eq!(
        request.follow_id.as_str(),
        "https://blog.example/users/alice/activities/follow/00ff"
    );
    let slashed = parse_iri("https://blog.example/users/alice//").unwrap();
    assert_eq!(
        follow_activity(Ok(slashed), "1").unwrap().follow_id.as_str(),
        "https://blog.example/users/alice/activities/follow/1"
    );
}

#[test]
fn follow_activities_need_a_token_and_an_actor() {
    let origin = Some("https://blog.example");
    let failed = Some(Status::InternalServerError);
    assert_eq!(follow_request(&alice(), Err(StoreError), origin).err(), failed);
    assert_eq!(follow_request(&alice(), Ok("a b".to_string()), origin).err(), failed);
    assert_eq!(follow_request(&alice(), Ok("1".to_string()), Some("nowhere")).err(), failed);
    assert_eq!(
        follow_activity(Err(AddressError::Origin(OriginError::Unparsable)), "1").err(),
        failed
    );
}

#[test]
fn each_outcome_has_its_answer() {
    let status = |outcome| match follow_reply(outcome) {
        Reply::Failure(status) => Some(status.code()),
        _ => None,
    };
    assert_eq!(status(FollowOutcome::Unresolved), Some(502));
    assert_eq!(status(FollowOutcome::NotSent), Some(502));
    assert_eq!(status(FollowOutcome::NotStored), Some(500));
    assert!(matches!(follow_reply(FollowOutcome::Stored), Reply::Redirect(to) if to == "/"));
}

fn bob() -> RemoteActor {
    RemoteActor {
        id: "https://remote.example/users/bob".to_string(),
        preferred_username: Some("bob".to_string()),
        name: None,
        inbox: "https://remote.example/users/bob/inbox".to_string(),
        shared_inbox: None,
    }
}

fn sending() -> FollowStep {
    let origin = Some("https://blog.example");
    follow_resolved(&alice(), Some(bob()), Ok("00ff".to_string()), origin)
}

fn bobs_record() -> FollowingRecord {
    match sending() {
        FollowStep::Send { record, .. } => record,
        other => panic!("{other:?}"),
    }
}

fn answers(step: FollowStep, code: u16) -> bool {
    matches!(step, FollowStep::Answer(Reply::Failure(status)) if status.code() == code)
}

#[test]
fn a_fetched_actor_is_sent_the_activity() {
    match sending() {
        FollowStep::Send { request, actor_id, record } => {
            assert_eq!(request.local_actor.as_str(), "https://blog.example/users/alice");
            assert_eq!(
                request.follow_id.as_str(),
                "https://blog.example/users/alice/activities/follow/00ff"
            );
            assert_eq!(actor_id, "https://remote.example/users/bob");
            assert_eq!(record.uri, actor_id);
            assert_eq!(record.handle, "@bob@remote.example");
            assert_eq!(record.follow_activity_id, request.follow_id.as_str());
        }
        other => panic!("{other:?}"),
    }
}

#[test]
fn an_actor_that_is_not_fetched_is_sent_nothing() {
    let origin = Some("https://blog.example");
    assert!(answers(follow_resolved(&alice(), None, Ok("00ff".to_string()), origin), 502));
    assert!(answers(follow_resolved(&alice(), None, Err(StoreError), Some("nowhere")), 502));
    assert!(answers(follow_resolved(&alice(), Some(bob()), Err(StoreError), origin), 500));
    let nowhere = Some("nowhere");
    assert!(answers(follow_resolved(&alice(), Some(bob()), Ok("1".to_string()), nowhere), 500));
    assert!(answers(follow_step(Some(bob()), Err(Status::InternalServerError)), 500));
}

#[test]
fn a_relationship_is_stored_once_the_activity_was_sent() {
    assert!(matches!(
        follow_sent(bobs_record(), true),
        FollowStep::Store(record) if record.uri == "https://remote.example/users/bob"
    ));
    assert!(answers(follow_sent(bobs_record(), false), 502));
    assert!(matches!(follow_stored(Ok(())), Reply::Redirect(to) if to == "/"));
    assert!(matches!(
        follow_stored(Err(StoreError)),
        Reply::Failure(Status::InternalServerError)
    ));
}
