use federog::account::Account;
use federog::actor::{ActorProfile, RemoteActor};
use federog::address::{parse_iri, AddressError};
use federog::pages::{
    actor_list_html, layout, post_form_html, post_html, post_list_html, profile_html,
    public_home_html, setup_form_html, timeline_html, PostRecord,
};
use federog::reading::{
    account_head_html, document_stands, follower_ids, follower_profile, following, home, post_page,
    profile, public_home, setup_form, timeline_post, FollowerWalk, TimelineRow,
};
use federog::replies::{require_account, require_stored, Reply, Status, StoreError};

fn alice() -> Account {
    Account {
        username: "alice".to_string(),
        name: Some("Alice".to_string()),
        handle: "@alice@stored.example".to_string(),
    }
}

fn post() -> PostRecord {
    PostRecord {
        uri: "https://blog.example/users/alice/posts/1".to_string(),
        content: "Hello Feder".to_string(),
        url: None,
        created: "2024-01-02 03:04:05".to_string(),
    }
}

fn bob() -> RemoteActor {
    RemoteActor {
        id: "https://remote.example/users/bob".to_string(),
        preferred_username: Some("bob".to_string()),
        name: Some("Bob".to_string()),
        inbox: "https://remote.example/inbox".to_string(),
        shared_inbox: None,
    }
}

fn is_page(reply: &Reply, body: &str, varying: bool) -> bool {
    matches!(reply, Reply::Page { html, varies } if *html == layout(body) && *varies == varying)
}

fn is_error(reply: Reply) -> bool {
    matches!(reply, Reply::Failure(Status::InternalServerError))
}

fn leads(reply: Reply, path: &str) -> bool {
    matches!(reply, Reply::Redirect(to) if to == path)
}

#[test]
fn requests_need_an_account() {
    assert_eq!(require_account(Ok(Some(alice()))).unwrap().username, "alice");
    assert_eq!(require_account(Ok(None)).err().map(Status::code), Some(404));
    assert_eq!(require_account(Err(StoreError)).err().map(Status::code), Some(500));
    assert_eq!(require_stored(Ok(3)), Ok(3));
    assert_eq!(require_stored::<i64>(Err(StoreError)), Err(Status::InternalServerError));
}

#[test]
fn statuses_have_their_numbers() {
    assert_eq!(Status::BadRequest.code(), 400);
    assert_eq!(Status::Unauthorized.code(), 401);
    assert_eq!(Status::NotFound.code(), 404);
    assert_eq!(Status::InternalServerError.code(), 500);
    assert_eq!(Status::BadGateway.code(), 502);
}

#[test]
fn homes_are_pages_or_ways_to_the_setup() {
    assert!(is_page(&public_home(&alice(), Ok(vec![])), &public_home_html(&alice(), &[]), false));
    assert!(is_error(public_home(&alice(), Err(StoreError))));
    assert!(is_page(&home(Ok(Some(alice()))), &post_form_html(&alice()), false));
    assert!(leads(home(Ok(None)), "/setup"));
    assert!(leads(home(Err(StoreError)), "/setup"));
    assert!(is_page(&setup_form(Ok(None)), &setup_form_html(), false));
    assert!(leads(setup_form(Ok(Some(alice()))), "/"));
    assert!(leads(setup_form(Err(StoreError)), "/setup"));
}

#[test]
fn profiles_show_the_requested_host() {
    let head = profile_html("Alice", "alice", "@alice@asked.example", 3, 2);
    assert_eq!(account_head_html(&alice(), "asked.example", 3, 2), head);
    let posts = post_list_html(&[post()], &alice());
    let reply = profile(&alice(), "asked.example", Ok(2), Ok(3), Ok(vec![post()]));
    assert!(is_page(&reply, &format!("{head}{posts}"), false));
    assert!(is_error(profile(&alice(), "h", Err(StoreError), Ok(3), Ok(vec![]))));
    assert!(is_error(profile(&alice(), "h", Ok(2), Err(StoreError), Ok(vec![]))));
    assert!(is_error(profile(&alice(), "h", Ok(2), Ok(3), Err(StoreError))));
}

#[test]
fn post_pages_show_one_post() {
    let body = format!(
        "{}{}",
        profile_html("Alice", "alice", "@alice@h", 3, 2),
        post_html(&post(), &alice())
    );
    assert!(is_page(&post_page(&alice(), "h", Ok(Some(post())), Ok(2), Ok(3)), &body, true));
    assert!(matches!(
        post_page(&alice(), "h", Ok(None), Err(StoreError), Err(StoreError)),
        Reply::Failure(Status::NotFound)
    ));
    assert!(is_error(post_page(&alice(), "h", Err(StoreError), Ok(2), Ok(3))));
    assert!(is_error(post_page(&alice(), "h", Ok(Some(post())), Err(StoreError), Ok(3))));
    assert!(is_error(post_page(&alice(), "h", Ok(Some(post())), Ok(2), Err(StoreError))));
}

#[test]
fn timeline_authors_are_linked_to_their_profile() {
    let row = |username: Option<&str>| TimelineRow {
        post: post(),
        author_uri: "https://remote.example/users/bob".to_string(),
        author_username: username.map(str::to_string),
        author_name: Some("Alice".to_string()),
        author_handle: "@alice@stored.example".to_string(),
    };
    assert_eq!(timeline_post(row(None)).author.uri, "https://remote.example/users/bob");
    let own = timeline_post(row(Some("alice")));
    assert_eq!(own.author.uri, "/users/alice");
    assert_eq!(own.author.name.as_deref(), Some("Alice"));
    assert_eq!(own.author.handle, "@alice@stored.example");
    assert_eq!(timeline_html(&[own]), post_list_html(&[post()], &alice()));
}

#[test]
fn followed_actors_are_listed() {
    let listed = || ActorProfile {
        uri: "https://remote.example/users/bob".to_string(),
        name: None,
        handle: "@bob@remote.example".to_string(),
    };
    let body = actor_list_html("Following", &[listed()]);
    assert!(is_page(&following(Ok(vec![listed()])), &body, true));
    assert!(is_error(following(Err(StoreError))));
}

#[test]
fn documents_stand_unless_they_are_not_acceptable() {
    assert!(document_stands(200));
    assert!(document_stands(404));
    assert!(!document_stands(406));
}

#[test]
fn stored_followers_are_iris() {
    let stored = |texts: &[&str]| texts.iter().map(|text| text.to_string()).collect::<Vec<_>>();
    let ids = follower_ids(&stored(&["https://a.example/1", "https://a.example/2"])).unwrap();
    assert_eq!(ids.len(), 2);
    assert_eq!(ids[0].as_str(), "https://a.example/1");
    assert_eq!(ids[1].as_str(), "https://a.example/2");
    assert!(matches!(
        follower_ids(&stored(&["https://a.example/1", "two", "three"])),
        Err(AddressError::InvalidIri(text)) if text == "two"
    ));
    assert!(follower_ids(&Vec::new()).unwrap().is_empty());
}

#[test]
fn followers_are_fetched_one_by_one() {
    let first = parse_iri("https://remote.example/users/bob").unwrap();
    let second = parse_iri("https://gone.example/users/eve").unwrap();
    assert_eq!(follower_profile(&first, Some(bob())).handle, "@bob@remote.example");
    assert_eq!(follower_profile(&second, None).handle, "https://gone.example/users/eve");

    let walk = FollowerWalk::new(vec![first, second]);
    assert_eq!(walk.next_target().unwrap().as_str(), "https://remote.example/users/bob");
    let walk = walk.resolved(Some(bob()));
    assert_eq!(walk.next_target().unwrap().as_str(), "https://gone.example/users/eve");
    let walk = walk.resolved(None);
    assert!(walk.next_target().is_none());
    let expected = actor_list_html(
        "Followers",
        &[
            ActorProfile {
                uri: "https://remote.example/users/bob".to_string(),
                name: Some("Bob".to_string()),
                handle: "@bob@remote.example".to_string(),
            },
            ActorProfile {
                uri: "https://gone.example/users/eve".to_string(),
                name: None,
                handle: "https://gone.example/users/eve".to_string(),
            },
        ],
    );
    assert!(is_page(&walk.reply(), &expected, true));
    let walk = walk.resolved(Some(bob()));
    assert!(is_page(&walk.reply(), &expected, true));
}
