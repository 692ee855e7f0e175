use federog::routes::{admin_router, public_router, Endpoint, Route, Verb, MAX_BODY};

fn endpoint(routes: &[Route], verb: Verb, path: &str) -> Option<Endpoint> {
    let mut found = routes.iter().filter(|route| route.verb == verb && route.path == path);
    let first = found.next().map(|route| route.endpoint);
    assert!(found.next().is_none(), "{path}");
    first
}

#[test]
fn the_public_listener_reads_and_federates() {
    let routes = public_router();
    assert_eq!(routes.len(), 9);
    for (verb, path, expected) in [
        (Verb::Get, "/", Endpoint::PublicHome),
        (Verb::Get, "/.well-known/webfinger", Endpoint::WebFinger),
        (Verb::Post, "/inbox", Endpoint::SharedInbox),
        (Verb::Get, "/users/{username}", Endpoint::Profile),
        (Verb::Get, "/users/{username}/followers", Endpoint::Followers),
        (Verb::Get, "/users/{username}/following", Endpoint::Following),
        (Verb::Post, "/users/{username}/following", Endpoint::FollowActor),
        (Verb::Post, "/users/{username}/inbox", Endpoint::PersonalInbox),
        (Verb::Get, "/users/{username}/posts/{id}", Endpoint::PostPage),
    ] {
        assert_eq!(endpoint(&routes, verb, path), Some(expected), "{path}");
    }
}

#[test]
fn the_admin_listener_sets_up_and_posts() {
    let routes = admin_router();
    assert_eq!(routes.len(), 8);
    for (verb, path, expected) in [
        (Verb::Get, "/", Endpoint::Home),
        (Verb::Get, "/setup", Endpoint::SetupForm),
        (Verb::Post, "/setup", Endpoint::CreateAccount),
        (Verb::Get, "/users/{username}", Endpoint::Profile),
        (Verb::Get, "/users/{username}/followers", Endpoint::Followers),
        (Verb::Get, "/users/{username}/following", Endpoint::Following),
        (Verb::Post, "/users/{username}/posts", Endpoint::CreatePost),
        (Verb::Get, "/users/{username}/posts/{id}", Endpoint::PostPage),
    ] {
        assert_eq!(endpoint(&routes, verb, path), Some(expected), "{path}");
    }
}

#[test]
fn nobody_posts_at_the_public_listener() {
    let routes = public_router();
    assert_eq!(endpoint(&routes, Verb::Post, "/users/{username}/posts"), None);
    assert_eq!(endpoint(&routes, Verb::Post, "/setup"), None);
    assert_eq!(endpoint(&routes, Verb::Get, "/setup"), None);
    assert_eq!(MAX_BODY, 1_048_576);
}
