//! Which requests each of the two listeners answers.
use vstd::prelude::*;


verus! {

/// The largest body that a request may bring, in bytes.
pub const MAX_BODY: usize = 1_048_576;

/// The listeners of the blog: one for everybody, and one for the author that
/// is reached from the machine itself only.
#[derive(Clone, Copy, Debug, PartialEq, Eq, Structural)]
pub enum Listener {
    Public,
    Admin,
}

/// The methods that the blog answers.
#[derive(Clone, Copy, Debug, PartialEq, Eq, Structural)]
pub enum Verb {
    Get,
    Post,
}

/// What a request asks for.
#[derive(Clone, Copy, Debug, PartialEq, Eq, Structural)]
pub enum Endpoint {
    PublicHome,
    WebFinger,
    SharedInbox,
    Profile,
    Followers,
    Following,
    FollowActor,
    PersonalInbox,
    PostPage,
    Home,
    SetupForm,
    CreateAccount,
    CreatePost,
}

pub const ROOT: &'static str = "/";

pub const WEBFINGER: &'static str = "/.well-known/webfinger";

pub const SHARED_INBOX: &'static str = "/inbox";

pub const SETUP: &'static str = "/setup";

pub const PROFILE: &'static str = "/users/{username}";

pub const FOLLOWERS: &'static str = "/users/{username}/followers";

pub const FOLLOWING: &'static str = "/users/{username}/following";

pub const PERSONAL_INBOX: &'static str = "/users/{username}/inbox";

pub const POSTS: &'static str = "/users/{username}/posts";

pub const POST_PAGE: &'static str = "/users/{username}/posts/{id}";

/// One entry of a listener's table. A name in braces stands for any segment
/// of a path.
#[derive(Debug)]
pub struct Route<Path = &'static str> {
    pub path: Path,
    pub verb: Verb,
    pub endpoint: Endpoint,
}

impl View for Route {
    type V = Route<Seq<char>>;

    open spec fn view(&self) -> Route<Seq<char>> {
        Route { path: self.path@, verb: self.verb, endpoint: self.endpoint }
    }
}

/// An entry of a table.
pub open spec fn route(path: Seq<char>, verb: Verb, endpoint: Endpoint) -> Route<Seq<char>> {
    Route { path, verb, endpoint }
}

/// What the listener for everybody answers.
pub open spec fn public_table() -> Seq<Route<Seq<char>>> {
    seq![
        route(ROOT@, Verb::Get, Endpoint::PublicHome),
        route(WEBFINGER@, Verb::Get, Endpoint::WebFinger),
        route(SHARED_INBOX@, Verb::Post, Endpoint::SharedInbox),
        route(PROFILE@, Verb::Get, Endpoint::Profile),
        route(FOLLOWERS@, Verb::Get, Endpoint::Followers),
        route(FOLLOWING@, Verb::Get, Endpoint::Following),
        route(FOLLOWING@, Verb::Post, Endpoint::FollowActor),
        route(PERSONAL_INBOX@, Verb::Post, Endpoint::PersonalInbox),
        route(POST_PAGE@, Verb::Get, Endpoint::PostPage),
    ]
}

/// What the author's listener answers.
pub open spec fn admin_table() -> Seq<Route<Seq<char>>> {
    seq![
        route(ROOT@, Verb::Get, Endpoint::Home),
        route(SETUP@, Verb::Get, Endpoint::SetupForm),
        route(SETUP@, Verb::Post, Endpoint::CreateAccount),
        route(PROFILE@, Verb::Get, Endpoint::Profile),
        route(FOLLOWERS@, Verb::Get, Endpoint::Followers),
        route(FOLLOWING@, Verb::Get, Endpoint::Following),
        route(POSTS@, Verb::Post, Endpoint::CreatePost),
        route(POST_PAGE@, Verb::Get, Endpoint::PostPage),
    ]
}

/// What a listener answers.
pub open spec fn table(listener: Listener) -> Seq<Route<Seq<char>>> {
    match listener {
        Listener::Public => public_table(),
        Listener::Admin => admin_table(),
    }
}

/// The views of a table's entries.
pub open spec fn route_views(routes: Seq<Route>) -> Seq<Route<Seq<char>>> {
    routes.map_values(|route: Route| route@)
}

fn entry(path: &'static str, verb: Verb, endpoint: Endpoint) -> (r: Route)
    ensures
        r@ == route(path@, verb, endpoint),
{
    Route { path, verb, endpoint }
}

/// What the listener for everybody answers.
pub fn public_router() -> (r: Vec<Route>)
    ensures
        route_views(r@) == public_table(),
{
    vec![
        entry(ROOT, Verb::Get, Endpoint::PublicHome),
        entry(WEBFINGER, Verb::Get, Endpoint::WebFinger),
        entry(SHARED_INBOX, Verb::Post, Endpoint::SharedInbox),
        entry(PROFILE, Verb::Get, Endpoint::Profile),
        entry(FOLLOWERS, Verb::Get, Endpoint::Followers),
        entry(FOLLOWING, Verb::Get, Endpoint::Following),
        entry(FOLLOWING, Verb::Post, Endpoint::FollowActor),
        entry(PERSONAL_INBOX, Verb::Post, Endpoint::PersonalInbox),
        entry(POST_PAGE, Verb::Get, Endpoint::PostPage),
    ]
}

/// What the author's listener answers.
pub fn admin_router() -> (r: Vec<Route>)
    ensures
        route_views(r@) == admin_table(),
{
    vec![
        entry(ROOT, Verb::Get, Endpoint::Home),
        entry(SETUP, Verb::Get, Endpoint::SetupForm),
        entry(SETUP, Verb::Post, Endpoint::CreateAccount),
        entry(PROFILE, Verb::Get, Endpoint::Profile),
        entry(FOLLOWERS, Verb::Get, Endpoint::Followers),
        entry(FOLLOWING, Verb::Get, Endpoint::Following),
        entry(POSTS, Verb::Post, Endpoint::CreatePost),
        entry(POST_PAGE, Verb::Get, Endpoint::PostPage),
    ]
}

/// Posting and setting up the account are asked for at the author's listener
/// only.
pub proof fn law_only_the_author_posts(i: int)
    requires
        0 <= i < public_table().len(),
    ensures
        public_table()[i].endpoint != Endpoint::CreatePost,
        public_table()[i].endpoint != Endpoint::CreateAccount,
        public_table()[i].endpoint != Endpoint::SetupForm,
        public_table()[i].endpoint != Endpoint::Home,
{
}

/// A listener answers a path and a method in one way.
pub proof fn law_one_endpoint_per_request(listener: Listener, i: int, j: int)
    requires
        0 <= i < table(listener).len(),
        0 <= j < table(listener).len(),
        table(listener)[i].path == table(listener)[j].path,
        table(listener)[i].verb == table(listener)[j].verb,
    ensures
        i == j,
{
    reveal_strlit("/");
    reveal_strlit("/.well-known/webfinger");
    reveal_strlit("/inbox");
    reveal_strlit("/setup");
    reveal_strlit("/users/{username}");
    reveal_strlit("/users/{username}/followers");
    reveal_strlit("/users/{username}/following");
    reveal_strlit("/users/{username}/inbox");
    reveal_strlit("/users/{username}/posts");
    reveal_strlit("/users/{username}/posts/{id}");
    assert(FOLLOWERS@[24] != FOLLOWING@[24]);
    assert(ROOT@.len() == 1 && SHARED_INBOX@.len() == 6 && SETUP@.len() == 6);
    assert(PROFILE@.len() == 17 && WEBFINGER@.len() == 22 && PERSONAL_INBOX@.len() == 23);
    assert(POSTS@.len() == 23 && FOLLOWERS@.len() == 27 && FOLLOWING@.len() == 27);
    assert(POST_PAGE@.len() == 28);
    let path = table(listener)[i].path;
    assert(path == FOLLOWERS@ || path == FOLLOWING@ || path.len() != 27);
}

} // verus!
