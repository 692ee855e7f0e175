//! The pages that only read the store: the public home, the composer, the
//! setup form, profiles, posts and lists of actors.
use vstd::prelude::*;

use crate::account::{display_name, shown_name, Account};
use crate::actor::{
    actor_profile, handle_at, handle_text, profile_of, remote_view, unresolved_actor_profile,
    unresolved_profile, ActorProfile, RemoteActor,
};
use crate::address::{is_iri, parse_iri, AddressError, Iri};
use crate::pages::{
    actor_list_html, actor_list_markup, article, followers_html, layout, local_author, page,
    post_form_html, post_form_markup, post_html, post_list_html, post_list_markup, post_views,
    profile_html, profile_markup, profile_views, public_home_html, public_home_markup,
    setup_form_html, timeline_markup, timeline_views, PostRecord, TimelinePost, SETUP_FORM,
};
use crate::posting::stored_view;
use crate::replies::{account_view, Reply, Status, StoreError};
use crate::text::{joined, optional};

verus! {

/// A page that does not depend on the `Accept` header.
pub open spec fn plain_page(body: Seq<char>) -> Reply<Seq<char>> {
    Reply::Page { html: page(body), varies: false }
}

/// A page that another kind of answer could stand in for.
pub open spec fn varying_page(body: Seq<char>) -> Reply<Seq<char>> {
    Reply::Page { html: page(body), varies: true }
}

/// The answer where the store fails.
pub open spec fn internal_error() -> Reply<Seq<char>> {
    Reply::Failure(Status::InternalServerError)
}

/// The HTTP status "not acceptable".
pub const NOT_ACCEPTABLE: u16 = 406;

/// A post of the timeline as the store gives it. An author of the blog itself
/// comes with a username.
#[derive(Debug)]
pub struct TimelineRow<Text = String> {
    pub post: PostRecord<Text>,
    pub author_uri: Text,
    pub author_username: Option<Text>,
    pub author_name: Option<Text>,
    pub author_handle: Text,
}

impl View for TimelineRow {
    type V = TimelineRow<Seq<char>>;

    open spec fn view(&self) -> TimelineRow<Seq<char>> {
        TimelineRow {
            post: self.post@,
            author_uri: self.author_uri@,
            author_username: optional(self.author_username),
            author_name: optional(self.author_name),
            author_handle: self.author_handle@,
        }
    }
}

/// A post of the timeline with its author. An author of the blog itself is
/// linked to by the path of the profile, any other by the identifier.
pub open spec fn timeline_entry(row: TimelineRow<Seq<char>>) -> TimelinePost<Seq<char>> {
    TimelinePost {
        post: row.post,
        author: ActorProfile {
            uri: match row.author_username {
                Some(username) => "/users/"@ + username,
                None => row.author_uri,
            },
            name: row.author_name,
            handle: row.author_handle,
        },
    }
}

/// A post of the timeline with its author.
pub fn timeline_post(row: TimelineRow) -> (r: TimelinePost)
    ensures
        r@ == timeline_entry(row@),
{
    let uri: String = match row.author_username {
        Some(username) => {
            let mut path: String = "/users/".to_owned();
            path.append(username.as_str());
            path
        },
        None => row.author_uri,
    };
    TimelinePost {
        post: row.post,
        author: ActorProfile { uri, name: row.author_name, handle: row.author_handle },
    }
}

/// An account's own post looks in the timeline as it does on the profile.
pub proof fn law_own_post_looks_alike(row: TimelineRow<Seq<char>>, account: Account<Seq<char>>)
    requires
        row.author_username == Some(account.username),
        row.author_name == account.name,
        row.author_handle == account.handle,
    ensures
        timeline_markup(seq![timeline_entry(row)]) == post_list_markup(seq![row.post], account),
{
    let shown = article(row.post, local_author(account));
    let entry = timeline_entry(row);
    assert(entry.author == local_author(account));
    let f = |entry: TimelinePost<Seq<char>>| article(entry.post, entry.author);
    let g = |post: PostRecord<Seq<char>>| article(post, local_author(account));
    assert(seq![entry].drop_last() =~= Seq::empty());
    assert(seq![row.post].drop_last() =~= Seq::empty());
    reveal_with_fuel(joined, 2);
    assert(joined(seq![entry], f) =~= shown);
    assert(joined(seq![row.post], g) =~= shown);
}

/// The answer to a request for the public home, by the posts of the timeline.
pub open spec fn public_home_answer(
    account: Account<Seq<char>>,
    posts: Result<Seq<TimelinePost<Seq<char>>>, StoreError>,
) -> Reply<Seq<char>> {
    match posts {
        Ok(posts) => plain_page(public_home_markup(account, posts)),
        Err(_) => internal_error(),
    }
}

/// The answer to a request for the admin home.
pub open spec fn home_answer(account: Result<Option<Account<Seq<char>>>, StoreError>) -> Reply<
    Seq<char>,
> {
    match account {
        Ok(Some(account)) => plain_page(post_form_markup(account)),
        _ => Reply::Redirect("/setup"@),
    }
}

/// The answer to a request for the setup form.
pub open spec fn setup_form_answer(
    account: Result<Option<Account<Seq<char>>>, StoreError>,
) -> Reply<Seq<char>> {
    match account {
        Ok(None) => plain_page(SETUP_FORM@),
        Ok(Some(_)) => Reply::Redirect("/"@),
        Err(_) => Reply::Redirect("/setup"@),
    }
}

/// The answer to a request for a profile's page.
pub open spec fn profile_answer(
    account: Account<Seq<char>>,
    host: Seq<char>,
    followers: Result<usize, StoreError>,
    following: Result<i64, StoreError>,
    posts: Result<Seq<PostRecord<Seq<char>>>, StoreError>,
) -> Reply<Seq<char>> {
    match (followers, following, posts) {
        (Ok(followers), Ok(following), Ok(posts)) => plain_page(
            account_head(account, host, following as int, followers as nat) + post_list_markup(
                posts,
                account,
            ),
        ),
        _ => internal_error(),
    }
}

/// The answer to a request for a post's page.
pub open spec fn post_page_answer(
    account: Account<Seq<char>>,
    host: Seq<char>,
    post: Result<Option<PostRecord<Seq<char>>>, StoreError>,
    followers: Result<usize, StoreError>,
    following: Result<i64, StoreError>,
) -> Reply<Seq<char>> {
    match (post, followers, following) {
        (Ok(None), _, _) => Reply::Failure(Status::NotFound),
        (Ok(Some(post)), Ok(followers), Ok(following)) => varying_page(
            account_head(account, host, following as int, followers as nat) + article(
                post,
                local_author(account),
            ),
        ),
        _ => internal_error(),
    }
}

/// The answer to a request for the list of followed actors.
pub open spec fn following_answer(
    profiles: Result<Seq<ActorProfile<Seq<char>>>, StoreError>,
) -> Reply<Seq<char>> {
    match profiles {
        Ok(profiles) => varying_page(actor_list_markup("Following"@, profiles)),
        Err(_) => internal_error(),
    }
}

/// The answer to a request for the list of followers.
pub open spec fn followers_answer(profiles: Seq<ActorProfile<Seq<char>>>) -> Reply<Seq<char>> {
    varying_page(actor_list_markup("Followers"@, profiles))
}

/// The document of a federation endpoint, by its status, is the answer.
pub open spec fn is_acceptable(status: u16) -> bool {
    status != NOT_ACCEPTABLE
}

/// The answer to a request for the public home.
pub fn public_home(account: &Account, posts: Result<Vec<TimelinePost>, StoreError>) -> (r: Reply)
    ensures
        r@ == public_home_answer(
            account@,
            match posts {
                Ok(posts) => Ok(timeline_views(posts@)),
                Err(error) => Err(error),
            },
        ),
{
    match posts {
        Ok(posts) => Reply::Page {
            html: layout(public_home_html(account, posts.as_slice()).as_str()),
            varies: false,
        },
        Err(_) => Reply::Failure(Status::InternalServerError),
    }
}

/// The answer to a request for the admin home: the composer, or the way to
/// the setup where there is no account to read.
pub fn home(account: Result<Option<Account>, StoreError>) -> (r: Reply)
    ensures
        r@ == home_answer(account_view(account)),
{
    match account {
        Ok(Some(account)) => Reply::Page {
            html: layout(post_form_html(&account).as_str()),
            varies: false,
        },
        _ => Reply::Redirect("/setup".to_owned()),
    }
}

/// The answer to a request for the setup form, which only a blog without an
/// account has.
pub fn setup_form(account: Result<Option<Account>, StoreError>) -> (r: Reply)
    ensures
        r@ == setup_form_answer(account_view(account)),
{
    match account {
        Ok(None) => Reply::Page { html: layout(setup_form_html().as_str()), varies: false },
        Ok(Some(_)) => Reply::Redirect("/".to_owned()),
        Err(_) => Reply::Redirect("/setup".to_owned()),
    }
}

/// The head of an account's profile on a page that was requested from `host`.
pub open spec fn account_head(
    account: Account<Seq<char>>,
    host: Seq<char>,
    following: int,
    followers: nat,
) -> Seq<char> {
    profile_markup(
        shown_name(account),
        account.username,
        handle_at(account.username, host),
        following,
        followers,
    )
}

/// The head of an account's profile on a page that was requested from `host`.
pub fn account_head_html(account: &Account, host: &str, following: i64, followers: usize) -> (r:
    String)
    ensures
        r@ == account_head(account@, host@, following as int, followers as nat),
{
    profile_html(
        display_name(account).as_str(),
        account.username.as_str(),
        handle_text(account.username.as_str(), host).as_str(),
        following,
        followers,
    )
}

/// The answer to a request for a profile's page: its head and its posts.
pub fn profile(
    account: &Account,
    host: &str,
    followers: Result<usize, StoreError>,
    following: Result<i64, StoreError>,
    posts: Result<Vec<PostRecord>, StoreError>,
) -> (r: Reply)
    ensures
        r@ == profile_answer(
            account@,
            host@,
            followers,
            following,
            match posts {
                Ok(posts) => Ok(post_views(posts@)),
                Err(error) => Err(error),
            },
        ),
{
    match (followers, following, posts) {
        (Ok(followers), Ok(following), Ok(posts)) => {
            let mut body: String = account_head_html(account, host, following, followers);
            body.append(post_list_html(posts.as_slice(), account).as_str());
            Reply::Page { html: layout(body.as_str()), varies: false }
        },
        _ => Reply::Failure(Status::InternalServerError),
    }
}

/// The answer to a request for a post's page, where the store was asked for
/// the post.
pub fn post_page(
    account: &Account,
    host: &str,
    post: Result<Option<PostRecord>, StoreError>,
    followers: Result<usize, StoreError>,
    following: Result<i64, StoreError>,
) -> (r: Reply)
    ensures
        r@ == post_page_answer(account@, host@, stored_view(post), followers, following),
{
    match (post, followers, following) {
        (Ok(None), _, _) => Reply::Failure(Status::NotFound),
        (Ok(Some(post)), Ok(followers), Ok(following)) => {
            let mut body: String = account_head_html(account, host, following, followers);
            body.append(post_html(&post, account).as_str());
            Reply::Page { html: layout(body.as_str()), varies: true }
        },
        _ => Reply::Failure(Status::InternalServerError),
    }
}

/// The answer to a request for the list of followed actors.
pub fn following(profiles: Result<Vec<ActorProfile>, StoreError>) -> (r: Reply)
    ensures
        r@ == following_answer(
            match profiles {
                Ok(profiles) => Ok(profile_views(profiles@)),
                Err(error) => Err(error),
            },
        ),
{
    match profiles {
        Ok(profiles) => Reply::Page {
            html: layout(actor_list_html("Following", profiles.as_slice()).as_str()),
            varies: true,
        },
        Err(_) => Reply::Failure(Status::InternalServerError),
    }
}

/// Whether the JSON document of a federation endpoint, with its status, is
/// the answer; else the page is.
pub fn document_stands(status: u16) -> (r: bool)
    ensures
        r == is_acceptable(status),
{
    status != NOT_ACCEPTABLE
}

/// The texts are all IRIs.
pub open spec fn all_iris(ids: Seq<String>) -> bool {
    forall|i: int| 0 <= i < ids.len() ==> is_iri(#[trigger] ids[i]@)
}

/// The identifiers of stored followers, in the same order; where one is not
/// an IRI, the first such.
pub fn follower_ids(stored: &Vec<String>) -> (r: Result<Vec<Iri>, AddressError>)
    ensures
        match r {
            Ok(ids) => all_iris(stored@) && ids@.len() == stored@.len() && forall|i: int|
                0 <= i < ids@.len() ==> (#[trigger] ids@[i])@ == stored@[i]@,
            Err(error) => exists|i: int|
                0 <= i < stored@.len() && all_iris(stored@.take(i)) && !is_iri(
                    (#[trigger] stored@[i])@,
                ) && error@ == AddressError::InvalidIri(stored@[i]@),
        },
{
    let mut ids: Vec<Iri> = Vec::new();
    let mut i: usize = 0;
    while i < stored.len()
        invariant
            i <= stored@.len(),
            ids@.len() == i,
            all_iris(stored@.take(i as int)),
            forall|k: int| 0 <= k < i ==> (#[trigger] ids@[k])@ == stored@[k]@,
        decreases stored@.len() - i,
    {
        match parse_iri(stored[i].as_str()) {
            Ok(id) => {
                ids.push(id);
            },
            Err(error) => {
                assert(!is_iri(stored@[i as int]@));
                return Err(error);
            },
        }
        assert forall|k: int| 0 <= k < i + 1 implies is_iri(#[trigger] stored@.take(i + 1)[k]@) by {
            if k < i {
                assert(stored@.take(i as int)[k] == stored@[k]);
            }
        }
        i += 1;
    }
    assert(stored@.take(i as int) =~= stored@);
    Ok(ids)
}

/// How a follower is shown: as its server says, or by its identifier where
/// the server did not answer.
pub open spec fn follower_profile_of(
    uri: Seq<char>,
    resolved: Option<RemoteActor<Seq<char>>>,
) -> ActorProfile<Seq<char>> {
    match resolved {
        Some(actor) => profile_of(actor),
        None => unresolved_profile(uri),
    }
}

/// How a follower is shown.
pub fn follower_profile(uri: &Iri, resolved: Option<RemoteActor>) -> (r: ActorProfile)
    ensures
        r@ == follower_profile_of(uri@, remote_view(resolved)),
{
    match resolved {
        Some(actor) => actor_profile(&actor),
        None => unresolved_actor_profile(uri.as_str()),
    }
}

/// The profiles after fetching the next of the followers gave `resolved`.
/// Behind the last follower nothing is added.
pub open spec fn walked_on(
    followers: Seq<Seq<char>>,
    profiles: Seq<ActorProfile<Seq<char>>>,
    resolved: Option<RemoteActor<Seq<char>>>,
) -> Seq<ActorProfile<Seq<char>>> {
    if profiles.len() < followers.len() {
        profiles.push(follower_profile_of(followers[profiles.len() as int], resolved))
    } else {
        profiles
    }
}

/// The profiles after a walk in which fetching gave `outcomes` in turn.
pub open spec fn walked(
    followers: Seq<Seq<char>>,
    outcomes: Seq<Option<RemoteActor<Seq<char>>>>,
) -> Seq<ActorProfile<Seq<char>>>
    decreases outcomes.len(),
{
    if outcomes.len() == 0 {
        Seq::empty()
    } else {
        walked_on(followers, walked(followers, outcomes.drop_last()), outcomes.last())
    }
}

/// The walk over an account's followers that fetches them one by one.
#[derive(Debug)]
pub struct FollowerWalk {
    followers: Vec<Iri>,
    profiles: Vec<ActorProfile>,
}

impl FollowerWalk {
    /// The identifiers of all followers, in order.
    pub closed spec fn followers(self) -> Seq<Seq<char>> {
        self.followers@.map_values(|id: Iri| id@)
    }

    /// How the followers fetched so far are shown, in order.
    pub closed spec fn profiles(self) -> Seq<ActorProfile<Seq<char>>> {
        profile_views(self.profiles@)
    }

    /// There is at most one profile for each follower.
    #[verifier::type_invariant]
    spec fn in_step(self) -> bool {
        self.profiles@.len() <= self.followers@.len()
    }

    /// A walk that has fetched nothing yet.
    pub fn new(followers: Vec<Iri>) -> (r: FollowerWalk)
        ensures
            r.followers() == followers@.map_values(|id: Iri| id@),
            r.profiles() == Seq::<ActorProfile<Seq<char>>>::empty(),
    {
        let walk = FollowerWalk { followers, profiles: Vec::new() };
        assert(walk.profiles() =~= Seq::<ActorProfile<Seq<char>>>::empty());
        walk
    }

    /// The follower to fetch next, while there is one.
    pub fn next_target(&self) -> (r: Option<&Iri>)
        ensures
            self.profiles().len() <= self.followers().len(),
            r is Some <==> self.profiles().len() < self.followers().len(),
            r is Some ==> r->0@ == self.followers()[self.profiles().len() as int],
    {
        proof {
            use_type_invariant(self);
        }
        if self.profiles.len() < self.followers.len() {
            Some(&self.followers[self.profiles.len()])
        } else {
            None
        }
    }

    /// Takes what fetching the next follower gave.
    pub fn resolved(self, resolved: Option<RemoteActor>) -> (r: FollowerWalk)
        ensures
            r.followers() == self.followers(),
            r.profiles() == walked_on(
                self.followers(),
                self.profiles(),
                remote_view(resolved),
            ),
    {
        proof {
            use_type_invariant(&self);
        }
        let FollowerWalk { followers, mut profiles } = self;
        if profiles.len() < followers.len() {
            let next: ActorProfile = follower_profile(&followers[profiles.len()], resolved);
            let ghost shown = next@;
            let ghost before = profiles@;
            profiles.push(next);
            assert(profile_views(profiles@) =~= profile_views(before).push(shown));
        }
        FollowerWalk { followers, profiles }
    }

    /// The page that lists the followers fetched so far.
    pub fn reply(&self) -> (r: Reply)
        ensures
            r@ == followers_answer(self.profiles()),
    {
        Reply::Page {
            html: layout(followers_html(self.profiles.as_slice()).as_str()),
            varies: true,
        }
    }
}

/// A walk that fetched each follower once shows every follower once, in
/// order, those whose server did not answer by their identifiers.
pub proof fn law_walk_shows_every_follower(
    followers: Seq<Seq<char>>,
    outcomes: Seq<Option<RemoteActor<Seq<char>>>>,
)
    requires
        outcomes.len() <= followers.len(),
    ensures
        walked(followers, outcomes).len() == outcomes.len(),
        forall|i: int|
            0 <= i < outcomes.len() ==> #[trigger] walked(followers, outcomes)[i]
                == follower_profile_of(followers[i], outcomes[i]),
    decreases outcomes.len(),
{
    if outcomes.len() > 0 {
        law_walk_shows_every_follower(followers, outcomes.drop_last());
    }
}

/// The homes show what there is to show: the public one the timeline, the
/// admin one the composer, or the way to the setup without an account, and
/// the setup its form, as long as there is no account.
pub proof fn law_homes_show_what_there_is(
    account: Account<Seq<char>>,
    posts: Seq<TimelinePost<Seq<char>>>,
    error: StoreError,
)
    ensures
        public_home_answer(account, Ok(posts)) == (Reply::Page {
            html: page(public_home_markup(account, posts)),
            varies: false,
        }),
        public_home_answer(account, Err(error)) == Reply::<Seq<char>>::Failure(
            Status::InternalServerError,
        ),
        home_answer(Ok(Some(account))) == (Reply::Page {
            html: page(post_form_markup(account)),
            varies: false,
        }),
        home_answer(Ok(None)) == Reply::Redirect("/setup"@),
        home_answer(Err(error)) == Reply::Redirect("/setup"@),
        setup_form_answer(Ok(None)) == (Reply::Page { html: page(SETUP_FORM@), varies: false }),
        setup_form_answer(Ok(Some(account))) == Reply::Redirect("/"@),
        setup_form_answer(Err(error)) == Reply::Redirect("/setup"@),
{
}

/// A profile shows the account at the host that it was asked for at, with the
/// numbers that the store counts, and all of its posts; a post's page shows
/// that and the post. A post that the store does not have is not found, and
/// only a store that fails is an internal error.
pub proof fn law_profiles_show_the_account(
    account: Account<Seq<char>>,
    host: Seq<char>,
    followers: usize,
    following: i64,
    posts: Seq<PostRecord<Seq<char>>>,
    post: PostRecord<Seq<char>>,
    counted: Result<usize, StoreError>,
    followed: Result<i64, StoreError>,
    listed: Result<Seq<PostRecord<Seq<char>>>, StoreError>,
    error: StoreError,
)
    ensures
        ({
            let head = profile_markup(
                shown_name(account),
                account.username,
                seq!['@'] + account.username + seq!['@'] + host,
                following as int,
                followers as nat,
            );
            let author = ActorProfile {
                uri: "/users/"@ + account.username,
                name: account.name,
                handle: account.handle,
            };
            &&& profile_answer(account, host, Ok(followers), Ok(following), Ok(posts)) == (
            Reply::Page { html: page(head + post_list_markup(posts, account)), varies: false })
            &&& post_page_answer(
                account,
                host,
                Ok(Some(post)),
                Ok(followers),
                Ok(following),
            ) == (Reply::Page { html: page(head + article(post, author)), varies: true })
        }),
        counted is Err || followed is Err || listed is Err ==> profile_answer(
            account,
            host,
            counted,
            followed,
            listed,
        ) == Reply::<Seq<char>>::Failure(Status::InternalServerError),
        counted is Err || followed is Err ==> post_page_answer(
            account,
            host,
            Ok(Some(post)),
            counted,
            followed,
        ) == Reply::<Seq<char>>::Failure(Status::InternalServerError),
        post_page_answer(account, host, Ok(None), counted, followed) == Reply::<
            Seq<char>,
        >::Failure(Status::NotFound),
        post_page_answer(account, host, Err(error), counted, followed) == Reply::<
            Seq<char>,
        >::Failure(Status::InternalServerError),
{
    reveal_strlit("@");
    assert("@"@ =~= seq!['@']);
}

/// The lists of followed actors and of followers show all that they are given,
/// and say that another kind of answer could stand in their place.
pub proof fn law_followed_actors_are_listed(
    profiles: Seq<ActorProfile<Seq<char>>>,
    error: StoreError,
)
    ensures
        following_answer(Ok(profiles)) == (Reply::Page {
            html: page(actor_list_markup("Following"@, profiles)),
            varies: true,
        }),
        following_answer(Err(error)) == Reply::<Seq<char>>::Failure(Status::InternalServerError),
        followers_answer(profiles) == (Reply::Page {
            html: page(actor_list_markup("Followers"@, profiles)),
            varies: true,
        }),
{
}

/// A document that was asked for is the answer, whatever its status, unless
/// the endpoint says that it cannot give one that is acceptable.
pub proof fn law_only_unacceptable_documents_are_replaced(status: u16)
    ensures
        is_acceptable(status) <==> status != 406,
{
}

/// A post of the timeline comes with the author that the store names, linked
/// to by the profile's path where it is one of the blog, and by the
/// identifier otherwise.
pub proof fn law_timeline_names_the_author(row: TimelineRow<Seq<char>>, username: Seq<char>)
    ensures
        timeline_entry(row).post == row.post,
        timeline_entry(row).author.name == row.author_name,
        timeline_entry(row).author.handle == row.author_handle,
        row.author_username == Some(username) ==> timeline_entry(row).author.uri == "/users/"@
            + username,
        row.author_username is None ==> timeline_entry(row).author.uri == row.author_uri,
{
}

/// A follower whose server answered is shown as that says, and any other by
/// the identifier under which it follows.
pub proof fn law_followers_are_shown_as_they_say(uri: Seq<char>, actor: RemoteActor<Seq<char>>)
    ensures
        follower_profile_of(uri, Some(actor)) == profile_of(actor),
        follower_profile_of(uri, None) == (ActorProfile { uri, name: None, handle: uri }),
{
}

/// Behind the last follower a walk adds nothing, and before it each step adds
/// the next one to those before.
pub proof fn law_walk_adds_the_next_follower(
    followers: Seq<Seq<char>>,
    profiles: Seq<ActorProfile<Seq<char>>>,
    resolved: Option<RemoteActor<Seq<char>>>,
)
    ensures
        profiles.len() >= followers.len() ==> walked_on(followers, profiles, resolved) == profiles,
        profiles.len() < followers.len() ==> {
            &&& walked_on(followers, profiles, resolved).drop_last() == profiles
            &&& walked_on(followers, profiles, resolved).last() == follower_profile_of(
                followers[profiles.len() as int],
                resolved,
            )
        },
{
    if profiles.len() < followers.len() {
        assert(walked_on(followers, profiles, resolved).drop_last() =~= profiles);
    }
}

} // verus!
