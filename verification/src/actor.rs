//! Actors: how remote ones are shown and recorded, and the local one that
//! the blog publishes.
use vstd::prelude::*;

use crate::account::{display_name, shown_name, Account};
use crate::address::{
    actor_uri, actor_uri_text, address, iri_of, is_iri, origin_of, parse_iri, parse_url,
    parsed_url, public_actor_uri, public_origin, AddressError, Iri, WebUrl,
};
use crate::text::{optional, optional_str, same_text, trim_end_char, without_trailing};

verus! {

/// An actor as pages show it. `Text` is a `String` in programs and a sequence
/// of characters in specifications.
#[derive(Debug)]
pub struct ActorProfile<Text = String> {
    pub uri: Text,
    pub name: Option<Text>,
    pub handle: Text,
}

impl View for ActorProfile {
    type V = ActorProfile<Seq<char>>;

    open spec fn view(&self) -> ActorProfile<Seq<char>> {
        ActorProfile { uri: self.uri@, name: optional(self.name), handle: self.handle@ }
    }
}

/// What a remote server says of one of its actors.
#[derive(Debug)]
pub struct RemoteActor<Text = String> {
    pub id: Text,
    pub preferred_username: Option<Text>,
    pub name: Option<Text>,
    pub inbox: Text,
    pub shared_inbox: Option<Text>,
}

impl View for RemoteActor {
    type V = RemoteActor<Seq<char>>;

    open spec fn view(&self) -> RemoteActor<Seq<char>> {
        RemoteActor {
            id: self.id@,
            preferred_username: optional(self.preferred_username),
            name: optional(self.name),
            inbox: self.inbox@,
            shared_inbox: optional(self.shared_inbox),
        }
    }
}

/// A fetched actor by its view, where it was found.
pub open spec fn remote_view(actor: Option<RemoteActor>) -> Option<RemoteActor<Seq<char>>> {
    match actor {
        Some(actor) => Some(actor@),
        None => None,
    }
}

/// What the store keeps of an actor that the account follows.
#[derive(Debug)]
pub struct FollowingRecord<Text = String> {
    pub uri: Text,
    pub handle: Text,
    pub name: Option<Text>,
    pub inbox_url: Text,
    pub shared_inbox_url: Option<Text>,
    pub url: Text,
    pub follow_activity_id: Text,
}

impl View for FollowingRecord {
    type V = FollowingRecord<Seq<char>>;

    open spec fn view(&self) -> FollowingRecord<Seq<char>> {
        FollowingRecord {
            uri: self.uri@,
            handle: self.handle@,
            name: optional(self.name),
            inbox_url: self.inbox_url@,
            shared_inbox_url: optional(self.shared_inbox_url),
            url: self.url@,
            follow_activity_id: self.follow_activity_id@,
        }
    }
}

/// The handle of a user at a host.
pub open spec fn handle_at(username: Seq<char>, host: Seq<char>) -> Seq<char> {
    "@"@ + username + "@"@ + host
}

/// A name, unless it is empty.
pub open spec fn not_empty(name: Option<Seq<char>>) -> Option<Seq<char>> {
    match name {
        Some(text) => if text.len() > 0 {
            name
        } else {
            None
        },
        None => None,
    }
}

/// The host of a URL, where there is one.
pub open spec fn url_host(url: Option<WebUrl<Seq<char>>>) -> Option<Seq<char>> {
    match url {
        Some(url) => url.host,
        None => None,
    }
}

/// How pages show a remote actor whose identifier has the given host. An
/// actor without a username, or whose identifier has no host, goes by its
/// identifier.
pub open spec fn profile_at(
    actor: RemoteActor<Seq<char>>,
    host: Option<Seq<char>>,
) -> ActorProfile<Seq<char>> {
    ActorProfile {
        uri: actor.id,
        name: not_empty(actor.name),
        handle: match (actor.preferred_username, host) {
            (Some(username), Some(host)) => handle_at(username, host),
            _ => actor.id,
        },
    }
}

/// How pages show a remote actor.
pub open spec fn profile_of(actor: RemoteActor<Seq<char>>) -> ActorProfile<Seq<char>> {
    profile_at(actor, url_host(parsed_url(actor.id)))
}

/// How pages show an actor that could not be fetched.
pub open spec fn unresolved_profile(uri: Seq<char>) -> ActorProfile<Seq<char>> {
    ActorProfile { uri, name: None, handle: uri }
}

/// What the store keeps of a followed actor.
pub open spec fn following_record_of(
    actor: RemoteActor<Seq<char>>,
    follow_id: Seq<char>,
) -> FollowingRecord<Seq<char>> {
    FollowingRecord {
        uri: actor.id,
        handle: profile_of(actor).handle,
        name: profile_of(actor).name,
        inbox_url: actor.inbox,
        shared_inbox_url: actor.shared_inbox,
        url: actor.id,
        follow_activity_id: follow_id,
    }
}

fn copy_optional(text: &Option<String>) -> (r: Option<String>)
    ensures
        optional(r) == optional(*text),
{
    match text {
        Some(text) => Some(text.clone()),
        None => None,
    }
}

/// The handle of a user at a host.
pub fn handle_text(username: &str, host: &str) -> (r: String)
    ensures
        r@ == handle_at(username@, host@),
{
    let mut out: String = "@".to_owned();
    out.append(username);
    out.append("@");
    out.append(host);
    out
}

/// How pages show a remote actor whose identifier has the given host.
pub fn actor_profile_at(actor: &RemoteActor, host: Option<&str>) -> (r: ActorProfile)
    ensures
        r@ == profile_at(actor@, optional_str(host)),
{
    let handle: String = match (&actor.preferred_username, host) {
        (Some(username), Some(host)) => handle_text(username.as_str(), host),
        _ => actor.id.clone(),
    };
    let name: Option<String> = match &actor.name {
        Some(name) => if !name.as_str().is_empty() {
            Some(name.clone())
        } else {
            None
        },
        None => None,
    };
    ActorProfile { uri: actor.id.clone(), name, handle }
}

/// How pages show a remote actor.
pub fn actor_profile(actor: &RemoteActor) -> (r: ActorProfile)
    ensures
        r@ == profile_of(actor@),
{
    match parse_url(actor.id.as_str()) {
        Ok(url) => match &url.host {
            Some(host) => actor_profile_at(actor, Some(host.as_str())),
            None => actor_profile_at(actor, None),
        },
        Err(_) => actor_profile_at(actor, None),
    }
}

/// How pages show an actor that could not be fetched.
pub fn unresolved_actor_profile(uri: &str) -> (r: ActorProfile)
    ensures
        r@ == unresolved_profile(uri@),
{
    ActorProfile { uri: uri.to_owned(), name: None, handle: uri.to_owned() }
}

/// What the store keeps of a followed actor.
pub fn following_record(actor: &RemoteActor, follow_id: &Iri) -> (r: FollowingRecord)
    ensures
        r@ == following_record_of(actor@, follow_id@),
{
    let profile: ActorProfile = actor_profile(actor);
    FollowingRecord {
        uri: actor.id.clone(),
        handle: profile.handle,
        name: profile.name,
        inbox_url: actor.inbox.clone(),
        shared_inbox_url: copy_optional(&actor.shared_inbox),
        url: actor.id.clone(),
        follow_activity_id: follow_id.to_text(),
    }
}

/// The identifiers that belong to the local actor.
#[derive(Debug)]
pub struct ActorAddresses<Id = Iri> {
    pub id: Id,
    pub inbox: Id,
    pub outbox: Id,
    pub followers: Id,
    pub shared_inbox: Id,
}

impl View for ActorAddresses {
    type V = ActorAddresses<Seq<char>>;

    open spec fn view(&self) -> ActorAddresses<Seq<char>> {
        ActorAddresses {
            id: self.id@,
            inbox: self.inbox@,
            outbox: self.outbox@,
            followers: self.followers@,
            shared_inbox: self.shared_inbox@,
        }
    }
}

/// The actor that the blog publishes, a person.
#[derive(Debug)]
pub struct LocalActor<Id = Iri, Text = String> {
    pub addresses: ActorAddresses<Id>,
    pub preferred_username: Text,
    pub name: Text,
    pub key_id: Id,
    pub public_key_pem: Text,
}

impl View for LocalActor {
    type V = LocalActor<Seq<char>, Seq<char>>;

    open spec fn view(&self) -> LocalActor<Seq<char>, Seq<char>> {
        LocalActor {
            addresses: self.addresses@,
            preferred_username: self.preferred_username@,
            name: self.name@,
            key_id: self.key_id@,
            public_key_pem: self.public_key_pem@,
        }
    }
}

/// The identifiers of the actor `username` under an origin.
pub open spec fn addresses_under(origin: Seq<char>, username: Seq<char>) -> ActorAddresses<
    Seq<char>,
> {
    let id = actor_uri(origin, username);
    ActorAddresses {
        id,
        inbox: id + "/inbox"@,
        outbox: id + "/outbox"@,
        followers: id + "/followers"@,
        shared_inbox: without_trailing(origin, '/') + "/inbox"@,
    }
}

/// The identifiers from their parsed forms; where one did not parse, the
/// first such error.
pub open spec fn gathered(
    id: Result<Seq<char>, AddressError<Seq<char>>>,
    inbox: Result<Seq<char>, AddressError<Seq<char>>>,
    outbox: Result<Seq<char>, AddressError<Seq<char>>>,
    followers: Result<Seq<char>, AddressError<Seq<char>>>,
    shared_inbox: Result<Seq<char>, AddressError<Seq<char>>>,
) -> Result<ActorAddresses<Seq<char>>, AddressError<Seq<char>>> {
    match (id, inbox, outbox, followers, shared_inbox) {
        (Ok(id), Ok(inbox), Ok(outbox), Ok(followers), Ok(shared_inbox)) => Ok(
            ActorAddresses { id, inbox, outbox, followers, shared_inbox },
        ),
        (Err(error), _, _, _, _) => Err(error),
        (_, Err(error), _, _, _) => Err(error),
        (_, _, Err(error), _, _) => Err(error),
        (_, _, _, Err(error), _) => Err(error),
        (_, _, _, _, Err(error)) => Err(error),
    }
}

/// The identifiers, where each of them is an IRI; else the first that is not.
pub open spec fn checked_addresses(addresses: ActorAddresses<Seq<char>>) -> Result<
    ActorAddresses<Seq<char>>,
    AddressError<Seq<char>>,
> {
    gathered(
        iri_of(addresses.id),
        iri_of(addresses.inbox),
        iri_of(addresses.outbox),
        iri_of(addresses.followers),
        iri_of(addresses.shared_inbox),
    )
}

/// The identifiers of the actor `username` under the public origin.
pub open spec fn local_addresses(configured: Option<Seq<char>>, username: Seq<char>) -> Result<
    ActorAddresses<Seq<char>>,
    AddressError<Seq<char>>,
> {
    match origin_of(configured) {
        Ok(origin) => checked_addresses(addresses_under(origin.text, username)),
        Err(error) => Err(AddressError::Origin(error)),
    }
}

/// The identifier of an actor's signing key.
pub open spec fn key_uri(id: Seq<char>) -> Seq<char> {
    id + "#main-key"@
}

/// The local actor of an account, by the parsed identifier of its key.
pub open spec fn local_actor_with(
    account: Account<Seq<char>>,
    addresses: ActorAddresses<Seq<char>>,
    key_id: Result<Seq<char>, AddressError<Seq<char>>>,
    public_key_pem: Seq<char>,
) -> Result<LocalActor<Seq<char>, Seq<char>>, AddressError<Seq<char>>> {
    match key_id {
        Ok(key_id) => Ok(
            LocalActor {
                addresses,
                preferred_username: account.username,
                name: shown_name(account),
                key_id,
                public_key_pem,
            },
        ),
        Err(error) => Err(error),
    }
}

/// The local actor of an account.
pub open spec fn local_actor_of(
    account: Account<Seq<char>>,
    addresses: ActorAddresses<Seq<char>>,
    public_key_pem: Seq<char>,
) -> Result<LocalActor<Seq<char>, Seq<char>>, AddressError<Seq<char>>> {
    local_actor_with(account, addresses, iri_of(key_uri(addresses.id)), public_key_pem)
}

fn parse_joined(base: &str, suffix: &str) -> (r: Result<Iri, AddressError>)
    ensures
        address(r) == iri_of(base@ + suffix@),
{
    let mut value: String = base.to_owned();
    value.append(suffix);
    parse_iri(value.as_str())
}

/// The identifiers from their parsed forms; where one did not parse, the
/// first such error.
pub fn gather_addresses(
    id: Result<Iri, AddressError>,
    inbox: Result<Iri, AddressError>,
    outbox: Result<Iri, AddressError>,
    followers: Result<Iri, AddressError>,
    shared_inbox: Result<Iri, AddressError>,
) -> (r: Result<ActorAddresses, AddressError>)
    ensures
        ({
            let expected = gathered(
                address(id),
                address(inbox),
                address(outbox),
                address(followers),
                address(shared_inbox),
            );
            match r {
                Ok(addresses) => expected == Ok::<_, AddressError<Seq<char>>>(addresses@),
                Err(error) => expected == Err::<ActorAddresses<Seq<char>>, _>(error@),
            }
        }),
{
    match (id, inbox, outbox, followers, shared_inbox) {
        (Ok(id), Ok(inbox), Ok(outbox), Ok(followers), Ok(shared_inbox)) => Ok(
            ActorAddresses { id, inbox, outbox, followers, shared_inbox },
        ),
        (Err(error), _, _, _, _) => Err(error),
        (_, Err(error), _, _, _) => Err(error),
        (_, _, Err(error), _, _) => Err(error),
        (_, _, _, Err(error), _) => Err(error),
        (_, _, _, _, Err(error)) => Err(error),
    }
}

/// The identifiers of an account's actor under an origin.
pub fn actor_addresses(account: &Account, origin: &str) -> (r: Result<ActorAddresses, AddressError>)
    ensures
        match r {
            Ok(addresses) => checked_addresses(addresses_under(origin@, account@.username)) == Ok::<
                _,
                AddressError<Seq<char>>,
            >(addresses@),
            Err(error) => checked_addresses(addresses_under(origin@, account@.username)) == Err::<
                ActorAddresses<Seq<char>>,
                _,
            >(error@),
        },
{
    let id: String = actor_uri_text(origin, account.username.as_str());
    gather_addresses(
        parse_iri(id.as_str()),
        parse_joined(id.as_str(), "/inbox"),
        parse_joined(id.as_str(), "/outbox"),
        parse_joined(id.as_str(), "/followers"),
        parse_joined(trim_end_char(origin, '/').as_str(), "/inbox"),
    )
}

/// The identifiers of an account's actor under the public origin.
pub fn local_actor_addresses(account: &Account, configured: Option<&str>) -> (r: Result<
    ActorAddresses,
    AddressError,
>)
    ensures
        match r {
            Ok(addresses) => local_addresses(optional_str(configured), account@.username) == Ok::<
                _,
                AddressError<Seq<char>>,
            >(addresses@),
            Err(error) => local_addresses(optional_str(configured), account@.username) == Err::<
                ActorAddresses<Seq<char>>,
                _,
            >(error@),
        },
{
    match public_origin(configured) {
        Ok(origin) => actor_addresses(account, origin.text.as_str()),
        Err(error) => Err(AddressError::Origin(error)),
    }
}

/// The local actor of an account, by the parsed identifier of its key.
pub fn assemble_local_actor(
    account: &Account,
    addresses: ActorAddresses,
    key_id: Result<Iri, AddressError>,
    public_key_pem: String,
) -> (r: Result<LocalActor, AddressError>)
    ensures
        ({
            let expected = local_actor_with(
                account@,
                addresses@,
                address(key_id),
                public_key_pem@,
            );
            match r {
                Ok(actor) => expected == Ok::<_, AddressError<Seq<char>>>(actor@),
                Err(error) => expected == Err::<LocalActor<Seq<char>, Seq<char>>, _>(error@),
            }
        }),
{
    match key_id {
        Ok(key_id) => Ok(
            LocalActor {
                addresses,
                preferred_username: account.username.clone(),
                name: display_name(account),
                key_id,
                public_key_pem,
            },
        ),
        Err(error) => Err(error),
    }
}

/// The local actor of an account, with the public half of its signing key.
pub fn build_local_actor(
    account: &Account,
    addresses: ActorAddresses,
    public_key_pem: String,
) -> (r: Result<LocalActor, AddressError>)
    ensures
        match r {
            Ok(actor) => local_actor_of(account@, addresses@, public_key_pem@) == Ok::<
                _,
                AddressError<Seq<char>>,
            >(actor@),
            Err(error) => local_actor_of(account@, addresses@, public_key_pem@) == Err::<
                LocalActor<Seq<char>, Seq<char>>,
                _,
            >(error@),
        },
{
    let key_id: Result<Iri, AddressError> = parse_joined(addresses.id.as_str(), "#main-key");
    assemble_local_actor(account, addresses, key_id, public_key_pem)
}

impl LocalActor {
    /// The owner of the actor's signing key, which is the actor itself.
    pub fn key_owner(&self) -> (r: &Iri)
        ensures
            r@ == self@.addresses.id,
    {
        &self.addresses.id
    }

    /// The address of the actor's page, which is its identifier.
    pub fn url(&self) -> (r: &Iri)
        ensures
            r@ == self@.addresses.id,
    {
        &self.addresses.id
    }
}

/// Finds the blog's one actor by its username or its identifier.
#[derive(Debug)]
pub struct SingleActorDispatcher {
    pub actor: Option<LocalActor>,
}

impl View for SingleActorDispatcher {
    type V = Option<LocalActor<Seq<char>, Seq<char>>>;

    open spec fn view(&self) -> Option<LocalActor<Seq<char>, Seq<char>>> {
        match self.actor {
            Some(actor) => Some(actor@),
            None => None,
        }
    }
}

/// The actor with the username `identifier`.
pub open spec fn actor_named(
    actor: Option<LocalActor<Seq<char>, Seq<char>>>,
    identifier: Seq<char>,
) -> Option<LocalActor<Seq<char>, Seq<char>>> {
    match actor {
        Some(found) => if found.preferred_username == identifier {
            actor
        } else {
            None
        },
        None => None,
    }
}

/// The actor with the identifier `id`.
pub open spec fn actor_with_id(
    actor: Option<LocalActor<Seq<char>, Seq<char>>>,
    id: Seq<char>,
) -> Option<LocalActor<Seq<char>, Seq<char>>> {
    match actor {
        Some(found) => if found.addresses.id == id {
            actor
        } else {
            None
        },
        None => None,
    }
}

/// A found actor by its view.
pub open spec fn found(actor: Option<&LocalActor>) -> Option<LocalActor<Seq<char>, Seq<char>>> {
    match actor {
        Some(actor) => Some(actor@),
        None => None,
    }
}

impl SingleActorDispatcher {
    /// The actor with the username `identifier`.
    pub fn get_actor(&self, identifier: &str) -> (r: Option<&LocalActor>)
        ensures
            found(r) == actor_named(self@, identifier@),
    {
        match &self.actor {
            Some(actor) => if same_text(actor.preferred_username.as_str(), identifier) {
                Some(actor)
            } else {
                None
            },
            None => None,
        }
    }

    /// The actor with the identifier `actor_id`.
    pub fn get_actor_by_id(&self, actor_id: &str) -> (r: Option<&LocalActor>)
        ensures
            found(r) == actor_with_id(self@, actor_id@),
    {
        match &self.actor {
            Some(actor) => if same_text(actor.addresses.id.as_str(), actor_id) {
                Some(actor)
            } else {
                None
            },
            None => None,
        }
    }

    /// Publishes an actor in the place of the one before.
    pub fn set_actor(&mut self, actor: LocalActor)
        ensures
            final(self)@ == Some(actor@),
    {
        self.actor = Some(actor);
    }
}

/// Once an account's actor is published, its username and its identifier
/// find it and nothing else does.
pub proof fn law_published_actor_is_found(
    configured: Option<Seq<char>>,
    account: Account<Seq<char>>,
    public_key_pem: Seq<char>,
    identifier: Seq<char>,
)
    requires
        local_addresses(configured, account.username) is Ok,
        local_actor_of(account, local_addresses(configured, account.username)->Ok_0, public_key_pem)
            is Ok,
    ensures
        ({
            let addresses = local_addresses(configured, account.username)->Ok_0;
            let actor = local_actor_of(account, addresses, public_key_pem)->Ok_0;
            &&& actor_named(Some(actor), account.username) == Some(actor)
            &&& identifier != account.username ==> actor_named(Some(actor), identifier) is None
            &&& actor_with_id(Some(actor), addresses.id) == Some(actor)
            &&& identifier != addresses.id ==> actor_with_id(Some(actor), identifier) is None
        }),
{
}

/// The identifier of the published actor is the one that the blog derives
/// for the account wherever it names it.
pub proof fn law_local_actor_has_the_public_id(configured: Option<Seq<char>>, username: Seq<char>)
    requires
        local_addresses(configured, username) is Ok,
    ensures
        public_actor_uri(configured, username) == Ok::<_, AddressError<Seq<char>>>(
            local_addresses(configured, username)->Ok_0.id,
        ),
{
}

/// The local actor stands under the public origin: its identifier is the
/// origin's path for the username, its inbox, outbox, followers and key stand
/// under the identifier, and the shared inbox right under the origin. It goes
/// by the account's username and the name that the account shows.
pub proof fn law_local_actor_stands_under_the_origin(
    configured: Option<Seq<char>>,
    account: Account<Seq<char>>,
    public_key_pem: Seq<char>,
)
    requires
        local_addresses(configured, account.username) is Ok,
        local_actor_of(account, local_addresses(configured, account.username)->Ok_0, public_key_pem)
            is Ok,
    ensures
        origin_of(configured) is Ok,
        ({
            let origin = without_trailing(origin_of(configured)->Ok_0.text, '/');
            let id = origin + "/users/"@ + account.username;
            let addresses = local_addresses(configured, account.username)->Ok_0;
            let actor = local_actor_of(account, addresses, public_key_pem)->Ok_0;
            &&& actor.addresses.id == id
            &&& actor.addresses.inbox == id + "/inbox"@
            &&& actor.addresses.outbox == id + "/outbox"@
            &&& actor.addresses.followers == id + "/followers"@
            &&& actor.addresses.shared_inbox == origin + "/inbox"@
            &&& actor.preferred_username == account.username
            &&& actor.name == shown_name(account)
            &&& actor.key_id == id + "#main-key"@
            &&& actor.public_key_pem == public_key_pem
        }),
{
}

/// A followed actor is shown in the list of followed actors as it is shown
/// everywhere else.
pub proof fn law_record_shows_the_profile(actor: RemoteActor<Seq<char>>, follow_id: Seq<char>)
    ensures
        ({
            let record = following_record_of(actor, follow_id);
            (ActorProfile { uri: record.uri, name: record.name, handle: record.handle })
                == profile_of(actor)
        }),
{
}

/// A remote actor is shown by its own identifier and by the name that it has.
/// Its handle is its username at the host of its identifier; without either
/// it goes by the identifier.
pub proof fn law_profile_shows_what_the_actor_says(
    actor: RemoteActor<Seq<char>>,
    username: Seq<char>,
    url: WebUrl<Seq<char>>,
    host: Seq<char>,
)
    ensures
        profile_of(actor).uri == actor.id,
        actor.name is Some && actor.name->0 != Seq::<char>::empty() ==> profile_of(actor).name
            == actor.name,
        actor.name is None || actor.name->0 == Seq::<char>::empty() ==> profile_of(actor).name
            is None,
        actor.preferred_username == Some(username) && parsed_url(actor.id) == Some(url) && url.host
            == Some(host) ==> profile_of(actor).handle == seq!['@'] + username + seq!['@'] + host,
        actor.preferred_username is None || parsed_url(actor.id) is None || (parsed_url(actor.id)
            == Some(url) && url.host is None) ==> profile_of(actor).handle == actor.id,
{
    reveal_strlit("@");
    assert("@"@ =~= seq!['@']);
    if actor.name is Some && actor.name->0.len() == 0 {
        assert(actor.name->0 =~= Seq::<char>::empty());
    }
}

/// An actor that could not be fetched is shown by its identifier alone.
pub proof fn law_unresolved_actor_goes_by_its_id(uri: Seq<char>)
    ensures
        unresolved_profile(uri).uri == uri,
        unresolved_profile(uri).handle == uri,
        unresolved_profile(uri).name is None,
{
}

/// A followed actor is recorded with the inboxes that it names, under its
/// identifier, and with the activity that asked.
pub proof fn law_record_keeps_what_the_actor_says(
    actor: RemoteActor<Seq<char>>,
    follow_id: Seq<char>,
)
    ensures
        following_record_of(actor, follow_id).uri == actor.id,
        following_record_of(actor, follow_id).url == actor.id,
        following_record_of(actor, follow_id).inbox_url == actor.inbox,
        following_record_of(actor, follow_id).shared_inbox_url == actor.shared_inbox,
        following_record_of(actor, follow_id).follow_activity_id == follow_id,
{
}

/// The local actor has its identifiers wherever there is an origin and each
/// of them is an IRI; the error says which of the two fails.
pub proof fn law_local_actor_needs_iris_only(
    configured: Option<Seq<char>>,
    account: Account<Seq<char>>,
    addresses: ActorAddresses<Seq<char>>,
    public_key_pem: Seq<char>,
)
    ensures
        match origin_of(configured) {
            Ok(origin) => {
                let base = without_trailing(origin.text, '/');
                let id = base + "/users/"@ + account.username;
                &&& local_addresses(configured, account.username) is Ok <==> is_iri(id) && is_iri(
                    id + "/inbox"@,
                ) && is_iri(id + "/outbox"@) && is_iri(id + "/followers"@) && is_iri(
                    base + "/inbox"@,
                )
                &&& local_addresses(configured, account.username) matches Err(error) ==> error
                    is InvalidIri && !is_iri(error->InvalidIri_0)
            },
            Err(error) => local_addresses(configured, account.username) == Err::<
                ActorAddresses<Seq<char>>,
                _,
            >(AddressError::<Seq<char>>::Origin(error)),
        },
        local_actor_of(account, addresses, public_key_pem) is Ok <==> is_iri(
            addresses.id + "#main-key"@,
        ),
        local_actor_of(account, addresses, public_key_pem) is Ok ==> local_actor_of(
            account,
            addresses,
            public_key_pem,
        )->Ok_0.addresses == addresses,
{
}

/// The published actor is found by exactly its username and exactly its
/// identifier.
pub proof fn law_an_actor_is_found_by_its_own_names(
    actor: LocalActor<Seq<char>, Seq<char>>,
    sought: Seq<char>,
)
    ensures
        actor_named(Some(actor), sought) == if sought == actor.preferred_username {
            Some(actor)
        } else {
            None
        },
        actor_with_id(Some(actor), sought) == if sought == actor.addresses.id {
            Some(actor)
        } else {
            None
        },
        actor_named(None, sought) is None,
        actor_with_id(None, sought) is None,
{
}

/// A fetched actor is viewed as it is.
pub proof fn law_fetched_actor_is_viewed_as_it_is(actor: RemoteActor)
    ensures
        remote_view(Some(actor)) == Some(actor@),
        remote_view(None) is None,
        actor@.id == actor.id@,
        actor@.inbox == actor.inbox@,
        actor.name is Some ==> actor@.name == Some(actor.name->0@),
        actor.preferred_username is Some ==> actor@.preferred_username == Some(
            actor.preferred_username->0@,
        ),
        actor.shared_inbox is Some ==> actor@.shared_inbox == Some(actor.shared_inbox->0@),
{
}

} // verus!
