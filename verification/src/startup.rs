//! Starting the server: the actor that is published from the beginning, and
//! the host of the blog's handles.
use vstd::prelude::*;

use crate::account::Account;
use crate::actor::{
    actor_named, build_local_actor, local_actor_addresses, local_actor_of, local_addresses,
    ActorAddresses, LocalActor, SingleActorDispatcher,
};
use crate::address::{
    host_and_port, origin_of, public_actor_uri, public_handle_host, AddressError, Iri, OriginError,
    WebUrl,
};
use crate::replies::{account_view, stored_text, StoreError};
use crate::text::optional_str;

verus! {

/// Why the server cannot start.
#[derive(Debug)]
pub enum StartError<Text = String> {
    /// The store could not be read.
    Store,
    /// The account's actor has no identifiers.
    Address(AddressError<Text>),
    /// There is no public origin.
    Origin(OriginError),
}

impl View for StartError {
    type V = StartError<Seq<char>>;

    open spec fn view(&self) -> StartError<Seq<char>> {
        match *self {
            StartError::Store => StartError::Store,
            StartError::Address(error) => StartError::Address(error@),
            StartError::Origin(error) => StartError::Origin(error),
        }
    }
}

/// An account whose actor waits for its signing key. In specifications `Id`
/// and `Text` are sequences of characters.
#[derive(Debug)]
pub struct KeyRequest<Id = Iri, Text = String> {
    pub account: Account<Text>,
    pub addresses: ActorAddresses<Id>,
}

impl View for KeyRequest {
    type V = KeyRequest<Seq<char>, Seq<char>>;

    open spec fn view(&self) -> KeyRequest<Seq<char>, Seq<char>> {
        KeyRequest { account: self.account@, addresses: self.addresses@ }
    }
}

/// What the server starts with.
#[derive(Debug)]
pub struct Started {
    pub actors: SingleActorDispatcher,
    pub handle_host: String,
}

/// What the server starts with, in specifications.
pub struct StartedView {
    pub actor: Option<LocalActor<Seq<char>, Seq<char>>>,
    pub handle_host: Seq<char>,
}

impl View for Started {
    type V = StartedView;

    open spec fn view(&self) -> StartedView {
        StartedView { actor: self.actors@, handle_host: self.handle_host@ }
    }
}

/// The account to start with, where the store has one: its actor waits for
/// the key.
pub open spec fn starting(
    account: Result<Option<Account<Seq<char>>>, StoreError>,
    configured: Option<Seq<char>>,
) -> Result<Option<KeyRequest<Seq<char>, Seq<char>>>, StartError<Seq<char>>> {
    match account {
        Ok(Some(account)) => match local_addresses(configured, account.username) {
            Ok(addresses) => Ok(Some(KeyRequest { account, addresses })),
            Err(error) => Err(StartError::Address(error)),
        },
        Ok(None) => Ok(None),
        Err(_) => Err(StartError::Store),
    }
}

/// The actor of an account, with the public half of its stored key.
pub open spec fn keyed_actor(
    request: KeyRequest<Seq<char>, Seq<char>>,
    public_key_pem: Result<Seq<char>, StoreError>,
) -> Result<LocalActor<Seq<char>, Seq<char>>, StartError<Seq<char>>> {
    match public_key_pem {
        Ok(pem) => match local_actor_of(request.account, request.addresses, pem) {
            Ok(actor) => Ok(actor),
            Err(error) => Err(StartError::Address(error)),
        },
        Err(_) => Err(StartError::Store),
    }
}

/// What the server starts with, by the actor that it publishes.
pub open spec fn ready_with(
    actor: Option<LocalActor<Seq<char>, Seq<char>>>,
    configured: Option<Seq<char>>,
) -> Result<StartedView, StartError<Seq<char>>> {
    match origin_of(configured) {
        Ok(origin) => Ok(
            StartedView { actor, handle_host: host_and_port(origin.host->0, origin.port) },
        ),
        Err(error) => Err(StartError::Origin(error)),
    }
}

/// A whole start: the account is loaded, its actor gets the key, and the
/// server is ready. Without an account no key is asked for.
pub open spec fn start_of(
    account: Result<Option<Account<Seq<char>>>, StoreError>,
    public_key_pem: Result<Seq<char>, StoreError>,
    configured: Option<Seq<char>>,
) -> Result<StartedView, StartError<Seq<char>>> {
    match starting(account, configured) {
        Ok(Some(request)) => match keyed_actor(request, public_key_pem) {
            Ok(actor) => ready_with(Some(actor), configured),
            Err(error) => Err(error),
        },
        Ok(None) => ready_with(None, configured),
        Err(error) => Err(error),
    }
}

/// The account to start with, where the store has one.
pub fn starting_account(
    account: Result<Option<Account>, StoreError>,
    configured: Option<&str>,
) -> (r: Result<Option<KeyRequest>, StartError>)
    ensures
        ({
            let expected = starting(account_view(account), optional_str(configured));
            match r {
                Ok(Some(request)) => expected == Ok::<_, StartError<Seq<char>>>(Some(request@)),
                Ok(None) => expected == Ok::<_, StartError<Seq<char>>>(
                    None::<KeyRequest<Seq<char>, Seq<char>>>,
                ),
                Err(error) => expected == Err::<Option<KeyRequest<Seq<char>, Seq<char>>>, _>(
                    error@,
                ),
            }
        }),
{
    match account {
        Ok(Some(account)) => match local_actor_addresses(&account, configured) {
            Ok(addresses) => Ok(Some(KeyRequest { account, addresses })),
            Err(error) => Err(StartError::Address(error)),
        },
        Ok(None) => Ok(None),
        Err(_) => Err(StartError::Store),
    }
}

/// The actor of an account, with the public half of its stored key.
pub fn actor_with_key(request: KeyRequest, public_key_pem: Result<String, StoreError>) -> (r:
    Result<LocalActor, StartError>)
    ensures
        ({
            let expected = keyed_actor(request@, stored_text(public_key_pem));
            match r {
                Ok(actor) => expected == Ok::<_, StartError<Seq<char>>>(actor@),
                Err(error) => expected == Err::<LocalActor<Seq<char>, Seq<char>>, _>(error@),
            }
        }),
{
    match public_key_pem {
        Ok(pem) => match build_local_actor(&request.account, request.addresses, pem) {
            Ok(actor) => Ok(actor),
            Err(error) => Err(StartError::Address(error)),
        },
        Err(_) => Err(StartError::Store),
    }
}

/// What the server starts with, by the actor that it publishes.
pub fn ready(actor: Option<LocalActor>, configured: Option<&str>) -> (r: Result<
    Started,
    StartError,
>)
    ensures
        ({
            let expected = ready_with(
                match actor {
                    Some(actor) => Some(actor@),
                    None => None,
                },
                optional_str(configured),
            );
            match r {
                Ok(started) => expected == Ok::<_, StartError<Seq<char>>>(started@),
                Err(error) => expected == Err::<StartedView, _>(error@),
            }
        }),
{
    match public_handle_host(configured) {
        Ok(handle_host) => Ok(Started { actors: SingleActorDispatcher { actor }, handle_host }),
        Err(error) => Err(StartError::Origin(error)),
    }
}

/// A started server publishes the actor of the stored account, under its
/// public identifier, and no other; without an account it publishes none.
pub proof fn law_start_publishes_the_account(
    account: Result<Option<Account<Seq<char>>>, StoreError>,
    public_key_pem: Result<Seq<char>, StoreError>,
    configured: Option<Seq<char>>,
    username: Seq<char>,
)
    requires
        start_of(account, public_key_pem, configured) is Ok,
    ensures
        account is Ok,
        ({
            let actor = start_of(account, public_key_pem, configured)->Ok_0.actor;
            &&& actor_named(actor, username) is Some <==> account->Ok_0 is Some
                && account->Ok_0->0.username == username
            &&& actor_named(actor, username) is Some ==> public_actor_uri(configured, username)
                == Ok::<_, AddressError<Seq<char>>>(
                actor_named(actor, username)->0.addresses.id,
            )
        }),
{
}

/// Without a public origin the server does not start.
pub proof fn law_start_needs_an_origin(
    account: Result<Option<Account<Seq<char>>>, StoreError>,
    public_key_pem: Result<Seq<char>, StoreError>,
    configured: Option<Seq<char>>,
)
    ensures
        origin_of(configured) is Err ==> start_of(account, public_key_pem, configured) is Err,
{
}

/// A restart publishes the same actor: what is published depends on the
/// stored account, its stored key and the public origin alone, and setting up
/// publishes it by the same steps.
pub proof fn law_restart_publishes_the_same_actor(
    account: Account<Seq<char>>,
    public_key_pem: Seq<char>,
    configured: Option<Seq<char>>,
)
    requires
        local_addresses(configured, account.username) is Ok,
    ensures
        ({
            let request = KeyRequest {
                account,
                addresses: local_addresses(configured, account.username)->Ok_0,
            };
            let restarted = start_of(Ok(Some(account)), Ok(public_key_pem), configured);
            &&& restarted is Ok <==> keyed_actor(request, Ok(public_key_pem)) is Ok
            &&& restarted is Ok ==> restarted->Ok_0.actor == Some(
                keyed_actor(request, Ok(public_key_pem))->Ok_0,
            )
        }),
{
}

/// A server starts wherever there is an origin and the store gives what it is
/// asked for: without an account nothing more is needed, and with one its
/// addresses and its key. The handles are at the origin's host.
pub proof fn law_start_succeeds(
    account: Account<Seq<char>>,
    addresses: ActorAddresses<Seq<char>>,
    actor: LocalActor<Seq<char>, Seq<char>>,
    pem: Seq<char>,
    key: Result<Seq<char>, StoreError>,
    configured: Option<Seq<char>>,
    origin: WebUrl<Seq<char>>,
    host: Seq<char>,
    error: StoreError,
)
    requires
        origin_of(configured) == Ok::<_, OriginError>(origin),
        origin.host == Some(host),
    ensures
        start_of(Ok(None), key, configured) == Ok::<_, StartError<Seq<char>>>(
            StartedView { actor: None, handle_host: host_and_port(host, origin.port) },
        ),
        local_addresses(configured, account.username) == Ok::<_, AddressError<Seq<char>>>(addresses)
            && local_actor_of(account, addresses, pem) == Ok::<_, AddressError<Seq<char>>>(actor)
            ==> start_of(Ok(Some(account)), Ok(pem), configured) == Ok::<
            _,
            StartError<Seq<char>>,
        >(StartedView { actor: Some(actor), handle_host: host_and_port(host, origin.port) }),
        start_of(Err(error), key, configured) == Err::<StartedView, _>(
            StartError::<Seq<char>>::Store,
        ),
        local_addresses(configured, account.username) is Ok ==> start_of(
            Ok(Some(account)),
            Err(error),
            configured,
        ) == Err::<StartedView, _>(StartError::<Seq<char>>::Store),
{
}

/// A server that does not start says what is missing: the account's
/// addresses, its key's address, or, without an account, the origin.
pub proof fn law_start_says_what_is_missing(
    account: Account<Seq<char>>,
    pem: Seq<char>,
    key: Result<Seq<char>, StoreError>,
    configured: Option<Seq<char>>,
    error: AddressError<Seq<char>>,
    missing: OriginError,
)
    ensures
        local_addresses(configured, account.username) == Err::<ActorAddresses<Seq<char>>, _>(error)
            ==> start_of(Ok(Some(account)), key, configured) == Err::<StartedView, _>(
            StartError::Address(error),
        ),
        local_addresses(configured, account.username) is Ok && local_actor_of(
            account,
            local_addresses(configured, account.username)->Ok_0,
            pem,
        ) == Err::<LocalActor<Seq<char>, Seq<char>>, _>(error) ==> start_of(
            Ok(Some(account)),
            Ok(pem),
            configured,
        ) == Err::<StartedView, _>(StartError::Address(error)),
        origin_of(configured) == Err::<WebUrl<Seq<char>>, _>(missing) ==> start_of(
            Ok(None),
            key,
            configured,
        ) == Err::<StartedView, _>(StartError::<Seq<char>>::Origin(missing)),
{
}

} // verus!
