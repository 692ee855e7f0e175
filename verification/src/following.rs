//! Following an actor: whom a request names, the activity that asks, and what
//! is done in which order.
use vstd::prelude::*;

use crate::account::Account;
use crate::actor::{
    following_record, following_record_of, remote_view, FollowingRecord, RemoteActor,
};
use crate::address::{
    address, iri_of, is_iri, is_web_address, parse_iri, parse_url, parsed_url, public_actor_id,
    public_actor_uri, web_address, AddressError, Iri, WebUrl,
};
use crate::replies::{
    account_or_status, account_view, require_account, stored_text, Reply, Status, StoreError,
};
use crate::text::{
    law_trailing_characters_are_dropped, lemma_same_prefix, lemma_trimmed_ends, optional_str, trim,
    trim_end_char, trimmed, without_trailing,
};

verus! {

/// What is said to a visitor who names no actor.
pub const INVALID_ACTOR_URL: &'static str = "Invalid actor URL";

/// An account that is to follow an actor. In specifications `Id` and `Text`
/// are sequences of characters.
#[derive(Debug)]
pub struct FollowTarget<Id = Iri, Text = String> {
    pub account: Account<Text>,
    pub actor_id: Id,
}

impl View for FollowTarget {
    type V = FollowTarget<Seq<char>, Seq<char>>;

    open spec fn view(&self) -> FollowTarget<Seq<char>, Seq<char>> {
        FollowTarget { account: self.account@, actor_id: self.actor_id@ }
    }
}

/// The local actor and the identifier of the activity by which it follows.
#[derive(Debug)]
pub struct FollowRequest<Id = Iri> {
    pub local_actor: Id,
    pub follow_id: Id,
}

impl View for FollowRequest {
    type V = FollowRequest<Seq<char>>;

    open spec fn view(&self) -> FollowRequest<Seq<char>> {
        FollowRequest { local_actor: self.local_actor@, follow_id: self.follow_id@ }
    }
}

/// How far a request to follow came.
#[derive(Clone, Copy, Debug, PartialEq, Eq, Structural)]
pub enum FollowOutcome {
    /// The actor's document could not be fetched.
    Unresolved,
    /// The activity could not be sent.
    NotSent,
    /// The activity was sent and the relationship could not be stored.
    NotStored,
    /// The activity was sent and the relationship stored.
    Stored,
}

/// What is to be done next for a request to follow.
#[derive(Debug)]
pub enum FollowStep<Id = Iri, Text = String> {
    /// The activity is to be sent to the actor. The record is what the store
    /// is to keep once that is done.
    Send { request: FollowRequest<Id>, actor_id: Text, record: FollowingRecord<Text> },
    /// The store is to keep the relationship.
    Store(FollowingRecord<Text>),
    /// The request is answered.
    Answer(Reply<Text>),
}

impl View for FollowStep {
    type V = FollowStep<Seq<char>, Seq<char>>;

    open spec fn view(&self) -> FollowStep<Seq<char>, Seq<char>> {
        match *self {
            FollowStep::Send { request, actor_id, record } => FollowStep::Send {
                request: request@,
                actor_id: actor_id@,
                record: record@,
            },
            FollowStep::Store(record) => FollowStep::Store(record@),
            FollowStep::Answer(reply) => FollowStep::Answer(reply@),
        }
    }
}

/// The actor that an address names, by the parsed address.
pub open spec fn followed_id_of(url: Option<WebUrl<Seq<char>>>) -> Result<
    Seq<char>,
    Reply<Seq<char>>,
> {
    match url {
        Some(url) => if is_web_address(url) {
            match iri_of(url.text) {
                Ok(actor_id) => Ok(actor_id),
                Err(_) => Err(Reply::Failure(Status::BadRequest)),
            }
        } else {
            Err(Reply::Refusal { status: Status::BadRequest, text: INVALID_ACTOR_URL@ })
        },
        None => Err(Reply::Refusal { status: Status::BadRequest, text: INVALID_ACTOR_URL@ }),
    }
}

/// The account and the actor of a request to follow.
pub open spec fn follow_target_of(
    account: Result<Option<Account<Seq<char>>>, StoreError>,
    actor: Seq<char>,
) -> Result<FollowTarget<Seq<char>, Seq<char>>, Reply<Seq<char>>> {
    match account_or_status(account) {
        Ok(account) => match followed_id_of(parsed_url(trimmed(actor))) {
            Ok(actor_id) => Ok(FollowTarget { account, actor_id }),
            Err(reply) => Err(reply),
        },
        Err(status) => Err(Reply::Failure(status)),
    }
}

/// The identifier of the activity by which an actor follows.
pub open spec fn follow_uri(actor_uri: Seq<char>, token: Seq<char>) -> Seq<char> {
    without_trailing(actor_uri, '/') + "/activities/follow/"@ + token
}

/// The activity of a local actor that follows, by the actor's identifier.
pub open spec fn follow_by(
    local_actor: Result<Seq<char>, AddressError<Seq<char>>>,
    token: Seq<char>,
) -> Result<FollowRequest<Seq<char>>, Status> {
    match local_actor {
        Ok(local_actor) => match iri_of(follow_uri(local_actor, token)) {
            Ok(follow_id) => Ok(FollowRequest { local_actor, follow_id }),
            Err(_) => Err(Status::InternalServerError),
        },
        Err(_) => Err(Status::InternalServerError),
    }
}

/// The activity by which the account `username` follows, with a token from
/// the store.
pub open spec fn requested_follow(
    configured: Option<Seq<char>>,
    username: Seq<char>,
    token: Result<Seq<char>, StoreError>,
) -> Result<FollowRequest<Seq<char>>, Status> {
    match token {
        Ok(token) => follow_by(public_actor_uri(configured, username), token),
        Err(_) => Err(Status::InternalServerError),
    }
}

/// The answer to a request to follow.
pub open spec fn follow_answer(outcome: FollowOutcome) -> Reply<Seq<char>> {
    match outcome {
        FollowOutcome::Unresolved | FollowOutcome::NotSent => Reply::Failure(Status::BadGateway),
        FollowOutcome::NotStored => Reply::Failure(Status::InternalServerError),
        FollowOutcome::Stored => Reply::Redirect("/"@),
    }
}

/// What follows on fetching the actor, by the activity that would ask.
pub open spec fn resolved_step(
    resolved: Option<RemoteActor<Seq<char>>>,
    request: Result<FollowRequest<Seq<char>>, Status>,
) -> FollowStep<Seq<char>, Seq<char>> {
    match resolved {
        Some(actor) => match request {
            Ok(request) => FollowStep::Send {
                request,
                actor_id: actor.id,
                record: following_record_of(actor, request.follow_id),
            },
            Err(status) => FollowStep::Answer(Reply::Failure(status)),
        },
        None => FollowStep::Answer(Reply::Failure(Status::BadGateway)),
    }
}

/// What follows on sending the activity.
pub open spec fn sent_step(record: FollowingRecord<Seq<char>>, sent: bool) -> FollowStep<
    Seq<char>,
    Seq<char>,
> {
    if sent {
        FollowStep::Store(record)
    } else {
        FollowStep::Answer(Reply::Failure(Status::BadGateway))
    }
}

/// The answer once the store was asked to keep the relationship.
pub open spec fn stored_answer(stored: Result<(), StoreError>) -> Reply<Seq<char>> {
    match stored {
        Ok(_) => follow_answer(FollowOutcome::Stored),
        Err(_) => follow_answer(FollowOutcome::NotStored),
    }
}

/// All that is done for a request to follow, in order, where `resolved`,
/// `sent` and `stored` are what fetching, sending and storing give.
pub open spec fn follow_steps(
    resolved: Option<RemoteActor<Seq<char>>>,
    request: Result<FollowRequest<Seq<char>>, Status>,
    sent: bool,
    stored: Result<(), StoreError>,
) -> Seq<FollowStep<Seq<char>, Seq<char>>> {
    let first = resolved_step(resolved, request);
    match first {
        FollowStep::Send { record, .. } => match sent_step(record, sent) {
            FollowStep::Store(record) => seq![
                first,
                FollowStep::Store(record),
                FollowStep::Answer(stored_answer(stored)),
            ],
            second => seq![first, second],
        },
        _ => seq![first],
    }
}

/// The actor that an address names, by the parsed address. Only an HTTP(S)
/// address with a host and without credentials names one.
pub fn followed_id(url: Option<&WebUrl>) -> (r: Result<Iri, Reply>)
    ensures
        ({
            let parsed = match url {
                Some(url) => Some(url@),
                None => None,
            };
            match r {
                Ok(id) => followed_id_of(parsed) == Ok::<_, Reply<Seq<char>>>(id@),
                Err(reply) => followed_id_of(parsed) == Err::<Seq<char>, _>(reply@),
            }
        }),
{
    match url {
        Some(url) => if web_address(url) {
            match parse_iri(url.text.as_str()) {
                Ok(actor_id) => Ok(actor_id),
                Err(_) => Err(Reply::Failure(Status::BadRequest)),
            }
        } else {
            Err(
                Reply::Refusal { status: Status::BadRequest, text: INVALID_ACTOR_URL.to_owned() },
            )
        },
        None => Err(
            Reply::Refusal { status: Status::BadRequest, text: INVALID_ACTOR_URL.to_owned() },
        ),
    }
}

/// The account and the actor of a request to follow. A request for no
/// account, or that names no actor, is refused.
pub fn follow_actor(account: Result<Option<Account>, StoreError>, actor: &str) -> (r: Result<
    FollowTarget,
    Reply,
>)
    ensures
        match r {
            Ok(target) => follow_target_of(account_view(account), actor@) == Ok::<
                _,
                Reply<Seq<char>>,
            >(target@),
            Err(reply) => follow_target_of(account_view(account), actor@) == Err::<
                FollowTarget<Seq<char>, Seq<char>>,
                _,
            >(reply@),
        },
{
    match require_account(account) {
        Ok(account) => {
            let actor: String = trim(actor);
            let named: Result<Iri, Reply> = match parse_url(actor.as_str()) {
                Ok(url) => followed_id(Some(&url)),
                Err(_) => followed_id(None),
            };
            match named {
                Ok(actor_id) => Ok(FollowTarget { account, actor_id }),
                Err(reply) => Err(reply),
            }
        },
        Err(status) => Err(Reply::Failure(status)),
    }
}

/// The activity of a local actor that follows, by the actor's identifier and
/// a token that tells the activity from others.
pub fn follow_activity(local_actor: Result<Iri, AddressError>, token: &str) -> (r: Result<
    FollowRequest,
    Status,
>)
    ensures
        match r {
            Ok(request) => follow_by(address(local_actor), token@) == Ok::<_, Status>(request@),
            Err(status) => follow_by(address(local_actor), token@) == Err::<
                FollowRequest<Seq<char>>,
                _,
            >(status),
        },
{
    match local_actor {
        Ok(local_actor) => {
            let mut text: String = trim_end_char(local_actor.as_str(), '/');
            text.append("/activities/follow/");
            text.append(token);
            match parse_iri(text.as_str()) {
                Ok(follow_id) => Ok(FollowRequest { local_actor, follow_id }),
                Err(_) => Err(Status::InternalServerError),
            }
        },
        Err(_) => Err(Status::InternalServerError),
    }
}

/// The activity by which an account follows. Without a token from the store
/// there is none.
pub fn follow_request(
    account: &Account,
    token: Result<String, StoreError>,
    configured: Option<&str>,
) -> (r: Result<FollowRequest, Status>)
    ensures
        ({
            let expected = requested_follow(
                optional_str(configured),
                account@.username,
                stored_text(token),
            );
            match r {
                Ok(request) => expected == Ok::<_, Status>(request@),
                Err(status) => expected == Err::<FollowRequest<Seq<char>>, _>(status),
            }
        }),
{
    match token {
        Ok(token) => follow_activity(public_actor_id(account, configured), token.as_str()),
        Err(_) => Err(Status::InternalServerError),
    }
}

/// The answer to a request to follow.
pub fn follow_reply(outcome: FollowOutcome) -> (r: Reply)
    ensures
        r@ == follow_answer(outcome),
{
    match outcome {
        FollowOutcome::Unresolved | FollowOutcome::NotSent => Reply::Failure(Status::BadGateway),
        FollowOutcome::NotStored => Reply::Failure(Status::InternalServerError),
        FollowOutcome::Stored => Reply::Redirect("/".to_owned()),
    }
}

/// What follows on fetching the actor, by the activity that would ask.
pub fn follow_step(resolved: Option<RemoteActor>, request: Result<FollowRequest, Status>) -> (r:
    FollowStep)
    ensures
        r@ == resolved_step(
            remote_view(resolved),
            match request {
                Ok(request) => Ok(request@),
                Err(status) => Err(status),
            },
        ),
{
    match resolved {
        Some(actor) => match request {
            Ok(request) => {
                let record: FollowingRecord = following_record(&actor, &request.follow_id);
                FollowStep::Send { request, actor_id: actor.id, record }
            },
            Err(status) => FollowStep::Answer(Reply::Failure(status)),
        },
        None => FollowStep::Answer(follow_reply(FollowOutcome::Unresolved)),
    }
}

/// What follows on fetching the actor, which `resolved` is where it was
/// found: the account's activity is sent to it. A request whose actor was
/// not found, or for which there is no activity, is answered.
pub fn follow_resolved(
    account: &Account,
    resolved: Option<RemoteActor>,
    token: Result<String, StoreError>,
    configured: Option<&str>,
) -> (r: FollowStep)
    ensures
        r@ == resolved_step(
            remote_view(resolved),
            requested_follow(optional_str(configured), account@.username, stored_text(token)),
        ),
{
    follow_step(resolved, follow_request(account, token, configured))
}

/// What follows on sending the activity: only if it was sent is the
/// relationship stored.
pub fn follow_sent(record: FollowingRecord, sent: bool) -> (r: FollowStep)
    ensures
        r@ == sent_step(record@, sent),
{
    if sent {
        FollowStep::Store(record)
    } else {
        FollowStep::Answer(follow_reply(FollowOutcome::NotSent))
    }
}

/// The answer once the store was asked to keep the relationship.
pub fn follow_stored(stored: Result<(), StoreError>) -> (r: Reply)
    ensures
        r@ == stored_answer(stored),
{
    match stored {
        Ok(_) => follow_reply(FollowOutcome::Stored),
        Err(_) => follow_reply(FollowOutcome::NotStored),
    }
}

/// A relationship is stored only after its activity was sent, and an activity
/// is sent only to an actor that was fetched. What is stored is the record
/// of that actor and that activity.
pub proof fn law_storing_follows_sending(
    resolved: Option<RemoteActor<Seq<char>>>,
    request: Result<FollowRequest<Seq<char>>, Status>,
    sent: bool,
    stored: Result<(), StoreError>,
    i: int,
)
    requires
        0 <= i < follow_steps(resolved, request, sent, stored).len(),
    ensures
        ({
            let steps = follow_steps(resolved, request, sent, stored);
            &&& steps[i] is Store ==> {
                &&& sent
                &&& i > 0
                &&& steps[i - 1] is Send
                &&& steps[i - 1]->record == steps[i]->Store_0
            }
            &&& steps[i] is Send ==> {
                &&& i == 0
                &&& resolved is Some
                &&& request == Ok::<_, Status>(steps[i]->request)
                &&& steps[i]->actor_id == resolved->0.id
                &&& steps[i]->record == following_record_of(
                    resolved->0,
                    steps[i]->request.follow_id,
                )
            }
            &&& steps[i] is Answer <==> i == steps.len() - 1
        }),
{
}

/// Where the actor cannot be fetched or the activity cannot be sent, the
/// answer says so and nothing is stored; in the first case nothing is sent
/// either.
pub proof fn law_failed_follow_changes_nothing(
    resolved: Option<RemoteActor<Seq<char>>>,
    request: Result<FollowRequest<Seq<char>>, Status>,
    sent: bool,
    stored: Result<(), StoreError>,
)
    ensures
        resolved is None ==> follow_steps(resolved, request, sent, stored) == seq![
            FollowStep::<Seq<char>, Seq<char>>::Answer(Reply::Failure(Status::BadGateway)),
        ],
        !sent ==> forall|i: int|
            0 <= i < follow_steps(resolved, request, sent, stored).len() ==> !(
            #[trigger] follow_steps(resolved, request, sent, stored)[i] is Store),
        resolved is Some && request is Ok && !sent ==> follow_steps(
            resolved,
            request,
            sent,
            stored,
        ).last() == FollowStep::<Seq<char>, Seq<char>>::Answer(Reply::Failure(Status::BadGateway)),
{
}

/// Activities with different tokens have different identifiers.
pub proof fn law_follow_uris_differ(actor_uri: Seq<char>, a: Seq<char>, b: Seq<char>)
    ensures
        follow_uri(actor_uri, a) == follow_uri(actor_uri, b) ==> a == b,
{
    if follow_uri(actor_uri, a) == follow_uri(actor_uri, b) {
        lemma_same_prefix(without_trailing(actor_uri, '/') + "/activities/follow/"@, a, b);
    }
}

/// Whom an account follows, it follows at an HTTP(S) address that carries no
/// credentials; the identifier is the address in its normal form.
pub proof fn law_followed_actor_is_on_the_web(
    account: Result<Option<Account<Seq<char>>>, StoreError>,
    actor: Seq<char>,
)
    requires
        follow_target_of(account, actor) is Ok,
    ensures
        parsed_url(trimmed(actor)) is Some,
        is_web_address(parsed_url(trimmed(actor))->0),
        follow_target_of(account, actor)->Ok_0.actor_id == parsed_url(trimmed(actor))->0.text,
        account == Ok::<_, StoreError>(Some(follow_target_of(account, actor)->Ok_0.account)),
{
}

/// White space around the address of an actor does not matter.
pub proof fn law_follow_ignores_surrounding_space(
    account: Result<Option<Account<Seq<char>>>, StoreError>,
    actor: Seq<char>,
)
    ensures
        follow_target_of(account, trimmed(actor)) == follow_target_of(account, actor),
{
    lemma_trimmed_ends(actor);
}

/// An actor is followed at every address of the web that is an IRI, in its
/// normal form. Any other text is refused, with the reason.
pub proof fn law_web_addresses_are_followed(
    account: Account<Seq<char>>,
    actor: Seq<char>,
    url: WebUrl<Seq<char>>,
    error: StoreError,
)
    ensures
        ({
            let target = follow_target_of(Ok(Some(account)), actor);
            let on_the_web = (url.scheme == "http"@ || url.scheme == "https"@) && url.host is Some
                && url.username == Seq::<char>::empty() && !url.has_password;
            let invalid = Err::<FollowTarget<Seq<char>, Seq<char>>, _>(
                Reply::Refusal { status: Status::BadRequest, text: "Invalid actor URL"@ },
            );
            &&& parsed_url(trimmed(actor)) is None ==> target == invalid
            &&& parsed_url(trimmed(actor)) == Some(url) && !on_the_web ==> target == invalid
            &&& parsed_url(trimmed(actor)) == Some(url) && on_the_web && is_iri(url.text) ==> target
                == Ok::<_, Reply<Seq<char>>>(FollowTarget { account, actor_id: url.text })
            &&& parsed_url(trimmed(actor)) == Some(url) && on_the_web && !is_iri(url.text)
                ==> target == Err::<FollowTarget<Seq<char>, Seq<char>>, _>(
                Reply::<Seq<char>>::Failure(Status::BadRequest),
            )
        }),
        follow_target_of(Ok(None), actor) == Err::<FollowTarget<Seq<char>, Seq<char>>, _>(
            Reply::<Seq<char>>::Failure(Status::NotFound),
        ),
        follow_target_of(Err(error), actor) == Err::<FollowTarget<Seq<char>, Seq<char>>, _>(
            Reply::<Seq<char>>::Failure(Status::InternalServerError),
        ),
{
    if url.username.len() == 0 {
        assert(url.username =~= Seq::<char>::empty());
    }
}

/// The activity by which an account follows is the account's actor's, with
/// the token at its end. There is one wherever there are an actor and a
/// token and that text is an IRI.
pub proof fn law_follow_activity_is_the_actors(
    configured: Option<Seq<char>>,
    username: Seq<char>,
    base: Seq<char>,
    slashes: nat,
    token: Seq<char>,
    error: StoreError,
)
    requires
        public_actor_uri(configured, username) is Ok ==> {
            &&& public_actor_uri(configured, username)->Ok_0 == base + Seq::new(
                slashes,
                |i: int| '/',
            )
            &&& base.len() > 0 ==> base.last() != '/'
        },
    ensures
        ({
            let follow_id = base + "/activities/follow/"@ + token;
            match public_actor_uri(configured, username) {
                Ok(local_actor) => if is_iri(follow_id) {
                    requested_follow(configured, username, Ok(token)) == Ok::<_, Status>(
                        FollowRequest { local_actor, follow_id },
                    )
                } else {
                    requested_follow(configured, username, Ok(token)) == Err::<
                        FollowRequest<Seq<char>>,
                        _,
                    >(Status::InternalServerError)
                },
                Err(_) => requested_follow(configured, username, Ok(token)) == Err::<
                    FollowRequest<Seq<char>>,
                    _,
                >(Status::InternalServerError),
            }
        }),
        requested_follow(configured, username, Err(error)) == Err::<FollowRequest<Seq<char>>, _>(
            Status::InternalServerError,
        ),
{
    if public_actor_uri(configured, username) is Ok {
        law_trailing_characters_are_dropped(base, '/', slashes);
    }
}

/// Following makes progress: an actor that was fetched is sent the activity,
/// whatever the actor says of itself; once that is sent the relationship is
/// stored, and once that is stored the visitor is led home.
pub proof fn law_following_makes_progress(
    actor: RemoteActor<Seq<char>>,
    request: FollowRequest<Seq<char>>,
    status: Status,
    sent: bool,
    stored: Result<(), StoreError>,
)
    ensures
        ({
            let steps = follow_steps(Some(actor), Ok(request), sent, stored);
            &&& steps.len() > 1
            &&& steps[0] is Send
            &&& steps[0]->request == request
            &&& steps[0]->actor_id == actor.id
            &&& sent ==> {
                &&& steps.len() == 3
                &&& steps[1] is Store
                &&& steps[1]->Store_0.uri == actor.id
                &&& steps[1]->Store_0.inbox_url == actor.inbox
                &&& steps[1]->Store_0.shared_inbox_url == actor.shared_inbox
                &&& steps[1]->Store_0.follow_activity_id == request.follow_id
                &&& stored is Ok ==> steps[2] == FollowStep::<Seq<char>, Seq<char>>::Answer(
                    Reply::Redirect("/"@),
                )
                &&& stored is Err ==> steps[2] == FollowStep::<Seq<char>, Seq<char>>::Answer(
                    Reply::Failure(Status::InternalServerError),
                )
            }
        }),
        follow_steps(Some(actor), Err(status), sent, stored) == seq![
            FollowStep::<Seq<char>, Seq<char>>::Answer(Reply::Failure(status)),
        ],
        resolved_step(Some(actor), Ok(request)) is Send,
        resolved_step(Some(actor), Ok(request))->request == request,
        resolved_step(Some(actor), Ok(request))->actor_id == actor.id,
{
}

/// What is sent and stored depends on what came back alone: the record that
/// waits for the sending is stored as it is.
pub proof fn law_sent_record_is_stored(record: FollowingRecord<Seq<char>>)
    ensures
        sent_step(record, true) == FollowStep::<Seq<char>, Seq<char>>::Store(record),
        sent_step(record, false) == FollowStep::<Seq<char>, Seq<char>>::Answer(
            Reply::Failure(Status::BadGateway),
        ),
        stored_answer(Ok(())) == Reply::Redirect("/"@),
        stored_answer(Err(StoreError)) == Reply::<Seq<char>>::Failure(
            Status::InternalServerError,
        ),
        follow_answer(FollowOutcome::Unresolved) == Reply::<Seq<char>>::Failure(
            Status::BadGateway,
        ),
        follow_answer(FollowOutcome::NotSent) == Reply::<Seq<char>>::Failure(Status::BadGateway),
{
}

} // verus!
