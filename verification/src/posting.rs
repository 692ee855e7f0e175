//! Writing a post: what is stored, and the note that is delivered for it.
use vstd::prelude::*;

use crate::account::Account;
use crate::actor::local_addresses;
use crate::address::{
    actor_uri, address, is_iri, parse_iri, public_actor_id, public_actor_uri, AddressError, Iri,
};
use crate::content::{
    law_plain_post_is_kept, post_timestamp, published_at, sanitize_post_content, sanitized_post,
};
use crate::pages::PostRecord;
use crate::replies::{account_or_status, account_view, require_account, Reply, Status, StoreError};
use crate::text::{
    lemma_same_prefix, lemma_signed_decimal_injective, optional_str, signed_decimal,
    signed_decimal_text, trim, trimmed, without_trailing,
};

verus! {

/// The collection that makes a note public.
pub const PUBLIC_COLLECTION: &'static str = "https://www.w3.org/ns/activitystreams#Public";

/// The media type of a post's content.
pub const POST_MEDIA_TYPE: &'static str = "text/html";

/// What is said to an author who sends nothing.
pub const CONTENT_REQUIRED: &'static str = "Content is required";

/// A post that is to be stored. In specifications `Id` and `Text` are
/// sequences of characters.
#[derive(Debug)]
pub struct NewPost<Id = Iri, Text = String> {
    pub account: Account<Text>,
    pub actor_id: Id,
    pub content: Text,
}

impl View for NewPost {
    type V = NewPost<Seq<char>, Seq<char>>;

    open spec fn view(&self) -> NewPost<Seq<char>, Seq<char>> {
        NewPost { account: self.account@, actor_id: self.actor_id@, content: self.content@ }
    }
}

/// A note that is to be delivered.
#[derive(Debug)]
pub struct NoteDraft<Id = Iri, Text = String> {
    pub local_actor: Id,
    pub note_id: Id,
    pub create_id: Id,
    pub to: Id,
    pub cc: Id,
    pub content: Text,
    pub media_type: Text,
    pub published: Text,
    pub url: Id,
}

impl View for NoteDraft {
    type V = NoteDraft<Seq<char>, Seq<char>>;

    open spec fn view(&self) -> NoteDraft<Seq<char>, Seq<char>> {
        NoteDraft {
            local_actor: self.local_actor@,
            note_id: self.note_id@,
            create_id: self.create_id@,
            to: self.to@,
            cc: self.cc@,
            content: self.content@,
            media_type: self.media_type@,
            published: self.published@,
            url: self.url@,
        }
    }
}

/// What became of the delivery of a note.
#[derive(Clone, Copy, Debug, PartialEq, Eq, Structural)]
pub enum Delivery {
    /// The note was stored for federation and delivered.
    Delivered,
    /// The note was stored for federation and could not be sent.
    NotSent,
    /// The note was not accepted for federation.
    Failed,
}

/// The post that an account writes, by the identifier of the account's actor.
/// White space around the content is dropped, and nothing may not be posted.
pub open spec fn post_by(
    account: Account<Seq<char>>,
    content: Seq<char>,
    actor_id: Result<Seq<char>, AddressError<Seq<char>>>,
) -> Result<NewPost<Seq<char>, Seq<char>>, Reply<Seq<char>>> {
    if trimmed(content).len() == 0 {
        Err(Reply::Refusal { status: Status::BadRequest, text: CONTENT_REQUIRED@ })
    } else {
        match actor_id {
            Ok(actor_id) => Ok(
                NewPost { account, actor_id, content: sanitized_post(trimmed(content)) },
            ),
            Err(_) => Err(Reply::Failure(Status::InternalServerError)),
        }
    }
}

/// The post that a request writes.
pub open spec fn requested_post(
    account: Result<Option<Account<Seq<char>>>, StoreError>,
    content: Seq<char>,
    configured: Option<Seq<char>>,
) -> Result<NewPost<Seq<char>, Seq<char>>, Reply<Seq<char>>> {
    match account_or_status(account) {
        Ok(account) => post_by(account, content, public_actor_uri(configured, account.username)),
        Err(status) => Err(Reply::Failure(status)),
    }
}

/// The identifier of an actor's post.
pub open spec fn post_uri_of(actor_uri: Seq<char>, post_id: int) -> Seq<char> {
    actor_uri + "/posts/"@ + signed_decimal(post_id)
}

/// The identifier of the activity that announces a post.
pub open spec fn create_uri_of(actor_uri: Seq<char>, post_id: int) -> Seq<char> {
    actor_uri + "/activities/create/"@ + signed_decimal(post_id)
}

/// The path of a post's page.
pub open spec fn post_path(username: Seq<char>, post_id: int) -> Seq<char> {
    "/users/"@ + username + "/posts/"@ + signed_decimal(post_id)
}

/// The answer to a written post, by what became of its delivery.
pub open spec fn written_answer(
    username: Seq<char>,
    post_id: int,
    delivery: Delivery,
) -> Reply<Seq<char>> {
    match delivery {
        Delivery::Delivered | Delivery::NotSent => Reply::Redirect(post_path(username, post_id)),
        Delivery::Failed => Reply::Failure(Status::InternalServerError),
    }
}

/// The note of a stored post: public, with a copy to the actor's followers.
pub open spec fn note_of(
    actor_id: Seq<char>,
    post_id: int,
    post: PostRecord<Seq<char>>,
) -> NoteDraft<Seq<char>, Seq<char>> {
    NoteDraft {
        local_actor: actor_id,
        note_id: post.uri,
        create_id: create_uri_of(actor_id, post_id),
        to: PUBLIC_COLLECTION@,
        cc: actor_id + "/followers"@,
        content: post.content,
        media_type: POST_MEDIA_TYPE@,
        published: published_at(post.created),
        url: post.uri,
    }
}

/// The note of a stored post, by its parsed addresses.
pub open spec fn note_with(
    actor_id: Seq<char>,
    post: PostRecord<Seq<char>>,
    note_id: Result<Seq<char>, AddressError<Seq<char>>>,
    create_id: Result<Seq<char>, AddressError<Seq<char>>>,
    to: Result<Seq<char>, AddressError<Seq<char>>>,
    cc: Result<Seq<char>, AddressError<Seq<char>>>,
) -> Result<NoteDraft<Seq<char>, Seq<char>>, Status> {
    match (note_id, create_id, to, cc) {
        (Ok(note_id), Ok(create_id), Ok(to), Ok(cc)) => Ok(
            NoteDraft {
                local_actor: actor_id,
                note_id,
                create_id,
                to,
                cc,
                content: post.content,
                media_type: POST_MEDIA_TYPE@,
                published: published_at(post.created),
                url: note_id,
            },
        ),
        _ => Err(Status::InternalServerError),
    }
}

/// Each address of a note is an IRI.
pub open spec fn is_addressable(note: NoteDraft<Seq<char>, Seq<char>>) -> bool {
    is_iri(note.note_id) && is_iri(note.cc) && is_iri(note.create_id) && is_iri(note.to)
}

/// A stored post by its view.
pub open spec fn stored_view(stored: Result<Option<PostRecord>, StoreError>) -> Result<
    Option<PostRecord<Seq<char>>>,
    StoreError,
> {
    match stored {
        Ok(Some(post)) => Ok(Some(post@)),
        Ok(None) => Ok(None),
        Err(error) => Err(error),
    }
}

/// The note to deliver for a post, as the store gives it back.
pub open spec fn draft_of(
    actor_id: Seq<char>,
    post_id: int,
    stored: Result<Option<PostRecord<Seq<char>>>, StoreError>,
) -> Result<NoteDraft<Seq<char>, Seq<char>>, Status> {
    match stored {
        Ok(Some(post)) => if is_addressable(note_of(actor_id, post_id, post)) {
            Ok(note_of(actor_id, post_id, post))
        } else {
            Err(Status::InternalServerError)
        },
        _ => Err(Status::InternalServerError),
    }
}

/// The post that an account writes, by the identifier of the account's actor.
pub fn compose_post(
    account: Account,
    content: &str,
    actor_id: Result<Iri, AddressError>,
) -> (r: Result<NewPost, Reply>)
    ensures
        match r {
            Ok(post) => post_by(account@, content@, address(actor_id)) == Ok::<
                _,
                Reply<Seq<char>>,
            >(post@),
            Err(reply) => post_by(account@, content@, address(actor_id)) == Err::<
                NewPost<Seq<char>, Seq<char>>,
                _,
            >(reply@),
        },
{
    let content: String = trim(content);
    if content.as_str().is_empty() {
        return Err(
            Reply::Refusal { status: Status::BadRequest, text: CONTENT_REQUIRED.to_owned() },
        );
    }
    match actor_id {
        Ok(actor_id) => Ok(
            NewPost { account, actor_id, content: sanitize_post_content(content.as_str()) },
        ),
        Err(_) => Err(Reply::Failure(Status::InternalServerError)),
    }
}

/// The post that a request writes. A request for no account, without content,
/// or for an account without an identifier is refused.
pub fn create_post(
    account: Result<Option<Account>, StoreError>,
    content: &str,
    configured: Option<&str>,
) -> (r: Result<NewPost, Reply>)
    ensures
        match r {
            Ok(post) => requested_post(
                account_view(account),
                content@,
                optional_str(configured),
            ) == Ok::<_, Reply<Seq<char>>>(post@),
            Err(reply) => requested_post(
                account_view(account),
                content@,
                optional_str(configured),
            ) == Err::<NewPost<Seq<char>, Seq<char>>, _>(reply@),
        },
{
    match require_account(account) {
        Ok(account) => {
            let actor_id: Result<Iri, AddressError> = public_actor_id(&account, configured);
            compose_post(account, content, actor_id)
        },
        Err(status) => Err(Reply::Failure(status)),
    }
}

/// The identifier of an actor's post, which the store keeps with it.
pub fn post_uri(actor_uri: &str, post_id: i64) -> (r: String)
    ensures
        r@ == post_uri_of(actor_uri@, post_id as int),
{
    let mut out: String = actor_uri.to_owned();
    out.append("/posts/");
    out.append(signed_decimal_text(post_id).as_str());
    out
}

/// The note of a stored post, by its parsed addresses.
pub fn addressed_note(
    actor_id: &Iri,
    post: PostRecord,
    note_id: Result<Iri, AddressError>,
    create_id: Result<Iri, AddressError>,
    to: Result<Iri, AddressError>,
    cc: Result<Iri, AddressError>,
) -> (r: Result<NoteDraft, Status>)
    ensures
        ({
            let expected = note_with(
                actor_id@,
                post@,
                address(note_id),
                address(create_id),
                address(to),
                address(cc),
            );
            match r {
                Ok(note) => expected == Ok::<_, Status>(note@),
                Err(status) => expected == Err::<NoteDraft<Seq<char>, Seq<char>>, _>(status),
            }
        }),
{
    match (note_id, create_id, to, cc) {
        (Ok(note_id), Ok(create_id), Ok(to), Ok(cc)) => {
            let url: Iri = note_id.duplicate();
            Ok(
                NoteDraft {
                    local_actor: actor_id.duplicate(),
                    note_id,
                    create_id,
                    to,
                    cc,
                    content: post.content,
                    media_type: POST_MEDIA_TYPE.to_owned(),
                    published: post_timestamp(post.created.as_str()),
                    url,
                },
            )
        },
        _ => Err(Status::InternalServerError),
    }
}

/// The note to deliver for a new post, as the store gives it back.
pub fn note_draft(
    actor_id: &Iri,
    post_id: i64,
    stored: Result<Option<PostRecord>, StoreError>,
) -> (r: Result<NoteDraft, Status>)
    ensures
        match r {
            Ok(note) => draft_of(actor_id@, post_id as int, stored_view(stored)) == Ok::<_, Status>(
                note@,
            ),
            Err(status) => draft_of(actor_id@, post_id as int, stored_view(stored)) == Err::<
                NoteDraft<Seq<char>, Seq<char>>,
                _,
            >(status),
        },
{
    let post: PostRecord = match stored {
        Ok(Some(post)) => post,
        _ => return Err(Status::InternalServerError),
    };
    let mut followers: String = actor_id.to_text();
    followers.append("/followers");
    let mut create: String = actor_id.to_text();
    create.append("/activities/create/");
    create.append(signed_decimal_text(post_id).as_str());
    let note_id: Result<Iri, AddressError> = parse_iri(post.uri.as_str());
    addressed_note(
        actor_id,
        post,
        note_id,
        parse_iri(create.as_str()),
        parse_iri(PUBLIC_COLLECTION),
        parse_iri(followers.as_str()),
    )
}

/// The answer to a written post: the way to its page, which a failed sending
/// does not change.
pub fn post_reply(username: &str, post_id: i64, delivery: Delivery) -> (r: Reply)
    ensures
        r@ == written_answer(username@, post_id as int, delivery),
{
    match delivery {
        Delivery::Delivered | Delivery::NotSent => {
            let mut path: String = "/users/".to_owned();
            path.append(username);
            path.append("/posts/");
            path.append(signed_decimal_text(post_id).as_str());
            Reply::Redirect(path)
        },
        Delivery::Failed => Reply::Failure(Status::InternalServerError),
    }
}

/// Different posts of an actor have different identifiers, and so have the
/// activities that announce them.
pub proof fn law_post_uris_differ(actor_uri: Seq<char>, a: int, b: int)
    ensures
        post_uri_of(actor_uri, a) == post_uri_of(actor_uri, b) ==> a == b,
        create_uri_of(actor_uri, a) == create_uri_of(actor_uri, b) ==> a == b,
{
    if post_uri_of(actor_uri, a) == post_uri_of(actor_uri, b) {
        lemma_same_prefix(actor_uri + "/posts/"@, signed_decimal(a), signed_decimal(b));
        lemma_signed_decimal_injective(a, b);
    }
    if create_uri_of(actor_uri, a) == create_uri_of(actor_uri, b) {
        lemma_same_prefix(actor_uri + "/activities/create/"@, signed_decimal(a), signed_decimal(b));
        lemma_signed_decimal_injective(a, b);
    }
}

/// The identifier of a post is the address of its page: the path that an
/// author is sent to, under the public origin.
pub proof fn law_post_uri_is_its_page(origin: Seq<char>, username: Seq<char>, post_id: int)
    ensures
        post_uri_of(actor_uri(origin, username), post_id) == without_trailing(origin, '/')
            + post_path(username, post_id),
{
    assert(post_uri_of(actor_uri(origin, username), post_id) =~= without_trailing(origin, '/')
        + post_path(username, post_id));
}

/// The note of a post is public and goes to the followers of the actor that
/// the blog publishes for the account.
pub proof fn law_note_reaches_the_followers(
    configured: Option<Seq<char>>,
    username: Seq<char>,
    post_id: int,
    post: PostRecord<Seq<char>>,
)
    requires
        local_addresses(configured, username) is Ok,
    ensures
        public_actor_uri(configured, username) is Ok,
        ({
            let note = note_of(public_actor_uri(configured, username)->Ok_0, post_id, post);
            &&& note.to == PUBLIC_COLLECTION@
            &&& note.cc == local_addresses(configured, username)->Ok_0.followers
            &&& note.local_actor == local_addresses(configured, username)->Ok_0.id
        }),
{
}

/// The stored form of a new post, which the store dates.
pub open spec fn stored_post(
    post: NewPost<Seq<char>, Seq<char>>,
    post_id: int,
    created: Seq<char>,
) -> PostRecord<Seq<char>> {
    let uri = post_uri_of(post.actor_id, post_id);
    PostRecord { uri, content: post.content, url: Some(uri), created }
}

/// What is written is what is delivered: the note of a new post is by the
/// account's actor, under the identifier of the post, and carries the written
/// text, sanitized. Plain text, without special characters and line endings,
/// it carries as it was written.
pub proof fn law_note_carries_the_post(
    account: Result<Option<Account<Seq<char>>>, StoreError>,
    content: Seq<char>,
    configured: Option<Seq<char>>,
    post_id: int,
    created: Seq<char>,
)
    requires
        requested_post(account, content, configured) is Ok,
    ensures
        ({
            let post = requested_post(account, content, configured)->Ok_0;
            let note = note_of(post.actor_id, post_id, stored_post(post, post_id, created));
            &&& account == Ok::<_, StoreError>(Some(post.account))
            &&& public_actor_uri(configured, post.account.username) == Ok::<
                _,
                AddressError<Seq<char>>,
            >(note.local_actor)
            &&& note.note_id == post_uri_of(note.local_actor, post_id)
            &&& note.url == note.note_id
            &&& note.content == sanitized_post(trimmed(content))
            &&& trimmed(content) == content && (forall|i: int|
                0 <= i < content.len() ==> #[trigger] content[i] != '&' && content[i] != '<'
                    && content[i] != '>' && content[i] != '\r' && content[i] != '\n')
                ==> note.content == content
        }),
{
    if trimmed(content) == content && (forall|i: int|
        0 <= i < content.len() ==> #[trigger] content[i] != '&' && content[i] != '<' && content[i]
            != '>' && content[i] != '\r' && content[i] != '\n') {
        law_plain_post_is_kept(content);
    }
}

/// Nothing is stored for a request that names no account or brings nothing
/// but white space.
pub proof fn law_empty_post_is_refused(
    account: Result<Option<Account<Seq<char>>>, StoreError>,
    content: Seq<char>,
    configured: Option<Seq<char>>,
)
    ensures
        requested_post(account, content, configured) is Ok ==> account is Ok && account->Ok_0
            is Some && trimmed(content).len() > 0,
{
}

/// A request for an account, with anything but white space in it, writes a
/// post of that account, and each reason to refuse one has its answer.
pub proof fn law_a_written_post_is_accepted(
    account: Account<Seq<char>>,
    content: Seq<char>,
    configured: Option<Seq<char>>,
    id: Seq<char>,
    error: StoreError,
)
    ensures
        trimmed(content) != Seq::<char>::empty() && public_actor_uri(configured, account.username)
            == Ok::<_, AddressError<Seq<char>>>(id) ==> requested_post(
            Ok(Some(account)),
            content,
            configured,
        ) == Ok::<_, Reply<Seq<char>>>(
            NewPost { account, actor_id: id, content: sanitized_post(trimmed(content)) },
        ),
        trimmed(content) != Seq::<char>::empty() && public_actor_uri(configured, account.username)
            is Err ==> requested_post(Ok(Some(account)), content, configured) == Err::<
            NewPost<Seq<char>, Seq<char>>,
            _,
        >(Reply::<Seq<char>>::Failure(Status::InternalServerError)),
        trimmed(content) == Seq::<char>::empty() ==> requested_post(
            Ok(Some(account)),
            content,
            configured,
        ) == Err::<NewPost<Seq<char>, Seq<char>>, _>(
            Reply::Refusal { status: Status::BadRequest, text: "Content is required"@ },
        ),
        requested_post(Ok(None), content, configured) == Err::<NewPost<Seq<char>, Seq<char>>, _>(
            Reply::<Seq<char>>::Failure(Status::NotFound),
        ),
        requested_post(Err(error), content, configured) == Err::<
            NewPost<Seq<char>, Seq<char>>,
            _,
        >(Reply::<Seq<char>>::Failure(Status::InternalServerError)),
{
    if trimmed(content).len() == 0 {
        assert(trimmed(content) =~= Seq::<char>::empty());
    }
}

/// The identifiers of a post and of the activity that announces it are the
/// actor's, with the number of the post at the end.
pub proof fn law_post_uris_end_in_the_number(actor_uri: Seq<char>, post_id: int)
    ensures
        post_uri_of(actor_uri, post_id) == actor_uri + "/posts/"@ + signed_decimal(post_id),
        create_uri_of(actor_uri, post_id) == actor_uri + "/activities/create/"@ + signed_decimal(
            post_id,
        ),
{
}

/// The note that is delivered for a stored post is that post's, under the
/// numbers of the post: the post's own identifier, the activity's by the
/// number of the post, to the public, with a copy to the actor's followers.
/// It is delivered exactly where these are IRIs.
pub proof fn law_delivered_note_is_the_posts(
    actor_id: Seq<char>,
    post_id: int,
    post: PostRecord<Seq<char>>,
    error: StoreError,
)
    ensures
        ({
            let create_id = actor_id + "/activities/create/"@ + signed_decimal(post_id);
            let followers = actor_id + "/followers"@;
            let public = "https://www.w3.org/ns/activitystreams#Public"@;
            match draft_of(actor_id, post_id, Ok(Some(post))) {
                Ok(note) => {
                    &&& is_iri(post.uri) && is_iri(create_id) && is_iri(followers) && is_iri(public)
                    &&& note.local_actor == actor_id
                    &&& note.note_id == post.uri
                    &&& note.url == post.uri
                    &&& note.create_id == create_id
                    &&& note.to == public
                    &&& note.cc == followers
                    &&& note.content == post.content
                    &&& note.media_type == "text/html"@
                    &&& note.published == published_at(post.created)
                },
                Err(status) => {
                    &&& !(is_iri(post.uri) && is_iri(create_id) && is_iri(followers) && is_iri(
                        public,
                    ))
                    &&& status == Status::InternalServerError
                },
            }
        }),
        draft_of(actor_id, post_id, Ok(None)) == Err::<NoteDraft<Seq<char>, Seq<char>>, _>(
            Status::InternalServerError,
        ),
        draft_of(actor_id, post_id, Err(error)) == Err::<NoteDraft<Seq<char>, Seq<char>>, _>(
            Status::InternalServerError,
        ),
{
}

/// The activities of different posts are delivered under different
/// identifiers, whatever the posts hold.
pub proof fn law_delivered_activities_differ(
    actor_id: Seq<char>,
    a: int,
    b: int,
    post: PostRecord<Seq<char>>,
    other: PostRecord<Seq<char>>,
)
    requires
        draft_of(actor_id, a, Ok(Some(post))) is Ok,
        draft_of(actor_id, b, Ok(Some(other))) is Ok,
    ensures
        draft_of(actor_id, a, Ok(Some(post)))->Ok_0.create_id == draft_of(
            actor_id,
            b,
            Ok(Some(other)),
        )->Ok_0.create_id ==> a == b,
{
    law_post_uris_differ(actor_id, a, b);
}

/// What is delivered for a new post is what was written: the drafted note,
/// not only the intended one, carries the sanitized text under the post's
/// identifier.
pub proof fn law_draft_carries_the_written_text(
    account: Result<Option<Account<Seq<char>>>, StoreError>,
    content: Seq<char>,
    configured: Option<Seq<char>>,
    post_id: int,
    created: Seq<char>,
)
    requires
        requested_post(account, content, configured) is Ok,
        ({
            let post = requested_post(account, content, configured)->Ok_0;
            draft_of(post.actor_id, post_id, Ok(Some(stored_post(post, post_id, created)))) is Ok
        }),
    ensures
        ({
            let post = requested_post(account, content, configured)->Ok_0;
            let note = draft_of(
                post.actor_id,
                post_id,
                Ok(Some(stored_post(post, post_id, created))),
            )->Ok_0;
            &&& note.content == sanitized_post(trimmed(content))
            &&& note.note_id == note.local_actor + "/posts/"@ + signed_decimal(post_id)
            &&& public_actor_uri(configured, post.account.username) == Ok::<
                _,
                AddressError<Seq<char>>,
            >(note.local_actor)
        }),
{
}

/// An author is sent to the new post's page, by the number of the post, also
/// where it could not be sent to the followers.
pub proof fn law_author_is_sent_to_the_post(username: Seq<char>, post_id: int)
    ensures
        ({
            let page = "/users/"@ + username + "/posts/"@ + signed_decimal(post_id);
            &&& written_answer(username, post_id, Delivery::Delivered) == Reply::Redirect(page)
            &&& written_answer(username, post_id, Delivery::NotSent) == Reply::Redirect(page)
            &&& written_answer(username, post_id, Delivery::Failed) == Reply::<
                Seq<char>,
            >::Failure(Status::InternalServerError)
        }),
{
}

/// A stored post is viewed as it is, and its note has the addresses that were
/// parsed for it.
pub proof fn law_a_note_has_its_addresses(
    actor_id: Seq<char>,
    post: PostRecord<Seq<char>>,
    stored: PostRecord,
    note_id: Seq<char>,
    create_id: Seq<char>,
    to: Seq<char>,
    cc: Seq<char>,
)
    ensures
        stored_view(Ok(Some(stored))) == Ok::<_, StoreError>(Some(stored@)),
        stored_view(Ok(None)) == Ok::<_, StoreError>(None::<PostRecord<Seq<char>>>),
        stored_view(Err(StoreError)) is Err,
        note_with(actor_id, post, Ok(note_id), Ok(create_id), Ok(to), Ok(cc)) == Ok::<_, Status>(
            NoteDraft {
                local_actor: actor_id,
                note_id,
                create_id,
                to,
                cc,
                content: post.content,
                media_type: "text/html"@,
                published: published_at(post.created),
                url: note_id,
            },
        ),
{
}

} // verus!
