//! The JSON document of the local actor.
use vstd::prelude::*;

use crate::account::Account;
use crate::actor::{actor_named, ActorAddresses, LocalActor, SingleActorDispatcher};
use crate::address::is_iri;
use crate::json::{json_contents, member, member_text, set_text_member, Json};
use crate::replies::Status;
use crate::startup::start_of;

verus! {

/// The document of a signing key.
pub open spec fn key_document(id: Seq<char>, owner: Seq<char>, pem: Seq<char>) -> Json {
    Json::Object(
        map![
            "id"@ => Json::Text(id),
            "type"@ => Json::Text("CryptographicKey"@),
            "owner"@ => Json::Text(owner),
            "publicKeyPem"@ => Json::Text(pem),
        ],
    )
}

/// The members of a person's document. The context is a list.
pub open spec fn person_members(
    addresses: ActorAddresses<Seq<char>>,
    username: Seq<char>,
    name: Seq<char>,
    key: Json,
) -> Map<Seq<char>, Json> {
    map![
        "@context"@ => Json::Other,
        "type"@ => Json::Text("Person"@),
        "id"@ => Json::Text(addresses.id),
        "inbox"@ => Json::Text(addresses.inbox),
        "outbox"@ => Json::Text(addresses.outbox),
        "followers"@ => Json::Text(addresses.followers),
        "preferredUsername"@ => Json::Text(username),
        "name"@ => Json::Text(name),
        "endpoints"@ => Json::Object(map!["sharedInbox"@ => Json::Text(addresses.shared_inbox)]),
        "publicKey"@ => key,
    ]
}

/// The members of an actor's document. The actor owns its key.
pub open spec fn actor_members(actor: LocalActor<Seq<char>, Seq<char>>) -> Map<Seq<char>, Json> {
    person_members(
        actor.addresses,
        actor.preferred_username,
        actor.name,
        key_document(actor.key_id, actor.addresses.id, actor.public_key_pem),
    )
}

/// The document that the blog serves for an actor: the actor's own, with the
/// address of its page.
pub open spec fn served_document(actor: LocalActor<Seq<char>, Seq<char>>) -> Json {
    Json::Object(actor_members(actor).insert("url"@, Json::Text(actor.addresses.id)))
}

/// Builds a `feder_vocab::Actor` of the type `Person` with a public key and
/// writes it with `serde_json::to_value`. Claimed of it: that succeeds, and
/// the value is an object with exactly these members, under the names that
/// the actor's and the key's types give them; the context, which holds that
/// of ActivityStreams and that of the security vocabulary, is an array.
#[verifier::external_body]
fn person_value(
    addresses: [&str; 5],
    username: &str,
    name: &str,
    key: [&str; 2],
    pem: &str,
) -> (r: Result<serde_json::Value, serde_json::Error>)
    requires
        forall|i: int| 0 <= i < 5 ==> is_iri(#[trigger] addresses@[i]@),
        forall|i: int| 0 <= i < 2 ==> is_iri(#[trigger] key@[i]@),
    ensures
        r is Ok,
        json_contents(r->Ok_0) == Json::Object(
            person_members(
                ActorAddresses {
                    id: addresses@[0]@,
                    inbox: addresses@[1]@,
                    outbox: addresses@[2]@,
                    followers: addresses@[3]@,
                    shared_inbox: addresses@[4]@,
                },
                username@,
                name@,
                key_document(key@[0]@, key@[1]@, pem@),
            ),
        ),
{
    let iri = |text: &str| text.parse().expect("an IRI parses");
    let [id, inbox, outbox, followers, shared_inbox] = addresses.map(iri);
    let [key_id, owner] = key.map(iri);
    let mut actor = feder_vocab::Actor::person(id, inbox, outbox);
    actor.preferred_username = Some(username.to_string());
    actor.name = Some(name.to_string());
    actor.followers = Some(followers);
    actor.endpoints = Some(feder_vocab::Endpoints { shared_inbox: Some(shared_inbox) });
    let key = feder_vocab::CryptographicKey::new(key_id, owner, pem.to_string());
    actor.set_public_key(feder_vocab::Reference::object(key));
    serde_json::to_value(&actor)
}

/// The document of an actor.
pub fn actor_document(actor: &LocalActor) -> (r: Result<serde_json::Value, Status>)
    ensures
        r is Ok,
        json_contents(r->Ok_0) == Json::Object(actor_members(actor@)),
{
    let addresses: [&str; 5] = [
        actor.addresses.id.as_str(),
        actor.addresses.inbox.as_str(),
        actor.addresses.outbox.as_str(),
        actor.addresses.followers.as_str(),
        actor.addresses.shared_inbox.as_str(),
    ];
    let key: [&str; 2] = [actor.key_id.as_str(), actor.key_owner().as_str()];
    match person_value(
        addresses,
        actor.preferred_username.as_str(),
        actor.name.as_str(),
        key,
        actor.public_key_pem.as_str(),
    ) {
        Ok(value) => Ok(value),
        Err(_) => Err(Status::InternalServerError),
    }
}

/// The document that the blog serves for the actor `username`. It fails only
/// where no such actor is published.
pub fn actor_json(actors: &SingleActorDispatcher, username: &str) -> (r: Result<
    serde_json::Value,
    Status,
>)
    ensures
        match r {
            Ok(value) => {
                &&& actor_named(actors@, username@) is Some
                &&& json_contents(value) == served_document(actor_named(actors@, username@)->0)
            },
            Err(status) => {
                &&& actor_named(actors@, username@) is None
                &&& status == Status::InternalServerError
            },
        },
{
    match actors.get_actor(username) {
        Some(actor) => match actor_document(actor) {
            Ok(document) => Ok(set_text_member(document, "url", actor.url().as_str())),
            Err(status) => Err(status),
        },
        None => Err(Status::InternalServerError),
    }
}

/// The page that a served document names is at the actor's identifier, and
/// so is the owner of its key.
pub proof fn law_document_url_is_its_id(actor: LocalActor<Seq<char>, Seq<char>>)
    ensures
        member_text(served_document(actor), "url"@) == member_text(served_document(actor), "id"@),
        member_text(served_document(actor), "id"@) == Some(actor.addresses.id),
        member(served_document(actor), "publicKey"@) is Some,
        member_text(member(served_document(actor), "publicKey"@)->0, "owner"@) == member_text(
            served_document(actor),
            "id"@,
        ),
{
    lemma_member_names_differ();
}

/// A server that starts with a stored account and a stored key serves a
/// document with that key: while the store keeps both, a restart changes
/// neither.
pub proof fn law_document_shows_the_stored_key(
    account: Account<Seq<char>>,
    public_key_pem: Seq<char>,
    configured: Option<Seq<char>>,
)
    requires
        start_of(Ok(Some(account)), Ok(public_key_pem), configured) is Ok,
    ensures
        ({
            let actors = start_of(Ok(Some(account)), Ok(public_key_pem), configured)->Ok_0.actor;
            let actor = actor_named(actors, account.username);
            &&& actor is Some
            &&& member(served_document(actor->0), "publicKey"@) is Some
            &&& member_text(
                member(served_document(actor->0), "publicKey"@)->0,
                "publicKeyPem"@,
            ) == Some(public_key_pem)
        }),
{
    lemma_member_names_differ();
}

/// The names of the members that the laws speak of differ.
proof fn lemma_member_names_differ()
    ensures
        "url"@ != "id"@,
        "url"@ != "publicKey"@,
        "publicKey"@ != "id"@,
        "owner"@ != "publicKeyPem"@,
        "owner"@ != "id"@,
        "type"@ != "id"@,
        "type"@ != "owner"@,
        "id"@ != "inbox"@,
        "id"@ != "outbox"@,
        "id"@ != "followers"@,
        "id"@ != "preferredUsername"@,
        "id"@ != "name"@,
        "id"@ != "endpoints"@,
{
    reveal_strlit("url");
    reveal_strlit("id");
    reveal_strlit("publicKey");
    reveal_strlit("owner");
    reveal_strlit("publicKeyPem");
    reveal_strlit("type");
    reveal_strlit("inbox");
    reveal_strlit("outbox");
    reveal_strlit("followers");
    reveal_strlit("preferredUsername");
    reveal_strlit("name");
    reveal_strlit("endpoints");
    assert("id"@.len() == 2 && "url"@.len() == 3 && "type"@.len() == 4 && "name"@.len() == 4);
    assert("owner"@.len() == 5 && "inbox"@.len() == 5 && "outbox"@.len() == 6);
    assert("followers"@.len() == 9 && "endpoints"@.len() == 9 && "publicKey"@.len() == 9);
    assert("publicKeyPem"@.len() == 12 && "preferredUsername"@.len() == 17);
}

/// A served document says of the actor what the actor is, member by member,
/// and nothing else.
pub proof fn law_document_says_what_the_actor_is(
    actor: LocalActor<Seq<char>, Seq<char>>,
    name: Seq<char>,
)
    ensures
        ({
            let document = served_document(actor);
            &&& member(document, "type"@) == Some(Json::Text("Person"@))
            &&& member(document, "id"@) == Some(Json::Text(actor.addresses.id))
            &&& member(document, "inbox"@) == Some(Json::Text(actor.addresses.inbox))
            &&& member(document, "outbox"@) == Some(Json::Text(actor.addresses.outbox))
            &&& member(document, "followers"@) == Some(Json::Text(actor.addresses.followers))
            &&& member(document, "preferredUsername"@) == Some(
                Json::Text(actor.preferred_username),
            )
            &&& member(document, "name"@) == Some(Json::Text(actor.name))
            &&& member(document, "url"@) == Some(Json::Text(actor.addresses.id))
            &&& member(document, "endpoints"@) is Some
            &&& member(member(document, "endpoints"@)->0, "sharedInbox"@) == Some(
                Json::Text(actor.addresses.shared_inbox),
            )
            &&& member(document, "publicKey"@) is Some
            &&& member(member(document, "publicKey"@)->0, "id"@) == Some(Json::Text(actor.key_id))
            &&& member(member(document, "publicKey"@)->0, "owner"@) == Some(
                Json::Text(actor.addresses.id),
            )
            &&& member(member(document, "publicKey"@)->0, "publicKeyPem"@) == Some(
                Json::Text(actor.public_key_pem),
            )
            &&& member(document, name) is Some ==> name == "@context"@ || name == "type"@ || name
                == "id"@ || name == "inbox"@ || name == "outbox"@ || name == "followers"@ || name
                == "preferredUsername"@ || name == "name"@ || name == "url"@ || name
                == "endpoints"@ || name == "publicKey"@
        }),
{
    lemma_member_names_differ();
    reveal_strlit("url");
    reveal_strlit("id");
    reveal_strlit("publicKey");
    reveal_strlit("type");
    reveal_strlit("inbox");
    reveal_strlit("outbox");
    reveal_strlit("followers");
    reveal_strlit("preferredUsername");
    reveal_strlit("name");
    reveal_strlit("endpoints");
    assert("type"@[0] != "name"@[0]);
    assert("followers"@[0] != "endpoints"@[0] && "followers"@[0] != "publicKey"@[0]);
    assert("endpoints"@[0] != "publicKey"@[0]);
    assert("url"@.len() == 3 && "type"@.len() == 4 && "inbox"@.len() == 5);
    assert("outbox"@.len() == 6 && "followers"@.len() == 9 && "preferredUsername"@.len() == 17);
    assert("id"@.len() == 2 && "name"@.len() == 4 && "endpoints"@.len() == 9);
    reveal_strlit("owner");
    reveal_strlit("publicKeyPem");
    assert("publicKey"@.len() == 9 && "owner"@.len() == 5 && "publicKeyPem"@.len() == 12);
}

} // verus!
