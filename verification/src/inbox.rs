//! What arrives in an inbox: which activities are read, and which notes of
//! followed actors are stored.
use vstd::prelude::*;

use crate::account::Account;
use crate::address::{
    is_web_address, parsed_url, public_actor_id, public_actor_uri, validated_http_iri, web_text,
    AddressError, Iri, WebUrl,
};
use crate::json::{
    get_member, get_member_text, get_text, json_contents, json_document, member, member_text,
    parse_document, text_in, Json,
};
use crate::replies::{Status, StoreError};
use crate::routes::MAX_BODY;
use crate::text::{characters, optional, optional_str, same_text};

verus! {

/// The type of an activity that announces an object.
pub const CREATE: &'static str = "Create";

/// The type of an object that the blog stores.
pub const NOTE: &'static str = "Note";

/// What an activity says of itself.
#[derive(Debug)]
pub struct ActivitySummary<Text = String> {
    pub activity_type: Option<Text>,
    pub id: Option<Text>,
    pub actor: Option<Text>,
    pub object: Option<Text>,
}

impl View for ActivitySummary {
    type V = ActivitySummary<Seq<char>>;

    open spec fn view(&self) -> ActivitySummary<Seq<char>> {
        ActivitySummary {
            activity_type: optional(self.activity_type),
            id: optional(self.id),
            actor: optional(self.actor),
            object: optional(self.object),
        }
    }
}

/// A request to an inbox, read: the local actor to log it for, the document
/// where the body is one, and what the document says of itself.
#[derive(Debug)]
pub struct InboxRequest {
    pub local_actor: Option<Iri>,
    pub activity: Option<serde_json::Value>,
    pub summary: ActivitySummary,
}

/// An actor as an activity names it. In specifications `Id` is a sequence of
/// characters.
#[derive(Debug)]
pub enum ActorReference<Id = Iri> {
    /// The actor's identifier.
    Id(Id),
    /// The actor's document, of which only the identifier counts.
    Embedded { id: Id },
}

impl View for ActorReference {
    type V = ActorReference<Seq<char>>;

    open spec fn view(&self) -> ActorReference<Seq<char>> {
        match *self {
            ActorReference::Id(id) => ActorReference::Id(id@),
            ActorReference::Embedded { id } => ActorReference::Embedded { id: id@ },
        }
    }
}

/// A note as an activity brings it.
#[derive(Debug)]
pub struct IncomingNote<Id = Iri, Text = String> {
    pub id: Id,
    pub attributed_to: Option<ActorReference<Id>>,
    pub url: Option<Id>,
    pub content: Option<Text>,
}

/// An optional identifier by its view.
pub open spec fn optional_iri(iri: Option<Iri>) -> Option<Seq<char>> {
    match iri {
        Some(iri) => Some(iri@),
        None => None,
    }
}

impl View for IncomingNote {
    type V = IncomingNote<Seq<char>, Seq<char>>;

    open spec fn view(&self) -> IncomingNote<Seq<char>, Seq<char>> {
        IncomingNote {
            id: self.id@,
            attributed_to: match self.attributed_to {
                Some(actor) => Some(actor@),
                None => None,
            },
            url: optional_iri(self.url),
            content: optional(self.content),
        }
    }
}

/// The object of an activity: a link to it, or the note itself.
#[derive(Debug)]
pub enum NoteReference<Id = Iri, Text = String> {
    Id(Id),
    Object(IncomingNote<Id, Text>),
}

impl View for NoteReference {
    type V = NoteReference<Seq<char>, Seq<char>>;

    open spec fn view(&self) -> NoteReference<Seq<char>, Seq<char>> {
        match *self {
            NoteReference::Id(id) => NoteReference::Id(id@),
            NoteReference::Object(note) => NoteReference::Object(note@),
        }
    }
}

/// An activity that announces a note.
#[derive(Debug)]
pub struct IncomingCreateNote<Id = Iri, Text = String> {
    pub actor: ActorReference<Id>,
    pub object: NoteReference<Id, Text>,
}

impl View for IncomingCreateNote {
    type V = IncomingCreateNote<Seq<char>, Seq<char>>;

    open spec fn view(&self) -> IncomingCreateNote<Seq<char>, Seq<char>> {
        IncomingCreateNote { actor: self.actor@, object: self.object@ }
    }
}

/// A note that is stored if its author is followed.
#[derive(Debug)]
pub struct RemoteNote<Text = String> {
    pub author: Text,
    pub uri: Text,
    pub content: Text,
    pub url: Text,
}

impl View for RemoteNote {
    type V = RemoteNote<Seq<char>>;

    open spec fn view(&self) -> RemoteNote<Seq<char>> {
        RemoteNote {
            author: self.author@,
            uri: self.uri@,
            content: self.content@,
            url: self.url@,
        }
    }
}

/// What the store keeps of a note. The author is a row of the store.
#[derive(Debug)]
pub struct RemotePost<Text = String> {
    pub uri: Text,
    pub author_row: i64,
    pub content: Text,
    pub url: Text,
}

impl View for RemotePost {
    type V = RemotePost<Seq<char>>;

    open spec fn view(&self) -> RemotePost<Seq<char>> {
        RemotePost {
            uri: self.uri@,
            author_row: self.author_row,
            content: self.content@,
            url: self.url@,
        }
    }
}

/// The markup of `src` that may stand in a page, as `ammonia` leaves it.
pub uninterp spec fn cleaned_html(src: Seq<char>) -> Seq<char>;

/// Cleans markup with `ammonia::clean`. Claimed of it: the markup alone
/// decides what is left of it. Its buffers count bytes in 32 bits and it
/// panics where one overflows, so the markup is no longer than a request's
/// body may be, which is far below that.
#[verifier::external_body]
fn clean_html(src: &str) -> (r: String)
    requires
        src@.len() <= MAX_BODY,
    ensures
        r@ == cleaned_html(src@),
{
    ammonia::clean(src)
}

/// The identifier that a value refers to: the value itself, or the member
/// `id` of an object.
pub open spec fn reference_in(json: Json) -> Option<Seq<char>> {
    match text_in(json) {
        Some(text) => Some(text),
        None => member_text(json, "id"@),
    }
}

/// The identifier that a member refers to.
pub open spec fn member_reference(json: Json, name: Seq<char>) -> Option<Seq<char>> {
    match member(json, name) {
        Some(json) => reference_in(json),
        None => None,
    }
}

/// What an activity says of itself.
pub open spec fn summary_of(activity: Option<Json>) -> ActivitySummary<Seq<char>> {
    match activity {
        Some(activity) => ActivitySummary {
            activity_type: member_text(activity, "type"@),
            id: member_text(activity, "id"@),
            actor: member_reference(activity, "actor"@),
            object: member_reference(activity, "object"@),
        },
        None => ActivitySummary { activity_type: None, id: None, actor: None, object: None },
    }
}

/// The activity's object says that it is something else than a note.
pub open spec fn announces_another_kind(activity: Json) -> bool {
    match member(activity, "object"@) {
        Some(object) => match member_text(object, "type"@) {
            Some(kind) => kind != NOTE@,
            None => false,
        },
        None => false,
    }
}

/// The status of a response that handled its request.
pub open spec fn is_success(status: u16) -> bool {
    200 <= status < 300
}

/// The local actor to log a request for, where it is logged.
pub open spec fn logged_actor(
    logged: bool,
    local_actor: Result<Seq<char>, AddressError<Seq<char>>>,
) -> Result<Option<Seq<char>>, Status> {
    if logged {
        match local_actor {
            Ok(local_actor) => Ok(Some(local_actor)),
            Err(_) => Err(Status::InternalServerError),
        }
    } else {
        Ok(None)
    }
}

/// The response handled an activity that announces an object.
pub open spec fn is_handled_create(status: u16, activity_type: Option<Seq<char>>) -> bool {
    is_success(status) && activity_type == Some(CREATE@)
}

/// The identifier of a named actor.
pub open spec fn referenced_actor(actor: ActorReference<Seq<char>>) -> Seq<char> {
    match actor {
        ActorReference::Id(id) => id,
        ActorReference::Embedded { id } => id,
    }
}

/// The note that an activity brings for storing. A linked note and one
/// without an author are passed over; one by another author than the sender
/// is refused.
pub open spec fn attributed_note_of(create: IncomingCreateNote<Seq<char>, Seq<char>>) -> Result<
    Option<IncomingNote<Seq<char>, Seq<char>>>,
    Status,
> {
    match create.object {
        NoteReference::Id(_) => Ok(None),
        NoteReference::Object(note) => match note.attributed_to {
            None => Ok(None),
            Some(author) => if referenced_actor(author) == referenced_actor(create.actor) {
                Ok(Some(note))
            } else {
                Err(Status::Unauthorized)
            },
        },
    }
}

/// The address of a note's page: its own, or the note's identifier.
pub open spec fn page_of(note: IncomingNote<Seq<char>, Seq<char>>) -> Seq<char> {
    match note.url {
        Some(url) => url,
        None => note.id,
    }
}

/// The markup of a note; nothing where it has none.
pub open spec fn markup_of(note: IncomingNote<Seq<char>, Seq<char>>) -> Seq<char> {
    match note.content {
        Some(content) => content,
        None => ""@,
    }
}

/// The markup of the note that an activity brings is no longer than a
/// request's body may be.
pub open spec fn content_fits(create: IncomingCreateNote<Seq<char>, Seq<char>>) -> bool {
    match create.object {
        NoteReference::Object(note) => markup_of(note).len() <= MAX_BODY,
        NoteReference::Id(_) => true,
    }
}

/// A note with the web addresses of its page and its identifier and its
/// markup cleaned. Without either address it is refused.
pub open spec fn note_at(
    author: Seq<char>,
    note: IncomingNote<Seq<char>, Seq<char>>,
    page: Option<Seq<char>>,
    id: Option<Seq<char>>,
    cleaned: Seq<char>,
) -> Result<RemoteNote<Seq<char>>, Status> {
    match (page, id) {
        (Some(url), Some(_)) => Ok(RemoteNote { author, uri: note.id, content: cleaned, url }),
        _ => Err(Status::BadRequest),
    }
}

/// The note that a handled activity brings. An activity that announces
/// another kind of object is passed over, and one that cannot be read as the
/// announcement of a note is refused.
pub open spec fn received_note(
    activity: Json,
    create: Option<IncomingCreateNote<Seq<char>, Seq<char>>>,
) -> Result<Option<RemoteNote<Seq<char>>>, Status> {
    if announces_another_kind(activity) {
        Ok(None)
    } else {
        match create {
            None => Err(Status::BadRequest),
            Some(create) => match attributed_note_of(create) {
                Ok(Some(note)) => match note_at(
                    referenced_actor(create.actor),
                    note,
                    web_text(parsed_url(page_of(note))),
                    web_text(parsed_url(note.id)),
                    cleaned_html(markup_of(note)),
                ) {
                    Ok(note) => Ok(Some(note)),
                    Err(status) => Err(status),
                },
                Ok(None) => Ok(None),
                Err(status) => Err(status),
            },
        }
    }
}

/// What the store keeps of a note: nothing unless the author is followed.
pub open spec fn remote_post_of(
    note: RemoteNote<Seq<char>>,
    followed: Result<Option<i64>, StoreError>,
) -> Result<Option<RemotePost<Seq<char>>>, Status> {
    match followed {
        Ok(Some(author_row)) => Ok(
            Some(RemotePost { uri: note.uri, author_row, content: note.content, url: note.url }),
        ),
        Ok(None) => Ok(None),
        Err(_) => Err(Status::InternalServerError),
    }
}

/// The identifier that a value refers to.
pub fn reference_id<'a>(value: &'a serde_json::Value) -> (r: Option<&'a str>)
    ensures
        optional_str(r) == reference_in(json_contents(*value)),
{
    match get_text(value) {
        Some(text) => Some(text),
        None => get_member_text(value, "id"),
    }
}

fn owned(text: Option<&str>) -> (r: Option<String>)
    ensures
        optional(r) == optional_str(text),
{
    match text {
        Some(text) => Some(text.to_owned()),
        None => None,
    }
}

fn referenced(value: &serde_json::Value, name: &str) -> (r: Option<String>)
    ensures
        optional(r) == member_reference(json_contents(*value), name@),
{
    match get_member(value, name) {
        Some(found) => owned(reference_id(found)),
        None => None,
    }
}

/// What an activity says of itself.
pub fn summarize(activity: Option<&serde_json::Value>) -> (r: ActivitySummary)
    ensures
        r@ == summary_of(
            match activity {
                Some(activity) => Some(json_contents(*activity)),
                None => None,
            },
        ),
{
    match activity {
        Some(activity) => ActivitySummary {
            activity_type: owned(get_member_text(activity, "type")),
            id: owned(get_member_text(activity, "id")),
            actor: referenced(activity, "actor"),
            object: referenced(activity, "object"),
        },
        None => ActivitySummary { activity_type: None, id: None, actor: None, object: None },
    }
}

/// Reads a request to an account's inbox. A request that is logged names the
/// local actor, and fails where the account has no identifier; one that is
/// not logged does without.
pub fn handle_inbox(
    account: &Account,
    body: &[u8],
    configured: Option<&str>,
    logged: bool,
) -> (r: Result<InboxRequest, Status>)
    ensures
        ({
            let local_actor = public_actor_uri(optional_str(configured), account@.username);
            match r {
                Ok(request) => {
                    &&& logged_actor(logged, local_actor) == Ok::<_, Status>(
                        optional_iri(request.local_actor),
                    )
                    &&& json_document(body@) == match request.activity {
                        Some(activity) => Some(json_contents(activity)),
                        None => None,
                    }
                    &&& request.summary@ == summary_of(json_document(body@))
                },
                Err(status) => logged_actor(logged, local_actor) == Err::<
                    Option<Seq<char>>,
                    _,
                >(status),
            }
        }),
{
    let local_actor: Option<Iri> = if logged {
        match public_actor_id(account, configured) {
            Ok(local_actor) => Some(local_actor),
            Err(_) => return Err(Status::InternalServerError),
        }
    } else {
        None
    };
    let activity: Option<serde_json::Value> = match parse_document(body) {
        Ok(activity) => Some(activity),
        Err(_) => None,
    };
    let summary: ActivitySummary = summarize(activity.as_ref());
    Ok(InboxRequest { local_actor, activity, summary })
}

/// A handled activity is looked at for a note: the response to it, by its
/// status, is a success, and the activity announces an object.
pub fn brings_object(status: u16, summary: &ActivitySummary) -> (r: bool)
    ensures
        r == is_handled_create(status, summary@.activity_type),
{
    match &summary.activity_type {
        Some(activity_type) => 200 <= status && status < 300 && same_text(
            activity_type.as_str(),
            CREATE,
        ),
        None => false,
    }
}

/// The activity's object says that it is something else than a note.
pub fn is_another_kind(activity: &serde_json::Value) -> (r: bool)
    ensures
        r == announces_another_kind(json_contents(*activity)),
{
    match get_member(activity, "object") {
        Some(object) => match get_member_text(object, "type") {
            Some(kind) => !same_text(kind, NOTE),
            None => false,
        },
        None => false,
    }
}

/// The identifier of a named actor.
pub fn actor_reference_id(reference: &ActorReference) -> (r: &Iri)
    ensures
        r@ == referenced_actor(reference@),
{
    match reference {
        ActorReference::Id(id) => id,
        ActorReference::Embedded { id } => id,
    }
}

/// The note that an activity brings for storing.
pub fn attributed_note(create: &IncomingCreateNote) -> (r: Result<Option<&IncomingNote>, Status>)
    ensures
        match r {
            Ok(Some(note)) => attributed_note_of(create@) == Ok::<_, Status>(Some(note@)),
            Ok(None) => attributed_note_of(create@) == Ok::<_, Status>(
                None::<IncomingNote<Seq<char>, Seq<char>>>,
            ),
            Err(status) => attributed_note_of(create@) == Err::<
                Option<IncomingNote<Seq<char>, Seq<char>>>,
                _,
            >(status),
        },
{
    match &create.object {
        NoteReference::Id(_) => Ok(None),
        NoteReference::Object(note) => match &note.attributed_to {
            None => Ok(None),
            Some(author) => if actor_reference_id(author).same(actor_reference_id(&create.actor)) {
                Ok(Some(note))
            } else {
                Err(Status::Unauthorized)
            },
        },
    }
}

/// A note with the web addresses of its page and its identifier and its
/// markup cleaned.
pub fn checked_note(
    author: &Iri,
    note: &IncomingNote,
    page: Option<String>,
    id: Option<String>,
    cleaned: String,
) -> (r: Result<RemoteNote, Status>)
    ensures
        ({
            let expected = note_at(author@, note@, optional(page), optional(id), cleaned@);
            match r {
                Ok(remote) => expected == Ok::<_, Status>(remote@),
                Err(status) => expected == Err::<RemoteNote<Seq<char>>, _>(status),
            }
        }),
{
    match (page, id) {
        (Some(url), Some(_)) => Ok(
            RemoteNote { author: author.to_text(), uri: note.id.to_text(), content: cleaned, url },
        ),
        _ => Err(Status::BadRequest),
    }
}

/// Whether the markup of the note that an activity brings is no longer than a
/// request's body may be. That of a note which came in one always is.
pub fn fits_in_a_body(create: &IncomingCreateNote) -> (r: bool)
    ensures
        r == content_fits(create@),
{
    proof {
        reveal_strlit("");
    }
    match &create.object {
        NoteReference::Object(note) => match &note.content {
            Some(content) => characters(content.as_str()).len() <= MAX_BODY,
            None => true,
        },
        NoteReference::Id(_) => true,
    }
}

/// The note that a handled activity brings, where `create` is the activity
/// read as the announcement of a note, and `None` where it cannot be.
pub fn receive_create_note(
    activity: &serde_json::Value,
    create: Option<&IncomingCreateNote>,
) -> (r: Result<Option<RemoteNote>, Status>)
    requires
        create is Some ==> content_fits(create->0@),
    ensures
        ({
            let expected = received_note(
                json_contents(*activity),
                match create {
                    Some(create) => Some(create@),
                    None => None,
                },
            );
            match r {
                Ok(Some(note)) => expected == Ok::<_, Status>(Some(note@)),
                Ok(None) => expected == Ok::<_, Status>(None::<RemoteNote<Seq<char>>>),
                Err(status) => expected == Err::<Option<RemoteNote<Seq<char>>>, _>(status),
            }
        }),
{
    if is_another_kind(activity) {
        return Ok(None);
    }
    let create: &IncomingCreateNote = match create {
        Some(create) => create,
        None => return Err(Status::BadRequest),
    };
    let note: &IncomingNote = match attributed_note(create) {
        Ok(Some(note)) => note,
        Ok(None) => return Ok(None),
        Err(status) => return Err(status),
    };
    let page: Option<String> = match &note.url {
        Some(url) => validated_http_iri(url),
        None => validated_http_iri(&note.id),
    };
    let id: Option<String> = validated_http_iri(&note.id);
    proof {
        reveal_strlit("");
    }
    let cleaned: String = match &note.content {
        Some(content) => clean_html(content.as_str()),
        None => clean_html(""),
    };
    match checked_note(
        actor_reference_id(&create.actor),
        note,
        page,
        id,
        cleaned,
    ) {
        Ok(note) => Ok(Some(note)),
        Err(status) => Err(status),
    }
}

/// What the store keeps of a note, where `followed` is the row of the author
/// if the account follows them.
pub fn remote_post(note: RemoteNote, followed: Result<Option<i64>, StoreError>) -> (r: Result<
    Option<RemotePost>,
    Status,
>)
    ensures
        match r {
            Ok(Some(post)) => remote_post_of(note@, followed) == Ok::<_, Status>(Some(post@)),
            Ok(None) => remote_post_of(note@, followed) == Ok::<_, Status>(
                None::<RemotePost<Seq<char>>>,
            ),
            Err(status) => remote_post_of(note@, followed) == Err::<
                Option<RemotePost<Seq<char>>>,
                _,
            >(status),
        },
{
    match followed {
        Ok(Some(author_row)) => Ok(
            Some(RemotePost { uri: note.uri, author_row, content: note.content, url: note.url }),
        ),
        Ok(None) => Ok(None),
        Err(_) => Err(Status::InternalServerError),
    }
}

/// A received note was announced by its author. It is a note, its page and
/// its identifier are web addresses, and its markup is cleaned.
pub proof fn law_received_note_is_its_senders(
    activity: Json,
    create: Option<IncomingCreateNote<Seq<char>, Seq<char>>>,
)
    requires
        received_note(activity, create) is Ok,
        received_note(activity, create)->Ok_0 is Some,
    ensures
        !announces_another_kind(activity),
        create is Some,
        create->0.object is Object,
        ({
            let stored = received_note(activity, create)->Ok_0->0;
            let note = create->0.object->Object_0;
            &&& stored.author == referenced_actor(create->0.actor)
            &&& note.attributed_to is Some
            &&& referenced_actor(note.attributed_to->0) == stored.author
            &&& stored.uri == note.id
            &&& parsed_url(note.id) is Some
            &&& is_web_address(parsed_url(note.id)->0)
            &&& parsed_url(page_of(note)) is Some
            &&& is_web_address(parsed_url(page_of(note))->0)
            &&& stored.url == parsed_url(page_of(note))->0.text
            &&& stored.content == cleaned_html(markup_of(note))
        }),
{
}

/// Only the notes of followed actors are stored, each under its own
/// identifier.
pub proof fn law_only_followed_authors_are_stored(
    note: RemoteNote<Seq<char>>,
    followed: Result<Option<i64>, StoreError>,
)
    ensures
        remote_post_of(note, followed) is Ok && remote_post_of(note, followed)->Ok_0 is Some ==> {
            &&& followed == Ok::<_, StoreError>(
                Some(remote_post_of(note, followed)->Ok_0->0.author_row),
            )
            &&& remote_post_of(note, followed)->Ok_0->0.uri == note.uri
        },
{
}

/// An activity and a document that embeds it refer to the same object: an
/// object with an identifier is referred to as the bare identifier is.
pub proof fn law_embedded_reference_counts_as_its_id(members: Map<Seq<char>, Json>, id: Seq<char>)
    requires
        members.contains_key("id"@),
        members["id"@] == Json::Text(id),
    ensures
        reference_in(Json::Object(members)) == reference_in(Json::Text(id)),
{
}

/// A logged request names the local actor and fails without one; one that is
/// not logged needs none.
pub proof fn law_only_logged_requests_need_the_local_actor(
    local_actor: Result<Seq<char>, AddressError<Seq<char>>>,
    id: Seq<char>,
)
    ensures
        logged_actor(false, local_actor) == Ok::<_, Status>(None::<Seq<char>>),
        local_actor == Ok::<_, AddressError<Seq<char>>>(id) ==> logged_actor(true, local_actor)
            == Ok::<_, Status>(Some(id)),
        local_actor is Err ==> logged_actor(true, local_actor) == Err::<Option<Seq<char>>, _>(
            Status::InternalServerError,
        ),
{
}

/// An activity is looked at for a note exactly where it was handled with a
/// status from 200 up to 299 and its type is `Create`.
pub proof fn law_handled_creates_are_looked_at(status: u16, activity_type: Option<Seq<char>>)
    ensures
        is_handled_create(status, activity_type) <==> 200 <= status <= 299 && activity_type is Some
            && activity_type->0 == "Create"@,
{
}

/// An activity announces another kind of object exactly where its object is
/// embedded and has a type other than `Note`.
pub proof fn law_other_kinds_say_so(activity: Json)
    ensures
        announces_another_kind(activity) <==> {
            let object = member(activity, "object"@);
            &&& object is Some
            &&& member(object->0, "type"@) is Some
            &&& member(object->0, "type"@)->0 is Text
            &&& member(object->0, "type"@)->0->Text_0 != "Note"@
        },
{
}

/// An activity says its type and identifier itself; its actor and its object
/// it names by an identifier or embeds under one.
pub proof fn law_summary_says_what_the_activity_says(activity: Json, name: Seq<char>, text: Seq<char>)
    ensures
        summary_of(Some(activity)).activity_type == Some(text) <==> member(activity, "type"@)
            == Some(Json::Text(text)),
        summary_of(Some(activity)).id == Some(text) <==> member(activity, "id"@) == Some(
            Json::Text(text),
        ),
        summary_of(Some(activity)).actor == Some(text) <==> member(activity, "actor"@) == Some(
            Json::Text(text),
        ) || member(activity, "actor"@) is Some && member(member(activity, "actor"@)->0, "id"@)
            == Some(Json::Text(text)),
        summary_of(Some(activity)).object == Some(text) <==> member(activity, "object"@) == Some(
            Json::Text(text),
        ) || member(activity, "object"@) is Some && member(member(activity, "object"@)->0, "id"@)
            == Some(Json::Text(text)),
        summary_of(None).activity_type is None,
        summary_of(None).id is None,
        summary_of(None).actor is None,
        summary_of(None).object is None,
{
}

/// The actor that a reference names, bare or embedded.
pub open spec fn names_actor(reference: ActorReference<Seq<char>>, id: Seq<char>) -> bool {
    reference == ActorReference::Id(id) || reference == (ActorReference::Embedded { id })
}

/// A URL that a note may be found at.
pub open spec fn is_note_address(url: WebUrl<Seq<char>>) -> bool {
    &&& url.scheme == "http"@ || url.scheme == "https"@
    &&& url.host is Some
    &&& url.username == Seq::<char>::empty()
    &&& !url.has_password
}

/// Every note that its own author sends is received: whether the author and
/// the sender are named by their identifiers or embedded, where the two are
/// the same and the note's identifier and page are addresses of the web, the
/// note is received under its identifier, with its page and its markup
/// cleaned.
pub proof fn law_a_senders_note_is_received(
    activity: Json,
    create: IncomingCreateNote<Seq<char>, Seq<char>>,
    note: IncomingNote<Seq<char>, Seq<char>>,
    author: ActorReference<Seq<char>>,
    id: Seq<char>,
    page: Seq<char>,
    page_url: WebUrl<Seq<char>>,
    note_url: WebUrl<Seq<char>>,
    markup: Seq<char>,
)
    requires
        !announces_another_kind(activity),
        create.object == (NoteReference::Object(note)),
        note.attributed_to == Some(author),
        names_actor(author, id),
        names_actor(create.actor, id),
        note.url == Some(page) || note.url is None && page == note.id,
        note.content == Some(markup) || note.content is None && markup == Seq::<char>::empty(),
        parsed_url(page) == Some(page_url),
        parsed_url(note.id) == Some(note_url),
        is_note_address(page_url),
        is_note_address(note_url),
    ensures
        received_note(activity, Some(create)) == Ok::<_, Status>(
            Some(
                RemoteNote {
                    author: id,
                    uri: note.id,
                    content: cleaned_html(markup),
                    url: page_url.text,
                },
            ),
        ),
{
    reveal_strlit("");
    assert(""@ =~= Seq::<char>::empty());
}

/// A note is refused as another's exactly where its author and its sender are
/// not the same. It is refused as bad where the activity cannot be read or
/// one of its addresses is not of the web, and passed over where it is of
/// another kind, linked or without an author.
pub proof fn law_notes_are_refused_for_a_reason(
    activity: Json,
    create: IncomingCreateNote<Seq<char>, Seq<char>>,
    note: IncomingNote<Seq<char>, Seq<char>>,
    author: ActorReference<Seq<char>>,
    id: Seq<char>,
    sender: Seq<char>,
    page: Seq<char>,
    link: Seq<char>,
)
    requires
        names_actor(author, id),
        names_actor(create.actor, sender),
        note.url == Some(page) || note.url is None && page == note.id,
    ensures
        announces_another_kind(activity) ==> received_note(activity, Some(create)) == Ok::<
            _,
            Status,
        >(None::<RemoteNote<Seq<char>>>) && received_note(activity, None) == Ok::<_, Status>(
            None::<RemoteNote<Seq<char>>>,
        ),
        !announces_another_kind(activity) ==> {
            let received = received_note(activity, Some(create));
            let attributed = create.object == NoteReference::Object(note) && note.attributed_to
                == Some(author);
            let addressed = parsed_url(page) is Some && is_note_address(parsed_url(page)->0)
                && parsed_url(note.id) is Some && is_note_address(parsed_url(note.id)->0);
            &&& received_note(activity, None) == Err::<Option<RemoteNote<Seq<char>>>, _>(
                Status::BadRequest,
            )
            &&& create.object == NoteReference::<Seq<char>, Seq<char>>::Id(link) ==> received
                == Ok::<_, Status>(None::<RemoteNote<Seq<char>>>)
            &&& create.object == NoteReference::Object(note) && note.attributed_to is None
                ==> received == Ok::<_, Status>(None::<RemoteNote<Seq<char>>>)
            &&& attributed && id != sender ==> received == Err::<
                Option<RemoteNote<Seq<char>>>,
                _,
            >(Status::Unauthorized)
            &&& attributed && id == sender ==> (received is Ok <==> addressed)
            &&& attributed && id == sender && !addressed ==> received == Err::<
                Option<RemoteNote<Seq<char>>>,
                _,
            >(Status::BadRequest)
        },
{
    if parsed_url(page) is Some && parsed_url(page)->0.username.len() == 0 {
        assert(parsed_url(page)->0.username =~= Seq::<char>::empty());
    }
    if parsed_url(note.id) is Some && parsed_url(note.id)->0.username.len() == 0 {
        assert(parsed_url(note.id)->0.username =~= Seq::<char>::empty());
    }
}

/// A received note of a followed author is stored as it was received, by the
/// author's row; one of another author is not, and only a store that fails is
/// an internal error.
pub proof fn law_notes_of_followed_authors_are_stored(
    note: RemoteNote<Seq<char>>,
    row: i64,
    error: StoreError,
)
    ensures
        remote_post_of(note, Ok(Some(row))) == Ok::<_, Status>(
            Some(
                RemotePost {
                    uri: note.uri,
                    author_row: row,
                    content: note.content,
                    url: note.url,
                },
            ),
        ),
        remote_post_of(note, Ok(None)) == Ok::<_, Status>(None::<RemotePost<Seq<char>>>),
        remote_post_of(note, Err(error)) == Err::<Option<RemotePost<Seq<char>>>, _>(
            Status::InternalServerError,
        ),
{
}

/// A note is kept with its author, its own identifier, the address of its
/// page and the cleaned markup; it fits where its markup is no longer than a
/// body.
pub proof fn law_a_checked_note_is_kept_whole(
    author: Seq<char>,
    create: IncomingCreateNote<Seq<char>, Seq<char>>,
    note: IncomingNote<Seq<char>, Seq<char>>,
    page: Seq<char>,
    id: Seq<char>,
    cleaned: Seq<char>,
    markup: Seq<char>,
)
    ensures
        note_at(author, note, Some(page), Some(id), cleaned) == Ok::<_, Status>(
            RemoteNote { author, uri: note.id, content: cleaned, url: page },
        ),
        note_at(author, note, None, Some(id), cleaned) is Err,
        note_at(author, note, Some(page), None, cleaned) is Err,
        create.object == NoteReference::Object(note) && note.content == Some(markup) ==> (
        content_fits(create) <==> markup.len() <= 1_048_576),
        create.object == NoteReference::Object(note) && note.content is None ==> content_fits(
            create,
        ),
        create.object is Id ==> content_fits(create),
{
    reveal_strlit("");
}

} // verus!
