//! The creation of the blog's one account.
use axum::http::{HeaderMap, HeaderValue};
use vstd::prelude::*;

use crate::account::{is_valid_username, shown_name, valid_username, Account};
use crate::actor::{handle_at, handle_text};
use crate::replies::{account_view, Reply, StoreError};
use crate::request::{
    header_fields, header_text_of, host_of, law_host_is_the_first_listed,
    law_origin_has_the_listed_scheme, request_host, request_origin, request_origin_of,
};
use crate::text::{is_white_space, trim, trimmed};

verus! {

/// The setup form as it was sent. `Text` is a `String` in programs and a
/// sequence of characters in specifications.
#[derive(Debug)]
pub struct SetupForm<Text = String> {
    pub username: Text,
    pub name: Text,
}

impl View for SetupForm {
    type V = SetupForm<Seq<char>>;

    open spec fn view(&self) -> SetupForm<Seq<char>> {
        SetupForm { username: self.username@, name: self.name@ }
    }
}

/// What the store keeps of the account and its actor.
#[derive(Debug)]
pub struct AccountRecord<Text = String> {
    pub username: Text,
    pub uri: Text,
    pub handle: Text,
    pub name: Text,
    pub inbox_url: Text,
    pub shared_inbox_url: Text,
    pub url: Text,
}

impl View for AccountRecord {
    type V = AccountRecord<Seq<char>>;

    open spec fn view(&self) -> AccountRecord<Seq<char>> {
        AccountRecord {
            username: self.username@,
            uri: self.uri@,
            handle: self.handle@,
            name: self.name@,
            inbox_url: self.inbox_url@,
            shared_inbox_url: self.shared_inbox_url@,
            url: self.url@,
        }
    }
}

/// What follows on a sent setup form.
#[derive(Debug)]
pub enum SetupStep<Text = String> {
    /// The request is answered.
    Answer(Reply<Text>),
    /// The store is to keep the account.
    Store(AccountRecord<Text>),
}

impl View for SetupStep {
    type V = SetupStep<Seq<char>>;

    open spec fn view(&self) -> SetupStep<Seq<char>> {
        match *self {
            SetupStep::Answer(reply) => SetupStep::Answer(reply@),
            SetupStep::Store(record) => SetupStep::Store(record@),
        }
    }
}

/// What follows on storing the account.
#[derive(Debug)]
pub enum StoredStep<Text = String> {
    /// The request is answered.
    Answer(Reply<Text>),
    /// The account's actor is to be published.
    Publish(Account<Text>),
}

impl View for StoredStep {
    type V = StoredStep<Seq<char>>;

    open spec fn view(&self) -> StoredStep<Seq<char>> {
        match *self {
            StoredStep::Answer(reply) => StoredStep::Answer(reply@),
            StoredStep::Publish(account) => StoredStep::Publish(account@),
        }
    }
}

/// The account of a sent form, at the origin and host that it was sent to.
/// A form without a valid username or without a name gives none.
pub open spec fn account_record(
    form: SetupForm<Seq<char>>,
    origin: Seq<char>,
    host: Seq<char>,
) -> Option<AccountRecord<Seq<char>>> {
    let username = trimmed(form.username);
    let name = trimmed(form.name);
    let uri = origin + "/users/"@ + username;
    if valid_username(username) && name.len() > 0 {
        Some(
            AccountRecord {
                username,
                uri,
                handle: handle_at(username, host),
                name,
                inbox_url: uri + "/inbox"@,
                shared_inbox_url: origin + "/inbox"@,
                url: uri,
            },
        )
    } else {
        None
    }
}

/// The account that a record keeps.
pub open spec fn recorded_account(record: AccountRecord<Seq<char>>) -> Account<Seq<char>> {
    Account { username: record.username, name: Some(record.name), handle: record.handle }
}

/// What follows on a setup form. A blog with an account keeps it; a store
/// that fails, and a form that gives no account, lead back to the form.
pub open spec fn setup_step(
    existing: Result<Option<Account<Seq<char>>>, StoreError>,
    record: Option<AccountRecord<Seq<char>>>,
) -> SetupStep<Seq<char>> {
    match existing {
        Ok(None) => match record {
            Some(record) => SetupStep::Store(record),
            None => SetupStep::Answer(Reply::Redirect("/setup"@)),
        },
        Ok(Some(_)) => SetupStep::Answer(Reply::Redirect("/"@)),
        Err(_) => SetupStep::Answer(Reply::Redirect("/setup"@)),
    }
}

/// What follows on a form with the headers of its request.
pub open spec fn setup_of(
    existing: Result<Option<Account<Seq<char>>>, StoreError>,
    form: SetupForm<Seq<char>>,
    headers: HeaderMap<HeaderValue>,
) -> SetupStep<Seq<char>> {
    setup_step(existing, account_record(form, request_origin_of(headers), host_of(headers)))
}

/// What follows on storing the account.
pub open spec fn stored_step(
    record: AccountRecord<Seq<char>>,
    stored: Result<(), StoreError>,
) -> StoredStep<Seq<char>> {
    match stored {
        Ok(_) => StoredStep::Publish(recorded_account(record)),
        Err(_) => StoredStep::Answer(Reply::Redirect("/setup"@)),
    }
}

/// The account of a sent form, at the origin and host that it was sent to.
pub fn new_account(form: &SetupForm, origin: &str, host: &str) -> (r: Option<AccountRecord>)
    ensures
        match r {
            Some(record) => account_record(form@, origin@, host@) == Some(record@),
            None => account_record(form@, origin@, host@) is None,
        },
{
    let username: String = trim(form.username.as_str());
    if !is_valid_username(username.as_str()) {
        return None;
    }
    let name: String = trim(form.name.as_str());
    if name.as_str().is_empty() {
        return None;
    }
    let mut uri: String = origin.to_owned();
    uri.append("/users/");
    uri.append(username.as_str());
    let handle: String = handle_text(username.as_str(), host);
    let mut inbox_url: String = uri.clone();
    inbox_url.append("/inbox");
    let mut shared_inbox_url: String = origin.to_owned();
    shared_inbox_url.append("/inbox");
    let url: String = uri.clone();
    Some(AccountRecord { username, uri, handle, name, inbox_url, shared_inbox_url, url })
}

/// What follows on a sent setup form.
pub fn create_account(
    existing: Result<Option<Account>, StoreError>,
    form: &SetupForm,
    headers: &HeaderMap<HeaderValue>,
) -> (r: SetupStep)
    ensures
        r@ == setup_of(account_view(existing), form@, *headers),
{
    match existing {
        Ok(None) => match new_account(
            form,
            request_origin(headers).as_str(),
            request_host(headers).as_str(),
        ) {
            Some(record) => SetupStep::Store(record),
            None => SetupStep::Answer(Reply::Redirect("/setup".to_owned())),
        },
        Ok(Some(_)) => SetupStep::Answer(Reply::Redirect("/".to_owned())),
        Err(_) => SetupStep::Answer(Reply::Redirect("/setup".to_owned())),
    }
}

/// What follows on storing the account: its actor is published, unless the
/// store failed.
pub fn account_stored(record: AccountRecord, stored: Result<(), StoreError>) -> (r: StoredStep)
    ensures
        r@ == stored_step(record@, stored),
{
    match stored {
        Ok(_) => StoredStep::Publish(
            Account { username: record.username, name: Some(record.name), handle: record.handle },
        ),
        Err(_) => StoredStep::Answer(Reply::Redirect("/setup".to_owned())),
    }
}

/// The answer to a setup that stored the account, whether or not its actor
/// could be published.
pub fn account_ready() -> (r: Reply)
    ensures
        r@ == Reply::Redirect("/"@),
{
    Reply::Redirect("/".to_owned())
}

/// A setup never replaces an account: whatever the form says, nothing is
/// stored while the blog has one or while the store cannot tell.
pub proof fn law_setup_keeps_the_account(
    existing: Result<Option<Account<Seq<char>>>, StoreError>,
    record: Option<AccountRecord<Seq<char>>>,
)
    ensures
        setup_step(existing, record) is Store ==> existing == Ok::<_, StoreError>(
            None::<Account<Seq<char>>>,
        ),
{
}

/// A created account has a valid username, the name that the form gave, and
/// that name to show.
pub proof fn law_created_account_is_valid(
    form: SetupForm<Seq<char>>,
    origin: Seq<char>,
    host: Seq<char>,
)
    requires
        account_record(form, origin, host) is Some,
    ensures
        ({
            let account = recorded_account(account_record(form, origin, host)->0);
            &&& valid_username(account.username)
            &&& account.username == trimmed(form.username)
            &&& shown_name(account) == trimmed(form.name)
            &&& account.handle == handle_at(account.username, host)
        }),
{
}

/// A form with a valid username and a name, white space around them aside,
/// becomes an account, and no other form does. Its addresses stand under the
/// origin that the form was sent to, and its handle is at that host.
pub proof fn law_form_becomes_its_account(
    form: SetupForm<Seq<char>>,
    origin: Seq<char>,
    host: Seq<char>,
)
    ensures
        ({
            let username = trimmed(form.username);
            let name = trimmed(form.name);
            let uri = origin + "/users/"@ + username;
            match account_record(form, origin, host) {
                Some(record) => {
                    &&& valid_username(username)
                    &&& name != Seq::<char>::empty()
                    &&& record.username == username
                    &&& record.name == name
                    &&& record.uri == uri
                    &&& record.url == uri
                    &&& record.inbox_url == uri + "/inbox"@
                    &&& record.shared_inbox_url == origin + "/inbox"@
                    &&& record.handle == seq!['@'] + username + seq!['@'] + host
                },
                None => !valid_username(username) || name == Seq::<char>::empty(),
            }
        }),
{
    reveal_strlit("@");
    assert("@"@ =~= seq!['@']);
    if trimmed(form.name).len() == 0 {
        assert(trimmed(form.name) =~= Seq::<char>::empty());
    }
}

/// A form sent to a host becomes an account there: the whole host, with its
/// port, stands in the account's handle and addresses.
pub proof fn law_account_is_at_the_requested_host(
    form: SetupForm<Seq<char>>,
    headers: HeaderMap<HeaderValue>,
    host: Seq<char>,
)
    requires
        !header_fields(headers).dom().contains("x-forwarded-host"@),
        header_text_of(headers, "x-forwarded-proto"@) is None,
        header_text_of(headers, "host"@) == Some(host),
        host.len() > 0,
        !host.contains(','),
        !is_white_space(host[0]),
        !is_white_space(host.last()),
        valid_username(trimmed(form.username)),
        trimmed(form.name).len() > 0,
    ensures
        ({
            let step = setup_of(Ok(None), form, headers);
            let username = trimmed(form.username);
            &&& step is Store
            &&& step->Store_0.username == username
            &&& step->Store_0.name == trimmed(form.name)
            &&& step->Store_0.uri == "http://"@ + host + "/users/"@ + username
            &&& step->Store_0.inbox_url == "http://"@ + host + "/users/"@ + username + "/inbox"@
            &&& step->Store_0.shared_inbox_url == "http://"@ + host + "/inbox"@
            &&& step->Store_0.handle == seq!['@'] + username + seq!['@'] + host
        }),
{
    let none = Seq::<char>::empty();
    assert(host =~= none + host + none);
    law_host_is_the_first_listed(headers, host, none, host, none, none);
    assert(host.len() > 0 ==> host != none);
    law_origin_has_the_listed_scheme(headers, host, none, host, none, none);
    law_form_becomes_its_account(form, request_origin_of(headers), host_of(headers));
}

/// Without an account a good form is stored and a bad one leads back to the
/// form. With one every form leads home, and where the store fails, back to
/// the form.
pub proof fn law_setup_stores_the_first_account(
    account: Account<Seq<char>>,
    record: AccountRecord<Seq<char>>,
    any: Option<AccountRecord<Seq<char>>>,
    error: StoreError,
)
    ensures
        setup_step(Ok(None), Some(record)) == SetupStep::Store(record),
        setup_step(Ok(None), None) == SetupStep::<Seq<char>>::Answer(Reply::Redirect("/setup"@)),
        setup_step(Ok(Some(account)), any) == SetupStep::<Seq<char>>::Answer(
            Reply::Redirect("/"@),
        ),
        setup_step(Err(error), any) == SetupStep::<Seq<char>>::Answer(Reply::Redirect("/setup"@)),
{
}

/// An account that was stored is published as it was stored; one that was not
/// leads back to the form.
pub proof fn law_a_stored_account_is_published(
    record: AccountRecord<Seq<char>>,
    error: StoreError,
)
    ensures
        stored_step(record, Ok(())) == StoredStep::Publish(
            Account { username: record.username, name: Some(record.name), handle: record.handle },
        ),
        stored_step(record, Err(error)) == StoredStep::<Seq<char>>::Answer(
            Reply::Redirect("/setup"@),
        ),
{
}

/// A form is judged by itself and by where it was sent: it becomes an account
/// at the request's origin and host, wherever there is none yet.
pub proof fn law_setup_is_for_the_requested_origin(
    existing: Result<Option<Account<Seq<char>>>, StoreError>,
    form: SetupForm<Seq<char>>,
    headers: HeaderMap<HeaderValue>,
)
    ensures
        setup_of(existing, form, headers) is Store <==> existing == Ok::<_, StoreError>(
            None::<Account<Seq<char>>>,
        ) && valid_username(trimmed(form.username)) && trimmed(form.name).len() > 0,
        setup_of(existing, form, headers) is Store ==> {
            let record = setup_of(existing, form, headers)->Store_0;
            let username = trimmed(form.username);
            let uri = request_origin_of(headers) + "/users/"@ + username;
            &&& record.username == username
            &&& record.name == trimmed(form.name)
            &&& record.uri == uri && record.url == uri
            &&& record.inbox_url == uri + "/inbox"@
            &&& record.shared_inbox_url == request_origin_of(headers) + "/inbox"@
            &&& record.handle == seq!['@'] + username + seq!['@'] + host_of(headers)
        },
        setup_of(existing, form, headers) is Answer ==> setup_of(existing, form, headers)
            == SetupStep::<Seq<char>>::Answer(
            Reply::Redirect(
                if existing is Ok && existing->Ok_0 is Some {
                    "/"@
                } else {
                    "/setup"@
                },
            ),
        ),
{
    law_form_becomes_its_account(form, request_origin_of(headers), host_of(headers));
    if trimmed(form.name).len() == 0 {
        assert(trimmed(form.name) =~= Seq::<char>::empty());
    }
}

} // verus!
