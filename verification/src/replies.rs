//! What the blog answers to a request.
use vstd::prelude::*;

use crate::account::Account;

verus! {

/// The store could not do what it was asked for.
#[derive(Clone, Copy, Debug, PartialEq, Eq, Structural)]
pub struct StoreError;

/// The HTTP statuses of the answers that are no success.
#[derive(Clone, Copy, Debug, PartialEq, Eq, Structural)]
pub enum Status {
    BadRequest,
    Unauthorized,
    NotFound,
    InternalServerError,
    BadGateway,
}

/// The number of an HTTP status.
pub open spec fn status_code(status: Status) -> u16 {
    match status {
        Status::BadRequest => 400,
        Status::Unauthorized => 401,
        Status::NotFound => 404,
        Status::InternalServerError => 500,
        Status::BadGateway => 502,
    }
}

impl Status {
    /// The number of the HTTP status.
    pub fn code(self) -> (r: u16)
        ensures
            r == status_code(self),
    {
        match self {
            Status::BadRequest => 400,
            Status::Unauthorized => 401,
            Status::NotFound => 404,
            Status::InternalServerError => 500,
            Status::BadGateway => 502,
        }
    }
}

/// An answer. `Text` is a `String` in programs and a sequence of characters
/// in specifications.
#[derive(Debug)]
pub enum Reply<Text = String> {
    /// An HTML page. Where `varies` is set, the answer depends on the request's
    /// `Accept` header and says so.
    Page { html: Text, varies: bool },
    /// A status with a plain text that explains it.
    Refusal { status: Status, text: Text },
    /// A redirection to a path of the blog.
    Redirect(Text),
    /// A bare status.
    Failure(Status),
}

impl View for Reply {
    type V = Reply<Seq<char>>;

    open spec fn view(&self) -> Reply<Seq<char>> {
        match *self {
            Reply::Page { html, varies } => Reply::Page { html: html@, varies },
            Reply::Refusal { status, text } => Reply::Refusal { status, text: text@ },
            Reply::Redirect(path) => Reply::Redirect(path@),
            Reply::Failure(status) => Reply::Failure(status),
        }
    }
}

/// A loaded account by its view.
pub open spec fn account_view(account: Result<Option<Account>, StoreError>) -> Result<
    Option<Account<Seq<char>>>,
    StoreError,
> {
    match account {
        Ok(Some(account)) => Ok(Some(account@)),
        Ok(None) => Ok(None),
        Err(error) => Err(error),
    }
}

/// A text from the store by its view.
pub open spec fn stored_text(text: Result<String, StoreError>) -> Result<Seq<char>, StoreError> {
    match text {
        Ok(text) => Ok(text@),
        Err(error) => Err(error),
    }
}

/// The account that a request is for, or the status that answers it.
pub open spec fn account_or_status(account: Result<Option<Account<Seq<char>>>, StoreError>) -> Result<
    Account<Seq<char>>,
    Status,
> {
    match account {
        Ok(Some(account)) => Ok(account),
        Ok(None) => Err(Status::NotFound),
        Err(_) => Err(Status::InternalServerError),
    }
}

/// The account that a request is for: where the store has none the answer is
/// "not found", and where the store fails it is an internal error.
pub fn require_account(account: Result<Option<Account>, StoreError>) -> (r: Result<Account, Status>)
    ensures
        match r {
            Ok(account_found) => account_or_status(account_view(account)) == Ok::<_, Status>(
                account_found@,
            ),
            Err(status) => account_or_status(account_view(account)) == Err::<
                Account<Seq<char>>,
                _,
            >(status),
        },
{
    match account {
        Ok(Some(account)) => Ok(account),
        Ok(None) => Err(Status::NotFound),
        Err(_) => Err(Status::InternalServerError),
    }
}

/// What the store gave; where it fails the answer is an internal error.
pub fn require_stored<T>(stored: Result<T, StoreError>) -> (r: Result<T, Status>)
    ensures
        match stored {
            Ok(value) => r == Ok::<T, Status>(value),
            Err(_) => r == Err::<T, Status>(Status::InternalServerError),
        },
{
    match stored {
        Ok(value) => Ok(value),
        Err(_) => Err(Status::InternalServerError),
    }
}

/// A request for an account that the store has is for that account; one for
/// another is not found, and only a store that fails is an internal error.
pub proof fn law_a_stored_account_is_found(
    account: Result<Option<Account<Seq<char>>>, StoreError>,
    stored: Account<Seq<char>>,
)
    ensures
        account == Ok::<_, StoreError>(Some(stored)) <==> account_or_status(account) == Ok::<
            _,
            Status,
        >(stored),
        account == Ok::<_, StoreError>(None::<Account<Seq<char>>>) <==> account_or_status(account)
            == Err::<Account<Seq<char>>, _>(Status::NotFound),
        account is Err <==> account_or_status(account) == Err::<Account<Seq<char>>, _>(
            Status::InternalServerError,
        ),
{
}

/// What the store gives is viewed as it is.
pub proof fn law_stored_things_are_viewed_as_they_are(account: Account, text: String)
    ensures
        account_view(Ok(Some(account))) == Ok::<_, StoreError>(Some(account@)),
        account_view(Ok(None)) == Ok::<_, StoreError>(None::<Account<Seq<char>>>),
        account_view(Err(StoreError)) is Err,
        stored_text(Ok(text)) == Ok::<_, StoreError>(text@),
        stored_text(Err(StoreError)) is Err,
{
}

} // verus!
