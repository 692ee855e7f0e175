//! Web addresses: the public origin of the blog, the identifiers derived
//! from it, and the addresses that requests bring.
use vstd::prelude::*;

use crate::account::Account;
use crate::text::{
    decimal, decimal_text, law_numerals_stand_for_their_numbers,
    law_trailing_characters_are_dropped, lemma_same_prefix, numeral_value, optional, optional_str,
    same_text, trim_end_char, without_trailing,
};

verus! {

/// The public origin where none is configured.
pub const DEFAULT_PUBLIC_ORIGIN: &'static str = "https://fedora.tuatara-lenok.ts.net";

/// `url::ParseError`, why a text is not a URL.
#[verifier::external_type_specification]
#[verifier::external_body]
pub struct ExParseError(url::ParseError);

/// The parts of a parsed URL that the blog's rules read. `Text` is a `String`
/// in programs and a sequence of characters in specifications.
#[derive(Debug)]
pub struct WebUrl<Text = String> {
    pub text: Text,
    pub scheme: Text,
    pub username: Text,
    pub has_password: bool,
    pub host: Option<Text>,
    pub port: Option<u16>,
    pub path: Text,
    pub has_query: bool,
    pub has_fragment: bool,
}

impl View for WebUrl {
    type V = WebUrl<Seq<char>>;

    open spec fn view(&self) -> WebUrl<Seq<char>> {
        WebUrl {
            text: self.text@,
            scheme: self.scheme@,
            username: self.username@,
            has_password: self.has_password,
            host: optional(self.host),
            port: self.port,
            path: self.path@,
            has_query: self.has_query,
            has_fragment: self.has_fragment,
        }
    }
}

/// The URL that `url::Url::parse` reads from a text, where it reads one.
pub uninterp spec fn parsed_url(value: Seq<char>) -> Option<WebUrl<Seq<char>>>;

/// Calls `url::Url::parse` and takes the parts of the URL with its accessors;
/// the result is the same for the same text.
#[verifier::external_body]
pub(crate) fn parse_url(value: &str) -> (r: Result<WebUrl, url::ParseError>)
    ensures
        match r {
            Ok(url) => parsed_url(value@) == Some(url@),
            Err(_) => parsed_url(value@) is None,
        },
{
    url::Url::parse(value).map(|url| WebUrl {
        text: url.as_str().to_string(),
        scheme: url.scheme().to_string(),
        username: url.username().to_string(),
        has_password: url.password().is_some(),
        host: url.host_str().map(str::to_string),
        port: url.port(),
        path: url.path().to_string(),
        has_query: url.query().is_some(),
        has_fragment: url.fragment().is_some(),
    })
}

/// The texts that are IRIs: with a scheme, and perhaps with a fragment.
pub uninterp spec fn is_iri(value: Seq<char>) -> bool;

/// Parses a text as a `feder_vocab::Iri`. That succeeds exactly on the
/// IRIs, and the parsed IRI has the text that it was parsed from.
#[verifier::external_body]
fn parse_iri_text(value: &str) -> (r: Option<String>)
    ensures
        r is Some <==> is_iri(value@),
        r is Some ==> r->0@ == value@,
{
    value.parse::<feder_vocab::Iri>().ok().map(|iri| iri.as_str().to_string())
}

/// An IRI.
#[derive(Debug)]
pub struct Iri {
    text: String,
}

impl View for Iri {
    type V = Seq<char>;

    closed spec fn view(&self) -> Seq<char> {
        self.text@
    }
}

impl Iri {
    #[verifier::type_invariant]
    spec fn parsed(self) -> bool {
        is_iri(self.text@)
    }

    /// The text of the IRI, which is an IRI.
    pub fn as_str(&self) -> (r: &str)
        ensures
            r@ == self@,
            is_iri(r@),
    {
        proof {
            use_type_invariant(self);
        }
        self.text.as_str()
    }

    /// The text of the IRI.
    pub fn to_text(&self) -> (r: String)
        ensures
            r@ == self@,
            is_iri(r@),
    {
        proof {
            use_type_invariant(self);
        }
        self.text.clone()
    }

    /// The same IRI once more.
    pub fn duplicate(&self) -> (r: Iri)
        ensures
            r@ == self@,
    {
        proof {
            use_type_invariant(self);
        }
        Iri { text: self.text.clone() }
    }

    /// Whether two IRIs have the same text.
    pub fn same(&self, other: &Iri) -> (r: bool)
        ensures
            r == (self@ == other@),
    {
        self.text == other.text
    }
}

/// Why there is no public origin.
#[derive(Clone, Copy, Debug, PartialEq, Eq, Structural)]
pub enum OriginError {
    /// The configured text is not a URL.
    Unparsable,
    /// The configured URL is not an HTTP(S) origin.
    NotAnOrigin,
    /// The configured URL has no host.
    NoHost,
}

/// Why there is no identifier.
#[derive(Debug)]
pub enum AddressError<Text = String> {
    /// There is no public origin to derive it from.
    Origin(OriginError),
    /// This text is not an IRI.
    InvalidIri(Text),
}

impl View for AddressError {
    type V = AddressError<Seq<char>>;

    open spec fn view(&self) -> AddressError<Seq<char>> {
        match *self {
            AddressError::Origin(error) => AddressError::Origin(error),
            AddressError::InvalidIri(value) => AddressError::InvalidIri(value@),
        }
    }
}

/// The result of deriving an identifier, by its views.
pub open spec fn address(result: Result<Iri, AddressError>) -> Result<
    Seq<char>,
    AddressError<Seq<char>>,
> {
    match result {
        Ok(iri) => Ok(iri@),
        Err(error) => Err(error@),
    }
}

/// What parsing `value` as an IRI gives.
pub open spec fn iri_of(value: Seq<char>) -> Result<Seq<char>, AddressError<Seq<char>>> {
    if is_iri(value) {
        Ok(value)
    } else {
        Err(AddressError::InvalidIri(value))
    }
}

/// The scheme is that of the web.
pub open spec fn is_web_scheme(scheme: Seq<char>) -> bool {
    scheme == "http"@ || scheme == "https"@
}

/// An HTTP(S) URL with a host and without credentials.
pub open spec fn is_web_address(url: WebUrl<Seq<char>>) -> bool {
    &&& is_web_scheme(url.scheme)
    &&& url.host is Some
    &&& url.username.len() == 0
    &&& !url.has_password
}

/// An HTTP(S) URL with nothing but a host and perhaps a port.
pub open spec fn is_origin(url: WebUrl<Seq<char>>) -> bool {
    &&& is_web_address(url)
    &&& url.path == ""@ || url.path == "/"@
    &&& !url.has_query
    &&& !url.has_fragment
}

/// The text to take the public origin from.
pub open spec fn origin_text(configured: Option<Seq<char>>) -> Seq<char> {
    match configured {
        Some(value) => value,
        None => DEFAULT_PUBLIC_ORIGIN@,
    }
}

/// The public origin in a parsed URL.
pub open spec fn origin_in(url: Option<WebUrl<Seq<char>>>) -> Result<
    WebUrl<Seq<char>>,
    OriginError,
> {
    match url {
        Some(url) => if is_origin(url) {
            Ok(url)
        } else {
            Err(OriginError::NotAnOrigin)
        },
        None => Err(OriginError::Unparsable),
    }
}

/// The public origin that a configuration gives.
pub open spec fn origin_of(configured: Option<Seq<char>>) -> Result<WebUrl<Seq<char>>, OriginError> {
    origin_in(parsed_url(origin_text(configured)))
}

/// The host, with its port where it is not the scheme's own.
pub open spec fn host_and_port(host: Seq<char>, port: Option<u16>) -> Seq<char> {
    match port {
        Some(port) => host + ":"@ + decimal(port as nat),
        None => host,
    }
}

/// The identifier of the actor `username` under an origin.
pub open spec fn actor_uri(origin: Seq<char>, username: Seq<char>) -> Seq<char> {
    without_trailing(origin, '/') + "/users/"@ + username
}

/// The identifier of the actor `username` under the public origin.
pub open spec fn public_actor_uri(
    configured: Option<Seq<char>>,
    username: Seq<char>,
) -> Result<Seq<char>, AddressError<Seq<char>>> {
    match origin_of(configured) {
        Ok(origin) => iri_of(actor_uri(origin.text, username)),
        Err(error) => Err(AddressError::Origin(error)),
    }
}

/// The address to show for a URL, where it is an address of the web.
pub open spec fn web_text(url: Option<WebUrl<Seq<char>>>) -> Option<Seq<char>> {
    match url {
        Some(url) => if is_web_address(url) {
            Some(url.text)
        } else {
            None
        },
        None => None,
    }
}

/// The IRI with the text `value`.
pub fn parse_iri(value: &str) -> (r: Result<Iri, AddressError>)
    ensures
        address(r) == iri_of(value@),
{
    match parse_iri_text(value) {
        Some(text) => Ok(Iri { text }),
        None => Err(AddressError::InvalidIri(value.to_owned())),
    }
}

/// Whether a URL is an HTTP(S) URL with a host and without credentials.
pub fn web_address(url: &WebUrl) -> (r: bool)
    ensures
        r == is_web_address(url@),
{
    (same_text(url.scheme.as_str(), "http") || same_text(url.scheme.as_str(), "https"))
        && url.host.is_some() && url.username.as_str().is_empty() && !url.has_password
}

/// The text of a URL that is an HTTP(S) URL with a host and without
/// credentials.
pub fn web_address_text(url: &WebUrl) -> (r: Option<String>)
    ensures
        optional(r) == web_text(Some(url@)),
{
    if web_address(url) {
        Some(url.text.clone())
    } else {
        None
    }
}

/// The normal form of an IRI that is an HTTP(S) URL with a host and without
/// credentials.
pub fn validated_http_iri(iri: &Iri) -> (r: Option<String>)
    ensures
        optional(r) == web_text(parsed_url(iri@)),
{
    match parse_url(iri.as_str()) {
        Ok(url) => web_address_text(&url),
        Err(_) => None,
    }
}

/// A parsed URL as the public origin.
pub fn checked_origin(url: WebUrl) -> (r: Result<WebUrl, OriginError>)
    ensures
        match r {
            Ok(origin) => origin_in(Some(url@)) == Ok::<_, OriginError>(origin@),
            Err(error) => origin_in(Some(url@)) == Err::<WebUrl<Seq<char>>, _>(error),
        },
{
    if web_address(&url) && (same_text(url.path.as_str(), "") || same_text(url.path.as_str(), "/"))
        && !url.has_query && !url.has_fragment {
        Ok(url)
    } else {
        Err(OriginError::NotAnOrigin)
    }
}

/// The public origin that a configuration gives.
pub fn public_origin(configured: Option<&str>) -> (r: Result<WebUrl, OriginError>)
    ensures
        match r {
            Ok(origin) => origin_of(optional_str(configured)) == Ok::<_, OriginError>(origin@),
            Err(error) => origin_of(optional_str(configured)) == Err::<WebUrl<Seq<char>>, _>(error),
        },
{
    let value: &str = match configured {
        Some(value) => value,
        None => DEFAULT_PUBLIC_ORIGIN,
    };
    match parse_url(value) {
        Ok(url) => checked_origin(url),
        Err(_) => Err(OriginError::Unparsable),
    }
}

/// The host of a URL, with its port where it is not the scheme's own.
pub fn handle_host(url: &WebUrl) -> (r: Option<String>)
    ensures
        optional(r) == match url@.host {
            Some(host) => Some(host_and_port(host, url@.port)),
            None => None,
        },
{
    match &url.host {
        Some(host) => {
            let mut out: String = host.clone();
            if let Some(port) = url.port {
                out.append(":");
                out.append(decimal_text(port as u64).as_str());
            }
            Some(out)
        },
        None => None,
    }
}

/// The host part of the handles of the blog's actors.
pub fn public_handle_host(configured: Option<&str>) -> (r: Result<String, OriginError>)
    ensures
        match r {
            Ok(host) => origin_of(optional_str(configured)) matches Ok(origin) && host@
                == host_and_port(origin.host->0, origin.port),
            Err(error) => origin_of(optional_str(configured)) == Err::<WebUrl<Seq<char>>, _>(error),
        },
{
    match public_origin(configured) {
        Ok(origin) => match handle_host(&origin) {
            Some(host) => Ok(host),
            None => Err(OriginError::NoHost),
        },
        Err(error) => Err(error),
    }
}

/// The identifier of the actor `username` under an origin.
pub fn actor_uri_text(origin: &str, username: &str) -> (r: String)
    ensures
        r@ == actor_uri(origin@, username@),
{
    let mut out: String = trim_end_char(origin, '/');
    out.append("/users/");
    out.append(username);
    out
}

/// The identifier of an account's actor under the public origin.
pub fn public_actor_id(account: &Account, configured: Option<&str>) -> (r: Result<
    Iri,
    AddressError,
>)
    ensures
        address(r) == public_actor_uri(optional_str(configured), account@.username),
{
    match public_origin(configured) {
        Ok(origin) => parse_iri(
            actor_uri_text(origin.text.as_str(), account.username.as_str()).as_str(),
        ),
        Err(error) => Err(AddressError::Origin(error)),
    }
}

/// Different usernames have different identifiers under the same origin.
pub proof fn law_actor_uris_differ(origin: Seq<char>, a: Seq<char>, b: Seq<char>)
    ensures
        actor_uri(origin, a) == actor_uri(origin, b) ==> a == b,
{
    let base = without_trailing(origin, '/') + "/users/"@;
    if actor_uri(origin, a) == actor_uri(origin, b) {
        lemma_same_prefix(base, a, b);
    }
}

/// An address of the web is an HTTP or HTTPS URL with a host, without a
/// username and without a password, and nothing else matters; what is shown
/// of it is its text.
pub proof fn law_web_addresses_are_told_by_their_parts(
    url: WebUrl<Seq<char>>,
    text: Seq<char>,
)
    ensures
        web_text(None) is None,
        web_text(Some(url)) == Some(text) <==> {
            &&& text == url.text
            &&& url.scheme == "http"@ || url.scheme == "https"@
            &&& url.host is Some
            &&& url.username == Seq::<char>::empty()
            &&& !url.has_password
        },
{
    if url.username.len() == 0 {
        assert(url.username =~= Seq::<char>::empty());
    }
}

/// The public origin is the URL in the configured text, or in the default
/// one, where that is an HTTP or HTTPS URL with a host and perhaps a port and
/// with nothing more.
pub proof fn law_origins_have_a_host_and_no_more(
    configured: Option<Seq<char>>,
    value: Seq<char>,
    url: WebUrl<Seq<char>>,
)
    requires
        configured == Some(value) || configured is None && value
            == "https://fedora.tuatara-lenok.ts.net"@,
    ensures
        origin_of(configured) == Ok::<_, OriginError>(url) <==> {
            &&& parsed_url(value) == Some(url)
            &&& url.scheme == "http"@ || url.scheme == "https"@
            &&& url.host is Some
            &&& url.username == Seq::<char>::empty()
            &&& !url.has_password
            &&& url.path == Seq::<char>::empty() || url.path == seq!['/']
            &&& !url.has_query
            &&& !url.has_fragment
        },
        parsed_url(value) is None <==> origin_of(configured) == Err::<WebUrl<Seq<char>>, _>(
            OriginError::Unparsable,
        ),
        origin_of(configured) is Err && parsed_url(value) is Some ==> origin_of(configured) == Err::<
            WebUrl<Seq<char>>,
            _,
        >(OriginError::NotAnOrigin),
{
    reveal_strlit("");
    reveal_strlit("/");
    assert(""@ =~= Seq::<char>::empty());
    assert("/"@ =~= seq!['/']);
    if url.username.len() == 0 {
        assert(url.username =~= Seq::<char>::empty());
    }
}

/// A host stands in a handle as it is, and a port behind it after a colon.
pub proof fn law_handle_hosts_keep_the_port(host: Seq<char>, port: u16)
    ensures
        host_and_port(host, None) == host,
        host_and_port(host, Some(port)).len() > host.len(),
        host_and_port(host, Some(port)).take(host.len() as int) == host,
        host_and_port(host, Some(port))[host.len() as int] == ':',
        numeral_value(host_and_port(host, Some(port)).skip(host.len() as int + 1)) == port,
{
    reveal_strlit(":");
    law_numerals_stand_for_their_numbers(port as nat);
    let whole = host_and_port(host, Some(port));
    assert(whole.take(host.len() as int) =~= host);
    assert(whole.skip(host.len() as int + 1) =~= decimal(port as nat));
}

/// The identifier of an actor is the origin, without the slashes that end it,
/// and the path of the username. It is given exactly where there is an origin
/// and that text is an IRI.
pub proof fn law_actor_ids_stand_under_the_origin(
    configured: Option<Seq<char>>,
    username: Seq<char>,
    base: Seq<char>,
    slashes: nat,
)
    requires
        origin_of(configured) is Ok ==> {
            &&& origin_of(configured)->Ok_0.text == base + Seq::new(slashes, |i: int| '/')
            &&& base.len() > 0 ==> base.last() != '/'
        },
    ensures
        ({
            let id = base + "/users/"@ + username;
            match origin_of(configured) {
                Ok(_) => if is_iri(id) {
                    public_actor_uri(configured, username) == Ok::<_, AddressError<Seq<char>>>(id)
                } else {
                    public_actor_uri(configured, username) == Err::<Seq<char>, _>(
                        AddressError::InvalidIri(id),
                    )
                },
                Err(error) => public_actor_uri(configured, username) == Err::<Seq<char>, _>(
                    AddressError::<Seq<char>>::Origin(error),
                ),
            }
        }),
{
    if origin_of(configured) is Ok {
        law_trailing_characters_are_dropped(base, '/', slashes);
    }
}

/// Every IRI is taken as it is written, and nothing else is taken.
pub proof fn law_iris_are_taken_as_written(value: Seq<char>)
    ensures
        is_iri(value) ==> iri_of(value) == Ok::<_, AddressError<Seq<char>>>(value),
        !is_iri(value) ==> iri_of(value) == Err::<Seq<char>, _>(AddressError::InvalidIri(value)),
{
}

} // verus!
