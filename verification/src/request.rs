//! What the headers of a request say: the host and origin it was sent to,
//! and the kind of answer it asks for.
use axum::http::{HeaderMap, HeaderValue};
use vstd::prelude::*;

use crate::text::{
    before_first, contains_text, has_part, is_blank, is_white_space,
    law_parts_stand_between, law_text_before_ends_at_the_first,
    law_trimming_drops_surrounding_space, lemma_contains_add, lemma_trimmed_ends, optional,
    same_text, text_before, trim, trimmed,
};

verus! {

/// The address that the public listener binds to, and the host that stands
/// for a request which names none.
pub const PUBLIC_BIND: &'static str = "0.0.0.0:3000";

/// The address that the admin listener binds to.
pub const ADMIN_BIND: &'static str = "127.0.0.1:3001";

/// `axum::http::HeaderMap`, the headers of a request.
#[verifier::external_type_specification]
#[verifier::external_body]
#[verifier::reject_recursive_types(T)]
pub struct ExHeaderMap<T>(axum::http::HeaderMap<T>);

/// `axum::http::HeaderValue`, the bytes of one header.
#[verifier::external_type_specification]
#[verifier::external_body]
pub struct ExHeaderValue(axum::http::HeaderValue);

/// The bytes of the first header of each name, by its lower-case name.
pub uninterp spec fn header_fields(headers: HeaderMap<HeaderValue>) -> Map<Seq<char>, Seq<u8>>;

/// A header name in lower case.
pub open spec fn is_field_name(name: Seq<char>) -> bool {
    &&& name.len() > 0
    &&& forall|i: int| 0 <= i < name.len() ==> 'a' <= #[trigger] name[i] <= 'z' || name[i] == '-'
}

/// Calls `HeaderMap::get`, which finds the first header of a name, and takes
/// the bytes of its value.
#[verifier::external_body]
fn header_field(headers: &HeaderMap<HeaderValue>, name: &str) -> (r: Option<Vec<u8>>)
    requires
        is_field_name(name@),
    ensures
        r is Some <==> header_fields(*headers).dom().contains(name@),
        r is Some ==> r->0@ == header_fields(*headers)[name@],
{
    headers.get(name).map(|value| value.as_bytes().to_vec())
}

/// A byte that stands for a character in a header: visible ASCII, a space or
/// a tab.
pub open spec fn is_visible(byte: u8) -> bool {
    32 <= byte < 127 || byte == 9
}

/// The text of a header's bytes, where each of them stands for a character.
pub open spec fn visible_text(bytes: Seq<u8>) -> Option<Seq<char>> {
    if forall|i: int| 0 <= i < bytes.len() ==> is_visible(#[trigger] bytes[i]) {
        Some(bytes.map_values(|byte: u8| byte as char))
    } else {
        None
    }
}

/// The text of the first header `name`, where there is one and it has a text.
pub open spec fn header_text_of(headers: HeaderMap<HeaderValue>, name: Seq<char>) -> Option<
    Seq<char>,
> {
    if header_fields(headers).dom().contains(name) {
        visible_text(header_fields(headers)[name])
    } else {
        None
    }
}

/// The first entry of a comma-separated list.
pub open spec fn first_entry(list: Seq<char>) -> Seq<char> {
    trimmed(before_first(list, ','))
}

/// The host in the text of the header that names it.
pub open spec fn host_in(value: Option<Seq<char>>) -> Seq<char> {
    match value {
        Some(value) => if first_entry(value).len() > 0 {
            first_entry(value)
        } else {
            PUBLIC_BIND@
        },
        None => PUBLIC_BIND@,
    }
}

/// The scheme in the text of the header that names it.
pub open spec fn scheme_in(value: Option<Seq<char>>) -> Seq<char> {
    match value {
        Some(value) => if first_entry(value) == "http"@ || first_entry(value) == "https"@ {
            first_entry(value)
        } else {
            "http"@
        },
        None => "http"@,
    }
}

/// The host that a request was sent to. A proxy's word goes before the
/// request's own.
pub open spec fn host_of(headers: HeaderMap<HeaderValue>) -> Seq<char> {
    if header_fields(headers).dom().contains("x-forwarded-host"@) {
        host_in(header_text_of(headers, "x-forwarded-host"@))
    } else {
        host_in(header_text_of(headers, "host"@))
    }
}

/// The origin that a request was sent to.
pub open spec fn request_origin_of(headers: HeaderMap<HeaderValue>) -> Seq<char> {
    scheme_in(header_text_of(headers, "x-forwarded-proto"@)) + "://"@ + host_of(headers)
}

/// The text of an `Accept` header asks for a JSON document.
pub open spec fn names_json(accept: Seq<char>) -> bool {
    ||| has_part(accept, "application/activity+json"@)
    ||| has_part(accept, "application/ld+json"@)
    ||| has_part(accept, "application/json"@)
}

/// A request asks for a JSON document.
pub open spec fn asks_for_json(headers: HeaderMap<HeaderValue>) -> bool {
    header_text_of(headers, "accept"@) matches Some(accept) && names_json(accept)
}

/// The text of a header's bytes, where each of them stands for a character.
pub fn header_text(bytes: &Vec<u8>) -> (r: Option<String>)
    ensures
        optional(r) == visible_text(bytes@),
{
    let mut out: String = String::new();
    let ghost text = bytes@.map_values(|byte: u8| byte as char);
    let mut i: usize = 0;
    assert(out@ =~= text.take(0));
    while i < bytes.len()
        invariant
            i <= bytes@.len(),
            text == bytes@.map_values(|byte: u8| byte as char),
            out@ == text.take(i as int),
            forall|k: int| 0 <= k < i ==> is_visible(#[trigger] bytes@[k]),
        decreases bytes@.len() - i,
    {
        let byte: u8 = bytes[i];
        if !((32 <= byte && byte < 127) || byte == 9) {
            assert(!is_visible(bytes@[i as int]));
            return None;
        }
        out.push(byte as char);
        assert(out@ =~= text.take(i + 1));
        i += 1;
    }
    assert(text.take(i as int) =~= text);
    Some(out)
}

/// The text of the first header `name`, where there is one and it has a text.
fn read_header(headers: &HeaderMap<HeaderValue>, name: &str) -> (r: Option<String>)
    requires
        is_field_name(name@),
    ensures
        optional(r) == header_text_of(*headers, name@),
{
    match header_field(headers, name) {
        Some(bytes) => header_text(&bytes),
        None => None,
    }
}

/// The first entry of a comma-separated list.
fn first_of(list: &str) -> (r: String)
    ensures
        r@ == first_entry(list@),
{
    trim(text_before(list, ',').as_str())
}

/// The host in the text of the header that names it.
pub fn named_host(value: Option<String>) -> (r: String)
    ensures
        r@ == host_in(optional(value)),
{
    if let Some(value) = value {
        let host: String = first_of(value.as_str());
        if !host.as_str().is_empty() {
            return host;
        }
    }
    PUBLIC_BIND.to_owned()
}

/// The scheme in the text of the header that names it.
pub fn named_scheme(value: Option<String>) -> (r: String)
    ensures
        r@ == scheme_in(optional(value)),
{
    if let Some(value) = value {
        let scheme: String = first_of(value.as_str());
        if same_text(scheme.as_str(), "http") || same_text(scheme.as_str(), "https") {
            return scheme;
        }
    }
    "http".to_owned()
}

/// Whether the text of an `Accept` header asks for a JSON document.
pub fn accepts_json(accept: &str) -> (r: bool)
    ensures
        r == names_json(accept@),
{
    contains_text(accept, "application/activity+json") || contains_text(
        accept,
        "application/ld+json",
    ) || contains_text(accept, "application/json")
}

/// Whether a request asks for a JSON document.
pub fn wants_activity_json(headers: &HeaderMap<HeaderValue>) -> (r: bool)
    ensures
        r == asks_for_json(*headers),
{
    proof {
        reveal_strlit("accept");
    }
    match read_header(headers, "accept") {
        Some(accept) => accepts_json(accept.as_str()),
        None => false,
    }
}

/// The host that a request was sent to.
pub fn request_host(headers: &HeaderMap<HeaderValue>) -> (r: String)
    ensures
        r@ == host_of(*headers),
{
    proof {
        reveal_strlit("x-forwarded-host");
        reveal_strlit("host");
    }
    match header_field(headers, "x-forwarded-host") {
        Some(bytes) => named_host(header_text(&bytes)),
        None => named_host(read_header(headers, "host")),
    }
}

/// The origin that a request was sent to.
pub fn request_origin(headers: &HeaderMap<HeaderValue>) -> (r: String)
    ensures
        r@ == request_origin_of(*headers),
{
    proof {
        reveal_strlit("x-forwarded-proto");
    }
    let mut out: String = named_scheme(read_header(headers, "x-forwarded-proto"));
    out.append("://");
    out.append(request_host(headers).as_str());
    out
}

/// A request always has a host: one without white space at its ends, and
/// never an empty one.
pub proof fn law_host_is_never_empty(headers: HeaderMap<HeaderValue>)
    ensures
        host_of(headers).len() > 0,
        trimmed(host_of(headers)) == host_of(headers),
{
    reveal_strlit("0.0.0.0:3000");
    lemma_trimmed_ends(PUBLIC_BIND@);
    assert(trimmed(PUBLIC_BIND@) == PUBLIC_BIND@);
    let name = if header_fields(headers).dom().contains("x-forwarded-host"@) {
        "x-forwarded-host"@
    } else {
        "host"@
    };
    if let Some(value) = header_text_of(headers, name) {
        lemma_trimmed_ends(before_first(value, ','));
    }
}

/// A header has a text exactly where its bytes are visible ASCII, spaces and
/// tabs, and the text then spells the bytes one by one. A header that is not
/// there has none.
pub proof fn law_header_text_spells_the_bytes(
    headers: HeaderMap<HeaderValue>,
    name: Seq<char>,
    text: Seq<char>,
)
    ensures
        header_text_of(headers, name) == Some(text) <==> {
            let bytes = header_fields(headers)[name];
            &&& header_fields(headers).dom().contains(name)
            &&& bytes.len() == text.len()
            &&& forall|i: int|
                0 <= i < bytes.len() ==> (#[trigger] bytes[i] == 9 || 32 <= bytes[i] <= 126)
                    && text[i] as int == bytes[i] as int
        },
{
    let bytes = header_fields(headers)[name];
    let spelled = bytes.map_values(|byte: u8| byte as char);
    if header_fields(headers).dom().contains(name) {
        if header_text_of(headers, name) == Some(text) {
            assert(text == spelled);
            assert forall|i: int| 0 <= i < bytes.len() implies (#[trigger] bytes[i] == 9 || 32
                <= bytes[i] <= 126) && text[i] as int == bytes[i] as int by {
                assert(is_visible(bytes[i]));
                assert(text[i] == bytes[i] as char);
            }
        }
        if bytes.len() == text.len() && (forall|i: int|
            0 <= i < bytes.len() ==> (#[trigger] bytes[i] == 9 || 32 <= bytes[i] <= 126)
                && text[i] as int == bytes[i] as int) {
            assert forall|i: int| 0 <= i < bytes.len() implies is_visible(#[trigger] bytes[i]) by {}
            assert(spelled =~= text) by {
                assert forall|i: int| 0 <= i < text.len() implies spelled[i] == text[i] by {
                    assert(text[i] as int == bytes[i] as int);
                }
            }
        }
    }
}

/// `value` is a list whose first entry is `entry`, with white space around
/// it that does not count.
pub open spec fn lists_first(
    value: Seq<char>,
    lead: Seq<char>,
    entry: Seq<char>,
    trail: Seq<char>,
    more: Seq<char>,
) -> bool {
    &&& is_blank(lead)
    &&& is_blank(trail)
    &&& !entry.contains(',')
    &&& entry.len() > 0 ==> !is_white_space(entry[0]) && !is_white_space(entry.last())
    &&& value == lead + entry + trail || value == lead + entry + trail + seq![','] + more
}

proof fn lemma_first_entry(
    value: Seq<char>,
    lead: Seq<char>,
    entry: Seq<char>,
    trail: Seq<char>,
    more: Seq<char>,
)
    requires
        lists_first(value, lead, entry, trail, more),
    ensures
        first_entry(value) == entry,
{
    let head = lead + entry + trail;
    assert(!head.contains(',')) by {
        lemma_contains_add(lead + entry, trail, ',');
        lemma_contains_add(lead, entry, ',');
        assert(!is_white_space(','));
    }
    law_text_before_ends_at_the_first(head, ',', more);
    law_trimming_drops_surrounding_space(lead, entry, trail);
}

/// A request is for the host that its header lists first, whole: a port or
/// anything else in it stays. A proxy's header goes before the request's own.
/// Where that header lists nothing first, has no text or is not there, the
/// request is for the public listener.
pub proof fn law_host_is_the_first_listed(
    headers: HeaderMap<HeaderValue>,
    value: Seq<char>,
    lead: Seq<char>,
    host: Seq<char>,
    trail: Seq<char>,
    more: Seq<char>,
)
    requires
        lists_first(value, lead, host, trail, more),
    ensures
        header_text_of(headers, "x-forwarded-host"@) == Some(value) ==> host_of(headers) == if host
            == Seq::<char>::empty() {
            "0.0.0.0:3000"@
        } else {
            host
        },
        !header_fields(headers).dom().contains("x-forwarded-host"@) && header_text_of(
            headers,
            "host"@,
        ) == Some(value) ==> host_of(headers) == if host == Seq::<char>::empty() {
            "0.0.0.0:3000"@
        } else {
            host
        },
        header_fields(headers).dom().contains("x-forwarded-host"@) && header_text_of(
            headers,
            "x-forwarded-host"@,
        ) is None ==> host_of(headers) == "0.0.0.0:3000"@,
        !header_fields(headers).dom().contains("x-forwarded-host"@) && header_text_of(
            headers,
            "host"@,
        ) is None ==> host_of(headers) == "0.0.0.0:3000"@,
{
    lemma_first_entry(value, lead, host, trail, more);
    if host.len() == 0 {
        assert(host =~= Seq::<char>::empty());
    }
}

/// The origin of a request is `https` exactly where the proxy's header lists
/// that scheme first, and `http` otherwise; the request's host stands behind
/// it.
pub proof fn law_origin_has_the_listed_scheme(
    headers: HeaderMap<HeaderValue>,
    value: Seq<char>,
    lead: Seq<char>,
    scheme: Seq<char>,
    trail: Seq<char>,
    more: Seq<char>,
)
    requires
        lists_first(value, lead, scheme, trail, more),
        header_text_of(headers, "x-forwarded-proto"@) == Some(value) || header_text_of(
            headers,
            "x-forwarded-proto"@,
        ) is None,
    ensures
        request_origin_of(headers) == if header_text_of(headers, "x-forwarded-proto"@) is Some
            && scheme == "https"@ {
            "https://"@
        } else {
            "http://"@
        } + host_of(headers),
{
    reveal_strlit("https");
    reveal_strlit("http");
    reveal_strlit("://");
    reveal_strlit("https://");
    reveal_strlit("http://");
    lemma_first_entry(value, lead, scheme, trail, more);
    assert("https"@ + "://"@ =~= "https://"@);
    assert("http"@ + "://"@ =~= "http://"@);
}

/// A request asks for a JSON document exactly where its `Accept` header has a
/// text in which one of three media types stands, with anything around it.
/// Every other request is for the page.
pub proof fn law_json_is_asked_for_by_name(
    headers: HeaderMap<HeaderValue>,
    accept: Seq<char>,
    before: Seq<char>,
    after: Seq<char>,
)
    ensures
        header_text_of(headers, "accept"@) is None ==> !asks_for_json(headers),
        header_text_of(headers, "accept"@) == Some(accept) ==> {
            &&& accept == before + "application/activity+json"@ + after ==> asks_for_json(headers)
            &&& accept == before + "application/ld+json"@ + after ==> asks_for_json(headers)
            &&& accept == before + "application/json"@ + after ==> asks_for_json(headers)
            &&& asks_for_json(headers) ==> exists|a: Seq<char>, name: Seq<char>, b: Seq<char>|
                accept == #[trigger] (a + name + b) && (name == "application/activity+json"@ || name
                    == "application/ld+json"@ || name == "application/json"@)
        },
        names_json(accept) == (has_part(accept, "application/activity+json"@) || has_part(
            accept,
            "application/ld+json"@,
        ) || has_part(accept, "application/json"@)),
{
    law_parts_stand_between(accept, "application/activity+json"@, before, after);
    law_parts_stand_between(accept, "application/ld+json"@, before, after);
    law_parts_stand_between(accept, "application/json"@, before, after);
}

} // verus!
