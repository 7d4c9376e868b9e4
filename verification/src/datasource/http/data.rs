//! What a handler sees of a request and sets of its response.
use axum::http::header::HeaderName;
use axum::http::{HeaderMap, HeaderValue};
use vstd::prelude::*;

use crate::datasink::http::client::token_char;
use crate::runtime::common::MessageContext;
use crate::runtime::string_map::{text_fields, text_map, StringMap};

verus! {

/// The headers of a request or a response.
#[verifier::external_type_specification]
#[verifier::external_body]
#[verifier::reject_recursive_types(T)]
pub struct ExHeaderMap<T>(HeaderMap<T>);

/// The value of a header.
#[verifier::external_type_specification]
#[verifier::external_body]
pub struct ExHeaderValue(HeaderValue);

/// The headers by their names, each with all of its values, in their order.
pub uninterp spec fn header_fields(headers: HeaderMap<HeaderValue>) -> Map<
    Seq<char>,
    Seq<Seq<u8>>,
>;

/// No headers at all.
pub open spec fn no_fields() -> Map<Seq<char>, Seq<Seq<u8>>> {
    Map::empty()
}

/// One value, and no other.
pub open spec fn only(value: Seq<u8>) -> Seq<Seq<u8>> {
    Seq::empty().push(value)
}

/// Calls `axum::http::HeaderMap::new`, which holds no header.
#[verifier::external_body]
fn new_headers() -> (headers: HeaderMap<HeaderValue>)
    ensures
        header_fields(headers) == no_fields(),
{
    HeaderMap::new()
}

/// Whether text is the name of a header: not empty, made of token characters, and
/// short enough.
pub open spec fn header_name(text: Seq<char>) -> bool {
    &&& 1 <= text.len() <= 65535
    &&& forall|i: int| 0 <= i < text.len() ==> token_char(#[trigger] text[i])
}

/// Whether bytes are the value of a header: no control characters but the tab.
pub open spec fn header_value(bytes: Seq<u8>) -> bool {
    forall|i: int|
        0 <= i < bytes.len() ==> (#[trigger] bytes[i] >= 32 && bytes[i] != 127) || bytes[i] == 9
}

/// A character as header names keep it: capital letters become small ones.
pub open spec fn lower(c: char) -> char {
    if 'A' <= c <= 'Z' {
        ((c as u32 + 32) as u8) as char
    } else {
        c
    }
}

pub open spec fn lower_name(name: Seq<char>) -> Seq<char> {
    Seq::new(name.len(), |i: int| lower(name[i]))
}

/// Calls `axum::http::HeaderMap::try_insert` with a name and a value made by
/// `HeaderName::from_bytes` and `HeaderValue::from_bytes`. A name and a value that
/// both are in order take the place of all earlier values under the name, whose
/// letters count as small ones; else nothing changes. The map may refuse a header
/// once it is very large, depending on how its names happen to hash; it does not
/// below some thousands of headers.
#[verifier::external_body]
fn insert_header(headers: &mut HeaderMap<HeaderValue>, name: &str, value: &[u8]) -> (inserted: bool)
    ensures
        inserted ==> header_name(name@) && header_value(value@),
        header_name(name@) && header_value(value@) && header_fields(*old(headers)).dom().len() < 6000
            ==> inserted,
        header_fields(*final(headers)) == (if inserted {
            header_fields(*old(headers)).insert(lower_name(name@), only(value@))
        } else {
            header_fields(*old(headers))
        }),
{
    match (HeaderName::from_bytes(name.as_bytes()), HeaderValue::from_bytes(value)) {
        (Ok(name), Ok(value)) => headers.try_insert(name, value).is_ok(),
        _ => false,
    }
}

/// The response as it is so far.
pub struct ResponseData {
    pub status: u16,
    pub headers: HeaderMap<HeaderValue>,
    pub body: Vec<u8>,
}

/// A response as its status, its headers by their names, and its bytes.
#[verifier::ext_equal]
pub ghost struct ResponseView {
    pub status: u16,
    pub headers: Map<Seq<char>, Seq<Seq<u8>>>,
    pub body: Seq<u8>,
}

impl View for ResponseData {
    type V = ResponseView;

    open spec fn view(&self) -> ResponseView {
        ResponseView {
            status: self.status,
            headers: header_fields(self.headers),
            body: self.body@,
        }
    }
}

/// A call that sets something of a response. A header may be refused.
pub ghost enum ResponseCall {
    Status(u16),
    Header { name: Seq<char>, value: Seq<u8>, accepted: bool },
    Body(Seq<u8>),
}

/// What calls set: the status, the header under a name in small letters, or the body.
pub ghost enum ResponsePart {
    Status,
    Header(Seq<char>),
    Body,
}

impl ResponseCall {
    /// The part of the response that the call sets, if it sets any.
    pub open spec fn part(self) -> Option<ResponsePart> {
        match self {
            ResponseCall::Status(_) => Some(ResponsePart::Status),
            ResponseCall::Header { name, accepted, .. } => if accepted {
                Some(ResponsePart::Header(lower_name(name)))
            } else {
                None
            },
            ResponseCall::Body(_) => Some(ResponsePart::Body),
        }
    }
}

impl ResponseView {
    /// The response after a call.
    pub open spec fn after(self, call: ResponseCall) -> ResponseView {
        match call {
            ResponseCall::Status(status) => ResponseView { status, ..self },
            ResponseCall::Header { name, value, accepted } => if accepted {
                ResponseView {
                    headers: self.headers.insert(lower_name(name), only(value)),
                    ..self
                }
            } else {
                self
            },
            ResponseCall::Body(body) => ResponseView { body, ..self },
        }
    }

    /// The response after some calls, in their order.
    pub open spec fn after_all(self, calls: Seq<ResponseCall>) -> ResponseView
        decreases calls.len(),
    {
        if calls.len() == 0 {
            self
        } else {
            self.after_all(calls.drop_last()).after(calls.last())
        }
    }
}

/// The last of some calls that set a part of the response, if any did.
pub open spec fn latest_call(calls: Seq<ResponseCall>, part: ResponsePart) -> Option<ResponseCall>
    decreases calls.len(),
{
    if calls.len() == 0 {
        None
    } else if calls.last().part() == Some(part) {
        Some(calls.last())
    } else {
        latest_call(calls.drop_last(), part)
    }
}

/// A request, and the response that its handler builds.
pub struct HandlerData {
    pub method: String,
    pub uri: String,
    pub headers: HeaderMap<HeaderValue>,
    pub body: Vec<u8>,
    response: ResponseData,
}

/// The metadata that a request's context carries: its headers that are text, the
/// last value of each.
pub fn request_metadata(fields: Vec<(String, Option<String>)>) -> (metadata: StringMap<String>)
    ensures
        metadata.wf(),
        metadata@ == text_map(fields@),
{
    text_fields(fields)
}

/// The text under a name, if it is there and not empty.
pub open spec fn text_under(metadata: Map<Seq<char>, String>, name: Seq<char>) -> Option<String> {
    if metadata.contains_key(name) && metadata[name]@.len() > 0 {
        Some(metadata[name])
    } else {
        None
    }
}

fn find_text(metadata: &StringMap<String>, name: &str) -> (found: Option<String>)
    requires
        metadata.wf(),
    ensures
        found == text_under(metadata@, name@),
{
    match metadata.get(name) {
        Some(text) => if text.as_str().is_empty() {
            None
        } else {
            Some(text.clone())
        },
        None => None,
    }
}

/// The context that a request comes with: its stream id, and whether it asks for
/// tracing. It does so by a trace marker, or where `sampled_parent` tells that the
/// trace it belongs to is sampled already.
pub fn request_context(metadata: &StringMap<String>, sampled_parent: bool) -> (context:
    MessageContext)
    requires
        metadata.wf(),
    ensures
        context.spec_stream_id() == text_under(metadata@, "x-stream-id"@),
        context.spec_sampled() == (sampled_parent || text_under(metadata@, "x-trace"@) is Some),
        !context.spec_cancelled(),
        context.spec_remaining() is None,
{
    let sampled: bool = sampled_parent || find_text(metadata, "x-trace").is_some();
    let context = MessageContext::background().with_sampling(sampled);
    match find_text(metadata, "x-stream-id") {
        Some(id) => context.with_stream_id(id),
        None => context,
    }
}

impl HandlerData {
    pub closed spec fn spec_response(&self) -> ResponseData {
        self.response
    }

    pub closed spec fn spec_method(&self) -> Seq<char> {
        self.method@
    }

    pub closed spec fn spec_uri(&self) -> Seq<char> {
        self.uri@
    }

    pub closed spec fn spec_headers(&self) -> HeaderMap<HeaderValue> {
        self.headers
    }

    pub closed spec fn spec_body(&self) -> Seq<u8> {
        self.body@
    }

    /// The request is the same.
    pub open spec fn same_request(&self, other: HandlerData) -> bool {
        &&& self.spec_method() == other.spec_method()
        &&& self.spec_uri() == other.spec_uri()
        &&& self.spec_headers() == other.spec_headers()
        &&& self.spec_body() == other.spec_body()
    }

    /// A request whose response is empty and in order.
    pub fn new(method: String, uri: String, headers: HeaderMap<HeaderValue>, body: Vec<u8>) -> (
        data: HandlerData)
        ensures
            data.spec_method() == method@,
            data.spec_uri() == uri@,
            data.spec_headers() == headers,
            data.spec_body() == body@,
            data.spec_response()@ == (ResponseView {
                status: 200,
                headers: no_fields(),
                body: Seq::empty(),
            }),
    {
        let response = ResponseData { status: 200, headers: new_headers(), body: Vec::new() };
        HandlerData { method, uri, headers, body, response }
    }

    /// Sets the status of the response.
    pub fn set_status(&mut self, status: u16)
        requires
            100 <= status <= 999,
        ensures
            final(self).spec_response()@ == old(self).spec_response()@.after(
                ResponseCall::Status(status),
            ),
            final(self).same_request(*old(self)),
    {
        self.response.status = status;
    }

    /// Sets a header of the response: the value is then the only one under its name. A
    /// name or a value that is not in order changes nothing.
    pub fn set_header(&mut self, name: &str, value: &[u8]) -> (accepted: bool)
        ensures
            accepted ==> header_name(name@) && header_value(value@),
            header_name(name@) && header_value(value@) && header_fields(
                old(self).spec_response().headers,
            ).dom().len() < 6000 ==> accepted,
            final(self).spec_response()@ == old(self).spec_response()@.after(
                (ResponseCall::Header { name: name@, value: value@, accepted }),
            ),
            final(self).same_request(*old(self)),
    {
        insert_header(&mut self.response.headers, name, value)
    }

    /// Sets the body of the response.
    pub fn set_response_body(&mut self, body: Vec<u8>)
        ensures
            final(self).spec_response()@ == old(self).spec_response()@.after(
                ResponseCall::Body(body@),
            ),
            final(self).same_request(*old(self)),
    {
        self.response.body = body;
    }

    /// The response that goes out.
    pub fn into_response(self) -> (response: ResponseData)
        ensures
            response == self.spec_response(),
    {
        self.response
    }
}

/// However many calls set something of a response, and whoever of those that share it
/// makes them, the last one wins for the status, for the body and for the header of
/// each name; a refused header changes nothing, and what no call sets stays.
pub proof fn law_last_call_wins(start: ResponseView, calls: Seq<ResponseCall>)
    ensures
        ({
            let response = start.after_all(calls);
            &&& response.status == (match latest_call(calls, ResponsePart::Status) {
                Some(ResponseCall::Status(status)) => status,
                _ => start.status,
            })
            &&& response.body == (match latest_call(calls, ResponsePart::Body) {
                Some(ResponseCall::Body(body)) => body,
                _ => start.body,
            })
            &&& forall|name: Seq<char>|
                match #[trigger] latest_call(calls, ResponsePart::Header(name)) {
                    Some(ResponseCall::Header { value, .. }) => {
                        &&& response.headers.contains_key(name)
                        &&& response.headers[name] == only(value)
                    },
                    _ => {
                        &&& response.headers.contains_key(name) == start.headers.contains_key(name)
                        &&& start.headers.contains_key(name) ==> response.headers[name]
                            == start.headers[name]
                    },
                }
        }),
    decreases calls.len(),
{
    if calls.len() > 0 {
        law_last_call_wins(start, calls.drop_last());
        let response = start.after_all(calls);
        assert forall|name: Seq<char>|
            match #[trigger] latest_call(calls, ResponsePart::Header(name)) {
                Some(ResponseCall::Header { value, .. }) => {
                    &&& response.headers.contains_key(name)
                    &&& response.headers[name] == only(value)
                },
                _ => {
                    &&& response.headers.contains_key(name) == start.headers.contains_key(name)
                    &&& start.headers.contains_key(name) ==> response.headers[name]
                        == start.headers[name]
                },
            } by {
            let earlier = latest_call(calls.drop_last(), ResponsePart::Header(name));
        }
    }
}

/// A header name keeps its length and its characters but for capital letters, which become the
/// small ones; names that differ in capitals only are the same name.
pub proof fn law_header_names_ignore_capitals(name: Seq<char>, index: int)
    requires
        0 <= index < name.len(),
    ensures
        lower_name(name).len() == name.len(),
        !('A' <= lower_name(name)[index] <= 'Z'),
        'A' <= name[index] <= 'Z' ==> lower_name(name)[index] as int == name[index] as int + 32,
        !('A' <= name[index] <= 'Z') ==> lower_name(name)[index] == name[index],
        lower_name(lower_name(name)) == lower_name(name),
{
    assert(lower_name(lower_name(name)) =~= lower_name(name)) by {
        assert forall|i: int| 0 <= i < name.len() implies lower(lower(name[i])) == lower(
            name[i],
        ) by {}
    }
}

/// A field of the metadata counts only where it is there and not empty.
pub proof fn law_empty_fields_do_not_count(metadata: Map<Seq<char>, String>, name: Seq<char>)
    ensures
        text_under(metadata, name) is Some <==> metadata.contains_key(name) && metadata[name]@.len()
            > 0,
        text_under(metadata, name) matches Some(text) ==> text == metadata[name],
{
}

/// A request that stays the same keeps its method, its address, its headers and its body.
pub proof fn law_same_request_keeps_its_parts(before: HandlerData, after: HandlerData)
    requires
        after.same_request(before),
    ensures
        after.spec_method() == before.spec_method(),
        after.spec_uri() == before.spec_uri(),
        after.spec_headers() == before.spec_headers(),
        after.spec_body() == before.spec_body(),
{
}

} // verus!
