//! Requests and responses.
use vstd::prelude::*;

use crate::datasink::http::body::ResponseBody;
use crate::runtime::error::{Fault, HandlerError, HandlerResult};
use crate::runtime::string_map::{text_fields, text_map, StringMap};

verus! {

/// A request that a handler creates. The timeout is in nanoseconds.
pub struct Request {
    pub method: String,
    pub url: String,
    pub body: Vec<u8>,
    pub headers: StringMap<String>,
    pub timeout: Option<u128>,
}

/// A request as characters and bytes.
pub ghost struct RequestView {
    pub method: Seq<char>,
    pub url: Seq<char>,
    pub body: Seq<u8>,
    pub headers: Map<Seq<char>, String>,
    pub timeout: Option<u128>,
}

impl View for Request {
    type V = RequestView;

    open spec fn view(&self) -> RequestView {
        RequestView {
            method: self.method@,
            url: self.url@,
            body: self.body@,
            headers: self.headers@,
            timeout: self.timeout,
        }
    }
}

impl RequestView {
    /// With metadata among the headers, in place of earlier values under its keys.
    pub open spec fn with_metadata(self, metadata: Map<Seq<char>, String>) -> RequestView {
        RequestView { headers: self.headers.union_prefer_right(metadata), ..self }
    }
}

impl Request {
    /// Whether the headers are well-formed.
    pub open spec fn wf(&self) -> bool {
        self.headers.wf()
    }

    /// Puts metadata among the headers.
    pub fn extend_headers(&mut self, metadata: &StringMap<String>)
        requires
            old(self).wf(),
            metadata.wf(),
        ensures
            final(self).wf(),
            final(self)@ == old(self)@.with_metadata(metadata@),
    {
        self.headers.extend(metadata);
    }
}

/// Takes the one request that a handler creates for a message. A later request
/// takes the place of an earlier one.
pub struct Requester {
    request: Option<Request>,
}

impl Requester {
    pub closed spec fn spec_request(&self) -> Option<Request> {
        self.request
    }

    pub fn new() -> (requester: Requester)
        ensures
            requester.spec_request() is None,
    {
        Requester { request: None }
    }

    /// Creates a request without headers or a timeout and lends it to the caller.
    pub fn new_request(&mut self, method: String, url: String, body: Vec<u8>) -> (request:
        &mut Request)
        ensures
            request.method == method,
            request.url == url,
            request.body == body,
            request.wf(),
            request.headers@ == Map::<Seq<char>, String>::empty(),
            request.timeout is None,
            final(self).spec_request() == Some(*final(request)),
    {
        self.request.insert(
            Request { method, url, body, headers: StringMap::new(), timeout: None },
        )
    }

    /// The request, or the fault of a handler that created none.
    pub fn take_request<X>(&mut self) -> (result: HandlerResult<Request, X>)
        ensures
            final(self).spec_request() is None,
            result == (match old(self).spec_request() {
                Some(request) => Ok(request),
                None => Err(HandlerError::<X>::Fault(Fault::HttpRequestNotCreated)),
            }),
    {
        match self.request.take() {
            Some(request) => Ok(request),
            None => Err(HandlerError::Fault(Fault::HttpRequestNotCreated)),
        }
    }
}

impl Default for Requester {
    fn default() -> (requester: Requester)
        ensures
            requester.spec_request() is None,
    {
        Requester::new()
    }
}

/// A response with the headers that are text.
pub struct Response {
    pub status: u16,
    pub body: ResponseBody,
    pub headers: StringMap<String>,
}

impl Response {
    /// A response as the transport delivers it. The announced length counts only
    /// where it can be addressed.
    pub fn new(status: u16, fields: Vec<(String, Option<String>)>, content_length: Option<u64>) -> (
        response: Response)
        ensures
            response.status == status,
            response.headers.wf(),
            response.headers@ == text_map(fields@),
            response.body.wf(),
            response.body.spec_reading(),
            !response.body.spec_closed(),
            response.body.spec_content_length() == (match content_length {
                Some(size) if size <= usize::MAX => Some(size as usize),
                _ => None,
            }),
    {
        let headers = text_fields(fields);
        let length: Option<usize> = match content_length {
            Some(size) => {
                if size <= usize::MAX as u64 {
                    Some(size as usize)
                } else {
                    None
                }
            },
            None => None,
        };
        Response { status, body: ResponseBody::new(length), headers }
    }

    /// Whether the status is that of a client or server error.
    pub fn is_error(&self) -> (error: bool)
        ensures
            error == (self.status >= 400),
    {
        self.status >= 400
    }
}

/// Metadata goes among the headers of a request, in place of earlier values under its names;
/// the other headers and everything else of the request stay.
pub proof fn law_metadata_goes_among_the_headers(
    request: RequestView,
    metadata: Map<Seq<char>, String>,
    name: Seq<char>,
)
    ensures
        ({
            let sent = request.with_metadata(metadata);
            &&& sent.method == request.method
            &&& sent.url == request.url
            &&& sent.body == request.body
            &&& sent.timeout == request.timeout
            &&& sent.headers.contains_key(name) <==> request.headers.contains_key(name)
                || metadata.contains_key(name)
            &&& metadata.contains_key(name) ==> sent.headers[name] == metadata[name]
            &&& request.headers.contains_key(name) && !metadata.contains_key(name)
                ==> sent.headers[name] == request.headers[name]
        }),
{
}

} // verus!
