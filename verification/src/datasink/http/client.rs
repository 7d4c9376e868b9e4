//! The client that performs requests.
use reqwest::Method;
use vstd::prelude::*;

use crate::datasink::http::message::{Request, Response};
use crate::runtime::common::MessageContext;
use crate::runtime::error::{Fault, HandlerError, HandlerResult};

verus! {

/// A character that a method name may hold.
pub open spec fn token_char(c: char) -> bool {
    ||| 'A' <= c <= 'Z'
    ||| 'a' <= c <= 'z'
    ||| '0' <= c <= '9'
    ||| c == '!' || c == '#' || c == '$' || c == '%' || c == '&' || c == '\'' || c == '*'
    ||| c == '+' || c == '-' || c == '.' || c == '^' || c == '_' || c == '`' || c == '|'
        || c == '~'
}

/// Whether text is the name of a method.
pub open spec fn method_name(text: Seq<char>) -> bool {
    text.len() > 0 && forall|i: int| 0 <= i < text.len() ==> token_char(#[trigger] text[i])
}

/// Calls `reqwest::Method::from_bytes`, which accepts exactly the non-empty names
/// made of token characters.
#[verifier::external_body]
fn parse_method(method: &str) -> (accepted: bool)
    ensures
        accepted == method_name(method@),
{
    Method::from_bytes(method.as_bytes()).is_ok()
}

/// A request that the transport can send. `timeout` is in nanoseconds.
pub struct PreparedRequest {
    pub request: Request,
    pub timeout: Option<u128>,
}

/// The sooner of the request's own timeout and the context's deadline.
pub open spec fn effective_timeout(request: Option<u128>, context: Option<u128>) -> Option<u128> {
    match (request, context) {
        (Some(a), Some(b)) => Some(
            if a <= b {
                a
            } else {
                b
            },
        ),
        (Some(a), None) => Some(a),
        (None, Some(b)) => Some(b),
        (None, None) => None,
    }
}

/// A client on top of reqwest.
#[derive(Clone, Copy, Debug)]
pub struct ReqwestClient {

}

impl ReqwestClient {
    pub fn new() -> (client: ReqwestClient) {
        ReqwestClient {  }
    }

    /// What is sent for a request under a context.
    pub fn prepare<X>(&self, context: &MessageContext, request: Request) -> (result: HandlerResult<
        PreparedRequest,
        X,
    >)
        ensures
            match result {
                Ok(prepared) => {
                    &&& method_name(request.method@)
                    &&& prepared.request == request
                    &&& prepared.timeout == effective_timeout(
                        request.timeout,
                        context.spec_remaining(),
                    )
                },
                Err(error) => {
                    &&& !method_name(request.method@)
                    &&& error == HandlerError::<X>::Fault(Fault::HttpInvalidMethod)
                },
            },
    {
        if !parse_method(request.method.as_str()) {
            return Err(HandlerError::Fault(Fault::HttpInvalidMethod));
        }
        let timeout: Option<u128> = match (request.timeout, context.remaining()) {
            (Some(own), Some(left)) => if own <= left {
                Some(own)
            } else {
                Some(left)
            },
            (Some(own), None) => Some(own),
            (None, Some(left)) => Some(left),
            (None, None) => None,
        };
        Ok(PreparedRequest { request, timeout })
    }

    /// What a request came to: what the transport answered or, where the context was
    /// cancelled first, the fault of that.
    pub fn outcome<X>(&self, answered: Option<HandlerResult<Response, X>>) -> (result:
        HandlerResult<Response, X>)
        ensures
            result == (match answered {
                Some(answer) => answer,
                None => Err(HandlerError::<X>::Fault(Fault::HttpRequestCancelled)),
            }),
    {
        match answered {
            Some(answer) => answer,
            None => Err(HandlerError::Fault(Fault::HttpRequestCancelled)),
        }
    }
}

/// No request outlives its context: where the context has a deadline, the timeout
/// is there and no later.
pub proof fn law_timeout_within_deadline(request: Option<u128>, left: u128)
    ensures
        effective_timeout(request, Some(left)) is Some,
        effective_timeout(request, Some(left))->0 <= left,
{
}

/// A request waits no longer than its own timeout and no longer than its context has left, and
/// for just one of the two; without either it waits as long as it takes.
pub proof fn law_timeout_is_the_sooner(request: Option<u128>, context: Option<u128>)
    ensures
        ({
            let timeout = effective_timeout(request, context);
            &&& timeout is None <==> request is None && context is None
            &&& timeout is Some ==> timeout == request || timeout == context
            &&& request matches Some(own) ==> timeout->0 <= own
            &&& context matches Some(left) ==> timeout->0 <= left
        }),
{
}

/// A method is any name that is not empty and holds neither white space nor a separator.
pub proof fn law_methods_hold_no_separators(text: Seq<char>, index: int)
    requires
        method_name(text),
        0 <= index < text.len(),
    ensures
        text.len() > 0,
        '!' <= text[index] <= '~',
        text[index] != '(' && text[index] != ')' && text[index] != '<' && text[index] != '>',
        text[index] != '@' && text[index] != ',' && text[index] != ';' && text[index] != ':',
        text[index] != '\\' && text[index] != '"' && text[index] != '/' && text[index] != '[',
        text[index] != ']' && text[index] != '?' && text[index] != '=' && text[index] != '{',
        text[index] != '}',
{
    assert(token_char(text[index]));
}

} // verus!
