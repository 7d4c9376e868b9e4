//! The endpoints of an HTTP source.
use vstd::prelude::*;
use vstd::string::*;

use crate::datasource::endpoint::{attach_endpoint, SetUp, SourceEndpoint};
use crate::datasource::request::{
    begin_source_request, entered, identified, Entry, SourceEvent, SourceKind, SourcePhase,
    SourceRequest,
};
use crate::operators::input::{input_endpoint, InputStream};
use crate::runtime::common::MessageContext;
use crate::runtime::config::{method_text, HttpDataConnectorConfig, HttpEndpointConfig, HttpMethodType};
use crate::runtime::environment::RuntimeEnvironment;
use crate::runtime::error::{HandlerResult, RuntimeError, RuntimeErrorView, RuntimeResult};
use crate::runtime::request::{one, Action, Metric};
use crate::runtime::text::{
    debug_text, integer, integer_text, natural, natural_text, quoted, same_text,
};

verus! {

pub const IMPLEMENTATION: &'static str = "rust/axum";

/// The endpoint of an HTTP source.
pub struct EndpointConsumer {
    pub base: SourceEndpoint,
}

/// What is answered before a handler hears of a request.
pub enum Preliminary {
    /// The method is not the endpoint's: the response is 405, without a body.
    MethodNotAllowed,
    /// The body could not be read: the response is 400, with the reason as its body.
    BadRequest { reason: String },
    /// The request is served.
    Serve { body: Vec<u8> },
}

impl Preliminary {
    /// The status of the answer, where there is one already.
    pub open spec fn spec_status(&self) -> Option<u16> {
        match self {
            Preliminary::MethodNotAllowed => Some(405),
            Preliminary::BadRequest { .. } => Some(400),
            Preliminary::Serve { .. } => None,
        }
    }

    pub fn status(&self) -> (status: Option<u16>)
        ensures
            status == self.spec_status(),
    {
        match self {
            Preliminary::MethodNotAllowed => Some(405),
            Preliminary::BadRequest { .. } => Some(400),
            Preliminary::Serve { .. } => None,
        }
    }
}

/// The method that the requests of an endpoint must have. An endpoint with another
/// one, or with none, serves no route.
pub open spec fn routed_method(method: HttpMethodType) -> Option<HttpMethodType> {
    if method == HttpMethodType::Get || method == HttpMethodType::Post {
        Some(method)
    } else {
        None
    }
}

/// Makes the endpoint of an input and attaches it. Its path must not be empty.
pub fn make_endpoint_consumer<T, R, E>(
    input: &mut InputStream<T, R, E, i32>,
    endpoint_config: &HttpEndpointConfig,
    connector_name: &str,
    environment: &mut RuntimeEnvironment,
    set_up: SetUp,
) -> (result: RuntimeResult<EndpointConsumer>)
    ensures
        ({
            let id = old(input).spec_stream().spec_id();
            let endpoint_id = input_endpoint(old(environment)@.config, id);
            let has_result = old(input).spec_result_source() is Some;
            if endpoint_config.path@.len() == 0 {
                &&& result is Err
                &&& result->Err_0@ == RuntimeErrorView::InvalidConfiguration(
                    "HTTP datasource endpoint path is empty"@,
                )
                &&& final(environment)@ == old(environment)@
                &&& final(input).spec_result_consumer() == old(input).spec_result_consumer()
            } else {
                &&& match result {
                    Ok(consumer) => {
                        &&& set_up.failure() is None
                        &&& consumer.base.is_new(
                            id,
                            connector_name@,
                            endpoint_config.name@,
                            "http"@,
                        )
                    },
                    Err(error) => set_up.failure() == Some(error@),
                }
                &&& final(environment)@ == set_up.graph(old(environment)@, id, endpoint_id, false)
                &&& final(input).spec_result_consumer() == set_up.results(
                    old(input).spec_result_consumer(),
                    endpoint_id,
                    has_result,
                    false,
                )
            }
        }),
        final(input).spec_stream() == old(input).spec_stream(),
        final(input).spec_error_stream() == old(input).spec_error_stream(),
        final(input).spec_result_source() == old(input).spec_result_source(),
{
    if endpoint_config.path.as_str().is_empty() {
        return Err(RuntimeError::invalid("HTTP datasource endpoint path is empty"));
    }
    match attach_endpoint(
        input,
        connector_name,
        endpoint_config.name.as_str(),
        "http",
        false,
        false,
        environment,
        set_up,
    ) {
        Ok(base) => Ok(EndpointConsumer { base }),
        Err(error) => Err(error),
    }
}

impl EndpointConsumer {
    /// The method that requests for the endpoint must have, if it serves a route.
    pub fn router(config: &HttpEndpointConfig) -> (method: Option<HttpMethodType>)
        ensures
            method == routed_method(config.http_method_type),
    {
        match config.http_method_type {
            HttpMethodType::Get => Some(HttpMethodType::Get),
            HttpMethodType::Post => Some(HttpMethodType::Post),
            _ => None,
        }
    }

    /// Whether a request has the endpoint's method. One that has not is counted.
    pub fn check_method(expected: HttpMethodType, method: &str) -> (result: Result<(), Metric>)
        ensures
            result == (if method@ == method_text(expected) {
                Ok::<(), Metric>(())
            } else {
                Err(Metric::InvalidHttpMethod)
            }),
    {
        if same_text(method, expected.name()) {
            Ok(())
        } else {
            Err(Metric::InvalidHttpMethod)
        }
    }

    /// What is answered before a handler hears of a request. The body is read only if
    /// the method is right, so `body` is then what reading it came to.
    pub fn preliminary(
        expected: HttpMethodType,
        method: &str,
        body: Result<Vec<u8>, String>,
    ) -> (answer: Preliminary)
        ensures
            match answer {
                Preliminary::MethodNotAllowed => method@ != method_text(expected),
                Preliminary::BadRequest { reason } => method@ == method_text(expected) && body
                    == Err::<Vec<u8>, _>(reason),
                Preliminary::Serve { body: bytes } => method@ == method_text(expected) && body
                    == Ok::<_, String>(bytes),
            },
    {
        match Self::check_method(expected, method) {
            Err(_) => Preliminary::MethodNotAllowed,
            Ok(_) => match body {
                Err(reason) => Preliminary::BadRequest { reason },
                Ok(body) => Preliminary::Serve { body },
            },
        }
    }

    /// Opens a request. Its durations are always measured.
    pub fn serve_http<X>(&self, context: MessageContext) -> (opened: (
        SourceRequest<(), X>,
        Vec<Action<(), (), ()>>,
    ))
        ensures
            opened.0 == (SourceRequest::<(), X> {
                kind: SourceKind::Http,
                timed: true,
                has_result: false,
                phase: SourcePhase::Beginning { value: () },
            }),
            opened.1@ == one(Action::<(), (), ()>::BeginRequest { context }),
    {
        SourceRequest::open(SourceKind::Http, true, context, ())
    }

    /// Reports to a request that `begin_request` returned. Results come back to it where
    /// the input has a result stream by now. A request with results takes the place of
    /// one with the same stream id.
    pub fn begin<X, T, R, E>(
        &mut self,
        input: &InputStream<T, R, E, i32>,
        request: SourceRequest<(), X>,
        begun: HandlerResult<MessageContext, X>,
        fresh: String,
    ) -> (outcome: (SourceRequest<(), X>, Vec<Action<(), (), ()>>, Option<Entry>))
        requires
            old(self).base.pending.wf(),
            old(self).base.pending.spec_next() < u64::MAX,
            request.phase is Beginning,
            request.kind == SourceKind::Http,
        ensures
            final(self).base.pending.wf(),
            final(self).base.input == old(self).base.input,
            final(self).base.endpoint_name == old(self).base.endpoint_name,
            final(self).base.scope == old(self).base.scope,
            ({
                let has_result = input.spec_result_source() is Some;
                match begun {
                    Ok(context) => {
                        let named = identified(context, fresh);
                        &&& outcome.2 matches Some(entry) && {
                            &&& named.spec_stream_id() == Some(entry.stream_id)
                            &&& entered(
                                true,
                                has_result,
                                entry.stream_id@,
                                old(self).base.pending,
                                final(self).base.pending,
                                entry.token,
                            )
                        }
                        &&& outcome.0 == request.next(
                            SourceEvent::Begun {
                                begun: Ok(named),
                                has_result,
                                registered: has_result,
                            },
                        ).0
                        &&& outcome.1@ == request.next(
                            SourceEvent::Begun {
                                begun: Ok(named),
                                has_result,
                                registered: has_result,
                            },
                        ).1
                    },
                    Err(error) => {
                        &&& outcome.2 is None
                        &&& final(self).base.pending == old(self).base.pending
                        &&& outcome.0 == request.next(
                            SourceEvent::Begun { begun: Err(error), has_result, registered: false },
                        ).0
                        &&& outcome.1@ == request.next(
                            SourceEvent::Begun { begun: Err(error), has_result, registered: false },
                        ).1
                    },
                }
            }),
    {
        begin_source_request(
            request,
            &mut self.base.pending,
            begun,
            input.result_stream().is_some(),
            fresh,
        )
    }
}

/// The HTTP data source of a connector.
pub struct AxumDataSource {
    pub config: HttpDataConnectorConfig,
    started: bool,
}

/// The message for an endpoint that belongs to another connector.
pub open spec fn other_connector_text(endpoint: Seq<char>, found: i32, expected: i32) -> Seq<char> {
    "HTTP endpoint "@ + debug_text(endpoint) + " references connector "@ + integer_text(
        found as int,
    ) + ", expected "@ + integer_text(expected as int)
}

/// Where a data source listens: its address or, without one, its host and port.
pub open spec fn listen_text(config: HttpDataConnectorConfig) -> Seq<char> {
    if config.address@.len() == 0 {
        config.host@ + ":"@ + natural_text(config.port as nat)
    } else {
        config.address@
    }
}

impl AxumDataSource {
    pub closed spec fn spec_config(&self) -> HttpDataConnectorConfig {
        self.config
    }

    pub closed spec fn spec_started(&self) -> bool {
        self.started
    }

    pub fn new(config: HttpDataConnectorConfig) -> (source: AxumDataSource)
        ensures
            source.spec_config() == config,
            !source.spec_started(),
    {
        AxumDataSource { config, started: false }
    }

    pub fn id(&self) -> (id: i32)
        ensures
            id == self.spec_config().id,
    {
        self.config.id
    }

    pub fn name(&self) -> (name: &str)
        ensures
            name@ == self.spec_config().name@,
    {
        self.config.name.as_str()
    }

    /// Makes an endpoint of this data source, as long as it has not started.
    pub fn add_endpoint<T, R, E>(
        &self,
        input: &mut InputStream<T, R, E, i32>,
        endpoint_config: &HttpEndpointConfig,
        environment: &mut RuntimeEnvironment,
        set_up: SetUp,
    ) -> (result: RuntimeResult<EndpointConsumer>)
        ensures
            final(input).spec_stream() == old(input).spec_stream(),
            final(input).spec_error_stream() == old(input).spec_error_stream(),
            final(input).spec_result_source() == old(input).spec_result_source(),
            ({
                let id = old(input).spec_stream().spec_id();
                let endpoint_id = input_endpoint(old(environment)@.config, id);
                let refused = if endpoint_config.id_data_connector != self.spec_config().id {
                    Some(
                        RuntimeErrorView::InvalidConfiguration(
                            other_connector_text(
                                endpoint_config.name@,
                                endpoint_config.id_data_connector,
                                self.spec_config().id,
                            ),
                        ),
                    )
                } else if self.spec_started() {
                    Some(RuntimeErrorView::ResourceAlreadyStarted(self.spec_config().name@))
                } else if endpoint_config.path@.len() == 0 {
                    Some(
                        RuntimeErrorView::InvalidConfiguration(
                            "HTTP datasource endpoint path is empty"@,
                        ),
                    )
                } else {
                    None
                };
                if refused is Some {
                    &&& result is Err
                    &&& refused == Some(result->Err_0@)
                    &&& final(environment)@ == old(environment)@
                    &&& final(input).spec_result_consumer() == old(input).spec_result_consumer()
                } else {
                    &&& match result {
                        Ok(consumer) => {
                            &&& set_up.failure() is None
                            &&& consumer.base.is_new(
                                id,
                                self.spec_config().name@,
                                endpoint_config.name@,
                                "http"@,
                            )
                        },
                        Err(error) => set_up.failure() == Some(error@),
                    }
                    &&& final(environment)@ == set_up.graph(
                        old(environment)@,
                        id,
                        endpoint_id,
                        false,
                    )
                    &&& final(input).spec_result_consumer() == set_up.results(
                        old(input).spec_result_consumer(),
                        endpoint_id,
                        old(input).spec_result_source() is Some,
                        false,
                    )
                }
            }),
    {
        if endpoint_config.id_data_connector != self.config.id {
            let mut text = String::from_str("HTTP endpoint ");
            text.append(quoted(endpoint_config.name.as_str()).as_str());
            text.append(" references connector ");
            text.append(integer(endpoint_config.id_data_connector).as_str());
            text.append(", expected ");
            text.append(integer(self.config.id).as_str());
            return Err(RuntimeError::InvalidConfiguration(text));
        }
        if self.started {
            return Err(RuntimeError::ResourceAlreadyStarted(self.config.name.clone()));
        }
        make_endpoint_consumer(
            input,
            endpoint_config,
            self.config.name.as_str(),
            environment,
            set_up,
        )
    }

    /// Where the data source listens.
    pub fn listen_address(&self) -> (address: String)
        ensures
            address@ == listen_text(self.spec_config()),
    {
        if self.config.address.as_str().is_empty() {
            let mut address = self.config.host.clone();
            address.append(":");
            address.append(natural(self.config.port as u64).as_str());
            address
        } else {
            self.config.address.clone()
        }
    }

    /// Starts the data source. It says where to listen, if it has a listener of its
    /// own.
    pub fn start(&mut self) -> (result: RuntimeResult<Option<String>>)
        ensures
            final(self).spec_config() == old(self).spec_config(),
            final(self).spec_started(),
            match result {
                Ok(listen) => {
                    &&& !old(self).spec_started()
                    &&& match listen {
                        Some(address) => {
                            &&& old(self).spec_config().use_dedicated_listener
                            &&& address@ == listen_text(old(self).spec_config())
                        },
                        None => !old(self).spec_config().use_dedicated_listener,
                    }
                },
                Err(error) => {
                    &&& old(self).spec_started()
                    &&& error@ == RuntimeErrorView::ResourceAlreadyStarted(
                        old(self).spec_config().name@,
                    )
                },
            },
    {
        if self.started {
            return Err(RuntimeError::ResourceAlreadyStarted(self.config.name.clone()));
        }
        self.started = true;
        if !self.config.use_dedicated_listener {
            return Ok(None);
        }
        Ok(Some(self.listen_address()))
    }

    /// Gives the start up over an address that cannot be listened on.
    pub fn give_up_start(&mut self, reason: String) -> (error: RuntimeError)
        ensures
            error@ == RuntimeErrorView::Transport(reason@),
            !final(self).spec_started(),
            final(self).spec_config() == old(self).spec_config(),
    {
        self.started = false;
        RuntimeError::Transport(reason)
    }

    /// Stops the data source with what its server came to. A server that failed
    /// leaves the data source as started; else it may start again.
    pub fn stop(&mut self, served: Result<(), String>) -> (result: RuntimeResult<()>)
        ensures
            final(self).spec_config() == old(self).spec_config(),
            match served {
                Ok(_) => result is Ok && !final(self).spec_started(),
                Err(reason) => {
                    &&& result is Err
                    &&& result->Err_0@ == RuntimeErrorView::Transport(reason@)
                    &&& final(self).spec_started() == old(self).spec_started()
                },
            },
    {
        match served {
            Ok(_) => {
                self.started = false;
                Ok(())
            },
            Err(reason) => Err(RuntimeError::Transport(reason)),
        }
    }
}

/// A data source listens on its address or, without one, on its host and port; an endpoint
/// serves the method that it is configured with, and none but GET and POST; a request with
/// another method is answered with 405, one whose body cannot be read with 400, and no other
/// without its handler.
pub proof fn law_http_configuration_is_followed(
    config: HttpDataConnectorConfig,
    method: HttpMethodType,
    answer: Preliminary,
)
    ensures
        config.address@.len() > 0 ==> listen_text(config) == config.address@,
        config.address@.len() == 0 ==> listen_text(config) == config.host@ + ":"@ + natural_text(
            config.port as nat,
        ),
        routed_method(method) is Some <==> method == HttpMethodType::Get || method
            == HttpMethodType::Post,
        routed_method(method) matches Some(served) ==> served == method,
        answer.spec_status() == Some(405u16) <==> answer is MethodNotAllowed,
        answer.spec_status() == Some(400u16) <==> answer is BadRequest,
        answer.spec_status() is None <==> answer is Serve,
{
}

} // verus!
