//! The instruments of an endpoint.
use vstd::prelude::*;

use crate::runtime::lookup::Side;
use crate::runtime::request::Metric;

verus! {

#[derive(Clone, Copy, Debug, PartialEq, Eq, Structural)]
pub enum InstrumentKind {
    Counter,
    Gauge,
    Histogram,
}

/// Where an update of a metric goes. `event` is the value of the label `event`,
/// for instruments that have it.
pub struct Instrument {
    pub kind: InstrumentKind,
    pub name: &'static str,
    pub help: &'static str,
    pub event: Option<&'static str>,
}

/// The scope that an endpoint's instruments live in: a name and sorted labels.
pub struct MetricScope {
    pub name: &'static str,
    pub labels: Vec<(&'static str, String)>,
}

/// The label `event` of a metric that counts events.
pub open spec fn event_text(metric: Metric) -> Option<Seq<char>> {
    match metric {
        Metric::RequestError => Some("request_error"@),
        Metric::BeginRequestFailed => Some("begin_request_failed"@),
        Metric::MissingStreamId => Some("missing_stream_id"@),
        Metric::LateResult => Some("late_result"@),
        Metric::UnknownMessageId => Some("unknown_message_id"@),
        Metric::DuplicateMessageId => Some("duplicate_message_id"@),
        Metric::InvalidHttpMethod => Some("invalid_http_method"@),
        _ => None,
    }
}

/// The label `event` of a metric that counts events.
pub fn event_label(metric: Metric) -> (label: Option<&'static str>)
    ensures
        match label {
            Some(text) => event_text(metric) == Some(text@),
            None => event_text(metric) is None,
        },
{
    match metric {
        Metric::RequestError => Some("request_error"),
        Metric::BeginRequestFailed => Some("begin_request_failed"),
        Metric::MissingStreamId => Some("missing_stream_id"),
        Metric::LateResult => Some("late_result"),
        Metric::UnknownMessageId => Some("unknown_message_id"),
        Metric::DuplicateMessageId => Some("duplicate_message_id"),
        Metric::InvalidHttpMethod => Some("invalid_http_method"),
        _ => None,
    }
}

/// The instrument's kind, name and help text.
pub open spec fn instrument_texts(side: Side, metric: Metric) -> Option<
    (InstrumentKind, Seq<char>, Seq<char>),
> {
    match (side, metric) {
        (_, Metric::CallStarted) => None,
        (_, Metric::CallSucceeded) => None,
        (_, Metric::CallFailed) => None,
        (_, Metric::CallUnknown) => None,
        (_, Metric::ClosingRejected) => None,
        (_, Metric::PendingUp) => None,
        (_, Metric::PendingDown) => None,
        (Side::Sink, Metric::MessagesTotal) => Some(
            (
                InstrumentKind::Counter,
                "messages_total"@,
                "Total number of successfully processed messages in data sink endpoint"@,
            ),
        ),
        (Side::Input, Metric::MessagesTotal) => Some(
            (
                InstrumentKind::Counter,
                "messages_total"@,
                "Total number of successfully processed messages in data source endpoint"@,
            ),
        ),
        (Side::Sink, Metric::ActiveUp) | (Side::Sink, Metric::ActiveDown) => Some(
            (
                InstrumentKind::Gauge,
                "active_requests"@,
                "Number of active requests in data sink endpoint"@,
            ),
        ),
        (Side::Input, Metric::ActiveUp) | (Side::Input, Metric::ActiveDown) => Some(
            (
                InstrumentKind::Gauge,
                "active_requests"@,
                "Number of active requests in data source endpoint"@,
            ),
        ),
        (Side::Sink, Metric::Duration) => Some(
            (
                InstrumentKind::Histogram,
                "request_duration_seconds"@,
                "Request duration in seconds for data sink endpoint"@,
            ),
        ),
        (Side::Input, Metric::Duration) => Some(
            (
                InstrumentKind::Histogram,
                "request_duration_seconds"@,
                "Request duration in seconds for data source endpoint"@,
            ),
        ),
        (Side::Sink, _) => Some(
            (
                InstrumentKind::Counter,
                "events_total"@,
                "Total number of events in data sink endpoint"@,
            ),
        ),
        (Side::Input, _) => Some(
            (
                InstrumentKind::Counter,
                "events_total"@,
                "Total number of events in data source endpoint"@,
            ),
        ),
    }
}

/// The endpoint instrument that a metric update goes to. The measurements of a
/// client call, rejected messages and pending requests have instruments of their
/// own.
pub fn instrument(side: Side, metric: Metric) -> (found: Option<Instrument>)
    ensures
        match found {
            Some(i) => {
                &&& instrument_texts(side, metric) == Some((i.kind, i.name@, i.help@))
                &&& match i.event {
                    Some(text) => event_text(metric) == Some(text@),
                    None => event_text(metric) is None,
                }
            },
            None => instrument_texts(side, metric) is None,
        },
{
    let (kind, name, help) = match metric {
        Metric::CallStarted => return None,
        Metric::CallSucceeded => return None,
        Metric::CallFailed => return None,
        Metric::CallUnknown => return None,
        Metric::ClosingRejected => return None,
        Metric::PendingUp => return None,
        Metric::PendingDown => return None,
        Metric::MessagesTotal => (
            InstrumentKind::Counter,
            "messages_total",
            match side {
                Side::Sink =>
                    "Total number of successfully processed messages in data sink endpoint",
                Side::Input =>
                    "Total number of successfully processed messages in data source endpoint",
            },
        ),
        Metric::ActiveUp | Metric::ActiveDown => (
            InstrumentKind::Gauge,
            "active_requests",
            match side {
                Side::Sink => "Number of active requests in data sink endpoint",
                Side::Input => "Number of active requests in data source endpoint",
            },
        ),
        Metric::Duration => (
            InstrumentKind::Histogram,
            "request_duration_seconds",
            match side {
                Side::Sink => "Request duration in seconds for data sink endpoint",
                Side::Input => "Request duration in seconds for data source endpoint",
            },
        ),
        _ => (
            InstrumentKind::Counter,
            "events_total",
            match side {
                Side::Sink => "Total number of events in data sink endpoint",
                Side::Input => "Total number of events in data source endpoint",
            },
        ),
    };
    Some(Instrument { kind, name, help, event: event_label(metric) })
}

/// The scope of an endpoint: its connector, its name and, where it is given, its
/// protocol.
pub open spec fn is_endpoint_scope(
    scope: MetricScope,
    side: Side,
    connector: Seq<char>,
    endpoint: Seq<char>,
    protocol: Option<Seq<char>>,
) -> bool {
    &&& scope.name@ == (match side {
        Side::Sink => "datasink_endpoint"@,
        Side::Input => "datasource_endpoint"@,
    })
    &&& scope.labels@.len() == (match protocol {
        Some(_) => 3int,
        None => 2int,
    })
    &&& scope.labels@[0].0@ == "connector"@
    &&& scope.labels@[0].1@ == connector
    &&& scope.labels@[1].0@ == "endpoint"@
    &&& scope.labels@[1].1@ == endpoint
    &&& protocol matches Some(text) ==> {
        &&& scope.labels@[2].0@ == "protocol"@
        &&& scope.labels@[2].1@ == text
    }
}

pub fn endpoint_scope(side: Side, connector: &str, endpoint: &str, protocol: Option<&str>) -> (scope:
    MetricScope)
    ensures
        is_endpoint_scope(
            scope,
            side,
            connector@,
            endpoint@,
            match protocol {
                Some(text) => Some(text@),
                None => None,
            },
        ),
{
    let name = match side {
        Side::Sink => "datasink_endpoint",
        Side::Input => "datasource_endpoint",
    };
    let mut labels: Vec<(&'static str, String)> = Vec::new();
    labels.push(("connector", connector.to_owned()));
    labels.push(("endpoint", endpoint.to_owned()));
    match protocol {
        Some(text) => labels.push(("protocol", text.to_owned())),
        None => {},
    }
    MetricScope { name, labels }
}

/// Metrics that count events do so under labels of their own, and no other metric has a label.
pub proof fn law_events_have_labels_of_their_own(a: Metric, b: Metric)
    ensures
        event_text(a) is Some && event_text(a) == event_text(b) ==> a == b,
        event_text(a) is Some <==> a == Metric::RequestError || a == Metric::BeginRequestFailed || a
            == Metric::MissingStreamId || a == Metric::LateResult || a == Metric::UnknownMessageId
            || a == Metric::DuplicateMessageId || a == Metric::InvalidHttpMethod,
{
    reveal_strlit("request_error");
    reveal_strlit("begin_request_failed");
    reveal_strlit("missing_stream_id");
    reveal_strlit("late_result");
    reveal_strlit("unknown_message_id");
    reveal_strlit("duplicate_message_id");
    reveal_strlit("invalid_http_method");
    assert("request_error"@.len() == 13);
    assert("begin_request_failed"@.len() == 20 && "begin_request_failed"@[0] == 'b');
    assert("missing_stream_id"@.len() == 17);
    assert("late_result"@.len() == 11);
    assert("unknown_message_id"@.len() == 18);
    assert("duplicate_message_id"@.len() == 20 && "duplicate_message_id"@[0] == 'd');
    assert("invalid_http_method"@.len() == 19);
}

/// The active requests are a gauge, their durations a histogram, messages and events are
/// counted, the same on both sides; whatever has a label is an event. Calls, pending requests
/// and rejected messages are measured elsewhere.
pub proof fn law_metrics_go_to_their_instruments(side: Side, other: Side, metric: Metric)
    ensures
        ({
            let found = instrument_texts(side, metric);
            &&& found is None <==> metric == Metric::CallStarted || metric == Metric::CallSucceeded
                || metric == Metric::CallFailed || metric == Metric::CallUnknown || metric
                == Metric::ClosingRejected || metric == Metric::PendingUp || metric
                == Metric::PendingDown
            &&& found matches Some((kind, name, help)) ==> {
                &&& kind == InstrumentKind::Gauge <==> metric == Metric::ActiveUp || metric
                    == Metric::ActiveDown
                &&& kind == InstrumentKind::Histogram <==> metric == Metric::Duration
                &&& kind == InstrumentKind::Gauge ==> name == "active_requests"@
                &&& kind == InstrumentKind::Histogram ==> name == "request_duration_seconds"@
                &&& metric == Metric::MessagesTotal ==> name == "messages_total"@
                &&& event_text(metric) is Some ==> kind == InstrumentKind::Counter && name
                    == "events_total"@
                &&& instrument_texts(other, metric) matches Some((same_kind, same_name, _))
                    && same_kind == kind && same_name == name
            }
        }),
{
}

/// The scope of an endpoint is that of its side and labelled by its connector, its name and, if
/// it has one, its protocol, in this order and by nothing else.
pub proof fn law_scope_names_connector_and_endpoint(
    scope: MetricScope,
    side: Side,
    connector: Seq<char>,
    endpoint: Seq<char>,
    protocol: Option<Seq<char>>,
)
    requires
        is_endpoint_scope(scope, side, connector, endpoint, protocol),
    ensures
        side == Side::Sink ==> scope.name@ == "datasink_endpoint"@,
        side == Side::Input ==> scope.name@ == "datasource_endpoint"@,
        scope.labels@.len() == (if protocol is Some {
            3int
        } else {
            2
        }),
        scope.labels@[0].0@ == "connector"@ && scope.labels@[0].1@ == connector,
        scope.labels@[1].0@ == "endpoint"@ && scope.labels@[1].1@ == endpoint,
        protocol matches Some(text) ==> scope.labels@[2].0@ == "protocol"@ && scope.labels@[2].1@
            == text,
{
}

/// Events are counted under labels that say what happened.
pub proof fn law_events_are_labelled_by_what_happened(metric: Metric)
    ensures
        match metric {
            Metric::RequestError => event_text(metric) == Some("request_error"@),
            Metric::BeginRequestFailed => event_text(metric) == Some("begin_request_failed"@),
            Metric::MissingStreamId => event_text(metric) == Some("missing_stream_id"@),
            Metric::LateResult => event_text(metric) == Some("late_result"@),
            Metric::UnknownMessageId => event_text(metric) == Some("unknown_message_id"@),
            Metric::DuplicateMessageId => event_text(metric) == Some("duplicate_message_id"@),
            Metric::InvalidHttpMethod => event_text(metric) == Some("invalid_http_method"@),
            _ => event_text(metric) is None,
        },
{
}

/// The help of an instrument says on which side it measures.
pub proof fn law_help_tells_the_side(metric: Metric)
    ensures
        match metric {
            Metric::MessagesTotal => {
                &&& instrument_texts(Side::Sink, metric) matches Some((_, _, help)) && help
                    == "Total number of successfully processed messages in data sink endpoint"@
                &&& instrument_texts(Side::Input, metric) matches Some((_, _, help)) && help
                    == "Total number of successfully processed messages in data source endpoint"@
            },
            Metric::ActiveUp | Metric::ActiveDown => {
                &&& instrument_texts(Side::Sink, metric) matches Some((_, _, help)) && help
                    == "Number of active requests in data sink endpoint"@
                &&& instrument_texts(Side::Input, metric) matches Some((_, _, help)) && help
                    == "Number of active requests in data source endpoint"@
            },
            Metric::Duration => {
                &&& instrument_texts(Side::Sink, metric) matches Some((_, _, help)) && help
                    == "Request duration in seconds for data sink endpoint"@
                &&& instrument_texts(Side::Input, metric) matches Some((_, _, help)) && help
                    == "Request duration in seconds for data source endpoint"@
            },
            _ => event_text(metric) is Some ==> {
                &&& instrument_texts(Side::Sink, metric) matches Some((_, _, help)) && help
                    == "Total number of events in data sink endpoint"@
                &&& instrument_texts(Side::Input, metric) matches Some((_, _, help)) && help
                    == "Total number of events in data source endpoint"@
            },
        },
{
}

} // verus!
