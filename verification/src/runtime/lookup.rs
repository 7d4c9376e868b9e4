//! Finding the endpoint and the data connector that a stream refers to.
use vstd::prelude::*;
use vstd::string::*;

use crate::runtime::config::{RuntimeConfig, RuntimeDataConnectorConfig, RuntimeEndpointConfig};
use crate::runtime::error::{RuntimeError, RuntimeErrorView, RuntimeResult};
use crate::runtime::text::{debug_text, integer, integer_text, quoted};

verus! {

/// Which side of the graph a stream stands on.
#[derive(Clone, Copy, Debug, PartialEq, Eq, Structural)]
pub enum Side {
    Sink,
    Input,
}

/// The message for a stream whose endpoint is not configured.
pub open spec fn endpoint_missing_text(side: Side, endpoint_id: i32, stream: Seq<char>) -> Seq<
    char,
> {
    "endpoint "@ + integer_text(endpoint_id as int) + (match side {
        Side::Sink => " referenced by sink stream "@,
        Side::Input => " referenced by input stream "@,
    }) + debug_text(stream) + " is not configured"@
}

/// The message for an endpoint whose data connector is not configured.
pub open spec fn connector_missing_text(connector_id: i32, endpoint: Seq<char>) -> Seq<char> {
    "data connector "@ + integer_text(connector_id as int) + " referenced by endpoint "@
        + debug_text(endpoint) + " is not configured"@
}

/// The endpoint that a stream refers to.
pub fn endpoint_of<'a>(
    config: &'a RuntimeConfig,
    side: Side,
    endpoint_id: i32,
    stream: &str,
) -> (result: RuntimeResult<&'a RuntimeEndpointConfig>)
    ensures
        match result {
            Ok(endpoint) => config.spec_endpoint(endpoint_id) == Some(*endpoint),
            Err(error) => {
                &&& config.spec_endpoint(endpoint_id) is None
                &&& error@ == RuntimeErrorView::InvalidConfiguration(
                    endpoint_missing_text(side, endpoint_id, stream@),
                )
            },
        },
{
    match config.endpoint_by_id(endpoint_id) {
        Some(endpoint) => Ok(endpoint),
        None => {
            let mut text = String::from_str("endpoint ");
            text.append(integer(endpoint_id).as_str());
            match side {
                Side::Sink => text.append(" referenced by sink stream "),
                Side::Input => text.append(" referenced by input stream "),
            }
            text.append(quoted(stream).as_str());
            text.append(" is not configured");
            Err(RuntimeError::InvalidConfiguration(text))
        },
    }
}

/// The data connector that an endpoint refers to.
pub fn connector_of<'a>(config: &'a RuntimeConfig, connector_id: i32, endpoint: &str) -> (result:
    RuntimeResult<&'a RuntimeDataConnectorConfig>)
    ensures
        match result {
            Ok(connector) => config.spec_data_connector(connector_id) == Some(*connector),
            Err(error) => {
                &&& config.spec_data_connector(connector_id) is None
                &&& error@ == RuntimeErrorView::InvalidConfiguration(
                    connector_missing_text(connector_id, endpoint@),
                )
            },
        },
{
    match config.data_connector_by_id(connector_id) {
        Some(connector) => Ok(connector),
        None => {
            let mut text = String::from_str("data connector ");
            text.append(integer(connector_id).as_str());
            text.append(" referenced by endpoint ");
            text.append(quoted(endpoint).as_str());
            text.append(" is not configured");
            Err(RuntimeError::InvalidConfiguration(text))
        },
    }
}

} // verus!
