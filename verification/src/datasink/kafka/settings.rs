//! The settings of a Kafka client.
use rdkafka::ClientConfig;
use vstd::prelude::*;

use crate::runtime::config::{
    KafkaDataConnectorConfig, KafkaSaslMechanism, KafkaSecurityProtocol,
};
use crate::runtime::error::{RuntimeError, RuntimeErrorView, RuntimeResult};

verus! {

/// The settings of a client in librdkafka's terms.
#[verifier::external_type_specification]
#[verifier::external_body]
pub struct ExClientConfig(ClientConfig);

/// The parameters that a client configuration holds.
pub uninterp spec fn parameters(config: ClientConfig) -> Map<Seq<char>, Seq<char>>;

/// No parameters at all.
pub open spec fn no_parameters() -> Map<Seq<char>, Seq<char>> {
    Map::empty()
}

/// Calls `rdkafka::ClientConfig::new`, which holds no parameter.
#[verifier::external_body]
pub(crate) fn new_client_config() -> (config: ClientConfig)
    ensures
        parameters(config) == no_parameters(),
{
    ClientConfig::new()
}

/// Calls `rdkafka::ClientConfig::set`, which puts a parameter in place of an earlier
/// one of the same name.
#[verifier::external_body]
pub(crate) fn set_parameter(config: &mut ClientConfig, name: &str, value: &str)
    ensures
        parameters(*final(config)) == parameters(*old(config)).insert(name@, value@),
{
    config.set(name, value);
}

/// The name of a security protocol.
pub open spec fn protocol_text(protocol: KafkaSecurityProtocol) -> Seq<char> {
    match protocol {
        KafkaSecurityProtocol::Plaintext => "PLAINTEXT"@,
        KafkaSecurityProtocol::SaslPlaintext => "SASL_PLAINTEXT"@,
        KafkaSecurityProtocol::SaslSsl => "SASL_SSL"@,
    }
}

/// The name of an authentication mechanism.
pub open spec fn mechanism_text(mechanism: KafkaSaslMechanism) -> Seq<char> {
    match mechanism {
        KafkaSaslMechanism::Plain => "PLAIN"@,
        KafkaSaslMechanism::ScramSha256 => "SCRAM-SHA-256"@,
        KafkaSaslMechanism::ScramSha512 => "SCRAM-SHA-512"@,
    }
}

/// Whether a connector asks for authentication without naming who authenticates.
pub open spec fn credentials_missing(connector: KafkaDataConnectorConfig) -> bool {
    &&& connector.security_protocol != KafkaSecurityProtocol::Plaintext
    &&& connector.username@.len() == 0 || connector.password@.len() == 0
}

/// The parameters with those of the connector's security in place.
pub open spec fn secured(
    before: Map<Seq<char>, Seq<char>>,
    connector: KafkaDataConnectorConfig,
) -> Map<Seq<char>, Seq<char>> {
    let with_protocol = before.insert(
        "security.protocol"@,
        protocol_text(connector.security_protocol),
    );
    if connector.security_protocol == KafkaSecurityProtocol::Plaintext {
        with_protocol
    } else {
        with_protocol.insert("sasl.mechanism"@, mechanism_text(connector.sasl_mechanism)).insert(
            "sasl.username"@,
            connector.username@,
        ).insert("sasl.password"@, connector.password@)
    }
}

pub open spec fn credentials_text() -> Seq<char> {
    "Kafka SASL username and password must both be configured"@
}

/// Puts the connector's security into a client configuration.
pub fn apply_security(config: &mut ClientConfig, connector: &KafkaDataConnectorConfig) -> (result:
    RuntimeResult<()>)
    ensures
        match result {
            Ok(_) => {
                &&& !credentials_missing(*connector)
                &&& parameters(*final(config)) == secured(parameters(*old(config)), *connector)
            },
            Err(error) => {
                &&& credentials_missing(*connector)
                &&& error@ == RuntimeErrorView::InvalidConfiguration(credentials_text())
                &&& parameters(*final(config)) == parameters(*old(config)).insert(
                    "security.protocol"@,
                    protocol_text(connector.security_protocol),
                )
            },
        },
{
    let protocol = match connector.security_protocol {
        KafkaSecurityProtocol::Plaintext => "PLAINTEXT",
        KafkaSecurityProtocol::SaslPlaintext => "SASL_PLAINTEXT",
        KafkaSecurityProtocol::SaslSsl => "SASL_SSL",
    };
    set_parameter(config, "security.protocol", protocol);
    if connector.security_protocol == KafkaSecurityProtocol::Plaintext {
        return Ok(());
    }
    if connector.username.as_str().is_empty() || connector.password.as_str().is_empty() {
        return Err(
            RuntimeError::invalid("Kafka SASL username and password must both be configured"),
        );
    }
    let mechanism = match connector.sasl_mechanism {
        KafkaSaslMechanism::Plain => "PLAIN",
        KafkaSaslMechanism::ScramSha256 => "SCRAM-SHA-256",
        KafkaSaslMechanism::ScramSha512 => "SCRAM-SHA-512",
    };
    set_parameter(config, "sasl.mechanism", mechanism);
    set_parameter(config, "sasl.username", connector.username.as_str());
    set_parameter(config, "sasl.password", connector.password.as_str());
    Ok(())
}

/// Credentials are asked for by every protocol but the plain one, and both are needed; each
/// protocol and each mechanism has a name of its own.
pub proof fn law_credentials_are_needed_for_sasl(
    connector: KafkaDataConnectorConfig,
    other: KafkaDataConnectorConfig,
)
    ensures
        connector.security_protocol == KafkaSecurityProtocol::Plaintext ==> !credentials_missing(
            connector,
        ),
        connector.security_protocol != KafkaSecurityProtocol::Plaintext ==> (credentials_missing(
            connector,
        ) <==> connector.username@.len() == 0 || connector.password@.len() == 0),
        protocol_text(connector.security_protocol) == protocol_text(other.security_protocol)
            ==> connector.security_protocol == other.security_protocol,
        mechanism_text(connector.sasl_mechanism) == mechanism_text(other.sasl_mechanism)
            ==> connector.sasl_mechanism == other.sasl_mechanism,
{
    reveal_strlit("PLAINTEXT");
    reveal_strlit("SASL_PLAINTEXT");
    reveal_strlit("SASL_SSL");
    reveal_strlit("PLAIN");
    reveal_strlit("SCRAM-SHA-256");
    reveal_strlit("SCRAM-SHA-512");
    assert("PLAINTEXT"@.len() == 9 && "SASL_PLAINTEXT"@.len() == 14 && "SASL_SSL"@.len() == 8);
    assert("PLAIN"@.len() == 5);
    assert("SCRAM-SHA-256"@[10] == '2' && "SCRAM-SHA-512"@[10] == '5');
}

/// Protocols and mechanisms go by the names that the client knows them by.
pub proof fn law_protocols_are_named_as_the_client_knows_them(connector: KafkaDataConnectorConfig)
    ensures
        match connector.security_protocol {
            KafkaSecurityProtocol::Plaintext => protocol_text(connector.security_protocol)
                == "PLAINTEXT"@,
            KafkaSecurityProtocol::SaslPlaintext => protocol_text(connector.security_protocol)
                == "SASL_PLAINTEXT"@,
            KafkaSecurityProtocol::SaslSsl => protocol_text(connector.security_protocol)
                == "SASL_SSL"@,
        },
        match connector.sasl_mechanism {
            KafkaSaslMechanism::Plain => mechanism_text(connector.sasl_mechanism) == "PLAIN"@,
            KafkaSaslMechanism::ScramSha256 => mechanism_text(connector.sasl_mechanism)
                == "SCRAM-SHA-256"@,
            KafkaSaslMechanism::ScramSha512 => mechanism_text(connector.sasl_mechanism)
                == "SCRAM-SHA-512"@,
        },
{
}

} // verus!
