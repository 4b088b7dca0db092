//! Configuration surface as the verified core sees it: plain settings
//! records, the endpoint URLs built from them, and the decisions of the
//! two-level environment override.
//!
//! Loading the layered configuration itself — files, environment
//! variables, deserialization — happens outside this crate and hands
//! these records in as plain values.

use vstd::prelude::*;
use vstd::string::StringExecFns;

verus! {

/// Settings of the broker health check.
#[derive(Clone, Debug, Default, PartialEq, Eq)]
pub struct HealthCheckSettings {
    pub health_check_username: String,
    pub health_check_password: String,
    pub health_check_client_id: String,
    pub health_check_topic: String,
    pub health_check_port: u16,
    pub health_check_host: String,
}

/// Root of the health-check configuration.
#[derive(Clone, Debug, Default, PartialEq, Eq)]
pub struct Config {
    pub health_check: HealthCheckSettings,
}

/// The webhook-family endpoints, each as protocol, host, port and
/// endpoint path.
#[derive(Clone, Debug, Default, PartialEq, Eq)]
pub struct WebhookSettings {
    pub authentication_protocol: String,
    pub authentication_host: String,
    pub authentication_port: String,
    pub authentication_endpoint: String,
    pub authorization_protocol: String,
    pub authorization_host: String,
    pub authorization_port: String,
    pub authorization_endpoint: String,
    pub webhook_protocol: String,
    pub webhook_host: String,
    pub webhook_port: String,
    pub webhook_endpoint: String,
    pub retained_protocol: String,
    pub retained_host: String,
    pub retained_port: String,
    pub retained_endpoint: String,
    pub metrics_protocol: String,
    pub metrics_host: String,
    pub metrics_port: String,
    pub metrics_endpoint: String,
}

/// The broker configuration as the verified core reads it: the broker's
/// own identifier and the optional webhook-family endpoints.
#[derive(Clone, Debug, Default, PartialEq, Eq)]
pub struct BrokerConfig {
    pub id: usize,
    pub webhook: Option<WebhookSettings>,
}

/// A collaborator URL assembled from its four parts:
/// `protocol://host:port` followed by the endpoint path.
pub open spec fn spec_url(
    protocol: Seq<char>,
    host: Seq<char>,
    port: Seq<char>,
    endpoint: Seq<char>,
) -> Seq<char> {
    protocol + "://"@ + host + ":"@ + port + endpoint
}

/// Assembles one collaborator URL from its four parts.
fn build_url(protocol: &str, host: &str, port: &str, endpoint: &str) -> (r: String)
    ensures
        r@ == spec_url(protocol@, host@, port@, endpoint@),
{
    let mut url = protocol.to_owned();
    url.append("://");
    url.append(host);
    url.append(":");
    url.append(port);
    url.append(endpoint);
    url
}

/// The authentication endpoint URL, or the empty string when no
/// webhook family is configured.
pub fn get_authentication_url(config: &BrokerConfig) -> (r: String)
    ensures
        match config.webhook {
            Some(w) => r@ == spec_url(
                w.authentication_protocol@,
                w.authentication_host@,
                w.authentication_port@,
                w.authentication_endpoint@,
            ),
            None => r@ == Seq::<char>::empty(),
        },
{
    match &config.webhook {
        Some(w) => build_url(
            w.authentication_protocol.as_str(),
            w.authentication_host.as_str(),
            w.authentication_port.as_str(),
            w.authentication_endpoint.as_str(),
        ),
        None => String::new(),
    }
}

/// The authorization endpoint URL, or the empty string when no webhook
/// family is configured.
pub fn get_authorization_url(config: &BrokerConfig) -> (r: String)
    ensures
        match config.webhook {
            Some(w) => r@ == spec_url(
                w.authorization_protocol@,
                w.authorization_host@,
                w.authorization_port@,
                w.authorization_endpoint@,
            ),
            None => r@ == Seq::<char>::empty(),
        },
{
    match &config.webhook {
        Some(w) => build_url(
            w.authorization_protocol.as_str(),
            w.authorization_host.as_str(),
            w.authorization_port.as_str(),
            w.authorization_endpoint.as_str(),
        ),
        None => String::new(),
    }
}

/// The webhook endpoint URL, or the empty string when no webhook family
/// is configured.
pub fn get_webhook_url(config: &BrokerConfig) -> (r: String)
    ensures
        match config.webhook {
            Some(w) => r@ == spec_url(
                w.webhook_protocol@,
                w.webhook_host@,
                w.webhook_port@,
                w.webhook_endpoint@,
            ),
            None => r@ == Seq::<char>::empty(),
        },
{
    match &config.webhook {
        Some(w) => build_url(
            w.webhook_protocol.as_str(),
            w.webhook_host.as_str(),
            w.webhook_port.as_str(),
            w.webhook_endpoint.as_str(),
        ),
        None => String::new(),
    }
}

/// The retained-query endpoint URL, or the empty string when no webhook
/// family is configured.
pub fn get_retained_url(config: &BrokerConfig) -> (r: String)
    ensures
        match config.webhook {
            Some(w) => r@ == spec_url(
                w.retained_protocol@,
                w.retained_host@,
                w.retained_port@,
                w.retained_endpoint@,
            ),
            None => r@ == Seq::<char>::empty(),
        },
{
    match &config.webhook {
        Some(w) => build_url(
            w.retained_protocol.as_str(),
            w.retained_host.as_str(),
            w.retained_port.as_str(),
            w.retained_endpoint.as_str(),
        ),
        None => String::new(),
    }
}

/// The metrics endpoint URL, or the empty string when no webhook family
/// is configured.
pub fn get_metrics_url(config: &BrokerConfig) -> (r: String)
    ensures
        match config.webhook {
            Some(w) => r@ == spec_url(
                w.metrics_protocol@,
                w.metrics_host@,
                w.metrics_port@,
                w.metrics_endpoint@,
            ),
            None => r@ == Seq::<char>::empty(),
        },
{
    match &config.webhook {
        Some(w) => build_url(
            w.metrics_protocol.as_str(),
            w.metrics_host.as_str(),
            w.metrics_port.as_str(),
            w.metrics_endpoint.as_str(),
        ),
        None => String::new(),
    }
}

/// Picks the environment variable that names a service host or port:
/// the value of the indirection variable when it is set, else the fixed
/// default name.
pub fn resolve_env_indirection(indirection: Option<String>, default_name: &str) -> (r: String)
    ensures
        match indirection {
            Some(v) => r@ == v@,
            None => r@ == default_name@,
        },
{
    match indirection {
        Some(v) => v,
        None => default_name.to_owned(),
    }
}

/// Decides the host/port override of one webhook-family endpoint: the
/// override applies only when both the host and the port variable are
/// set, and then carries both values.
pub fn host_port_override(host: Option<String>, port: Option<String>) -> (r: Option<
    (String, String),
>)
    ensures
        match r {
            Some(hp) => {
                &&& (host matches Some(h) && hp.0@ == h@)
                &&& (port matches Some(p) && hp.1@ == p@)
            },
            None => host is None || port is None,
        },
{
    match (host, port) {
        (Some(h), Some(p)) => Some((h, p)),
        _ => None,
    }
}

} // verus!
