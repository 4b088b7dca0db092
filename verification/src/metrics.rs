//! Metrics export: mapping the broker's periodic meter snapshots into
//! the samples posted to the external collector.
//!
//! Each sample carries the broker's own identifier and exactly one of
//! the two field groups — router identifier with router meter, or
//! subscription meter with topic — never both and never neither. The
//! POST itself and the channel the meters arrive on live outside this
//! crate; a failed export discards the batch.

use vstd::prelude::*;

verus! {

/// Periodic counter snapshot of one router.
#[derive(Clone, Copy, Debug, PartialEq, Eq, Structural)]
pub struct RouterMeter {
    pub total_connections: u64,
    pub total_subscriptions: u64,
    pub total_publishes: u64,
    pub failed_publishes: u64,
}

/// Periodic counter snapshot of one subscription.
#[derive(Clone, Copy, Debug, PartialEq, Eq, Structural)]
pub struct SubscriptionMeter {
    pub count: u64,
    pub total_size: u64,
}

/// One meter as the broker core hands it out: scoped to a router or to
/// a subscription's topic.
#[derive(Clone, Debug, PartialEq, Eq)]
pub enum Meter {
    Router(usize, RouterMeter),
    Subscription(String, SubscriptionMeter),
}

/// One sample as posted to the metrics collector.
#[derive(Clone, Debug, PartialEq, Eq)]
pub struct MetricsPayload {
    pub server_id: usize,
    pub router_id: Option<usize>,
    pub router_meter: Option<RouterMeter>,
    pub subscription_meter: Option<SubscriptionMeter>,
    pub topic: Option<String>,
}

/// Outcome of one metrics POST: only the status code matters.
#[derive(Clone, Copy, Debug, PartialEq, Eq, Structural)]
pub struct MetricsResponse {
    pub status_code: u16,
}

impl MetricsPayload {
    /// The sample is router-scoped: router identifier and router meter
    /// populated, the subscription group absent.
    pub open spec fn is_router_sample(self) -> bool {
        &&& self.router_id is Some
        &&& self.router_meter is Some
        &&& self.subscription_meter is None
        &&& self.topic is None
    }

    /// The sample is subscription-scoped: subscription meter and topic
    /// populated, the router group absent.
    pub open spec fn is_subscription_sample(self) -> bool {
        &&& self.router_id is None
        &&& self.router_meter is None
        &&& self.subscription_meter is Some
        &&& self.topic is Some
    }

    /// The tagged-union invariant: exactly one of the two field groups
    /// is populated.
    pub open spec fn wf(self) -> bool {
        self.is_router_sample() != self.is_subscription_sample()
    }
}

/// The sample that one meter maps to, under the broker's identifier:
/// field for field, with the meter's scope deciding which group is
/// populated.
pub open spec fn spec_sample_of(sample: MetricsPayload, server_id: usize, meter: Meter) -> bool {
    match meter {
        Meter::Router(router_id, router_meter) => {
            &&& sample.server_id == server_id
            &&& sample.router_id == Some(router_id)
            &&& sample.router_meter == Some(router_meter)
            &&& sample.subscription_meter is None
            &&& sample.topic is None
        },
        Meter::Subscription(topic, subscription_meter) => {
            &&& sample.server_id == server_id
            &&& sample.router_id is None
            &&& sample.router_meter is None
            &&& sample.subscription_meter == Some(subscription_meter)
            &&& (sample.topic matches Some(t) && t@ == topic@)
        },
    }
}

/// Maps one meter to its sample, tagged by its origin and carrying the
/// broker's identifier.
pub fn metrics_payload_from_meter(server_id: usize, meter: &Meter) -> (r: MetricsPayload)
    ensures
        spec_sample_of(r, server_id, *meter),
        r.wf(),
{
    match meter {
        Meter::Router(router_id, router_meter) => MetricsPayload {
            server_id,
            router_id: Some(*router_id),
            router_meter: Some(*router_meter),
            subscription_meter: None,
            topic: None,
        },
        Meter::Subscription(topic, subscription_meter) => MetricsPayload {
            server_id,
            router_id: None,
            router_meter: None,
            subscription_meter: Some(*subscription_meter),
            topic: Some(topic.clone()),
        },
    }
}

/// Maps one meter batch to the sample batch to post: one sample per
/// meter, in batch order, every sample well formed.
pub fn metrics_payloads_from_meters(server_id: usize, meters: &Vec<Meter>) -> (r: Vec<
    MetricsPayload,
>)
    ensures
        r@.len() == meters@.len(),
        forall|i: int| 0 <= i < r@.len() ==> spec_sample_of(r@[i], server_id, meters@[i]),
        forall|i: int| 0 <= i < r@.len() ==> r@[i].wf(),
{
    let mut samples: Vec<MetricsPayload> = Vec::new();
    let count = meters.len();
    let mut idx: usize = 0;
    while idx < count
        invariant
            idx <= count,
            count == meters@.len(),
            samples@.len() == idx,
            forall|i: int| 0 <= i < idx ==> spec_sample_of(samples@[i], server_id, meters@[i]),
            forall|i: int| 0 <= i < idx ==> samples@[i].wf(),
        decreases count - idx,
    {
        let sample = metrics_payload_from_meter(server_id, &meters[idx]);
        samples.push(sample);
        idx = idx + 1;
    }
    samples
}

/// Builds the metrics outcome record: the status code seen, or 500 for
/// a transport failure; either way the batch is gone.
pub fn metrics_response(status: Option<u16>) -> (r: MetricsResponse)
    ensures
        r.status_code == crate::hooks::spec_response_status(status),
{
    MetricsResponse { status_code: match status {
        None => 500,
        Some(code) => code,
    } }
}

/// The tagged-union law of the exporter: a sample that any meter maps
/// to populates exactly one of its two field groups.
pub proof fn lemma_sample_exclusive(sample: MetricsPayload, server_id: usize, meter: Meter)
    requires
        spec_sample_of(sample, server_id, meter),
    ensures
        sample.wf(),
        sample.is_router_sample() <==> meter is Router,
        sample.is_subscription_sample() <==> meter is Subscription,
{
}

} // verus!
