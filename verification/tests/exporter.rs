use mqtt_tenant::metrics::metrics_payload_from_meter;
use mqtt_tenant::metrics::metrics_payloads_from_meters;
use mqtt_tenant::metrics::metrics_response;
use mqtt_tenant::metrics::Meter;
use mqtt_tenant::metrics::MetricsPayload;
use mqtt_tenant::metrics::RouterMeter;
use mqtt_tenant::metrics::SubscriptionMeter;

fn router_meter() -> RouterMeter {
    RouterMeter {
        total_connections: 4,
        total_subscriptions: 9,
        total_publishes: 120,
        failed_publishes: 1,
    }
}

fn subscription_meter() -> SubscriptionMeter {
    SubscriptionMeter { count: 42, total_size: 1024 }
}

fn exactly_one_group(sample: &MetricsPayload) -> bool {
    let router_group = sample.router_id.is_some()
        && sample.router_meter.is_some()
        && sample.subscription_meter.is_none()
        && sample.topic.is_none();
    let subscription_group = sample.router_id.is_none()
        && sample.router_meter.is_none()
        && sample.subscription_meter.is_some()
        && sample.topic.is_some();
    router_group != subscription_group
}

#[test]
fn every_sample_populates_one_group() {
    // Exactly one of {routerId, routerMeter} or {subscriptionMeter,
    // topic} is populated, never both, never neither.
    let router = metrics_payload_from_meter(3, &Meter::Router(0, router_meter()));
    assert!(exactly_one_group(&router));
    assert_eq!(router.server_id, 3);
    assert_eq!(router.router_id, Some(0));
    assert_eq!(router.router_meter, Some(router_meter()));

    let sub = metrics_payload_from_meter(
        3,
        &Meter::Subscription("/v1.6/t".to_string(), subscription_meter()),
    );
    assert!(exactly_one_group(&sub));
    assert_eq!(sub.server_id, 3);
    assert_eq!(sub.subscription_meter, Some(subscription_meter()));
    assert_eq!(sub.topic.as_deref(), Some("/v1.6/t"));
}

#[test]
fn batch_maps_in_order() {
    let meters = vec![
        Meter::Router(1, router_meter()),
        Meter::Subscription("/a".to_string(), subscription_meter()),
        Meter::Router(2, router_meter()),
    ];
    let samples = metrics_payloads_from_meters(7, &meters);
    assert_eq!(samples.len(), 3);
    for s in &samples {
        assert!(exactly_one_group(s));
        assert_eq!(s.server_id, 7);
    }
    assert_eq!(samples[0].router_id, Some(1));
    assert_eq!(samples[1].topic.as_deref(), Some("/a"));
    assert_eq!(samples[2].router_id, Some(2));
}

#[test]
fn metrics_status_mapping() {
    assert_eq!(metrics_response(None).status_code, 500);
    assert_eq!(metrics_response(Some(200)).status_code, 200);
    assert_eq!(metrics_response(Some(503)).status_code, 503);
}
