use mqtt_tenant::hooks::authenticate_outcome;
use mqtt_tenant::hooks::authentication_response;
use mqtt_tenant::hooks::authn_complete_event;
use mqtt_tenant::hooks::authorize_outcome;
use mqtt_tenant::hooks::call_webhook_plan;
use mqtt_tenant::hooks::retained_response;
use mqtt_tenant::hooks::webhook_events_for_packet;
use mqtt_tenant::hooks::webhook_response;
use mqtt_tenant::hooks::AuthDecision;
use mqtt_tenant::hooks::Filter;
use mqtt_tenant::hooks::HookError;
use mqtt_tenant::hooks::MqttRetainedResult;
use mqtt_tenant::hooks::Packet;
use mqtt_tenant::hooks::Subscribe;
use mqtt_tenant::publish::Publish;
use mqtt_tenant::publish::QoS;

#[test]
fn authentication_fails_closed() {
    // A transport failure and a success response whose body says deny
    // both yield Deny; a success response saying allow yields Allow.
    assert_eq!(authenticate_outcome(None, None), AuthDecision::Deny);
    assert_eq!(
        authenticate_outcome(Some(200), Some("deny".to_string())),
        AuthDecision::Deny
    );
    assert_eq!(
        authenticate_outcome(Some(200), Some("allow".to_string())),
        AuthDecision::Allow
    );
    // a non-success status denies even an allowing body
    assert_eq!(
        authenticate_outcome(Some(403), Some("allow".to_string())),
        AuthDecision::Deny
    );
    // an unreadable body denies
    assert_eq!(authenticate_outcome(Some(200), None), AuthDecision::Deny);
}

#[test]
fn authorization_fails_closed() {
    assert_eq!(authorize_outcome(None, None), AuthDecision::Deny);
    assert_eq!(
        authorize_outcome(Some(200), Some("deny".to_string())),
        AuthDecision::Deny
    );
    assert_eq!(
        authorize_outcome(Some(200), Some("allow".to_string())),
        AuthDecision::Allow
    );
}

#[test]
fn authentication_response_records_status() {
    let failed = authentication_response(None, None);
    assert_eq!(failed.status_code, 500);
    assert!(failed.auth_response.is_none());

    let denied = authentication_response(Some(404), Some("allow".to_string()));
    assert_eq!(denied.status_code, 404);
    assert!(denied.auth_response.is_none());

    let ok = authentication_response(Some(200), Some("allow".to_string()));
    assert_eq!(ok.status_code, 200);
    assert_eq!(ok.auth_response.unwrap().result, "allow");
}

#[test]
fn subscribe_notifies_per_filter_in_order() {
    // A SUBSCRIBE packet carrying three filters triggers exactly three
    // notifications, in filter order, each with the filter's
    // tenant-injected topic.
    let packet = Packet::Subscribe(Subscribe {
        filters: vec![
            Filter { path: "/v1.6/a".to_string() },
            Filter { path: "/v2.0/b".to_string() },
            Filter { path: "/plain".to_string() },
        ],
    });
    let events =
        webhook_events_for_packet(&packet, "client-1", &Some("bob".to_string())).unwrap();
    assert_eq!(events.len(), 3);
    let topics: Vec<&str> = events
        .iter()
        .map(|e| e.topic.as_deref().unwrap())
        .collect();
    assert_eq!(
        topics,
        vec!["/v1.6/users/bob/a", "/v2.0/users/bob/b", "/plain"]
    );
    for e in &events {
        assert_eq!(e.event.as_deref(), Some("session.subscribed"));
        assert_eq!(e.clientid.as_deref(), Some("client-1"));
        assert_eq!(e.username.as_deref(), Some("bob"));
        assert!(e.payload.is_none());
        assert!(e.action.is_none());
        assert!(e.reason_code.is_none());
    }
}

#[test]
fn disconnect_and_unsubscribe_notify_once() {
    let events = webhook_events_for_packet(&Packet::Disconnect, "c", &None).unwrap();
    assert_eq!(events.len(), 1);
    assert_eq!(events[0].event.as_deref(), Some("client.disconnected"));
    assert!(events[0].topic.is_none());
    assert!(events[0].username.is_none());

    let events = webhook_events_for_packet(&Packet::Unsubscribe, "c", &None).unwrap();
    assert_eq!(events.len(), 1);
    assert_eq!(events[0].event.as_deref(), Some("session.unsubscribed"));
    assert!(events[0].topic.is_none());
}

#[test]
fn publish_notifies_with_text() {
    let packet = Packet::Publish(Publish {
        dup: false,
        retain: false,
        qos: QoS::AtMostOnce,
        pkid: 0,
        topic: b"/v1.6/t".to_vec(),
        payload: b"21.5".to_vec(),
    });
    let events = webhook_events_for_packet(&packet, "c", &Some("bob".to_string())).unwrap();
    assert_eq!(events.len(), 1);
    assert_eq!(events[0].event.as_deref(), Some("message.publish"));
    // the publish topic is reported as-is, without tenant injection
    assert_eq!(events[0].topic.as_deref(), Some("/v1.6/t"));
    assert_eq!(events[0].payload.as_deref(), Some("21.5"));
}

#[test]
fn publish_with_non_text_payload_fails() {
    let packet = Packet::Publish(Publish {
        dup: false,
        retain: false,
        qos: QoS::AtMostOnce,
        pkid: 0,
        topic: b"/t".to_vec(),
        payload: vec![0xff, 0xfe],
    });
    assert_eq!(
        webhook_events_for_packet(&packet, "c", &None),
        Err(HookError::NonTextPayload)
    );
    let packet = Packet::Publish(Publish {
        dup: false,
        retain: false,
        qos: QoS::AtMostOnce,
        pkid: 0,
        topic: vec![0x80],
        payload: b"ok".to_vec(),
    });
    assert_eq!(
        webhook_events_for_packet(&packet, "c", &None),
        Err(HookError::NonTextPayload)
    );
}

#[test]
fn ignored_packets_notify_nothing() {
    let events = webhook_events_for_packet(&Packet::Other, "c", &None).unwrap();
    assert!(events.is_empty());
}

#[test]
fn dispatch_without_endpoint_is_noop() {
    let packet = Packet::Subscribe(Subscribe {
        filters: vec![Filter { path: "/v1.6/a".to_string() }],
    });
    let events = call_webhook_plan(&packet, "c", &Some("bob".to_string()), &None).unwrap();
    assert!(events.is_empty());
    let events = call_webhook_plan(
        &packet,
        "c",
        &Some("bob".to_string()),
        &Some("http://hook".to_string()),
    )
    .unwrap();
    assert_eq!(events.len(), 1);
}

#[test]
fn authn_complete_event_fields() {
    let e = authn_complete_event("client-9", &Some("bob".to_string()));
    assert_eq!(e.clientid.as_deref(), Some("client-9"));
    assert_eq!(e.username.as_deref(), Some("bob"));
    assert_eq!(e.event.as_deref(), Some("client.check_authn_complete"));
    assert!(e.topic.is_none());
    assert!(e.payload.is_none());
}

#[test]
fn webhook_response_keeps_status_only() {
    assert_eq!(webhook_response(None).status_code, 500);
    assert_eq!(webhook_response(Some(204)).status_code, 204);
    assert!(webhook_response(Some(200)).webhook_response.is_none());
}

#[test]
fn retained_response_keeps_body_on_success_only() {
    let results = vec![MqttRetainedResult {
        topic: Some("/t".to_string()),
        payload: Some("v".to_string()),
    }];
    let ok = retained_response(Some(200), Some(results.clone()));
    assert_eq!(ok.status_code, 200);
    assert_eq!(ok.mqtt_retained_result.unwrap(), results);

    let failed = retained_response(None, Some(results.clone()));
    assert_eq!(failed.status_code, 500);
    assert!(failed.mqtt_retained_result.is_none());

    let denied = retained_response(Some(502), Some(results));
    assert_eq!(denied.status_code, 502);
    assert!(denied.mqtt_retained_result.is_none());
}
