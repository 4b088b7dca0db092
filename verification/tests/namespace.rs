use mqtt_tenant::topics::add_username_to_topic;
use mqtt_tenant::topics::remove_username_from_topic;

fn strip(s: &str) -> String {
    let out = remove_username_from_topic(&s.as_bytes().to_vec());
    String::from_utf8(out).unwrap()
}

#[test]
fn strip_removes_leftmost_marker_only() {
    // Only the leftmost tenant marker is removed; the second stays.
    assert_eq!(strip("/a/users/bob/b/users/joe/c"), "/a/b/users/joe/c");
}

#[test]
fn strip_versioned_topic() {
    assert_eq!(strip("/v1.6/users/bob/temp"), "/v1.6/temp");
    assert_eq!(strip("/v2.0/users/alice/data"), "/v2.0/data");
}

#[test]
fn strip_without_marker_is_identity() {
    assert_eq!(strip("/a/b/c"), "/a/b/c");
    assert_eq!(strip(""), "");
    assert_eq!(strip("/users"), "/users");
    // the marker needs a nonempty tenant id
    assert_eq!(strip("/users//x"), "/users//x");
}

#[test]
fn strip_edge_positions() {
    assert_eq!(strip("/users/bob"), "");
    assert_eq!(strip("/users/bob/t"), "/t");
    assert_eq!(strip("/a/users/bob"), "/a");
}

#[test]
fn strip_matches_reference_pattern() {
    // The byte-level scan agrees with the pattern /users/[^/]+ with the
    // first match removed.
    let re = regex::Regex::new(r"/users/[^/]+").unwrap();
    let topics = [
        "/a/users/bob/b/users/joe/c",
        "/v1.6/users/bob/temp",
        "/users/solo",
        "/no/marker",
        "/users//x/users/y",
        "/deep/a/b/users/zed/c/d",
        "",
    ];
    for t in topics {
        assert_eq!(strip(t), re.replace(t, "").to_string(), "topic {t:?}");
    }
}

#[test]
fn inject_adds_tenant_segment() {
    assert_eq!(
        add_username_to_topic("/v1.6/metric", Some("bob".to_string())),
        "/v1.6/users/bob/metric"
    );
    assert_eq!(
        add_username_to_topic("/v2.0/data", Some("alice".to_string())),
        "/v2.0/users/alice/data"
    );
}

#[test]
fn inject_without_username_is_identity() {
    assert_eq!(add_username_to_topic("/v1.6/metric", None), "/v1.6/metric");
    assert_eq!(add_username_to_topic("/plain", None), "/plain");
}

#[test]
fn inject_replaces_every_occurrence() {
    assert_eq!(
        add_username_to_topic("/v1.6/a/v1.6/b", Some("u".to_string())),
        "/v1.6/users/u/a/v1.6/users/u/b"
    );
    // a topic without either versioned prefix is unchanged
    assert_eq!(
        add_username_to_topic("/v3.0/x", Some("u".to_string())),
        "/v3.0/x"
    );
}

#[test]
fn inject_matches_reference_replace() {
    let cases = [
        ("/v1.6/metric", "bob"),
        ("/v2.0/data", "alice"),
        ("/v1.6/a/v2.0/b", "u"),
        ("/plain", "u"),
    ];
    for (topic, user) in cases {
        let expected = topic
            .replace("/v1.6/", &format!("/v1.6/users/{user}/"))
            .replace("/v2.0/", &format!("/v2.0/users/{user}/"));
        assert_eq!(
            add_username_to_topic(topic, Some(user.to_string())),
            expected,
            "topic {topic:?}"
        );
    }
}
