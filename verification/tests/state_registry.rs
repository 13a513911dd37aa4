use couchbase_shell::state::{RemoteCluster, State};

fn cluster(bucket: Option<&str>, org: Option<&str>, query: u64, management: u64) -> RemoteCluster {
    RemoteCluster {
        active_bucket: bucket.map(|b| b.to_string()),
        cloud_org: org.map(|o| o.to_string()),
        query_timeout_ms: query,
        management_timeout_ms: management,
    }
}

#[test]
fn new_registry_holds_the_active_cluster() {
    let state = State::new("local".to_string(), cluster(Some("travel-sample"), None, 75_000, 20_000));
    assert_eq!(state.active_identifier(), "local");
    assert_eq!(state.active_cluster().active_bucket.as_deref(), Some("travel-sample"));
    assert_eq!(state.active_cluster().query_timeout_ms, 75_000);
    assert!(state.cluster(&"local".to_string()).is_some());
    assert!(state.cluster(&"remote".to_string()).is_none());
}

#[test]
fn registering_adds_a_cluster_and_keeps_the_active_one() {
    let state = State::new("local".to_string(), cluster(None, None, 1, 2))
        .with_cluster("cloud".to_string(), cluster(None, Some("org"), 3, 4));
    assert_eq!(state.active_identifier(), "local");
    let found = state.cluster(&"cloud".to_string()).unwrap();
    assert_eq!(found.cloud_org.as_deref(), Some("org"));
    assert_eq!(found.management_timeout_ms, 4);
    assert_eq!(state.active_cluster().query_timeout_ms, 1);
}

#[test]
fn registering_an_existing_identifier_replaces_its_cluster() {
    let state = State::new("local".to_string(), cluster(None, None, 1, 2))
        .with_cluster("local".to_string(), cluster(Some("beer-sample"), None, 9, 8));
    let active = state.active_cluster();
    assert_eq!(active.active_bucket.as_deref(), Some("beer-sample"));
    assert_eq!(active.query_timeout_ms, 9);
    assert_eq!(active.management_timeout_ms, 8);
}
