use std::sync::{Arc, Mutex};

use couchbase_shell::cli::analytics::reported_values;
use couchbase_shell::cli::buckets::{make_error_row, BucketsStep};
use couchbase_shell::cli::clusters_rebalance::RebalanceStep;
use couchbase_shell::cli::shell::{Cell, JsonValue, Row, SyntaxShape};
use couchbase_shell::cli::users_roles::{make_role_row, Role, RoleAndDescription, UsersRolesStep};
use couchbase_shell::cli::whoami::WhoamiStep;
use couchbase_shell::cli::{Analytics, Buckets, BucketsConfig, ClustersRebalance, UsersRoles, Whoami};
use couchbase_shell::client::{AnalyticsQueryRequest, ManagementCall, ManagementRequest};
use couchbase_shell::state::{RemoteCluster, State};

fn registry() -> State {
    State::new(
        "local".to_string(),
        RemoteCluster {
            active_bucket: Some("travel-sample".to_string()),
            cloud_org: None,
            query_timeout_ms: 75_000,
            management_timeout_ms: 20_000,
        },
    )
    .with_cluster(
        "cloud".to_string(),
        RemoteCluster {
            active_bucket: None,
            cloud_org: Some("acme".to_string()),
            query_timeout_ms: 30_000,
            management_timeout_ms: 10_000,
        },
    )
}

fn ids(names: &[&str]) -> Vec<String> {
    names.iter().map(|s| s.to_string()).collect()
}

fn text(s: &str) -> Cell {
    Cell::Text(s.to_string())
}

fn shown(reason: &str) -> String {
    nu_errors::ShellError::untagged_runtime_error(reason).to_string()
}

// ---- analytics ----

#[test]
fn analytics_declares_statement_bucket_and_scope() {
    let cmd = Analytics::new(Arc::new(registry()));
    assert_eq!(cmd.name(), "analytics");
    assert_eq!(cmd.usage(), "Performs an analytics query");
    let sig = cmd.signature();
    assert_eq!(sig.name, "analytics");
    assert_eq!(sig.required.len(), 1);
    assert_eq!(sig.required[0].name, "statement");
    assert_eq!(sig.required[0].description, "the analytics statement");
    assert_eq!(sig.named.len(), 2);
    assert_eq!(sig.named[0].name, "bucket");
    assert_eq!(sig.named[0].description, "the bucket to query against");
    assert_eq!(sig.named[1].name, "scope");
    assert_eq!(sig.named[1].description, "the scope to query against");
    assert_eq!(sig.named[1].shape, SyntaxShape::String);
}

#[test]
fn analytics_named_bucket_wins_over_active_bucket() {
    let cmd = Analytics::new(Arc::new(registry()));
    let q = cmd.query("SELECT 1".to_string(), Some("beer".to_string()), Some("inventory".to_string()));
    assert_eq!(
        q.request,
        AnalyticsQueryRequest::Execute {
            statement: "SELECT 1".to_string(),
            scope: Some(("beer".to_string(), "inventory".to_string())),
        }
    );
    assert_eq!(q.timeout_ms, 75_000);
}

#[test]
fn analytics_falls_back_to_the_active_bucket() {
    let cmd = Analytics::new(Arc::new(registry()));
    let q = cmd.query("SELECT 1".to_string(), None, Some("inventory".to_string()));
    assert_eq!(
        q.request,
        AnalyticsQueryRequest::Execute {
            statement: "SELECT 1".to_string(),
            scope: Some(("travel-sample".to_string(), "inventory".to_string())),
        }
    );
}

#[test]
fn analytics_without_scope_runs_unscoped() {
    let cmd = Analytics::new(Arc::new(registry()));
    let q = cmd.query("SELECT 1".to_string(), Some("beer".to_string()), None);
    assert_eq!(q.request, AnalyticsQueryRequest::Execute { statement: "SELECT 1".to_string(), scope: None });
}

#[test]
fn analytics_without_any_bucket_runs_unscoped() {
    let state = State::new(
        "bare".to_string(),
        RemoteCluster { active_bucket: None, cloud_org: None, query_timeout_ms: 5, management_timeout_ms: 6 },
    );
    let cmd = Analytics::new(Arc::new(state));
    let q = cmd.query("SELECT 1".to_string(), None, Some("inventory".to_string()));
    assert_eq!(q.request, AnalyticsQueryRequest::Execute { statement: "SELECT 1".to_string(), scope: None });
    assert_eq!(q.timeout_ms, 5);
}

#[test]
fn analytics_reports_errors_before_results() {
    let content = vec![
        ("results".to_string(), JsonValue::Array(vec![JsonValue::Number("1".to_string())])),
        ("errors".to_string(), JsonValue::Array(vec![JsonValue::Text("bad".to_string())])),
        ("status".to_string(), JsonValue::Text("fatal".to_string())),
    ];
    assert_eq!(reported_values(content), vec![JsonValue::Text("bad".to_string())]);
}

#[test]
fn analytics_reports_results_when_there_are_no_errors() {
    let content = vec![
        ("status".to_string(), JsonValue::Text("success".to_string())),
        (
            "results".to_string(),
            JsonValue::Array(vec![JsonValue::Number("1".to_string()), JsonValue::Number("2".to_string())]),
        ),
    ];
    assert_eq!(
        reported_values(content),
        vec![JsonValue::Number("1".to_string()), JsonValue::Number("2".to_string())]
    );
}

// ---- buckets config ----

#[test]
fn buckets_config_asks_the_active_cluster_for_one_bucket() {
    let cmd = BucketsConfig::new(Arc::new(registry()));
    assert_eq!(cmd.name(), "buckets config");
    assert_eq!(cmd.usage(), "Shows the bucket config (low level)");
    let sig = cmd.signature();
    assert_eq!(sig.required.len(), 1);
    assert_eq!(sig.required[0].name, "name");
    assert_eq!(sig.required[0].description, "the name of the bucket");
    assert!(sig.named.is_empty());
    assert_eq!(
        cmd.request(Some("travel-sample".to_string())),
        Ok(ManagementCall {
            request: ManagementRequest::GetBucket { name: "travel-sample".to_string() },
            timeout_ms: 75_000,
        })
    );
}

#[test]
fn buckets_config_without_a_name_fails() {
    let cmd = BucketsConfig::new(Arc::new(registry()));
    let e = cmd.request(None).unwrap_err();
    assert_eq!(e.reason, "No bucket name was specified");
}

// ---- whoami ----

#[test]
fn whoami_declares_clusters() {
    let cmd = Whoami::new(Arc::new(registry()));
    assert_eq!(cmd.name(), "whoami");
    assert_eq!(cmd.usage(), "Shows roles and domain for the connected user");
    let sig = cmd.signature();
    assert!(sig.required.is_empty());
    assert_eq!(sig.named.len(), 1);
    assert_eq!(sig.named[0].name, "clusters");
    assert_eq!(sig.named[0].description, "the clusters which should be contacted");
}

#[test]
fn whoami_tags_each_answer_with_its_cluster() {
    let cmd = Whoami::new(Arc::new(registry()));
    let mut run = cmd.start(ids(&["local", "cloud"]));
    assert_eq!(
        cmd.next_step(&run),
        WhoamiStep::Request { identifier: "local".to_string(), request: ManagementRequest::Whoami, timeout_ms: 75_000 }
    );
    run.on_response(vec![("id".to_string(), JsonValue::Text("admin".to_string()))]);
    assert_eq!(
        cmd.next_step(&run),
        WhoamiStep::Request { identifier: "cloud".to_string(), request: ManagementRequest::Whoami, timeout_ms: 30_000 }
    );
    run.on_response(vec![
        ("cluster".to_string(), JsonValue::Text("stale".to_string())),
        ("domain".to_string(), JsonValue::Text("local".to_string())),
    ]);
    assert_eq!(cmd.next_step(&run), WhoamiStep::Done);
    run.on_response(vec![("ignored".to_string(), JsonValue::Null)]);
    let entries = run.into_entries();
    assert_eq!(
        entries,
        vec![
            JsonValue::Object(vec![
                ("cluster".to_string(), JsonValue::Text("local".to_string())),
                ("id".to_string(), JsonValue::Text("admin".to_string())),
            ]),
            JsonValue::Object(vec![
                ("cluster".to_string(), JsonValue::Text("cloud".to_string())),
                ("domain".to_string(), JsonValue::Text("local".to_string())),
            ]),
        ]
    );
}

#[test]
fn whoami_fails_on_an_unknown_cluster() {
    let cmd = Whoami::new(Arc::new(registry()));
    let run = cmd.start(ids(&["nowhere", "local"]));
    match cmd.next_step(&run) {
        WhoamiStep::Fail(e) => assert_eq!(e.reason, "Cluster not found"),
        other => panic!("unexpected step {:?}", other),
    }
}

#[test]
fn whoami_with_no_cluster_is_done_at_once() {
    let cmd = Whoami::new(Arc::new(registry()));
    let run = cmd.start(Vec::new());
    assert_eq!(cmd.next_step(&run), WhoamiStep::Done);
    assert!(run.into_entries().is_empty());
}

// ---- users roles ----

fn role(name: &str, bucket: Option<&str>) -> RoleAndDescription {
    RoleAndDescription {
        role: Role {
            name: name.to_string(),
            bucket: bucket.map(|b| b.to_string()),
            scope: None,
            collection: Some("airline".to_string()),
        },
        display_name: format!("{} display", name),
        description: format!("{} description", name),
    }
}

#[test]
fn users_roles_declares_clusters_and_permission() {
    let cmd = UsersRoles::new(Arc::new(registry()));
    assert_eq!(cmd.name(), "users roles");
    assert_eq!(cmd.usage(), "Shows all roles available on the cluster");
    let sig = cmd.signature();
    assert_eq!(sig.named.len(), 2);
    assert_eq!(sig.named[0].name, "clusters");
    assert_eq!(sig.named[1].name, "permission");
    assert_eq!(sig.named[1].description, "filter roles based on the permission string");
}

#[test]
fn users_roles_row_shows_missing_limits_as_empty() {
    let row = make_role_row(&"local".to_string(), role("admin", None));
    assert_eq!(
        row,
        Row {
            entries: vec![
                ("cluster".to_string(), text("local")),
                ("name".to_string(), text("admin display")),
                ("role".to_string(), text("admin")),
                ("bucket".to_string(), text("")),
                ("scope".to_string(), text("")),
                ("collection".to_string(), text("airline")),
                ("description".to_string(), text("admin description")),
            ]
        }
    );
}

#[test]
fn users_roles_rows_follow_roles_cluster_by_cluster() {
    let cmd = UsersRoles::new(Arc::new(registry()));
    let mut run = cmd.start(ids(&["local", "cloud"]), Some("cluster.bucket!read".to_string()));
    assert_eq!(
        cmd.next_step(&run),
        UsersRolesStep::Request {
            identifier: "local".to_string(),
            request: ManagementRequest::GetRoles { permission: Some("cluster.bucket!read".to_string()) },
            timeout_ms: 75_000,
        }
    );
    assert_eq!(run.on_decoded(Ok(vec![role("admin", None), role("reader", Some("beer"))])), Ok(()));
    assert!(matches!(cmd.next_step(&run), UsersRolesStep::Request { ref identifier, .. } if identifier == "cloud"));
    assert_eq!(run.on_decoded(Ok(vec![role("ro", Some("travel"))])), Ok(()));
    assert_eq!(cmd.next_step(&run), UsersRolesStep::Done);
    let rows = run.into_rows();
    assert_eq!(rows.len(), 3);
    assert_eq!(rows[0].entries[0].1, text("local"));
    assert_eq!(rows[1].entries[2].1, text("reader"));
    assert_eq!(rows[1].entries[3].1, text("beer"));
    assert_eq!(rows[2].entries[0].1, text("cloud"));
    assert_eq!(rows[2].entries[2].1, text("ro"));
}

#[test]
fn users_roles_decodes_only_status_200() {
    assert_eq!(UsersRoles::check_response(200, "[]".to_string()), Ok("[]".to_string()));
    let e = UsersRoles::check_response(403, "forbidden".to_string()).unwrap_err();
    assert_eq!(e.reason, "Request failed forbidden");
}

#[test]
fn users_roles_fails_when_the_body_cannot_be_decoded() {
    let cmd = UsersRoles::new(Arc::new(registry()));
    let mut run = cmd.start(ids(&["local"]), None);
    let e = run.on_decoded(Err("expected value at line 1 column 1".to_string())).unwrap_err();
    assert_eq!(e.reason, "Failed to decode response body expected value at line 1 column 1");
    assert!(matches!(cmd.next_step(&run), UsersRolesStep::Request { .. }));
}

#[test]
fn users_roles_fails_on_an_unknown_cluster() {
    let cmd = UsersRoles::new(Arc::new(registry()));
    let run = cmd.start(ids(&["nowhere"]), None);
    match cmd.next_step(&run) {
        UsersRolesStep::Fail(e) => assert_eq!(e.reason, "Cluster not found"),
        other => panic!("unexpected step {:?}", other),
    }
}

// ---- clusters rebalance ----

#[test]
fn rebalance_posts_to_the_controller() {
    let cmd = ClustersRebalance::new(Arc::new(registry()));
    assert_eq!(cmd.name(), "clusters rebalance");
    assert_eq!(cmd.usage(), "Triggers a cluster rebalance");
    assert_eq!(cmd.signature().named[0].name, "clusters");
    let run = cmd.start(ids(&["cloud"]));
    match cmd.next_step(&run) {
        RebalanceStep::Send { identifier, request } => {
            assert_eq!(identifier, "cloud");
            assert_eq!(request.path, "/controller/rebalance");
            assert_eq!(request.method, "post");
            assert_eq!(request.payload, None);
        }
        other => panic!("unexpected step {:?}", other),
    }
}

#[test]
fn rebalance_reports_dropped_replies_and_goes_on() {
    let cmd = ClustersRebalance::new(Arc::new(registry()));
    let mut run = cmd.start(ids(&["local", "cloud"]));
    run.on_reply(Err(futures::channel::oneshot::Canceled));
    assert!(matches!(cmd.next_step(&run), RebalanceStep::Send { ref identifier, .. } if identifier == "cloud"));
    run.on_reply(Ok(()));
    assert_eq!(cmd.next_step(&run), RebalanceStep::Done);
    let rows = run.into_results();
    assert_eq!(rows, vec![Row { entries: vec![("error".to_string(), text("oneshot canceled"))] }]);
}

#[test]
fn rebalance_fails_on_an_unknown_cluster() {
    let cmd = ClustersRebalance::new(Arc::new(registry()));
    let run = cmd.start(ids(&["nowhere"]));
    match cmd.next_step(&run) {
        RebalanceStep::Fail(e) => assert_eq!(e.reason, "Cluster not found"),
        other => panic!("unexpected step {:?}", other),
    }
}

// ---- buckets ----

fn expected_error_row(cluster: &str, error: &str) -> Row {
    Row {
        entries: vec![
            ("cluster".to_string(), text(cluster)),
            ("name".to_string(), text("")),
            ("type".to_string(), text("")),
            ("replicas".to_string(), text("")),
            ("min_durability_level".to_string(), text("")),
            ("ram_quota".to_string(), text("")),
            ("flush_enabled".to_string(), text("")),
            ("status".to_string(), text("")),
            ("cloud".to_string(), Cell::Bool(false)),
            ("error".to_string(), text(error)),
        ],
    }
}

#[test]
fn buckets_declares_clusters() {
    let cmd = Buckets::new(Arc::new(Mutex::new(registry())));
    assert_eq!(cmd.name(), "buckets");
    assert_eq!(cmd.usage(), "Perform bucket management operations");
    assert_eq!(cmd.signature().named[0].name, "clusters");
    assert_eq!(cmd.state().lock().unwrap().active_identifier(), "local");
}

#[test]
fn buckets_error_row_fills_every_column() {
    assert_eq!(make_error_row(&"local".to_string(), "boom".to_string()), expected_error_row("local", "boom"));
}

#[test]
fn buckets_sweep_turns_every_failure_into_a_row() {
    let cmd = Buckets::new(Arc::new(Mutex::new(registry())));
    let guard = cmd.state().lock().unwrap();
    let mut run = cmd.start(ids(&["nowhere", "local", "cloud", "cloud"]));

    assert_eq!(cmd.next_step(&guard, &mut run), BucketsStep::Skipped);

    assert_eq!(
        cmd.next_step(&guard, &mut run),
        BucketsStep::Fetch {
            identifier: "local".to_string(),
            call: ManagementCall { request: ManagementRequest::GetBuckets, timeout_ms: 20_000 },
        }
    );
    let bucket_row = Row { entries: vec![("name".to_string(), text("travel-sample"))] };
    run.on_buckets(vec![bucket_row]);

    assert_eq!(
        cmd.next_step(&guard, &mut run),
        BucketsStep::FetchCloud { identifier: "cloud".to_string(), org: "acme".to_string(), timeout_ms: 10_000 }
    );
    assert_eq!(run.on_cloud_response(500, "down".to_string()), None);

    assert!(matches!(cmd.next_step(&guard, &mut run), BucketsStep::FetchCloud { .. }));
    assert_eq!(run.on_cloud_response(200, "[]".to_string()), Some("[]".to_string()));
    run.on_failure("decode failed".to_string());

    assert_eq!(cmd.next_step(&guard, &mut run), BucketsStep::Done);
    let rows = run.into_rows();
    assert_eq!(
        rows,
        vec![
            expected_error_row("nowhere", &shown("Cluster not known")),
            Row { entries: vec![("name".to_string(), text("travel-sample"))] },
            expected_error_row("cloud", &shown("Unexpected: down")),
            expected_error_row("cloud", "decode failed"),
        ]
    );
}

#[test]
fn buckets_events_after_the_sweep_change_nothing() {
    let cmd = Buckets::new(Arc::new(Mutex::new(registry())));
    let guard = cmd.state().lock().unwrap();
    let mut run = cmd.start(Vec::new());
    assert_eq!(cmd.next_step(&guard, &mut run), BucketsStep::Done);
    assert_eq!(run.on_cloud_response(200, "[]".to_string()), None);
    run.on_failure("late".to_string());
    run.on_buckets(vec![Row::new()]);
    assert!(run.into_rows().is_empty());
}

#[test]
fn analytics_answer_shows_the_whole_document_with_meta() {
    let answer = Analytics::answer("{\"status\": \"success\"}", true).unwrap();
    assert_eq!(answer, vec![JsonValue::Object(vec![("status".to_string(), JsonValue::Text("success".to_string()))])]);
}

#[test]
fn analytics_answer_shows_the_reported_list() {
    let body = "{\"results\": [1, 2], \"status\": \"success\"}";
    assert_eq!(
        Analytics::answer(body, false),
        Ok(vec![JsonValue::Number("1".to_string()), JsonValue::Number("2".to_string())])
    );
    let failing = "{\"errors\": [{\"code\": 24045}], \"results\": []}";
    assert_eq!(
        Analytics::try_answer(failing, false),
        Some(Ok(vec![JsonValue::Object(vec![("code".to_string(), JsonValue::Number("24045".to_string()))])]))
    );
}

#[test]
fn analytics_answer_fails_on_a_body_that_does_not_parse() {
    let e = Analytics::answer("not json", true).unwrap_err();
    assert_eq!(e.reason, format!("{:?}", serde_json::from_str::<serde_json::Value>("not json").unwrap_err()));
    assert!(Analytics::answer("[1]", false).is_err());
}

#[test]
fn analytics_try_answer_refuses_what_the_command_cannot_show() {
    assert_eq!(Analytics::try_answer("{\"status\": \"running\"}", false), None);
    assert_eq!(Analytics::try_answer("{\"results\": 3}", false), None);
    assert!(Analytics::try_answer("{\"status\": \"running\"}", true).is_some());
}

#[test]
fn buckets_config_answer_parses_the_body() {
    assert_eq!(
        BucketsConfig::answer("{\"name\": \"travel-sample\"}"),
        Ok(JsonValue::Object(vec![("name".to_string(), JsonValue::Text("travel-sample".to_string()))]))
    );
    assert!(BucketsConfig::answer("{").is_err());
}

#[test]
fn whoami_on_body_tags_a_parsed_answer() {
    let cmd = Whoami::new(Arc::new(registry()));
    let mut run = cmd.start(ids(&["local"]));
    assert_eq!(run.on_body("{\"zone\": \"eu\", \"id\": \"admin\"}"), Ok(()));
    assert_eq!(cmd.next_step(&run), WhoamiStep::Done);
    assert_eq!(
        run.into_entries(),
        vec![JsonValue::Object(vec![
            ("cluster".to_string(), JsonValue::Text("local".to_string())),
            ("id".to_string(), JsonValue::Text("admin".to_string())),
            ("zone".to_string(), JsonValue::Text("eu".to_string())),
        ])]
    );
}

#[test]
fn whoami_on_body_fails_on_a_body_that_is_not_an_object() {
    let cmd = Whoami::new(Arc::new(registry()));
    let mut run = cmd.start(ids(&["local"]));
    let e = run.on_body("[]").unwrap_err();
    assert_eq!(
        e.reason,
        format!("{:?}", serde_json::from_str::<serde_json::Map<String, serde_json::Value>>("[]").unwrap_err())
    );
    assert!(matches!(cmd.next_step(&run), WhoamiStep::Request { .. }));
}
