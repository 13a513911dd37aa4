use couchbase_shell::cli::buckets::make_error_row;
use couchbase_shell::cli::users_roles::{make_role_row, Role, RoleAndDescription};
use couchbase_shell::cli::shell::{
    parse_json, parse_json_object, find_member, set_member, text_precedes, Cell, CommandError, JsonValue, NamedArg, PositionalArg, Row, Sweep,
    SyntaxShape,
};

fn text(s: &str) -> JsonValue {
    JsonValue::Text(s.to_string())
}

#[test]
fn row_insert_appends_new_columns_in_order() {
    let mut row = Row::new();
    row.insert("cluster", Cell::Text("local".to_string()));
    row.insert("cloud", Cell::Bool(false));
    assert_eq!(
        row.entries,
        vec![
            ("cluster".to_string(), Cell::Text("local".to_string())),
            ("cloud".to_string(), Cell::Bool(false)),
        ]
    );
}

#[test]
fn row_insert_of_an_existing_column_keeps_its_place() {
    let mut row = Row::new();
    row.insert("a", Cell::Text("1".to_string()));
    row.insert("b", Cell::Text("2".to_string()));
    row.insert("a", Cell::Bool(true));
    assert_eq!(
        row.entries,
        vec![("a".to_string(), Cell::Bool(true)), ("b".to_string(), Cell::Text("2".to_string()))]
    );
}

#[test]
fn set_member_replaces_an_existing_member() {
    let mut members = vec![("user".to_string(), text("alice")), ("cluster".to_string(), text("old"))];
    set_member(&mut members, "cluster", text("local"));
    assert_eq!(members, vec![("user".to_string(), text("alice")), ("cluster".to_string(), text("local"))]);
}

#[test]
fn set_member_adds_a_missing_member_in_name_order() {
    let mut members = vec![("domain".to_string(), text("local")), ("user".to_string(), text("alice"))];
    set_member(&mut members, "id", text("admin"));
    assert_eq!(
        members,
        vec![
            ("domain".to_string(), text("local")),
            ("id".to_string(), text("admin")),
            ("user".to_string(), text("alice")),
        ]
    );
    set_member(&mut members, "zone", text("eu"));
    assert_eq!(members[3], ("zone".to_string(), text("eu")));
    set_member(&mut members, "cluster", text("c1"));
    assert_eq!(members[0], ("cluster".to_string(), text("c1")));
}

#[test]
fn text_precedes_follows_string_order() {
    for (a, b) in [("a", "b"), ("ab", "a"), ("a", "ab"), ("", "a"), ("a", ""), ("Z", "a"), ("é", "z"), ("same", "same")] {
        assert_eq!(text_precedes(a, b), a.to_string() < b.to_string(), "{} vs {}", a, b);
    }
}

#[test]
fn parse_json_object_lists_members_in_name_order() {
    let members = parse_json_object("{\"b\": 1, \"a\": 2, \"c\": 3}").unwrap();
    let names: Vec<&str> = members.iter().map(|(k, _)| k.as_str()).collect();
    assert_eq!(names, vec!["a", "b", "c"]);
}

#[test]
fn find_member_finds_the_first_of_a_name() {
    let members = vec![
        ("a".to_string(), JsonValue::Null),
        ("b".to_string(), JsonValue::Bool(true)),
        ("b".to_string(), JsonValue::Bool(false)),
    ];
    assert_eq!(find_member(&members, "b"), Some(1));
    assert_eq!(find_member(&members, "c"), None);
}

#[test]
fn argument_constructors_take_strings() {
    let p = PositionalArg::string("name", "the name of the bucket");
    assert_eq!(p.name, "name");
    assert_eq!(p.shape, SyntaxShape::String);
    assert_eq!(p.description, "the name of the bucket");
    let n = NamedArg::string("clusters", "the clusters which should be contacted");
    assert_eq!(n.short, None);
    assert_eq!(n.shape, SyntaxShape::String);
}

#[test]
fn command_errors_carry_their_reason() {
    assert_eq!(CommandError::runtime("Cluster not found").reason, "Cluster not found");
    assert_eq!(CommandError::unexpected("{\"message\":\"nope\"}").reason, "Unexpected: {\"message\":\"nope\"}");
}

#[test]
fn command_errors_display_as_the_shell_shows_them() {
    let e = CommandError::runtime("Cluster not known");
    let expected = nu_errors::ShellError::untagged_runtime_error("Cluster not known").to_string();
    assert_eq!(e.display_text(), expected);
    assert_eq!(e.display_text(), "Unknown Error(Cluster not known)");
    assert_ne!(e.display_text(), e.reason);
}

#[test]
fn a_sweep_visits_each_cluster_once_in_order() {
    let mut sweep = Sweep::new(vec!["a".to_string(), "b".to_string()]);
    assert_eq!(sweep.current().map(|s| s.as_str()), Some("a"));
    sweep.advance();
    assert_eq!(sweep.current().map(|s| s.as_str()), Some("b"));
    sweep.advance();
    assert_eq!(sweep.current(), None);
    sweep.advance();
    assert_eq!(sweep.current(), None);
}

#[test]
fn error_and_role_rows_name_each_column_once() {
    let error_row = make_error_row(&"c".to_string(), "e".to_string());
    let role_row = make_role_row(
        &"c".to_string(),
        RoleAndDescription {
            role: Role { name: "r".to_string(), bucket: None, scope: None, collection: None },
            display_name: "d".to_string(),
            description: "x".to_string(),
        },
    );
    for row in [error_row, role_row] {
        let mut names: Vec<&String> = row.entries.iter().map(|(k, _)| k).collect();
        let count = names.len();
        names.sort();
        names.dedup();
        assert_eq!(names.len(), count);
    }
}

#[test]
fn parse_json_keeps_the_document() {
    assert_eq!(
        parse_json("[1, \"a\", null, true, {\"k\": 2.5}]"),
        Ok(JsonValue::Array(vec![
            JsonValue::Number("1".to_string()),
            text("a"),
            JsonValue::Null,
            JsonValue::Bool(true),
            JsonValue::Object(vec![("k".to_string(), JsonValue::Number("2.5".to_string()))]),
        ]))
    );
}

#[test]
fn parse_json_reports_errors_as_the_shell_does() {
    let expected = format!("{:?}", serde_json::from_str::<serde_json::Value>("{").unwrap_err());
    assert_eq!(parse_json("{"), Err(expected));
}

#[test]
fn parse_json_object_accepts_only_objects() {
    assert_eq!(
        parse_json_object("{\"b\": 1, \"a\": \"x\"}").map(|m| m.len()),
        Ok(2)
    );
    let expected =
        format!("{:?}", serde_json::from_str::<serde_json::Map<String, serde_json::Value>>("[1]").unwrap_err());
    assert_eq!(parse_json_object("[1]"), Err(expected));
}
