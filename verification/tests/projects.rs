use youtrack::error::Error;
use youtrack::json::Json;
use youtrack::project::{normalize_project, normalize_projects, Project};

fn text(s: &str) -> Json {
    Json::Str(s.to_string())
}

fn object(members: Vec<(&str, Json)>) -> Json {
    Json::Object(members.into_iter().map(|(k, v)| (k.to_string(), v)).collect())
}

fn demo() -> Json {
    object(vec![("id", text("0-1")), ("shortName", text("DEMO")), ("name", text("Demo project"))])
}

#[test]
fn project_takes_its_three_members() {
    let project = normalize_project(&demo()).unwrap();
    assert_eq!(
        project,
        Project { id: "0-1".to_string(), name: "DEMO".to_string(), text: "Demo project".to_string() }
    );
}

#[test]
fn project_without_id_is_a_schema_violation() {
    let raw = object(vec![("shortName", text("DEMO")), ("name", text("Demo project"))]);
    assert_eq!(normalize_project(&raw), Err(Error::SchemaViolation));
}

#[test]
fn project_without_short_name_is_a_schema_violation() {
    let raw = object(vec![("id", text("0-1")), ("name", text("Demo project"))]);
    assert_eq!(normalize_project(&raw), Err(Error::SchemaViolation));
}

#[test]
fn project_without_name_is_a_schema_violation() {
    let raw = object(vec![("id", text("0-1")), ("shortName", text("DEMO"))]);
    assert_eq!(normalize_project(&raw), Err(Error::SchemaViolation));
}

#[test]
fn project_with_a_number_for_its_id_is_a_schema_violation() {
    let raw = object(vec![("id", Json::Int(1)), ("shortName", text("DEMO")), ("name", text("Demo"))]);
    assert_eq!(normalize_project(&raw), Err(Error::SchemaViolation));
}

#[test]
fn project_that_is_no_object_is_a_schema_violation() {
    assert_eq!(normalize_project(&text("DEMO")), Err(Error::SchemaViolation));
    assert_eq!(normalize_project(&Json::Null), Err(Error::SchemaViolation));
}

#[test]
fn projects_keep_the_order_of_the_array() {
    let other = object(vec![("id", text("0-2")), ("shortName", text("OPS")), ("name", text("Operations"))]);
    let all = normalize_projects(&Json::Array(vec![demo(), other])).unwrap();
    assert_eq!(all.len(), 2);
    assert_eq!(all[0].name, "DEMO");
    assert_eq!(all[1].name, "OPS");
}

#[test]
fn one_broken_project_fails_the_whole_array() {
    let broken = object(vec![("id", text("0-2"))]);
    assert_eq!(normalize_projects(&Json::Array(vec![demo(), broken])), Err(Error::SchemaViolation));
}

#[test]
fn projects_of_what_is_no_array_are_a_schema_violation() {
    assert_eq!(normalize_projects(&demo()), Err(Error::SchemaViolation));
}

#[test]
fn no_projects_from_an_empty_array() {
    assert_eq!(normalize_projects(&Json::Array(vec![])), Ok(vec![]));
}
