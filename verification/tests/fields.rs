use youtrack::error::Error;
use youtrack::field::{normalize_field, normalize_fields, Field, FieldKind};
use youtrack::json::Json;

fn text(s: &str) -> Json {
    Json::Str(s.to_string())
}

fn object(members: Vec<(&str, Json)>) -> Json {
    Json::Object(members.into_iter().map(|(k, v)| (k.to_string(), v)).collect())
}

fn named(name: &str) -> Json {
    object(vec![("name", text(name))])
}

fn raw_field(kind: Option<&str>, value: Json) -> Json {
    let mut members = vec![("id", text("92-1")), ("name", text("State")), ("value", value)];
    if let Some(kind) = kind {
        members.push(("$type", text(kind)));
    }
    object(members)
}

fn shown(text: &str, value: Option<Json>, values: Option<Vec<Json>>) -> Field {
    Field {
        id: "92-1".to_string(),
        name: "State".to_string(),
        text: text.to_string(),
        value,
        values,
    }
}

const KINDS: [Option<&str>; 6] = [
    None,
    Some("SimpleIssueCustomField"),
    Some("DateIssueCustomField"),
    Some("PeriodIssueCustomField"),
    Some("SingleEnumIssueCustomField"),
    Some("MultiEnumIssueCustomField"),
];

#[test]
fn null_value_shows_none_whatever_the_type() {
    for kind in KINDS {
        assert_eq!(normalize_field(&raw_field(kind, Json::Null)), Ok(shown("None", None, None)));
    }
}

#[test]
fn field_without_value_is_a_schema_violation() {
    let raw = object(vec![("id", text("92-1")), ("name", text("State"))]);
    assert_eq!(normalize_field(&raw), Err(Error::SchemaViolation));
    let raw = object(vec![
        ("id", text("92-1")),
        ("name", text("State")),
        ("$type", text("SimpleIssueCustomField")),
    ]);
    assert_eq!(normalize_field(&raw), Err(Error::SchemaViolation));
}

#[test]
fn empty_array_shows_bracketed_none_whatever_the_type() {
    for kind in KINDS {
        assert_eq!(
            normalize_field(&raw_field(kind, Json::Array(vec![]))),
            Ok(shown("[None]", None, None))
        );
    }
}

#[test]
fn simple_field_shows_its_string_verbatim() {
    let raw = raw_field(Some("SimpleIssueCustomField"), text("say \"hi\", then go"));
    assert_eq!(
        normalize_field(&raw),
        Ok(shown("say \"hi\", then go", Some(text("say \"hi\", then go")), None))
    );
}

#[test]
fn simple_field_with_an_empty_string() {
    let raw = raw_field(Some("SimpleIssueCustomField"), text(""));
    assert_eq!(normalize_field(&raw), Ok(shown("", Some(text("")), None)));
}

#[test]
fn simple_field_whose_value_is_no_string_is_a_schema_violation() {
    let raw = raw_field(Some("SimpleIssueCustomField"), Json::Int(3));
    assert_eq!(normalize_field(&raw), Err(Error::SchemaViolation));
    let raw = raw_field(Some("SimpleIssueCustomField"), named("Open"));
    assert_eq!(normalize_field(&raw), Err(Error::SchemaViolation));
}

#[test]
fn date_field_shows_the_calendar_date() {
    let raw = raw_field(Some("DateIssueCustomField"), Json::Int(1700000000000));
    assert_eq!(
        normalize_field(&raw),
        Ok(shown("2023-11-14", Some(Json::Int(1700000000000)), None))
    );
}

#[test]
fn date_field_whose_value_is_no_integer_is_a_schema_violation() {
    let raw = raw_field(Some("DateIssueCustomField"), text("2023-11-14"));
    assert_eq!(normalize_field(&raw), Err(Error::SchemaViolation));
    let raw = raw_field(Some("DateIssueCustomField"), Json::Real("1.7e12".to_string()));
    assert_eq!(normalize_field(&raw), Err(Error::SchemaViolation));
}

#[test]
fn date_field_out_of_the_calendar_is_a_schema_violation() {
    let raw = raw_field(Some("DateIssueCustomField"), Json::Int(i64::MAX));
    assert_eq!(normalize_field(&raw), Err(Error::SchemaViolation));
}

#[test]
fn period_field_shows_its_presentation() {
    let period = object(vec![("presentation", text("1w 2d")), ("minutes", Json::Int(3360))]);
    let raw = raw_field(Some("PeriodIssueCustomField"), period.clone());
    assert_eq!(normalize_field(&raw), Ok(shown("1w 2d", Some(period), None)));
}

#[test]
fn period_field_without_presentation_is_a_schema_violation() {
    let raw = raw_field(Some("PeriodIssueCustomField"), object(vec![("minutes", Json::Int(1))]));
    assert_eq!(normalize_field(&raw), Err(Error::SchemaViolation));
    let raw = raw_field(Some("PeriodIssueCustomField"), text("1w"));
    assert_eq!(normalize_field(&raw), Err(Error::SchemaViolation));
}

#[test]
fn single_value_of_any_other_type_shows_its_name() {
    let value = object(vec![("name", text("In Progress")), ("id", text("7-2"))]);
    for kind in [None, Some("StateIssueCustomField"), Some("")] {
        assert_eq!(
            normalize_field(&raw_field(kind, value.clone())),
            Ok(shown("In Progress", Some(value.clone()), None))
        );
    }
}

#[test]
fn single_value_without_a_name_is_a_schema_violation() {
    let raw = raw_field(None, object(vec![("id", text("7-2"))]));
    assert_eq!(normalize_field(&raw), Err(Error::SchemaViolation));
    let raw = raw_field(None, text("In Progress"));
    assert_eq!(normalize_field(&raw), Err(Error::SchemaViolation));
    let raw = raw_field(None, Json::Int(4));
    assert_eq!(normalize_field(&raw), Err(Error::SchemaViolation));
}

#[test]
fn several_values_show_their_names_joined() {
    let raw = raw_field(None, Json::Array(vec![named("A"), named("B")]));
    assert_eq!(normalize_field(&raw), Ok(shown("A, B", None, Some(vec![named("A"), named("B")]))));
}

#[test]
fn several_values_of_an_unknown_type_show_their_names_joined() {
    let items = vec![named("A"), named("B"), named("C")];
    let raw = raw_field(Some("MultiEnumIssueCustomField"), Json::Array(items.clone()));
    assert_eq!(normalize_field(&raw), Ok(shown("A, B, C", None, Some(items))));
}

#[test]
fn one_value_in_an_array_shows_its_name_alone() {
    let raw = raw_field(None, Json::Array(vec![named("A")]));
    assert_eq!(normalize_field(&raw), Ok(shown("A", None, Some(vec![named("A")]))));
}

#[test]
fn an_element_without_a_name_is_a_schema_violation() {
    let raw = raw_field(None, Json::Array(vec![named("A"), object(vec![])]));
    assert_eq!(normalize_field(&raw), Err(Error::SchemaViolation));
    let raw = raw_field(None, Json::Array(vec![text("A")]));
    assert_eq!(normalize_field(&raw), Err(Error::SchemaViolation));
}

#[test]
fn a_type_that_is_no_string_counts_as_any_other() {
    let mut members = vec![("id", text("92-1")), ("name", text("State")), ("value", named("Open"))];
    members.push(("$type", Json::Int(1)));
    assert_eq!(normalize_field(&object(members)), Ok(shown("Open", Some(named("Open")), None)));
}

#[test]
fn field_without_id_is_a_schema_violation() {
    let raw = object(vec![("name", text("State")), ("value", Json::Null)]);
    assert_eq!(normalize_field(&raw), Err(Error::SchemaViolation));
}

#[test]
fn field_without_name_is_a_schema_violation() {
    let raw = object(vec![("id", text("92-1")), ("value", Json::Array(vec![]))]);
    assert_eq!(normalize_field(&raw), Err(Error::SchemaViolation));
}

#[test]
fn field_whose_id_is_no_string_is_a_schema_violation() {
    let raw = object(vec![("id", Json::Int(92)), ("name", text("State")), ("value", Json::Null)]);
    assert_eq!(normalize_field(&raw), Err(Error::SchemaViolation));
}

#[test]
fn field_that_is_no_object_is_a_schema_violation() {
    assert_eq!(normalize_field(&Json::Null), Err(Error::SchemaViolation));
    assert_eq!(normalize_field(&Json::Array(vec![])), Err(Error::SchemaViolation));
}

#[test]
fn field_never_holds_both_one_value_and_several() {
    let raws = vec![
        raw_field(None, Json::Null),
        raw_field(None, Json::Array(vec![])),
        raw_field(Some("SimpleIssueCustomField"), text("x")),
        raw_field(Some("DateIssueCustomField"), Json::Int(0)),
        raw_field(Some("PeriodIssueCustomField"), object(vec![("presentation", text("1h"))])),
        raw_field(None, named("A")),
        raw_field(None, Json::Array(vec![named("A")])),
    ];
    for raw in raws {
        let field = normalize_field(&raw).unwrap();
        assert!(!(field.value.is_some() && field.values.is_some()));
    }
}

#[test]
fn dated_field_from_a_rendering() {
    let field = Field::dated(
        "92-1".to_string(),
        "State".to_string(),
        1700000000000,
        Some("2023-11-14".to_string()),
    );
    assert_eq!(field, Ok(shown("2023-11-14", Some(Json::Int(1700000000000)), None)));
}

#[test]
fn dated_field_without_a_rendering_is_a_schema_violation() {
    let field = Field::dated("92-1".to_string(), "State".to_string(), i64::MAX, None);
    assert_eq!(field, Err(Error::SchemaViolation));
}

#[test]
fn kinds_by_their_tags() {
    assert_eq!(FieldKind::named("SimpleIssueCustomField"), FieldKind::Simple);
    assert_eq!(FieldKind::named("DateIssueCustomField"), FieldKind::Date);
    assert_eq!(FieldKind::named("PeriodIssueCustomField"), FieldKind::Period);
    assert_eq!(FieldKind::named("SingleEnumIssueCustomField"), FieldKind::Other);
    assert_eq!(FieldKind::named("simpleissuecustomfield"), FieldKind::Other);
    assert_eq!(FieldKind::named(""), FieldKind::Other);
    assert_eq!(FieldKind::of(&raw_field(Some("DateIssueCustomField"), Json::Null)), FieldKind::Date);
    assert_eq!(FieldKind::of(&raw_field(None, Json::Null)), FieldKind::Other);
    assert_eq!(FieldKind::of(&Json::Null), FieldKind::Other);
}

#[test]
fn fields_keep_the_order_of_the_array() {
    let raw = Json::Array(vec![
        raw_field(Some("SimpleIssueCustomField"), text("first")),
        raw_field(None, named("second")),
        raw_field(None, Json::Null),
    ]);
    let fields = normalize_fields(&raw).unwrap();
    let texts: Vec<&str> = fields.iter().map(|f| f.text.as_str()).collect();
    assert_eq!(texts, vec!["first", "second", "None"]);
}

#[test]
fn one_broken_field_fails_them_all() {
    let raw = Json::Array(vec![
        raw_field(None, named("fine")),
        object(vec![("name", text("State")), ("value", Json::Null)]),
    ]);
    assert_eq!(normalize_fields(&raw), Err(Error::SchemaViolation));
}

#[test]
fn fields_of_what_is_no_array_are_a_schema_violation() {
    assert_eq!(normalize_fields(&Json::Null), Err(Error::SchemaViolation));
    assert_eq!(normalize_fields(&raw_field(None, Json::Null)), Err(Error::SchemaViolation));
}

#[test]
fn normalizing_a_field_twice_gives_equal_fields() {
    let raw = raw_field(None, Json::Array(vec![named("A"), named("B")]));
    assert_eq!(normalize_field(&raw), normalize_field(&raw));
    let raw = raw_field(Some("DateIssueCustomField"), Json::Int(1700000000000));
    assert_eq!(normalize_field(&raw), normalize_field(&raw.clone()));
}
