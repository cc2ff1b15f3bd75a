use youtrack::json::Json;
use youtrack::text::same_text;

fn text(s: &str) -> Json {
    Json::Str(s.to_string())
}

fn object(members: Vec<(&str, Json)>) -> Json {
    Json::Object(members.into_iter().map(|(k, v)| (k.to_string(), v)).collect())
}

#[test]
fn get_finds_a_member_of_an_object() {
    let value = object(vec![("a", Json::Int(1)), ("b", text("two"))]);
    assert_eq!(value.get("a"), Some(&Json::Int(1)));
    assert_eq!(value.get("b"), Some(&text("two")));
}

#[test]
fn get_finds_nothing_under_a_name_that_is_not_there() {
    let value = object(vec![("a", Json::Int(1))]);
    assert_eq!(value.get("c"), None);
    assert_eq!(value.get(""), None);
    assert_eq!(value.get("A"), None);
    assert_eq!(object(vec![]).get("a"), None);
}

#[test]
fn get_finds_nothing_in_what_is_no_object() {
    assert_eq!(Json::Null.get("a"), None);
    assert_eq!(Json::Bool(true).get("a"), None);
    assert_eq!(Json::Int(3).get("a"), None);
    assert_eq!(text("a").get("a"), None);
    assert_eq!(Json::Array(vec![object(vec![("a", Json::Int(1))])]).get("a"), None);
}

#[test]
fn get_takes_the_first_of_two_members_of_one_name() {
    let value = object(vec![("a", Json::Int(1)), ("a", Json::Int(2))]);
    assert_eq!(value.get("a"), Some(&Json::Int(1)));
}

#[test]
fn get_finds_a_null_member() {
    let value = object(vec![("a", Json::Null)]);
    assert_eq!(value.get("a"), Some(&Json::Null));
}

#[test]
fn as_str_gives_the_characters_of_a_string_only() {
    assert_eq!(text("abc").as_str(), Some("abc"));
    assert_eq!(text("").as_str(), Some(""));
    assert_eq!(Json::Null.as_str(), None);
    assert_eq!(Json::Int(1).as_str(), None);
    assert_eq!(Json::Real("1.5".to_string()).as_str(), None);
    assert_eq!(Json::Array(vec![]).as_str(), None);
}

#[test]
fn as_i64_gives_the_number_of_an_integer_only() {
    assert_eq!(Json::Int(-7).as_i64(), Some(-7));
    assert_eq!(Json::Int(i64::MAX).as_i64(), Some(i64::MAX));
    assert_eq!(Json::Real("1.5".to_string()).as_i64(), None);
    assert_eq!(text("7").as_i64(), None);
    assert_eq!(Json::Null.as_i64(), None);
}

#[test]
fn as_array_gives_the_elements_of_an_array_only() {
    let items = vec![Json::Int(1), Json::Null];
    assert_eq!(Json::Array(items.clone()).as_array(), Some(&items));
    assert_eq!(Json::Array(vec![]).as_array(), Some(&vec![]));
    assert_eq!(object(vec![]).as_array(), None);
    assert_eq!(Json::Null.as_array(), None);
}

#[test]
fn is_null_and_is_array_tell_the_kinds_apart() {
    assert!(Json::Null.is_null());
    assert!(!Json::Int(0).is_null());
    assert!(!Json::Array(vec![]).is_null());
    assert!(Json::Array(vec![]).is_array());
    assert!(Json::Array(vec![Json::Null]).is_array());
    assert!(!Json::Null.is_array());
    assert!(!object(vec![]).is_array());
}

#[test]
fn clone_copies_the_whole_tree() {
    let value = object(vec![
        ("n", Json::Null),
        ("b", Json::Bool(false)),
        ("i", Json::Int(-3)),
        ("r", Json::Real("2.5e3".to_string())),
        ("s", text("x")),
        ("a", Json::Array(vec![Json::Int(1), object(vec![("k", Json::Array(vec![]))])])),
    ]);
    assert_eq!(value.clone(), value);
}

#[test]
fn same_text_compares_character_by_character() {
    assert!(same_text("", ""));
    assert!(same_text("id", "id"));
    assert!(!same_text("id", "Id"));
    assert!(!same_text("id", "ids"));
    assert!(!same_text("ids", "id"));
    assert!(!same_text("", "a"));
    assert!(same_text("Müller ✓", "Müller ✓"));
    assert!(!same_text("Müller", "Muller"));
}
