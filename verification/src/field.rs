//! The custom fields of an issue: one shape for values of many types.

use crate::batch::{all_described, read_all, record_views, Record};
use crate::error::Error;
use crate::extract::{collect, optional_str, required_str, text_member};
use crate::json::{views, Json, JsonView};
use crate::text::{joined, same_text};
use crate::time::{date_text, render_date};
use vstd::prelude::*;
use vstd::string::StringExecFns;

verus! {

/// The resolved value of one custom field of an issue.
#[derive(Debug, PartialEq, Eq)]
pub struct Field {
    /// The identifier of the field.
    pub id: String,
    /// The label of the field.
    pub name: String,
    /// What is shown for the value.
    pub text: String,
    /// The value of a field that holds one.
    pub value: Option<Json>,
    /// The values of a field that holds several.
    pub values: Option<Vec<Json>>,
}

/// The mathematical value of a `Field`.
pub struct FieldView {
    pub id: Seq<char>,
    pub name: Seq<char>,
    pub text: Seq<char>,
    pub value: Option<JsonView>,
    pub values: Option<Seq<JsonView>>,
}

impl FieldView {
    /// A field holds one value, or several, or none: never both one and
    /// several.
    pub open spec fn well_formed(self) -> bool {
        !(self.value is Some && self.values is Some)
    }
}

impl View for Field {
    type V = FieldView;

    open spec fn view(&self) -> FieldView {
        FieldView {
            id: self.id@,
            name: self.name@,
            text: self.text@,
            value: match self.value {
                Some(v) => Some(v@),
                None => None,
            },
            values: match self.values {
                Some(vs) => Some(views(vs@)),
                None => None,
            },
        }
    }
}

impl Clone for Field {
    fn clone(&self) -> (copy: Self)
        ensures
            copy@ == self@,
    {
        let value = match &self.value {
            Some(v) => Some(v.clone()),
            None => None,
        };
        let values = match &self.values {
            Some(vs) => {
                let held = vs.clone();
                assert(views(held@) =~= views(vs@));
                Some(held)
            },
            None => None,
        };
        Field {
            id: self.id.clone(),
            name: self.name.clone(),
            text: self.text.clone(),
            value,
            values,
        }
    }
}

/// The kinds of custom field that are told apart by the type tag.
#[derive(Debug, Clone, Copy, PartialEq, Eq, Structural)]
pub enum FieldKind {
    /// Plain text: the value is a string.
    Simple,
    /// A date: the value is a number of milliseconds since the Unix epoch.
    Date,
    /// A period: the value is an object with a `presentation`.
    Period,
    /// Every other tag, and none: the value is an object with a `name`, or
    /// an array of such objects.
    Other,
}

/// The kind that a type tag stands for.
pub open spec fn kind_named(tag: Seq<char>) -> FieldKind {
    if tag == "SimpleIssueCustomField"@ {
        FieldKind::Simple
    } else if tag == "DateIssueCustomField"@ {
        FieldKind::Date
    } else if tag == "PeriodIssueCustomField"@ {
        FieldKind::Period
    } else {
        FieldKind::Other
    }
}

/// The kind of a raw field: that of its `$type`, where that member is a
/// string, and `Other` where it is absent or is no string.
pub open spec fn kind_of(raw: JsonView) -> FieldKind {
    match text_member(raw, "$type"@) {
        Some(tag) => kind_named(tag),
        None => FieldKind::Other,
    }
}

/// What a field shows and holds: its text, its one value, its several values.
pub struct Rendering {
    pub text: Seq<char>,
    pub value: Option<JsonView>,
    pub values: Option<Seq<JsonView>>,
}

/// The `name` of each of `items`, where each of them is an object whose
/// `name` is a string.
pub open spec fn names_of(items: Seq<JsonView>) -> Option<Seq<Seq<char>>> {
    collect(Seq::new(items.len(), |i: int| text_member(items[i], "name"@)))
}

/// What a field of kind `kind` shows and holds for a `value` that is neither
/// `null` nor an empty array; `None` where the value is not of the shape that
/// the kind requires.
pub open spec fn rendering_by_kind(kind: FieldKind, value: JsonView) -> Option<Rendering> {
    match kind {
        FieldKind::Simple => match value.as_text() {
            Some(s) => Some(Rendering { text: s, value: Some(JsonView::Str(s)), values: None }),
            None => None,
        },
        FieldKind::Date => match value.as_int() {
            Some(millis) => match date_text(millis) {
                Some(date) => Some(
                    Rendering { text: date, value: Some(JsonView::Int(millis)), values: None },
                ),
                None => None,
            },
            None => None,
        },
        FieldKind::Period => match text_member(value, "presentation"@) {
            Some(shown) => Some(Rendering { text: shown, value: Some(value), values: None }),
            None => None,
        },
        FieldKind::Other => match value {
            JsonView::Array(items) => match names_of(items) {
                Some(names) => Some(
                    Rendering { text: joined(names, ", "@), value: None, values: Some(items) },
                ),
                None => None,
            },
            _ => match text_member(value, "name"@) {
                Some(name) => Some(Rendering { text: name, value: Some(value), values: None }),
                None => None,
            },
        },
    }
}

/// What a field of kind `kind` shows and holds for its `value`. A `null`
/// shows `None` and an empty array `[None]`, whatever the kind; any other
/// value goes by the kind.
pub open spec fn rendering_of_value(kind: FieldKind, value: JsonView) -> Option<Rendering> {
    if value is Null {
        Some(Rendering { text: "None"@, value: None, values: None })
    } else if value is Array && value->Array_0.len() == 0 {
        Some(Rendering { text: "[None]"@, value: None, values: None })
    } else {
        rendering_by_kind(kind, value)
    }
}

/// What a raw field shows and holds, by its `value` and its kind; `None`
/// where it has no `value`.
pub open spec fn rendering_of(raw: JsonView) -> Option<Rendering> {
    match raw.member("value"@) {
        Some(value) => rendering_of_value(kind_of(raw), value),
        None => None,
    }
}

/// The field that a raw field describes: its `id` and `name`, both strings,
/// with what it shows and holds. `None` where `id` or `name` is absent or no
/// string, where `value` is absent, or where the value is not of the shape
/// that the kind requires.
pub open spec fn field_of(raw: JsonView) -> Option<FieldView> {
    match (text_member(raw, "id"@), text_member(raw, "name"@), rendering_of(raw)) {
        (Some(id), Some(name), Some(shown)) => Some(
            FieldView { id, name, text: shown.text, value: shown.value, values: shown.values },
        ),
        _ => None,
    }
}

/// The fields that an array of raw fields describes, in its order; `None`
/// where `raw` is no array or one of its elements describes no field.
pub open spec fn fields_of(raw: JsonView) -> Option<Seq<FieldView>> {
    match raw {
        JsonView::Array(items) => all_described::<Field>(items),
        _ => None,
    }
}

impl FieldKind {
    /// The kind that a type tag stands for.
    pub fn named(tag: &str) -> (kind: FieldKind)
        ensures
            kind == kind_named(tag@),
    {
        if same_text(tag, "SimpleIssueCustomField") {
            FieldKind::Simple
        } else if same_text(tag, "DateIssueCustomField") {
            FieldKind::Date
        } else if same_text(tag, "PeriodIssueCustomField") {
            FieldKind::Period
        } else {
            FieldKind::Other
        }
    }

    /// The kind of a raw field, by its `$type`.
    pub fn of(raw: &Json) -> (kind: FieldKind)
        ensures
            kind == kind_of(raw@),
    {
        match raw.get("$type") {
            Some(tag) => match tag.as_str() {
                Some(tag) => FieldKind::named(tag),
                None => FieldKind::Other,
            },
            None => FieldKind::Other,
        }
    }
}

/// The names of `items`, joined by a comma and a space. That one of them is
/// no object with a string `name` is a violation of the schema.
fn joined_names(items: &Vec<Json>) -> (text: Result<String, Error>)
    ensures
        match text {
            Ok(t) => names_of(views(items@)) matches Some(names) && t@ == joined(names, ", "@),
            Err(e) => e == Error::SchemaViolation && names_of(views(items@)) is None,
        },
{
    let ghost sources = Seq::new(items@.len(), |i: int| text_member(views(items@)[i], "name"@));
    let ghost mut names: Seq<Seq<char>> = Seq::empty();
    let mut text = String::new();
    let mut i: usize = 0;
    while i < items.len()
        invariant
            i <= items.len(),
            sources == Seq::new(items@.len(), |j: int| text_member(views(items@)[j], "name"@)),
            names.len() == i,
            forall|j: int| 0 <= j < i ==> (#[trigger] sources[j]) == Some(names[j]),
            text@ == joined(names, ", "@),
        decreases items.len() - i,
    {
        let name = match optional_str(&items[i], "name") {
            Some(name) => name,
            None => {
                assert(sources[i as int] is None);
                return Err(Error::SchemaViolation);
            },
        };
        if i > 0 {
            text.append(", ");
        }
        text.append(name.as_str());
        proof {
            let longer = names.push(name@);
            assert(longer.drop_last() =~= names);
            assert(longer.last() == name@);
            if i == 0 {
                assert(text@ =~= name@);
            }
            names = longer;
        }
        i += 1;
    }
    proof {
        assert(collect(sources) is Some);
        assert(collect(sources)->Some_0 =~= names);
    }
    Ok(text)
}

impl Field {
    /// The field of a date. `date` is the rendering of the instant `millis`
    /// milliseconds after the Unix epoch, and `None` where it has none: that
    /// is a violation of the schema.
    pub fn dated(id: String, name: String, millis: i64, date: Option<String>) -> (field: Result<
        Field,
        Error,
    >)
        ensures
            match date {
                Some(shown) => field matches Ok(f) && f@ == (FieldView {
                    id: id@,
                    name: name@,
                    text: shown@,
                    value: Some(JsonView::Int(millis as int)),
                    values: None,
                }),
                None => field == Err::<Field, Error>(Error::SchemaViolation),
            },
    {
        match date {
            Some(shown) => Ok(
                Field { id, name, text: shown, value: Some(Json::Int(millis)), values: None },
            ),
            None => Err(Error::SchemaViolation),
        }
    }
}

impl Record for Field {
    open spec fn described(raw: JsonView) -> Option<FieldView> {
        field_of(raw)
    }

    fn read(raw: &Json) -> (field: Result<Field, Error>) {
        normalize_field(raw)
    }
}

/// Reads one custom field: its `id` and `name`, and by its `value` and its
/// `$type` what it shows and holds. All but `$type` are required.
pub fn normalize_field(raw: &Json) -> (field: Result<Field, Error>)
    ensures
        match field {
            Ok(f) => field_of(raw@) == Some(f@) && f@.well_formed(),
            Err(e) => e == Error::SchemaViolation && field_of(raw@) is None,
        },
{
    let id = required_str(raw, "id")?;
    let name = required_str(raw, "name")?;
    let value = match raw.get("value") {
        Some(value) => value,
        None => {
            return Err(Error::SchemaViolation);
        },
    };
    if value.is_null() {
        return Ok(Field { id, name, text: "None".to_owned(), value: None, values: None });
    }
    let items = value.as_array();
    if let Some(items) = items {
        if items.len() == 0 {
            return Ok(
                Field { id, name, text: "[None]".to_owned(), value: None, values: None },
            );
        }
    }
    match FieldKind::of(raw) {
        FieldKind::Simple => {
            let shown = match value.as_str() {
                Some(s) => s,
                None => {
                    return Err(Error::SchemaViolation);
                },
            };
            Ok(
                Field {
                    id,
                    name,
                    text: shown.to_owned(),
                    value: Some(Json::Str(shown.to_owned())),
                    values: None,
                },
            )
        },
        FieldKind::Date => {
            let millis = match value.as_i64() {
                Some(millis) => millis,
                None => {
                    return Err(Error::SchemaViolation);
                },
            };
            Field::dated(id, name, millis, render_date(millis))
        },
        FieldKind::Period => {
            let shown = required_str(value, "presentation")?;
            Ok(Field { id, name, text: shown, value: Some(value.clone()), values: None })
        },
        FieldKind::Other => match items {
            Some(items) => {
                let text = joined_names(items)?;
                let held = items.clone();
                assert(views(held@) =~= views(items@));
                Ok(Field { id, name, text, value: None, values: Some(held) })
            },
            None => {
                let shown = required_str(value, "name")?;
                Ok(Field { id, name, text: shown, value: Some(value.clone()), values: None })
            },
        },
    }
}

/// Reads the custom fields of an issue, in their order. One element that is
/// no field fails them all.
pub fn normalize_fields(raw: &Json) -> (fields: Result<Vec<Field>, Error>)
    ensures
        match fields {
            Ok(all) => fields_of(raw@) == Some(record_views(all@)),
            Err(e) => e == Error::SchemaViolation && fields_of(raw@) is None,
        },
{
    match raw.as_array() {
        Some(items) => read_all::<Field>(items),
        None => Err(Error::SchemaViolation),
    }
}

/// A raw field describes a field exactly where it has a string `id`, a
/// string `name` and a `value` that its kind can show; the field then holds
/// the two strings and what is shown and held for the value.
pub proof fn law_field_needs_id_name_and_value(raw: JsonView)
    ensures
        field_of(raw) is Some <==> {
            &&& text_member(raw, "id"@) is Some
            &&& text_member(raw, "name"@) is Some
            &&& rendering_of(raw) is Some
        },
        field_of(raw) matches Some(field) ==> {
            &&& Some(field.id) == text_member(raw, "id"@)
            &&& Some(field.name) == text_member(raw, "name"@)
            &&& rendering_of(raw) == Some(
                Rendering { text: field.text, value: field.value, values: field.values },
            )
        },
        rendering_of(raw) is Some ==> raw.member("value"@) is Some,
{
}

/// A field never holds both one value and several.
pub proof fn law_fields_are_well_formed(raw: JsonView)
    ensures
        field_of(raw) matches Some(field) ==> field.well_formed(),
{
}

/// A field whose value is `null` shows `None` and holds nothing, whatever its
/// `$type`.
pub proof fn law_null_shows_none(raw: JsonView)
    requires
        raw.member("value"@) == Some(JsonView::Null),
    ensures
        rendering_of(raw) == Some(Rendering { text: "None"@, value: None, values: None }),
        field_of(raw) is Some <==> text_member(raw, "id"@) is Some && text_member(raw, "name"@)
            is Some,
        field_of(raw) matches Some(field) ==> field.text == "None"@ && field.value is None
            && field.values is None,
{
}

/// A field whose value is an empty array shows `[None]` and holds nothing,
/// whatever its `$type`.
pub proof fn law_empty_array_shows_none(raw: JsonView)
    requires
        raw.member("value"@) == Some(JsonView::Array(Seq::empty())),
    ensures
        rendering_of(raw) == Some(Rendering { text: "[None]"@, value: None, values: None }),
        field_of(raw) is Some <==> text_member(raw, "id"@) is Some && text_member(raw, "name"@)
            is Some,
        field_of(raw) matches Some(field) ==> field.text == "[None]"@ && field.value is None
            && field.values is None,
{
}

/// A field of plain text whose value is a string shows that string as it is
/// and holds it.
pub proof fn law_simple_field_shows_its_string(raw: JsonView, shown: Seq<char>)
    requires
        kind_of(raw) == FieldKind::Simple,
        raw.member("value"@) == Some(JsonView::Str(shown)),
    ensures
        rendering_of(raw) == Some(
            Rendering { text: shown, value: Some(JsonView::Str(shown)), values: None },
        ),
{
}

/// A field of a date whose value is an integer shows the calendar date of
/// that instant and holds the integer; it describes no field where the
/// instant has no date.
pub proof fn law_date_field_shows_its_date(raw: JsonView, millis: int)
    requires
        kind_of(raw) == FieldKind::Date,
        raw.member("value"@) == Some(JsonView::Int(millis)),
    ensures
        match date_text(millis) {
            Some(date) => rendering_of(raw) == Some(
                Rendering { text: date, value: Some(JsonView::Int(millis)), values: None },
            ),
            None => rendering_of(raw) is None,
        },
{
}

/// A field of a period whose value has a string `presentation` shows that
/// presentation and holds the value as it is.
pub proof fn law_period_field_shows_its_presentation(
    raw: JsonView,
    value: JsonView,
    shown: Seq<char>,
)
    requires
        kind_of(raw) == FieldKind::Period,
        raw.member("value"@) == Some(value),
        text_member(value, "presentation"@) == Some(shown),
    ensures
        rendering_of(raw) == Some(Rendering { text: shown, value: Some(value), values: None }),
{
}

/// A field of any other kind whose value is one object with a string `name`
/// shows that name and holds the value as it is.
pub proof fn law_other_field_shows_its_name(raw: JsonView, value: JsonView, name: Seq<char>)
    requires
        kind_of(raw) == FieldKind::Other,
        raw.member("value"@) == Some(value),
        !(value is Array),
        text_member(value, "name"@) == Some(name),
    ensures
        rendering_of(raw) == Some(Rendering { text: name, value: Some(value), values: None }),
{
}

/// A field of any other kind whose value is an array of objects with string
/// names shows the names, joined by a comma and a space, and holds the
/// elements as they are.
pub proof fn law_other_field_joins_its_names(
    raw: JsonView,
    items: Seq<JsonView>,
    names: Seq<Seq<char>>,
)
    requires
        kind_of(raw) == FieldKind::Other,
        raw.member("value"@) == Some(JsonView::Array(items)),
        items.len() > 0,
        names_of(items) == Some(names),
    ensures
        rendering_of(raw) == Some(
            Rendering { text: joined(names, ", "@), value: None, values: Some(items) },
        ),
{
}

} // verus!
