//! The saved queries of the tracker.

use crate::batch::{all_described, read_all, record_views, Record};
use crate::error::Error;
use crate::extract::{required_str, text_member};
use crate::json::{Json, JsonView};
use vstd::prelude::*;

verus! {

/// A search that the tracker keeps under a name.
#[derive(Debug, PartialEq, Eq)]
pub struct SavedQuery {
    /// The identifier that the server gave it.
    pub id: String,
    /// The name it is kept under.
    pub name: String,
    /// The search expression.
    pub query: String,
}

/// The mathematical value of a `SavedQuery`.
pub struct SavedQueryView {
    pub id: Seq<char>,
    pub name: Seq<char>,
    pub query: Seq<char>,
}

impl View for SavedQuery {
    type V = SavedQueryView;

    open spec fn view(&self) -> SavedQueryView {
        SavedQueryView { id: self.id@, name: self.name@, query: self.query@ }
    }
}

impl Clone for SavedQuery {
    fn clone(&self) -> (copy: Self)
        ensures
            copy@ == self@,
    {
        SavedQuery { id: self.id.clone(), name: self.name.clone(), query: self.query.clone() }
    }
}

/// The saved query that a payload describes: its `id`, `name` and `query`,
/// each of them a string. `None` where one of the three is absent or is no
/// string.
pub open spec fn saved_query_of(raw: JsonView) -> Option<SavedQueryView> {
    match (text_member(raw, "id"@), text_member(raw, "name"@), text_member(raw, "query"@)) {
        (Some(id), Some(name), Some(query)) => Some(SavedQueryView { id, name, query }),
        _ => None,
    }
}

/// The saved queries that an array of payloads describes, in its order;
/// `None` where `raw` is no array or one of its elements describes none.
pub open spec fn saved_queries_of(raw: JsonView) -> Option<Seq<SavedQueryView>> {
    match raw {
        JsonView::Array(items) => all_described::<SavedQuery>(items),
        _ => None,
    }
}

impl Record for SavedQuery {
    open spec fn described(raw: JsonView) -> Option<SavedQueryView> {
        saved_query_of(raw)
    }

    fn read(raw: &Json) -> (query: Result<SavedQuery, Error>) {
        normalize_saved_query(raw)
    }
}

/// Reads one saved query from its payload: `id`, `name` and `query`, each of
/// them required and a string.
pub fn normalize_saved_query(raw: &Json) -> (query: Result<SavedQuery, Error>)
    ensures
        match query {
            Ok(q) => saved_query_of(raw@) == Some(q@),
            Err(e) => e == Error::SchemaViolation && saved_query_of(raw@) is None,
        },
{
    let id = required_str(raw, "id")?;
    let name = required_str(raw, "name")?;
    let query = required_str(raw, "query")?;
    Ok(SavedQuery { id, name, query })
}

/// Reads the saved queries of an array of payloads. One element that is no
/// saved query fails the whole array.
pub fn normalize_saved_queries(raw: &Json) -> (queries: Result<Vec<SavedQuery>, Error>)
    ensures
        match queries {
            Ok(all) => saved_queries_of(raw@) == Some(record_views(all@)),
            Err(e) => e == Error::SchemaViolation && saved_queries_of(raw@) is None,
        },
{
    match raw.as_array() {
        Some(items) => read_all::<SavedQuery>(items),
        None => Err(Error::SchemaViolation),
    }
}

/// A payload describes a saved query exactly where its `id`, its `name` and
/// its `query` are all there and are strings; the saved query then holds the
/// three.
pub proof fn law_saved_query_needs_each_member(raw: JsonView)
    ensures
        saved_query_of(raw) is Some <==> {
            &&& text_member(raw, "id"@) is Some
            &&& text_member(raw, "name"@) is Some
            &&& text_member(raw, "query"@) is Some
        },
        saved_query_of(raw) matches Some(query) ==> {
            &&& Some(query.id) == text_member(raw, "id"@)
            &&& Some(query.name) == text_member(raw, "name"@)
            &&& Some(query.query) == text_member(raw, "query"@)
        },
{
}

} // verus!
