//! The projects of the tracker.

use crate::batch::{all_described, read_all, record_views, Record};
use crate::error::Error;
use crate::extract::{required_str, text_member};
use crate::json::{Json, JsonView};
use vstd::prelude::*;

verus! {

/// A project of the tracker.
#[derive(Debug, PartialEq, Eq)]
pub struct Project {
    /// The identifier that the server gave it.
    pub id: String,
    /// Its short code.
    pub name: String,
    /// The name it is shown under.
    pub text: String,
}

/// The mathematical value of a `Project`.
pub struct ProjectView {
    pub id: Seq<char>,
    pub name: Seq<char>,
    pub text: Seq<char>,
}

impl View for Project {
    type V = ProjectView;

    open spec fn view(&self) -> ProjectView {
        ProjectView { id: self.id@, name: self.name@, text: self.text@ }
    }
}

impl Clone for Project {
    fn clone(&self) -> (copy: Self)
        ensures
            copy@ == self@,
    {
        Project { id: self.id.clone(), name: self.name.clone(), text: self.text.clone() }
    }
}

/// The project that a payload describes: its `id`, its `shortName` as the
/// short code and its `name` as the display name, each of them a string.
/// `None` where one of the three is absent or is no string.
pub open spec fn project_of(raw: JsonView) -> Option<ProjectView> {
    match (text_member(raw, "id"@), text_member(raw, "shortName"@), text_member(raw, "name"@)) {
        (Some(id), Some(name), Some(text)) => Some(ProjectView { id, name, text }),
        _ => None,
    }
}

/// The projects that an array of payloads describes, in its order; `None`
/// where `raw` is no array or one of its elements describes no project.
pub open spec fn projects_of(raw: JsonView) -> Option<Seq<ProjectView>> {
    match raw {
        JsonView::Array(items) => all_described::<Project>(items),
        _ => None,
    }
}

impl Record for Project {
    open spec fn described(raw: JsonView) -> Option<ProjectView> {
        project_of(raw)
    }

    fn read(raw: &Json) -> (project: Result<Project, Error>) {
        normalize_project(raw)
    }
}

/// Reads one project from its payload: `id`, `shortName` and `name`, each of
/// them required and a string.
pub fn normalize_project(raw: &Json) -> (project: Result<Project, Error>)
    ensures
        match project {
            Ok(p) => project_of(raw@) == Some(p@),
            Err(e) => e == Error::SchemaViolation && project_of(raw@) is None,
        },
{
    let id = required_str(raw, "id")?;
    let name = required_str(raw, "shortName")?;
    let text = required_str(raw, "name")?;
    Ok(Project { id, name, text })
}

/// Reads the projects of an array of payloads. One element that is no
/// project fails the whole array.
pub fn normalize_projects(raw: &Json) -> (projects: Result<Vec<Project>, Error>)
    ensures
        match projects {
            Ok(all) => projects_of(raw@) == Some(record_views(all@)),
            Err(e) => e == Error::SchemaViolation && projects_of(raw@) is None,
        },
{
    match raw.as_array() {
        Some(items) => read_all::<Project>(items),
        None => Err(Error::SchemaViolation),
    }
}

/// A payload describes a project exactly where its `id`, its `shortName` and
/// its `name` are all there and are strings; the project then holds the
/// three, `shortName` as its name and `name` as its text.
pub proof fn law_project_needs_each_member(raw: JsonView)
    ensures
        project_of(raw) is Some <==> {
            &&& text_member(raw, "id"@) is Some
            &&& text_member(raw, "shortName"@) is Some
            &&& text_member(raw, "name"@) is Some
        },
        project_of(raw) matches Some(project) ==> {
            &&& Some(project.id) == text_member(raw, "id"@)
            &&& Some(project.name) == text_member(raw, "shortName"@)
            &&& Some(project.text) == text_member(raw, "name"@)
        },
{
}

} // verus!
