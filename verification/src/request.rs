//! The requests to the tracker, as values.

use crate::json::{lemma_array_view, lemma_object_view, Json, JsonView, MemberView};
use crate::options::{
    skip_of, take_of, AddIssueComment, ApplyIssueCommand, CreateIssue, GetIssue, GetIssues,
    GetSavedQueries, Pagination, UpdateIssue,
};
use vstd::prelude::*;
use vstd::string::StringExecFns;

verus! {

/// The members of a saved query that the tracker is asked for.
pub const SAVED_QUERY_FIELDS: &'static str = "id,name,query";

/// The members of an issue that the tracker is asked for in a list.
pub const ISSUES_FIELDS: &'static str =
    "id,idReadable,summary,description,project(id,name,shortName),customFields(id,name,presentation,value(id,name,presentation,color(background,foreground))),tags(id,color(background,foreground),name)";

/// The members of an issue that the tracker is asked for when it is asked for
/// one issue: those of a list, and the comments.
pub const ISSUE_FIELDS: &'static str =
    "id,idReadable,summary,description,project(id,name,shortName),customFields(id,name,presentation,value(id,name,presentation,color(background,foreground))),tags(id,color(background,foreground),name),comments(author(fullName),text,created)";

/// The members of a project that the tracker is asked for.
pub const PROJECT_FIELDS: &'static str = "id,name,shortName";

/// How a request is made.
#[derive(Debug, Clone, Copy, PartialEq, Eq, Structural)]
pub enum Method {
    Get,
    Post,
}

/// A request to the tracker, before anything is sent.
#[derive(Debug, PartialEq, Eq)]
pub struct Request {
    pub method: Method,
    /// The segments to add to the path of the API's address, in order.
    pub path: Vec<String>,
    /// The parameters of the query string, in order: a name, and a string or
    /// an integer.
    pub query: Vec<(String, Json)>,
    /// The JSON to send, where something is sent.
    pub body: Option<Json>,
}

/// The mathematical value of a `Request`.
pub struct RequestView {
    pub method: Method,
    pub path: Seq<Seq<char>>,
    pub query: Seq<MemberView>,
    pub body: Option<JsonView>,
}

impl View for Request {
    type V = RequestView;

    open spec fn view(&self) -> RequestView {
        RequestView {
            method: self.method,
            path: Seq::new(self.path@.len(), |i: int| self.path@[i]@),
            query: crate::json::member_views(self.query@),
            body: match self.body {
                Some(body) => Some(body@),
                None => None,
            },
        }
    }
}

/// A parameter or a member whose value is a string.
pub open spec fn text_entry(name: Seq<char>, value: Seq<char>) -> MemberView {
    MemberView { name, value: JsonView::Str(value) }
}

/// A parameter whose value is an integer.
pub open spec fn int_entry(name: Seq<char>, value: int) -> MemberView {
    MemberView { name, value: JsonView::Int(value) }
}

/// A member whose value is a string, or `null` where there is none.
pub open spec fn optional_entry(name: Seq<char>, value: Option<String>) -> MemberView {
    MemberView {
        name,
        value: match value {
            Some(s) => JsonView::Str(s@),
            None => JsonView::Null,
        },
    }
}

/// The page asked of the saved queries: that of `options`, and the first
/// twenty where there are no options.
pub open spec fn saved_queries_page(options: Option<GetSavedQueries>) -> Option<Pagination> {
    match options {
        Some(o) => o.page,
        None => Some(Pagination { skip: Some(0i32), take: Some(20i32) }),
    }
}

/// The page asked of the issues: that of `options`, and the first twenty
/// where there are no options.
pub open spec fn issues_page(options: Option<GetIssues>) -> Option<Pagination> {
    match options {
        Some(o) => o.page,
        None => Some(Pagination { skip: Some(0i32), take: Some(20i32) }),
    }
}

/// The search asked of the issues: that of `options`, the empty one where
/// they name none, and the unresolved issues of the one who asks where there
/// are no options.
pub open spec fn issues_search(options: Option<GetIssues>) -> Seq<char> {
    match options {
        Some(GetIssues { query: Some(q), .. }) => q@,
        Some(_) => Seq::empty(),
        None => "for: me #Unresolved"@,
    }
}

/// The request for the list of saved queries.
pub open spec fn saved_queries_request_of(options: Option<GetSavedQueries>) -> RequestView {
    RequestView {
        method: Method::Get,
        path: seq!["savedQueries"@],
        query: seq![
            text_entry("fields"@, SAVED_QUERY_FIELDS@),
            int_entry("$top"@, take_of(saved_queries_page(options))),
            int_entry("$skip"@, skip_of(saved_queries_page(options))),
        ],
        body: None,
    }
}

/// The request for a list of issues: the search and the page of `options`,
/// and after them one `customFields` for each of `custom_fields`.
pub open spec fn issues_request_of(
    options: Option<GetIssues>,
    custom_fields: Seq<String>,
) -> RequestView {
    RequestView {
        method: Method::Get,
        path: seq!["issues"@],
        query: seq![
            text_entry("fields"@, ISSUES_FIELDS@),
            text_entry("query"@, issues_search(options)),
            int_entry("$top"@, take_of(issues_page(options))),
            int_entry("$skip"@, skip_of(issues_page(options))),
        ] + Seq::new(
            custom_fields.len(),
            |i: int| text_entry("customFields"@, custom_fields[i]@),
        ),
        body: None,
    }
}

/// The request for one issue.
pub open spec fn issue_request_of(options: GetIssue) -> RequestView {
    RequestView {
        method: Method::Get,
        path: seq!["issues"@, options.id@],
        query: seq![text_entry("fields"@, ISSUE_FIELDS@)],
        body: None,
    }
}

/// The request that creates an issue.
pub open spec fn create_issue_request_of(options: CreateIssue) -> RequestView {
    RequestView {
        method: Method::Post,
        path: seq!["issues"@],
        query: seq![text_entry("fields"@, ISSUE_FIELDS@)],
        body: Some(
            JsonView::Object(
                seq![
                    MemberView {
                        name: "project"@,
                        value: JsonView::Object(seq![text_entry("id"@, options.project@)]),
                    },
                    text_entry("summary"@, options.summary@),
                    optional_entry("description"@, options.description),
                ],
            ),
        ),
    }
}

/// The request that changes summary and description of an issue.
pub open spec fn update_issue_request_of(options: UpdateIssue) -> RequestView {
    RequestView {
        method: Method::Post,
        path: seq!["issues"@, options.id@],
        query: seq![text_entry("fields"@, ISSUE_FIELDS@)],
        body: Some(
            JsonView::Object(
                seq![
                    optional_entry("summary"@, options.summary),
                    optional_entry("description"@, options.description),
                ],
            ),
        ),
    }
}

/// The request that applies a command to an issue.
pub open spec fn apply_issue_command_request_of(options: ApplyIssueCommand) -> RequestView {
    RequestView {
        method: Method::Post,
        path: seq!["commands"@],
        query: Seq::empty(),
        body: Some(
            JsonView::Object(
                seq![
                    MemberView {
                        name: "issues"@,
                        value: JsonView::Array(
                            seq![JsonView::Object(seq![text_entry("id"@, options.id@)])],
                        ),
                    },
                    text_entry("query"@, options.query@),
                ],
            ),
        ),
    }
}

/// The request that adds a comment to an issue.
pub open spec fn add_issue_comment_request_of(options: AddIssueComment) -> RequestView {
    RequestView {
        method: Method::Post,
        path: seq!["issues"@, options.id@, "comments"@],
        query: Seq::empty(),
        body: Some(JsonView::Object(seq![text_entry("text"@, options.comment@)])),
    }
}

/// The request for the list of projects.
pub open spec fn projects_request_of() -> RequestView {
    RequestView {
        method: Method::Get,
        path: seq!["admin"@, "projects"@],
        query: seq![text_entry("fields"@, PROJECT_FIELDS@)],
        body: None,
    }
}

/// A parameter or a member whose value is the string `value`.
fn text_pair(name: &str, value: &str) -> (pair: (String, Json))
    ensures
        pair.0@ == name@,
        pair.1@ == JsonView::Str(value@),
{
    (name.to_owned(), Json::Str(value.to_owned()))
}

/// A parameter whose value is the integer `value`.
fn int_pair(name: &str, value: i32) -> (pair: (String, Json))
    ensures
        pair.0@ == name@,
        pair.1@ == JsonView::Int(value as int),
{
    (name.to_owned(), Json::Int(value as i64))
}

/// A member whose value is the string `value`, or `null` where there is none.
fn optional_pair(name: &str, value: &Option<String>) -> (pair: (String, Json))
    ensures
        pair.0@ == name@,
        pair.1@ == optional_entry(name@, *value).value,
{
    match value {
        Some(s) => (name.to_owned(), Json::Str(s.clone())),
        None => (name.to_owned(), Json::Null),
    }
}

/// An object of the given members.
fn object(members: Vec<(String, Json)>) -> (json: Json)
    ensures
        json@ == JsonView::Object(crate::json::member_views(members@)),
{
    proof {
        lemma_object_view(members);
    }
    Json::Object(members)
}

/// Makes the request for the list of saved queries.
pub fn saved_queries_request(options: Option<GetSavedQueries>) -> (request: Request)
    ensures
        request@ == saved_queries_request_of(options),
{
    let page = match options {
        Some(o) => o.page,
        None => GetSavedQueries::default().page,
    };
    let path = vec!["savedQueries".to_owned()];
    let query = vec![
        text_pair("fields", SAVED_QUERY_FIELDS),
        int_pair("$top", Pagination::take_or_default(page)),
        int_pair("$skip", Pagination::skip_or_default(page)),
    ];
    let request = Request { method: Method::Get, path, query, body: None };
    proof {
        assert(request@.path =~= saved_queries_request_of(options).path);
        assert(request@.query =~= saved_queries_request_of(options).query);
    }
    request
}

/// Makes the request for a list of issues. `custom_fields` are the custom
/// fields that the issues are to come with.
pub fn issues_request(options: &Option<GetIssues>, custom_fields: &Vec<String>) -> (request:
    Request)
    ensures
        request@ == issues_request_of(*options, custom_fields@),
{
    let page = match options {
        Some(o) => o.page,
        None => GetIssues::default().page,
    };
    let search = match options {
        Some(o) => match &o.query {
            Some(q) => q.clone(),
            None => String::new(),
        },
        None => "for: me #Unresolved".to_owned(),
    };
    let path = vec!["issues".to_owned()];
    let mut query = vec![
        text_pair("fields", ISSUES_FIELDS),
        text_pair("query", search.as_str()),
        int_pair("$top", Pagination::take_or_default(page)),
        int_pair("$skip", Pagination::skip_or_default(page)),
    ];
    let ghost fixed = crate::json::member_views(query@);
    let mut i: usize = 0;
    while i < custom_fields.len()
        invariant
            i <= custom_fields.len(),
            crate::json::member_views(query@) == fixed + Seq::new(
                i as nat,
                |j: int| text_entry("customFields"@, custom_fields@[j]@),
            ),
        decreases custom_fields.len() - i,
    {
        let ghost before = crate::json::member_views(query@);
        query.push(text_pair("customFields", custom_fields[i].as_str()));
        proof {
            assert(crate::json::member_views(query@) =~= before.push(
                text_entry("customFields"@, custom_fields@[i as int]@),
            ));
            assert(crate::json::member_views(query@) =~= fixed + Seq::new(
                (i + 1) as nat,
                |j: int| text_entry("customFields"@, custom_fields@[j]@),
            ));
        }
        i += 1;
    }
    let request = Request { method: Method::Get, path, query, body: None };
    proof {
        assert(request@.path =~= issues_request_of(*options, custom_fields@).path);
        assert(fixed =~= seq![
            text_entry("fields"@, ISSUES_FIELDS@),
            text_entry("query"@, issues_search(*options)),
            int_entry("$top"@, take_of(issues_page(*options))),
            int_entry("$skip"@, skip_of(issues_page(*options))),
        ]);
        assert(request@.query =~= issues_request_of(*options, custom_fields@).query);
    }
    request
}

/// Makes the request for one issue.
pub fn issue_request(options: &GetIssue) -> (request: Request)
    ensures
        request@ == issue_request_of(*options),
{
    let path = vec!["issues".to_owned(), options.id.clone()];
    let query = vec![text_pair("fields", ISSUE_FIELDS)];
    let request = Request { method: Method::Get, path, query, body: None };
    proof {
        assert(request@.path =~= issue_request_of(*options).path);
        assert(request@.query =~= issue_request_of(*options).query);
    }
    request
}

/// Makes the request that creates an issue.
pub fn create_issue_request(options: &CreateIssue) -> (request: Request)
    ensures
        request@ == create_issue_request_of(*options),
{
    let path = vec!["issues".to_owned()];
    let query = vec![text_pair("fields", ISSUE_FIELDS)];
    let project = vec![text_pair("id", options.project.as_str())];
    let members = vec![
        ("project".to_owned(), object(project)),
        text_pair("summary", options.summary.as_str()),
        optional_pair("description", &options.description),
    ];
    let body = object(members);
    let request = Request { method: Method::Post, path, query, body: Some(body) };
    proof {
        let wanted = create_issue_request_of(*options);
        assert(request@.path =~= wanted.path);
        assert(request@.query =~= wanted.query);
        assert(crate::json::member_views(project@) =~= seq![text_entry("id"@, options.project@)]);
        assert(crate::json::member_views(members@) =~= wanted.body->Some_0->Object_0);
    }
    request
}

/// Makes the request that changes summary and description of an issue.
pub fn update_issue_request(options: &UpdateIssue) -> (request: Request)
    ensures
        request@ == update_issue_request_of(*options),
{
    let path = vec!["issues".to_owned(), options.id.clone()];
    let query = vec![text_pair("fields", ISSUE_FIELDS)];
    let members = vec![
        optional_pair("summary", &options.summary),
        optional_pair("description", &options.description),
    ];
    let body = object(members);
    let request = Request { method: Method::Post, path, query, body: Some(body) };
    proof {
        let wanted = update_issue_request_of(*options);
        assert(request@.path =~= wanted.path);
        assert(request@.query =~= wanted.query);
        assert(crate::json::member_views(members@) =~= wanted.body->Some_0->Object_0);
    }
    request
}

/// Makes the request that applies a command to an issue.
pub fn apply_issue_command_request(options: &ApplyIssueCommand) -> (request: Request)
    ensures
        request@ == apply_issue_command_request_of(*options),
{
    let path = vec!["commands".to_owned()];
    let query: Vec<(String, Json)> = Vec::new();
    let target = vec![text_pair("id", options.id.as_str())];
    let targets = vec![object(target)];
    proof {
        lemma_array_view(targets);
    }
    let members = vec![
        ("issues".to_owned(), Json::Array(targets)),
        text_pair("query", options.query.as_str()),
    ];
    let body = object(members);
    let request = Request { method: Method::Post, path, query, body: Some(body) };
    proof {
        let wanted = apply_issue_command_request_of(*options);
        assert(request@.path =~= wanted.path);
        assert(request@.query =~= wanted.query);
        assert(crate::json::member_views(target@) =~= seq![text_entry("id"@, options.id@)]);
        assert(crate::json::views(targets@) =~= seq![
            JsonView::Object(seq![text_entry("id"@, options.id@)]),
        ]);
        assert(crate::json::member_views(members@) =~= wanted.body->Some_0->Object_0);
    }
    request
}

/// Makes the request that adds a comment to an issue.
pub fn add_issue_comment_request(options: &AddIssueComment) -> (request: Request)
    ensures
        request@ == add_issue_comment_request_of(*options),
{
    let path = vec!["issues".to_owned(), options.id.clone(), "comments".to_owned()];
    let query: Vec<(String, Json)> = Vec::new();
    let members = vec![text_pair("text", options.comment.as_str())];
    let body = object(members);
    let request = Request { method: Method::Post, path, query, body: Some(body) };
    proof {
        let wanted = add_issue_comment_request_of(*options);
        assert(request@.path =~= wanted.path);
        assert(request@.query =~= wanted.query);
        assert(crate::json::member_views(members@) =~= wanted.body->Some_0->Object_0);
    }
    request
}

/// Makes the request for the list of projects.
pub fn projects_request() -> (request: Request)
    ensures
        request@ == projects_request_of(),
{
    let path = vec!["admin".to_owned(), "projects".to_owned()];
    let query = vec![text_pair("fields", PROJECT_FIELDS)];
    let request = Request { method: Method::Get, path, query, body: None };
    proof {
        assert(request@.path =~= projects_request_of().path);
        assert(request@.query =~= projects_request_of().query);
    }
    request
}

} // verus!
