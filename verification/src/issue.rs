//! Issues with their tags and comments.

use crate::batch::{all_described, read_all, record_views, Record};
use crate::error::Error;
use crate::extract::{optional_str, required_str, text_member};
use crate::field::{field_of, fields_of, normalize_fields, Field, FieldView};
use crate::json::{views, Json, JsonView};
use crate::project::{normalize_project, project_of, Project, ProjectView};
use crate::time::{date_time_text, render_date_time};
use vstd::prelude::*;

verus! {

/// A tag on an issue.
#[derive(Debug, PartialEq, Eq)]
pub struct Tag {
    /// The identifier that the server gave it.
    pub id: String,
    /// Its name.
    pub name: String,
    /// Its colours, as the server sent them.
    pub color: Json,
}

/// The mathematical value of a `Tag`.
pub struct TagView {
    pub id: Seq<char>,
    pub name: Seq<char>,
    pub color: JsonView,
}

impl View for Tag {
    type V = TagView;

    open spec fn view(&self) -> TagView {
        TagView { id: self.id@, name: self.name@, color: self.color@ }
    }
}

impl Clone for Tag {
    fn clone(&self) -> (copy: Self)
        ensures
            copy@ == self@,
    {
        Tag { id: self.id.clone(), name: self.name.clone(), color: self.color.clone() }
    }
}

/// A comment on an issue.
#[derive(Debug, PartialEq, Eq)]
pub struct Comment {
    /// The full name of who wrote it.
    pub author: String,
    /// What it says.
    pub text: String,
    /// When it was written: date and time of day in UTC, to the second.
    pub created_at: String,
}

/// The mathematical value of a `Comment`.
pub struct CommentView {
    pub author: Seq<char>,
    pub text: Seq<char>,
    pub created_at: Seq<char>,
}

impl View for Comment {
    type V = CommentView;

    open spec fn view(&self) -> CommentView {
        CommentView { author: self.author@, text: self.text@, created_at: self.created_at@ }
    }
}

impl Clone for Comment {
    fn clone(&self) -> (copy: Self)
        ensures
            copy@ == self@,
    {
        Comment {
            author: self.author.clone(),
            text: self.text.clone(),
            created_at: self.created_at.clone(),
        }
    }
}

/// One tracked work item.
#[derive(Debug, PartialEq, Eq)]
pub struct Issue {
    /// The identifier that the server gave it.
    pub id: String,
    /// The short code that people use for it.
    pub readable_id: String,
    /// Its title.
    pub summary: String,
    /// Its long text, where it has one.
    pub description: Option<String>,
    /// The project it belongs to.
    pub project: Project,
    /// Its custom fields, in the server's order.
    pub fields: Vec<Field>,
    /// Its tags, in the server's order.
    pub tags: Vec<Tag>,
    /// Its comments, the last that the server sent first; `None` where the
    /// server sent no array of comments.
    pub comments: Option<Vec<Comment>>,
}

/// The mathematical value of an `Issue`.
pub struct IssueView {
    pub id: Seq<char>,
    pub readable_id: Seq<char>,
    pub summary: Seq<char>,
    pub description: Option<Seq<char>>,
    pub project: ProjectView,
    pub fields: Seq<FieldView>,
    pub tags: Seq<TagView>,
    pub comments: Option<Seq<CommentView>>,
}

impl View for Issue {
    type V = IssueView;

    open spec fn view(&self) -> IssueView {
        IssueView {
            id: self.id@,
            readable_id: self.readable_id@,
            summary: self.summary@,
            description: match self.description {
                Some(d) => Some(d@),
                None => None,
            },
            project: self.project@,
            fields: record_views(self.fields@),
            tags: record_views(self.tags@),
            comments: match self.comments {
                Some(cs) => Some(record_views(cs@)),
                None => None,
            },
        }
    }
}

impl Clone for Issue {
    fn clone(&self) -> (copy: Self)
        ensures
            copy@ == self@,
    {
        let description = match &self.description {
            Some(d) => Some(d.clone()),
            None => None,
        };
        let fields = self.fields.clone();
        let tags = self.tags.clone();
        let comments = match &self.comments {
            Some(cs) => {
                let held = cs.clone();
                assert(record_views(held@) =~= record_views(cs@));
                Some(held)
            },
            None => None,
        };
        assert(record_views(fields@) =~= record_views(self.fields@));
        assert(record_views(tags@) =~= record_views(self.tags@));
        Issue {
            id: self.id.clone(),
            readable_id: self.readable_id.clone(),
            summary: self.summary.clone(),
            description,
            project: self.project.clone(),
            fields,
            tags,
            comments,
        }
    }
}

/// The tag that a payload describes: its `id` and `name`, both strings, and
/// its `color`, whatever that holds. `None` where one of the three is absent
/// or `id` or `name` is no string.
pub open spec fn tag_of(raw: JsonView) -> Option<TagView> {
    match (text_member(raw, "id"@), text_member(raw, "name"@), raw.member("color"@)) {
        (Some(id), Some(name), Some(color)) => Some(TagView { id, name, color }),
        _ => None,
    }
}

/// When a raw comment was written: the rendering of its `created`, an integer
/// of milliseconds since the Unix epoch.
pub open spec fn stamp_of(raw: JsonView) -> Option<Seq<char>> {
    match raw.member("created"@) {
        Some(created) => match created.as_int() {
            Some(millis) => date_time_text(millis),
            None => None,
        },
        None => None,
    }
}

/// Who wrote a raw comment: the `fullName` of its `author`, a string.
pub open spec fn author_of(raw: JsonView) -> Option<Seq<char>> {
    match raw.member("author"@) {
        Some(author) => text_member(author, "fullName"@),
        None => None,
    }
}

/// What a raw comment says: its `text`, and `[No text]` where that member is
/// absent or is no string.
pub open spec fn said_in(raw: JsonView) -> Seq<char> {
    match text_member(raw, "text"@) {
        Some(text) => text,
        None => "[No text]"@,
    }
}

/// The comment that a payload describes; `None` where it has no time or no
/// author to give.
pub open spec fn comment_of(raw: JsonView) -> Option<CommentView> {
    match (author_of(raw), stamp_of(raw)) {
        (Some(author), Some(created_at)) => Some(
            CommentView { author, text: said_in(raw), created_at },
        ),
        _ => None,
    }
}

/// The comments that the payloads `items` describe, in reverse: those of the
/// later payloads stand before that of the first. A payload that describes
/// no comment adds none.
pub open spec fn comments_of(items: Seq<JsonView>) -> Seq<CommentView>
    decreases items.len(),
{
    if items.len() == 0 {
        Seq::empty()
    } else {
        let later = comments_of(items.subrange(1, items.len() as int));
        match comment_of(items[0]) {
            Some(comment) => later.push(comment),
            None => later,
        }
    }
}

/// The tags of a raw issue: none where it has no `tags`, else those that the
/// array `tags` describes. `None` where `tags` is no array or one of its
/// elements describes no tag.
pub open spec fn tags_in(raw: JsonView) -> Option<Seq<TagView>> {
    match raw.member("tags"@) {
        Some(JsonView::Array(items)) => all_described::<Tag>(items),
        Some(_) => None,
        None => Some(Seq::empty()),
    }
}

/// The comments of a raw issue, where its `comments` is an array.
pub open spec fn comments_in(raw: JsonView) -> Option<Seq<CommentView>> {
    match raw.member("comments"@) {
        Some(JsonView::Array(items)) => Some(comments_of(items)),
        _ => None,
    }
}

/// The project of a raw issue: what its `project` describes.
pub open spec fn project_in(raw: JsonView) -> Option<ProjectView> {
    match raw.member("project"@) {
        Some(project) => project_of(project),
        None => None,
    }
}

/// The custom fields of a raw issue: what its `customFields` describes.
pub open spec fn fields_in(raw: JsonView) -> Option<Seq<FieldView>> {
    match raw.member("customFields"@) {
        Some(fields) => fields_of(fields),
        None => None,
    }
}

/// The issue that a payload describes. Its `id`, `idReadable` and `summary`
/// are required strings, its `project` a project, its `customFields` an array
/// of fields. Its `description` is kept where it is a string. Its `tags` may
/// be absent. Its `comments` are kept where they are an array, in reverse and
/// without those that describe no comment.
pub open spec fn issue_of(raw: JsonView) -> Option<IssueView> {
    match (
        text_member(raw, "id"@),
        text_member(raw, "idReadable"@),
        text_member(raw, "summary"@),
        project_in(raw),
        fields_in(raw),
        tags_in(raw),
    ) {
        (Some(id), Some(readable_id), Some(summary), Some(project), Some(fields), Some(tags)) => {
            Some(
                IssueView {
                    id,
                    readable_id,
                    summary,
                    description: text_member(raw, "description"@),
                    project,
                    fields,
                    tags,
                    comments: comments_in(raw),
                },
            )
        },
        _ => None,
    }
}

/// The issues that an array of payloads describes, in its order; `None`
/// where `raw` is no array or one of its elements describes no issue.
pub open spec fn issues_of(raw: JsonView) -> Option<Seq<IssueView>> {
    match raw {
        JsonView::Array(items) => all_described::<Issue>(items),
        _ => None,
    }
}

/// Reads one tag from its payload: `id` and `name`, both required and
/// strings, and `color`, required and kept as it is.
pub fn normalize_tag(raw: &Json) -> (tag: Result<Tag, Error>)
    ensures
        match tag {
            Ok(t) => tag_of(raw@) == Some(t@),
            Err(e) => e == Error::SchemaViolation && tag_of(raw@) is None,
        },
{
    let id = required_str(raw, "id")?;
    let name = required_str(raw, "name")?;
    match raw.get("color") {
        Some(color) => Ok(Tag { id, name, color: color.clone() }),
        None => Err(Error::SchemaViolation),
    }
}

impl Record for Tag {
    open spec fn described(raw: JsonView) -> Option<TagView> {
        tag_of(raw)
    }

    fn read(raw: &Json) -> (tag: Result<Tag, Error>) {
        normalize_tag(raw)
    }
}

impl Comment {
    /// The comment of `author` that says `text`. `created_at` is the
    /// rendering of the time it was written at, and `None` where that time
    /// has none: then there is no comment.
    pub fn stamped(author: String, text: String, created_at: Option<String>) -> (comment: Option<
        Comment,
    >)
        ensures
            match created_at {
                Some(at) => comment matches Some(c) && c@ == (CommentView {
                    author: author@,
                    text: text@,
                    created_at: at@,
                }),
                None => comment is None,
            },
    {
        match created_at {
            Some(at) => Some(Comment { author, text, created_at: at }),
            None => None,
        }
    }
}

/// Reads one comment from its payload: the `fullName` of its `author`, its
/// `text` or `[No text]`, and the rendering of its `created`.
pub fn normalize_comment(raw: &Json) -> (comment: Result<Comment, Error>)
    ensures
        match comment {
            Ok(c) => comment_of(raw@) == Some(c@),
            Err(e) => e == Error::SchemaViolation && comment_of(raw@) is None,
        },
{
    let author = match raw.get("author") {
        Some(author) => required_str(author, "fullName")?,
        None => {
            return Err(Error::SchemaViolation);
        },
    };
    let millis = match raw.get("created") {
        Some(created) => match created.as_i64() {
            Some(millis) => millis,
            None => {
                return Err(Error::SchemaViolation);
            },
        },
        None => {
            return Err(Error::SchemaViolation);
        },
    };
    let text = match optional_str(raw, "text") {
        Some(text) => text,
        None => "[No text]".to_owned(),
    };
    match Comment::stamped(author, text, render_date_time(millis)) {
        Some(comment) => Ok(comment),
        None => Err(Error::SchemaViolation),
    }
}

/// Reads the comments of an issue from the payloads `items`, the last of
/// them first. An element that describes no comment is left out.
pub fn normalize_comments(items: &Vec<Json>) -> (comments: Vec<Comment>)
    ensures
        record_views(comments@) == comments_of(views(items@)),
{
    let ghost all = views(items@);
    let mut out: Vec<Comment> = Vec::new();
    let mut i: usize = items.len();
    proof {
        assert(all.subrange(i as int, all.len() as int).len() == 0);
        assert(record_views(out@) =~= comments_of(all.subrange(i as int, all.len() as int)));
    }
    while i > 0
        invariant
            i <= items.len(),
            all == views(items@),
            record_views(out@) == comments_of(all.subrange(i as int, all.len() as int)),
        decreases i,
    {
        i -= 1;
        let ghost before = record_views(out@);
        let ghost rest = all.subrange(i as int, all.len() as int);
        proof {
            assert(rest[0] == items@[i as int]@);
            assert(rest.subrange(1, rest.len() as int) =~= all.subrange(
                i as int + 1,
                all.len() as int,
            ));
        }
        match normalize_comment(&items[i]) {
            Ok(comment) => {
                out.push(comment);
                assert(record_views(out@) =~= before.push(comment@));
            },
            Err(_) => {},
        }
    }
    proof {
        assert(all.subrange(0, all.len() as int) =~= all);
    }
    out
}

impl Record for Issue {
    open spec fn described(raw: JsonView) -> Option<IssueView> {
        issue_of(raw)
    }

    fn read(raw: &Json) -> (issue: Result<Issue, Error>) {
        normalize_issue(raw)
    }
}

/// Reads one issue from its payload.
pub fn normalize_issue(raw: &Json) -> (issue: Result<Issue, Error>)
    ensures
        match issue {
            Ok(i) => issue_of(raw@) == Some(i@),
            Err(e) => e == Error::SchemaViolation && issue_of(raw@) is None,
        },
{
    let id = required_str(raw, "id")?;
    let readable_id = required_str(raw, "idReadable")?;
    let summary = required_str(raw, "summary")?;
    let description = optional_str(raw, "description");
    let project = match raw.get("project") {
        Some(project) => normalize_project(project)?,
        None => {
            return Err(Error::SchemaViolation);
        },
    };
    let fields = match raw.get("customFields") {
        Some(fields) => normalize_fields(fields)?,
        None => {
            return Err(Error::SchemaViolation);
        },
    };
    let tags = match raw.get("tags") {
        Some(tags) => match tags.as_array() {
            Some(items) => read_all::<Tag>(items)?,
            None => {
                return Err(Error::SchemaViolation);
            },
        },
        None => Vec::new(),
    };
    let comments = match raw.get("comments") {
        Some(comments) => match comments.as_array() {
            Some(items) => Some(normalize_comments(items)),
            None => None,
        },
        None => None,
    };
    proof {
        if raw@.member("tags"@) is None {
            assert(record_views(tags@) =~= Seq::<TagView>::empty());
        }
    }
    Ok(Issue { id, readable_id, summary, description, project, fields, tags, comments })
}

/// Reads the issues of an array of payloads. One element that is no issue
/// fails the whole array.
pub fn normalize_issues(raw: &Json) -> (issues: Result<Vec<Issue>, Error>)
    ensures
        match issues {
            Ok(all) => issues_of(raw@) == Some(record_views(all@)),
            Err(e) => e == Error::SchemaViolation && issues_of(raw@) is None,
        },
{
    match raw.as_array() {
        Some(items) => read_all::<Issue>(items),
        None => Err(Error::SchemaViolation),
    }
}

/// Where every payload describes a comment, the comments are as many as the
/// payloads and stand in reverse: the comment at position `k` is that of the
/// payload at position `k` from the end.
pub proof fn law_comments_are_reversed(items: Seq<JsonView>)
    requires
        forall|i: int| 0 <= i < items.len() ==> comment_of(#[trigger] items[i]) is Some,
    ensures
        comments_of(items).len() == items.len(),
        forall|k: int|
            0 <= k < items.len() ==> #[trigger] comments_of(items)[k] == comment_of(
                items[items.len() - 1 - k],
            )->Some_0,
    decreases items.len(),
{
    if items.len() > 0 {
        let later = items.subrange(1, items.len() as int);
        assert forall|i: int| 0 <= i < later.len() implies comment_of(
            #[trigger] later[i],
        ) is Some by {
            assert(later[i] == items[i + 1]);
        }
        law_comments_are_reversed(later);
        assert forall|k: int| 0 <= k < items.len() implies #[trigger] comments_of(items)[k]
            == comment_of(items[items.len() - 1 - k])->Some_0 by {
            if k < later.len() {
                assert(comments_of(items)[k] == comments_of(later)[k]);
                assert(later[later.len() - 1 - k] == items[items.len() - 1 - k]);
            }
        }
    }
}

/// A payload that describes no comment leaves no trace: the comments are
/// those of the payloads without it.
pub proof fn law_broken_comment_is_left_out(items: Seq<JsonView>, at: int)
    requires
        0 <= at < items.len(),
        comment_of(items[at]) is None,
    ensures
        comments_of(items) == comments_of(items.remove(at)),
    decreases at,
{
    let later = items.subrange(1, items.len() as int);
    let without = items.remove(at);
    if at == 0 {
        assert(without =~= later);
    } else {
        assert(later[at - 1] == items[at]);
        law_broken_comment_is_left_out(later, at - 1);
        assert(without[0] == items[0]);
        assert(without.subrange(1, without.len() as int) =~= later.remove(at - 1));
    }
}

/// Whether a payload describes an issue is decided by its `id`, `idReadable`,
/// `summary`, `project`, `customFields` and `tags` alone: no comment, and no
/// `description`, can make it fail.
pub proof fn law_comments_never_fail_the_issue(raw: JsonView)
    ensures
        issue_of(raw) is Some <==> {
            &&& text_member(raw, "id"@) is Some
            &&& text_member(raw, "idReadable"@) is Some
            &&& text_member(raw, "summary"@) is Some
            &&& project_in(raw) is Some
            &&& fields_in(raw) is Some
            &&& tags_in(raw) is Some
        },
        issue_of(raw) matches Some(issue) ==> issue.comments == comments_in(raw),
{
}

/// One custom field that describes no field, as one without a string `id`,
/// fails the issue that holds it.
pub proof fn law_broken_field_fails_the_issue(raw: JsonView, fields: Seq<JsonView>, at: int)
    requires
        raw.member("customFields"@) == Some(JsonView::Array(fields)),
        0 <= at < fields.len(),
        text_member(fields[at], "id"@) is None,
    ensures
        field_of(fields[at]) is None,
        issue_of(raw) is None,
{
    let sources = Seq::new(fields.len(), |i: int| Field::described(fields[i]));
    assert(sources[at] is None);
}

} // verus!
