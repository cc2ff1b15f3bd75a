//! What to make of a response that brings no data.

use crate::options::{AddIssueComment, ApplyIssueCommand, GetIssue, UpdateIssue};
use vstd::prelude::*;
use vstd::string::StringExecFns;

verus! {

/// Whether a response of the tracker brings what was asked for: its status
/// is 200. For any other status the caller is told that the call failed.
pub fn status_is_ok(status: u16) -> (ok: bool)
    ensures
        ok == (status == 200),
{
    status == 200
}

/// `sentence`, then the identifier of the issue that it is about.
fn about_issue(sentence: &str, id: &String) -> (text: String)
    ensures
        text@ == sentence@ + id@,
{
    sentence.to_owned().concat(id.as_str())
}

/// What the caller is told where the saved queries did not come.
pub fn saved_queries_failure() -> (text: String)
    ensures
        text@ == "Youtrack saved queries can not be fetched."@,
{
    "Youtrack saved queries can not be fetched.".to_owned()
}

/// What the caller is told where the issues did not come.
pub fn issues_failure() -> (text: String)
    ensures
        text@ == "Youtrack issues can not be fetched."@,
{
    "Youtrack issues can not be fetched.".to_owned()
}

/// What the caller is told where the issue did not come.
pub fn issue_failure(options: &GetIssue) -> (text: String)
    ensures
        text@ == "Youtrack issue details can not be fetched: "@ + options.id@,
{
    about_issue("Youtrack issue details can not be fetched: ", &options.id)
}

/// What the caller is told where the issue was not created.
pub fn create_issue_failure() -> (text: String)
    ensures
        text@ == "Youtrack issue issue can not be created."@,
{
    "Youtrack issue issue can not be created.".to_owned()
}

/// What the caller is told where the issue was not changed.
pub fn update_issue_failure(options: &UpdateIssue) -> (text: String)
    ensures
        text@ == "Youtrack issue issue can not be updated: "@ + options.id@,
{
    about_issue("Youtrack issue issue can not be updated: ", &options.id)
}

/// What the caller is told where the command was not applied.
pub fn apply_issue_command_failure(options: &ApplyIssueCommand) -> (text: String)
    ensures
        text@ == "Youtrack issue command can not be applied: "@ + options.id@,
{
    about_issue("Youtrack issue command can not be applied: ", &options.id)
}

/// What the caller is told where the comment was not added.
pub fn add_issue_comment_failure(options: &AddIssueComment) -> (text: String)
    ensures
        text@ == "Youtrack issue comment can not be added: "@ + options.id@,
{
    about_issue("Youtrack issue comment can not be added: ", &options.id)
}

/// What the caller is told where the projects did not come.
pub fn projects_failure() -> (text: String)
    ensures
        text@ == "Youtrack projects can not be fetched."@,
{
    "Youtrack projects can not be fetched.".to_owned()
}

} // verus!
