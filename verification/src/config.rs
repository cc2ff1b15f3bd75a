//! The configuration of the client, and what is checked of it.

use crate::error::Error;
use vstd::prelude::*;
use vstd::string::StringExecFns;

verus! {

/// Which custom fields come with the issues of a list.
#[derive(Debug, PartialEq, Eq)]
pub struct ConfigIssuesIssues {
    pub fields: Vec<String>,
}

/// Which custom fields come with one issue.
#[derive(Debug, PartialEq, Eq)]
pub struct ConfigIssuesIssue {
    pub fields: Vec<String>,
}

/// How the tracker is reached, and what is asked of it.
#[derive(Debug, PartialEq, Eq)]
pub struct Config {
    /// The address of the tracker: a full URL.
    pub url: String,
    /// The token that the tracker gave to the user.
    pub token: String,
    pub issues: ConfigIssuesIssues,
    pub issue: ConfigIssuesIssue,
}

impl Clone for ConfigIssuesIssues {
    fn clone(&self) -> (copy: Self)
        ensures
            copy.fields@ == self.fields@,
    {
        ConfigIssuesIssues { fields: self.fields.clone() }
    }
}

impl Clone for ConfigIssuesIssue {
    fn clone(&self) -> (copy: Self)
        ensures
            copy.fields@ == self.fields@,
    {
        ConfigIssuesIssue { fields: self.fields.clone() }
    }
}

impl Clone for Config {
    fn clone(&self) -> (copy: Self)
        ensures
            copy.url == self.url,
            copy.token == self.token,
            copy.issues.fields@ == self.issues.fields@,
            copy.issue.fields@ == self.issue.fields@,
    {
        Config {
            url: self.url.clone(),
            token: self.token.clone(),
            issues: self.issues.clone(),
            issue: self.issue.clone(),
        }
    }
}

/// Whether the validator crate takes `text` for a URL.
pub uninterp spec fn is_url(text: Seq<char>) -> bool;

/// Calls `validator::ValidateUrl::validate_url` on a string slice.
///
/// Trusted: the answer is a function of the text alone, which `is_url` names.
/// Nothing is claimed of which texts are URLs.
#[verifier::external_body]
fn validates_as_url(text: &str) -> (valid: bool)
    ensures
        valid == is_url(text@),
{
    validator::ValidateUrl::validate_url(text)
}

/// The verdict on an address, given whether it is a URL: an address that is
/// none is refused.
pub fn url_verdict(valid: bool) -> (verdict: Result<(), Error>)
    ensures
        verdict == if valid {
            Ok::<(), Error>(())
        } else {
            Err::<(), Error>(Error::InvalidUrl)
        },
{
    if valid {
        Ok(())
    } else {
        Err(Error::InvalidUrl)
    }
}

impl Config {
    /// Checks that the address of the tracker is a full URL.
    pub fn validate(&self) -> (verdict: Result<(), Error>)
        ensures
            verdict == if is_url(self.url@) {
                Ok::<(), Error>(())
            } else {
                Err::<(), Error>(Error::InvalidUrl)
            },
    {
        url_verdict(validates_as_url(self.url.as_str()))
    }

    /// What the `Authorization` header of each request holds: the word
    /// `Bearer`, a space, and the token.
    pub fn authorization(&self) -> (header: String)
        ensures
            header@ == "Bearer "@ + self.token@,
    {
        "Bearer ".to_owned().concat(self.token.as_str())
    }
}

} // verus!
