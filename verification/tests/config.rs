use youtrack::config::{url_verdict, Config, ConfigIssuesIssue, ConfigIssuesIssues};
use youtrack::error::Error;

fn config(url: &str, token: &str) -> Config {
    Config {
        url: url.to_string(),
        token: token.to_string(),
        issues: ConfigIssuesIssues { fields: vec![] },
        issue: ConfigIssuesIssue { fields: vec![] },
    }
}

#[test]
fn a_full_url_is_accepted() {
    assert_eq!(config("https://example.youtrack.cloud", "t").validate(), Ok(()));
    assert_eq!(config("http://localhost:8080/youtrack", "t").validate(), Ok(()));
}

#[test]
fn what_is_no_url_is_refused() {
    assert_eq!(config("example.youtrack.cloud", "t").validate(), Err(Error::InvalidUrl));
    assert_eq!(config("", "t").validate(), Err(Error::InvalidUrl));
    assert_eq!(config("/api", "t").validate(), Err(Error::InvalidUrl));
}

#[test]
fn the_verdict_goes_by_the_answer() {
    assert_eq!(url_verdict(true), Ok(()));
    assert_eq!(url_verdict(false), Err(Error::InvalidUrl));
}

#[test]
fn authorization_is_the_bearer_token() {
    assert_eq!(config("https://x.y", "perm:abc.def").authorization(), "Bearer perm:abc.def");
    assert_eq!(config("https://x.y", "").authorization(), "Bearer ");
}

#[test]
fn errors_have_a_sentence_each() {
    assert_eq!(
        Error::SchemaViolation.message(),
        "A required member of the payload is absent or of an unexpected type."
    );
    assert_eq!(Error::InvalidUrl.message(), "URL should be a full url of your Youtrack instance.");
}
