use vstd::prelude::*;

verus! {

/// One issue as GitHub's issue listing returns it.
#[derive(Debug, Clone)]
pub struct Issue {
    pub id: u64,
    pub number: u64,
    pub title: String,
    pub state: String,
    pub html_url: String,
    pub body: Option<String>,
    pub user: User,
}

/// The author of an issue.
#[derive(Debug, Clone)]
pub struct User {
    pub login: String,
    pub id: u64,
    pub avatar_url: String,
}

/// Whether an item of the listing is a plain issue or a pull request.
#[derive(Debug, Clone, Copy, PartialEq, Eq, Structural)]
pub enum GithubIssueType {
    Issue,
    PullRequest,
}

/// The body of an issue-creation request.
#[derive(Debug, Clone)]
pub struct GithubIssueRequest {}

/// The few fields of an issue that the commit wizard shows.
#[derive(Debug, Clone)]
pub struct GithubIssue {
    pub title: String,
    pub number: u32,
}

} // verus!
