use vstd::prelude::*;

pub mod github;

verus! {

/// The issue-tracker service a client talks to.
#[derive(Debug, Clone, Copy, PartialEq, Eq, Structural)]
pub enum Provider {
    GitHub,
    GitLab,
}

/// The API base URL used when the configuration names none.
pub open spec fn default_base_spec(provider: Provider) -> Seq<char> {
    match provider {
        Provider::GitHub => "https://api.github.com"@,
        Provider::GitLab => "https://gitlab.com/api/v4"@,
    }
}

impl Provider {
    pub fn default_base(&self) -> (r: &'static str)
        ensures
            r@ == default_base_spec(*self),
    {
        match self {
            Provider::GitHub => "https://api.github.com",
            Provider::GitLab => "https://gitlab.com/api/v4",
        }
    }
}

/// One issue as the engine's callers see it, whatever the provider:
/// `number` is the GitHub number or the GitLab iid, `url` the page URL.
#[derive(Debug, Clone)]
pub struct Issue {
    pub id: u64,
    pub number: u64,
    pub title: String,
    pub state: String,
    pub url: String,
}

/// One comment on an issue.
#[derive(Debug, Clone)]
pub struct Comment {
    pub id: u64,
    pub body: String,
    pub url: Option<String>,
}

/// The percent-encoded form of a text.
pub uninterp spec fn url_encoded(s: Seq<char>) -> Seq<char>;

/// Relies on urlencoding::encode: percent-encodes every byte except the
/// ASCII alphanumerics and `-`, `_`, `.`, `~`; the result depends on the
/// text alone, and an empty text stays empty.
#[verifier::external_body]
fn url_encode(s: &str) -> (r: String)
    ensures
        r@ == url_encoded(s@),
        s@.len() == 0 ==> r@.len() == 0,
{
    urlencoding::encode(s).into_owned()
}

/// The URL path segment naming a GitLab project: `owner/repo`,
/// percent-encoded as a single segment.
pub fn project_path_gitlab(owner: &str, repo: &str) -> (r: String)
    ensures
        r@ == url_encoded(owner@ + "/"@ + repo@),
{
    let joined = String::from_str(owner).concat("/").concat(repo);
    proof {
        assert(joined@ =~= owner@ + "/"@ + repo@);
    }
    url_encode(joined.as_str())
}

} // verus!
