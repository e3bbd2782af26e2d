//! What the gateways say to the remote pull-request API.
//!
//! The functions here compute the full content of the two API requests —
//! endpoint, query, headers and body — as plain values, field by field,
//! exactly as the contracts state.  Performing the HTTP call itself is the
//! caller's business.

use vstd::prelude::*;

verus! {

/// The pull-request endpoint for a repository.
pub open spec fn pulls_api_url(owner: Seq<char>, name: Seq<char>) -> Seq<char> {
    "https://api.github.com/repos/"@ + owner + "/"@ + name + "/pulls"@
}

/// An open pull request, as the search reports it.  The search only needs
/// to know whether one exists, so nothing of the answer is kept.
#[derive(Clone, PartialEq, Eq, Structural, Debug)]
pub struct FindPullRequestResponse {}

/// The search for an open pull request from `head` into `base`: a query of
/// the repository's pull-request endpoint, filtered to open pull requests
/// of exactly that pair.
pub struct PullRequestQuery {
    /// The endpoint queried.
    pub url: String,
    /// The state filter: only open pull requests.
    pub state: String,
    /// The head filter, qualified by the repository owner.
    pub head: String,
    /// The base filter.
    pub base: String,
    /// The content type asked of the API.
    pub accept: String,
    /// The API version spoken.
    pub api_version: String,
    /// The bearer credential presented.
    pub authorization: String,
    /// The client name presented.
    pub user_agent: String,
}

/// The creation of a pull request from `head` into `base`: a submission to
/// a pull-request endpoint carrying title, body and the pair.
pub struct PullRequestCreation {
    /// The endpoint submitted to.
    pub url: String,
    /// The new pull request's title.
    pub title: String,
    /// The new pull request's body text.
    pub body: String,
    /// The branch the pull request merges into.
    pub base: String,
    /// The branch the pull request merges.
    pub head: String,
    /// The content type asked of the API.
    pub accept: String,
    /// The API version spoken.
    pub api_version: String,
    /// The bearer credential presented.
    pub authorization: String,
    /// The client name presented.
    pub user_agent: String,
}

/// The full content of the search for an open pull request from `head`
/// into `base` in the given repository, authenticated by `access_token`.
pub fn find_open_pull_request_request(
    access_token: &str,
    base: &str,
    head: &str,
    repo_owner: &str,
    repo_name: &str,
) -> (r: PullRequestQuery)
    ensures
        r.url@ == pulls_api_url(repo_owner@, repo_name@),
        r.state@ == "open"@,
        r.head@ == repo_owner@ + ":"@ + head@,
        r.base@ == base@,
        r.accept@ == "application/vnd.github+json"@,
        r.api_version@ == "2022-11-28"@,
        r.authorization@ == "Bearer "@ + access_token@,
        r.user_agent@ == "stacky"@,
{
    PullRequestQuery {
        url: "https://api.github.com/repos/".to_owned().concat(repo_owner).concat("/").concat(
            repo_name,
        ).concat("/pulls"),
        state: "open".to_owned(),
        head: repo_owner.to_owned().concat(":").concat(head),
        base: base.to_owned(),
        accept: "application/vnd.github+json".to_owned(),
        api_version: "2022-11-28".to_owned(),
        authorization: "Bearer ".to_owned().concat(access_token),
        user_agent: "stacky".to_owned(),
    }
}

/// The full content of the creation of a pull request from `head` into
/// `base` at the given endpoint, authenticated by `access_token`.
pub fn create_pull_request_request(
    api_url: String,
    access_token: &str,
    base: &str,
    head: &str,
    title: &str,
) -> (r: PullRequestCreation)
    ensures
        r.url@ == api_url@,
        r.title@ == title@,
        r.body@ == "Description de la Pull Request"@,
        r.base@ == base@,
        r.head@ == head@,
        r.accept@ == "application/vnd.github+json"@,
        r.api_version@ == "2022-11-28"@,
        r.authorization@ == "Bearer "@ + access_token@,
        r.user_agent@ == "stacky"@,
{
    PullRequestCreation {
        url: api_url,
        title: title.to_owned(),
        body: "Description de la Pull Request".to_owned(),
        base: base.to_owned(),
        head: head.to_owned(),
        accept: "application/vnd.github+json".to_owned(),
        api_version: "2022-11-28".to_owned(),
        authorization: "Bearer ".to_owned().concat(access_token),
        user_agent: "stacky".to_owned(),
    }
}

} // verus!
