//! Repository records of the GitHub API and the addresses under which they
//! are requested.

use vstd::prelude::*;

verus! {

/// Metadata of one repository, as the GitHub API reports it.
#[derive(Clone, Debug, PartialEq)]
pub struct GitHubRepo {
    pub name: String,
    pub description: Option<String>,
    pub html_url: String,
    pub homepage: Option<String>,
    pub language: Option<String>,
    pub stargazers_count: u32,
    pub forks_count: u32,
    pub open_issues_count: u32,
    pub created_at: String,
    pub updated_at: String,
    pub topics: Vec<String>,
}

/// Kind of account that owns repositories.
#[derive(Clone, Debug)]
pub enum GitHubAccountType {
    User,
    Organization,
}

/// Path segment of the API under which accounts of a kind are found.
pub open spec fn account_segment(account_type: GitHubAccountType) -> Seq<char> {
    match account_type {
        GitHubAccountType::User => "users"@,
        GitHubAccountType::Organization => "orgs"@,
    }
}

/// Short tag of an account kind, as used in cache keys.
pub open spec fn account_tag(account_type: GitHubAccountType) -> Seq<char> {
    match account_type {
        GitHubAccountType::User => "user"@,
        GitHubAccountType::Organization => "org"@,
    }
}

/// Address that lists the repositories of an account, a hundred per page,
/// the most recently updated first.
pub open spec fn repos_address(account_type: GitHubAccountType, name: Seq<char>) -> Seq<char> {
    "https://api.github.com/"@ + account_segment(account_type) + "/"@ + name
        + "/repos?per_page=100&sort=updated"@
}

/// Address of the README of a repository.
pub open spec fn readme_address(owner: Seq<char>, repo: Seq<char>) -> Seq<char> {
    "https://api.github.com/repos/"@ + owner + "/"@ + repo + "/readme"@
}

/// Key under which the repositories of an account are cached.
pub open spec fn cache_key(account_type: GitHubAccountType, name: Seq<char>) -> Seq<char> {
    "github_repos_"@ + account_tag(account_type) + "_"@ + name
}

/// Builds the address that lists the repositories of an account.
pub fn repos_url(account_type: &GitHubAccountType, account_name: &str) -> (r: String)
    ensures
        r@ == repos_address(*account_type, account_name@),
{
    let mut url = "https://api.github.com/".to_owned();
    match account_type {
        GitHubAccountType::User => url.append("users"),
        GitHubAccountType::Organization => url.append("orgs"),
    }
    url.append("/");
    url.append(account_name);
    url.append("/repos?per_page=100&sort=updated");
    url
}

/// Builds the address of the README of a repository.
pub fn readme_url(owner: &str, repo: &str) -> (r: String)
    ensures
        r@ == readme_address(owner@, repo@),
{
    let mut url = "https://api.github.com/repos/".to_owned();
    url.append(owner);
    url.append("/");
    url.append(repo);
    url.append("/readme");
    url
}

/// Builds the key under which the repositories of an account are cached.
pub fn repos_cache_key(account_type: &GitHubAccountType, account_name: &str) -> (r: String)
    ensures
        r@ == cache_key(*account_type, account_name@),
{
    let mut key = "github_repos_".to_owned();
    match account_type {
        GitHubAccountType::User => key.append("user"),
        GitHubAccountType::Organization => key.append("org"),
    }
    key.append("_");
    key.append(account_name);
    key
}

} // verus!
