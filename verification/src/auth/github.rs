use vstd::prelude::*;

verus! {

/// User information retrieved from the GitHub API.
pub struct GitHubUserInfo {
    pub name: String,
    pub email: String,
}

/// Where the GitHub user information is requested.
pub const GITHUB_USER_URL: &'static str = "https://api.github.com/user";

} // verus!
