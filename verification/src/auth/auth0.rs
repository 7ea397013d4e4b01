use vstd::prelude::*;

verus! {

/// User information retrieved from the Auth0 API.
pub struct Auth0UserInfo {
    pub name: String,
}

/// Where the Auth0 user information is requested.
pub const AUTH0_USERINFO_URL: &'static str = "https://dev-3xbzq-01.eu.auth0.com/userinfo";

} // verus!
