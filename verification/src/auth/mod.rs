use vstd::prelude::*;
use vstd::string::*;

pub mod auth0;
pub mod github;
pub mod google;
pub mod keycloak;
pub mod microsoft;

verus! {

/// The signed-in user, as kept in the `user` cookie.
#[derive(Debug)]
pub struct User {
    pub name: String,
    pub email: String,
}

/// The name of the private cookie that holds the signed-in user.
pub const USER_COOKIE: &'static str = "user";

/// The value of an `Authorization` header that carries a bearer token.
pub fn bearer_authorization(access_token: &str) -> (value: String)
    ensures
        value@ == "Bearer "@ + access_token@,
{
    let mut value = String::from_str("Bearer ");
    value.append(access_token);
    value
}

/// The value of an `Authorization` header in GitHub's token scheme.
pub fn token_authorization(access_token: &str) -> (value: String)
    ensures
        value@ == "token "@ + access_token@,
{
    let mut value = String::from_str("token ");
    value.append(access_token);
    value
}

} // verus!
