use vstd::prelude::*;

verus! {

/// User information retrieved from the Keycloak API; nothing of it is read.
pub struct KeycloakUserInfo {}

/// Where the Keycloak user information is requested.
pub const KEYCLOAK_USERINFO_URL: &'static str =
    "https://auth.stecgmbh.de/auth/realms/stec/protocol/openid-connect/userinfo";

/// Where signing out sends the browser.
pub const KEYCLOAK_LOGOUT_URL: &'static str =
    "https://auth.stecgmbh.de/auth/realms/stec/protocol/openid-connect/logout";

/// Where registering sends the browser.
pub const KEYCLOAK_REGISTRATION_URL: &'static str =
    "https://auth.stecgmbh.de/auth/realms/stec/protocol/openid-connect/registrations?client_id=stec_general&response_type=code&scope=openid%20email&redirect_uri=http://localhost:8000/auth/keycloak&kc_locale=en";

} // verus!
