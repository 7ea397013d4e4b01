use vstd::prelude::*;

verus! {

/// User information retrieved from the Microsoft Graph API.
pub struct MicrosoftUserInfo {
    pub display_name: String,
}

/// Where the Microsoft user information is requested.
pub const MICROSOFT_ME_URL: &'static str = "https://graph.microsoft.com/v1.0/me";

} // verus!
