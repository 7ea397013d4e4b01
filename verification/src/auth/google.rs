use vstd::prelude::*;
use vstd::string::*;

verus! {

/// User information retrieved from the Google People API: for each entry of
/// `names`, its `displayName` where that is a string.
pub struct GoogleUserInfo {
    pub names: Vec<Option<String>>,
}

/// Where the Google user information is requested.
pub const GOOGLE_PEOPLE_URL: &'static str =
    "https://people.googleapis.com/v1/people/me?personFields=names";

impl GoogleUserInfo {
    /// The display name of the first entry, or the empty text where there is
    /// no entry or the first has no display name.
    pub fn real_name(&self) -> (name: String)
        ensures
            name@ == (if self.names@.len() > 0 && self.names@[0] is Some {
                self.names@[0]->0@
            } else {
                Seq::<char>::empty()
            }),
    {
        proof {
            reveal_strlit("");
        }
        if self.names.len() > 0 {
            match &self.names[0] {
                Some(n) => {
                    return n.clone();
                },
                None => {},
            }
        }
        String::from_str("")
    }
}

} // verus!
