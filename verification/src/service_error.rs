use vstd::prelude::*;
use vstd::string::*;

use crate::text::{decimal_string, decimal_text};

verus! {

/// An error reported by a remote service: its status code and its message.
#[derive(Debug)]
pub struct ServiceError {
    pub status_code: u64,
    pub message: String,
}

impl ServiceError {
    pub fn new(status_code: u64, message: String) -> (error: Self)
        ensures
            error.status_code == status_code,
            error.message@ == message@,
    {
        ServiceError { status_code, message }
    }

    /// The error as text: the status code in decimal, ` - ` and the message.
    pub fn to_string(&self) -> (text: String)
        ensures
            text@ == decimal_text(self.status_code as nat) + " - "@ + self.message@,
    {
        proof {
            reveal_strlit(" - ");
        }
        let mut text = decimal_string(self.status_code);
        text.append(" - ");
        text.append(self.message.as_str());
        text
    }
}

} // verus!
