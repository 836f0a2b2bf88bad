//! What a user account needs before its key material can be made.

use vstd::prelude::*;
use vstd::string::*;

use crate::storage::service::{blank, is_blank};

verus! {

pub open spec fn password_required_message() -> Seq<char> {
    "password is required for user key material"@
}

/// Checks the password a user is created with: one that is empty once surrounding
/// whitespace is trimmed is refused, since the user's key material is protected by it.
pub fn check_user_password(password: &str) -> (r: Result<(), String>)
    ensures
        blank(password@) ==> (r matches Err(m) && m@ == password_required_message()),
        !blank(password@) ==> r is Ok,
{
    if is_blank(password) {
        Err(String::from_str("password is required for user key material"))
    } else {
        Ok(())
    }
}

} // verus!
