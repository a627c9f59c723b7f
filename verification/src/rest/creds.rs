//! Manager credentials.

use vstd::prelude::*;

verus! {

/// The credentials of a manager: those used to log into the broker's own
/// application. They cannot be printed: the password is held as it is.
#[derive(Clone, PartialEq, Eq)]
pub struct ManagerCreds {
    pub password: String,
    pub login: i64,
}

impl ManagerCreds {
    /// A copy with the same content.
    pub fn duplicate(&self) -> (copy: ManagerCreds)
        ensures
            copy.password@ == self.password@,
            copy.login == self.login,
    {
        ManagerCreds { password: self.password.clone(), login: self.login }
    }
}

} // verus!
