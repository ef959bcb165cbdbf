//! A labeled user account record: two identifying strings, a sign-in
//! counter, and an activity flag, with constructors that fill in defaults
//! and a derived construction that keeps the source's remaining fields.

use vstd::prelude::*;

verus! {

/// A user account record.
pub struct User {
    pub username: String,
    pub email: String,
    pub sign_in_count: u64,
    pub active: bool,
}

impl User {
    /// Builds a record from its identifying strings, with a fresh account's
    /// defaults for the rest: active, with a single sign-in.
    pub fn build_user(email: String, username: String) -> (user: User)
        ensures
            user.email@ == email@,
            user.username@ == username@,
            user.active,
            user.sign_in_count == 1,
    {
        User { email, username, active: true, sign_in_count: 1 }
    }

    /// Derives a record with new identifying strings; every field not given
    /// here keeps, unchanged, the value it has in `self`.
    pub fn with_identity(self, email: String, username: String) -> (user: User)
        ensures
            user.email@ == email@,
            user.username@ == username@,
            user.active == self.active,
            user.sign_in_count == self.sign_in_count,
    {
        User { email, username, ..self }
    }

    /// Replaces the email address; every other field is unchanged.
    pub fn set_email(&mut self, email: String)
        ensures
            final(self).email@ == email@,
            final(self).username == old(self).username,
            final(self).active == old(self).active,
            final(self).sign_in_count == old(self).sign_in_count,
    {
        self.email = email;
    }
}

} // verus!
