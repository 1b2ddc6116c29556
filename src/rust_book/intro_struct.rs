use vstd::prelude::*;

verus! {

/// An account: whether it is active, its name and email, and how often it signed in.
pub struct User {
    pub is_active: bool,
    pub username: String,
    pub email: String,
    pub sign_in_count: u64,
}

/// A new, inactive account for `username` and `email`, counted as signed in once.
pub fn build_user(username: String, email: String) -> (r: User)
    ensures
        r.username@ == username@,
        r.email@ == email@,
        !r.is_active,
        r.sign_in_count == 1,
{
    User { username, email, is_active: false, sign_in_count: 1 }
}

} // verus!
