//! Domain data: accounts and the transient credential inputs.

use vstd::prelude::*;

verus! {

/// Spec-level image of an account.
pub ghost struct UserView {
    pub id: u128,
    pub first_name: Seq<char>,
    pub last_name: Seq<char>,
    pub email: Seq<char>,
    pub password_hash: Seq<char>,
}

/// A durable account. The identifier is process-assigned, 128-bit and random;
/// the email is the intended-unique business key; the password hash is an
/// opaque, self-describing hash-parameter string, never the raw password.
#[derive(Debug)]
pub struct User {
    pub id: u128,
    pub first_name: String,
    pub last_name: String,
    pub email: String,
    pub password_hash: String,
}

impl View for User {
    type V = UserView;

    open spec fn view(&self) -> UserView {
        UserView {
            id: self.id,
            first_name: self.first_name@,
            last_name: self.last_name@,
            email: self.email@,
            password_hash: self.password_hash@,
        }
    }
}

impl User {
    /// An owned copy of this account record.
    pub fn duplicate(&self) -> (r: User)
        ensures
            r@ == self@,
    {
        User {
            id: self.id,
            first_name: self.first_name.clone(),
            last_name: self.last_name.clone(),
            email: self.email.clone(),
            password_hash: self.password_hash.clone(),
        }
    }
}

/// Validated sign-up input. The raw password is request-scoped and is
/// consumed exactly once by the hashing step.
pub struct SignUpData {
    pub first_name: String,
    pub last_name: String,
    pub email: String,
    pub password: String,
}

/// Validated sign-in input. Same sensitivity rule as [`SignUpData`].
pub struct SignInData {
    pub email: String,
    pub password: String,
}

} // verus!
