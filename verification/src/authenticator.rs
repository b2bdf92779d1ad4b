//! Authentication: looks the user up in the repository and checks the given
//! password against the stored hash.

use vstd::prelude::*;

use crate::password::{PasswordHasher, bcrypt_verify_result};
use crate::user_repository::{UserRepository, stored_hash_text};

verus! {

/// Authenticates users with a `PasswordHasher` and a `UserRepository`.
pub struct Authenticator<'a> {
    password_hasher: &'a PasswordHasher,
    user_repo: &'a UserRepository,
}

impl<'a> Authenticator<'a> {
    /// An authenticator over the given hasher and repository.
    pub fn new(password_hasher: &'a PasswordHasher, user_repo: &'a UserRepository) -> Self {
        Authenticator { password_hasher, user_repo }
    }

    /// Checks the password against the user's stored hash: the verification
    /// outcome where one exists, and the verification error otherwise. The
    /// repository resolves every username, so no lookup failure can surface.
    pub fn authenticate(&self, username: &str, password: &str) -> (r: Result<bool, &'static str>)
        ensures
            r is Ok <==> bcrypt_verify_result(password@, stored_hash_text()) is Some,
            r is Ok ==> r->Ok_0 == bcrypt_verify_result(password@, stored_hash_text())->Some_0,
            r is Err ==> r->Err_0@ == "Failed to verify password"@,
    {
        if let Some((_stored_name, hashed_password)) = self.user_repo.get_user(username) {
            match self.password_hasher.verify_password(password, hashed_password.as_str()) {
                Ok(outcome) => Ok(outcome),
                Err(_) => Err("Failed to verify password"),
            }
        } else {
            Err("User not found")
        }
    }
}

} // verus!
