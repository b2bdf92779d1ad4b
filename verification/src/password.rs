//! Password hashing and verification, done by the bcrypt crate behind
//! trusted wrappers.

use vstd::prelude::*;

verus! {

#[verifier::external_type_specification]
#[verifier::external_body]
pub struct ExBcryptError(bcrypt::BcryptError);

/// What `bcrypt::verify` returns for a given password and stored hash:
/// `Some(outcome)` when the stored text parses as a bcrypt hash, `None` when
/// verification errs. The salt and cost are read back out of the stored hash,
/// so the outcome is a pure function of the two texts.
pub uninterp spec fn bcrypt_verify_result(password: Seq<char>, hashed: Seq<char>) -> Option<bool>;

/// Hashes passwords and checks passwords against stored hashes.
pub struct PasswordHasher;

impl PasswordHasher {
    /// Hashes a password with bcrypt at the fixed low cost used here.
    ///
    /// Relies on bcrypt::hash: a successful result is the 60-character bcrypt
    /// hash string. The salt comes from the operating system's randomness, so
    /// nothing more is promised of the result, and success is not owed.
    #[verifier::external_body]
    pub fn hash_password(&self, password: &str) -> (r: Result<String, bcrypt::BcryptError>)
        ensures
            r is Ok ==> r->Ok_0@.len() == 60,
    {
        bcrypt::hash(password, 4)
    }

    /// Verifies a password against a stored bcrypt hash.
    ///
    /// Relies on bcrypt::verify: the outcome depends on the password and the
    /// stored hash alone, and an error comes exactly when no outcome exists
    /// for the pair.
    #[verifier::external_body]
    pub fn verify_password(&self, password: &str, hashed: &str) -> (r: Result<
        bool,
        bcrypt::BcryptError,
    >)
        ensures
            r is Ok <==> bcrypt_verify_result(password@, hashed@) is Some,
            r is Ok ==> r->Ok_0 == bcrypt_verify_result(password@, hashed@)->Some_0,
    {
        bcrypt::verify(password, hashed)
    }
}

} // verus!
