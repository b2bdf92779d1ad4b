//! The user store. Persistence is outside this library, so the store serves
//! the one example record it is specified to hold.

use vstd::prelude::*;
use vstd::string::StringExecFns;

verus! {

/// The stored password hash of the example record.
pub open spec fn stored_hash_text() -> Seq<char> {
    "$2a$04$examplehash"@
}

/// Retrieves user records by username.
pub struct UserRepository;

impl UserRepository {
    /// Looks a user up by username: every lookup finds the example record,
    /// the username itself paired with the fixed stored hash.
    pub fn get_user(&self, username: &str) -> (r: Option<(String, String)>)
        ensures
            r is Some,
            r->Some_0.0@ == username@,
            r->Some_0.1@ == stored_hash_text(),
    {
        Some((username.to_owned(), String::from_str("$2a$04$examplehash")))
    }
}

} // verus!
