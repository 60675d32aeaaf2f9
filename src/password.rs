use vstd::prelude::*;

verus! {

/// The bcrypt work factor used for stored password hashes.
pub const HASH_COST: u32 = 12;

#[verifier::external_type_specification]
#[verifier::external_body]
pub struct ExBcryptError(bcrypt::BcryptError);

/// What `bcrypt::verify` answers for a password and a stored hash: whether
/// they match, or `None` where the hash cannot be read. It depends on the two
/// texts alone.
pub uninterp spec fn bcrypt_verifies(password: Seq<char>, hash: Seq<char>) -> Option<bool>;

/// Relies on `bcrypt::verify`: it re-hashes the password with the cost and
/// salt read from `hash` and compares, failing where the hash is malformed.
/// Its time grows with the cost written in the hash.
#[verifier::external_body]
pub(crate) fn verify_password(password: &str, hash: &str) -> (r: Result<bool, bcrypt::BcryptError>)
    ensures
        match r {
            Ok(b) => bcrypt_verifies(password@, hash@) == Some(b),
            Err(_) => bcrypt_verifies(password@, hash@) is None,
        },
{
    bcrypt::verify(password, hash)
}

/// Relies on `bcrypt::hash`: it salts from the operating system's randomness,
/// so which text it returns is not known, but that text is the cost, salt and
/// digest that `bcrypt::verify` reads back and accepts for the same password;
/// it refuses a cost outside 4 to 31.
#[verifier::external_body]
pub(crate) fn hash_password(password: &str, cost: u32) -> (r: Result<String, bcrypt::BcryptError>)
    ensures
        (cost < 4 || cost > 31) ==> r is Err,
        r matches Ok(h) ==> bcrypt_verifies(password@, h@) == Some(true),
{
    bcrypt::hash(password, cost)
}

/// `bcrypt::verify`'s answer with its error folded into `None`.
pub fn password_matches(password: &str, hash: &str) -> (r: Option<bool>)
    ensures
        r == bcrypt_verifies(password@, hash@),
{
    match verify_password(password, hash) {
        Ok(b) => Some(b),
        Err(_) => None,
    }
}

} // verus!
