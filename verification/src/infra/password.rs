//! Password hashing. The salted, adaptive hash itself is computed by the
//! `bcrypt` crate; this module states what the rest of the library relies on.

use vstd::prelude::*;

verus! {

/// The error type of the `bcrypt` crate, carried through unread.
#[verifier::external_type_specification]
#[verifier::external_body]
pub struct ExBcryptError(bcrypt::BcryptError);

/// What `bcrypt::verify` answers for a password and a stored hash: `None`
/// where it reports an error, otherwise whether the password matches.
pub uninterp spec fn bcrypt_verdict(password: Seq<char>, hash: Seq<char>) -> Option<bool>;

/// Why a password could not be checked against a stored hash.
#[derive(Clone, Copy, Debug, PartialEq, Eq)]
pub enum HashFormatError {
    /// The stored text is not a hash this scheme can read.
    Malformed,
}

/// Whether `hash` has the shape of every hash that this library writes: sixty
/// characters that begin with the scheme `2b` and the cost 12.
pub open spec fn has_fixed_cost(hash: Seq<char>) -> bool {
    hash.len() == 60 && hash.subrange(0, 7) == "$2b$12$"@
}

/// Whether the checker gives a verdict on `hash`, never an error, whatever
/// password is checked against it.
pub open spec fn is_readable_hash(hash: Seq<char>) -> bool {
    forall|password: Seq<char>| (#[trigger] bcrypt_verdict(password, hash)) is Some
}

/// Calls `bcrypt::hash` with the crate's default cost, which is 12. The crate
/// writes the hash as `$2b$`, the cost in two digits, `$`, and 53 characters
/// of salt and digest. The salt is drawn at random, so nothing more is claimed
/// about the text. Of `bcrypt::verify` on a hash that came back two things are
/// claimed: it reports an error only for a hash text that it cannot take apart
/// or whose cost is out of range, so on this hash it gives a verdict for every
/// password; and it accepts the password that was hashed, since it reads cost
/// and salt back from the text and computes the same digest.
#[verifier::external_body]
fn bcrypt_hash(password: &str) -> (r: Result<String, bcrypt::BcryptError>)
    ensures
        r matches Ok(hash) ==> has_fixed_cost(hash@),
        r matches Ok(hash) ==> is_readable_hash(hash@),
        r matches Ok(hash) ==> bcrypt_verdict(password@, hash@) == Some(true),
{
    bcrypt::hash(password, bcrypt::DEFAULT_COST)
}

/// Calls `bcrypt::verify`. Its answer depends on the two texts alone and is
/// named by `bcrypt_verdict`.
#[verifier::external_body]
fn bcrypt_verify(password: &str, hash: &str) -> (r: Result<bool, bcrypt::BcryptError>)
    ensures
        match r {
            Ok(same) => bcrypt_verdict(password@, hash@) == Some(same),
            Err(_) => bcrypt_verdict(password@, hash@) is None,
        },
{
    bcrypt::verify(password, hash)
}

/// What the hasher hands back, as the library reports it: the hash, or nothing
/// when the hasher failed.
pub open spec fn hash_outcome(made: Result<String, bcrypt::BcryptError>) -> Option<Seq<char>> {
    match made {
        Ok(hash) => Some(hash@),
        Err(_) => None,
    }
}

/// Turns the hasher's answer into the library's: the hash text on success,
/// `None` on any failure.
pub fn hash_from(made: Result<String, bcrypt::BcryptError>) -> (r: Option<String>)
    ensures
        match r {
            Some(hash) => hash_outcome(made) == Some(hash@),
            None => hash_outcome(made) is None,
        },
{
    match made {
        Ok(hash) => Some(hash),
        Err(_) => None,
    }
}

/// What checking `password` against `hash` gives.
pub open spec fn password_check(password: Seq<char>, hash: Seq<char>) -> Result<
    bool,
    HashFormatError,
> {
    match bcrypt_verdict(password, hash) {
        Some(same) => Ok(same),
        None => Err(HashFormatError::Malformed),
    }
}

/// Hashes a password with a fresh random salt and the fixed cost. A hash
/// that comes back is well-formed, so that checking any password against it
/// gives a verdict and no format error, and the password that was hashed
/// checks as correct. `None` means the hasher could not draw a salt.
pub fn hash_password(password: &str) -> (r: Option<String>)
    ensures
        r matches Some(hash) ==> has_fixed_cost(hash@),
        r matches Some(hash) ==> forall|other: Seq<char>|
            (#[trigger] password_check(other, hash@)) is Ok,
        r matches Some(hash) ==> password_check(password@, hash@) == Ok::<bool, HashFormatError>(
            true,
        ),
{
    let made = bcrypt_hash(password);
    assert(made matches Ok(hash) ==> forall|other: Seq<char>|
        (#[trigger] password_check(other, hash@)) is Ok) by {
        if let Ok(hash) = made {
            assert forall|other: Seq<char>| (#[trigger] password_check(other, hash@)) is Ok by {
                assert(bcrypt_verdict(other, hash@) is Some);
            }
        }
    }
    hash_from(made)
}

/// What the checker hands back, as the library reports it.
pub open spec fn check_outcome(checked: Result<bool, bcrypt::BcryptError>) -> Result<
    bool,
    HashFormatError,
> {
    match checked {
        Ok(same) => Ok(same),
        Err(_) => Err(HashFormatError::Malformed),
    }
}

/// Turns the checker's answer into the library's: its verdict where it gave
/// one, `HashFormatError::Malformed` for any error.
pub fn check_from(checked: Result<bool, bcrypt::BcryptError>) -> (r: Result<bool, HashFormatError>)
    ensures
        r == check_outcome(checked),
{
    match checked {
        Ok(same) => Ok(same),
        Err(_) => Err(HashFormatError::Malformed),
    }
}

/// Checks a password against a stored hash. A wrong password is `Ok(false)`;
/// a stored text that is no hash of this scheme is an error.
pub fn verify_password(password: &str, hash: &str) -> (r: Result<bool, HashFormatError>)
    ensures
        r == password_check(password@, hash@),
{
    check_from(bcrypt_verify(password, hash))
}

} // verus!
