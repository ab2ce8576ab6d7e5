use vstd::prelude::*;

use crate::errors::StoreError;

verus! {

#[verifier::external_type_specification]
#[verifier::external_body]
pub struct ExBcryptError(bcrypt::BcryptError);

/// What bcrypt's check of `password` against `digest` gives: `Some(m)` when
/// `digest` is a well-formed bcrypt digest, `m` telling whether it matches;
/// `None` when `digest` is malformed.
pub uninterp spec fn bcrypt_check(password: Seq<char>, digest: Seq<char>) -> Option<bool>;

/// Relies on `bcrypt::verify`: it parses cost and salt out of `digest`,
/// recomputes the hash of `password` with them and compares; the outcome
/// depends on the two arguments alone. It fails only on a malformed digest
/// (fields, prefix, cost, base64 or salt length), which is a property of
/// `digest` alone, whatever the password.
#[verifier::external_body]
fn bcrypt_verify(password: &str, digest: &str) -> (r: Result<bool, bcrypt::BcryptError>)
    ensures
        r is Ok <==> bcrypt_check(password@, digest@) is Some,
        r is Ok <==> (forall|q: Seq<char>| (#[trigger] bcrypt_check(q, digest@)) is Some),
        r matches Ok(m) ==> bcrypt_check(password@, digest@) == Some(m),
{
    bcrypt::verify(password, digest)
}

/// The prefix of a digest made at the default cost: version 2b, cost 12.
pub open spec fn digest_prefix() -> Seq<char> {
    "$2b$12$"@
}

/// Relies on `bcrypt::hash` at `bcrypt::DEFAULT_COST` (12): it draws a random
/// 16-byte salt and formats `$2b$12$`, the 22-character salt and the
/// 31-character hash, 60 characters in all. `bcrypt::verify` parses that
/// digest for any password, and for `password` recomputes the same hash from
/// the same cost and salt. It fails only when the random source does.
#[verifier::external_body]
fn bcrypt_hash(password: &str) -> (r: Result<String, bcrypt::BcryptError>)
    ensures
        r matches Ok(d) ==> bcrypt_check(password@, d@) == Some(true),
        r matches Ok(d) ==> forall|q: Seq<char>| (#[trigger] bcrypt_check(q, d@)) is Some,
        r matches Ok(d) ==> d@.len() == 60 && d@.subrange(0, 7) == digest_prefix(),
{
    bcrypt::hash(password, bcrypt::DEFAULT_COST)
}

/// A salted, work-factored one-way digest of `password`, which
/// `verify_password` accepts for that same password.
///
/// Fails with `Hashing` only when the hashing backend does. The digest is well
/// formed for every password: checking any password against it gives
/// `Ok(true)` or `Ok(false)`, never an error.
pub fn hash_password(password: &str) -> (r: Result<String, StoreError>)
    ensures
        r matches Ok(d) ==> bcrypt_check(password@, d@) == Some(true),
        r matches Ok(d) ==> forall|q: Seq<char>| (#[trigger] bcrypt_check(q, d@)) is Some,
        r matches Ok(d) ==> d@.len() == 60 && d@.subrange(0, 7) == digest_prefix(),
        r matches Ok(d) ==> (password@.len() != 60 ==> d@ != password@),
        r matches Err(e) ==> e == StoreError::Hashing,
{
    match bcrypt_hash(password) {
        Ok(d) => Ok(d),
        Err(_) => Err(StoreError::Hashing),
    }
}

/// Whether `password` matches `digest`. A mismatch is `Ok(false)`; a digest
/// that is not a well-formed bcrypt digest is a `Hashing` failure.
pub fn verify_password(password: &str, digest: &str) -> (r: Result<bool, StoreError>)
    ensures
        match bcrypt_check(password@, digest@) {
            Some(m) => r == Ok::<bool, StoreError>(m),
            None => r == Err::<bool, StoreError>(StoreError::Hashing),
        },
{
    match bcrypt_verify(password, digest) {
        Ok(m) => Ok(m),
        Err(_) => Err(StoreError::Hashing),
    }
}

} // verus!
