//! Password hashing, through bcrypt.
use crate::error::Error;
use vstd::prelude::*;

verus! {

/// What bcrypt's `verify` gives for `plain` against the stored `hash`:
/// `Some(matches)`, or `None` where it fails (a malformed hash).
pub uninterp spec fn bcrypt_verdict(plain: Seq<char>, hash: Seq<char>) -> Option<bool>;

/// `h` has the shape of a bcrypt hash of work factor `cost`: `$2b$`, the cost
/// in two digits, `$`, then 53 characters of salt and hash.
pub open spec fn bcrypt_shape(h: Seq<char>, cost: u32) -> bool {
    &&& h.len() == 60
    &&& h[0] == '$' && h[1] == '2' && h[2] == 'b' && h[3] == '$'
    &&& h[4] as u32 == '0' as u32 + cost / 10
    &&& h[5] as u32 == '0' as u32 + cost % 10
    &&& h[6] == '$'
}

/// Relies on `bcrypt::hash`: it fails on a cost outside 4..=31 and where the
/// system gives no randomness for the salt; otherwise the hash it returns
/// verifies against the same password (`bcrypt::verify` parses it back, with
/// the same salt and cost). The hash is formatted as `$2b$`, the cost in two
/// digits, `$`, the 22-character salt and the 31-character hash.
#[verifier::external_body]
fn bcrypt_hash(plain: &str, cost: u32) -> (r: Option<String>)
    ensures
        cost < 4 || cost > 31 ==> r is None,
        r matches Some(h) ==> bcrypt_verdict(plain@, h@) == Some(true) && bcrypt_shape(h@, cost),
{
    bcrypt::hash(plain, cost).ok()
}

/// Relies on `bcrypt::verify`: its result depends on the password and the
/// stored hash alone.
#[verifier::external_body]
fn bcrypt_verify(plain: &str, hash: &str) -> (r: Option<bool>)
    ensures
        r == bcrypt_verdict(plain@, hash@),
{
    bcrypt::verify(plain, hash).ok()
}

/// Hashes `password` with the work factor `cost`. A hash that comes back
/// verifies against `password`; bcrypt's own failure is `CryptoFailure`.
pub fn encrypt_string(password: &str, cost: u32) -> (r: Result<String, Error>)
    ensures
        match r {
            Ok(h) => bcrypt_verdict(password@, h@) == Some(true) && bcrypt_shape(h@, cost),
            Err(e) => e == Error::CryptoFailure,
        },
        cost < 4 || cost > 31 ==> r is Err,
{
    match bcrypt_hash(password, cost) {
        Some(h) => Ok(h),
        None => Err(Error::CryptoFailure),
    }
}

/// The outcome that a verdict of the hasher stands for.
pub open spec fn verdict_outcome(verdict: Option<bool>) -> Result<(), Error> {
    match verdict {
        Some(true) => Ok(()),
        Some(false) => Err(Error::PlainNotEqualToEncryptedString),
        None => Err(Error::CryptoFailure),
    }
}

/// The outcome of checking `plain` against the stored hash `encrypted`.
pub open spec fn password_check(plain: Seq<char>, encrypted: Seq<char>) -> Result<(), Error> {
    verdict_outcome(bcrypt_verdict(plain, encrypted))
}

/// Turns a verdict of the hasher into an outcome: a match is `Ok`, a
/// mismatch `PlainNotEqualToEncryptedString`, a failure `CryptoFailure`.
pub fn check_verdict(verdict: Option<bool>) -> (r: Result<(), Error>)
    ensures
        r == verdict_outcome(verdict),
{
    match verdict {
        Some(true) => Ok(()),
        Some(false) => Err(Error::PlainNotEqualToEncryptedString),
        None => Err(Error::CryptoFailure),
    }
}

/// Checks `plain` against the stored hash `encrypted`: a wrong password is
/// `PlainNotEqualToEncryptedString`, a hash that bcrypt cannot read is
/// `CryptoFailure`.
pub fn compare_plain_to_encrypted_string(plain: &str, encrypted: &str) -> (r: Result<(), Error>)
    ensures
        r == password_check(plain@, encrypted@),
{
    check_verdict(bcrypt_verify(plain, encrypted))
}

} // verus!
