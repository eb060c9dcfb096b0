//! Credential hasher: turns a password into a salted Argon2 record in PHC
//! string form, and checks a password against such a record.

use crate::errors::InternalFailure;
use argon2::password_hash::{PasswordHash, SaltString};
use argon2::{Argon2, PasswordHasher, PasswordVerifier};
use rand_core::OsRng;
use vstd::prelude::*;

verus! {

/// The error type of the password hashing crate; nothing is read from it.
#[verifier::external_type_specification]
#[verifier::external_body]
pub struct ExPasswordHashError(argon2::password_hash::Error);

/// The PHC string that Argon2 with its default parameters computes for a
/// password under a salt given in the PHC alphabet, or `None` where it
/// refuses the pair.
pub uninterp spec fn argon2_phc(password: Seq<char>, salt: Seq<char>) -> Option<Seq<char>>;

/// Whether a text parses as a PHC string.
pub uninterp spec fn phc_parses(hash: Seq<char>) -> bool;

/// Whether Argon2, run with the parameters and salt that the PHC string
/// `hash` carries, reproduces the output stored in it from `password`.
pub uninterp spec fn argon2_accepts(password: Seq<char>, hash: Seq<char>) -> bool;

/// Whether the stored record `hash` accepts `password`: the record is a
/// well-formed PHC string and recomputing it from `password` gives the
/// stored output. A malformed record accepts nothing.
pub open spec fn password_matches(password: Seq<char>, hash: Seq<char>) -> bool {
    phc_parses(hash) && argon2_accepts(password, hash)
}

/// Whether `hash` is the record of `password` under some salt.
pub open spec fn is_record_of(password: Seq<char>, hash: Seq<char>) -> bool {
    exists|salt: Seq<char>| #[trigger] argon2_phc(password, salt) == Some(hash)
}

/// `SaltString::generate` on the operating system's generator: sixteen
/// random bytes, encoded. The salt differs from call to call, so nothing
/// is claimed of it. The call panics where the operating system gives no
/// random bytes.
#[verifier::external_body]
fn fresh_salt() -> (salt: String) {
    SaltString::generate(&mut OsRng).as_str().to_owned()
}

/// `Argon2::default().hash_password` under the salt `salt`, rendered as a
/// PHC string. Trusted: the outcome is a function of password and salt
/// alone, and the string it renders parses again and verifies against the
/// same password.
#[verifier::external_body]
fn argon2_hash(password: &str, salt: &str) -> (res: Result<String, argon2::password_hash::Error>)
    ensures
        res is Ok <==> argon2_phc(password@, salt@) is Some,
        res matches Ok(h) ==> argon2_phc(password@, salt@) == Some(h@),
        res matches Ok(h) ==> password_matches(password@, h@),
{
    let salt = SaltString::from_b64(salt)?;
    Ok(Argon2::default().hash_password(password.as_bytes(), &salt)?.to_string())
}

/// `PasswordHash::new`: whether the text parses as a PHC string.
#[verifier::external_body]
fn phc_well_formed(hash: &str) -> (ok: bool)
    ensures
        ok == phc_parses(hash@),
{
    PasswordHash::new(hash).is_ok()
}

/// `Argon2::default().verify_password` on the parsed form of `hash`:
/// whether recomputing from `password` reproduces the stored output.
#[verifier::external_body]
fn argon2_verify(password: &str, hash: &str) -> (ok: bool)
    requires
        phc_parses(hash@),
    ensures
        ok == argon2_accepts(password@, hash@),
{
    match PasswordHash::new(hash) {
        Ok(parsed) => Argon2::default().verify_password(password.as_bytes(), &parsed).is_ok(),
        Err(_) => false,
    }
}

/// Hashes `password` under the given salt.
pub fn hash_password_with_salt(password: &str, salt: &str) -> (res: Result<String, InternalFailure>)
    ensures
        match res {
            Ok(h) => argon2_phc(password@, salt@) == Some(h@) && password_matches(password@, h@),
            Err(_) => argon2_phc(password@, salt@) is None,
        },
{
    match argon2_hash(password, salt) {
        Ok(record) => Ok(record),
        Err(_) => Err(InternalFailure),
    }
}

/// Hashes `password` under a freshly drawn salt: whichever salt was drawn,
/// the outcome is that of hashing under it, and a record accepts `password`.
pub fn hash_password(password: &str) -> (res: Result<String, InternalFailure>)
    ensures
        exists|salt: Seq<char>| #[trigger] is_hashing_under(record_text(res), password@, salt),
        res matches Ok(h) ==> is_record_of(password@, h@) && password_matches(password@, h@),
{
    let salt = fresh_salt();
    let res = hash_password_with_salt(password, salt.as_str());
    assert(is_hashing_under(record_text(res), password@, salt@));
    res
}

/// The record that a hashing handed back, where it handed one back.
pub open spec fn record_text(res: Result<String, InternalFailure>) -> Option<Seq<char>> {
    match res {
        Ok(record) => Some(record@),
        Err(_) => None,
    }
}

/// Whether `outcome` is what hashing `password` under `salt` gives: the
/// record that Argon2 computes for the pair, which accepts `password`, or
/// none where Argon2 refuses the pair.
pub open spec fn is_hashing_under(
    outcome: Option<Seq<char>>,
    password: Seq<char>,
    salt: Seq<char>,
) -> bool {
    &&& outcome == argon2_phc(password, salt)
    &&& outcome matches Some(record) ==> password_matches(password, record)
}

/// Checks `password` against a stored record. A malformed record gives
/// `false`.
pub fn verify_password(password: &str, hash: &str) -> (ok: bool)
    ensures
        ok == password_matches(password@, hash@),
{
    if !phc_well_formed(hash) {
        return false;
    }
    argon2_verify(password, hash)
}

} // verus!
