//! Hosts' passwords, kept as Argon2 hashes.

use argon2::password_hash::rand_core::{OsRng, RngCore};
use argon2::password_hash::SaltString;
use argon2::{Argon2, PasswordHasher, PasswordVerifier};
use vstd::prelude::*;
use vstd::string::*;

verus! {

/// The longest password, in bytes, that Argon2 takes.
pub const MAX_PASSWORD_BYTES: usize = 0xffff_ffff;

/// A password's hash in PHC string form. Only hashing a password makes one.
pub struct PasswordHash {
    phc: String,
}

impl View for PasswordHash {
    type V = Seq<char>;

    closed spec fn view(&self) -> Seq<char> {
        self.phc@
    }
}

/// The text of a hash, if there is one.
pub open spec fn hash_view(hash: Option<PasswordHash>) -> Option<Seq<char>> {
    match hash {
        Some(h) => Some(h@),
        None => None,
    }
}

/// The PHC string that Argon2id with its default parameters gives for a
/// password and a salt.
pub uninterp spec fn argon2_phc(password: Seq<char>, salt: Seq<u8>) -> Seq<char>;

/// Argon2 accepts the password for the PHC string.
pub uninterp spec fn argon2_accepts(password: Seq<char>, phc: Seq<char>) -> bool;

/// `RngCore::fill_bytes` of the operating system's random number generator, as
/// the `argon2` crate exports it: any bytes. Panics where the system has no
/// source of randomness.
#[verifier::external_body]
fn random_salt() -> (salt: [u8; 16]) {
    let mut salt = [0u8; 16];
    OsRng.fill_bytes(&mut salt);
    salt
}

/// `PasswordHasher::hash_password` of the `argon2` crate with default
/// parameters, on the password's UTF-8 bytes: the PHC string is determined by
/// the password and the salt, and `verify_password` accepts the password for
/// it. The crate refuses longer passwords only.
#[verifier::external_body]
fn argon2_hash(password: &str, salt: [u8; 16]) -> (hash: PasswordHash)
    requires
        password.spec_bytes().len() <= MAX_PASSWORD_BYTES,
    ensures
        hash@ == argon2_phc(password@, salt@),
        argon2_accepts(password@, hash@),
{
    let salt = SaltString::encode_b64(&salt).unwrap();
    let hash = Argon2::default().hash_password(password.as_bytes(), &salt).unwrap();
    PasswordHash { phc: hash.to_string() }
}

/// `PasswordVerifier::verify_password` of the `argon2` crate, on the password's
/// UTF-8 bytes and the hash parsed from its PHC string: whether the password is
/// accepted is determined by the two.
#[verifier::external_body]
fn argon2_verify(password: &str, hash: &PasswordHash) -> (ok: bool)
    ensures
        ok == argon2_accepts(password@, hash@),
{
    match argon2::PasswordHash::new(&hash.phc) {
        Ok(parsed) => Argon2::default().verify_password(password.as_bytes(), &parsed).is_ok(),
        Err(_) => false,
    }
}

/// The password is one that can be hashed.
pub open spec fn hashable(password: Seq<char>) -> bool {
    vstd::utf8::encode_utf8(password).len() <= MAX_PASSWORD_BYTES
}

/// Hashes a password with a given salt; `None` if it is longer than Argon2
/// takes.
pub fn hash_password_with_salt(password: &str, salt: [u8; 16]) -> (res: Option<PasswordHash>)
    ensures
        res is Some <==> hashable(password@),
        res is Some <==> vstd::utf8::encode_utf8(password@).len() <= 0xffff_ffff,
        res matches Some(hash) ==> hash@ == argon2_phc(password@, salt@) && argon2_accepts(
            password@,
            hash@,
        ),
{
    if password.as_bytes().len() > MAX_PASSWORD_BYTES {
        return None;
    }
    Some(argon2_hash(password, salt))
}

/// Hashes a password with a random salt; `None` if it is longer than Argon2
/// takes.
pub fn hash_password(password: &str) -> (res: Option<PasswordHash>)
    ensures
        res is Some <==> hashable(password@),
        res is Some <==> vstd::utf8::encode_utf8(password@).len() <= 0xffff_ffff,
        res matches Some(hash) ==> argon2_accepts(password@, hash@) && exists|salt: Seq<u8>|
            salt.len() == 16 && hash@ == #[trigger] argon2_phc(password@, salt),
{
    hash_password_with_salt(password, random_salt())
}

/// Whether the password is the one that was hashed.
pub fn verify_password(password: &str, hash: &PasswordHash) -> (ok: bool)
    ensures
        ok == argon2_accepts(password@, hash@),
{
    argon2_verify(password, hash)
}

} // verus!
