//! The calls into argon2, russh, names and std that the library relies on.
//! Each item here is trusted: its contract is taken as true of the code it
//! calls.
use vstd::prelude::*;
use vstd::utf8::{decode_utf8, valid_utf8};
use argon2::password_hash::rand_core::OsRng;
use argon2::password_hash::{PasswordHash, PasswordHasher, PasswordVerifier, SaltString};
use argon2::Argon2;
use russh::keys::pkcs8::{decode_pkcs8, encode_pkcs8_encrypted};
use russh::keys::{Algorithm, PrivateKey};

verus! {

/// An SSH private key of russh (ssh-key's `PrivateKey`), carried opaquely.
#[verifier::external_type_specification]
#[verifier::external_body]
pub struct ExPrivateKey(PrivateKey);

/// The error of russh's key encoding and decoding.
#[verifier::external_type_specification]
#[verifier::external_body]
pub struct ExKeyError(russh::keys::Error);

/// The error of ssh-key's key generation.
#[verifier::external_type_specification]
#[verifier::external_body]
pub struct ExSshKeyError(russh::keys::ssh_key::Error);

/// The error of argon2's password hashing and verification.
#[verifier::external_type_specification]
#[verifier::external_body]
pub struct ExHashError(argon2::password_hash::Error);

/// The error of std's UTF-8 check on a byte vector.
#[verifier::external_type_specification]
#[verifier::external_body]
pub struct ExFromUtf8Error(std::string::FromUtf8Error);

/// Relies on std's `String::from_utf8`: the bytes as text when they are
/// valid UTF-8, an error otherwise.
#[verifier::external_body]
pub(crate) fn utf8_to_string(bytes: Vec<u8>) -> (r: Result<String, std::string::FromUtf8Error>)
    ensures
        r is Ok <==> valid_utf8(bytes@),
        r matches Ok(s) ==> s@ == decode_utf8(bytes@),
{
    String::from_utf8(bytes)
}

/// Whether argon2 accepts `password` against the PHC string `hash`; it
/// depends on the two strings alone.
pub uninterp spec fn password_matches(password: Seq<char>, hash: Seq<char>) -> bool;

/// Whether russh's PKCS#8 decoder, given `password`, reads a private key
/// out of `ciphertext`; it depends on the bytes and the password alone.
pub uninterp spec fn pkcs8_decrypts(ciphertext: Seq<u8>, password: Seq<char>) -> bool;

/// Relies on argon2's `PasswordHasher::hash_password` (default Argon2id
/// parameters, a salt drawn from `OsRng`): the PHC string it produces is
/// one that `verify_password` accepts for the same password, as argon2's
/// documentation shows. `PasswordHash`'s `Display` writes `$`, the
/// algorithm's name (`argon2id`, the default) and the rest after another
/// `$`. With default parameters and a generated salt it fails only on a
/// password longer than `MAX_PWD_LEN` (0xFFFFFFFF) bytes, which a password
/// of fewer than 2^30 characters cannot be.
#[verifier::external_body]
pub(crate) fn hash_password(password: &str) -> (r: Result<String, argon2::password_hash::Error>)
    ensures
        password@.len() < 0x4000_0000 ==> r is Ok,
        r matches Ok(h) ==> password_matches(password@, h@),
        r matches Ok(h) ==> h@.len() >= 10 && h@.take(10) == "$argon2id$"@,
{
    let salt = SaltString::generate(&mut OsRng);
    match Argon2::default().hash_password(password.as_bytes(), &salt) {
        Ok(hash) => Ok(hash.to_string()),
        Err(e) => Err(e),
    }
}

/// Relies on argon2's `PasswordHash::new`, which reads the PHC string, and
/// `PasswordVerifier::verify_password`, which recomputes the hash with the
/// salt and parameters that the string holds: `Ok` exactly when the
/// password matches.
#[verifier::external_body]
pub(crate) fn verify_password(password: &str, hash: &str) -> (r: Result<
    (),
    argon2::password_hash::Error,
>)
    ensures
        r is Ok <==> password_matches(password@, hash@),
{
    match PasswordHash::new(hash) {
        Ok(parsed) => Argon2::default().verify_password(password.as_bytes(), &parsed),
        Err(e) => Err(e),
    }
}

/// A private key known to be an Ed25519 key: only `random_ed25519_key`
/// makes one.
pub struct Ed25519Key {
    key: PrivateKey,
}

impl Ed25519Key {
    pub fn private_key(&self) -> &PrivateKey {
        &self.key
    }
}

/// Relies on ssh-key's `PrivateKey::random` (re-exported by russh) with
/// `OsRng`: a fresh Ed25519 key pair. For Ed25519 it always succeeds: the
/// key data is drawn without a fallible step and its public key is derived
/// from it.
#[verifier::external_body]
pub(crate) fn random_ed25519_key() -> (r: Result<Ed25519Key, russh::keys::ssh_key::Error>)
    ensures
        r is Ok,
{
    match PrivateKey::random(&mut OsRng, Algorithm::Ed25519) {
        Ok(key) => Ok(Ed25519Key { key }),
        Err(e) => Err(e),
    }
}

/// Relies on russh's `encode_pkcs8_encrypted`: the key as an encrypted
/// PKCS#8 document (PBKDF2 with `rounds` iterations, AES-256-CBC, a random
/// salt and IV), which russh's `decode_pkcs8` decrypts and reads back with
/// the same password. For an Ed25519 key it succeeds whenever pkcs5 accepts
/// the iteration count (at most 100,000,000).
#[verifier::external_body]
pub(crate) fn encrypt_key(password: &str, rounds: u32, key: &Ed25519Key) -> (r: Result<
    Vec<u8>,
    russh::keys::Error,
>)
    requires
        1 <= rounds <= 100_000_000,
    ensures
        r is Ok,
        r matches Ok(c) ==> pkcs8_decrypts(c@, password@),
{
    encode_pkcs8_encrypted(password.as_bytes(), rounds, &key.key)
}

/// Relies on russh's `decode_pkcs8` with a password: it decrypts and reads
/// the key, and succeeds or fails on the same bytes and password alike.
#[verifier::external_body]
pub(crate) fn decrypt_key(ciphertext: &Vec<u8>, password: &str) -> (r: Result<
    PrivateKey,
    russh::keys::Error,
>)
    ensures
        r is Ok <==> pkcs8_decrypts(ciphertext@, password@),
{
    decode_pkcs8(ciphertext, Some(password.as_bytes()))
}

/// Relies on names' `Generator::next` with numbered names: it draws an
/// adjective, a noun and a number, and always returns `Some`.
#[verifier::external_body]
pub(crate) fn random_name() -> (r: Option<String>)
    ensures
        r is Some,
{
    names::Generator::with_naming(names::Name::Numbered).next()
}

} // verus!
