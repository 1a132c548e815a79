//! Salted password hashing: a fresh random salt per credential and a
//! PBKDF2-HMAC-SHA256 hash derived from the password and that salt.

use rand::RngCore;
use vstd::prelude::*;
use vstd::utf8::encode_utf8;

verus! {

/// Length in bytes of every salt.
pub const SALT_LEN: usize = 32;

/// Length in bytes of every derived hash.
pub const HASH_LEN: usize = 32;

/// Number of PBKDF2 rounds. Fixed: stored hashes are only reproducible with
/// the count they were derived with.
pub const ITERATIONS: u32 = 100_000;

/// The key that PBKDF2 with HMAC-SHA256 as its pseudorandom function derives
/// from `password` and `salt` in `rounds` rounds, `len` bytes long.
pub uninterp spec fn pbkdf2_hmac_sha256(
    password: Seq<u8>,
    salt: Seq<u8>,
    rounds: u32,
    len: nat,
) -> Seq<u8>;

/// The hash stored for `password` under `salt`: PBKDF2-HMAC-SHA256 over the
/// UTF-8 bytes of the password, with the fixed round count and length.
pub open spec fn derived_hash(password: Seq<char>, salt: Seq<u8>) -> Seq<u8> {
    pbkdf2_hmac_sha256(encode_utf8(password), salt, ITERATIONS, HASH_LEN as nat)
}

/// Whether `salt` and `hash` are a well-formed stored credential for
/// `password`: both of the fixed lengths, the hash derived from the two.
pub open spec fn is_credential_for(password: Seq<char>, salt: Seq<u8>, hash: Seq<u8>) -> bool {
    &&& salt.len() == SALT_LEN
    &&& hash.len() == HASH_LEN
    &&& hash == derived_hash(password, salt)
}

/// Calls `pbkdf2::pbkdf2_hmac::<sha2::Sha256>` on a zeroed buffer of `len`
/// bytes and returns the buffer. Trusted: the buffer is filled entirely, and
/// what fills it depends on the three other arguments and `len` alone. The
/// bound keeps the block counter of PBKDF2 within 32 bits.
#[verifier::external_body]
fn pbkdf2_sha256(password: &[u8], salt: &[u8], rounds: u32, len: usize) -> (key: Vec<u8>)
    requires
        len <= 32 * 0xffff_ffff,
    ensures
        key@.len() == len,
        key@ == pbkdf2_hmac_sha256(password@, salt@, rounds, len as nat),
{
    let mut key = vec![0u8; len];
    pbkdf2::pbkdf2_hmac::<sha2::Sha256>(password, salt, rounds, &mut key);
    key
}

/// Calls `fill_bytes` of `rand::thread_rng()` on a zeroed buffer of `len`
/// bytes and returns the buffer. Trusted: only the length; the bytes come
/// from a generator that the operating system seeds and differ from call to
/// call. The generator panics where the operating system has no entropy to
/// seed it with.
#[verifier::external_body]
fn random_bytes(len: usize) -> (bytes: Vec<u8>)
    ensures
        bytes@.len() == len,
{
    let mut bytes = vec![0u8; len];
    rand::thread_rng().fill_bytes(&mut bytes);
    bytes
}

/// Derives the hash of `password` under a salt that is already known, as a
/// login path does with the salt it has stored.
pub fn derive_hash(password: &str, salt: &[u8]) -> (hash: Vec<u8>)
    ensures
        hash@.len() == HASH_LEN,
        hash@ == derived_hash(password@, salt@),
{
    pbkdf2_sha256(password.as_bytes(), salt, ITERATIONS, HASH_LEN)
}

/// Hashes `password` under a fresh random salt and returns the salt and the
/// hash, in that order. The caller stores both.
pub fn hash_password(password: &str) -> (credential: (Vec<u8>, Vec<u8>))
    ensures
        is_credential_for(password@, credential.0@, credential.1@),
{
    let salt = random_bytes(SALT_LEN);
    let hash = derive_hash(password, salt.as_slice());
    (salt, hash)
}

/// A hash derived again from the same password and the stored salt is the
/// stored hash, byte for byte.
pub proof fn rederived_hash_is_stored_hash(
    password: Seq<char>,
    salt: Seq<u8>,
    stored: Seq<u8>,
    rederived: Seq<u8>,
)
    requires
        is_credential_for(password, salt, stored),
        rederived == derived_hash(password, salt),
    ensures
        rederived == stored,
{
}

} // verus!
