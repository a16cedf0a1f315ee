//! Keyed, salted password hashing with Argon2.

use vstd::prelude::*;
use vstd::string::StringSliceAdditionalSpecFns;

verus! {

/// The failure type of the `argon2` crate.
#[verifier::external_type_specification]
#[verifier::external_body]
pub struct ExArgon2Error(argon2::Error);

/// Length in bytes of the salt drawn for each new credential.
pub const SALT_LENGTH: usize = 16;

/// Length in bytes of the digests this library stores.
pub const HASH_LENGTH: usize = 32;

/// Largest length in bytes that Argon2 takes for a password, a salt or a key.
pub const MAX_INPUT_LENGTH: usize = 0xFFFF_FFFF;

/// The Argon2id digest of `length` bytes that the `argon2` crate computes for
/// a password and a salt under a secret key, with that crate's default cost
/// parameters.
pub uninterp spec fn argon2_digest(
    password: Seq<u8>,
    salt: Seq<u8>,
    secret: Seq<u8>,
    length: nat,
) -> Seq<u8>;

/// Whether Argon2 takes these inputs: the salt has at least eight bytes and
/// nothing is longer than `MAX_INPUT_LENGTH`.
pub open spec fn argon2_accepts(password: Seq<u8>, salt: Seq<u8>, secret: Seq<u8>) -> bool {
    &&& password.len() <= MAX_INPUT_LENGTH
    &&& 8 <= salt.len() <= MAX_INPUT_LENGTH
    &&& secret.len() <= MAX_INPUT_LENGTH
}

/// The digest length that a verification against `hash` asks Argon2 for: the
/// length of `hash`, cut to 32 bits.
pub open spec fn verified_length(hash: Seq<u8>) -> nat {
    hash.len() % 0x1_0000_0000
}

/// What checking `password` against a stored `hash` gives: `None` where
/// Argon2 refuses the inputs, else whether `hash` is the digest of the
/// password.
pub open spec fn verification(
    password: Seq<u8>,
    salt: Seq<u8>,
    hash: Seq<u8>,
    secret: Seq<u8>,
) -> Option<bool> {
    if argon2_accepts(password, salt, secret) && verified_length(hash) >= 4 {
        Some(hash == argon2_digest(password, salt, secret, verified_length(hash)))
    } else {
        None
    }
}

/// Calls `argon2::hash_raw` with the default configuration keyed by `secret`.
///
/// Trusted: the call succeeds exactly on the inputs that Argon2 accepts, and
/// then returns the 32-byte digest named by `argon2_digest`.
#[verifier::external_body]
fn argon2_hash_raw(password: &[u8], salt: &[u8], secret: &[u8]) -> (r: Result<
    Vec<u8>,
    argon2::Error,
>)
    ensures
        r is Ok <==> argon2_accepts(password@, salt@, secret@),
        r matches Ok(h) ==> h@.len() == HASH_LENGTH && h@ == argon2_digest(
            password@,
            salt@,
            secret@,
            HASH_LENGTH as nat,
        ),
{
    let config = argon2::Config { secret, ..Default::default() };
    argon2::hash_raw(password, salt, &config)
}

/// Calls `argon2::verify_raw` with the default configuration keyed by
/// `secret`.
///
/// Trusted: the call recomputes the digest at the length of `hash` (cut to 32
/// bits) and compares it with `hash` byte for byte; it fails exactly where
/// Argon2 refuses the inputs or that length is under four.
#[verifier::external_body]
fn argon2_verify_raw(password: &[u8], salt: &[u8], hash: &[u8], secret: &[u8]) -> (r: Result<
    bool,
    argon2::Error,
>)
    ensures
        r is Ok <==> verification(password@, salt@, hash@, secret@) is Some,
        r matches Ok(b) ==> verification(password@, salt@, hash@, secret@) == Some(b),
{
    let config = argon2::Config { secret, ..Default::default() };
    argon2::verify_raw(password, salt, hash, &config)
}

/// Calls `rand::RngCore::fill_bytes` on the thread-local generator of
/// `rand::thread_rng`.
///
/// Trusted: the buffer keeps its length. Nothing is claimed of the bytes.
#[verifier::external_body]
fn fill_random(buffer: &mut Vec<u8>)
    ensures
        final(buffer)@.len() == old(buffer)@.len(),
{
    rand::RngCore::fill_bytes(&mut rand::thread_rng(), buffer.as_mut_slice());
}

/// A fresh random salt of `SALT_LENGTH` bytes.
pub fn fresh_salt() -> (salt: Vec<u8>)
    ensures
        salt@.len() == SALT_LENGTH,
{
    let mut salt: Vec<u8> = Vec::with_capacity(SALT_LENGTH);
    let mut i: usize = 0;
    while i < SALT_LENGTH
        invariant
            i <= SALT_LENGTH,
            salt@.len() == i,
        decreases SALT_LENGTH - i,
    {
        salt.push(0u8);
        i += 1;
    }
    fill_random(&mut salt);
    salt
}

/// The process-wide hashing configuration: the secret key ("pepper") that is
/// mixed into every digest and never stored beside the credentials.
pub struct PasswordHasher {
    secret: Vec<u8>,
}

impl PasswordHasher {
    /// The secret key.
    pub closed spec fn secret(&self) -> Seq<u8> {
        self.secret@
    }

    /// A hasher keyed by `secret`.
    pub fn new(secret: Vec<u8>) -> (r: Self)
        ensures
            r.secret() == secret@,
    {
        PasswordHasher { secret }
    }

    /// The digest of `password` under `salt`.
    ///
    /// Succeeds exactly where Argon2 accepts the inputs; a failure reports a
    /// misconfiguration, never a wrong password.
    pub fn hash(&self, password: &str, salt: &[u8]) -> (r: Result<Vec<u8>, argon2::Error>)
        ensures
            r is Ok <==> argon2_accepts(password.spec_bytes(), salt@, self.secret()),
            r matches Ok(h) ==> h@.len() == HASH_LENGTH && h@ == argon2_digest(
                password.spec_bytes(),
                salt@,
                self.secret(),
                HASH_LENGTH as nat,
            ),
    {
        argon2_hash_raw(password.as_bytes(), salt, self.secret.as_slice())
    }

    /// Whether `hash` is the digest of `password` under `salt`.
    pub fn verify(&self, password: &str, salt: &[u8], hash: &[u8]) -> (r: Result<
        bool,
        argon2::Error,
    >)
        ensures
            r is Ok <==> verification(password.spec_bytes(), salt@, hash@, self.secret()) is Some,
            r matches Ok(b) ==> verification(password.spec_bytes(), salt@, hash@, self.secret())
                == Some(b),
    {
        argon2_verify_raw(password.as_bytes(), salt, hash, self.secret.as_slice())
    }
}

/// A digest made by `hash` verifies against the same password, salt and key.
pub proof fn lemma_digest_verifies(password: Seq<u8>, salt: Seq<u8>, secret: Seq<u8>)
    requires
        argon2_accepts(password, salt, secret),
    ensures
        ({
            let h = argon2_digest(password, salt, secret, HASH_LENGTH as nat);
            h.len() == HASH_LENGTH ==> verification(password, salt, h, secret) == Some(true)
        }),
{
}

} // verus!
