//! Users and their credential records.

use crate::error::InternalError;
use crate::hasher::{
    argon2_accepts, argon2_digest, fresh_salt, verification, PasswordHasher, HASH_LENGTH,
    SALT_LENGTH,
};
use vstd::prelude::*;
use vstd::slice::slice_to_vec;
use vstd::string::StringSliceAdditionalSpecFns;

verus! {

/// An account, known by its username alone.
#[derive(Debug)]
pub struct User {
    pub username: String,
}

impl User {
    /// The account named `username`.
    pub fn new(username: String) -> (user: Self)
        ensures
            user.username@ == username@,
    {
        User { username }
    }
}

/// What a credential record holds, as mathematical values.
pub struct Credential {
    pub username: Seq<char>,
    pub hash: Seq<u8>,
    pub salt: Seq<u8>,
    pub version: u32,
}

/// The stored credential of one user: the digest of the password, the salt
/// it was made with, and the revocation version.
#[derive(Debug)]
pub struct Authentication {
    pub username: String,
    hash: Vec<u8>,
    salt: Vec<u8>,
    pub version: u32,
}

impl View for Authentication {
    type V = Credential;

    closed spec fn view(&self) -> Credential {
        Credential {
            username: self.username@,
            hash: self.hash@,
            salt: self.salt@,
            version: self.version,
        }
    }
}

impl Authentication {
    /// The username that the credential belongs to.
    pub fn username(&self) -> (name: &str)
        ensures
            name@ == self@.username,
    {
        self.username.as_str()
    }

    /// Whether the credential belongs to `username`.
    pub fn is_for(&self, username: &String) -> (b: bool)
        ensures
            b == (self@.username == username@),
    {
        self.username == *username
    }

    /// Gives up the record for its username.
    pub fn into_username(self) -> (name: String)
        ensures
            name@ == self@.username,
    {
        self.username
    }

    /// The revocation version.
    pub fn version(&self) -> (version: u32)
        ensures
            version == self@.version,
    {
        self.version
    }

    /// The record with these four values, as a store hands it out.
    pub fn from_parts(username: String, hash: Vec<u8>, salt: Vec<u8>, version: u32) -> (r: Self)
        ensures
            r@ == (Credential { username: username@, hash: hash@, salt: salt@, version }),
    {
        Authentication { username, hash, salt, version }
    }

    /// The stored digest.
    pub fn hash(&self) -> (h: &[u8])
        ensures
            h@ == self@.hash,
    {
        self.hash.as_slice()
    }

    /// The salt.
    pub fn salt(&self) -> (s: &[u8])
        ensures
            s@ == self@.salt,
    {
        self.salt.as_slice()
    }

    /// A copy of the record.
    pub fn duplicate(&self) -> (r: Self)
        ensures
            r@ == self@,
    {
        Authentication {
            username: self.username.clone(),
            hash: slice_to_vec(self.hash.as_slice()),
            salt: slice_to_vec(self.salt.as_slice()),
            version: self.version,
        }
    }

    /// Whether `password` is the one this credential was made from.
    ///
    /// `Ok(true)` exactly where the stored digest is the digest of the
    /// password under the stored salt and the hasher's key; an error only
    /// where Argon2 refuses the inputs.
    pub fn verify(&self, password: &str, config: &PasswordHasher) -> (r: Result<
        bool,
        InternalError,
    >)
        ensures
            match verification(
                password.spec_bytes(),
                self@.salt,
                self@.hash,
                config.secret(),
            ) {
                Some(b) => r == Ok::<bool, InternalError>(b),
                None => r matches Err(InternalError::Argon2(_)),
            },
    {
        match config.verify(password, self.salt.as_slice(), self.hash.as_slice()) {
            Ok(b) => Ok(b),
            Err(e) => Err(InternalError::Argon2(e)),
        }
    }

    /// What `create` makes of a password and a salt: version zero, and the
    /// digest of the password under that salt.
    pub open spec fn created(
        username: Seq<char>,
        password: Seq<u8>,
        salt: Seq<u8>,
        secret: Seq<u8>,
    ) -> Credential {
        Credential {
            username,
            hash: argon2_digest(password, salt, secret, HASH_LENGTH as nat),
            salt,
            version: 0,
        }
    }

    /// A new credential for `user` at version zero, under a fresh random salt.
    ///
    /// The record is not stored here: the caller inserts it.
    pub fn create(user: &User, password: &str, config: &PasswordHasher) -> (r: Result<
        Self,
        InternalError,
    >)
        ensures
            r is Ok <==> password.spec_bytes().len() <= crate::hasher::MAX_INPUT_LENGTH
                && config.secret().len() <= crate::hasher::MAX_INPUT_LENGTH,
            r matches Ok(a) ==> a@.salt.len() == SALT_LENGTH && a@.hash.len() == HASH_LENGTH && a@
                == Self::created(user.username@, password.spec_bytes(), a@.salt, config.secret()),
            r matches Err(e) ==> e is Argon2,
    {
        let salt = fresh_salt();
        match config.hash(password, salt.as_slice()) {
            Ok(hash) => Ok(
                Authentication { username: user.username.clone(), hash, salt, version: 0 },
            ),
            Err(e) => Err(InternalError::Argon2(e)),
        }
    }

    /// Raises the revocation version by one.
    pub fn increment(&mut self)
        requires
            old(self)@.version < u32::MAX,
        ensures
            final(self)@ == (Credential {
                version: (old(self)@.version + 1) as u32,
                ..old(self)@
            }),
    {
        self.version = self.version + 1;
    }

    /// What a rotation to `password` makes of a credential: the digest of the
    /// new password under the same salt, and the next version.
    pub open spec fn rotated(before: Credential, password: Seq<u8>, secret: Seq<u8>) -> Credential {
        Credential {
            hash: argon2_digest(password, before.salt, secret, HASH_LENGTH as nat),
            version: (before.version + 1) as u32,
            ..before
        }
    }

    /// Rotates the credential to `password`: a new digest under the same
    /// salt, paired with a version increment.
    ///
    /// On failure the record is left as it was. The caller stores the result.
    pub fn change_password(&mut self, password: &str, config: &PasswordHasher) -> (r: Result<
        (),
        InternalError,
    >)
        requires
            old(self)@.version < u32::MAX,
        ensures
            r is Ok <==> argon2_accepts(password.spec_bytes(), old(self)@.salt, config.secret()),
            r is Ok ==> final(self)@ == Self::rotated(
                old(self)@,
                password.spec_bytes(),
                config.secret(),
            ) && final(self)@.hash.len() == HASH_LENGTH,
            r matches Err(e) ==> e is Argon2 && final(self)@ == old(self)@,
    {
        match config.hash(password, self.salt.as_slice()) {
            Ok(hash) => {
                self.hash = hash;
                self.increment();
                Ok(())
            },
            Err(e) => Err(InternalError::Argon2(e)),
        }
    }
}

} // verus!
