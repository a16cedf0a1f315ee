//! Signed, expiring bearer tokens.

use crate::credential::Authentication;
use jsonwebtoken::{DecodingKey, EncodingKey, Header, Validation};
use serde_json::Value;
use vstd::prelude::*;

verus! {

/// The signature algorithms that take a shared secret: HMAC with SHA-256,
/// SHA-384 or SHA-512.
#[derive(Debug, Clone, Copy, PartialEq, Eq, Structural)]
pub enum Algorithm {
    HS256,
    HS384,
    HS512,
}

/// Lifetime of a token in seconds: seven days.
pub const TOKEN_TTL: i64 = 604_800;

/// The token that `jsonwebtoken::encode` makes of a claim set under a secret:
/// header, payload and signature, each in URL-safe base 64, joined by dots.
pub uninterp spec fn signed_token(
    algorithm: Algorithm,
    secret: Seq<u8>,
    username: Seq<char>,
    version: u32,
    exp: i64,
) -> Seq<char>;

/// The payload of a token, as mathematical values.
pub struct Claims {
    pub username: Seq<char>,
    pub version: u32,
    pub exp: i64,
}

/// Why a token was refused. The kinds are told apart for the server's own
/// records only: a client sees one outcome for all three.
#[derive(Debug, Clone, Copy, PartialEq, Eq, Structural)]
pub enum TokenError {
    /// Not a token, not of the expected algorithm, or a payload without the
    /// expected fields.
    Malformed,
    /// The signature does not match.
    BadSignature,
    /// The expiry lies in the past.
    Expired,
}

/// The fields found in the payload of a token whose signature held.
pub struct RawClaims {
    pub username: Option<String>,
    pub version: Option<u64>,
    pub exp: Option<i64>,
}

/// The fields of a payload, as mathematical values.
pub struct Payload {
    pub username: Option<Seq<char>>,
    pub version: Option<u64>,
    pub exp: Option<i64>,
}

impl View for RawClaims {
    type V = Payload;

    open spec fn view(&self) -> Payload {
        Payload {
            username: match self.username {
                Some(name) => Some(name@),
                None => None,
            },
            version: self.version,
            exp: self.exp,
        }
    }
}

/// What `jsonwebtoken::decode` finds in a token, with its own expiry check
/// switched off: `None` where it refuses the token (not three parts, another
/// algorithm, a signature that does not match the secret, a payload that is
/// no JSON object or has no `exp`), else the three claims of the payload.
pub uninterp spec fn verified_payload(
    algorithm: Algorithm,
    secret: Seq<u8>,
    token: Seq<char>,
) -> Option<Payload>;

/// Calls `jsonwebtoken::encode` with a header for `algorithm`, the three
/// claims as a JSON object and the key `EncodingKey::from_secret(secret)`.
///
/// Trusted: with an HMAC algorithm and a key made from a secret the call
/// succeeds, and its result depends on the five arguments alone.
#[verifier::external_body]
fn jwt_encode(
    algorithm: Algorithm,
    secret: &[u8],
    username: &str,
    version: u32,
    exp: i64,
) -> (r: Result<String, jsonwebtoken::errors::Error>)
    ensures
        r is Ok,
        r matches Ok(t) ==> t@ == signed_token(algorithm, secret@, username@, version, exp),
{
    let algorithm = match algorithm {
        Algorithm::HS256 => jsonwebtoken::Algorithm::HS256,
        Algorithm::HS384 => jsonwebtoken::Algorithm::HS384,
        Algorithm::HS512 => jsonwebtoken::Algorithm::HS512,
    };
    let mut claims = serde_json::Map::new();
    claims.insert("username".to_owned(), Value::from(username));
    claims.insert("version".to_owned(), Value::from(version));
    claims.insert("exp".to_owned(), Value::from(exp));
    jsonwebtoken::encode(&Header::new(algorithm), &claims, &EncodingKey::from_secret(secret))
}

/// Calls `jsonwebtoken::decode` with the key
/// `DecodingKey::from_secret(secret)` and with `Validation::new(algorithm)`
/// whose `validate_exp` is switched off, and picks the three claims out of
/// the JSON payload.
///
/// Trusted: without its expiry check the call does not read the clock, so
/// whether it succeeds and what it finds depend on the three arguments
/// alone. Nothing is claimed of which tokens it takes.
#[verifier::external_body]
fn jwt_decode(algorithm: Algorithm, secret: &[u8], token: &str) -> (r: Result<
    RawClaims,
    jsonwebtoken::errors::Error,
>)
    ensures
        r is Ok <==> verified_payload(algorithm, secret@, token@) is Some,
        r matches Ok(raw) ==> verified_payload(algorithm, secret@, token@) == Some(raw@),
{
    let algorithm = match algorithm {
        Algorithm::HS256 => jsonwebtoken::Algorithm::HS256,
        Algorithm::HS384 => jsonwebtoken::Algorithm::HS384,
        Algorithm::HS512 => jsonwebtoken::Algorithm::HS512,
    };
    let mut validation = Validation::new(algorithm);
    validation.validate_exp = false;
    jsonwebtoken::decode::<Value>(token, &DecodingKey::from_secret(secret), &validation).map(
        |data| RawClaims {
            username: data.claims.get("username").and_then(|v| v.as_str()).map(|s| s.to_owned()),
            version: data.claims.get("version").and_then(|v| v.as_u64()),
            exp: data.claims.get("exp").and_then(|v| v.as_i64()),
        },
    )
}

/// Reads `jsonwebtoken::errors::Error::kind`: an expired signature, an
/// invalid signature, or anything else.
#[verifier::external_body]
fn jwt_failure(error: &jsonwebtoken::errors::Error) -> (kind: TokenError) {
    match error.kind() {
        jsonwebtoken::errors::ErrorKind::ExpiredSignature => TokenError::Expired,
        jsonwebtoken::errors::ErrorKind::InvalidSignature => TokenError::BadSignature,
        _ => TokenError::Malformed,
    }
}

/// Calls `chrono::Utc::now` and takes the `timestamp` of the result: the
/// system clock in whole seconds since the epoch. Nothing is claimed of it.
#[verifier::external_body]
pub(crate) fn utc_now() -> (now: i64) {
    chrono::Utc::now().timestamp()
}

/// The claim set that a token carries: who it was issued to, the revocation
/// version at that moment, and when it expires (seconds since the epoch).
#[derive(Debug)]
pub struct AuthClaims {
    username: String,
    version: u32,
    exp: i64,
}

impl View for AuthClaims {
    type V = Claims;

    closed spec fn view(&self) -> Claims {
        Claims { username: self.username@, version: self.version, exp: self.exp }
    }
}

/// When a token issued at `now` expires: `TOKEN_TTL` seconds later, or at the
/// end of time where that cannot be represented.
pub open spec fn expiry(now: i64) -> i64 {
    if now + TOKEN_TTL <= i64::MAX {
        (now + TOKEN_TTL) as i64
    } else {
        i64::MAX
    }
}

/// What the payload of a verified token amounts to at the moment `now`.
///
/// All three fields must be there, the version must fit 32 bits, and the
/// expiry must not lie in the past.
pub open spec fn claims_of(payload: Payload, now: i64) -> Result<Claims, TokenError> {
    match (payload.username, payload.version, payload.exp) {
        (Some(username), Some(version), Some(exp)) => if version > u32::MAX {
            Err(TokenError::Malformed)
        } else if exp < now {
            Err(TokenError::Expired)
        } else {
            Ok(Claims { username, version: version as u32, exp })
        },
        _ => Err(TokenError::Malformed),
    }
}

impl AuthClaims {
    /// The username that the token was issued to.
    pub fn username(&self) -> (name: &str)
        ensures
            name@ == self@.username,
    {
        self.username.as_str()
    }

    /// The revocation version at issuance.
    pub fn version(&self) -> (version: u32)
        ensures
            version == self@.version,
    {
        self.version
    }

    /// The expiry, in seconds since the epoch.
    pub fn expires_at(&self) -> (exp: i64)
        ensures
            exp == self@.exp,
    {
        self.exp
    }

    /// The claim set with these three values.
    pub fn from_parts(username: String, version: u32, exp: i64) -> (claims: Self)
        ensures
            claims@ == (Claims { username: username@, version, exp }),
    {
        AuthClaims { username, version, exp }
    }

    /// The claims issued now, by the system clock, for a credential.
    pub fn create(authentication: Authentication) -> (claims: Self)
        ensures
            claims@.username == authentication@.username,
            claims@.version == authentication@.version,
            exists|now: i64| claims@.exp == #[trigger] expiry(now),
    {
        Self::create_at(authentication, utc_now())
    }

    /// The claims issued at `now` for a credential: its username, a snapshot
    /// of its version, and an expiry `TOKEN_TTL` later.
    pub fn create_at(authentication: Authentication, now: i64) -> (claims: Self)
        ensures
            claims@ == (Claims {
                username: authentication@.username,
                version: authentication@.version,
                exp: expiry(now),
            }),
    {
        let exp: i64 = if now <= i64::MAX - TOKEN_TTL {
            now + TOKEN_TTL
        } else {
            i64::MAX
        };
        let version = authentication.version();
        AuthClaims { username: authentication.into_username(), version, exp }
    }

    /// Whether the token has expired at `now`.
    pub fn is_expired(&self, now: i64) -> (expired: bool)
        ensures
            expired == (self@.exp < now),
    {
        self.exp < now
    }

    /// The version policy: a token is honoured while the stored version is at
    /// least the version it was issued at; a user without a stored credential
    /// is refused like a stale token.
    ///
    /// Under this policy a rotation does not revoke the tokens issued before
    /// it: they carry a lower version than the store.
    pub open spec fn honours(claims: Claims, stored: Option<u32>) -> bool {
        match stored {
            Some(current) => current >= claims.version,
            None => false,
        }
    }

    /// Checks the claims against the version that the store holds now for
    /// the claimed user (`None` where it holds no credential).
    pub fn verify(&self, stored: Option<u32>) -> (ok: bool)
        ensures
            ok == Self::honours(self@, stored),
    {
        match stored {
            Some(current) => current >= self.version,
            None => false,
        }
    }

    /// Builds the claims from the payload of a token whose signature held.
    pub fn from_raw(raw: RawClaims, now: i64) -> (r: Result<Self, TokenError>)
        ensures
            match claims_of(raw@, now) {
                Ok(claims) => r matches Ok(c) && c@ == claims,
                Err(e) => r == Err::<Self, TokenError>(e),
            },
    {
        match (raw.username, raw.version, raw.exp) {
            (Some(username), Some(version), Some(exp)) => {
                if version > 0xFFFF_FFFF {
                    Err(TokenError::Malformed)
                } else if exp < now {
                    Err(TokenError::Expired)
                } else {
                    Ok(AuthClaims { username, version: version as u32, exp })
                }
            },
            _ => Err(TokenError::Malformed),
        }
    }
}

/// The token codec: the signing secret and the one algorithm that tokens are
/// signed with and checked against. Both are fixed when the process starts.
pub struct JwtConfig {
    secret: Vec<u8>,
    algorithm: Algorithm,
}

impl JwtConfig {
    /// The signing secret.
    pub closed spec fn secret(&self) -> Seq<u8> {
        self.secret@
    }

    /// The signing algorithm.
    pub closed spec fn algorithm(&self) -> Algorithm {
        self.algorithm
    }

    /// The token that this codec mints for `claims`.
    pub open spec fn minted(&self, claims: Claims) -> Seq<char> {
        signed_token(
            self.algorithm(),
            self.secret(),
            claims.username,
            claims.version,
            claims.exp,
        )
    }

    /// A codec for `secret` and `algorithm`.
    pub fn new(secret: Vec<u8>, algorithm: Algorithm) -> (config: Self)
        ensures
            config.secret() == secret@,
            config.algorithm() == algorithm,
    {
        JwtConfig { secret, algorithm }
    }

    /// Serialises and signs `claims`. This always succeeds.
    pub fn encode(&self, claims: &AuthClaims) -> (r: Result<String, jsonwebtoken::errors::Error>)
        ensures
            r is Ok,
            r matches Ok(token) ==> token@ == self.minted(claims@),
    {
        jwt_encode(
            self.algorithm,
            self.secret.as_slice(),
            claims.username(),
            claims.version(),
            claims.expires_at(),
        )
    }

    /// What becomes of the outcome of the signature check at the moment
    /// `now`: a refusal stays one, and a payload is held to `claims_of`.
    pub fn accept(checked: Result<RawClaims, TokenError>, now: i64) -> (r: Result<
        AuthClaims,
        TokenError,
    >)
        ensures
            match checked {
                Ok(raw) => match claims_of(raw@, now) {
                    Ok(claims) => r matches Ok(c) && c@ == claims,
                    Err(e) => r == Err::<AuthClaims, TokenError>(e),
                },
                Err(e) => r == Err::<AuthClaims, TokenError>(e),
            },
    {
        match checked {
            Ok(raw) => AuthClaims::from_raw(raw, now),
            Err(e) => Err(e),
        }
    }

    /// The claims that `token` stands for at the moment `now`: those of its
    /// payload, where the signature check takes the token and the payload
    /// has all three fields, a version of 32 bits and an expiry that is not
    /// in the past.
    pub open spec fn claims_at(&self, token: Seq<char>, now: i64) -> Result<Claims, TokenError> {
        match verified_payload(self.algorithm(), self.secret(), token) {
            Some(payload) => claims_of(payload, now),
            None => Err(TokenError::Malformed),
        }
    }

    /// Whether `r` is what reading `token` at the moment `now` gives. A
    /// token that passes the signature check is held to `claims_of`, down to
    /// the kind of the refusal. One that fails it is refused; whether as
    /// malformed or as badly signed is for the server's records only.
    pub open spec fn reads(
        &self,
        token: Seq<char>,
        now: i64,
        r: Result<AuthClaims, TokenError>,
    ) -> bool {
        match verified_payload(self.algorithm(), self.secret(), token) {
            Some(payload) => match claims_of(payload, now) {
                Ok(claims) => r matches Ok(c) && c@ == claims,
                Err(e) => r == Err::<AuthClaims, TokenError>(e),
            },
            None => r is Err,
        }
    }

    /// Checks the signature of `token` against the secret and the one
    /// expected algorithm, and reads its claims at the moment `now`.
    ///
    /// Succeeds exactly where `claims_at` gives claims, and with those. No
    /// claims come back expired.
    pub fn decode_at(&self, token: &str, now: i64) -> (r: Result<AuthClaims, TokenError>)
        ensures
            self.reads(token@, now, r),
            r is Ok <==> self.claims_at(token@, now) is Ok,
            r matches Ok(claims) ==> self.claims_at(token@, now) == Ok::<Claims, TokenError>(
                claims@,
            ) && claims@.exp >= now,
    {
        let checked = match jwt_decode(self.algorithm, self.secret.as_slice(), token) {
            Ok(raw) => Ok(raw),
            Err(e) => Err(jwt_failure(&e)),
        };
        Self::accept(checked, now)
    }

    /// Checks and reads `token` at the present moment of the system clock.
    ///
    /// A token that fails the signature check is refused whatever the time.
    pub fn decode(&self, token: &str) -> (r: Result<AuthClaims, TokenError>)
        ensures
            exists|now: i64| #[trigger] self.reads(token@, now, r),
            verified_payload(self.algorithm(), self.secret(), token@) is None ==> r is Err,
    {
        self.decode_at(token, utc_now())
    }
}

} // verus!
