//! The guard in front of the protected routes: it reads the bearer token of
//! a request, checks it, and either rejects the request or hands the
//! verified identity on.

use crate::store::CredentialStore;
use crate::token::{claims_of, utc_now, AuthClaims, Claims, JwtConfig, Payload, TokenError};
use vstd::prelude::*;
use vstd::string::StrSliceExecFns;

verus! {

/// Why the guard turned a request away.
#[derive(Debug, Clone, Copy, PartialEq, Eq, Structural)]
pub enum Rejection {
    /// The request has no authorization header.
    MissingCredential,
    /// The header is not of the form `Bearer <token>`.
    MalformedCredential,
    /// The token is malformed, forged, expired or stale, or its user is
    /// unknown. The client is not told which.
    InvalidToken,
}

impl Rejection {
    /// The HTTP status that stands for this rejection.
    pub open spec fn spec_status(&self) -> u16 {
        match self {
            Rejection::MissingCredential => 400,
            Rejection::MalformedCredential => 400,
            Rejection::InvalidToken => 401,
        }
    }

    /// The HTTP status that stands for this rejection.
    #[verifier::when_used_as_spec(spec_status)]
    pub fn status(&self) -> (code: u16)
        ensures
            code == self.spec_status(),
    {
        match self {
            Rejection::MissingCredential => 400,
            Rejection::MalformedCredential => 400,
            Rejection::InvalidToken => 401,
        }
    }
}

impl Rejection {
    /// The message that the client is shown.
    pub open spec fn spec_message(&self) -> &'static str {
        match self {
            Rejection::MissingCredential => "missing Authorization header",
            Rejection::MalformedCredential => "bad Authorization header",
            Rejection::InvalidToken => "invalid token",
        }
    }

    /// The message that the client is shown.
    #[verifier::when_used_as_spec(spec_message)]
    pub fn message(&self) -> (text: &'static str)
        ensures
            text == self.spec_message(),
    {
        match self {
            Rejection::MissingCredential => "missing Authorization header",
            Rejection::MalformedCredential => "bad Authorization header",
            Rejection::InvalidToken => "invalid token",
        }
    }
}

/// The identity that the guard attaches to an admitted request. It shows the
/// username and nothing else of the claims or the credential.
#[derive(Debug)]
pub struct Identity {
    username: String,
}

impl View for Identity {
    type V = Seq<char>;

    closed spec fn view(&self) -> Seq<char> {
        self.username@
    }
}

impl Identity {
    /// The authenticated user.
    pub fn username(&self) -> (name: &str)
        ensures
            name@ == self@,
    {
        self.username.as_str()
    }
}

/// Number of characters in the prefix `Bearer `.
pub const BEARER_LENGTH: usize = 7;

/// The token in an authorization header: what follows the prefix `Bearer `.
pub open spec fn bearer_of(header: Option<Seq<char>>) -> Result<Seq<char>, Rejection> {
    match header {
        None => Err(Rejection::MissingCredential),
        Some(text) => if text.len() >= BEARER_LENGTH && text.subrange(0, BEARER_LENGTH as int)
            == "Bearer "@ {
            Ok(text.subrange(BEARER_LENGTH as int, text.len() as int))
        } else {
            Err(Rejection::MalformedCredential)
        },
    }
}

/// The header as a mathematical value.
pub open spec fn header_text(header: Option<&str>) -> Option<Seq<char>> {
    match header {
        Some(text) => Some(text@),
        None => None,
    }
}

/// Extracts the bearer token from the authorization header of a request.
pub fn bearer_token<'a>(header: Option<&'a str>) -> (r: Result<&'a str, Rejection>)
    ensures
        match bearer_of(header_text(header)) {
            Ok(token) => r matches Ok(t) && t@ == token,
            Err(e) => r == Err::<&str, Rejection>(e),
        },
{
    proof {
        reveal_strlit("Bearer ");
    }
    match header {
        None => Err(Rejection::MissingCredential),
        Some(text) => {
            let n = text.unicode_len();
            if n < BEARER_LENGTH {
                return Err(Rejection::MalformedCredential);
            }
            let matches = text.get_char(0) == 'B' && text.get_char(1) == 'e' && text.get_char(2)
                == 'a' && text.get_char(3) == 'r' && text.get_char(4) == 'e' && text.get_char(5)
                == 'r' && text.get_char(6) == ' ';
            if matches {
                assert(text@.subrange(0, BEARER_LENGTH as int) =~= "Bearer "@);
                Ok(text.substring_char(BEARER_LENGTH, n))
            } else {
                assert(text@.subrange(0, BEARER_LENGTH as int) != "Bearer "@) by {
                    let head = text@.subrange(0, BEARER_LENGTH as int);
                    assert(head[0] == text@[0] && head[1] == text@[1] && head[2] == text@[2]
                        && head[3] == text@[3] && head[4] == text@[4] && head[5] == text@[5]
                        && head[6] == text@[6]);
                }
                Err(Rejection::MalformedCredential)
            }
        },
    }
}

/// What the guard decides once the token has been checked and the store
/// read: any refusal of the token, an unknown user and a stale version all
/// give `InvalidToken`; otherwise the claimed user is admitted.
pub open spec fn admission(
    decoded: Result<Claims, TokenError>,
    stored: Option<u32>,
) -> Result<Seq<char>, Rejection> {
    match decoded {
        Ok(claims) => if AuthClaims::honours(claims, stored) {
            Ok(claims.username)
        } else {
            Err(Rejection::InvalidToken)
        },
        Err(_) => Err(Rejection::InvalidToken),
    }
}

/// The version that the store holds for a user.
pub open spec fn stored_version(store: CredentialStore, username: Seq<char>) -> Option<u32> {
    if store@.dom().contains(username) {
        Some(store@[username].version)
    } else {
        None
    }
}

/// The stages that the guard takes one request through.
#[derive(Debug)]
pub enum GuardState {
    /// Nothing is known of the request yet.
    Unauthenticated,
    /// The request carries a bearer token.
    HeaderExtracted { token: String },
    /// The token is well signed and not expired.
    TokenDecoded { claims: AuthClaims },
    /// The claimed version is honoured by the store.
    VersionChecked { claims: AuthClaims },
    /// The identity is attached; the next handler may run.
    Authorized { identity: Identity },
    /// The request was turned away. Nothing leads out of this state.
    Rejected { reason: Rejection },
}

/// A stage of the guard as mathematical values.
pub enum Stage {
    Unauthenticated,
    HeaderExtracted { token: Seq<char> },
    TokenDecoded { claims: Claims },
    VersionChecked { claims: Claims },
    Authorized { username: Seq<char> },
    Rejected { reason: Rejection },
}

impl View for GuardState {
    type V = Stage;

    open spec fn view(&self) -> Stage {
        match self {
            GuardState::Unauthenticated => Stage::Unauthenticated,
            GuardState::HeaderExtracted { token } => Stage::HeaderExtracted { token: token@ },
            GuardState::TokenDecoded { claims } => Stage::TokenDecoded { claims: claims@ },
            GuardState::VersionChecked { claims } => Stage::VersionChecked { claims: claims@ },
            GuardState::Authorized { identity } => Stage::Authorized { username: identity@ },
            GuardState::Rejected { reason } => Stage::Rejected { reason: *reason },
        }
    }
}

/// The stage after the authorization header has been read. Only a request
/// of which nothing is known yet moves.
pub open spec fn after_header(stage: Stage, header: Option<Seq<char>>) -> Stage {
    match stage {
        Stage::Unauthenticated => match bearer_of(header) {
            Ok(token) => Stage::HeaderExtracted { token },
            Err(reason) => Stage::Rejected { reason },
        },
        _ => stage,
    }
}

/// The stage after the token has been checked.
pub open spec fn after_decode(stage: Stage, decoded: Result<Claims, TokenError>) -> Stage {
    match stage {
        Stage::HeaderExtracted { token } => match decoded {
            Ok(claims) => Stage::TokenDecoded { claims },
            Err(_) => Stage::Rejected { reason: Rejection::InvalidToken },
        },
        _ => stage,
    }
}

/// The stage after the store has been read for the claimed user.
pub open spec fn after_load(stage: Stage, stored: Option<u32>) -> Stage {
    match stage {
        Stage::TokenDecoded { claims } => if AuthClaims::honours(claims, stored) {
            Stage::VersionChecked { claims }
        } else {
            Stage::Rejected { reason: Rejection::InvalidToken }
        },
        _ => stage,
    }
}

/// The stage after the identity has been attached.
pub open spec fn after_attach(stage: Stage) -> Stage {
    match stage {
        Stage::VersionChecked { claims } => Stage::Authorized { username: claims.username },
        _ => stage,
    }
}

/// The result of a stage at which the guard has come to rest.
pub open spec fn verdict(stage: Stage) -> Result<Seq<char>, Rejection> {
    match stage {
        Stage::Authorized { username } => Ok(username),
        Stage::Rejected { reason } => Err(reason),
        _ => Err(Rejection::InvalidToken),
    }
}

/// The decoded claims as mathematical values.
pub open spec fn decoded_claims(decoded: Result<AuthClaims, TokenError>) -> Result<
    Claims,
    TokenError,
> {
    match decoded {
        Ok(claims) => Ok(claims@),
        Err(e) => Err(e),
    }
}

impl GuardState {
    /// Reads the authorization header.
    pub fn on_header(self, header: Option<&str>) -> (next: Self)
        ensures
            next@ == after_header(self@, header_text(header)),
    {
        match self {
            GuardState::Unauthenticated => match bearer_token(header) {
                Ok(token) => GuardState::HeaderExtracted { token: token.to_owned() },
                Err(reason) => GuardState::Rejected { reason },
            },
            other => other,
        }
    }

    /// Takes in the outcome of the token check.
    pub fn on_decoded(self, decoded: Result<AuthClaims, TokenError>) -> (next: Self)
        ensures
            next@ == after_decode(self@, decoded_claims(decoded)),
    {
        match self {
            GuardState::HeaderExtracted { token } => match decoded {
                Ok(claims) => GuardState::TokenDecoded { claims },
                Err(_) => GuardState::Rejected { reason: Rejection::InvalidToken },
            },
            other => other,
        }
    }

    /// Takes in the version that the store holds now for the claimed user.
    pub fn on_loaded(self, stored: Option<u32>) -> (next: Self)
        ensures
            next@ == after_load(self@, stored),
    {
        match self {
            GuardState::TokenDecoded { claims } => {
                if claims.verify(stored) {
                    GuardState::VersionChecked { claims }
                } else {
                    GuardState::Rejected { reason: Rejection::InvalidToken }
                }
            },
            other => other,
        }
    }

    /// Attaches the identity to the request.
    pub fn on_attach(self) -> (next: Self)
        ensures
            next@ == after_attach(self@),
    {
        match self {
            GuardState::VersionChecked { claims } => GuardState::Authorized {
                identity: Identity { username: claims.username().to_owned() },
            },
            other => other,
        }
    }

    /// The result of the guard: the identity, or the reason of the
    /// rejection. A request that stopped half way is not admitted.
    pub fn finish(self) -> (r: Result<Identity, Rejection>)
        ensures
            match verdict(self@) {
                Ok(username) => r matches Ok(identity) && identity@ == username,
                Err(reason) => r == Err::<Identity, Rejection>(reason),
            },
    {
        match self {
            GuardState::Authorized { identity } => Ok(identity),
            GuardState::Rejected { reason } => Err(reason),
            _ => Err(Rejection::InvalidToken),
        }
    }
}

/// What the guard makes of a request: a header that carries no bearer token
/// is turned away for that; otherwise the outcome of the token check and the
/// version that the store holds for the claimed user decide.
pub open spec fn guard_outcome(
    header: Option<Seq<char>>,
    decoded: Result<Claims, TokenError>,
    store: CredentialStore,
) -> Result<Seq<char>, Rejection> {
    match bearer_of(header) {
        Err(reason) => Err(reason),
        Ok(_) => match decoded {
            Ok(claims) => admission(decoded, stored_version(store, claims.username)),
            Err(_) => Err(Rejection::InvalidToken),
        },
    }
}

/// What the guard makes of a request at the moment `now`: a header without
/// a bearer token is turned away for that, and otherwise the claims that
/// the token stands for at `now` are held against the store.
pub open spec fn guarded(
    header: Option<Seq<char>>,
    jwt: JwtConfig,
    store: CredentialStore,
    now: i64,
) -> Result<Seq<char>, Rejection> {
    match bearer_of(header) {
        Err(reason) => Err(reason),
        Ok(token) => guard_outcome(header, jwt.claims_at(token, now), store),
    }
}

/// Whether a verdict is the one that `expected` describes.
pub open spec fn admits(r: Result<Identity, Rejection>, expected: Result<Seq<char>, Rejection>) -> bool {
    match expected {
        Ok(username) => r matches Ok(identity) && identity@ == username,
        Err(reason) => r == Err::<Identity, Rejection>(reason),
    }
}

/// The version that the store holds for the user of the decoded claims.
pub open spec fn claimed_version(
    decoded: Result<Claims, TokenError>,
    store: CredentialStore,
) -> Option<u32> {
    match decoded {
        Ok(claims) => stored_version(store, claims.username),
        Err(_) => None,
    }
}

/// Taking a request through the stages of the guard, one after the other,
/// gives what `guard_outcome` says.
pub proof fn lemma_stages_give_outcome(
    header: Option<Seq<char>>,
    decoded: Result<Claims, TokenError>,
    store: CredentialStore,
)
    ensures
        verdict(
            after_attach(
                after_load(
                    after_decode(after_header(Stage::Unauthenticated, header), decoded),
                    claimed_version(decoded, store),
                ),
            ),
        ) == guard_outcome(header, decoded, store),
{
}

/// A rejection is final: no later stage leads out of it.
pub proof fn lemma_rejection_is_terminal(
    reason: Rejection,
    header: Option<Seq<char>>,
    decoded: Result<Claims, TokenError>,
    stored: Option<u32>,
)
    ensures
        ({
            let rejected = Stage::Rejected { reason };
            &&& after_header(rejected, header) == rejected
            &&& after_decode(rejected, decoded) == rejected
            &&& after_load(rejected, stored) == rejected
            &&& after_attach(rejected) == rejected
            &&& verdict(rejected) == Err::<Seq<char>, Rejection>(reason)
        }),
{
}

/// A token whose expiry lies in the past is rejected as an invalid token,
/// whatever its signature, its user and the store.
pub proof fn lemma_expired_token_is_rejected(
    header: Option<Seq<char>>,
    payload: Payload,
    now: i64,
    store: CredentialStore,
)
    requires
        bearer_of(header) is Ok,
        payload.exp matches Some(exp) && exp < now,
    ensures
        guard_outcome(header, claims_of(payload, now), store) == Err::<Seq<char>, Rejection>(
            Rejection::InvalidToken,
        ),
{
}

/// However a token fails its check, the client sees the same rejection: a
/// forged signature cannot be told from an expired or a malformed token.
pub proof fn lemma_refusals_look_alike(
    header: Option<Seq<char>>,
    first: TokenError,
    second: TokenError,
    store: CredentialStore,
)
    ensures
        guard_outcome(header, Err(first), store) == guard_outcome(header, Err(second), store),
        bearer_of(header) is Ok ==> guard_outcome(header, Err(first), store) == Err::<
            Seq<char>,
            Rejection,
        >(Rejection::InvalidToken),
{
}

/// A user without a stored credential is turned away exactly like a bad
/// token.
pub proof fn lemma_unknown_user_is_rejected(
    header: Option<Seq<char>>,
    claims: Claims,
    store: CredentialStore,
)
    requires
        bearer_of(header) is Ok,
        !store@.dom().contains(claims.username),
    ensures
        guard_outcome(header, Ok(claims), store) == Err::<Seq<char>, Rejection>(
            Rejection::InvalidToken,
        ),
{
}

/// The guard, as it is put in front of a group of routes.
#[derive(Debug, Clone, Copy)]
pub struct Authenticated;

/// The guard at work on the requests of one route.
#[derive(Debug, Clone, Copy)]
pub struct AuthenticatedMiddleware;

impl Authenticated {
    /// The guard for one route.
    pub fn new_transform(&self) -> AuthenticatedMiddleware {
        AuthenticatedMiddleware
    }
}

impl AuthenticatedMiddleware {
    /// Takes a request from the stage after the header through the rest of
    /// the guard, given the outcome of the token check.
    ///
    /// The store is read for the claimed user at this moment, and never
    /// written.
    pub fn resume(
        &self,
        state: GuardState,
        decoded: Result<AuthClaims, TokenError>,
        store: &CredentialStore,
    ) -> (r: Result<Identity, Rejection>)
        ensures
            match verdict(
                after_attach(
                    after_load(
                        after_decode(state@, decoded_claims(decoded)),
                        claimed_version(decoded_claims(decoded), *store),
                    ),
                ),
            ) {
                Ok(username) => r matches Ok(identity) && identity@ == username,
                Err(reason) => r == Err::<Identity, Rejection>(reason),
            },
    {
        let stored = match &decoded {
            Ok(claims) => store.version_of(claims.username()),
            Err(_) => None,
        };
        state.on_decoded(decoded).on_loaded(stored).on_attach().finish()
    }

    /// Guards one request at the moment `now`: the header is read, the token
    /// checked and read at `now`, and the claimed version held against the
    /// one that the store holds at this moment.
    ///
    /// The result is what `guarded` says. The store is never written.
    pub fn call_at(
        &self,
        header: Option<&str>,
        jwt: &JwtConfig,
        store: &CredentialStore,
        now: i64,
    ) -> (r: Result<Identity, Rejection>)
        ensures
            admits(r, guarded(header_text(header), *jwt, *store, now)),
            r matches Ok(identity) ==> store@.dom().contains(identity@),
    {
        let state = GuardState::Unauthenticated.on_header(header);
        let decoded = match &state {
            GuardState::HeaderExtracted { token } => jwt.decode_at(token.as_str(), now),
            _ => Err(TokenError::Malformed),
        };
        proof {
            lemma_stages_give_outcome(header_text(header), decoded_claims(decoded), *store);
        }
        self.resume(state, decoded, store)
    }

    /// Guards one request at the present moment of the system clock.
    ///
    /// A missing or malformed header is turned away as such, whatever the
    /// time. Only a user with a stored credential is admitted.
    pub fn call(
        &self,
        header: Option<&str>,
        jwt: &JwtConfig,
        store: &CredentialStore,
    ) -> (r: Result<Identity, Rejection>)
        ensures
            exists|now: i64| admits(r, #[trigger] guarded(header_text(header), *jwt, *store, now)),
            bearer_of(header_text(header)) matches Err(reason) ==> r == Err::<Identity, Rejection>(
                reason,
            ),
            r matches Ok(identity) ==> store@.dom().contains(identity@),
    {
        self.call_at(header, jwt, store, utc_now())
    }
}

} // verus!
