use crate::errors::AuthenticationError;
use crate::strings::str_eq;
use vstd::prelude::*;

verus! {

/// The login method a caller supplies: a username and password, or a
/// standing refresh credential kept from an earlier session.
#[derive(Debug, Clone, PartialEq, Eq)]
pub enum Credentials {
    /// A username and password pair.
    User { username: String, password: String },
    /// A standing refresh token issued by an earlier login.
    RefreshToken(String),
}

/// One access/refresh token pair with its expiry, as the token exchange
/// issues them. Once `expires_at` is past, the set is stale and must not be
/// used for new requests.
#[derive(Debug, Clone, PartialEq, Eq)]
pub struct Tokens {
    /// The bearer token presented to every REST endpoint.
    pub access_token: String,
    /// When the access token lapses, as seconds of the Unix epoch.
    pub expires_at: u64,
    /// The credential that buys the next token set.
    pub refresh_token: String,
}

/// Where an authentication attempt stands.
#[derive(Debug, Clone, Copy, PartialEq, Eq, Structural)]
pub enum AuthState {
    /// No attempt has succeeded; nothing is in flight.
    Unauthenticated,
    /// An exchange with the OAuth endpoint is under way.
    Authenticating,
    /// A token set is installed.
    Authenticated,
    /// The service demanded an MFA code; the original credentials are
    /// retained so the challenge response can be combined with them.
    MfaRequired,
}

/// A network exchange the manager asks the embedding application to
/// perform against the OAuth endpoint.
#[derive(Debug, Clone, PartialEq, Eq)]
pub enum AuthRequest {
    /// The full password exchange.
    PasswordExchange { username: String, password: String },
    /// The password exchange repeated with a captured MFA code.
    ChallengeExchange { username: String, password: String, code: String },
    /// A token refresh seeded with a standing refresh token.
    TokenRefresh { refresh_token: String },
}

/// What the OAuth endpoint answered to an `AuthRequest`.
#[derive(Debug, Clone, PartialEq, Eq)]
pub enum ExchangeOutcome {
    /// A fresh token set was issued.
    NewTokens(Tokens),
    /// The service demanded an MFA challenge of the named kind before
    /// issuing tokens.
    MfaChallenge(String),
    /// The service refused the credentials.
    Rejected,
    /// The endpoint could not be reached; the detail is the transport
    /// error's text.
    Transport(String),
    /// The endpoint's response could not be decoded; the detail is the
    /// decoder's text.
    Malformed(String),
}

/// What a caller asking for usable tokens must do next.
#[derive(Debug, Clone, PartialEq, Eq)]
pub enum TokenDecision {
    /// The cached set is still valid: use it; no network exchange happens.
    UseCached(Tokens),
    /// The cached set is stale and no refresh is under way: perform exactly
    /// one token refresh seeded with this refresh token, then report its
    /// outcome through `exchange_outcome`.
    BeginRefresh(String),
    /// The cached set is stale but a refresh is already under way: wait for
    /// its outcome instead of starting another exchange.
    AwaitRefresh,
    /// No login has installed a token set yet.
    NotAuthenticated,
}

/// The token lifecycle manager: decides when a token set must be
/// (re)obtained, walks the OAuth exchange and its MFA interstitial, and
/// keeps at most one network refresh in flight at a time.
///
/// The embedding application serialises access to one manager (an exclusive
/// lock around the check-then-refresh sequence), performs the network
/// exchanges this machine asks for, and hands their outcomes back.
#[derive(Debug, Clone, PartialEq, Eq)]
pub struct TokenManager {
    /// Where the current attempt stands.
    pub state: AuthState,
    /// The credentials of the current attempt, retained to support the MFA
    /// follow-up.
    pub credentials: Option<Credentials>,
    /// The installed token set, if any login has succeeded — or the stale
    /// seed of a refresh-credential login.
    pub tokens: Option<Tokens>,
    /// Whether an exchange with the OAuth endpoint is under way.
    pub refresh_in_flight: bool,
}

/// The decision the manager takes for a caller that needs tokens at time
/// `now`.
pub open spec fn spec_decision(m: TokenManager, now: u64) -> TokenDecision {
    match m.tokens {
        Option::None => TokenDecision::NotAuthenticated,
        Option::Some(t) => if now < t.expires_at {
            TokenDecision::UseCached(t)
        } else if m.refresh_in_flight {
            TokenDecision::AwaitRefresh
        } else {
            TokenDecision::BeginRefresh(t.refresh_token)
        },
    }
}

/// The manager's state after taking that decision: beginning a refresh
/// marks it in flight; every other decision changes nothing.
pub open spec fn spec_after_decision(m: TokenManager, now: u64) -> TokenManager {
    if spec_decision(m, now) is BeginRefresh {
        TokenManager {
            state: m.state,
            credentials: m.credentials,
            tokens: m.tokens,
            refresh_in_flight: true,
        }
    } else {
        m
    }
}

/// The decisions a run of token requests at the given times produces, each
/// taken from the state the one before it left.
pub open spec fn spec_decisions(m: TokenManager, nows: Seq<u64>) -> Seq<TokenDecision>
    decreases nows.len(),
{
    if nows.len() == 0 {
        Seq::empty()
    } else {
        seq![spec_decision(m, nows[0])] + spec_decisions(
            spec_after_decision(m, nows[0]),
            nows.drop_first(),
        )
    }
}

/// The manager after a fresh token set lands: the set is installed, the
/// attempt is authenticated, and the exchange is no longer in flight.
pub open spec fn spec_install(m: TokenManager, t: Tokens) -> TokenManager {
    TokenManager {
        state: AuthState::Authenticated,
        credentials: m.credentials,
        tokens: Option::Some(t),
        refresh_in_flight: false,
    }
}

/// The state an attempt falls back to when its exchange fails in transport
/// or decoding: a failed login leaves the manager unauthenticated, while a
/// failed refresh of an installed set leaves everything as it was.
pub open spec fn spec_fallback(s: AuthState) -> AuthState {
    if s is Authenticating {
        AuthState::Unauthenticated
    } else {
        s
    }
}

impl Tokens {
    /// An owned copy of this token set, for the read-only snapshots callers
    /// receive.
    pub fn duplicate(&self) -> (r: Tokens)
        ensures
            r == *self,
    {
        Tokens {
            access_token: self.access_token.clone(),
            expires_at: self.expires_at,
            refresh_token: self.refresh_token.clone(),
        }
    }
}

impl TokenManager {
    /// The manager's well-formedness: an attempt awaiting an MFA response
    /// always retains the username and password the response must re-send.
    pub open spec fn wf(self) -> bool {
        self.state is MfaRequired ==> self.credentials matches Some(Credentials::User { .. })
    }

    /// A manager that has seen no login.
    pub fn new() -> (r: TokenManager)
        ensures
            r.state is Unauthenticated,
            r.credentials is None,
            r.tokens is None,
            !r.refresh_in_flight,
            r.wf(),
    {
        TokenManager {
            state: AuthState::Unauthenticated,
            credentials: Option::None,
            tokens: Option::None,
            refresh_in_flight: false,
        }
    }

    /// Begin a login: retain the credentials and say which exchange the
    /// application must perform.
    ///
    /// A username and password ask for the full password exchange. A
    /// standing refresh credential skips it: the manager seeds a token set
    /// with an empty access token and an epoch expiry — stale at every
    /// time — and goes straight to the one refresh that this seed forces.
    pub fn login_request(&mut self, credentials: Credentials) -> (r: AuthRequest)
        requires
            !old(self).refresh_in_flight,
        ensures
            final (self).wf(),
            final (self).state is Authenticating,
            final (self).refresh_in_flight,
            final (self).credentials == Some(credentials),
            match credentials {
                Credentials::User { username, password } => {
                    &&& final (self).tokens == old(self).tokens
                    &&& r == AuthRequest::PasswordExchange { username, password }
                },
                Credentials::RefreshToken(t) => (final (self).tokens matches Some(seed)
                    && seed.access_token@ == Seq::<char>::empty() && seed.expires_at == 0
                    && seed.refresh_token == t) && r == AuthRequest::TokenRefresh {
                    refresh_token: t,
                },
            },
    {
        self.state = AuthState::Authenticating;
        self.refresh_in_flight = true;
        match credentials {
            Credentials::User { username, password } => {
                let r = AuthRequest::PasswordExchange {
                    username: username.clone(),
                    password: password.clone(),
                };
                self.credentials = Some(Credentials::User { username, password });
                r
            },
            Credentials::RefreshToken(t) => {
                self.credentials = Some(Credentials::RefreshToken(t.clone()));
                self.tokens = Some(
                    Tokens {
                        access_token: String::new(),
                        expires_at: 0,
                        refresh_token: t.clone(),
                    },
                );
                AuthRequest::TokenRefresh { refresh_token: t }
            },
        }
    }

    /// Record what the OAuth endpoint answered to the exchange in flight,
    /// and report the attempt to the caller.
    ///
    /// Fresh tokens are installed and the attempt is authenticated. An MFA
    /// challenge retains the credentials for the follow-up: a supported
    /// challenge (an SMS code) is surfaced as `MfaCodeRequired`, any other
    /// kind as `UnsupportedChallenge` — in either case the manager stays in
    /// `MfaRequired`, so the caller may retry the challenge response or
    /// restart the login. A challenge met without retained password
    /// credentials cannot be answered and leaves the manager
    /// unauthenticated. Refused credentials report `InvalidCredentials`
    /// and leave the manager unauthenticated, not awaiting a challenge.
    /// Transport and decoding failures propagate to the caller — retry
    /// policy is the caller's responsibility — and leave an installed set
    /// in place.
    pub fn exchange_outcome(&mut self, outcome: ExchangeOutcome) -> (r: Result<
        (),
        AuthenticationError,
    >)
        requires
            old(self).refresh_in_flight,
        ensures
            old(self).wf() ==> final (self).wf(),
            !final (self).refresh_in_flight,
            final (self).credentials == old(self).credentials,
            match outcome {
                ExchangeOutcome::NewTokens(t) => *final (self) == spec_install(*old(self), t) && r
                    is Ok,
                ExchangeOutcome::MfaChallenge(kind) => final (self).tokens == old(self).tokens && {
                    if old(self).credentials matches Some(Credentials::User { .. }) {
                        &&& final (self).state is MfaRequired
                        &&& (if kind@ == "sms"@ {
                            r == Err::<(), _>(AuthenticationError::MfaCodeRequired)
                        } else {
                            r == Err::<(), _>(AuthenticationError::UnsupportedChallenge(kind))
                        })
                    } else {
                        &&& final (self).state is Unauthenticated
                        &&& r == Err::<(), _>(AuthenticationError::UnsupportedChallenge(kind))
                    }
                },
                ExchangeOutcome::Rejected => {
                    &&& final (self).tokens == old(self).tokens
                    &&& final (self).state is Unauthenticated
                    &&& r == Err::<(), _>(AuthenticationError::InvalidCredentials)
                },
                ExchangeOutcome::Transport(d) => {
                    &&& final (self).tokens == old(self).tokens
                    &&& final (self).state == spec_fallback(old(self).state)
                    &&& r == Err::<(), _>(AuthenticationError::OAuthError(d))
                },
                ExchangeOutcome::Malformed(d) => {
                    &&& final (self).tokens == old(self).tokens
                    &&& final (self).state == spec_fallback(old(self).state)
                    &&& r == Err::<(), _>(AuthenticationError::InvalidResponse(d))
                },
            },
    {
        self.refresh_in_flight = false;
        match outcome {
            ExchangeOutcome::NewTokens(t) => {
                self.tokens = Some(t);
                self.state = AuthState::Authenticated;
                Ok(())
            },
            ExchangeOutcome::MfaChallenge(kind) => {
                let has_user = match &self.credentials {
                    Some(Credentials::User { .. }) => true,
                    _ => false,
                };
                if has_user {
                    self.state = AuthState::MfaRequired;
                    if str_eq(kind.as_str(), "sms") {
                        Err(AuthenticationError::MfaCodeRequired)
                    } else {
                        Err(AuthenticationError::UnsupportedChallenge(kind))
                    }
                } else {
                    self.state = AuthState::Unauthenticated;
                    Err(AuthenticationError::UnsupportedChallenge(kind))
                }
            },
            ExchangeOutcome::Rejected => {
                self.state = AuthState::Unauthenticated;
                Err(AuthenticationError::InvalidCredentials)
            },
            ExchangeOutcome::Transport(d) => {
                if matches!(self.state, AuthState::Authenticating) {
                    self.state = AuthState::Unauthenticated;
                }
                Err(AuthenticationError::OAuthError(d))
            },
            ExchangeOutcome::Malformed(d) => {
                if matches!(self.state, AuthState::Authenticating) {
                    self.state = AuthState::Unauthenticated;
                }
                Err(AuthenticationError::InvalidResponse(d))
            },
        }
    }

    /// Begin the response to an MFA challenge with the captured code.
    ///
    /// The challenge response re-sends the retained username and password
    /// alongside the code. When no password credentials are retained there
    /// is nothing to respond to, and the manager is left untouched — the
    /// caller treats that as a completed no-op.
    pub fn challenge_request(&mut self, code: String) -> (r: Option<AuthRequest>)
        requires
            !old(self).refresh_in_flight,
        ensures
            old(self).wf() ==> final (self).wf(),
            match old(self).credentials {
                Some(Credentials::User { username, password }) => r == Some(
                    AuthRequest::ChallengeExchange { username, password, code },
                ) && *final (self) == TokenManager {
                    refresh_in_flight: true,
                    ..*old(self)
                },
                _ => r is None && *final (self) == *old(self),
            },
    {
        match &self.credentials {
            Some(Credentials::User { username, password }) => {
                let r = AuthRequest::ChallengeExchange {
                    username: username.clone(),
                    password: password.clone(),
                    code,
                };
                self.refresh_in_flight = true;
                Some(r)
            },
            _ => None,
        }
    }

    /// Decide what a caller that needs usable tokens at time `now` must do.
    ///
    /// A cached set that is still valid is returned without any network
    /// exchange. A stale set begins exactly one refresh — later callers
    /// find the exchange in flight and await its outcome rather than
    /// starting their own.
    pub fn current_decision(&mut self, now: u64) -> (r: TokenDecision)
        ensures
            old(self).wf() ==> final (self).wf(),
            r == spec_decision(*old(self), now),
            *final (self) == spec_after_decision(*old(self), now),
    {
        match &self.tokens {
            None => TokenDecision::NotAuthenticated,
            Some(t) => {
                if now < t.expires_at {
                    TokenDecision::UseCached(t.duplicate())
                } else if self.refresh_in_flight {
                    TokenDecision::AwaitRefresh
                } else {
                    let seed = t.refresh_token.clone();
                    self.refresh_in_flight = true;
                    TokenDecision::BeginRefresh(seed)
                }
            },
        }
    }

    /// The standing refresh token of the current session, for persistence
    /// across restarts. When a login used a refresh credential and no
    /// exchange has replaced it yet, this is that same credential.
    pub fn get_refresh_token(&self) -> (r: Option<String>)
        ensures
            match self.tokens {
                Some(t) => r == Some(t.refresh_token),
                None => r is None,
            },
    {
        match &self.tokens {
            Some(t) => Some(t.refresh_token.clone()),
            None => None,
        }
    }
}

/// How an attempt is reported once the session-establishment collaborator
/// has run: its failure maps to `SessionFailed` even though the token
/// exchange itself succeeded — the installed tokens remain valid for future
/// use, which is why this consults no manager state.
pub fn session_result(established: bool) -> (r: Result<(), AuthenticationError>)
    ensures
        established <==> r is Ok,
        !established ==> r == Err::<(), _>(AuthenticationError::SessionFailed),
{
    if established {
        Ok(())
    } else {
        Err(AuthenticationError::SessionFailed)
    }
}

/// How many decisions in a run begin a network refresh.
pub open spec fn spec_refreshes_begun(ds: Seq<TokenDecision>) -> nat
    decreases ds.len(),
{
    if ds.len() == 0 {
        0
    } else {
        (if ds[0] is BeginRefresh {
            1nat
        } else {
            0nat
        }) + spec_refreshes_begun(ds.drop_first())
    }
}

/// A run in which no decision begins a refresh begins none.
proof fn lemma_no_begins_counts_zero(ds: Seq<TokenDecision>)
    requires
        forall|i: int| 0 <= i < ds.len() ==> !(ds[i] is BeginRefresh),
    ensures
        spec_refreshes_begun(ds) == 0,
    decreases ds.len(),
{
    if ds.len() > 0 {
        lemma_no_begins_counts_zero(ds.drop_first());
    }
}

/// While the cached token set is still valid, no decision in a run of token
/// requests begins a network refresh — zero exchanges are observed — and
/// every caller reads the same cached set, the manager left exactly as it
/// was.
pub proof fn lemma_no_refresh_while_valid(m: TokenManager, nows: Seq<u64>)
    requires
        m.tokens is Some,
        forall|i: int| 0 <= i < nows.len() ==> nows[i] < m.tokens->0.expires_at,
    ensures
        spec_decisions(m, nows).len() == nows.len(),
        forall|i: int|
            0 <= i < nows.len() ==> spec_decisions(m, nows)[i] == TokenDecision::UseCached(
                m.tokens->0,
            ),
        spec_refreshes_begun(spec_decisions(m, nows)) == 0,
    decreases nows.len(),
{
    lemma_no_refresh_while_valid_each(m, nows);
    lemma_no_begins_counts_zero(spec_decisions(m, nows));
}

/// The element-wise part of `lemma_no_refresh_while_valid`.
proof fn lemma_no_refresh_while_valid_each(m: TokenManager, nows: Seq<u64>)
    requires
        m.tokens is Some,
        forall|i: int| 0 <= i < nows.len() ==> nows[i] < m.tokens->0.expires_at,
    ensures
        spec_decisions(m, nows).len() == nows.len(),
        forall|i: int|
            0 <= i < nows.len() ==> spec_decisions(m, nows)[i] == TokenDecision::UseCached(
                m.tokens->0,
            ),
    decreases nows.len(),
{
    if nows.len() > 0 {
        assert(spec_decision(m, nows[0]) == TokenDecision::UseCached(m.tokens->0));
        assert(spec_after_decision(m, nows[0]) == m);
        lemma_no_refresh_while_valid_each(m, nows.drop_first());
        assert forall|i: int| 0 <= i < nows.len() implies spec_decisions(m, nows)[i]
            == TokenDecision::UseCached(m.tokens->0) by {
            if i > 0 {
                assert(spec_decisions(m, nows)[i] == spec_decisions(m, nows.drop_first())[i - 1]);
            }
        }
    }
}

/// While an exchange is in flight and the cached set is stale, every
/// decision awaits that exchange: none begins a second one.
pub proof fn lemma_awaits_while_in_flight(m: TokenManager, nows: Seq<u64>)
    requires
        m.tokens is Some,
        m.refresh_in_flight,
        forall|i: int| 0 <= i < nows.len() ==> nows[i] >= m.tokens->0.expires_at,
    ensures
        spec_decisions(m, nows).len() == nows.len(),
        forall|i: int| 0 <= i < nows.len() ==> spec_decisions(m, nows)[i] is AwaitRefresh,
        spec_refreshes_begun(spec_decisions(m, nows)) == 0,
    decreases nows.len(),
{
    lemma_awaits_while_in_flight_each(m, nows);
    lemma_no_begins_counts_zero(spec_decisions(m, nows));
}

/// The element-wise part of `lemma_awaits_while_in_flight`.
proof fn lemma_awaits_while_in_flight_each(m: TokenManager, nows: Seq<u64>)
    requires
        m.tokens is Some,
        m.refresh_in_flight,
        forall|i: int| 0 <= i < nows.len() ==> nows[i] >= m.tokens->0.expires_at,
    ensures
        spec_decisions(m, nows).len() == nows.len(),
        forall|i: int| 0 <= i < nows.len() ==> spec_decisions(m, nows)[i] is AwaitRefresh,
    decreases nows.len(),
{
    if nows.len() > 0 {
        assert(spec_decision(m, nows[0]) is AwaitRefresh);
        assert(spec_after_decision(m, nows[0]) == m);
        lemma_awaits_while_in_flight_each(m, nows.drop_first());
        assert forall|i: int| 0 <= i < nows.len() implies spec_decisions(m, nows)[i]
            is AwaitRefresh by {
            if i > 0 {
                assert(spec_decisions(m, nows)[i] == spec_decisions(m, nows.drop_first())[i - 1]);
            }
        }
    }
}

/// Callers that find the token set stale cause exactly one refresh: the
/// first decision in the run begins it, and every later decision awaits
/// that same exchange.
pub proof fn lemma_single_flight(m: TokenManager, nows: Seq<u64>)
    requires
        nows.len() > 0,
        m.tokens is Some,
        !m.refresh_in_flight,
        forall|i: int| 0 <= i < nows.len() ==> nows[i] >= m.tokens->0.expires_at,
    ensures
        spec_decisions(m, nows)[0] == TokenDecision::BeginRefresh(m.tokens->0.refresh_token),
        forall|i: int| 1 <= i < nows.len() ==> spec_decisions(m, nows)[i] is AwaitRefresh,
        spec_refreshes_begun(spec_decisions(m, nows)) == 1,
{
    let after = spec_after_decision(m, nows[0]);
    assert(after.refresh_in_flight);
    assert(after.tokens == m.tokens);
    lemma_awaits_while_in_flight(after, nows.drop_first());
    assert forall|i: int| 1 <= i < nows.len() implies spec_decisions(m, nows)[i]
        is AwaitRefresh by {
        assert(spec_decisions(m, nows)[i] == spec_decisions(after, nows.drop_first())[i - 1]);
    }
    let ds = spec_decisions(m, nows);
    assert(ds.drop_first() =~= spec_decisions(after, nows.drop_first()));
    assert(spec_refreshes_begun(ds) == 1 + spec_refreshes_begun(ds.drop_first()));
}

/// Once the one refresh lands and installs a set, every caller whose
/// request comes while that set is valid observes that same set.
pub proof fn lemma_refresh_result_shared(m: TokenManager, t: Tokens, nows: Seq<u64>)
    requires
        forall|i: int| 0 <= i < nows.len() ==> nows[i] < t.expires_at,
    ensures
        forall|i: int|
            0 <= i < nows.len() ==> spec_decisions(spec_install(m, t), nows)[i]
                == TokenDecision::UseCached(t),
{
    lemma_no_refresh_while_valid(spec_install(m, t), nows);
}

/// A login that used a standing refresh credential triggers exactly one
/// refresh before succeeding: `login_request` seeds a token set whose epoch
/// expiry is stale at every time and returns the one `TokenRefresh`
/// exchange, and — as this lemma states — no decision taken while that
/// exchange is in flight begins another, nor reads the stale seed.
pub proof fn lemma_refresh_login_single_refresh(m: TokenManager, nows: Seq<u64>)
    requires
        m.refresh_in_flight,
        m.tokens matches Some(seed) && seed.expires_at == 0,
    ensures
        forall|i: int| 0 <= i < nows.len() ==> spec_decisions(m, nows)[i] is AwaitRefresh,
        spec_refreshes_begun(spec_decisions(m, nows)) == 0,
{
    lemma_awaits_while_in_flight(m, nows);
}

} // verus!
