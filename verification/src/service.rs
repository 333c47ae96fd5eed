//! The authentication service: it checks credentials, grants sessions that
//! are bound to the running instance, and judges what the session store
//! holds for a presented token.
//!
//! The service never talks to the session store itself. `login` says what is
//! to be written, `complete_login` turns the store's answer into the reply,
//! and `validate` judges the answer to a lookup of the token.

use crate::clock::{wall_clock, Timestamp};
use crate::credentials::{check_credentials, CredentialCheck, CredentialStore};
use crate::error::{AuthError, Denial, Fault, StoreError};
use crate::store::{lookup, put, SessionGrant, SessionRecord, StoreReply, SESSION_TTL_SECONDS};
use crate::token::{is_token, TokenIssuer};
use std::string::FromUtf8Error;
use vstd::prelude::*;
use vstd::string::*;
use vstd::utf8::*;

verus! {

/// The error of `String::from_utf8`, carried through unopened.
#[verifier::external_type_specification]
#[verifier::external_body]
pub struct ExFromUtf8Error(FromUtf8Error);

/// `String::from_utf8` decodes bytes as text. The contract claims what std
/// documents: the call succeeds exactly on well-formed UTF-8, and the text
/// then consists of the very bytes handed in.
pub assume_specification[ String::from_utf8 ](vec: Vec<u8>) -> (decoded: Result<String, FromUtf8Error>)
    ensures
        decoded is Ok <==> valid_utf8(vec@),
        decoded matches Ok(text) ==> encode_utf8(text@) == vec@,
;

/// What a successful login hands back to the caller.
#[derive(Clone, Debug, PartialEq, Eq)]
pub struct LoginResponse {
    pub token: String,
    pub expire_at: Timestamp,
}

/// How an instance judges what the store holds for a token.
#[derive(Clone, Copy, Debug, PartialEq, Eq, Structural)]
pub enum Verdict {
    /// The session is live and belongs to this instance.
    Accepted,
    /// There is no live session under the token, or it belongs to another
    /// instance.
    WrongSession,
    /// What is stored under the token is not text.
    Undecodable,
}

/// The verdict of the instance `identity` on `stored`, the answer of the
/// store to a lookup of the token.
pub open spec fn session_verdict(identity: Seq<char>, stored: Option<Seq<u8>>) -> Verdict {
    match stored {
        None => Verdict::WrongSession,
        Some(owner) => if !valid_utf8(owner) {
            Verdict::Undecodable
        } else if decode_utf8(owner) == identity {
            Verdict::Accepted
        } else {
            Verdict::WrongSession
        },
    }
}

/// One running instance of the service.
pub struct AuthService {
    identity: String,
    credentials: CredentialStore,
}

impl AuthService {
    /// The identity of this instance: the owner of every session it grants.
    pub closed spec fn identity_text(&self) -> Seq<char> {
        self.identity@
    }

    /// The users that this instance knows, each with their password.
    pub closed spec fn registry(&self) -> Map<Seq<char>, Seq<char>> {
        self.credentials@
    }

    /// A new instance over the given users, with an identity drawn at random.
    pub fn new(credentials: CredentialStore) -> (service: AuthService)
        ensures
            service.registry() == credentials@,
            is_token(service.identity_text()),
    {
        AuthService { identity: TokenIssuer::issue(), credentials }
    }

    /// An instance over the given users that goes by the given identity.
    pub fn with_identity(credentials: CredentialStore, identity: String) -> (service: AuthService)
        ensures
            service.registry() == credentials@,
            service.identity_text() == identity@,
    {
        AuthService { identity, credentials }
    }

    /// The identity of this instance.
    pub fn identity(&self) -> (identity: &str)
        ensures
            identity@ == self.identity_text(),
    {
        self.identity.as_str()
    }

    /// The session that this instance grants under `token`: owned by the
    /// instance, to be kept by the store for the session lifetime.
    pub fn open_session(&self, token: String) -> (grant: SessionGrant)
        ensures
            grant.token == token,
            grant.owner@ == self.identity_text(),
            grant.ttl_seconds == SESSION_TTL_SECONDS,
    {
        SessionGrant { token, owner: self.identity.clone(), ttl_seconds: SESSION_TTL_SECONDS }
    }

    /// Checks the credentials and, where they are registered, grants a
    /// session under a fresh token. The grant is to be written to the session
    /// store; `complete_login` takes the store's answer.
    ///
    /// An unknown username is denied as "user not found", a known one with
    /// another password as "wrong password".
    pub fn login(&self, username: &str, password: &str) -> (outcome: Result<SessionGrant, AuthError>)
        ensures
            match check_credentials(self.registry(), username@, password@) {
                CredentialCheck::UnknownUser => outcome == Err::<SessionGrant, AuthError>(
                    AuthError::Unauthenticated(Denial::UserNotFound),
                ),
                CredentialCheck::WrongPassword => outcome == Err::<SessionGrant, AuthError>(
                    AuthError::Unauthenticated(Denial::WrongPassword),
                ),
                CredentialCheck::Accepted => {
                    &&& outcome matches Ok(grant)
                    &&& is_token(grant.token@)
                    &&& grant.owner@ == self.identity_text()
                    &&& grant.ttl_seconds == SESSION_TTL_SECONDS
                },
            },
    {
        match self.credentials.check(username, password) {
            CredentialCheck::UnknownUser => Err(AuthError::Unauthenticated(Denial::UserNotFound)),
            CredentialCheck::WrongPassword => Err(
                AuthError::Unauthenticated(Denial::WrongPassword),
            ),
            CredentialCheck::Accepted => Ok(self.open_session(TokenIssuer::issue())),
        }
    }

    /// The reply to a login whose grant was handed to the store, given the
    /// store's answer and the time `now` at which it came.
    ///
    /// A failure of the store is passed on as an internal error. Otherwise
    /// the reply carries the token and the time at which the session ends,
    /// the session lifetime after `now`; where the clock shows a time so late
    /// that no such time exists, the login fails on the clock.
    pub fn login_response(
        grant: SessionGrant,
        persisted: Result<(), StoreError>,
        now: Timestamp,
    ) -> (outcome: Result<LoginResponse, AuthError>)
        ensures
            match persisted {
                Err(error) => outcome == Err::<LoginResponse, AuthError>(
                    AuthError::Internal(Fault::Store(error)),
                ),
                Ok(_) => if now.seconds + grant.ttl_seconds <= i64::MAX {
                    &&& outcome matches Ok(response)
                    &&& response.token == grant.token
                    &&& response.expire_at.seconds == now.seconds + grant.ttl_seconds
                    &&& response.expire_at.nanos == now.nanos
                } else {
                    outcome == Err::<LoginResponse, AuthError>(AuthError::Internal(Fault::Clock))
                },
            },
    {
        match persisted {
            Err(error) => Err(AuthError::Internal(Fault::Store(error))),
            Ok(_) => match now.checked_plus_seconds(grant.ttl_seconds) {
                Some(expire_at) => Ok(LoginResponse { token: grant.token, expire_at }),
                None => Err(AuthError::Internal(Fault::Clock)),
            },
        }
    }

    /// The reply to a login whose grant was handed to the store, given the
    /// store's answer. The session ends the session lifetime after the time
    /// that the clock shows now.
    pub fn complete_login(
        grant: SessionGrant,
        persisted: Result<(), StoreError>,
    ) -> (outcome: Result<LoginResponse, AuthError>)
        ensures
            match persisted {
                Err(error) => outcome == Err::<LoginResponse, AuthError>(
                    AuthError::Internal(Fault::Store(error)),
                ),
                Ok(_) => match outcome {
                    Ok(response) => {
                        &&& response.token == grant.token
                        &&& response.expire_at.is_normal()
                        &&& response.expire_at.seconds >= i64::MIN + grant.ttl_seconds
                    },
                    Err(error) => error == AuthError::Internal(Fault::Clock),
                },
            },
    {
        match persisted {
            Err(error) => Err(AuthError::Internal(Fault::Store(error))),
            Ok(stored) => Self::login_response(grant, Ok(stored), wall_clock()),
        }
    }

    /// Judges the store's answer to a lookup of a presented token.
    ///
    /// The session is valid only where the store holds, under the token, the
    /// identity of this very instance. Nothing stored, or another owner, is
    /// denied as "wrong session ID"; a stored value that is not text and a
    /// failure of the store are internal errors.
    pub fn validate(&self, reply: StoreReply) -> (outcome: Result<(), AuthError>)
        ensures
            match reply {
                StoreReply::Failed(error) => outcome == Err::<(), AuthError>(
                    AuthError::Internal(Fault::Store(error)),
                ),
                _ => match session_verdict(self.identity_text(), reply.stored()) {
                    Verdict::Accepted => outcome is Ok,
                    Verdict::WrongSession => outcome == Err::<(), AuthError>(
                        AuthError::Unauthenticated(Denial::WrongSession),
                    ),
                    Verdict::Undecodable => outcome matches Err(
                        AuthError::Internal(Fault::Decode(_)),
                    ),
                },
            },
    {
        match reply {
            StoreReply::Failed(error) => Err(AuthError::Internal(Fault::Store(error))),
            StoreReply::NotFound => Err(AuthError::Unauthenticated(Denial::WrongSession)),
            StoreReply::Found(value) => {
                match String::from_utf8(value) {
                    Err(error) => Err(AuthError::Internal(Fault::Decode(error.to_string()))),
                    Ok(owner) => {
                        proof {
                            encode_utf8_decode_utf8(owner@);
                        }
                        if owner == self.identity {
                            Ok(())
                        } else {
                            Err(AuthError::Unauthenticated(Denial::WrongSession))
                        }
                    },
                }
            },
        }
    }
}

/// An instance accepts exactly the sessions that bear its name: its verdict
/// on what the store holds is `Accepted` if and only if the store holds the
/// identity of the instance, as UTF-8.
pub proof fn lemma_accepts_own_identity_only(service: AuthService, stored: Option<Seq<u8>>)
    ensures
        session_verdict(service.identity_text(), stored) == Verdict::Accepted <==> stored == Some(
            encode_utf8(service.identity_text()),
        ),
{
    encode_utf8_valid_utf8(service.identity_text());
    encode_utf8_decode_utf8(service.identity_text());
    if let Some(owner) = stored {
        if valid_utf8(owner) {
            decode_utf8_encode_utf8(owner);
        }
    }
}

/// A session that an instance has written to the store is accepted by that
/// instance for as long as the store keeps it: a lookup of the token at any
/// instant before the session lifetime has passed yields a value on which
/// the instance's verdict is `Accepted`.
pub proof fn lemma_round_trip(
    service: AuthService,
    sessions: Map<Seq<char>, SessionRecord>,
    token: Seq<char>,
    now: int,
    later: int,
)
    requires
        later < now + SESSION_TTL_SECONDS * crate::clock::NANOS_PER_SECOND,
    ensures
        session_verdict(
            service.identity_text(),
            lookup(
                put(
                    sessions,
                    token,
                    encode_utf8(service.identity_text()),
                    SESSION_TTL_SECONDS as nat,
                    now,
                ),
                token,
                later,
            ),
        ) == Verdict::Accepted,
{
    lemma_accepts_own_identity_only(service, Some(encode_utf8(service.identity_text())));
}

/// Sessions are bound to the instance that granted them: on a session
/// written by one instance, the verdict of an instance with another
/// identity is `WrongSession` at every instant, expired or not.
pub proof fn lemma_bound_to_instance(
    issuer: AuthService,
    other: AuthService,
    sessions: Map<Seq<char>, SessionRecord>,
    token: Seq<char>,
    now: int,
    later: int,
)
    requires
        issuer.identity_text() != other.identity_text(),
    ensures
        session_verdict(
            other.identity_text(),
            lookup(
                put(
                    sessions,
                    token,
                    encode_utf8(issuer.identity_text()),
                    SESSION_TTL_SECONDS as nat,
                    now,
                ),
                token,
                later,
            ),
        ) == Verdict::WrongSession,
{
    encode_utf8_valid_utf8(issuer.identity_text());
    encode_utf8_decode_utf8(issuer.identity_text());
}

/// The end of a session as the login reply reports it is the instant from
/// which on the store no longer hands the session out, where both go by the
/// same clock.
pub proof fn lemma_session_ends_at_expiry(
    sessions: Map<Seq<char>, SessionRecord>,
    grant: SessionGrant,
    now: Timestamp,
    expire_at: Timestamp,
    later: int,
)
    requires
        expire_at.seconds == now.seconds + grant.ttl_seconds,
        expire_at.nanos == now.nanos,
    ensures
        lookup(
            put(
                sessions,
                grant.token@,
                encode_utf8(grant.owner@),
                grant.ttl_seconds as nat,
                now.instant(),
            ),
            grant.token@,
            later,
        ) is Some <==> later < expire_at.instant(),
{
}

/// Sessions do not disturb one another: writing a session under one token
/// leaves what the store hands out for every other token as it was.
pub proof fn lemma_sessions_independent(
    sessions: Map<Seq<char>, SessionRecord>,
    token: Seq<char>,
    owner: Seq<u8>,
    ttl_seconds: nat,
    now: int,
    other: Seq<char>,
    later: int,
)
    requires
        other != token,
    ensures
        lookup(put(sessions, token, owner, ttl_seconds, now), other, later) == lookup(
            sessions,
            other,
            later,
        ),
{
}

/// A token under which nothing was written, or whose time is up, names no
/// session: the verdict of every instance on its lookup is `WrongSession`.
pub proof fn lemma_absent_or_expired(
    service: AuthService,
    sessions: Map<Seq<char>, SessionRecord>,
    token: Seq<char>,
    now: int,
)
    requires
        !sessions.contains_key(token) || sessions[token].deadline <= now,
    ensures
        lookup(sessions, token, now) is None,
        session_verdict(service.identity_text(), lookup(sessions, token, now))
            == Verdict::WrongSession,
{
}

} // verus!
