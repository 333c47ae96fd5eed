//! Why a request is refused, and how a refusal reads to the caller.

use vstd::prelude::*;
use vstd::string::*;

verus! {

/// A failure of the session store or of the way to it.
#[derive(Clone, Debug, PartialEq, Eq)]
pub enum StoreError {
    /// No connection became free within the time allowed.
    PoolExhausted,
    /// The store did not answer in time.
    Timeout,
    /// The store could not be reached; the text says why.
    Unavailable(String),
    /// The store answered with something that is neither a value nor its
    /// absence; the text describes the answer.
    UnexpectedReply(String),
}

/// Why a caller is denied.
#[derive(Clone, Copy, Debug, PartialEq, Eq, Structural)]
pub enum Denial {
    /// No user of that name is registered.
    UserNotFound,
    /// The user is registered with another password.
    WrongPassword,
    /// The token names no live session of this instance.
    WrongSession,
}

/// What went wrong inside the service.
#[derive(Clone, Debug, PartialEq, Eq)]
pub enum Fault {
    /// The session store failed.
    Store(StoreError),
    /// The stored owner of a session is not text; the message says where the
    /// bytes stop being UTF-8.
    Decode(String),
    /// The clock shows a time to which the session lifetime cannot be added.
    Clock,
}

/// A refused request.
#[derive(Clone, Debug, PartialEq, Eq)]
pub enum AuthError {
    /// The caller is not who they claim to be, or holds no live session.
    Unauthenticated(Denial),
    /// The service could not decide.
    Internal(Fault),
}

/// The class of a refusal, as the transport reports it.
#[derive(Clone, Copy, Debug, PartialEq, Eq, Structural)]
pub enum StatusCode {
    Unauthenticated,
    Internal,
}

impl StoreError {
    /// The text that describes this failure.
    pub open spec fn text(self) -> Seq<char> {
        match self {
            StoreError::PoolExhausted => "session store connection pool exhausted"@,
            StoreError::Timeout => "session store timed out"@,
            StoreError::Unavailable(reason) => reason@,
            StoreError::UnexpectedReply(reply) => reply@,
        }
    }

    /// The text that describes this failure.
    pub fn message(&self) -> (message: String)
        ensures
            message@ == self.text(),
    {
        match self {
            StoreError::PoolExhausted => "session store connection pool exhausted".to_owned(),
            StoreError::Timeout => "session store timed out".to_owned(),
            StoreError::Unavailable(reason) => reason.clone(),
            StoreError::UnexpectedReply(reply) => reply.clone(),
        }
    }
}

impl Denial {
    /// The reason as the caller reads it.
    pub open spec fn text(self) -> Seq<char> {
        match self {
            Denial::UserNotFound => "user not found"@,
            Denial::WrongPassword => "wrong password"@,
            Denial::WrongSession => "wrong session ID"@,
        }
    }

    /// The reason as the caller reads it.
    pub fn message(&self) -> (message: &'static str)
        ensures
            message@ == self.text(),
    {
        match self {
            Denial::UserNotFound => "user not found",
            Denial::WrongPassword => "wrong password",
            Denial::WrongSession => "wrong session ID",
        }
    }
}

impl Fault {
    /// The text that describes this fault.
    pub open spec fn text(self) -> Seq<char> {
        match self {
            Fault::Store(error) => error.text(),
            Fault::Decode(reason) => reason@,
            Fault::Clock => "clock out of range"@,
        }
    }

    /// The text that describes this fault.
    pub fn message(&self) -> (message: String)
        ensures
            message@ == self.text(),
    {
        match self {
            Fault::Store(error) => error.message(),
            Fault::Decode(reason) => reason.clone(),
            Fault::Clock => "clock out of range".to_owned(),
        }
    }
}

impl AuthError {
    /// The class of this refusal.
    pub open spec fn status(self) -> StatusCode {
        match self {
            AuthError::Unauthenticated(_) => StatusCode::Unauthenticated,
            AuthError::Internal(_) => StatusCode::Internal,
        }
    }

    /// The text that goes with this refusal.
    pub open spec fn text(self) -> Seq<char> {
        match self {
            AuthError::Unauthenticated(denial) => denial.text(),
            AuthError::Internal(fault) => fault.text(),
        }
    }

    /// The class of this refusal: a denial is reported as unauthenticated,
    /// every fault as internal.
    pub fn code(&self) -> (code: StatusCode)
        ensures
            code == self.status(),
    {
        match self {
            AuthError::Unauthenticated(_) => StatusCode::Unauthenticated,
            AuthError::Internal(_) => StatusCode::Internal,
        }
    }

    /// The text that goes with this refusal.
    pub fn message(&self) -> (message: String)
        ensures
            message@ == self.text(),
    {
        match self {
            AuthError::Unauthenticated(denial) => denial.message().to_owned(),
            AuthError::Internal(fault) => fault.message(),
        }
    }
}

} // verus!
