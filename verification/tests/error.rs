use auth::error::{AuthError, Denial, Fault, StatusCode, StoreError};

#[test]
fn denials_read_as_the_caller_expects() {
    assert_eq!(Denial::UserNotFound.message(), "user not found");
    assert_eq!(Denial::WrongPassword.message(), "wrong password");
    assert_eq!(Denial::WrongSession.message(), "wrong session ID");
}

#[test]
fn store_errors_describe_themselves() {
    assert_eq!(StoreError::PoolExhausted.message(), "session store connection pool exhausted");
    assert_eq!(StoreError::Timeout.message(), "session store timed out");
    assert_eq!(StoreError::Unavailable("no route to host".to_string()).message(), "no route to host");
    assert_eq!(StoreError::UnexpectedReply("bulk()".to_string()).message(), "bulk()");
}

#[test]
fn faults_describe_themselves() {
    assert_eq!(Fault::Store(StoreError::Timeout).message(), "session store timed out");
    assert_eq!(Fault::Decode("invalid utf-8".to_string()).message(), "invalid utf-8");
    assert_eq!(Fault::Clock.message(), "clock out of range");
}

#[test]
fn denials_are_reported_as_unauthenticated() {
    for denial in [Denial::UserNotFound, Denial::WrongPassword, Denial::WrongSession] {
        let error = AuthError::Unauthenticated(denial);
        assert_eq!(error.code(), StatusCode::Unauthenticated);
        assert_eq!(error.message(), denial.message());
    }
}

#[test]
fn faults_are_reported_as_internal() {
    for fault in [
        Fault::Store(StoreError::PoolExhausted),
        Fault::Store(StoreError::Unavailable("down".to_string())),
        Fault::Decode("bad bytes".to_string()),
        Fault::Clock,
    ] {
        let error = AuthError::Internal(fault.clone());
        assert_eq!(error.code(), StatusCode::Internal);
        assert_eq!(error.message(), fault.message());
    }
}
