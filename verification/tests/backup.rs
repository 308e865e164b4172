use attested_net::errors::SvrError;
use attested_net::svr::{SvrAction, SvrOutcome, SvrPhase, SvrResponse, SvrSession};

/// Drive a fresh session up to the point where the request is on the
/// wire.
fn session_with_request_sent(max_rotations: u32) -> SvrSession {
    let mut s = SvrSession::new(max_rotations);
    assert_eq!(s.start(), SvrAction::Connect);
    assert_eq!(s.on_connect_result(Ok(())), SvrAction::Handshake);
    assert_eq!(s.on_attest_result(Ok(())), SvrAction::SendRequest);
    s
}

#[test]
fn accepted_request_finishes_with_success() {
    let mut s = session_with_request_sent(3);
    assert_eq!(s.on_response(SvrResponse::Accepted), SvrAction::SurfaceOutcome);
    assert_eq!(s.outcome(), Some(SvrOutcome::Success));
}

#[test]
fn restore_failure_surfaces_the_reported_budget() {
    // The server answers a restore with two tries remaining: the caller
    // receives exactly that, and the machine does not retry on its own.
    let mut s = session_with_request_sent(3);
    assert_eq!(
        s.on_response(SvrResponse::RestoreFailed(2)),
        SvrAction::SurfaceOutcome
    );
    assert_eq!(s.outcome(), Some(SvrOutcome::RestoreFailed(2)));
    assert_eq!(s.phase, SvrPhase::Done);
    assert_eq!(s.tries_remaining, Some(2));
}

#[test]
fn restore_failure_with_zero_tries_is_terminal() {
    // tries_remaining of zero is surfaced directly and the session is
    // finished: no transition accepts a finished session, so nothing
    // can spend another try.
    let mut s = session_with_request_sent(3);
    assert_eq!(
        s.on_response(SvrResponse::RestoreFailed(0)),
        SvrAction::SurfaceOutcome
    );
    assert_eq!(s.outcome(), Some(SvrOutcome::RestoreFailed(0)));
    assert_eq!(s.phase, SvrPhase::Done);
}

#[test]
fn rotation_stops_at_the_configured_bound() {
    // With a bound of two, the third rotation demand must terminate the
    // session without asking for any further network action.
    let mut s = session_with_request_sent(2);

    assert_eq!(s.on_response(SvrResponse::RotationNeeded), SvrAction::Connect);
    assert_eq!(s.rotation_step, 1);
    assert_eq!(s.on_connect_result(Ok(())), SvrAction::Handshake);
    assert_eq!(s.on_attest_result(Ok(())), SvrAction::SendRequest);

    assert_eq!(s.on_response(SvrResponse::RotationNeeded), SvrAction::Connect);
    assert_eq!(s.rotation_step, 2);
    assert_eq!(s.on_connect_result(Ok(())), SvrAction::Handshake);
    assert_eq!(s.on_attest_result(Ok(())), SvrAction::SendRequest);

    let a = s.on_response(SvrResponse::RotationNeeded);
    assert_eq!(a, SvrAction::SurfaceOutcome);
    assert_eq!(s.outcome(), Some(SvrOutcome::RotationBoundExceeded));
    assert_eq!(s.rotation_step, 2);
}

#[test]
fn zero_rotation_budget_refuses_the_first_rotation() {
    let mut s = session_with_request_sent(0);
    assert_eq!(
        s.on_response(SvrResponse::RotationNeeded),
        SvrAction::SurfaceOutcome
    );
    assert_eq!(s.outcome(), Some(SvrOutcome::RotationBoundExceeded));
}

#[test]
fn rate_limit_pauses_until_the_caller_resumes() {
    let mut s = session_with_request_sent(3);
    assert_eq!(
        s.on_response(SvrResponse::RateLimited(30)),
        SvrAction::WaitBeforeResume(30)
    );
    assert_eq!(s.phase, SvrPhase::Paused);
    assert_eq!(s.outcome(), None);
    assert_eq!(s.resume(), SvrAction::Connect);
    assert_eq!(s.phase, SvrPhase::Connecting);
}

#[test]
fn connect_failure_ends_the_session_with_that_error() {
    let mut s = SvrSession::new(3);
    assert_eq!(s.start(), SvrAction::Connect);
    assert_eq!(
        s.on_connect_result(Err(SvrError::AllConnectionAttemptsFailed)),
        SvrAction::SurfaceOutcome
    );
    assert_eq!(
        s.outcome(),
        Some(SvrOutcome::Failed(SvrError::AllConnectionAttemptsFailed))
    );
}

#[test]
fn attestation_failure_ends_the_session_with_that_error() {
    let mut s = SvrSession::new(3);
    assert_eq!(s.start(), SvrAction::Connect);
    assert_eq!(s.on_connect_result(Ok(())), SvrAction::Handshake);
    let failure = SvrError::AttestationError(
        attested_net::errors::AttestationFailure::MeasurementMismatch,
    );
    assert_eq!(s.on_attest_result(Err(failure)), SvrAction::SurfaceOutcome);
    assert_eq!(s.outcome(), Some(SvrOutcome::Failed(failure)));
}

#[test]
fn server_error_ends_the_session_with_that_error() {
    let mut s = session_with_request_sent(3);
    assert_eq!(
        s.on_response(SvrResponse::Error(SvrError::DataMissing)),
        SvrAction::SurfaceOutcome
    );
    assert_eq!(s.outcome(), Some(SvrOutcome::Failed(SvrError::DataMissing)));
}
