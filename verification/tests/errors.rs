use attested_net::credentials::{
    ExpiringProfileKeyCredentialResponse, PokshoError, ProfileKeyCommitment,
    ProfileKeyCredentialRequest, UuidCiphertext,
};
use attested_net::errors::{
    code_value, is_retryable_code, AttestationFailure, CallbackError, ConnectError,
    DisconnectedError, ErrorCode, HsmEnclaveError, KeyTransError, LookupError, RequestError,
    RetryLater, SendError, SvrError,
};
use attested_net::metrics::Cds2Metrics;

#[test]
fn code_values_match_the_foreign_interface() {
    assert_eq!(code_value(ErrorCode::InvalidState), 2);
    assert_eq!(code_value(ErrorCode::IoError), 140);
    assert_eq!(code_value(ErrorCode::ConnectionTimedOut), 143);
    assert_eq!(code_value(ErrorCode::RateLimited), 145);
    assert_eq!(code_value(ErrorCode::ConnectionFailed), 148);
    assert_eq!(code_value(ErrorCode::RequestTimedOut), 150);
    assert_eq!(code_value(ErrorCode::SvrDataMissing), 160);
    assert_eq!(code_value(ErrorCode::SvrRestoreFailed), 161);
    assert_eq!(code_value(ErrorCode::SvrRotationMachineTooManySteps), 162);
    assert_eq!(code_value(ErrorCode::ConnectionInvalidated), 172);
    assert_eq!(code_value(ErrorCode::ConnectedElsewhere), 173);
    assert_eq!(code_value(ErrorCode::KeyTransparencyVerificationFailed), 211);
}

#[test]
fn retryable_classification_is_explicit() {
    assert!(is_retryable_code(ErrorCode::IoError));
    assert!(is_retryable_code(ErrorCode::ConnectionTimedOut));
    assert!(is_retryable_code(ErrorCode::RequestTimedOut));
    assert!(is_retryable_code(ErrorCode::RateLimited));
    assert!(is_retryable_code(ErrorCode::WebSocket));
    assert!(!is_retryable_code(ErrorCode::UntrustedIdentity));
    assert!(!is_retryable_code(ErrorCode::InvalidAttestationData));
    assert!(!is_retryable_code(ErrorCode::ConnectionFailed));
    assert!(!is_retryable_code(ErrorCode::SvrRestoreFailed));
    assert!(!is_retryable_code(ErrorCode::SvrRotationMachineTooManySteps));
}

#[test]
fn connect_errors_classify_per_variant() {
    assert_eq!(ConnectError::WebSocket.code(), ErrorCode::WebSocket);
    assert_eq!(ConnectError::AllAttemptsFailed.code(), ErrorCode::ConnectionFailed);
    assert_eq!(
        ConnectError::InvalidConnectionConfiguration.code(),
        ErrorCode::ConnectionFailed
    );
    assert_eq!(ConnectError::Timeout.code(), ErrorCode::ConnectionTimedOut);
    assert_eq!(
        ConnectError::PossibleCaptiveNetwork.code(),
        ErrorCode::PossibleCaptiveNetwork
    );
    assert_eq!(code_value(ErrorCode::PossibleCaptiveNetwork), 152);
    assert_eq!(ConnectError::AppExpired.code(), ErrorCode::AppExpired);
    assert_eq!(ConnectError::DeviceDeregistered.code(), ErrorCode::DeviceDeregistered);
    assert_eq!(
        ConnectError::RetryLater(RetryLater { retry_after_seconds: 9 }).code(),
        ErrorCode::RateLimited
    );
}

#[test]
fn send_and_request_errors_classify_per_variant() {
    assert_eq!(SendError::RequestTimedOut.code(), ErrorCode::RequestTimedOut);
    assert_eq!(SendError::Disconnected.code(), ErrorCode::ChatServiceInactive);
    assert_eq!(SendError::ConnectionInvalidated.code(), ErrorCode::ConnectionInvalidated);
    assert_eq!(SendError::ConnectedElsewhere.code(), ErrorCode::ConnectedElsewhere);
    assert_eq!(RequestError::Timeout.code(), ErrorCode::RequestTimedOut);
    assert_eq!(RequestError::ServerSideError.code(), ErrorCode::IoError);
    let challenge = attested_net::errors::RateLimitChallenge {
        token: String::from("challenge-token"),
        options: vec![String::from("captcha")],
    };
    assert_eq!(challenge.code(), ErrorCode::RateLimitChallenge);
    assert_eq!(RequestError::Challenge(challenge).code(), ErrorCode::RateLimitChallenge);
    assert_eq!(
        RequestError::Disconnected(DisconnectedError::ConnectedElsewhere).code(),
        ErrorCode::ConnectedElsewhere
    );
    assert_eq!(
        RequestError::Disconnected(DisconnectedError::Closed).code(),
        ErrorCode::ChatServiceInactive
    );
}

#[test]
fn attestation_failures_classify_per_kind() {
    assert_eq!(
        AttestationFailure::MalformedEvidence.code(),
        ErrorCode::InvalidAttestationData
    );
    assert_eq!(AttestationFailure::UntrustedSigner.code(), ErrorCode::UntrustedIdentity);
    assert_eq!(
        AttestationFailure::MeasurementMismatch.code(),
        ErrorCode::UntrustedIdentity
    );
    assert_eq!(
        AttestationFailure::ExpiredEvidence.code(),
        ErrorCode::InvalidAttestationData
    );
    assert_eq!(AttestationFailure::Transport.code(), ErrorCode::IoError);
}

#[test]
fn svr_errors_classify_and_expose_the_try_budget() {
    assert_eq!(SvrError::RestoreFailed(2).code(), ErrorCode::SvrRestoreFailed);
    assert_eq!(SvrError::RestoreFailed(2).provide_tries_remaining(), Some(2));
    assert_eq!(SvrError::DataMissing.provide_tries_remaining(), None);
    assert_eq!(
        SvrError::RotationBoundExceeded.code(),
        ErrorCode::SvrRotationMachineTooManySteps
    );
    assert_eq!(SvrError::DataMissing.code(), ErrorCode::SvrDataMissing);
    assert_eq!(
        SvrError::AttestationError(AttestationFailure::ExpiredEvidence).code(),
        ErrorCode::InvalidAttestationData
    );
    assert_eq!(
        SvrError::RateLimited(RetryLater { retry_after_seconds: 1 }).code(),
        ErrorCode::RateLimited
    );
}

#[test]
fn lookup_and_key_trans_errors_classify_per_variant() {
    assert_eq!(LookupError::InvalidToken.code(), ErrorCode::CdsiInvalidToken);
    assert_eq!(
        LookupError::AllConnectionAttemptsFailed.code(),
        ErrorCode::ConnectionFailed
    );
    assert_eq!(
        LookupError::AttestationError(AttestationFailure::UntrustedSigner).code(),
        ErrorCode::UntrustedIdentity
    );
    assert_eq!(
        KeyTransError::VerificationFailed.code(),
        ErrorCode::KeyTransparencyVerificationFailed
    );
    assert_eq!(KeyTransError::InvalidResponse.code(), ErrorCode::KeyTransparencyError);
    // Malformed log data is not the same signal as a proof that failed.
    assert_eq!(KeyTransError::BadData.code(), ErrorCode::KeyTransparencyError);
    assert_eq!(
        RequestError::Other(KeyTransError::VerificationFailed).code(),
        ErrorCode::KeyTransparencyVerificationFailed
    );
    assert_eq!(
        RequestError::Other(KeyTransError::BadData).code(),
        ErrorCode::KeyTransparencyError
    );
}

#[test]
fn svr_errors_describe_themselves() {
    assert_eq!(
        SvrError::RestoreFailed(2).describe(),
        "failure to restore data; the reported tries remain"
    );
    assert_eq!(SvrError::RotationBoundExceeded.describe(), "too many rotation steps");
    assert_eq!(
        SvrError::AttestationError(AttestationFailure::ExpiredEvidence).describe(),
        "attestation evidence has expired"
    );
}

#[test]
fn hsm_enclave_errors_classify_per_variant() {
    assert_eq!(HsmEnclaveError::CommunicationError.code(), ErrorCode::InvalidMessage);
    assert_eq!(HsmEnclaveError::HandshakeError.code(), ErrorCode::InvalidMessage);
    assert_eq!(HsmEnclaveError::TrustedCodeError.code(), ErrorCode::UntrustedIdentity);
    assert_eq!(HsmEnclaveError::InvalidPublicKeyError.code(), ErrorCode::InvalidKey);
    assert_eq!(code_value(ErrorCode::InvalidKey), 40);
    assert_eq!(HsmEnclaveError::InvalidCodeHashError.code(), ErrorCode::InvalidArgument);
    assert_eq!(HsmEnclaveError::InvalidBridgeStateError.code(), ErrorCode::InvalidState);
}

#[test]
fn attestation_failures_describe_themselves() {
    assert_eq!(
        AttestationFailure::MeasurementMismatch.describe(),
        "attestation measurement is not expected"
    );
    assert_eq!(
        AttestationFailure::ExpiredEvidence.describe(),
        "attestation evidence has expired"
    );
}

#[test]
fn retry_later_carries_its_duration() {
    let r = RetryLater { retry_after_seconds: 77 };
    assert_eq!(r.code(), ErrorCode::RateLimited);
    assert_eq!(r.provide_retry_after_seconds(), 77);
}

#[test]
fn callback_error_wraps_nonzero_codes_only() {
    assert_eq!(CallbackError::check(0), Ok(()));
    assert_eq!(CallbackError::check(-5), Err(CallbackError { value: -5 }));
    assert_eq!(CallbackError::check(12), Err(CallbackError { value: 12 }));
}

#[test]
fn credential_payloads_enforce_their_wire_shape() {
    assert!(UuidCiphertext::new(vec![0u8; 64]).is_some());
    assert!(UuidCiphertext::new(vec![0u8; 63]).is_none());
    assert!(ProfileKeyCommitment::new(vec![0u8; 96]).is_some());
    assert!(ProfileKeyCommitment::new(vec![0u8; 95]).is_none());
    assert!(ProfileKeyCredentialRequest::new(vec![0u8; 32], vec![0u8; 128], vec![]).is_some());
    assert!(ProfileKeyCredentialRequest::new(vec![0u8; 31], vec![0u8; 128], vec![]).is_none());
    let resp = ExpiringProfileKeyCredentialResponse::new(vec![0u8; 160], 424242, vec![1, 2]);
    let resp = resp.expect("valid response payload");
    assert_eq!(resp.credential_expiration_time, 424242);
    assert!(ExpiringProfileKeyCredentialResponse::new(vec![0u8; 159], 0, vec![]).is_none());
    let _ = PokshoError::VerificationFailure;
}

#[test]
fn metrics_start_empty() {
    let m = Cds2Metrics::new();
    assert!(m.0.is_empty());
}
