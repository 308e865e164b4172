//! Error taxonomy for the connection layer.
//!
//! Every failure that the layer can surface is classified into a small set
//! of caller-actionable codes. The classification is total and explicit:
//! each error type has a verified mapping onto [`ErrorCode`], and
//! [`is_retryable_code`] states, as a single testable function, which
//! codes a caller may respond to by reconnecting or resubmitting.

use vstd::prelude::*;

verus! {

/// The code handed across the API boundary for each kind of failure.
///
/// Only the codes that the connection layer itself can produce are listed;
/// payload-level protocols carried over the channel have their own.
#[derive(Clone, Copy, Debug, PartialEq, Eq, Structural)]
pub enum ErrorCode {
    InvalidState,
    InternalError,
    InvalidArgument,
    Cancelled,
    InvalidMessage,
    InvalidKey,
    InvalidAttestationData,
    UntrustedIdentity,
    IoError,
    ConnectionTimedOut,
    NetworkProtocol,
    RateLimited,
    WebSocket,
    CdsiInvalidToken,
    ConnectionFailed,
    ChatServiceInactive,
    RequestTimedOut,
    RateLimitChallenge,
    PossibleCaptiveNetwork,
    SvrDataMissing,
    SvrRestoreFailed,
    SvrRotationMachineTooManySteps,
    AppExpired,
    DeviceDeregistered,
    ConnectionInvalidated,
    ConnectedElsewhere,
    KeyTransparencyError,
    KeyTransparencyVerificationFailed,
}

/// The stable numeric value of each code, as exposed to foreign callers.
pub open spec fn spec_code_value(c: ErrorCode) -> u32 {
    match c {
        ErrorCode::InvalidState => 2,
        ErrorCode::InternalError => 3,
        ErrorCode::InvalidArgument => 5,
        ErrorCode::Cancelled => 8,
        ErrorCode::InvalidMessage => 30,
        ErrorCode::InvalidKey => 40,
        ErrorCode::InvalidAttestationData => 42,
        ErrorCode::UntrustedIdentity => 60,
        ErrorCode::IoError => 140,
        ErrorCode::ConnectionTimedOut => 143,
        ErrorCode::NetworkProtocol => 144,
        ErrorCode::RateLimited => 145,
        ErrorCode::WebSocket => 146,
        ErrorCode::CdsiInvalidToken => 147,
        ErrorCode::ConnectionFailed => 148,
        ErrorCode::ChatServiceInactive => 149,
        ErrorCode::RequestTimedOut => 150,
        ErrorCode::RateLimitChallenge => 151,
        ErrorCode::PossibleCaptiveNetwork => 152,
        ErrorCode::SvrDataMissing => 160,
        ErrorCode::SvrRestoreFailed => 161,
        ErrorCode::SvrRotationMachineTooManySteps => 162,
        ErrorCode::AppExpired => 170,
        ErrorCode::DeviceDeregistered => 171,
        ErrorCode::ConnectionInvalidated => 172,
        ErrorCode::ConnectedElsewhere => 173,
        ErrorCode::KeyTransparencyError => 210,
        ErrorCode::KeyTransparencyVerificationFailed => 211,
    }
}

/// Numeric value of a code, for foreign callers that consume integers.
pub fn code_value(c: ErrorCode) -> (r: u32)
    ensures
        r == spec_code_value(c),
{
    match c {
        ErrorCode::InvalidState => 2,
        ErrorCode::InternalError => 3,
        ErrorCode::InvalidArgument => 5,
        ErrorCode::Cancelled => 8,
        ErrorCode::InvalidMessage => 30,
        ErrorCode::InvalidKey => 40,
        ErrorCode::InvalidAttestationData => 42,
        ErrorCode::UntrustedIdentity => 60,
        ErrorCode::IoError => 140,
        ErrorCode::ConnectionTimedOut => 143,
        ErrorCode::NetworkProtocol => 144,
        ErrorCode::RateLimited => 145,
        ErrorCode::WebSocket => 146,
        ErrorCode::CdsiInvalidToken => 147,
        ErrorCode::ConnectionFailed => 148,
        ErrorCode::ChatServiceInactive => 149,
        ErrorCode::RequestTimedOut => 150,
        ErrorCode::RateLimitChallenge => 151,
        ErrorCode::PossibleCaptiveNetwork => 152,
        ErrorCode::SvrDataMissing => 160,
        ErrorCode::SvrRestoreFailed => 161,
        ErrorCode::SvrRotationMachineTooManySteps => 162,
        ErrorCode::AppExpired => 170,
        ErrorCode::DeviceDeregistered => 171,
        ErrorCode::ConnectionInvalidated => 172,
        ErrorCode::ConnectedElsewhere => 173,
        ErrorCode::KeyTransparencyError => 210,
        ErrorCode::KeyTransparencyVerificationFailed => 211,
    }
}

/// Which codes a caller may act on by waiting and retrying the whole
/// operation. Everything else is fatal until the caller changes something.
pub open spec fn spec_is_retryable_code(c: ErrorCode) -> bool {
    match c {
        ErrorCode::IoError => true,
        ErrorCode::ConnectionTimedOut => true,
        ErrorCode::RequestTimedOut => true,
        ErrorCode::RateLimited => true,
        ErrorCode::WebSocket => true,
        _ => false,
    }
}

/// Explicit, total classification of retryable failure codes.
pub fn is_retryable_code(c: ErrorCode) -> (r: bool)
    ensures
        r == spec_is_retryable_code(c),
{
    match c {
        ErrorCode::IoError => true,
        ErrorCode::ConnectionTimedOut => true,
        ErrorCode::RequestTimedOut => true,
        ErrorCode::RateLimited => true,
        ErrorCode::WebSocket => true,
        _ => false,
    }
}

/// A server-signaled rate limit: the caller must wait before retrying.
#[derive(Clone, Copy, Debug, PartialEq, Eq, Structural)]
pub struct RetryLater {
    pub retry_after_seconds: u32,
}

impl RetryLater {
    /// The code for a server-signaled backoff.
    pub fn code(&self) -> (r: ErrorCode)
        ensures
            r == ErrorCode::RateLimited,
    {
        ErrorCode::RateLimited
    }

    /// The backoff duration is always available on this error.
    pub fn provide_retry_after_seconds(&self) -> (r: u32)
        ensures
            r == self.retry_after_seconds,
    {
        self.retry_after_seconds
    }
}

/// Why attestation of a remote enclave was rejected.
///
/// Each verification step has its own kind, so callers can tell a stale
/// document from a forged one.
#[derive(Clone, Copy, Debug, PartialEq, Eq, Structural)]
pub enum AttestationFailure {
    /// The evidence could not be parsed into its fields.
    MalformedEvidence,
    /// The evidence signature does not chain to the trusted root.
    UntrustedSigner,
    /// The claimed code measurement is not in the expected set.
    MeasurementMismatch,
    /// The evidence validity window does not contain the current time.
    ExpiredEvidence,
    /// The transport failed mid-handshake; retryable by reconnecting.
    Transport,
}

/// The log-safe description of an attestation failure.
pub open spec fn spec_attestation_describe(e: AttestationFailure) -> Seq<char> {
    match e {
        AttestationFailure::MalformedEvidence => "attestation evidence is malformed"@,
        AttestationFailure::UntrustedSigner => "attestation evidence signer is untrusted"@,
        AttestationFailure::MeasurementMismatch => "attestation measurement is not expected"@,
        AttestationFailure::ExpiredEvidence => "attestation evidence has expired"@,
        AttestationFailure::Transport => "transport failed during attestation"@,
    }
}

pub open spec fn spec_attestation_code(e: AttestationFailure) -> ErrorCode {
    match e {
        AttestationFailure::MalformedEvidence => ErrorCode::InvalidAttestationData,
        AttestationFailure::UntrustedSigner => ErrorCode::UntrustedIdentity,
        AttestationFailure::MeasurementMismatch => ErrorCode::UntrustedIdentity,
        AttestationFailure::ExpiredEvidence => ErrorCode::InvalidAttestationData,
        AttestationFailure::Transport => ErrorCode::IoError,
    }
}

impl AttestationFailure {
    /// Classify an attestation failure for the caller.
    pub fn code(&self) -> (r: ErrorCode)
        ensures
            r == spec_attestation_code(*self),
    {
        match self {
            AttestationFailure::MalformedEvidence => ErrorCode::InvalidAttestationData,
            AttestationFailure::UntrustedSigner => ErrorCode::UntrustedIdentity,
            AttestationFailure::MeasurementMismatch => ErrorCode::UntrustedIdentity,
            AttestationFailure::ExpiredEvidence => ErrorCode::InvalidAttestationData,
            AttestationFailure::Transport => ErrorCode::IoError,
        }
    }

    /// A log-safe, fixed description of the failure.
    pub fn describe(&self) -> (r: &'static str)
        ensures
            r@ == spec_attestation_describe(*self),
    {
        match self {
            AttestationFailure::MalformedEvidence => "attestation evidence is malformed",
            AttestationFailure::UntrustedSigner => "attestation evidence signer is untrusted",
            AttestationFailure::MeasurementMismatch => "attestation measurement is not expected",
            AttestationFailure::ExpiredEvidence => "attestation evidence has expired",
            AttestationFailure::Transport => "transport failed during attestation",
        }
    }
}

/// Failure of a session with the legacy HSM-backed enclave.
#[derive(Clone, Copy, Debug, PartialEq, Eq, Structural)]
pub enum HsmEnclaveError {
    /// The enclave sent bytes this client could not interpret.
    CommunicationError,
    /// The cryptographic handshake with the enclave failed.
    HandshakeError,
    /// The enclave's code hash is not in the trusted set.
    TrustedCodeError,
    /// The enclave presented an invalid public key.
    InvalidPublicKeyError,
    /// The caller supplied an invalid code hash.
    InvalidCodeHashError,
    /// The session was used after it became invalid.
    InvalidBridgeStateError,
}

pub open spec fn spec_hsm_enclave_code(e: HsmEnclaveError) -> ErrorCode {
    match e {
        HsmEnclaveError::CommunicationError => ErrorCode::InvalidMessage,
        HsmEnclaveError::HandshakeError => ErrorCode::InvalidMessage,
        HsmEnclaveError::TrustedCodeError => ErrorCode::UntrustedIdentity,
        HsmEnclaveError::InvalidPublicKeyError => ErrorCode::InvalidKey,
        HsmEnclaveError::InvalidCodeHashError => ErrorCode::InvalidArgument,
        HsmEnclaveError::InvalidBridgeStateError => ErrorCode::InvalidState,
    }
}

impl HsmEnclaveError {
    /// Classify an HSM-enclave failure for the caller.
    pub fn code(&self) -> (r: ErrorCode)
        ensures
            r == spec_hsm_enclave_code(*self),
    {
        match self {
            HsmEnclaveError::CommunicationError => ErrorCode::InvalidMessage,
            HsmEnclaveError::HandshakeError => ErrorCode::InvalidMessage,
            HsmEnclaveError::TrustedCodeError => ErrorCode::UntrustedIdentity,
            HsmEnclaveError::InvalidPublicKeyError => ErrorCode::InvalidKey,
            HsmEnclaveError::InvalidCodeHashError => ErrorCode::InvalidArgument,
            HsmEnclaveError::InvalidBridgeStateError => ErrorCode::InvalidState,
        }
    }
}

/// A server-demanded rate-limit challenge: the caller must complete
/// one of the offered challenge options and resubmit with the token.
#[derive(Clone, Debug, PartialEq, Eq)]
pub struct RateLimitChallenge {
    /// Opaque token to hand back with the completed challenge.
    pub token: String,
    /// The challenge options the server offered, as protocol labels.
    pub options: Vec<String>,
}

impl RateLimitChallenge {
    /// The code for a server-demanded challenge.
    pub fn code(&self) -> (r: ErrorCode)
        ensures
            r == ErrorCode::RateLimitChallenge,
    {
        ErrorCode::RateLimitChallenge
    }
}

/// Why an established channel stopped being usable.
#[derive(Clone, Copy, Debug, PartialEq, Eq, Structural)]
pub enum DisconnectedError {
    /// Another connection for the same identity superseded this one.
    ConnectedElsewhere,
    /// The server invalidated this connection.
    ConnectionInvalidated,
    /// The underlying transport failed.
    Transport,
    /// The connection was closed in an orderly way.
    Closed,
}

pub open spec fn spec_disconnected_code(e: DisconnectedError) -> ErrorCode {
    match e {
        DisconnectedError::ConnectedElsewhere => ErrorCode::ConnectedElsewhere,
        DisconnectedError::ConnectionInvalidated => ErrorCode::ConnectionInvalidated,
        DisconnectedError::Transport => ErrorCode::NetworkProtocol,
        DisconnectedError::Closed => ErrorCode::ChatServiceInactive,
    }
}

impl DisconnectedError {
    /// Classify a disconnect for the caller.
    pub fn code(&self) -> (r: ErrorCode)
        ensures
            r == spec_disconnected_code(*self),
    {
        match self {
            DisconnectedError::ConnectedElsewhere => ErrorCode::ConnectedElsewhere,
            DisconnectedError::ConnectionInvalidated => ErrorCode::ConnectionInvalidated,
            DisconnectedError::Transport => ErrorCode::NetworkProtocol,
            DisconnectedError::Closed => ErrorCode::ChatServiceInactive,
        }
    }
}

/// Failure to establish an authenticated service connection.
#[derive(Clone, Copy, Debug, PartialEq, Eq, Structural)]
pub enum ConnectError {
    /// The websocket upgrade failed after the transport connected.
    WebSocket,
    /// The TLS handshake failed in a way typical of a captive network's
    /// interception, so the app may tell the user to switch networks.
    PossibleCaptiveNetwork,
    /// Every route in every tier failed.
    AllAttemptsFailed,
    /// The configuration admits no route at all.
    InvalidConnectionConfiguration,
    /// The overall connect deadline elapsed.
    Timeout,
    /// The server refused this client version.
    AppExpired,
    /// The server no longer knows this device.
    DeviceDeregistered,
    /// The server asked for a backoff before the next attempt.
    RetryLater(RetryLater),
}

pub open spec fn spec_connect_code(e: ConnectError) -> ErrorCode {
    match e {
        ConnectError::WebSocket => ErrorCode::WebSocket,
        ConnectError::PossibleCaptiveNetwork => ErrorCode::PossibleCaptiveNetwork,
        ConnectError::AllAttemptsFailed => ErrorCode::ConnectionFailed,
        ConnectError::InvalidConnectionConfiguration => ErrorCode::ConnectionFailed,
        ConnectError::Timeout => ErrorCode::ConnectionTimedOut,
        ConnectError::AppExpired => ErrorCode::AppExpired,
        ConnectError::DeviceDeregistered => ErrorCode::DeviceDeregistered,
        ConnectError::RetryLater(_) => ErrorCode::RateLimited,
    }
}

impl ConnectError {
    /// Classify a connect failure for the caller.
    pub fn code(&self) -> (r: ErrorCode)
        ensures
            r == spec_connect_code(*self),
    {
        match self {
            ConnectError::WebSocket => ErrorCode::WebSocket,
            ConnectError::PossibleCaptiveNetwork => ErrorCode::PossibleCaptiveNetwork,
            ConnectError::AllAttemptsFailed => ErrorCode::ConnectionFailed,
            ConnectError::InvalidConnectionConfiguration => ErrorCode::ConnectionFailed,
            ConnectError::Timeout => ErrorCode::ConnectionTimedOut,
            ConnectError::AppExpired => ErrorCode::AppExpired,
            ConnectError::DeviceDeregistered => ErrorCode::DeviceDeregistered,
            ConnectError::RetryLater(_) => ErrorCode::RateLimited,
        }
    }
}

/// Failure to send one request over an established channel.
#[derive(Clone, Copy, Debug, PartialEq, Eq, Structural)]
pub enum SendError {
    /// The websocket layer reported an error.
    WebSocket,
    /// The server sent bytes this client could not interpret.
    IncomingDataInvalid,
    /// The request was malformed before it left this client.
    RequestHasInvalidHeader,
    /// No response arrived within the deadline.
    RequestTimedOut,
    /// The channel was already disconnected.
    Disconnected,
    /// The server invalidated this connection.
    ConnectionInvalidated,
    /// Another connection for the same identity superseded this one.
    ConnectedElsewhere,
}

pub open spec fn spec_send_code(e: SendError) -> ErrorCode {
    match e {
        SendError::WebSocket => ErrorCode::WebSocket,
        SendError::IncomingDataInvalid => ErrorCode::NetworkProtocol,
        SendError::RequestHasInvalidHeader => ErrorCode::InternalError,
        SendError::RequestTimedOut => ErrorCode::RequestTimedOut,
        SendError::Disconnected => ErrorCode::ChatServiceInactive,
        SendError::ConnectionInvalidated => ErrorCode::ConnectionInvalidated,
        SendError::ConnectedElsewhere => ErrorCode::ConnectedElsewhere,
    }
}

impl SendError {
    /// Classify a send failure for the caller.
    pub fn code(&self) -> (r: ErrorCode)
        ensures
            r == spec_send_code(*self),
    {
        match self {
            SendError::WebSocket => ErrorCode::WebSocket,
            SendError::IncomingDataInvalid => ErrorCode::NetworkProtocol,
            SendError::RequestHasInvalidHeader => ErrorCode::InternalError,
            SendError::RequestTimedOut => ErrorCode::RequestTimedOut,
            SendError::Disconnected => ErrorCode::ChatServiceInactive,
            SendError::ConnectionInvalidated => ErrorCode::ConnectionInvalidated,
            SendError::ConnectedElsewhere => ErrorCode::ConnectedElsewhere,
        }
    }
}

/// Failure of one request/response exchange.
#[derive(Clone, Debug, PartialEq, Eq)]
pub enum RequestError {
    /// No response arrived within the deadline.
    Timeout,
    /// The response arrived but made no sense for the request.
    Unexpected,
    /// The server reported an internal failure.
    ServerSideError,
    /// The failure belongs to the protocol carried over the channel;
    /// its own classification decides the code.
    Other(KeyTransError),
    /// The server asked for a backoff before resubmitting.
    RetryLater(RetryLater),
    /// The server demanded a rate-limit challenge first.
    Challenge(RateLimitChallenge),
    /// The channel died while the request was in flight.
    Disconnected(DisconnectedError),
}

pub open spec fn spec_request_code(e: RequestError) -> ErrorCode {
    match e {
        RequestError::Timeout => ErrorCode::RequestTimedOut,
        RequestError::Unexpected => ErrorCode::NetworkProtocol,
        RequestError::ServerSideError => ErrorCode::IoError,
        RequestError::Other(inner) => spec_key_trans_code(inner),
        RequestError::RetryLater(_) => ErrorCode::RateLimited,
        RequestError::Challenge(_) => ErrorCode::RateLimitChallenge,
        RequestError::Disconnected(d) => spec_disconnected_code(d),
    }
}

impl RequestError {
    /// Classify a request failure for the caller.
    pub fn code(&self) -> (r: ErrorCode)
        ensures
            r == spec_request_code(*self),
    {
        match self {
            RequestError::Timeout => ErrorCode::RequestTimedOut,
            RequestError::Unexpected => ErrorCode::NetworkProtocol,
            RequestError::ServerSideError => ErrorCode::IoError,
            RequestError::Other(inner) => inner.code(),
            RequestError::RetryLater(_) => ErrorCode::RateLimited,
            RequestError::Challenge(_) => ErrorCode::RateLimitChallenge,
            RequestError::Disconnected(d) => d.code(),
        }
    }
}

/// Failure of a contact-discovery lookup over the attested channel.
#[derive(Clone, Copy, Debug, PartialEq, Eq, Structural)]
pub enum LookupError {
    /// The lookup protocol itself was violated.
    EnclaveProtocol,
    /// The server reported a request-level failure.
    Server,
    /// Attestation of the lookup enclave failed.
    AttestationError(AttestationFailure),
    /// The server asked for a backoff.
    RateLimited(RetryLater),
    /// The continuation token was rejected.
    InvalidToken,
    /// The transport failed while connecting.
    ConnectTransport,
    /// The websocket layer reported an error.
    WebSocket,
    /// Every connection attempt failed before the deadline.
    AllConnectionAttemptsFailed,
    /// The request was rejected as malformed.
    InvalidArgument,
}

pub open spec fn spec_lookup_code(e: LookupError) -> ErrorCode {
    match e {
        LookupError::EnclaveProtocol => ErrorCode::NetworkProtocol,
        LookupError::Server => ErrorCode::NetworkProtocol,
        LookupError::AttestationError(a) => spec_attestation_code(a),
        LookupError::RateLimited(_) => ErrorCode::RateLimited,
        LookupError::InvalidToken => ErrorCode::CdsiInvalidToken,
        LookupError::ConnectTransport => ErrorCode::IoError,
        LookupError::WebSocket => ErrorCode::WebSocket,
        LookupError::AllConnectionAttemptsFailed => ErrorCode::ConnectionFailed,
        LookupError::InvalidArgument => ErrorCode::InvalidArgument,
    }
}

impl LookupError {
    /// Classify a lookup failure for the caller.
    pub fn code(&self) -> (r: ErrorCode)
        ensures
            r == spec_lookup_code(*self),
    {
        match self {
            LookupError::EnclaveProtocol => ErrorCode::NetworkProtocol,
            LookupError::Server => ErrorCode::NetworkProtocol,
            LookupError::AttestationError(a) => a.code(),
            LookupError::RateLimited(_) => ErrorCode::RateLimited,
            LookupError::InvalidToken => ErrorCode::CdsiInvalidToken,
            LookupError::ConnectTransport => ErrorCode::IoError,
            LookupError::WebSocket => ErrorCode::WebSocket,
            LookupError::AllConnectionAttemptsFailed => ErrorCode::ConnectionFailed,
            LookupError::InvalidArgument => ErrorCode::InvalidArgument,
        }
    }
}

/// Failure of a secure-value-store backup or restore operation.
#[derive(Clone, Copy, Debug, PartialEq, Eq, Structural)]
pub enum SvrError {
    /// Every connection attempt failed before the deadline.
    AllConnectionAttemptsFailed,
    /// The transport failed while connecting.
    ConnectTransport,
    /// The websocket upgrade failed.
    ConnectWebSocket,
    /// The server asked for a backoff.
    RateLimited(RetryLater),
    /// The service reported a websocket-level failure mid-session.
    Service,
    /// Attestation of the value-store enclave failed.
    AttestationError(AttestationFailure),
    /// The value-store protocol was violated.
    Protocol,
    /// The restore was rejected; this many tries remain before lockout.
    RestoreFailed(u32),
    /// No backup exists for this account.
    DataMissing,
    /// The previous backup's data could not be reused.
    PreviousBackupDataInvalid,
    /// The stored metadata could not be interpreted.
    MetadataInvalid,
    /// The restored payload failed to decrypt.
    DecryptionError,
    /// The rotation loop exceeded its fixed step limit.
    RotationBoundExceeded,
}

pub open spec fn spec_svr_code(e: SvrError) -> ErrorCode {
    match e {
        SvrError::AllConnectionAttemptsFailed => ErrorCode::ConnectionFailed,
        SvrError::ConnectTransport => ErrorCode::IoError,
        SvrError::ConnectWebSocket => ErrorCode::WebSocket,
        SvrError::RateLimited(_) => ErrorCode::RateLimited,
        SvrError::Service => ErrorCode::WebSocket,
        SvrError::AttestationError(a) => spec_attestation_code(a),
        SvrError::Protocol => ErrorCode::NetworkProtocol,
        SvrError::RestoreFailed(_) => ErrorCode::SvrRestoreFailed,
        SvrError::DataMissing => ErrorCode::SvrDataMissing,
        SvrError::PreviousBackupDataInvalid => ErrorCode::InvalidArgument,
        SvrError::MetadataInvalid => ErrorCode::InvalidArgument,
        SvrError::DecryptionError => ErrorCode::InvalidArgument,
        SvrError::RotationBoundExceeded => ErrorCode::SvrRotationMachineTooManySteps,
    }
}

/// The log-safe description of a backup/restore failure. The numeric
/// details — a backoff duration, a remaining-attempt budget — ride on
/// the variant's own fields, not in this fixed text.
pub open spec fn spec_svr_describe(e: SvrError) -> Seq<char> {
    match e {
        SvrError::AllConnectionAttemptsFailed => "no connection attempt succeeded"@,
        SvrError::ConnectTransport => "transport failed while connecting"@,
        SvrError::ConnectWebSocket => "websocket upgrade failed"@,
        SvrError::RateLimited(_) => "rate limited; retry after the given backoff"@,
        SvrError::Service => "value-store service failed mid-session"@,
        SvrError::AttestationError(inner) => spec_attestation_describe(inner),
        SvrError::Protocol => "value-store protocol violated"@,
        SvrError::RestoreFailed(_) => "failure to restore data; the reported tries remain"@,
        SvrError::DataMissing => "no backup data exists for this account"@,
        SvrError::PreviousBackupDataInvalid => "previous backup data is invalid"@,
        SvrError::MetadataInvalid => "stored metadata is invalid"@,
        SvrError::DecryptionError => "restored payload failed to decrypt"@,
        SvrError::RotationBoundExceeded => "too many rotation steps"@,
    }
}

impl SvrError {
    /// A log-safe, fixed description of the failure.
    pub fn describe(&self) -> (r: &'static str)
        ensures
            r@ == spec_svr_describe(*self),
    {
        match self {
            SvrError::AllConnectionAttemptsFailed => "no connection attempt succeeded",
            SvrError::ConnectTransport => "transport failed while connecting",
            SvrError::ConnectWebSocket => "websocket upgrade failed",
            SvrError::RateLimited(_) => "rate limited; retry after the given backoff",
            SvrError::Service => "value-store service failed mid-session",
            SvrError::AttestationError(inner) => inner.describe(),
            SvrError::Protocol => "value-store protocol violated",
            SvrError::RestoreFailed(_) => "failure to restore data; the reported tries remain",
            SvrError::DataMissing => "no backup data exists for this account",
            SvrError::PreviousBackupDataInvalid => "previous backup data is invalid",
            SvrError::MetadataInvalid => "stored metadata is invalid",
            SvrError::DecryptionError => "restored payload failed to decrypt",
            SvrError::RotationBoundExceeded => "too many rotation steps",
        }
    }

    /// Classify a backup/restore failure for the caller.
    pub fn code(&self) -> (r: ErrorCode)
        ensures
            r == spec_svr_code(*self),
    {
        match self {
            SvrError::AllConnectionAttemptsFailed => ErrorCode::ConnectionFailed,
            SvrError::ConnectTransport => ErrorCode::IoError,
            SvrError::ConnectWebSocket => ErrorCode::WebSocket,
            SvrError::RateLimited(_) => ErrorCode::RateLimited,
            SvrError::Service => ErrorCode::WebSocket,
            SvrError::AttestationError(a) => a.code(),
            SvrError::Protocol => ErrorCode::NetworkProtocol,
            SvrError::RestoreFailed(_) => ErrorCode::SvrRestoreFailed,
            SvrError::DataMissing => ErrorCode::SvrDataMissing,
            SvrError::PreviousBackupDataInvalid => ErrorCode::InvalidArgument,
            SvrError::MetadataInvalid => ErrorCode::InvalidArgument,
            SvrError::DecryptionError => ErrorCode::InvalidArgument,
            SvrError::RotationBoundExceeded => ErrorCode::SvrRotationMachineTooManySteps,
        }
    }

    /// The remaining-attempt budget, available exactly on a rejected restore.
    pub fn provide_tries_remaining(&self) -> (r: Option<u32>)
        ensures
            match *self {
                SvrError::RestoreFailed(n) => r == Some(n),
                _ => r is None,
            },
    {
        match self {
            SvrError::RestoreFailed(n) => Some(*n),
            _ => None,
        }
    }
}

/// Failure of a transparency-log verification query.
#[derive(Clone, Copy, Debug, PartialEq, Eq, Structural)]
pub enum KeyTransError {
    /// The log's proof failed verification: fatal for this query.
    VerificationFailed,
    /// The log's data was malformed before any proof was checked; not
    /// the same signal as a proof that verified and failed.
    BadData,
    /// The response could not be interpreted.
    InvalidResponse,
    /// The request was rejected as malformed.
    InvalidRequest,
}

pub open spec fn spec_key_trans_code(e: KeyTransError) -> ErrorCode {
    match e {
        KeyTransError::VerificationFailed => ErrorCode::KeyTransparencyVerificationFailed,
        KeyTransError::BadData => ErrorCode::KeyTransparencyError,
        KeyTransError::InvalidResponse => ErrorCode::KeyTransparencyError,
        KeyTransError::InvalidRequest => ErrorCode::KeyTransparencyError,
    }
}

impl KeyTransError {
    /// Classify a transparency-log failure for the caller.
    pub fn code(&self) -> (r: ErrorCode)
        ensures
            r == spec_key_trans_code(*self),
    {
        match self {
            KeyTransError::VerificationFailed => ErrorCode::KeyTransparencyVerificationFailed,
            KeyTransError::BadData => ErrorCode::KeyTransparencyError,
            KeyTransError::InvalidResponse => ErrorCode::KeyTransparencyError,
            KeyTransError::InvalidRequest => ErrorCode::KeyTransparencyError,
        }
    }
}

/// An error code returned by a foreign callback, where zero means success.
#[derive(Clone, Copy, Debug, PartialEq, Eq, Structural)]
pub struct CallbackError {
    /// The nonzero code the callback returned.
    pub value: i32,
}

impl CallbackError {
    /// A callback error always carries a nonzero code.
    pub open spec fn wf(&self) -> bool {
        self.value != 0
    }

    /// Interpret a callback's return value: zero is success, anything
    /// else is wrapped as an error.
    pub fn check(value: i32) -> (r: Result<(), CallbackError>)
        ensures
            value == 0 <==> r is Ok,
            match r {
                Ok(()) => value == 0,
                Err(e) => e.value == value && e.wf(),
            },
    {
        if value == 0 {
            Ok(())
        } else {
            Err(CallbackError { value })
        }
    }
}

} // verus!
