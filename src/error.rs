use vstd::prelude::*;

verus! {

/// The kinds of failure that the protocol operations report.
#[derive(Debug, Clone, Copy, PartialEq, Eq, Structural)]
pub enum SignalProtocolError {
    /// Key bytes that are too short, too long or of an unknown key type.
    InvalidKeyMaterial,
    /// A signature or a MAC did not verify.
    SignatureVerificationFailed,
    /// A certificate was checked at or after its expiration time.
    CertificateExpired,
    /// A message carries a version that this library does not speak.
    UnknownMessageVersion(u8),
    /// A message type code outside the fixed enumeration.
    UnrecognizedMessageType(u8),
    /// A message ended early or holds bytes that do not frame.
    InvalidMessage,
    /// No session is stored for the address.
    SessionNotFound,
    /// The remote identity is not the one on record.
    UntrustedIdentity,
    /// A counter behind the window of cached keys, a replay, or a jump
    /// too far ahead.
    ReplayOrOrderingViolation,
    /// The referenced one-time prekey is not (or no longer) available.
    InvalidPreKeyId,
    /// The referenced signed prekey is not available.
    InvalidSignedPreKeyId,
    /// No sender-key state is stored for the distribution.
    NoSenderKeyState,
    /// An argument that does not have the required form.
    InvalidArgument,
    /// The storage backend failed.
    StorageFailure,
}

/// Results of the protocol operations.
pub type Result<T> = core::result::Result<T, SignalProtocolError>;

impl SignalProtocolError {
    /// A short human-readable name of the failure.
    pub fn description(&self) -> &'static str {
        match self {
            SignalProtocolError::InvalidKeyMaterial => "invalid key material",
            SignalProtocolError::SignatureVerificationFailed => "signature verification failed",
            SignalProtocolError::CertificateExpired => "certificate expired",
            SignalProtocolError::UnknownMessageVersion(_) => "unknown message version",
            SignalProtocolError::UnrecognizedMessageType(_) => "unknown message type",
            SignalProtocolError::InvalidMessage => "invalid message",
            SignalProtocolError::SessionNotFound => "session not found",
            SignalProtocolError::UntrustedIdentity => "untrusted identity",
            SignalProtocolError::ReplayOrOrderingViolation => "message replayed or out of order",
            SignalProtocolError::InvalidPreKeyId => "prekey unavailable",
            SignalProtocolError::InvalidSignedPreKeyId => "signed prekey unavailable",
            SignalProtocolError::NoSenderKeyState => "no sender key state",
            SignalProtocolError::InvalidArgument => "invalid argument",
            SignalProtocolError::StorageFailure => "storage failure",
        }
    }
}

} // verus!
