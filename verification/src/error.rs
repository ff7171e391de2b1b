//! The failures that the engine and its request handlers report.

use vstd::prelude::*;

verus! {

/// Why an operation of the engine did not take effect.
///
/// Whenever an operation returns one of these, the store is left exactly as
/// it was before the call.
#[derive(Debug, Clone, Copy, PartialEq, Eq, Structural)]
pub enum EngineError {
    /// The notification's signature is malformed, too old, or does not match
    /// the payload under the shared secret.
    AuthenticationFailed,
    /// The signature is valid but the body cannot be decoded as an event.
    MalformedPayload,
    /// A call to the payment gateway failed; nothing was recorded locally.
    UpstreamUnavailable,
    /// The notification names a payment attempt that is not recorded here.
    UnknownAttempt,
    /// The attempt already has the opposite terminal status.
    ConflictingOutcome,
    /// The subscription plan does not exist.
    PlanNotFound,
    /// The record would repeat one that a store keeps unique.
    DuplicateEntry,
    /// The payment method retrieved from the gateway is not a card.
    InvalidPaymentMethod,
}

/// The class of a failed request, as the boundary answers it.
#[derive(Debug, Clone, Copy, PartialEq, Eq, Structural)]
pub enum ErrorKind {
    /// What was asked for does not exist.
    NotFound,
    /// The request itself is at fault; sending it again will not help.
    BadRequest,
    /// The request contradicts what is recorded; an operator has to look.
    Conflict,
    /// The request could not be served now; sending it again may help.
    Internal,
}

/// A failed request: its class and a message for the caller.
#[derive(Debug)]
pub struct AppError {
    pub kind: ErrorKind,
    pub message: String,
}

impl ErrorKind {
    /// The HTTP status that answers a failure of this class.
    pub open spec fn status(self) -> u16 {
        match self {
            ErrorKind::NotFound => 404,
            ErrorKind::BadRequest => 400,
            ErrorKind::Conflict => 409,
            ErrorKind::Internal => 500,
        }
    }

    /// The HTTP status that answers a failure of this class.
    #[verifier::when_used_as_spec(status)]
    pub fn status_code(self) -> (code: u16)
        ensures
            code == self.status(),
    {
        match self {
            ErrorKind::NotFound => 404,
            ErrorKind::BadRequest => 400,
            ErrorKind::Conflict => 409,
            ErrorKind::Internal => 500,
        }
    }
}

impl EngineError {
    /// The class of request failure that this failure is answered as.
    ///
    /// A notification that fails verification is the sender's fault and is
    /// not to be sent again. A conflicting outcome, and a plan that is
    /// missing while a payment for it succeeds, contradict what is
    /// recorded: they are surfaced and not to be retried either. Only what
    /// may pass by itself, a failure of the gateway, tells the sender to
    /// try again.
    pub open spec fn kind(self) -> ErrorKind {
        match self {
            EngineError::AuthenticationFailed => ErrorKind::BadRequest,
            EngineError::MalformedPayload => ErrorKind::BadRequest,
            EngineError::InvalidPaymentMethod => ErrorKind::BadRequest,
            EngineError::UnknownAttempt => ErrorKind::NotFound,
            EngineError::ConflictingOutcome => ErrorKind::Conflict,
            EngineError::DuplicateEntry => ErrorKind::Conflict,
            EngineError::UpstreamUnavailable => ErrorKind::Internal,
            EngineError::PlanNotFound => ErrorKind::Conflict,
        }
    }

    /// The message that goes with this failure.
    pub open spec fn message(self) -> Seq<char> {
        match self {
            EngineError::AuthenticationFailed => "Webhook authentication failed"@,
            EngineError::MalformedPayload => "Malformed webhook payload"@,
            EngineError::UpstreamUnavailable => "Payment gateway unavailable"@,
            EngineError::UnknownAttempt => "Payment intent not found"@,
            EngineError::ConflictingOutcome => "Conflicting payment outcome"@,
            EngineError::PlanNotFound => "Subscription not found"@,
            EngineError::DuplicateEntry => "Duplicate entry"@,
            EngineError::InvalidPaymentMethod => "Invalid payment method type"@,
        }
    }

    /// The message that goes with this failure.
    pub fn to_string(&self) -> (text: String)
        ensures
            text@ == self.message(),
    {
        match self {
            EngineError::AuthenticationFailed => "Webhook authentication failed".to_owned(),
            EngineError::MalformedPayload => "Malformed webhook payload".to_owned(),
            EngineError::UpstreamUnavailable => "Payment gateway unavailable".to_owned(),
            EngineError::UnknownAttempt => "Payment intent not found".to_owned(),
            EngineError::ConflictingOutcome => "Conflicting payment outcome".to_owned(),
            EngineError::PlanNotFound => "Subscription not found".to_owned(),
            EngineError::DuplicateEntry => "Duplicate entry".to_owned(),
            EngineError::InvalidPaymentMethod => "Invalid payment method type".to_owned(),
        }
    }
}

impl AppError {
    /// The failed request that answers a failure of the engine.
    pub open spec fn answers(&self, e: EngineError) -> bool {
        self.kind == e.kind() && self.message@ == e.message()
    }

    /// The failure is of this class and carries this message.
    pub open spec fn is(&self, kind: ErrorKind, message: Seq<char>) -> bool {
        self.kind == kind && self.message@ == message
    }

    /// A request for something that does not exist.
    pub fn not_found(message: &str) -> (e: AppError)
        ensures
            e.is(ErrorKind::NotFound, message@),
    {
        AppError { kind: ErrorKind::NotFound, message: message.to_owned() }
    }

    /// A request that is itself at fault.
    pub fn bad_request(message: &str) -> (e: AppError)
        ensures
            e.is(ErrorKind::BadRequest, message@),
    {
        AppError { kind: ErrorKind::BadRequest, message: message.to_owned() }
    }

    /// The failed request that answers a failure of the engine.
    pub fn from_engine(e: EngineError) -> (r: AppError)
        ensures
            r.answers(e),
    {
        let kind = match e {
            EngineError::AuthenticationFailed => ErrorKind::BadRequest,
            EngineError::MalformedPayload => ErrorKind::BadRequest,
            EngineError::InvalidPaymentMethod => ErrorKind::BadRequest,
            EngineError::UnknownAttempt => ErrorKind::NotFound,
            EngineError::ConflictingOutcome => ErrorKind::Conflict,
            EngineError::DuplicateEntry => ErrorKind::Conflict,
            EngineError::UpstreamUnavailable => ErrorKind::Internal,
            EngineError::PlanNotFound => ErrorKind::Conflict,
        };
        AppError { kind, message: e.to_string() }
    }

    /// The HTTP status that answers this failure.
    pub fn status_code(&self) -> (code: u16)
        ensures
            code == self.kind.status(),
    {
        self.kind.status_code()
    }
}

} // verus!
