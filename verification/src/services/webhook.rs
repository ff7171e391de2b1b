//! The notifications of the gateway.
//!
//! The gateway signs each notification. Its verifier checks the signature
//! against the shared secret and decodes the body; the engine screens the
//! signature header, hands the notification to the verifier, and turns the
//! verifier's answer into a typed event or into the error that the sender
//! is answered with.

use vstd::prelude::*;
use vstd::string::{is_ascii, is_ascii_spec_bytes, StrSliceExecFns};
use vstd::utf8::is_ascii_chars;
use stripe_webhook::{EventObject, Webhook, WebhookError};
use crate::error::EngineError;

verus! {

/// Why the gateway's verifier rejected a notification.
#[derive(Debug, Clone, Copy, PartialEq, Eq, Structural)]
pub enum WebhookFailure {
    /// The secret cannot be used as a key.
    BadKey,
    /// The signature header is not plain text, or its timestamp is not a
    /// number of at most 18 characters, or the clock is out of range.
    BadHeader,
    /// The signature header lacks a part, or the signature does not match
    /// the payload.
    BadSignature,
    /// The signature is older than the verifier tolerates.
    BadTimestamp,
    /// The signature is valid, but the body is not an event.
    BadParse,
}

/// An authenticated event as the gateway's verifier decoded it.
#[derive(Debug)]
pub struct GatewayEvent {
    /// The kind of the event, such as `payment_intent.succeeded`.
    pub kind: String,
    /// The gateway's identifier of the payment attempt that the event is
    /// about, where it is about one.
    pub payment_intent: Option<String>,
}

/// A decoded event as the contracts see it.
pub struct GatewayEventView {
    pub kind: Seq<char>,
    pub payment_intent: Option<Seq<char>>,
}

impl View for GatewayEvent {
    type V = GatewayEventView;

    open spec fn view(&self) -> GatewayEventView {
        GatewayEventView { kind: self.kind@, payment_intent: self.payment_intent.deep_view() }
    }
}

/// A notification as the engine handles it.
#[derive(Debug)]
pub enum WebhookEvent {
    /// The payment attempt with this gateway identifier succeeded.
    Succeeded(String),
    /// The payment attempt with this gateway identifier failed.
    Failed(String),
    /// An event of a kind that the engine does not handle.
    Unhandled(String),
}

/// A typed event as the contracts see it.
pub enum WebhookEventView {
    Succeeded(Seq<char>),
    Failed(Seq<char>),
    Unhandled(Seq<char>),
}

impl View for WebhookEvent {
    type V = WebhookEventView;

    open spec fn view(&self) -> WebhookEventView {
        match self {
            WebhookEvent::Succeeded(id) => WebhookEventView::Succeeded(id@),
            WebhookEvent::Failed(id) => WebhookEventView::Failed(id@),
            WebhookEvent::Unhandled(kind) => WebhookEventView::Unhandled(kind@),
        }
    }
}

/// What became of a notification that was accepted.
#[derive(Debug, Clone, Copy, PartialEq, Eq, Structural)]
pub enum Delivery {
    /// The outcome was applied to a pending attempt.
    Applied,
    /// The attempt already had the outcome: nothing was left to do.
    Redelivered,
    /// The attempt is not recorded here: the sender is expected to deliver
    /// again.
    UnknownAttempt,
    /// The event is of a kind that the engine ignores.
    Unhandled,
}

/// The kind of the event that reports a succeeded payment.
pub open spec fn succeeded_kind() -> Seq<char> {
    "payment_intent.succeeded"@
}

/// The kind of the event that reports a failed payment.
pub open spec fn failed_kind() -> Seq<char> {
    "payment_intent.payment_failed"@
}

impl WebhookFailure {
    /// The error that the sender of a rejected notification is answered
    /// with: an undecodable body under a valid signature is malformed,
    /// everything else failed authentication.
    pub open spec fn error(self) -> EngineError {
        if self == WebhookFailure::BadParse {
            EngineError::MalformedPayload
        } else {
            EngineError::AuthenticationFailed
        }
    }

    /// The error that the sender of a rejected notification is answered
    /// with.
    #[verifier::when_used_as_spec(error)]
    pub fn to_error(self) -> (e: EngineError)
        ensures
            e == self.error(),
    {
        match self {
            WebhookFailure::BadParse => EngineError::MalformedPayload,
            _ => EngineError::AuthenticationFailed,
        }
    }
}

/// The typed event that a decoded event stands for. An event of the two
/// payment kinds that names its attempt is that attempt's outcome; every
/// other event is unhandled and keeps its kind.
pub open spec fn typed(event: GatewayEventView) -> WebhookEventView {
    match event.payment_intent {
        Some(id) if event.kind == succeeded_kind() => WebhookEventView::Succeeded(id),
        Some(id) if event.kind == failed_kind() => WebhookEventView::Failed(id),
        _ => WebhookEventView::Unhandled(event.kind),
    }
}

/// What the engine makes of the verifier's answer.
pub open spec fn verdict(answer: Result<GatewayEventView, WebhookFailure>) -> Result<
    WebhookEventView,
    EngineError,
> {
    match answer {
        Ok(event) => Ok(typed(event)),
        Err(failure) => Err(failure.error()),
    }
}

/// Types a decoded event.
pub fn decode(event: GatewayEvent) -> (typed_event: WebhookEvent)
    ensures
        typed_event@ == typed(event@),
{
    let succeeded = event.kind == "payment_intent.succeeded".to_owned();
    let failed = event.kind == "payment_intent.payment_failed".to_owned();
    match event.payment_intent {
        Some(id) => {
            if succeeded {
                WebhookEvent::Succeeded(id)
            } else if failed {
                WebhookEvent::Failed(id)
            } else {
                WebhookEvent::Unhandled(event.kind)
            }
        },
        None => WebhookEvent::Unhandled(event.kind),
    }
}

/// Turns the verifier's answer into a typed event, or into the error that
/// the sender is answered with.
///
/// A rejected notification never yields an event: it is `MalformedPayload`
/// where the signature was valid and the body undecodable, and
/// `AuthenticationFailed` in every other case.
pub fn verify(answer: Result<GatewayEvent, WebhookFailure>) -> (r: Result<WebhookEvent, EngineError>)
    ensures
        match r {
            Ok(event) => answer is Ok && Ok::<WebhookEventView, EngineError>(event@) == verdict(
                Ok(answer->Ok_0@),
            ),
            Err(e) => answer is Err && e == answer->Err_0.error(),
        },
{
    match answer {
        Ok(event) => Ok(decode(event)),
        Err(failure) => Err(failure.to_error()),
    }
}

/// The most characters that the timestamp of a signature header may have.
pub const TIMESTAMP_LENGTH: usize = 18;

/// The code of the comma, which separates the parts of a signature header.
const COMMA: u8 = 44;

/// The code of the letter `t`, the key of a timestamp.
const LETTER_T: u8 = 116;

/// The code of the equals sign, which separates a key from its value.
const EQUALS: u8 = 61;

/// The times, in seconds, between which the clock of a request must lie.
pub const CLOCK_BOUND: i64 = 8_000_000_000_000_000_000;

/// The part of `header` from `i` up to `j` is one of the parts that the
/// commas of the header separate.
pub open spec fn is_part(header: Seq<char>, i: int, j: int) -> bool {
    &&& 0 <= i <= j <= header.len()
    &&& (i == 0 || header[i - 1] == ',')
    &&& (j == header.len() || header[j] == ',')
    &&& forall|k: int| i <= k < j ==> header[k] != ','
}

/// The part of `header` that starts at `i` is a timestamp: `t=` and a
/// value.
pub open spec fn is_timestamp(header: Seq<char>, i: int, j: int) -> bool {
    j - i >= 2 && header[i] == 't' && header[i + 1] == '='
}

/// No timestamp of the header has a value of more characters than a
/// timestamp may have.
pub open spec fn timestamps_fit(header: Seq<char>) -> bool {
    forall|i: int, j: int|
        #[trigger] is_part(header, i, j) && is_timestamp(header, i, j) ==> j - i <= 2
            + TIMESTAMP_LENGTH
}

/// The notification may be handed to the gateway's verifier: its signature
/// header is plain text whose timestamps fit, and the clock is in range.
pub open spec fn screened(signature: Seq<char>, now: i64) -> bool {
    &&& is_ascii_chars(signature)
    &&& timestamps_fit(signature)
    &&& -CLOCK_BOUND <= now <= CLOCK_BOUND
}

/// What the gateway's verifier makes of a payload and its signature header
/// under a secret at a time: the decoded event where the signature is that
/// of the payload under the secret and no older than the verifier
/// tolerates, and the reason of the rejection otherwise.
pub uninterp spec fn gateway_event(
    payload: Seq<char>,
    signature: Seq<char>,
    secret: Seq<char>,
    now: i64,
) -> Result<GatewayEventView, WebhookFailure>;

/// What is made of a notification: the verifier's answer where the
/// notification passes the screening, and a bad header where it does not.
pub open spec fn verified(
    payload: Seq<char>,
    signature: Seq<char>,
    secret: Seq<char>,
    now: i64,
) -> Result<GatewayEventView, WebhookFailure> {
    if screened(signature, now) {
        gateway_event(payload, signature, secret, now)
    } else {
        Err(WebhookFailure::BadHeader)
    }
}

/// A verifier's answer with its strings replaced by their views.
pub open spec fn verified_view(answer: Result<GatewayEvent, WebhookFailure>) -> Result<
    GatewayEventView,
    WebhookFailure,
> {
    match answer {
        Ok(event) => Ok(event@),
        Err(e) => Err(e),
    }
}

/// Calls `stripe_webhook::Webhook::construct_event_with_timestamp`, which
/// parses the signature header, compares the signature with the HMAC-SHA256
/// of timestamp and payload under the secret, compares the timestamp with
/// `now`, and decodes the payload. The result is what the verifier returns
/// on these arguments: of an event its type and, where it reports the
/// success or the failure of a payment intent, that intent's identifier;
/// of an error its variant.
///
/// The verifier subtracts the header's timestamp from `now`: a header
/// whose timestamps have at most 18 characters and a clock within the
/// bound keep the difference in range.
#[verifier::external_body]
fn construct_event(payload: &str, signature: &str, secret: &str, now: i64) -> (r: Result<
    GatewayEvent,
    WebhookFailure,
>)
    requires
        timestamps_fit(signature@),
        -CLOCK_BOUND <= now <= CLOCK_BOUND,
    ensures
        verified_view(r) == gateway_event(payload@, signature@, secret@, now),
{
    match Webhook::construct_event_with_timestamp(payload, signature, secret, now) {
        Ok(event) => Ok(GatewayEvent {
            kind: event.type_.as_str().to_owned(),
            payment_intent: match event.data.object {
                EventObject::PaymentIntentSucceeded(intent) => Some(intent.id.to_string()),
                EventObject::PaymentIntentPaymentFailed(intent) => Some(intent.id.to_string()),
                _ => None,
            },
        }),
        Err(WebhookError::BadKey) => Err(WebhookFailure::BadKey),
        Err(WebhookError::BadHeader(_)) => Err(WebhookFailure::BadHeader),
        Err(WebhookError::BadSignature) => Err(WebhookFailure::BadSignature),
        Err(WebhookError::BadTimestamp(_)) => Err(WebhookFailure::BadTimestamp),
        Err(WebhookError::BadParse(_)) => Err(WebhookFailure::BadParse),
    }
}

/// Tells whether the timestamps of a signature header fit.
fn timestamps_short(signature: &str) -> (fit: bool)
    requires
        is_ascii(signature),
    ensures
        fit == timestamps_fit(signature@),
{
    broadcast use is_ascii_spec_bytes;

    let ghost header = signature@;
    let n = signature.unicode_len();
    let mut start: usize = 0;
    let mut k: usize = 0;
    while k < n
        invariant
            is_ascii(signature),
            header == signature@,
            n == header.len(),
            0 <= start <= k <= n,
            start == 0 || header[start - 1] == ',',
            forall|m: int| start <= m < k ==> header[m] != ',',
            forall|i: int, j: int|
                #[trigger] is_part(header, i, j) && j < start && is_timestamp(header, i, j) ==> j
                    - i <= 2 + TIMESTAMP_LENGTH,
        decreases n - k,
    {
        if signature.get_ascii(k) == COMMA {
            assert(is_part(header, start as int, k as int));
            if k - start > 2 + TIMESTAMP_LENGTH && signature.get_ascii(start) == LETTER_T
                && signature.get_ascii(start + 1) == EQUALS {
                return false;
            }
            start = k + 1;
        }
        k += 1;
    }
    assert(is_part(header, start as int, n as int));
    if n - start > 2 + TIMESTAMP_LENGTH && signature.get_ascii(start) == LETTER_T
        && signature.get_ascii(start + 1) == EQUALS {
        return false;
    }
    true
}

/// Has the gateway's verifier check a notification: a payload and its
/// signature header, under the secret, at the time `now`.
///
/// The notification is first screened. A signature header that is not
/// plain text, or whose timestamp has more than 18 characters, and a clock
/// out of range are refused as a bad header without asking the verifier:
/// no such notification is authentic now.
pub fn verify_signature(payload: &str, signature: &str, secret: &str, now: i64) -> (r: Result<
    GatewayEvent,
    WebhookFailure,
>)
    ensures
        verified_view(r) == verified(payload@, signature@, secret@, now),
{
    if !signature.is_ascii() || now < -CLOCK_BOUND || now > CLOCK_BOUND {
        return Err(WebhookFailure::BadHeader);
    }
    if !timestamps_short(signature) {
        return Err(WebhookFailure::BadHeader);
    }
    construct_event(payload, signature, secret, now)
}

/// Authenticates a notification and decodes it into a typed event.
///
/// The result is `AuthenticationFailed` where the signature header is
/// malformed or does not match the payload under the secret, or is older
/// than the verifier tolerates; `MalformedPayload` where the signature is
/// valid and the body is not an event; and the typed event otherwise. An
/// event of a kind that the engine does not know is unhandled and keeps
/// its kind.
pub fn verify_notification(payload: &str, signature: &str, secret: &str, now: i64) -> (r: Result<
    WebhookEvent,
    EngineError,
>)
    ensures
        match r {
            Ok(event) => Ok::<WebhookEventView, EngineError>(event@) == verdict(
                verified(payload@, signature@, secret@, now),
            ),
            Err(e) => Err::<WebhookEventView, EngineError>(e) == verdict(
                verified(payload@, signature@, secret@, now),
            ),
        },
{
    verify(verify_signature(payload, signature, secret, now))
}

} // verus!
