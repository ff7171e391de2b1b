//! The handlers for payments, payment methods and notifications.

use vstd::prelude::*;
use crate::error::{AppError, EngineError, ErrorKind};
use crate::models::payment::{
    is_history_page, CardDetails, PaymentHistory, PaymentIntent, PaymentMethod,
};
use crate::models::subscription::Subscription;
use crate::models::Store;
use crate::routes::subscription::no_subscription;
use crate::services::stripe::{
    upstream_view, CreatePaymentIntentRequest, GatewayFailure, GatewayIntent, StripeService,
};
use crate::services::webhook::{
    verified, verified_view, Delivery, GatewayEvent, WebhookFailure,
};

verus! {

/// The body of a request to attach a payment method.
#[derive(Debug)]
pub struct AttachPaymentMethodRequest {
    pub payment_method_id: String,
}

/// The signature header of a notification, as the request carried it.
#[derive(Debug)]
pub enum SignatureHeader {
    /// The request has no signature header.
    Missing,
    /// The header is not text.
    Unreadable,
    /// The header's text.
    Text(String),
}

/// How many entries of the payment history a request shows.
pub const HISTORY_PAGE: usize = 10;

/// The message that answers a request for an attempt that is not recorded.
pub open spec fn no_payment_intent() -> Seq<char> {
    "Payment intent not found"@
}

/// The message that answers a request for a payment method that a user
/// does not have.
pub open spec fn no_payment_method() -> Seq<char> {
    "Payment method not found"@
}

/// The message that answers a notification without a signature header.
pub open spec fn missing_signature() -> Seq<char> {
    "Missing Stripe signature"@
}

/// The message that answers a notification whose signature header is not
/// text.
pub open spec fn invalid_signature() -> Seq<char> {
    "Invalid Stripe signature"@
}

/// The HTTP status that answers a notification: accepted, whatever became
/// of it, or the status of its failure.
pub open spec fn webhook_status(r: Result<Delivery, AppError>) -> u16 {
    match r {
        Ok(_) => 200,
        Err(e) => e.kind.status(),
    }
}

/// Finds the plan that a payment is requested for; a plan that does not
/// exist is answered as not found.
pub fn requested_subscription(pool: &Store, request: &CreatePaymentIntentRequest) -> (r: Result<
    Subscription,
    AppError,
>)
    ensures
        match r {
            Ok(plan) => pool@.plan(request.subscription_id) == Some(plan@),
            Err(e) => pool@.plan(request.subscription_id) is None && e.is(
                ErrorKind::NotFound,
                no_subscription(),
            ),
        },
{
    match Subscription::get_by_id(pool, request.subscription_id) {
        Some(plan) => Ok(plan),
        None => Err(AppError::not_found("Subscription not found")),
    }
}

/// Records the payment that the gateway created for the user and the
/// requested plan.
///
/// A plan that does not exist is answered as not found; a failure of the
/// gateway and a gateway identifier that is already recorded are answered
/// as the engine's failure. Nothing is recorded in these cases.
pub fn create_payment_intent(
    service: &StripeService,
    pool: &mut Store,
    user_id: u128,
    request: &CreatePaymentIntentRequest,
    upstream: Result<GatewayIntent, GatewayFailure>,
    now: i64,
) -> (r: Result<PaymentIntent, AppError>)
    ensures
        match old(pool)@.plan(request.subscription_id) {
            None => r is Err && r->Err_0.is(ErrorKind::NotFound, no_subscription()) && final(pool)@
                == old(pool)@,
            Some(plan) => {
                let initiated = old(pool)@.initiate(
                    user_id,
                    plan.id,
                    plan.price_monthly,
                    upstream_view(upstream),
                    now,
                );
                &&& final(pool)@ == initiated.1
                &&& match r {
                    Ok(intent) => initiated.0 == Ok::<_, EngineError>(intent@),
                    Err(e) => initiated.0 is Err && e.answers(initiated.0->Err_0),
                }
            },
        },
{
    let plan = match requested_subscription(pool, request) {
        Ok(plan) => plan,
        Err(e) => {
            return Err(e);
        },
    };
    match service.create_payment_intent(pool, user_id, &plan, upstream, now) {
        Ok(intent) => Ok(intent),
        Err(e) => Err(AppError::from_engine(e)),
    }
}

/// Reads the attempt with this gateway identifier; an attempt that is not
/// recorded is answered as not found.
pub fn get_payment_status(pool: &Store, payment_intent_id: &str) -> (r: Result<PaymentIntent, AppError>)
    ensures
        match r {
            Ok(intent) => pool@.intent(payment_intent_id@) == Some(intent@),
            Err(e) => pool@.intent(payment_intent_id@) is None && e.is(
                ErrorKind::NotFound,
                no_payment_intent(),
            ),
        },
{
    match PaymentIntent::get_by_stripe_id(pool, payment_intent_id) {
        Some(intent) => Ok(intent),
        None => Err(AppError::not_found("Payment intent not found")),
    }
}

/// Lists the user's payment methods: the default method, if there is one.
pub fn list_payment_methods(pool: &Store, user_id: u128) -> (methods: Vec<PaymentMethod>)
    ensures
        match pool@.default_method(user_id) {
            Some(method) => methods.deep_view() == seq![method],
            None => methods.deep_view() == Seq::<crate::models::payment::PaymentMethodView>::empty(),
        },
{
    let mut methods: Vec<PaymentMethod> = Vec::new();
    match PaymentMethod::get_default_for_user(pool, user_id) {
        Some(method) => {
            methods.push(method);
        },
        None => {},
    }
    methods
}

/// Stores the payment method that the user attached, given what the
/// gateway disclosed of it, and answers with the user's default method.
///
/// A failure of the gateway and a method that is not a card are answered
/// as the engine's failure, and nothing is stored.
pub fn attach_payment_method(
    service: &StripeService,
    pool: &mut Store,
    user_id: u128,
    request: &AttachPaymentMethodRequest,
    retrieved: Result<Option<CardDetails>, GatewayFailure>,
    now: i64,
) -> (r: Result<PaymentMethod, AppError>)
    ensures
        match retrieved {
            Err(_) => r is Err && r->Err_0.answers(EngineError::UpstreamUnavailable) && final(pool)@ == old(pool)@,
            Ok(None) => r is Err && r->Err_0.answers(EngineError::InvalidPaymentMethod) && final(pool)@ == old(pool)@,
            Ok(Some(card)) => {
                let stored = old(pool)@.method_row(
                    user_id,
                    request.payment_method_id@,
                    Some(card@),
                    now,
                );
                &&& final(pool)@ == old(pool)@.with_method(stored)
                &&& r is Ok
                &&& final(pool)@.default_method(user_id) == Some(r->Ok_0@)
                &&& !old(pool)@.has_default_method(user_id) ==> r->Ok_0@ == stored
            },
        },
{
    match service.attach_payment_method(
        pool,
        user_id,
        request.payment_method_id.as_str(),
        retrieved,
        now,
    ) {
        Ok(_) => {},
        Err(e) => {
            return Err(AppError::from_engine(e));
        },
    }
    proof {
        // The user's default method is the one that the user had, or else
        // the one that was stored just now.
        let before = old(pool)@;
        let after = pool@;
        if before.has_default_method(user_id) {
            let k = before.default_method_index(user_id);
            assert(after.payment_methods[k] == before.payment_methods[k]);
        } else {
            assert(after.payment_methods[before.payment_methods.len() as int].is_default);
        }
    }
    match PaymentMethod::get_default_for_user(pool, user_id) {
        Some(method) => Ok(method),
        None => Err(AppError::not_found("Payment method not found")),
    }
}

/// Reads the user's latest payments, the newest first.
pub fn get_payment_history(pool: &Store, user_id: u128) -> (payments: Vec<PaymentHistory>)
    ensures
        is_history_page(pool@.payment_history, user_id, HISTORY_PAGE as nat, payments.deep_view()),
{
    PaymentHistory::get_for_user(pool, user_id, HISTORY_PAGE)
}

/// Reads the signature of a notification from its header. A notification
/// without the header, or with one that is not text, is refused before
/// anything is verified.
pub fn webhook_signature(header: SignatureHeader) -> (r: Result<String, AppError>)
    ensures
        match header {
            SignatureHeader::Missing => r is Err && r->Err_0.is(
                ErrorKind::BadRequest,
                missing_signature(),
            ),
            SignatureHeader::Unreadable => r is Err && r->Err_0.is(
                ErrorKind::BadRequest,
                invalid_signature(),
            ),
            SignatureHeader::Text(text) => r == Ok::<String, AppError>(text),
        },
{
    match header {
        SignatureHeader::Missing => Err(AppError::bad_request("Missing Stripe signature")),
        SignatureHeader::Unreadable => Err(AppError::bad_request("Invalid Stripe signature")),
        SignatureHeader::Text(text) => Ok(text),
    }
}

/// Handles a notification: the signature header as the request carried
/// it, and the payload.
///
/// A notification without a readable signature header is refused before
/// anything is verified. The sender is told that the delivery was accepted
/// whenever the notification is authentic and nothing contradicts it: also
/// where the event is of a kind that the engine ignores, and where the
/// attempt is not recorded. A failure is answered as the engine's failure
/// and leaves the store as it was.
pub fn handle_webhook(
    service: &StripeService,
    pool: &mut Store,
    header: SignatureHeader,
    payload: &str,
    now: i64,
) -> (r: Result<Delivery, AppError>)
    ensures
        match header {
            SignatureHeader::Missing => r is Err && r->Err_0.is(
                ErrorKind::BadRequest,
                missing_signature(),
            ) && final(pool)@ == old(pool)@,
            SignatureHeader::Unreadable => r is Err && r->Err_0.is(
                ErrorKind::BadRequest,
                invalid_signature(),
            ) && final(pool)@ == old(pool)@,
            SignatureHeader::Text(signature) => {
                let delivered = old(pool)@.deliver(
                    verified(payload@, signature@, service.spec_webhook_secret(), now),
                    now,
                );
                &&& final(pool)@ == delivered.1
                &&& match r {
                    Ok(delivery) => delivered.0 == Ok::<Delivery, EngineError>(delivery),
                    Err(e) => delivered.0 is Err && e.answers(delivered.0->Err_0) && final(pool)@
                        == old(pool)@,
                }
            },
        },
{
    let signature = match webhook_signature(header) {
        Ok(signature) => signature,
        Err(e) => {
            return Err(e);
        },
    };
    match service.handle_webhook(pool, payload, signature.as_str(), now) {
        Ok(delivery) => Ok(delivery),
        Err(e) => Err(AppError::from_engine(e)),
    }
}

/// Handles a notification, given what the gateway's verifier made of it,
/// and answers its sender as [`handle_webhook`] does.
pub fn deliver(
    service: &StripeService,
    pool: &mut Store,
    answer: Result<GatewayEvent, WebhookFailure>,
    now: i64,
) -> (r: Result<Delivery, AppError>)
    ensures
        final(pool)@ == old(pool)@.deliver(verified_view(answer), now).1,
        match r {
            Ok(delivery) => old(pool)@.deliver(verified_view(answer), now).0 == Ok::<
                Delivery,
                EngineError,
            >(delivery),
            Err(e) => old(pool)@.deliver(verified_view(answer), now).0 is Err && e.answers(
                old(pool)@.deliver(verified_view(answer), now).0->Err_0,
            ) && final(pool)@ == old(pool)@,
        },
{
    match service.deliver(pool, answer, now) {
        Ok(delivery) => Ok(delivery),
        Err(e) => Err(AppError::from_engine(e)),
    }
}

/// The HTTP status that answers a notification.
pub fn webhook_status_code(r: &Result<Delivery, AppError>) -> (code: u16)
    ensures
        code == webhook_status(*r),
{
    match r {
        Ok(_) => 200,
        Err(e) => e.status_code(),
    }
}

} // verus!
