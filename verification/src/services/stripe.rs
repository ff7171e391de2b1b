//! The gateway service: payment initiation, notification handling and
//! payment-method attachment.
//!
//! Calls to the gateway itself are made by the caller. Each operation here
//! takes what the gateway answered and decides what is recorded, so that no
//! call to the gateway stands between two changes of the store.

use vstd::prelude::*;
use crate::config::Config;
use crate::error::EngineError;
use crate::models::payment::{
    result_view, CardDetails, Outcome, PaymentHistory, PaymentIntent, PaymentIntentView,
    PaymentMethod, Transition,
};
use crate::models::subscription::{Subscription, UserSubscription};
use crate::models::{Store, StoreView};
use crate::services::customer::{Customer, CustomerResolution};
use crate::services::webhook::{
    verdict, verified, verified_view, verify, verify_signature, Delivery, GatewayEvent,
    GatewayEventView, WebhookEvent, WebhookEventView, WebhookFailure,
};

verus! {

/// The engine's handle on the payment gateway.
pub struct StripeService {
    secret_key: String,
    webhook_secret: String,
}

/// The body of a request for a new payment.
#[derive(Debug)]
pub struct CreatePaymentIntentRequest {
    pub subscription_id: u128,
}

/// A call to the gateway did not succeed.
#[derive(Debug, Clone, Copy, PartialEq, Eq, Structural)]
pub struct GatewayFailure;

/// The code of the currency of every payment, as the gateway spells it.
pub open spec fn gateway_currency() -> Seq<char> {
    "usd"@
}

/// The payment that the gateway is asked to create.
#[derive(Debug)]
pub struct CreatePaymentIntent {
    /// The amount in the currency's minor unit.
    pub amount: i64,
    pub currency: String,
    /// The gateway's identifier of the paying customer.
    pub customer: String,
    /// Whether the payment method is kept for later payments made without
    /// the customer present.
    pub off_session: bool,
}

/// The payment that the gateway created.
#[derive(Debug)]
pub struct GatewayIntent {
    /// The gateway's identifier of the payment attempt.
    pub id: String,
    /// The token by which the client confirms the payment, if one was
    /// issued.
    pub client_secret: Option<String>,
}

impl GatewayIntent {
    /// The confirmation token, empty where none was issued.
    pub open spec fn secret(&self) -> Seq<char> {
        match self.client_secret {
            Some(secret) => secret@,
            None => Seq::empty(),
        }
    }
}

impl StoreView {
    /// What applying a gateway-reported outcome to an attempt returns and
    /// leaves.
    ///
    /// An unknown attempt, an attempt with the opposite terminal status, and
    /// a success whose plan no longer exists are failures that change
    /// nothing. A repeated delivery only sets the attempt's update time. A
    /// pending attempt takes the outcome's status, the history gets its
    /// entry unless it already holds it, and on success the user is
    /// activated on the plan: all of it or nothing.
    pub open spec fn apply_outcome(self, external: Seq<char>, outcome: Outcome, now: i64) -> (
        Result<Transition, EngineError>,
        StoreView,
    ) {
        if !self.has_intent(external) {
            (Err(EngineError::UnknownAttempt), self)
        } else {
            let i = self.intent_index(external);
            let row = self.payment_intents[i];
            match row.status.transition(outcome) {
                Err(e) => (Err(e), self),
                Ok(Transition::Redelivered) => (
                    Ok(Transition::Redelivered),
                    self.with_status(i, row.status, now),
                ),
                Ok(Transition::Applied) => if outcome == Outcome::Succeeded && !self.has_plan(
                    row.subscription_id,
                ) {
                    (Err(EngineError::PlanNotFound), self)
                } else {
                    let settled = self.with_status(i, outcome.status(), now);
                    let recorded = settled.record_history(
                        row.user_id,
                        row.subscription_id,
                        row.id,
                        row.amount,
                        outcome,
                        now,
                    ).1;
                    (
                        Ok(Transition::Applied),
                        if outcome == Outcome::Succeeded {
                            recorded.activated(row.user_id, row.subscription_id, now)
                        } else {
                            recorded
                        },
                    )
                },
            }
        }
    }

    /// What recording an initiated payment returns and leaves, given the
    /// gateway's answer: where the gateway failed nothing is recorded.
    pub open spec fn initiate(
        self,
        user_id: u128,
        subscription_id: u128,
        amount: i64,
        upstream: Result<(Seq<char>, Seq<char>), GatewayFailure>,
        now: i64,
    ) -> (Result<PaymentIntentView, EngineError>, StoreView) {
        match upstream {
            Err(_) => (Err(EngineError::UpstreamUnavailable), self),
            Ok((external, secret)) => self.record_intent(
                user_id,
                subscription_id,
                external,
                amount,
                secret,
                now,
            ),
        }
    }

    /// What handling a notification returns and leaves, given what the
    /// gateway's verifier made of it.
    ///
    /// A notification that fails verification changes nothing and is an
    /// error. An event of a kind that the engine does not handle, and an
    /// event for an attempt that is not recorded, change nothing and are
    /// acknowledged. Every other event is applied as its outcome.
    pub open spec fn deliver(
        self,
        answer: Result<GatewayEventView, WebhookFailure>,
        now: i64,
    ) -> (Result<Delivery, EngineError>, StoreView) {
        match verdict(answer) {
            Err(e) => (Err(e), self),
            Ok(WebhookEventView::Unhandled(_)) => (Ok(Delivery::Unhandled), self),
            Ok(WebhookEventView::Succeeded(external)) => acknowledged(
                self.apply_outcome(external, Outcome::Succeeded, now),
            ),
            Ok(WebhookEventView::Failed(external)) => acknowledged(
                self.apply_outcome(external, Outcome::Failed, now),
            ),
        }
    }
}

/// What the sender of a notification is told of an applied outcome: an
/// unknown attempt is acknowledged, every other failure is passed on.
pub open spec fn acknowledged(applied: (Result<Transition, EngineError>, StoreView)) -> (
    Result<Delivery, EngineError>,
    StoreView,
) {
    match applied.0 {
        Ok(Transition::Applied) => (Ok(Delivery::Applied), applied.1),
        Ok(Transition::Redelivered) => (Ok(Delivery::Redelivered), applied.1),
        Err(EngineError::UnknownAttempt) => (Ok(Delivery::UnknownAttempt), applied.1),
        Err(e) => (Err(e), applied.1),
    }
}

/// A gateway answer with its strings replaced by their views.
pub open spec fn upstream_view(upstream: Result<GatewayIntent, GatewayFailure>) -> Result<
    (Seq<char>, Seq<char>),
    GatewayFailure,
> {
    match upstream {
        Ok(intent) => Ok((intent.id@, intent.secret())),
        Err(e) => Err(e),
    }
}

impl StripeService {
    /// The key that authorises calls to the gateway.
    pub closed spec fn spec_secret_key(&self) -> Seq<char> {
        self.secret_key@
    }

    /// The secret that notifications are verified against.
    pub closed spec fn spec_webhook_secret(&self) -> Seq<char> {
        self.webhook_secret@
    }

    /// Builds the service from its credentials.
    pub fn new(config: &Config) -> (service: Self)
        ensures
            service.spec_secret_key() == config.stripe_secret_key@,
            service.spec_webhook_secret() == config.stripe_webhook_secret@,
    {
        StripeService {
            secret_key: config.stripe_secret_key.clone(),
            webhook_secret: config.stripe_webhook_secret.clone(),
        }
    }

    /// The key that authorises calls to the gateway.
    pub fn secret_key(&self) -> (key: &str)
        ensures
            key@ == self.spec_secret_key(),
    {
        self.secret_key.as_str()
    }

    /// The secret that notifications are verified against.
    pub fn webhook_secret(&self) -> (secret: &str)
        ensures
            secret@ == self.spec_webhook_secret(),
    {
        self.webhook_secret.as_str()
    }

    /// Decides from the answer to the lookup of a user's customer records
    /// whether the user has a customer or one has to be created.
    pub fn get_or_create_customer(&self, user_id: u128, customers: Vec<Customer>) -> (r:
        CustomerResolution)
        ensures
            r.decided(user_id, customers@),
    {
        CustomerResolution::resolve(user_id, customers)
    }

    /// The payment that the gateway is asked to create for a plan: its
    /// monthly price in the default currency, which the gateway spells in
    /// lower case, charged to the customer, with the payment method kept
    /// for later payments.
    pub fn payment_intent_params(&self, subscription: &Subscription, customer: &Customer) -> (params:
        CreatePaymentIntent)
        ensures
            params.amount == subscription.price_monthly,
            params.currency@ == gateway_currency(),
            params.customer@ == customer.id@,
            params.off_session,
    {
        CreatePaymentIntent {
            amount: subscription.price_monthly,
            currency: "usd".to_owned(),
            customer: customer.id.clone(),
            off_session: true,
        }
    }

    /// Records the payment attempt that the gateway created for the user
    /// and the plan, in status pending.
    ///
    /// Where the call to the gateway failed, the result is
    /// `UpstreamUnavailable` and nothing is recorded. The same holds, with
    /// `DuplicateEntry`, where the gateway's identifier is already
    /// recorded.
    pub fn create_payment_intent(
        &self,
        pool: &mut Store,
        user_id: u128,
        subscription: &Subscription,
        upstream: Result<GatewayIntent, GatewayFailure>,
        now: i64,
    ) -> (r: Result<PaymentIntent, EngineError>)
        ensures
            result_view(r) == old(pool)@.initiate(
                user_id,
                subscription.id,
                subscription.price_monthly,
                upstream_view(upstream),
                now,
            ).0,
            final(pool)@ == old(pool)@.initiate(
                user_id,
                subscription.id,
                subscription.price_monthly,
                upstream_view(upstream),
                now,
            ).1,
    {
        match upstream {
            Err(_) => Err(EngineError::UpstreamUnavailable),
            Ok(intent) => {
                let secret = match intent.client_secret {
                    Some(secret) => secret,
                    None => String::new(),
                };
                PaymentIntent::create(
                    pool,
                    user_id,
                    subscription.id,
                    intent.id,
                    subscription.price_monthly,
                    secret,
                    now,
                )
            },
        }
    }

    /// Applies an outcome that the gateway reported for a payment attempt.
    ///
    /// The attempt is found by the gateway's identifier; an unknown one is
    /// `UnknownAttempt`. An attempt that already has the outcome's status
    /// is left alone but for its update time. An attempt with the opposite
    /// terminal status is `ConflictingOutcome`. A pending attempt takes the
    /// status, the history gets its entry, and on success the user is
    /// activated on the plan; where the plan no longer exists the result is
    /// `PlanNotFound`. Every failure leaves the store as it was.
    pub fn apply_outcome(&self, pool: &mut Store, external_id: &str, outcome: Outcome, now: i64) -> (r:
        Result<Transition, EngineError>)
        ensures
            r == old(pool)@.apply_outcome(external_id@, outcome, now).0,
            final(pool)@ == old(pool)@.apply_outcome(external_id@, outcome, now).1,
            r is Err ==> final(pool)@ == old(pool)@,
    {
        let row = match PaymentIntent::get_by_stripe_id(pool, external_id) {
            Some(row) => row,
            None => {
                return Err(EngineError::UnknownAttempt);
            },
        };
        let transition = match row.status.decide(outcome) {
            Ok(transition) => transition,
            Err(e) => {
                return Err(e);
            },
        };
        let succeeded = match outcome {
            Outcome::Succeeded => true,
            Outcome::Failed => false,
        };
        match transition {
            Transition::Redelivered => PaymentIntent::update_status(pool, external_id, outcome, now),
            Transition::Applied => {
                // Whatever can fail is tested before the first change, so
                // that the changes happen all or not at all.
                if succeeded && Subscription::get_by_id(pool, row.subscription_id).is_none() {
                    return Err(EngineError::PlanNotFound);
                }
                let settled = PaymentIntent::update_status(pool, external_id, outcome, now);
                assert(settled == Ok::<Transition, EngineError>(Transition::Applied));
                // An entry that the history holds already is the entry that
                // is owed: the refusal of a second one is no failure.
                let _ = PaymentHistory::create(
                    pool,
                    row.user_id,
                    row.subscription_id,
                    row.id,
                    row.amount,
                    outcome,
                    now,
                );
                if succeeded {
                    let activated = UserSubscription::activate(
                        pool,
                        row.user_id,
                        row.subscription_id,
                        now,
                    );
                    assert(activated is Ok);
                }
                settled
            },
        }
    }

    /// Applies the gateway's report that a payment attempt succeeded.
    pub fn handle_payment_success(&self, pool: &mut Store, payment_intent_id: &str, now: i64) -> (r:
        Result<Transition, EngineError>)
        ensures
            r == old(pool)@.apply_outcome(payment_intent_id@, Outcome::Succeeded, now).0,
            final(pool)@ == old(pool)@.apply_outcome(payment_intent_id@, Outcome::Succeeded, now).1,
    {
        self.apply_outcome(pool, payment_intent_id, Outcome::Succeeded, now)
    }

    /// Applies the gateway's report that a payment attempt failed.
    pub fn handle_payment_failure(&self, pool: &mut Store, payment_intent_id: &str, now: i64) -> (r:
        Result<Transition, EngineError>)
        ensures
            r == old(pool)@.apply_outcome(payment_intent_id@, Outcome::Failed, now).0,
            final(pool)@ == old(pool)@.apply_outcome(payment_intent_id@, Outcome::Failed, now).1,
    {
        self.apply_outcome(pool, payment_intent_id, Outcome::Failed, now)
    }

    /// Handles a notification: a payload and its signature header, at the
    /// time `now`.
    ///
    /// The notification is verified under this service's secret. One that
    /// fails is an error and changes nothing: `MalformedPayload` where the
    /// signature is valid and the body is not an event,
    /// `AuthenticationFailed` otherwise. An event that reports a payment's
    /// success or failure is applied as that outcome; an unknown attempt is
    /// acknowledged. Every other event is acknowledged and ignored.
    pub fn handle_webhook(&self, pool: &mut Store, payload: &str, signature: &str, now: i64) -> (r:
        Result<Delivery, EngineError>)
        ensures
            r == old(pool)@.deliver(
                verified(payload@, signature@, self.spec_webhook_secret(), now),
                now,
            ).0,
            final(pool)@ == old(pool)@.deliver(
                verified(payload@, signature@, self.spec_webhook_secret(), now),
                now,
            ).1,
            r is Err ==> final(pool)@ == old(pool)@,
    {
        let answer = verify_signature(payload, signature, self.webhook_secret.as_str(), now);
        self.deliver(pool, answer, now)
    }

    /// Handles a notification, given what the gateway's verifier made of
    /// its payload and signature.
    ///
    /// A notification that failed verification is an error and changes
    /// nothing. An event that reports a payment's success or failure is
    /// applied as that outcome; an unknown attempt is acknowledged. Every
    /// other event is acknowledged and ignored.
    pub fn deliver(
        &self,
        pool: &mut Store,
        answer: Result<GatewayEvent, WebhookFailure>,
        now: i64,
    ) -> (r: Result<Delivery, EngineError>)
        ensures
            r == old(pool)@.deliver(verified_view(answer), now).0,
            final(pool)@ == old(pool)@.deliver(verified_view(answer), now).1,
            r is Err ==> final(pool)@ == old(pool)@,
    {
        let event = match verify(answer) {
            Ok(event) => event,
            Err(e) => {
                return Err(e);
            },
        };
        let applied = match event {
            WebhookEvent::Succeeded(id) => self.handle_payment_success(pool, id.as_str(), now),
            WebhookEvent::Failed(id) => self.handle_payment_failure(pool, id.as_str(), now),
            WebhookEvent::Unhandled(_) => {
                return Ok(Delivery::Unhandled);
            },
        };
        match applied {
            Ok(Transition::Applied) => Ok(Delivery::Applied),
            Ok(Transition::Redelivered) => Ok(Delivery::Redelivered),
            Err(EngineError::UnknownAttempt) => Ok(Delivery::UnknownAttempt),
            Err(e) => Err(e),
        }
    }

    /// Stores a payment method that the user attached, given what the
    /// gateway disclosed of it, and returns its card data.
    ///
    /// Where the call to the gateway failed the result is
    /// `UpstreamUnavailable`; where the method is not a card it is
    /// `InvalidPaymentMethod`. Either way nothing is stored.
    pub fn attach_payment_method(
        &self,
        pool: &mut Store,
        user_id: u128,
        payment_method_id: &str,
        retrieved: Result<Option<CardDetails>, GatewayFailure>,
        now: i64,
    ) -> (r: Result<CardDetails, EngineError>)
        ensures
            match retrieved {
                Err(_) => r == Err::<CardDetails, EngineError>(EngineError::UpstreamUnavailable)
                    && final(pool)@ == old(pool)@,
                Ok(None) => r == Err::<CardDetails, EngineError>(EngineError::InvalidPaymentMethod)
                    && final(pool)@ == old(pool)@,
                Ok(Some(card)) => r == Ok::<CardDetails, EngineError>(card) && final(pool)@ == old(
                    pool,
                )@.with_method(
                    old(pool)@.method_row(user_id, payment_method_id@, Some(card@), now),
                ),
            },
    {
        match retrieved {
            Err(_) => Err(EngineError::UpstreamUnavailable),
            Ok(None) => Err(EngineError::InvalidPaymentMethod),
            Ok(Some(card)) => {
                let details = card.clone();
                let _ = PaymentMethod::create(
                    pool,
                    user_id,
                    payment_method_id.to_owned(),
                    Some(card),
                    now,
                );
                Ok(details)
            },
        }
    }
}

} // verus!
