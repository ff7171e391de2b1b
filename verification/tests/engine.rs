use payment_engine::config::Config;
use payment_engine::error::EngineError;
use payment_engine::models::payment::{
    Outcome, PaymentHistory, PaymentIntent, PaymentStatus, Transition,
};
use payment_engine::models::subscription::{Subscription, SubscriptionTier, UserSubscription};
use payment_engine::models::Store;
use payment_engine::services::stripe::{GatewayFailure, GatewayIntent, StripeService};
use payment_engine::services::webhook::{Delivery, GatewayEvent, WebhookFailure};

const USER: u128 = 0x0000_0000_0000_0000_0000_0000_0000_0007;
const OTHER_USER: u128 = 0x0000_0000_0000_0000_0000_0000_0000_0008;
const PLAN: u128 = 0x0000_0000_0000_0000_0000_0000_0000_00a1;
const OTHER_PLAN: u128 = 0x0000_0000_0000_0000_0000_0000_0000_00a2;

fn service() -> StripeService {
    StripeService::new(&Config {
        stripe_secret_key: String::from("sk_test_key"),
        stripe_webhook_secret: String::from("whsec_test"),
    })
}

fn plan(id: u128, name: &str, price_monthly: i64) -> Subscription {
    Subscription {
        id,
        name: String::from(name),
        tier: SubscriptionTier::Pro,
        price_monthly,
        price_yearly: price_monthly * 10,
        features: String::from("{}"),
        created_at: 1,
        updated_at: 1,
    }
}

fn store_with_plans() -> Store {
    let mut pool = Store::new();
    assert_eq!(pool.insert_plan(plan(PLAN, "pro", 999)), Ok(()));
    assert_eq!(pool.insert_plan(plan(OTHER_PLAN, "enterprise", 4999)), Ok(()));
    pool
}

fn created(id: &str, secret: Option<&str>) -> Result<GatewayIntent, GatewayFailure> {
    Ok(GatewayIntent { id: String::from(id), client_secret: secret.map(String::from) })
}

fn succeeded(id: &str) -> Result<GatewayEvent, WebhookFailure> {
    Ok(GatewayEvent {
        kind: String::from("payment_intent.succeeded"),
        payment_intent: Some(String::from(id)),
    })
}

fn failed(id: &str) -> Result<GatewayEvent, WebhookFailure> {
    Ok(GatewayEvent {
        kind: String::from("payment_intent.payment_failed"),
        payment_intent: Some(String::from(id)),
    })
}

fn initiate(service: &StripeService, pool: &mut Store, user: u128, plan_id: u128, id: &str, now: i64) -> PaymentIntent {
    let plan = Subscription::get_by_id(pool, plan_id).expect("the plan exists");
    service
        .create_payment_intent(pool, user, &plan, created(id, Some("secret")), now)
        .expect("the attempt is recorded")
}

#[test]
fn payment_is_recorded_pending_then_succeeds_once() {
    let service = service();
    let mut pool = store_with_plans();

    let plan = Subscription::get_by_id(&pool, PLAN).unwrap();
    let attempt = service
        .create_payment_intent(&mut pool, USER, &plan, created("pi_A", Some("pi_A_secret")), 100)
        .unwrap();
    assert_eq!(attempt.id, 0);
    assert_eq!(attempt.stripe_payment_intent_id, "pi_A");
    assert_eq!(attempt.user_id, USER);
    assert_eq!(attempt.subscription_id, PLAN);
    assert_eq!(attempt.amount, 999);
    assert_eq!(attempt.currency, "USD");
    assert_eq!(attempt.status, PaymentStatus::Pending);
    assert_eq!(attempt.client_secret, "pi_A_secret");
    assert_eq!(attempt.created_at, 100);
    assert_eq!(attempt.updated_at, 100);
    assert!(PaymentHistory::get_for_user(&pool, USER, 10).is_empty());
    assert!(UserSubscription::get_active_for_user(&pool, USER).is_none());

    assert_eq!(service.deliver(&mut pool, succeeded("pi_A"), 200), Ok(Delivery::Applied));

    let ledger = PaymentHistory::get_for_user(&pool, USER, 10);
    assert_eq!(ledger.len(), 1);
    assert_eq!(ledger[0].id, 0);
    assert_eq!(ledger[0].payment_intent_id, attempt.id);
    assert_eq!(ledger[0].status, Outcome::Succeeded);
    assert_eq!(ledger[0].amount, 999);
    assert_eq!(ledger[0].currency, "USD");
    assert_eq!(ledger[0].user_id, USER);
    assert_eq!(ledger[0].subscription_id, PLAN);
    assert_eq!(ledger[0].created_at, 200);
    let active = UserSubscription::get_active_for_user(&pool, USER).unwrap();
    assert_eq!(active.subscription_id, PLAN);
    assert_eq!(active.starts_at, 200);
    assert_eq!(active.ends_at, None);
    assert!(active.is_active);
    let stored = PaymentIntent::get_by_stripe_id(&pool, "pi_A").unwrap();
    assert_eq!(stored.status, PaymentStatus::Succeeded);
    assert_eq!(stored.updated_at, 200);

    assert_eq!(service.deliver(&mut pool, succeeded("pi_A"), 300), Ok(Delivery::Redelivered));

    let ledger = PaymentHistory::get_for_user(&pool, USER, 10);
    assert_eq!(ledger.len(), 1);
    assert_eq!(ledger[0].created_at, 200);
    let still = UserSubscription::get_active_for_user(&pool, USER).unwrap();
    assert_eq!(still.id, active.id);
    assert_eq!(still.starts_at, 200);
    assert_eq!(still.updated_at, 200);
    let stored = PaymentIntent::get_by_stripe_id(&pool, "pi_A").unwrap();
    assert_eq!(stored.status, PaymentStatus::Succeeded);
    assert_eq!(stored.created_at, 100);
    assert_eq!(stored.updated_at, 300);
}

#[test]
fn initiate_then_success_gives_one_entry_and_one_active_entitlement() {
    let service = service();
    let mut pool = store_with_plans();
    initiate(&service, &mut pool, OTHER_USER, OTHER_PLAN, "pi_other", 10);
    assert_eq!(service.apply_outcome(&mut pool, "pi_other", Outcome::Succeeded, 11), Ok(Transition::Applied));

    let attempt = initiate(&service, &mut pool, USER, PLAN, "pi_1", 20);
    assert_eq!(attempt.id, 1);
    assert_eq!(service.apply_outcome(&mut pool, "pi_1", Outcome::Succeeded, 21), Ok(Transition::Applied));

    let ledger = PaymentHistory::get_for_user(&pool, USER, 100);
    assert_eq!(ledger.iter().filter(|e| e.payment_intent_id == attempt.id).count(), 1);
    assert_eq!(ledger.len(), 1);
    let active = UserSubscription::get_active_for_user(&pool, USER).unwrap();
    assert_eq!(active.user_id, USER);
    assert_eq!(active.subscription_id, PLAN);
    let other = UserSubscription::get_active_for_user(&pool, OTHER_USER).unwrap();
    assert_eq!(other.subscription_id, OTHER_PLAN);
}

#[test]
fn same_outcome_twice_is_the_same_as_once() {
    let service = service();
    let mut pool = store_with_plans();
    initiate(&service, &mut pool, USER, PLAN, "pi_1", 20);
    assert_eq!(service.handle_payment_success(&mut pool, "pi_1", 30), Ok(Transition::Applied));
    let ledger_once = PaymentHistory::get_for_user(&pool, USER, 100);
    let active_once = UserSubscription::get_active_for_user(&pool, USER).unwrap();

    assert_eq!(service.handle_payment_success(&mut pool, "pi_1", 40), Ok(Transition::Redelivered));
    let ledger_twice = PaymentHistory::get_for_user(&pool, USER, 100);
    let active_twice = UserSubscription::get_active_for_user(&pool, USER).unwrap();

    assert_eq!(ledger_once.len(), 1);
    assert_eq!(ledger_twice.len(), 1);
    assert_eq!(ledger_twice[0].id, ledger_once[0].id);
    assert_eq!(ledger_twice[0].created_at, ledger_once[0].created_at);
    assert_eq!(active_twice.id, active_once.id);
    assert_eq!(active_twice.starts_at, active_once.starts_at);
    assert_eq!(active_twice.updated_at, active_once.updated_at);
    assert_eq!(PaymentIntent::get_by_stripe_id(&pool, "pi_1").unwrap().status, PaymentStatus::Succeeded);
}

#[test]
fn failure_twice_is_the_same_as_once() {
    let service = service();
    let mut pool = store_with_plans();
    initiate(&service, &mut pool, USER, PLAN, "pi_1", 20);
    assert_eq!(service.handle_payment_failure(&mut pool, "pi_1", 30), Ok(Transition::Applied));
    assert_eq!(service.handle_payment_failure(&mut pool, "pi_1", 40), Ok(Transition::Redelivered));
    let ledger = PaymentHistory::get_for_user(&pool, USER, 100);
    assert_eq!(ledger.len(), 1);
    assert_eq!(ledger[0].status, Outcome::Failed);
    assert_eq!(ledger[0].created_at, 30);
    assert!(UserSubscription::get_active_for_user(&pool, USER).is_none());
    let stored = PaymentIntent::get_by_stripe_id(&pool, "pi_1").unwrap();
    assert_eq!(stored.status, PaymentStatus::Failed);
    assert_eq!(stored.updated_at, 40);
}

#[test]
fn succeeded_attempt_refuses_failure() {
    let service = service();
    let mut pool = store_with_plans();
    initiate(&service, &mut pool, USER, PLAN, "pi_1", 20);
    assert_eq!(service.apply_outcome(&mut pool, "pi_1", Outcome::Succeeded, 30), Ok(Transition::Applied));

    assert_eq!(
        service.apply_outcome(&mut pool, "pi_1", Outcome::Failed, 40),
        Err(EngineError::ConflictingOutcome)
    );
    assert_eq!(service.deliver(&mut pool, failed("pi_1"), 50), Err(EngineError::ConflictingOutcome));

    let stored = PaymentIntent::get_by_stripe_id(&pool, "pi_1").unwrap();
    assert_eq!(stored.status, PaymentStatus::Succeeded);
    assert_eq!(stored.updated_at, 30);
    assert_eq!(PaymentHistory::get_for_user(&pool, USER, 100).len(), 1);
    assert!(UserSubscription::get_active_for_user(&pool, USER).is_some());
}

#[test]
fn failed_attempt_refuses_success() {
    let service = service();
    let mut pool = store_with_plans();
    initiate(&service, &mut pool, USER, PLAN, "pi_1", 20);
    assert_eq!(service.apply_outcome(&mut pool, "pi_1", Outcome::Failed, 30), Ok(Transition::Applied));
    assert_eq!(
        service.apply_outcome(&mut pool, "pi_1", Outcome::Succeeded, 40),
        Err(EngineError::ConflictingOutcome)
    );
    assert_eq!(PaymentIntent::get_by_stripe_id(&pool, "pi_1").unwrap().status, PaymentStatus::Failed);
    assert!(UserSubscription::get_active_for_user(&pool, USER).is_none());
    let ledger = PaymentHistory::get_for_user(&pool, USER, 100);
    assert_eq!(ledger.len(), 1);
    assert_eq!(ledger[0].status, Outcome::Failed);
}

#[test]
fn unknown_attempt_is_an_error_of_the_engine_and_acknowledged_to_the_sender() {
    let service = service();
    let mut pool = store_with_plans();
    assert_eq!(
        service.apply_outcome(&mut pool, "pi_missing", Outcome::Succeeded, 5),
        Err(EngineError::UnknownAttempt)
    );
    assert_eq!(service.deliver(&mut pool, succeeded("pi_missing"), 5), Ok(Delivery::UnknownAttempt));
    assert_eq!(service.deliver(&mut pool, failed("pi_missing"), 5), Ok(Delivery::UnknownAttempt));
    assert!(PaymentHistory::get_for_user(&pool, USER, 100).is_empty());
    assert!(PaymentIntent::get_by_stripe_id(&pool, "pi_missing").is_none());
}

#[test]
fn gateway_failure_records_nothing() {
    let service = service();
    let mut pool = store_with_plans();
    let plan = Subscription::get_by_id(&pool, PLAN).unwrap();
    let r = service.create_payment_intent(&mut pool, USER, &plan, Err(GatewayFailure), 10);
    assert_eq!(r.unwrap_err(), EngineError::UpstreamUnavailable);
    let first = initiate(&service, &mut pool, USER, PLAN, "pi_1", 20);
    assert_eq!(first.id, 0);
}

#[test]
fn missing_client_secret_is_recorded_empty() {
    let service = service();
    let mut pool = store_with_plans();
    let plan = Subscription::get_by_id(&pool, PLAN).unwrap();
    let attempt = service.create_payment_intent(&mut pool, USER, &plan, created("pi_1", None), 10).unwrap();
    assert_eq!(attempt.client_secret, "");
}

#[test]
fn gateway_identifier_is_recorded_once() {
    let service = service();
    let mut pool = store_with_plans();
    initiate(&service, &mut pool, USER, PLAN, "pi_1", 20);
    let plan = Subscription::get_by_id(&pool, OTHER_PLAN).unwrap();
    let again = service.create_payment_intent(&mut pool, OTHER_USER, &plan, created("pi_1", None), 30);
    assert_eq!(again.unwrap_err(), EngineError::DuplicateEntry);
    let stored = PaymentIntent::get_by_stripe_id(&pool, "pi_1").unwrap();
    assert_eq!(stored.user_id, USER);
    assert_eq!(stored.amount, 999);
}

#[test]
fn success_for_a_removed_plan_changes_nothing() {
    let service = service();
    let mut pool = store_with_plans();
    initiate(&service, &mut pool, USER, PLAN, "pi_1", 20);
    assert!(pool.remove_plan(PLAN));

    assert_eq!(
        service.apply_outcome(&mut pool, "pi_1", Outcome::Succeeded, 30),
        Err(EngineError::PlanNotFound)
    );
    let stored = PaymentIntent::get_by_stripe_id(&pool, "pi_1").unwrap();
    assert_eq!(stored.status, PaymentStatus::Pending);
    assert_eq!(stored.updated_at, 20);
    assert!(PaymentHistory::get_for_user(&pool, USER, 100).is_empty());
    assert!(UserSubscription::get_active_for_user(&pool, USER).is_none());

    assert_eq!(service.apply_outcome(&mut pool, "pi_1", Outcome::Failed, 40), Ok(Transition::Applied));
    assert_eq!(PaymentHistory::get_for_user(&pool, USER, 100).len(), 1);
}

#[test]
fn rejected_notification_never_reaches_the_store() {
    let service = service();
    let mut pool = store_with_plans();
    initiate(&service, &mut pool, USER, PLAN, "pi_1", 20);
    for failure in [
        WebhookFailure::BadKey,
        WebhookFailure::BadHeader,
        WebhookFailure::BadSignature,
        WebhookFailure::BadTimestamp,
    ] {
        assert_eq!(
            service.deliver(&mut pool, Err(failure), 30),
            Err(EngineError::AuthenticationFailed)
        );
    }
    assert_eq!(
        service.deliver(&mut pool, Err(WebhookFailure::BadParse), 30),
        Err(EngineError::MalformedPayload)
    );
    let stored = PaymentIntent::get_by_stripe_id(&pool, "pi_1").unwrap();
    assert_eq!(stored.status, PaymentStatus::Pending);
    assert_eq!(stored.updated_at, 20);
    assert!(PaymentHistory::get_for_user(&pool, USER, 100).is_empty());
}

#[test]
fn other_events_are_acknowledged_and_ignored() {
    let service = service();
    let mut pool = store_with_plans();
    initiate(&service, &mut pool, USER, PLAN, "pi_1", 20);
    let created = Ok(GatewayEvent {
        kind: String::from("payment_intent.created"),
        payment_intent: Some(String::from("pi_1")),
    });
    assert_eq!(service.deliver(&mut pool, created, 30), Ok(Delivery::Unhandled));
    let invoice = Ok(GatewayEvent { kind: String::from("invoice.paid"), payment_intent: None });
    assert_eq!(service.deliver(&mut pool, invoice, 30), Ok(Delivery::Unhandled));
    let nameless = Ok(GatewayEvent { kind: String::from("payment_intent.succeeded"), payment_intent: None });
    assert_eq!(service.deliver(&mut pool, nameless, 30), Ok(Delivery::Unhandled));
    let stored = PaymentIntent::get_by_stripe_id(&pool, "pi_1").unwrap();
    assert_eq!(stored.status, PaymentStatus::Pending);
    assert_eq!(stored.updated_at, 20);
}

#[test]
fn failed_notification_fails_the_attempt_without_activation() {
    let service = service();
    let mut pool = store_with_plans();
    initiate(&service, &mut pool, USER, PLAN, "pi_1", 20);
    assert_eq!(service.deliver(&mut pool, failed("pi_1"), 30), Ok(Delivery::Applied));
    assert_eq!(PaymentIntent::get_by_stripe_id(&pool, "pi_1").unwrap().status, PaymentStatus::Failed);
    assert!(UserSubscription::get_active_for_user(&pool, USER).is_none());
    assert_eq!(service.deliver(&mut pool, failed("pi_1"), 31), Ok(Delivery::Redelivered));
}

#[test]
fn second_payment_moves_the_user_to_the_new_plan() {
    let service = service();
    let mut pool = store_with_plans();
    initiate(&service, &mut pool, USER, PLAN, "pi_1", 20);
    assert_eq!(service.deliver(&mut pool, succeeded("pi_1"), 30), Ok(Delivery::Applied));
    let first = UserSubscription::get_active_for_user(&pool, USER).unwrap();
    initiate(&service, &mut pool, USER, OTHER_PLAN, "pi_2", 40);
    assert_eq!(service.deliver(&mut pool, succeeded("pi_2"), 50), Ok(Delivery::Applied));
    let second = UserSubscription::get_active_for_user(&pool, USER).unwrap();
    assert_ne!(second.id, first.id);
    assert_eq!(second.subscription_id, OTHER_PLAN);
    assert_eq!(second.starts_at, 50);

    assert_eq!(service.deliver(&mut pool, succeeded("pi_1"), 60), Ok(Delivery::Redelivered));
    let still = UserSubscription::get_active_for_user(&pool, USER).unwrap();
    assert_eq!(still.id, second.id);
    assert_eq!(still.subscription_id, OTHER_PLAN);
}

#[test]
fn service_keeps_its_credentials() {
    let service = service();
    assert_eq!(service.secret_key(), "sk_test_key");
    assert_eq!(service.webhook_secret(), "whsec_test");
}

#[test]
fn outcome_leaves_the_other_records_as_they_were() {
    let service = service();
    let mut pool = store_with_plans();
    let first = initiate(&service, &mut pool, USER, PLAN, "pi_1", 10);
    let second = initiate(&service, &mut pool, USER, OTHER_PLAN, "pi_2", 11);
    assert_eq!(service.apply_outcome(&mut pool, "pi_1", Outcome::Failed, 20), Ok(Transition::Applied));
    let ledger_before = PaymentHistory::get_for_user(&pool, USER, 100);
    assert_eq!(ledger_before.len(), 1);

    assert_eq!(service.apply_outcome(&mut pool, "pi_2", Outcome::Succeeded, 30), Ok(Transition::Applied));

    let untouched = PaymentIntent::get_by_stripe_id(&pool, "pi_1").unwrap();
    assert_eq!(untouched.id, first.id);
    assert_eq!(untouched.status, PaymentStatus::Failed);
    assert_eq!(untouched.updated_at, 20);
    assert_eq!(untouched.amount, 999);
    let settled = PaymentIntent::get_by_stripe_id(&pool, "pi_2").unwrap();
    assert_eq!(settled.id, second.id);
    assert_eq!(settled.user_id, second.user_id);
    assert_eq!(settled.subscription_id, second.subscription_id);
    assert_eq!(settled.amount, 4999);
    assert_eq!(settled.currency, second.currency);
    assert_eq!(settled.client_secret, second.client_secret);
    assert_eq!(settled.created_at, 11);
    assert_eq!(settled.status, PaymentStatus::Succeeded);
    assert_eq!(settled.updated_at, 30);
    let ledger = PaymentHistory::get_for_user(&pool, USER, 100);
    assert_eq!(ledger.len(), 2);
    assert_eq!(ledger[1].id, ledger_before[0].id);
    assert_eq!(ledger[1].status, Outcome::Failed);
    assert_eq!(ledger[1].created_at, 20);
    assert_eq!(ledger[0].payment_intent_id, second.id);
    assert_eq!(ledger[0].amount, 4999);
}

#[test]
fn every_success_of_a_sequence_leaves_one_active_entitlement() {
    let service = service();
    let mut pool = store_with_plans();
    UserSubscription::create(&mut pool, USER, OTHER_PLAN, 1);
    let plans = [PLAN, OTHER_PLAN, PLAN, PLAN, OTHER_PLAN];
    for (i, plan) in plans.iter().enumerate() {
        initiate(&service, &mut pool, USER, *plan, &format!("pi_{}", i), 10 + i as i64);
    }
    initiate(&service, &mut pool, OTHER_USER, PLAN, "pi_other", 20);
    let mut seen = Vec::new();
    for (i, plan) in plans.iter().enumerate() {
        let now = 100 + i as i64;
        assert_eq!(
            service.handle_payment_success(&mut pool, &format!("pi_{}", i), now),
            Ok(Transition::Applied)
        );
        let active = UserSubscription::get_active_for_user(&pool, USER).unwrap();
        assert!(active.is_active);
        assert_eq!(active.user_id, USER);
        assert_eq!(active.subscription_id, *plan);
        assert_eq!(active.starts_at, now);
        assert_eq!(active.ends_at, None);
        assert!(!seen.contains(&active.id));
        seen.push(active.id);
        assert!(UserSubscription::get_active_for_user(&pool, OTHER_USER).is_none());
    }
    assert_eq!(seen, vec![1, 0, 2, 3, 4]);
    assert_eq!(PaymentHistory::get_for_user(&pool, USER, 100).len(), 5);
    let rows = UserSubscription::get_for_user(&pool, USER);
    assert_eq!(rows.len(), 5);
    assert_eq!(rows.iter().filter(|row| row.is_active).count(), 1);
    for row in &rows {
        if row.id != 4 {
            assert!(!row.is_active);
            assert!(row.ends_at.is_some());
        }
    }
    let ends: Vec<Option<i64>> = rows.iter().map(|row| row.ends_at).collect();
    assert_eq!(ends, vec![Some(102), Some(101), Some(103), Some(104), None]);
}
