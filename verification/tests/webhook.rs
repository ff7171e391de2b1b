use payment_engine::config::Config;
use payment_engine::error::{EngineError, ErrorKind};
use payment_engine::models::payment::{PaymentHistory, PaymentIntent, PaymentStatus};
use payment_engine::models::subscription::{Subscription, SubscriptionTier, UserSubscription};
use payment_engine::models::Store;
use payment_engine::routes::payment::{handle_webhook as answer_webhook, SignatureHeader};
use payment_engine::services::stripe::{GatewayIntent, StripeService};
use payment_engine::services::webhook::{
    verify_notification, verify_signature, Delivery, WebhookEvent, WebhookFailure, CLOCK_BOUND,
    TIMESTAMP_LENGTH,
};
use stripe_webhook::Webhook;

const SECRET: &str = "whsec_test_secret";
const SIGNED_AT: i64 = 1_700_000_000;
const USER: u128 = 7;
const PLAN: u128 = 21;

fn payment_event(kind: &str, intent: &str, status: &str) -> String {
    format!(
        r#"{{"id":"evt_1","object":"event","api_version":"2024-06-20","created":1700000000,"livemode":false,"pending_webhooks":1,"request":null,"type":"{kind}","data":{{"object":{{"id":"{intent}","object":"payment_intent","amount":999,"amount_capturable":0,"amount_received":999,"capture_method":"automatic","confirmation_method":"automatic","created":1700000000,"currency":"usd","livemode":false,"metadata":{{}},"payment_method_types":["card"],"status":"{status}"}}}}}}"#
    )
}

fn succeeded(intent: &str) -> String {
    payment_event("payment_intent.succeeded", intent, "succeeded")
}

fn failed(intent: &str) -> String {
    payment_event("payment_intent.payment_failed", intent, "requires_payment_method")
}

fn sign(payload: &str) -> String {
    Webhook::generate_test_header(payload, SECRET, Some(SIGNED_AT))
}

fn flipped(text: &str, at: usize) -> String {
    let mut bytes = text.as_bytes().to_vec();
    bytes[at] ^= 1;
    String::from_utf8(bytes).expect("the texts of these tests are plain")
}

fn service() -> StripeService {
    StripeService::new(&Config {
        stripe_secret_key: String::from("sk_test"),
        stripe_webhook_secret: String::from(SECRET),
    })
}

fn store_with_attempt(service: &StripeService, intent: &str) -> Store {
    let mut pool = Store::new();
    let plan = Subscription {
        id: PLAN,
        name: String::from("pro"),
        tier: SubscriptionTier::Pro,
        price_monthly: 999,
        price_yearly: 9990,
        features: String::from("{}"),
        created_at: 0,
        updated_at: 0,
    };
    assert_eq!(pool.insert_plan(plan), Ok(()));
    let plan = Subscription::get_by_id(&pool, PLAN).unwrap();
    let created = Ok(GatewayIntent { id: String::from(intent), client_secret: None });
    service.create_payment_intent(&mut pool, USER, &plan, created, SIGNED_AT - 60).unwrap();
    pool
}

#[test]
fn signed_success_is_decoded() {
    let payload = succeeded("pi_A");
    let header = sign(&payload);
    assert!(header.starts_with("t=1700000000,v1="));
    let event = verify_signature(&payload, &header, SECRET, SIGNED_AT).unwrap();
    assert_eq!(event.kind, "payment_intent.succeeded");
    assert_eq!(event.payment_intent.as_deref(), Some("pi_A"));
    assert!(matches!(
        verify_notification(&payload, &header, SECRET, SIGNED_AT),
        Ok(WebhookEvent::Succeeded(id)) if id == "pi_A"
    ));
}

#[test]
fn signed_failure_is_decoded() {
    let payload = failed("pi_B");
    let header = sign(&payload);
    assert!(matches!(
        verify_notification(&payload, &header, SECRET, SIGNED_AT + 10),
        Ok(WebhookEvent::Failed(id)) if id == "pi_B"
    ));
}

#[test]
fn event_of_another_kind_keeps_its_kind() {
    let payload = payment_event("payment_intent.created", "pi_C", "requires_payment_method");
    let header = sign(&payload);
    assert!(matches!(
        verify_notification(&payload, &header, SECRET, SIGNED_AT),
        Ok(WebhookEvent::Unhandled(kind)) if kind == "payment_intent.created"
    ));
    let payload = r#"{"id":"evt_2","object":"event","created":1700000000,"livemode":false,"pending_webhooks":0,"type":"engine.test.future_kind","data":{"object":{"anything":[1,2,3]}}}"#;
    let header = sign(payload);
    assert!(matches!(
        verify_notification(payload, &header, SECRET, SIGNED_AT),
        Ok(WebhookEvent::Unhandled(kind)) if kind == "engine.test.future_kind"
    ));
}

#[test]
fn flipping_any_byte_of_the_payload_fails_authentication() {
    let payload = succeeded("pi_A");
    let header = sign(&payload);
    for at in 0..payload.len() {
        let tampered = flipped(&payload, at);
        assert_ne!(tampered, payload);
        assert!(
            matches!(
                verify_notification(&tampered, &header, SECRET, SIGNED_AT),
                Err(EngineError::AuthenticationFailed)
            ),
            "payload byte {}",
            at
        );
    }
}

#[test]
fn flipping_any_byte_of_the_signature_fails_authentication() {
    let payload = succeeded("pi_A");
    let header = sign(&payload);
    for at in 0..header.len() {
        let tampered = flipped(&header, at);
        assert_ne!(tampered, header);
        assert!(
            matches!(
                verify_notification(&payload, &tampered, SECRET, SIGNED_AT),
                Err(EngineError::AuthenticationFailed)
            ),
            "signature byte {}",
            at
        );
    }
}

#[test]
fn another_secret_fails_authentication() {
    let payload = succeeded("pi_A");
    let header = sign(&payload);
    assert!(matches!(
        verify_signature(&payload, &header, "whsec_other", SIGNED_AT),
        Err(WebhookFailure::BadSignature)
    ));
    assert!(matches!(
        verify_notification(&payload, &header, "whsec_other", SIGNED_AT),
        Err(EngineError::AuthenticationFailed)
    ));
}

#[test]
fn signature_is_valid_for_five_minutes() {
    let payload = succeeded("pi_A");
    let header = sign(&payload);
    assert!(verify_signature(&payload, &header, SECRET, SIGNED_AT + 300).is_ok());
    assert!(verify_signature(&payload, &header, SECRET, SIGNED_AT - 300).is_ok());
    assert!(matches!(
        verify_signature(&payload, &header, SECRET, SIGNED_AT + 301),
        Err(WebhookFailure::BadTimestamp)
    ));
    assert!(matches!(
        verify_signature(&payload, &header, SECRET, SIGNED_AT - 301),
        Err(WebhookFailure::BadTimestamp)
    ));
    assert!(matches!(
        verify_notification(&payload, &header, SECRET, SIGNED_AT + 301),
        Err(EngineError::AuthenticationFailed)
    ));
}

#[test]
fn valid_signature_over_a_body_that_is_no_event_is_malformed() {
    for body in ["", "not json", "{}", r#"{"id":"evt_1"}"#, r#"{"type":"payment_intent.succeeded"}"#] {
        let header = sign(body);
        assert!(
            matches!(verify_signature(body, &header, SECRET, SIGNED_AT), Err(WebhookFailure::BadParse)),
            "{}",
            body
        );
        assert!(matches!(
            verify_notification(body, &header, SECRET, SIGNED_AT),
            Err(EngineError::MalformedPayload)
        ));
    }
    let incomplete = r#"{"id":"evt_1","object":"event","created":1700000000,"livemode":false,"pending_webhooks":1,"type":"payment_intent.succeeded","data":{"object":{"id":"pi_A","object":"payment_intent"}}}"#;
    let header = sign(incomplete);
    assert!(matches!(
        verify_notification(incomplete, &header, SECRET, SIGNED_AT),
        Err(EngineError::MalformedPayload)
    ));
}

#[test]
fn malformed_signature_headers_fail_authentication() {
    let payload = succeeded("pi_A");
    let good = sign(&payload);
    let v1 = &good["t=1700000000,".len()..];
    let headers = [
        String::new(),
        String::from("t=1700000000"),
        String::from(v1),
        String::from("garbage"),
        format!("t=,{}", v1),
        format!("t=soon,{}", v1),
        format!("{},t=1700000000", "v1=00"),
        format!("t=1700000000,v1="),
        format!("t=1700000000,v1=zz"),
        format!("t=1700000000,{},novalue", v1),
        format!("t=17000000001700000000,{}", v1),
        format!("t=1700000000,{}\u{e9}", v1),
    ];
    for header in headers {
        assert!(
            matches!(
                verify_notification(&payload, &header, SECRET, SIGNED_AT),
                Err(EngineError::AuthenticationFailed)
            ),
            "{}",
            header
        );
    }
}

#[test]
fn header_may_carry_other_parts_and_a_later_signature_replaces_an_earlier() {
    let payload = succeeded("pi_A");
    let good = sign(&payload);
    let v1 = &good["t=1700000000,".len()..];
    let with_old_scheme = format!("{},v0=abcdef", good);
    assert!(verify_signature(&payload, &with_old_scheme, SECRET, SIGNED_AT).is_ok());
    let reordered = format!("{},t=1700000000", v1);
    assert!(verify_signature(&payload, &reordered, SECRET, SIGNED_AT).is_ok());
    let replaced = format!("t=1700000000,v1=00,{}", v1);
    assert!(verify_signature(&payload, &replaced, SECRET, SIGNED_AT).is_ok());
    let overridden = format!("{},v1=00", good);
    assert!(matches!(
        verify_signature(&payload, &overridden, SECRET, SIGNED_AT),
        Err(WebhookFailure::BadSignature)
    ));
}

#[test]
fn signature_digits_may_be_in_either_case() {
    let payload = succeeded("pi_A");
    let good = sign(&payload);
    let upper = format!("t=1700000000,v1={}", good["t=1700000000,v1=".len()..].to_uppercase());
    assert_ne!(upper, good);
    assert!(verify_signature(&payload, &upper, SECRET, SIGNED_AT).is_ok());
}

#[test]
fn long_timestamps_and_far_clocks_are_screened_out() {
    assert_eq!(TIMESTAMP_LENGTH, 18);
    assert_eq!(CLOCK_BOUND, 8_000_000_000_000_000_000);
    let payload = succeeded("pi_A");
    let padded = "0000000001700000000";
    assert_eq!(padded.len(), 19);
    let header = Webhook::generate_test_header(&payload, SECRET, Some(SIGNED_AT))
        .replace("t=1700000000", &format!("t={}", padded));
    assert!(matches!(
        verify_signature(&payload, &header, SECRET, SIGNED_AT),
        Err(WebhookFailure::BadHeader)
    ));
    let eighteen = "000000001700000000";
    assert_eq!(eighteen.len(), 18);
    let header = sign(&payload).replace("t=1700000000", &format!("t={}", eighteen));
    assert!(verify_signature(&payload, &header, SECRET, SIGNED_AT).is_ok());
    let extreme = format!("t={},v1=00", i64::MIN);
    assert!(matches!(
        verify_signature(&payload, &extreme, SECRET, 0),
        Err(WebhookFailure::BadHeader)
    ));
    let good = sign(&payload);
    for now in [CLOCK_BOUND + 1, i64::MAX, -CLOCK_BOUND - 1, i64::MIN] {
        assert!(matches!(
            verify_signature(&payload, &good, SECRET, now),
            Err(WebhookFailure::BadHeader)
        ));
    }
    for now in [CLOCK_BOUND, -CLOCK_BOUND] {
        assert!(matches!(
            verify_signature(&payload, &good, SECRET, now),
            Err(WebhookFailure::BadTimestamp)
        ));
    }
    let early = Webhook::generate_test_header(&payload, SECRET, Some(-999_999_999_999_999_999));
    assert!(matches!(
        verify_signature(&payload, &early, SECRET, CLOCK_BOUND),
        Err(WebhookFailure::BadHeader)
    ));
    let early = Webhook::generate_test_header(&payload, SECRET, Some(-99_999_999_999_999_999));
    assert!(matches!(
        verify_signature(&payload, &early, SECRET, CLOCK_BOUND),
        Err(WebhookFailure::BadTimestamp)
    ));
}

#[test]
fn signed_notification_settles_the_attempt_once() {
    let service = service();
    let mut pool = store_with_attempt(&service, "pi_A");
    let payload = succeeded("pi_A");
    let header = sign(&payload);

    assert_eq!(service.handle_webhook(&mut pool, &payload, &header, SIGNED_AT + 5), Ok(Delivery::Applied));
    let attempt = PaymentIntent::get_by_stripe_id(&pool, "pi_A").unwrap();
    assert_eq!(attempt.status, PaymentStatus::Succeeded);
    assert_eq!(attempt.updated_at, SIGNED_AT + 5);
    assert_eq!(PaymentHistory::get_for_user(&pool, USER, 10).len(), 1);
    assert_eq!(UserSubscription::get_active_for_user(&pool, USER).unwrap().subscription_id, PLAN);

    assert_eq!(
        service.handle_webhook(&mut pool, &payload, &header, SIGNED_AT + 9),
        Ok(Delivery::Redelivered)
    );
    assert_eq!(PaymentHistory::get_for_user(&pool, USER, 10).len(), 1);

    let conflicting = failed("pi_A");
    let header = sign(&conflicting);
    assert_eq!(
        service.handle_webhook(&mut pool, &conflicting, &header, SIGNED_AT + 12),
        Err(EngineError::ConflictingOutcome)
    );
    assert_eq!(PaymentIntent::get_by_stripe_id(&pool, "pi_A").unwrap().status, PaymentStatus::Succeeded);
}

#[test]
fn tampered_notification_never_reaches_the_store() {
    let service = service();
    let mut pool = store_with_attempt(&service, "pi_A");
    let payload = succeeded("pi_A");
    let header = sign(&payload);
    let forged = payload.replace("pi_A", "pi_Z");
    assert_eq!(
        service.handle_webhook(&mut pool, &forged, &header, SIGNED_AT),
        Err(EngineError::AuthenticationFailed)
    );
    let other = store_with_attempt(&service, "pi_B");
    drop(other);
    let unsigned = format!("t={},v1={}", SIGNED_AT, "0".repeat(64));
    assert_eq!(
        service.handle_webhook(&mut pool, &payload, &unsigned, SIGNED_AT),
        Err(EngineError::AuthenticationFailed)
    );
    let attempt = PaymentIntent::get_by_stripe_id(&pool, "pi_A").unwrap();
    assert_eq!(attempt.status, PaymentStatus::Pending);
    assert_eq!(attempt.updated_at, SIGNED_AT - 60);
    assert!(PaymentHistory::get_for_user(&pool, USER, 10).is_empty());
    assert!(UserSubscription::get_active_for_user(&pool, USER).is_none());
}

#[test]
fn webhook_requests_are_answered() {
    let service = service();
    let mut pool = store_with_attempt(&service, "pi_A");
    let payload = succeeded("pi_A");
    let header = sign(&payload);

    let e = answer_webhook(&service, &mut pool, SignatureHeader::Missing, &payload, SIGNED_AT).unwrap_err();
    assert_eq!(e.kind, ErrorKind::BadRequest);
    assert_eq!(e.message, "Missing Stripe signature");
    let e = answer_webhook(&service, &mut pool, SignatureHeader::Unreadable, &payload, SIGNED_AT).unwrap_err();
    assert_eq!(e.kind, ErrorKind::BadRequest);
    assert_eq!(e.message, "Invalid Stripe signature");
    let bad = SignatureHeader::Text(flipped(&header, header.len() - 1));
    let e = answer_webhook(&service, &mut pool, bad, &payload, SIGNED_AT).unwrap_err();
    assert_eq!(e.status_code(), 400);
    assert_eq!(e.message, "Webhook authentication failed");
    assert_eq!(PaymentIntent::get_by_stripe_id(&pool, "pi_A").unwrap().status, PaymentStatus::Pending);

    let unknown = succeeded("pi_unknown");
    let signed = SignatureHeader::Text(sign(&unknown));
    assert_eq!(
        answer_webhook(&service, &mut pool, signed, &unknown, SIGNED_AT).unwrap(),
        Delivery::UnknownAttempt
    );
    let good = SignatureHeader::Text(header);
    assert_eq!(answer_webhook(&service, &mut pool, good, &payload, SIGNED_AT).unwrap(), Delivery::Applied);
    assert_eq!(PaymentIntent::get_by_stripe_id(&pool, "pi_A").unwrap().status, PaymentStatus::Succeeded);
}
