use payment_engine::config::Config;
use payment_engine::models::subscription::{Subscription, SubscriptionTier};
use payment_engine::services::customer::{
    Customer, CustomerResolution, ListCustomers, Metadata,
};
use payment_engine::services::stripe::StripeService;

fn service() -> StripeService {
    StripeService::new(&Config {
        stripe_secret_key: String::from("sk"),
        stripe_webhook_secret: String::from("wh"),
    })
}

#[test]
fn user_identifier_is_written_hyphenated_in_lower_case() {
    let entry = Metadata::of_user(0xa1a2a3a4b1b2c1c2d1d2d3d4d5d6d7d8);
    assert_eq!(entry.key, "user_id");
    assert_eq!(entry.value, "a1a2a3a4-b1b2-c1c2-d1d2-d3d4d5d6d7d8");
}

#[test]
fn small_user_identifier_keeps_its_leading_zeros() {
    let entry = Metadata::of_user(7);
    assert_eq!(entry.value, "00000000-0000-0000-0000-000000000007");
    let entry = Metadata::of_user(0);
    assert_eq!(entry.value, "00000000-0000-0000-0000-000000000000");
    let entry = Metadata::of_user(u128::MAX);
    assert_eq!(entry.value, "ffffffff-ffff-ffff-ffff-ffffffffffff");
    let entry = Metadata::of_user(0x0123456789abcdef0123456789abcdef);
    assert_eq!(entry.value, "01234567-89ab-cdef-0123-456789abcdef");
}

#[test]
fn customer_lookup_is_by_the_user_identifier() {
    let query = ListCustomers::of_user(0x550e8400e29b41d4a716446655440000);
    assert_eq!(query.metadata.key, "user_id");
    assert_eq!(query.metadata.value, "550e8400-e29b-41d4-a716-446655440000");
}

#[test]
fn customers_are_searched_by_their_metadata() {
    let query = ListCustomers::of_user(0x550e8400e29b41d4a716446655440000);
    assert_eq!(
        query.metadata.search_query(),
        "metadata['user_id']:'550e8400-e29b-41d4-a716-446655440000'"
    );
    let entry = Metadata { key: String::from("k"), value: String::from("v") };
    assert_eq!(entry.search_query(), "metadata['k']:'v'");
}

#[test]
fn found_customer_is_used() {
    let found = vec![Customer { id: String::from("cus_1") }];
    match service().get_or_create_customer(7, found) {
        CustomerResolution::Existing(customer) => assert_eq!(customer.id, "cus_1"),
        CustomerResolution::Create(_) => panic!("a customer was found"),
    }
}

#[test]
fn last_of_several_customers_is_used() {
    let found = vec![
        Customer { id: String::from("cus_1") },
        Customer { id: String::from("cus_2") },
        Customer { id: String::from("cus_3") },
    ];
    match CustomerResolution::resolve(7, found) {
        CustomerResolution::Existing(customer) => assert_eq!(customer.id, "cus_3"),
        CustomerResolution::Create(_) => panic!("customers were found"),
    }
}

#[test]
fn missing_customer_is_created_for_the_user() {
    match service().get_or_create_customer(0x550e8400e29b41d4a716446655440000, Vec::new()) {
        CustomerResolution::Existing(_) => panic!("no customer was found"),
        CustomerResolution::Create(request) => {
            assert_eq!(request.metadata.key, "user_id");
            assert_eq!(request.metadata.value, "550e8400-e29b-41d4-a716-446655440000");
        }
    }
}

#[test]
fn payment_is_requested_for_the_monthly_price() {
    let plan = Subscription {
        id: 5,
        name: String::from("pro"),
        tier: SubscriptionTier::Pro,
        price_monthly: 999,
        price_yearly: 9990,
        features: String::from("{}"),
        created_at: 0,
        updated_at: 0,
    };
    let customer = Customer { id: String::from("cus_9") };
    let params = service().payment_intent_params(&plan, &customer);
    assert_eq!(params.amount, 999);
    assert_eq!(params.currency, "usd");
    assert_eq!(params.customer, "cus_9");
    assert!(params.off_session);
}
