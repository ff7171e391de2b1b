//! The handlers for plans and entitlements.

use vstd::prelude::*;
use crate::error::{AppError, ErrorKind};
use crate::models::subscription::{Subscription, UserSubscription};
use crate::models::Store;

verus! {

/// The body of a request to subscribe to a plan.
#[derive(Debug)]
pub struct CreateSubscriptionRequest {
    pub subscription_id: u128,
}

/// The message that answers a request for a plan that does not exist.
pub open spec fn no_subscription() -> Seq<char> {
    "Subscription not found"@
}

/// Lists the plans, cheapest first by monthly price.
pub fn list_subscriptions(pool: &Store) -> (subscriptions: Vec<Subscription>)
    ensures
        subscriptions.deep_view() == pool@.plans,
{
    Subscription::get_all(pool)
}

/// Reads one plan; a plan that does not exist is answered as not found.
pub fn get_subscription(pool: &Store, id: u128) -> (r: Result<Subscription, AppError>)
    ensures
        match r {
            Ok(plan) => pool@.plan(id) == Some(plan@),
            Err(e) => pool@.plan(id) is None && e.is(ErrorKind::NotFound, no_subscription()),
        },
{
    match Subscription::get_by_id(pool, id) {
        Some(plan) => Ok(plan),
        None => Err(AppError::not_found("Subscription not found")),
    }
}

/// Reads the user's active entitlement, if the user has one.
pub fn get_user_subscription(pool: &Store, user_id: u128) -> (subscription: Option<UserSubscription>)
    ensures
        subscription.deep_view() == pool@.active(user_id),
{
    UserSubscription::get_active_for_user(pool, user_id)
}

/// Subscribes the user to a plan: the entitlement is recorded with its
/// payment pending and becomes active when the payment succeeds. A plan
/// that does not exist is answered as not found, and nothing is recorded.
pub fn create_subscription(
    pool: &mut Store,
    user_id: u128,
    request: &CreateSubscriptionRequest,
    now: i64,
) -> (r: Result<UserSubscription, AppError>)
    ensures
        match r {
            Ok(row) => old(pool)@.has_plan(request.subscription_id) && row@ == old(pool)@.pending_subscription(user_id, request.subscription_id, now) && final(pool)@ == old(pool)@.with_subscription(row@),
            Err(e) => !old(pool)@.has_plan(request.subscription_id) && e.is(
                ErrorKind::NotFound,
                no_subscription(),
            ) && final(pool)@ == old(pool)@,
        },
{
    if Subscription::get_by_id(pool, request.subscription_id).is_none() {
        return Err(AppError::not_found("Subscription not found"));
    }
    Ok(UserSubscription::create(pool, user_id, request.subscription_id, now))
}

/// Cancels the user's subscription at `now`.
pub fn cancel_subscription(pool: &mut Store, user_id: u128, now: i64)
    ensures
        final(pool)@ == old(pool)@.cancelled(user_id, now),
        !final(pool)@.has_active(user_id),
{
    UserSubscription::cancel(pool, user_id, now)
}

} // verus!
