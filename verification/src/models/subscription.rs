//! Subscription plans and the users' entitlements.

use vstd::prelude::*;
use super::payment::PaymentStatus;
use super::{Store, StoreView, Tables};
use crate::error::EngineError;

verus! {

/// The tier of a subscription plan.
#[derive(Debug, Clone, Copy, PartialEq, Eq, Structural)]
pub enum SubscriptionTier {
    Free,
    Pro,
    Enterprise,
}

impl SubscriptionTier {
    /// The tier that a word of a stored record names, if it names one. The
    /// words are `free`, `pro` and `enterprise`.
    pub open spec fn named(word: Seq<char>) -> Option<SubscriptionTier> {
        if word == "free"@ {
            Some(SubscriptionTier::Free)
        } else if word == "pro"@ {
            Some(SubscriptionTier::Pro)
        } else if word == "enterprise"@ {
            Some(SubscriptionTier::Enterprise)
        } else {
            None
        }
    }

    /// Reads a tier from the word that stands for it in stored records. A
    /// word that names no tier is refused.
    pub fn parse(word: &str) -> (tier: Option<SubscriptionTier>)
        ensures
            tier == Self::named(word@),
    {
        let word = word.to_owned();
        if word == "free".to_owned() {
            Some(SubscriptionTier::Free)
        } else if word == "pro".to_owned() {
            Some(SubscriptionTier::Pro)
        } else if word == "enterprise".to_owned() {
            Some(SubscriptionTier::Enterprise)
        } else {
            None
        }
    }
}

/// A subscription plan as the contracts see it.
pub struct SubscriptionView {
    pub id: u128,
    pub name: Seq<char>,
    pub tier: SubscriptionTier,
    pub price_monthly: i64,
    pub price_yearly: i64,
    pub features: Seq<char>,
    pub created_at: i64,
    pub updated_at: i64,
}

/// A subscription plan. Prices are in the currency's minor unit; `features`
/// holds the plan's feature list as JSON text.
#[derive(Debug)]
pub struct Subscription {
    pub id: u128,
    pub name: String,
    pub tier: SubscriptionTier,
    pub price_monthly: i64,
    pub price_yearly: i64,
    pub features: String,
    pub created_at: i64,
    pub updated_at: i64,
}

impl View for Subscription {
    type V = SubscriptionView;

    open spec fn view(&self) -> SubscriptionView {
        SubscriptionView {
            id: self.id,
            name: self.name@,
            tier: self.tier,
            price_monthly: self.price_monthly,
            price_yearly: self.price_yearly,
            features: self.features@,
            created_at: self.created_at,
            updated_at: self.updated_at,
        }
    }
}

impl DeepView for Subscription {
    type V = SubscriptionView;

    open spec fn deep_view(&self) -> SubscriptionView {
        self@
    }
}

impl Clone for Subscription {
    fn clone(&self) -> (copy: Self)
        ensures
            copy == *self,
    {
        Subscription {
            id: self.id,
            name: self.name.clone(),
            tier: self.tier,
            price_monthly: self.price_monthly,
            price_yearly: self.price_yearly,
            features: self.features.clone(),
            created_at: self.created_at,
            updated_at: self.updated_at,
        }
    }
}

/// An entitlement as the contracts see it.
pub struct UserSubscriptionView {
    pub id: int,
    pub user_id: u128,
    pub subscription_id: u128,
    pub starts_at: i64,
    pub ends_at: Option<i64>,
    pub is_active: bool,
    pub payment_status: Option<PaymentStatus>,
    pub created_at: i64,
    pub updated_at: i64,
}

/// The record of a plan that a user subscribed to.
#[derive(Debug, Clone, Copy)]
pub struct UserSubscription {
    pub id: u128,
    pub user_id: u128,
    pub subscription_id: u128,
    pub starts_at: i64,
    pub ends_at: Option<i64>,
    pub is_active: bool,
    pub payment_status: Option<PaymentStatus>,
    pub created_at: i64,
    pub updated_at: i64,
}

impl View for UserSubscription {
    type V = UserSubscriptionView;

    open spec fn view(&self) -> UserSubscriptionView {
        UserSubscriptionView {
            id: self.id as int,
            user_id: self.user_id,
            subscription_id: self.subscription_id,
            starts_at: self.starts_at,
            ends_at: self.ends_at,
            is_active: self.is_active,
            payment_status: self.payment_status,
            created_at: self.created_at,
            updated_at: self.updated_at,
        }
    }
}

impl DeepView for UserSubscription {
    type V = UserSubscriptionView;

    open spec fn deep_view(&self) -> UserSubscriptionView {
        self@
    }
}

/// The entitlement `row`, closed at `now`.
pub open spec fn closed_row(row: UserSubscriptionView, now: i64) -> UserSubscriptionView {
    UserSubscriptionView { is_active: false, ends_at: Some(now), updated_at: now, ..row }
}

/// The entitlement `row`, made active with a fresh start at `now`.
pub open spec fn opened_row(row: UserSubscriptionView, now: i64) -> UserSubscriptionView {
    UserSubscriptionView {
        is_active: true,
        starts_at: now,
        payment_status: Some(PaymentStatus::Succeeded),
        updated_at: now,
        ..row
    }
}

/// The entitlement is the record of a subscription of this user to this
/// plan that still waits for its payment: never active yet, not ended,
/// payment pending.
pub open spec fn awaits(row: UserSubscriptionView, user_id: u128, subscription_id: u128) -> bool {
    &&& row.user_id == user_id
    &&& row.subscription_id == subscription_id
    &&& !row.is_active
    &&& row.ends_at is None
    &&& row.payment_status == Some(PaymentStatus::Pending)
}

/// Some entitlement of `rows` waits for the payment of this user for this
/// plan.
pub open spec fn has_awaiting(rows: Seq<UserSubscriptionView>, user_id: u128, subscription_id: u128) -> bool {
    exists|k: int| 0 <= k < rows.len() && awaits(#[trigger] rows[k], user_id, subscription_id)
}

/// Row `k` is the first of `rows` that waits for the payment of this user
/// for this plan.
pub open spec fn is_first_awaiting(
    rows: Seq<UserSubscriptionView>,
    user_id: u128,
    subscription_id: u128,
    k: int,
) -> bool {
    &&& 0 <= k < rows.len()
    &&& awaits(rows[k], user_id, subscription_id)
    &&& forall|j: int| 0 <= j < k ==> !awaits(#[trigger] rows[j], user_id, subscription_id)
}

/// The position of the first entitlement that waits for the payment of this
/// user for this plan, where there is one.
pub open spec fn first_awaiting(rows: Seq<UserSubscriptionView>, user_id: u128, subscription_id: u128) -> int {
    choose|k: int| is_first_awaiting(rows, user_id, subscription_id, k)
}

impl StoreView {
    /// The plan with this identifier, if it exists.
    pub open spec fn plan(self, id: u128) -> Option<SubscriptionView> {
        if self.has_plan(id) {
            Some(self.plans[self.plan_index(id)])
        } else {
            None
        }
    }

    /// The user's active entitlement, if the user has one.
    pub open spec fn active(self, user_id: u128) -> Option<UserSubscriptionView> {
        if self.has_active(user_id) {
            Some(self.user_subscriptions[self.active_index(user_id)])
        } else {
            None
        }
    }

    /// The entitlement that records a new subscription: not active, with
    /// its payment pending.
    pub open spec fn pending_subscription(self, user_id: u128, subscription_id: u128, now: i64) -> UserSubscriptionView {
        UserSubscriptionView {
            id: self.user_subscriptions.len() as int,
            user_id,
            subscription_id,
            starts_at: now,
            ends_at: None,
            is_active: false,
            payment_status: Some(PaymentStatus::Pending),
            created_at: now,
            updated_at: now,
        }
    }

    /// The store with one more entitlement.
    pub open spec fn with_subscription(self, row: UserSubscriptionView) -> StoreView {
        StoreView { user_subscriptions: self.user_subscriptions.push(row), ..self }
    }

    /// The entitlements once every active entitlement of the user is closed
    /// at `now`.
    pub open spec fn closed_for(self, user_id: u128, now: i64) -> Seq<UserSubscriptionView> {
        Seq::new(
            self.user_subscriptions.len(),
            |i: int|
                if self.user_subscriptions[i].user_id == user_id
                    && self.user_subscriptions[i].is_active {
                    closed_row(self.user_subscriptions[i], now)
                } else {
                    self.user_subscriptions[i]
                },
        )
    }

    /// The store once the user has cancelled at `now`.
    pub open spec fn cancelled(self, user_id: u128, now: i64) -> StoreView {
        StoreView { user_subscriptions: self.closed_for(user_id, now), ..self }
    }

    /// The entitlement that is active once the user is activated on the
    /// plan at `now`: the first entitlement that waited for this payment,
    /// opened, or else a new one.
    pub open spec fn activated_row(self, user_id: u128, subscription_id: u128, now: i64) -> UserSubscriptionView {
        let rows = self.closed_for(user_id, now);
        if has_awaiting(rows, user_id, subscription_id) {
            opened_row(rows[first_awaiting(rows, user_id, subscription_id)], now)
        } else {
            UserSubscriptionView {
                id: rows.len() as int,
                user_id,
                subscription_id,
                starts_at: now,
                ends_at: None,
                is_active: true,
                payment_status: Some(PaymentStatus::Succeeded),
                created_at: now,
                updated_at: now,
            }
        }
    }

    /// The store once the user is activated on the plan at `now`: the
    /// user's active entitlements are closed and one entitlement on the
    /// plan is opened, in one step.
    pub open spec fn activated(self, user_id: u128, subscription_id: u128, now: i64) -> StoreView {
        let rows = self.closed_for(user_id, now);
        let row = self.activated_row(user_id, subscription_id, now);
        if has_awaiting(rows, user_id, subscription_id) {
            StoreView {
                user_subscriptions: rows.update(first_awaiting(rows, user_id, subscription_id), row),
                ..self
            }
        } else {
            StoreView { user_subscriptions: rows.push(row), ..self }
        }
    }

    /// What activating a user on a plan returns and leaves: a plan that
    /// does not exist is refused and nothing changes.
    pub open spec fn activate(self, user_id: u128, subscription_id: u128, now: i64) -> (
        Result<UserSubscriptionView, EngineError>,
        StoreView,
    ) {
        if self.has_plan(subscription_id) {
            (
                Ok(self.activated_row(user_id, subscription_id, now)),
                self.activated(user_id, subscription_id, now),
            )
        } else {
            (Err(EngineError::PlanNotFound), self)
        }
    }
}

/// After an activation the store is well formed, and the activated row is
/// the user's only active entitlement: on the plan, started at `now`.
pub proof fn lemma_activated(s: StoreView, user_id: u128, subscription_id: u128, now: i64)
    requires
        s.wf(),
    ensures
        s.activated(user_id, subscription_id, now).wf(),
        s.activated_row(user_id, subscription_id, now).user_id == user_id,
        s.activated_row(user_id, subscription_id, now).subscription_id == subscription_id,
        s.activated_row(user_id, subscription_id, now).is_active,
        s.activated_row(user_id, subscription_id, now).starts_at == now,
        s.activated_row(user_id, subscription_id, now).ends_at is None,
        exists|k: int|
            super::sole(
                s.activated(user_id, subscription_id, now).user_subscriptions,
                |row: UserSubscriptionView| row.user_id == user_id && row.is_active,
                k,
            ) && s.activated(user_id, subscription_id, now).user_subscriptions[k] == s.activated_row(
                user_id,
                subscription_id,
                now,
            ),
{
    // Once the user's entitlements are closed none of them is active; the
    // row that is then opened, or added at the end, is the only one.
    let rows = s.closed_for(user_id, now);
    let t = s.activated(user_id, subscription_id, now);
    let p = |row: UserSubscriptionView| row.user_id == user_id && row.is_active;
    let k = if has_awaiting(rows, user_id, subscription_id) {
        first_awaiting(rows, user_id, subscription_id)
    } else {
        rows.len() as int
    };
    if has_awaiting(rows, user_id, subscription_id) {
        let w = choose|w: int|
            0 <= w < rows.len() && awaits(#[trigger] rows[w], user_id, subscription_id);
        lemma_first_awaiting_exists(rows, user_id, subscription_id, w);
    }
    assert(super::sole(t.user_subscriptions, p, k));
}

/// An activation keeps every entitlement at its place and with its owner.
/// It leaves an entitlement that has ended as it was, and it ends the
/// entitlements of the user that were active: they are then not active and
/// have `now` as their end.
pub proof fn lemma_activation_closes(s: StoreView, user_id: u128, subscription_id: u128, now: i64)
    requires
        s.wf(),
    ensures
        s.activated(user_id, subscription_id, now).user_subscriptions.len()
            >= s.user_subscriptions.len(),
        forall|i: int|
            0 <= i < s.user_subscriptions.len() ==> {
                let before = s.user_subscriptions[i];
                let after = #[trigger] s.activated(
                    user_id,
                    subscription_id,
                    now,
                ).user_subscriptions[i];
                &&& after.user_id == before.user_id
                &&& before.ends_at is Some ==> after == before
                &&& before.user_id == user_id && before.is_active ==> !after.is_active
                    && after.ends_at == Some(now)
            },
{
    let rows = s.closed_for(user_id, now);
    if has_awaiting(rows, user_id, subscription_id) {
        let w = choose|w: int|
            0 <= w < rows.len() && awaits(#[trigger] rows[w], user_id, subscription_id);
        lemma_first_awaiting_exists(rows, user_id, subscription_id, w);
    }
}

/// Where some row waits, a first such row exists.
proof fn lemma_first_awaiting_exists(rows: Seq<UserSubscriptionView>, user_id: u128, subscription_id: u128, w: int)
    requires
        0 <= w < rows.len(),
        awaits(rows[w], user_id, subscription_id),
    ensures
        exists|k: int| is_first_awaiting(rows, user_id, subscription_id, k),
    decreases w,
{
    if forall|j: int| 0 <= j < w ==> !awaits(#[trigger] rows[j], user_id, subscription_id) {
        assert(is_first_awaiting(rows, user_id, subscription_id, w));
    } else {
        let j = choose|j: int| 0 <= j < w && awaits(#[trigger] rows[j], user_id, subscription_id);
        lemma_first_awaiting_exists(rows, user_id, subscription_id, j);
    }
}

/// After a cancellation the store is well formed and the user has no
/// active entitlement.
pub proof fn lemma_cancelled(s: StoreView, user_id: u128, now: i64)
    requires
        s.wf(),
    ensures
        s.cancelled(user_id, now).wf(),
        !s.cancelled(user_id, now).has_active(user_id),
{
}

impl Subscription {
    /// The position of the plan with this identifier.
    fn position(pool: &Store, id: u128) -> (r: Option<usize>)
        requires
            pool.wf(),
        ensures
            r is Some == pool@.has_plan(id),
            r is Some ==> r->0 == pool@.plan_index(id) && r->0 < pool@.plans.len(),
    {
        let n = pool.tables.plans.len();
        let mut i: usize = 0;
        while i < n
            invariant
                pool.wf(),
                n == pool.tables.plans.len(),
                0 <= i <= n,
                forall|k: int| 0 <= k < i ==> (#[trigger] pool@.plans[k]).id != id,
            decreases n - i,
        {
            assert(pool@.plans[i as int] == pool.tables.plans[i as int]@);
            if pool.tables.plans[i].id == id {
                return Some(i);
            }
            i += 1;
        }
        None
    }

    /// Reads every plan, cheapest first by monthly price.
    pub fn get_all(pool: &Store) -> (plans: Vec<Subscription>)
        ensures
            plans.deep_view() == pool@.plans,
            forall|i: int, j: int|
                0 <= i < j < plans.len() ==> (#[trigger] plans[i]).price_monthly <= (
                #[trigger] plans[j]).price_monthly,
    {
        proof {
            use_type_invariant(pool);
        }
        let n = pool.tables.plans.len();
        let mut plans: Vec<Subscription> = Vec::new();
        let mut i: usize = 0;
        while i < n
            invariant
                n == pool.tables.plans.len(),
                0 <= i <= n,
                plans.len() == i,
                forall|k: int| 0 <= k < i ==> (#[trigger] plans[k])@ == pool@.plans[k],
            decreases n - i,
        {
            plans.push(pool.tables.plans[i].clone());
            i += 1;
        }
        plans
    }

    /// Reads the plan with this identifier.
    pub fn get_by_id(pool: &Store, id: u128) -> (r: Option<Subscription>)
        ensures
            r.deep_view() == pool@.plan(id),
    {
        proof {
            use_type_invariant(pool);
        }
        match Self::position(pool, id) {
            Some(i) => {
                Some(pool.tables.plans[i].clone())
            },
            None => None,
        }
    }
}

impl UserSubscription {
    /// Reads the user's active entitlement.
    pub fn get_active_for_user(pool: &Store, user_id: u128) -> (r: Option<UserSubscription>)
        ensures
            r.deep_view() == pool@.active(user_id),
    {
        proof {
            use_type_invariant(pool);
        }
        let n = pool.tables.user_subscriptions.len();
        let mut i: usize = 0;
        while i < n
            invariant
                pool.wf(),
                n == pool.tables.user_subscriptions.len(),
                0 <= i <= n,
                forall|k: int|
                    0 <= k < i ==> !((#[trigger] pool@.user_subscriptions[k]).user_id == user_id
                        && pool@.user_subscriptions[k].is_active),
            decreases n - i,
        {
            assert(pool@.user_subscriptions[i as int] == pool.tables.user_subscriptions[i as int]@);
            if pool.tables.user_subscriptions[i].user_id == user_id
                && pool.tables.user_subscriptions[i].is_active {
                return Some(pool.tables.user_subscriptions[i]);
            }
            i += 1;
        }
        None
    }

    /// Records that the user subscribed to the plan: an entitlement that is
    /// not active yet and whose payment is pending.
    pub fn create(pool: &mut Store, user_id: u128, subscription_id: u128, now: i64) -> (row:
        UserSubscription)
        ensures
            row@ == old(pool)@.pending_subscription(user_id, subscription_id, now),
            final(pool)@ == old(pool)@.with_subscription(row@),
    {
        let ghost before = pool@;
        let mut tables = pool.take();
        let n = tables.user_subscriptions.len();
        let row = UserSubscription {
            id: n as u128,
            user_id,
            subscription_id,
            starts_at: now,
            ends_at: None,
            is_active: false,
            payment_status: Some(PaymentStatus::Pending),
            created_at: now,
            updated_at: now,
        };
        tables.user_subscriptions.push(row);
        assert(tables@.user_subscriptions =~= before.user_subscriptions.push(row@));
        pool.put(tables);
        row
    }

    /// Closes every active entitlement of the user at `now`, leaving the
    /// other tables and the other users' entitlements as they are.
    fn close_active(pool: &mut Tables, user_id: u128, now: i64)
        ensures
            final(pool)@ == old(pool)@.cancelled(user_id, now),
    {
        let ghost before = pool@;
        let n = pool.user_subscriptions.len();
        let mut i: usize = 0;
        while i < n
            invariant
                n == pool.user_subscriptions.len(),
                n == before.user_subscriptions.len(),
                0 <= i <= n,
                pool@.plans == before.plans,
                pool@.payment_intents == before.payment_intents,
                pool@.payment_history == before.payment_history,
                pool@.payment_methods == before.payment_methods,
                forall|k: int|
                    0 <= k < i ==> (#[trigger] pool@.user_subscriptions[k]) == before.closed_for(
                        user_id,
                        now,
                    )[k],
                forall|k: int|
                    i <= k < n ==> (#[trigger] pool@.user_subscriptions[k])
                        == before.user_subscriptions[k],
            decreases n - i,
        {
            let ghost here = pool@;
            assert(here.user_subscriptions[i as int] == pool.user_subscriptions[i as int]@);
            if pool.user_subscriptions[i].user_id == user_id && pool.user_subscriptions[i].is_active {
                pool.user_subscriptions[i].is_active = false;
                pool.user_subscriptions[i].ends_at = Some(now);
                pool.user_subscriptions[i].updated_at = now;
                proof {
                    let after = pool@;
                    assert forall|k: int| 0 <= k < n && k != i implies (
                    #[trigger] after.user_subscriptions[k]) == here.user_subscriptions[k] by {
                    }
                }
            }
            i += 1;
        }
        assert(pool@.user_subscriptions =~= before.closed_for(user_id, now));
    }

    /// Cancels the user's subscription: the active entitlement is closed at
    /// `now`.
    pub fn cancel(pool: &mut Store, user_id: u128, now: i64)
        ensures
            final(pool)@ == old(pool)@.cancelled(user_id, now),
            !final(pool)@.has_active(user_id),
    {
        let mut tables = pool.take();
        proof {
            lemma_cancelled(tables@, user_id, now);
        }
        Self::close_active(&mut tables, user_id, now);
        pool.put(tables);
    }

    /// Activates the user on the plan at `now`.
    ///
    /// In one step every active entitlement of the user is closed and one
    /// entitlement on the plan is opened with a fresh start: the first
    /// entitlement that waited for this payment, or else a new one. So the
    /// user never has two active entitlements. A plan that does not exist
    /// is refused and nothing changes.
    pub fn activate(pool: &mut Store, user_id: u128, subscription_id: u128, now: i64) -> (r: Result<
        UserSubscription,
        EngineError,
    >)
        ensures
            super::payment::result_view(r) == old(pool)@.activate(user_id, subscription_id, now).0,
            final(pool)@ == old(pool)@.activate(user_id, subscription_id, now).1,
            r is Ok ==> final(pool)@.active(user_id) == Some(r->Ok_0@),
    {
        proof {
            use_type_invariant(&*pool);
        }
        if Subscription::position(pool, subscription_id).is_none() {
            return Err(EngineError::PlanNotFound);
        }
        let mut tables = pool.take();
        let active = Self::swap_active(&mut tables, user_id, subscription_id, now);
        pool.put(tables);
        Ok(active)
    }

    /// Closes the user's active entitlements and opens one on the plan.
    fn swap_active(pool: &mut Tables, user_id: u128, subscription_id: u128, now: i64) -> (active:
        UserSubscription)
        requires
            old(pool)@.wf(),
        ensures
            final(pool)@.wf(),
            final(pool)@ == old(pool)@.activated(user_id, subscription_id, now),
            active@ == old(pool)@.activated_row(user_id, subscription_id, now),
            final(pool)@.active(user_id) == Some(active@),
    {
        let ghost before = pool@;
        proof {
            lemma_activated(before, user_id, subscription_id, now);
        }
        Self::close_active(pool, user_id, now);
        let ghost rows = before.closed_for(user_id, now);
        let n = pool.user_subscriptions.len();
        let mut i: usize = 0;
        let mut found: Option<usize> = None;
        while i < n && found.is_none()
            invariant
                n == pool.user_subscriptions.len(),
                pool@.user_subscriptions == rows,
                0 <= i <= n,
                found is None ==> forall|k: int|
                    0 <= k < i ==> !awaits(#[trigger] rows[k], user_id, subscription_id),
                found is Some ==> is_first_awaiting(rows, user_id, subscription_id, found->0 as int),
            decreases n - i + if found is None { 1int } else { 0int },
        {
            let row = &pool.user_subscriptions[i];
            let pending = match row.payment_status {
                Some(PaymentStatus::Pending) => true,
                _ => false,
            };
            if row.user_id == user_id && row.subscription_id == subscription_id && !row.is_active
                && row.ends_at.is_none() && pending {
                found = Some(i);
            } else {
                i += 1;
            }
        }
        let active = match found {
            Some(k) => {
                pool.user_subscriptions[k].is_active = true;
                pool.user_subscriptions[k].starts_at = now;
                pool.user_subscriptions[k].payment_status = Some(PaymentStatus::Succeeded);
                pool.user_subscriptions[k].updated_at = now;
                assert(pool@.user_subscriptions =~= rows.update(
                    k as int,
                    opened_row(rows[k as int], now),
                ));
                pool.user_subscriptions[k]
            },
            None => {
                let row = UserSubscription {
                    id: n as u128,
                    user_id,
                    subscription_id,
                    starts_at: now,
                    ends_at: None,
                    is_active: true,
                    payment_status: Some(PaymentStatus::Succeeded),
                    created_at: now,
                    updated_at: now,
                };
                pool.user_subscriptions.push(row);
                assert(pool@.user_subscriptions =~= rows.push(row@));
                row
            },
        };
        active
    }
}

/// The entitlements of this user.
pub open spec fn entitlements_of(user_id: u128) -> spec_fn(UserSubscriptionView) -> bool {
    |row: UserSubscriptionView| row.user_id == user_id
}

impl UserSubscription {
    /// Reads every entitlement of the user, in the order of their creation.
    pub fn get_for_user(pool: &Store, user_id: u128) -> (entitlements: Vec<UserSubscription>)
        ensures
            entitlements.deep_view() == pool@.user_subscriptions.filter(entitlements_of(user_id)),
    {
        let ghost rows = pool@.user_subscriptions;
        let n = pool.tables.user_subscriptions.len();
        let mut entitlements: Vec<UserSubscription> = Vec::new();
        let mut i: usize = 0;
        proof {
            reveal(Seq::filter);
            assert(rows.take(0).filter(entitlements_of(user_id)) =~= entitlements.deep_view());
        }
        while i < n
            invariant
                rows == pool@.user_subscriptions,
                n == pool.tables.user_subscriptions.len(),
                0 <= i <= n,
                entitlements.deep_view() == rows.take(i as int).filter(entitlements_of(user_id)),
            decreases n - i,
        {
            let ghost shown = entitlements.deep_view();
            proof {
                assert(rows.take(i + 1) =~= rows.take(i as int).push(rows[i as int]));
                rows.take(i as int).lemma_filter_push(rows[i as int], entitlements_of(user_id));
            }
            if pool.tables.user_subscriptions[i].user_id == user_id {
                entitlements.push(pool.tables.user_subscriptions[i]);
                assert(entitlements.deep_view() =~= shown.push(rows[i as int]));
            }
            i += 1;
        }
        assert(rows.take(n as int) =~= rows);
        entitlements
    }
}

} // verus!
