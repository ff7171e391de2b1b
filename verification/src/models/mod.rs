//! The records that the engine keeps, and the operations of each table.
//!
//! The [`Store`] is the system of record. Its contracts speak of its view, a
//! [`StoreView`]: one sequence of rows per table, in the order of insertion.
//! Rows are never deleted from the payment attempts, the payment history, the
//! entitlements and the payment methods, so a row's identifier is its
//! position in its table.

use vstd::prelude::*;

pub mod listing;
pub mod payment;
pub mod subscription;

use crate::error::EngineError;
use payment::{
    Outcome, PaymentHistory, PaymentHistoryView, PaymentIntent, PaymentIntentView, PaymentMethod,
    PaymentMethodView,
};
use subscription::{Subscription, SubscriptionView, UserSubscription, UserSubscriptionView};

verus! {

/// The code of the currency that every amount is recorded in.
pub open spec fn default_currency() -> Seq<char> {
    "USD"@
}

/// How many rows of `rows` satisfy `p`.
pub open spec fn count<T>(rows: Seq<T>, p: spec_fn(T) -> bool) -> nat
    decreases rows.len(),
{
    if rows.len() == 0 {
        0
    } else {
        count(rows.drop_last(), p) + if p(rows.last()) {
            1nat
        } else {
            0nat
        }
    }
}

/// Row `i` satisfies `p` and no other row of `rows` does.
pub open spec fn sole<T>(rows: Seq<T>, p: spec_fn(T) -> bool, i: int) -> bool {
    &&& 0 <= i < rows.len()
    &&& p(rows[i])
    &&& forall|j: int| 0 <= j < rows.len() && p(#[trigger] rows[j]) ==> j == i
}

/// No row satisfies `p` exactly when the count is zero.
pub proof fn lemma_count_none<T>(rows: Seq<T>, p: spec_fn(T) -> bool)
    ensures
        count(rows, p) == 0 <==> forall|j: int| 0 <= j < rows.len() ==> !p(#[trigger] rows[j]),
    decreases rows.len(),
{
    if rows.len() > 0 {
        let init = rows.drop_last();
        lemma_count_none(init, p);
        assert(forall|j: int| 0 <= j < init.len() ==> init[j] == rows[j]);
    }
}

/// One row alone satisfies `p` exactly when the count is one.
pub proof fn lemma_count_sole<T>(rows: Seq<T>, p: spec_fn(T) -> bool, i: int)
    requires
        sole(rows, p, i),
    ensures
        count(rows, p) == 1,
    decreases rows.len(),
{
    let init = rows.drop_last();
    if i == rows.len() - 1 {
        lemma_count_none(init, p);
    } else {
        lemma_count_sole(init, p, i);
    }
}

/// The tables, as mathematical sequences of rows in the order of insertion.
pub struct StoreView {
    /// The subscription plans, cheapest first.
    pub plans: Seq<SubscriptionView>,
    /// The payment attempts.
    pub payment_intents: Seq<PaymentIntentView>,
    /// The payment history: the ledger of completed outcomes.
    pub payment_history: Seq<PaymentHistoryView>,
    /// The entitlements.
    pub user_subscriptions: Seq<UserSubscriptionView>,
    /// The payment methods.
    pub payment_methods: Seq<PaymentMethodView>,
}

impl StoreView {
    /// The store without any row.
    pub open spec fn empty() -> StoreView {
        StoreView {
            plans: Seq::empty(),
            payment_intents: Seq::empty(),
            payment_history: Seq::empty(),
            user_subscriptions: Seq::empty(),
            payment_methods: Seq::empty(),
        }
    }

    /// A plan with this identifier exists.
    pub open spec fn has_plan(self, id: u128) -> bool {
        exists|i: int| 0 <= i < self.plans.len() && (#[trigger] self.plans[i]).id == id
    }

    /// The position of the plan with this identifier, where there is one.
    pub open spec fn plan_index(self, id: u128) -> int {
        choose|i: int| 0 <= i < self.plans.len() && (#[trigger] self.plans[i]).id == id
    }

    /// Position `k` is where a plan of this monthly price belongs: behind
    /// every plan that costs no more, before every plan that costs more.
    pub open spec fn is_plan_slot(self, price: i64, k: int) -> bool {
        &&& 0 <= k <= self.plans.len()
        &&& forall|i: int| 0 <= i < k ==> (#[trigger] self.plans[i]).price_monthly <= price
        &&& forall|i: int| k <= i < self.plans.len() ==> (#[trigger] self.plans[i]).price_monthly > price
    }

    /// The position where a plan of this monthly price belongs.
    pub open spec fn plan_slot(self, price: i64) -> int {
        choose|k: int| self.is_plan_slot(price, k)
    }

    /// The store with one more plan, at its place in the order of prices.
    pub open spec fn with_plan(self, plan: SubscriptionView) -> StoreView {
        StoreView { plans: self.plans.insert(self.plan_slot(plan.price_monthly), plan), ..self }
    }

    /// The store without the plan of this identifier.
    pub open spec fn without_plan(self, id: u128) -> StoreView {
        if self.has_plan(id) {
            StoreView { plans: self.plans.remove(self.plan_index(id)), ..self }
        } else {
            self
        }
    }

    /// An attempt with this gateway identifier is recorded.
    pub open spec fn has_intent(self, external: Seq<char>) -> bool {
        exists|i: int|
            0 <= i < self.payment_intents.len() && (
            #[trigger] self.payment_intents[i]).stripe_payment_intent_id == external
    }

    /// The position of the attempt with this gateway identifier, where
    /// there is one.
    pub open spec fn intent_index(self, external: Seq<char>) -> int {
        choose|i: int|
            0 <= i < self.payment_intents.len() && (
            #[trigger] self.payment_intents[i]).stripe_payment_intent_id == external
    }

    /// The history holds an entry for this attempt with this outcome.
    pub open spec fn has_history(self, payment_intent_id: int, outcome: Outcome) -> bool {
        exists|i: int|
            0 <= i < self.payment_history.len() && (
            #[trigger] self.payment_history[i]).payment_intent_id == payment_intent_id
                && self.payment_history[i].status == outcome
    }

    /// The user has an active entitlement.
    pub open spec fn has_active(self, user_id: u128) -> bool {
        exists|i: int|
            0 <= i < self.user_subscriptions.len() && (
            #[trigger] self.user_subscriptions[i]).user_id == user_id
                && self.user_subscriptions[i].is_active
    }

    /// The position of the user's active entitlement, where there is one.
    pub open spec fn active_index(self, user_id: u128) -> int {
        choose|i: int|
            0 <= i < self.user_subscriptions.len() && (
            #[trigger] self.user_subscriptions[i]).user_id == user_id
                && self.user_subscriptions[i].is_active
    }

    /// The user has a default payment method.
    pub open spec fn has_default_method(self, user_id: u128) -> bool {
        exists|i: int|
            0 <= i < self.payment_methods.len() && (
            #[trigger] self.payment_methods[i]).user_id == user_id
                && self.payment_methods[i].is_default
    }

    /// The position of the user's default payment method, where there is
    /// one.
    pub open spec fn default_method_index(self, user_id: u128) -> int {
        choose|i: int|
            0 <= i < self.payment_methods.len() && (
            #[trigger] self.payment_methods[i]).user_id == user_id
                && self.payment_methods[i].is_default
    }

    /// Plans have distinct identifiers and stand in the order of their
    /// monthly prices.
    pub open spec fn plans_wf(self) -> bool {
        &&& forall|i: int, j: int|
            0 <= i < self.plans.len() && 0 <= j < self.plans.len() && (#[trigger] self.plans[i]).id
                == (#[trigger] self.plans[j]).id ==> i == j
        &&& forall|i: int, j: int|
            0 <= i < j < self.plans.len() ==> (#[trigger] self.plans[i]).price_monthly <= (
            #[trigger] self.plans[j]).price_monthly
    }

    /// An attempt's identifier is its position, and no two attempts share a
    /// gateway identifier.
    pub open spec fn intents_wf(self) -> bool {
        &&& forall|i: int|
            0 <= i < self.payment_intents.len() ==> (#[trigger] self.payment_intents[i]).id == i
        &&& forall|i: int, j: int|
            0 <= i < self.payment_intents.len() && 0 <= j < self.payment_intents.len() && (
            #[trigger] self.payment_intents[i]).stripe_payment_intent_id == (
            #[trigger] self.payment_intents[j]).stripe_payment_intent_id ==> i == j
    }

    /// An entry's identifier is its position, and the history holds at most
    /// one entry per attempt and outcome.
    pub open spec fn history_wf(self) -> bool {
        &&& forall|i: int|
            0 <= i < self.payment_history.len() ==> (#[trigger] self.payment_history[i]).id == i
        &&& forall|i: int, j: int|
            0 <= i < self.payment_history.len() && 0 <= j < self.payment_history.len() && (
            #[trigger] self.payment_history[i]).payment_intent_id == (
            #[trigger] self.payment_history[j]).payment_intent_id && self.payment_history[i].status
                == self.payment_history[j].status ==> i == j
    }

    /// An entitlement's identifier is its position, a user has at most one
    /// active entitlement, and an active entitlement has not ended.
    pub open spec fn subscriptions_wf(self) -> bool {
        &&& forall|i: int|
            0 <= i < self.user_subscriptions.len() ==> (#[trigger] self.user_subscriptions[i]).id
                == i
        &&& forall|i: int, j: int|
            0 <= i < self.user_subscriptions.len() && 0 <= j < self.user_subscriptions.len() && (
            #[trigger] self.user_subscriptions[i]).user_id == (
            #[trigger] self.user_subscriptions[j]).user_id && self.user_subscriptions[i].is_active
                && self.user_subscriptions[j].is_active ==> i == j
        &&& forall|i: int|
            0 <= i < self.user_subscriptions.len() && (
            #[trigger] self.user_subscriptions[i]).is_active
                ==> self.user_subscriptions[i].ends_at is None
    }

    /// A method's identifier is its position, and a user has at most one
    /// default method.
    pub open spec fn methods_wf(self) -> bool {
        &&& forall|i: int|
            0 <= i < self.payment_methods.len() ==> (#[trigger] self.payment_methods[i]).id == i
        &&& forall|i: int, j: int|
            0 <= i < self.payment_methods.len() && 0 <= j < self.payment_methods.len() && (
            #[trigger] self.payment_methods[i]).user_id == (
            #[trigger] self.payment_methods[j]).user_id && self.payment_methods[i].is_default
                && self.payment_methods[j].is_default ==> i == j
    }

    /// Every entry of the history is the outcome of a recorded attempt, and
    /// that attempt has the entry's outcome as its status.
    pub open spec fn ledger_wf(self) -> bool {
        forall|i: int|
            0 <= i < self.payment_history.len() ==> {
                let entry = #[trigger] self.payment_history[i];
                &&& 0 <= entry.payment_intent_id < self.payment_intents.len()
                &&& self.payment_intents[entry.payment_intent_id].status == entry.status.status()
            }
    }

    /// The invariant of the store: every table is well formed.
    pub open spec fn wf(self) -> bool {
        &&& self.plans_wf()
        &&& self.intents_wf()
        &&& self.history_wf()
        &&& self.ledger_wf()
        &&& self.subscriptions_wf()
        &&& self.methods_wf()
    }
}

/// The tables of a store, open to change.
struct Tables {
    plans: Vec<Subscription>,
    payment_intents: Vec<PaymentIntent>,
    payment_history: Vec<PaymentHistory>,
    user_subscriptions: Vec<UserSubscription>,
    payment_methods: Vec<PaymentMethod>,
}

impl View for Tables {
    type V = StoreView;

    closed spec fn view(&self) -> StoreView {
        StoreView {
            plans: self.plans.deep_view(),
            payment_intents: self.payment_intents.deep_view(),
            payment_history: self.payment_history.deep_view(),
            user_subscriptions: self.user_subscriptions.deep_view(),
            payment_methods: self.payment_methods.deep_view(),
        }
    }
}

impl Tables {
    /// Tables without any row.
    fn new() -> (tables: Self)
        ensures
            tables@ == StoreView::empty(),
    {
        let tables = Tables {
            plans: Vec::new(),
            payment_intents: Vec::new(),
            payment_history: Vec::new(),
            user_subscriptions: Vec::new(),
            payment_methods: Vec::new(),
        };
        assert(tables@.plans =~= Seq::empty());
        assert(tables@.payment_intents =~= Seq::empty());
        assert(tables@.payment_history =~= Seq::empty());
        assert(tables@.user_subscriptions =~= Seq::empty());
        assert(tables@.payment_methods =~= Seq::empty());
        tables
    }
}

/// The system of record: every table that the engine reads and writes.
///
/// A store is made empty by [`Store::new`] and changed only by the
/// operations of this module. Every store is well formed at all times: the
/// operations take it apart only to put it together again, all or nothing.
pub struct Store {
    tables: Tables,
}

impl View for Store {
    type V = StoreView;

    closed spec fn view(&self) -> StoreView {
        self.tables@
    }
}

impl Store {
    /// The invariant of the store, which holds of every store.
    #[verifier::type_invariant]
    pub open spec fn wf(&self) -> bool {
        self@.wf()
    }

    /// An empty store.
    pub fn new() -> (store: Self)
        ensures
            store@ == StoreView::empty(),
            store.wf(),
    {
        Store { tables: Tables::new() }
    }

    /// Takes the tables out to change them, leaving the store empty until
    /// they are put back.
    fn take(&mut self) -> (tables: Tables)
        ensures
            tables@ == old(self)@,
            tables@.wf(),
            final(self)@ == StoreView::empty(),
    {
        proof {
            use_type_invariant(&*self);
        }
        let mut taken = Store::new();
        core::mem::swap(self, &mut taken);
        taken.tables
    }

    /// Puts well-formed tables in the place of the store's own.
    fn put(&mut self, tables: Tables)
        requires
            tables@.wf(),
        ensures
            final(self)@ == tables@,
    {
        *self = Store { tables };
    }

    /// Adds a plan, keeping the plans in the order of their monthly prices:
    /// the new plan comes behind the plans that cost no more. A plan whose
    /// identifier is taken is refused.
    pub fn insert_plan(&mut self, plan: Subscription) -> (r: Result<(), EngineError>)
        ensures
            old(self)@.has_plan(plan.id) ==> r == Err::<(), EngineError>(
                EngineError::DuplicateEntry,
            ) && final(self)@ == old(self)@,
            !old(self)@.has_plan(plan.id) ==> r == Ok::<(), EngineError>(()) && final(self)@ == old(
                self,
            )@.with_plan(plan@),
    {
        proof {
            use_type_invariant(&*self);
        }
        let n = self.tables.plans.len();
        let mut slot: usize = 0;
        let mut taken = false;
        let mut i: usize = 0;
        while i < n
            invariant
                n == self.tables.plans.len(),
                *self == *old(self),
                self@.plans_wf(),
                0 <= i <= n,
                0 <= slot <= i,
                taken == exists|k: int| 0 <= k < i && (#[trigger] self@.plans[k]).id == plan.id,
                forall|k: int|
                    0 <= k < slot ==> (#[trigger] self@.plans[k]).price_monthly
                        <= plan.price_monthly,
                forall|k: int|
                    slot <= k < i ==> (#[trigger] self@.plans[k]).price_monthly
                        > plan.price_monthly,
            decreases n - i,
        {
            if self.tables.plans[i].id == plan.id {
                taken = true;
            }
            if self.tables.plans[i].price_monthly <= plan.price_monthly {
                proof {
                    assert forall|k: int| 0 <= k < i + 1 implies (
                    #[trigger] self@.plans[k]).price_monthly <= plan.price_monthly by {
                        if k < i {
                            assert(self@.plans[k].price_monthly
                                <= self@.plans[i as int].price_monthly);
                        }
                    }
                }
                slot = i + 1;
            }
            i += 1;
        }
        if taken {
            return Err(EngineError::DuplicateEntry);
        }
        let ghost before = self@;
        let ghost row = plan@;
        assert(before.is_plan_slot(row.price_monthly, slot as int));
        assert(before.plan_slot(row.price_monthly) == slot) by {
            let k = before.plan_slot(row.price_monthly);
            if k < slot {
                assert(before.plans[k].price_monthly > row.price_monthly);
            } else if k > slot {
                assert(before.plans[slot as int].price_monthly <= row.price_monthly);
            }
        }
        let mut tables = self.take();
        tables.plans.insert(slot, plan);
        assert(tables@.plans =~= before.plans.insert(slot as int, row));
        self.put(tables);
        Ok(())
    }

    /// Removes the plan of this identifier, and tells whether there was one.
    pub fn remove_plan(&mut self, id: u128) -> (removed: bool)
        ensures
            removed == old(self)@.has_plan(id),
            final(self)@ == old(self)@.without_plan(id),
    {
        proof {
            use_type_invariant(&*self);
        }
        let n = self.tables.plans.len();
        let mut at: Option<usize> = None;
        let mut i: usize = 0;
        while i < n && at.is_none()
            invariant
                n == self.tables.plans.len(),
                *self == *old(self),
                self@.wf(),
                0 <= i <= n,
                at is None ==> forall|k: int| 0 <= k < i ==> (#[trigger] self@.plans[k]).id != id,
                at is Some ==> at->0 < n && self@.plans[at->0 as int].id == id,
            decreases n - i + if at is None { 1int } else { 0int },
        {
            if self.tables.plans[i].id == id {
                at = Some(i);
            } else {
                i += 1;
            }
        }
        let i = match at {
            Some(i) => i,
            None => {
                return false;
            },
        };
        let ghost before = self@;
        assert(before.has_plan(id));
        let mut tables = self.take();
        tables.plans.remove(i);
        assert(tables@.plans =~= before.plans.remove(i as int));
        self.put(tables);
        true
    }
}

} // verus!
