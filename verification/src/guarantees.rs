//! What the engine guarantees across operations.
//!
//! Each statement here is proved of the mathematical model that the
//! contracts of the operations are written in, so it holds of every store
//! that the operations can produce.

use vstd::prelude::*;
use crate::error::EngineError;
use crate::models::payment::{
    lemma_recorded_history, lemma_recorded_intent, lemma_settled, Outcome, PaymentHistoryView,
    PaymentIntentView, PaymentStatus, Transition,
};
use crate::models::subscription::{
    lemma_activated, lemma_activation_closes, UserSubscriptionView,
};
use crate::models::{count, default_currency, lemma_count_sole, sole, StoreView};
use crate::services::stripe::GatewayFailure;
use crate::services::webhook::{
    screened, verdict, verified, GatewayEventView, WebhookEventView, WebhookFailure,
};

verus! {

/// The entries of the history that record an outcome of this attempt.
pub open spec fn of_attempt(attempt: int) -> spec_fn(PaymentHistoryView) -> bool {
    |entry: PaymentHistoryView| entry.payment_intent_id == attempt
}

/// The entitlements of this user that are active.
pub open spec fn active_of(user_id: u128) -> spec_fn(UserSubscriptionView) -> bool {
    |row: UserSubscriptionView| row.user_id == user_id && row.is_active
}

/// Applying an outcome keeps the store well formed, and a failure leaves
/// the store as it was.
pub proof fn lemma_applied(s: StoreView, external: Seq<char>, outcome: Outcome, now: i64)
    requires
        s.wf(),
    ensures
        s.apply_outcome(external, outcome, now).1.wf(),
        s.apply_outcome(external, outcome, now).0 is Err ==> s.apply_outcome(
            external,
            outcome,
            now,
        ).1 == s,
{
    if s.has_intent(external) {
        let i = s.intent_index(external);
        let row = s.payment_intents[i];
        match row.status.transition(outcome) {
            Err(_) => {},
            Ok(Transition::Redelivered) => {
                lemma_settled(s, i, row.status, now);
            },
            Ok(Transition::Applied) => {
                if !(outcome == Outcome::Succeeded && !s.has_plan(row.subscription_id)) {
                    lemma_settled(s, i, outcome.status(), now);
                    let settled = s.with_status(i, outcome.status(), now);
                    lemma_recorded_history(
                        settled,
                        row.user_id,
                        row.subscription_id,
                        row.id,
                        row.amount,
                        outcome,
                        now,
                    );
                    let recorded = settled.record_history(
                        row.user_id,
                        row.subscription_id,
                        row.id,
                        row.amount,
                        outcome,
                        now,
                    ).1;
                    if outcome == Outcome::Succeeded {
                        lemma_activated(recorded, row.user_id, row.subscription_id, now);
                    }
                }
            },
        }
    }
}

/// A payment that is initiated and at once reported as succeeded leaves
/// exactly one entry for the attempt in the history, with the attempt's
/// amount in the default currency, and exactly one active entitlement for
/// the user, on the plan that was paid for.
///
/// The plan exists and the gateway issued an identifier that was not in
/// use; amount, client secret and times are arbitrary.
pub proof fn payment_then_success(
    s: StoreView,
    user_id: u128,
    subscription_id: u128,
    amount: i64,
    external: Seq<char>,
    client_secret: Seq<char>,
    initiated_at: i64,
    reported_at: i64,
)
    requires
        s.wf(),
        s.has_plan(subscription_id),
        !s.has_intent(external),
    ensures
        ({
            let initiated = s.initiate(
                user_id,
                subscription_id,
                amount,
                Ok::<(Seq<char>, Seq<char>), GatewayFailure>((external, client_secret)),
                initiated_at,
            );
            let applied = initiated.1.apply_outcome(external, Outcome::Succeeded, reported_at);
            let attempt = s.payment_intents.len() as int;
            &&& initiated.0 is Ok
            &&& initiated.0->Ok_0.id == attempt
            &&& initiated.0->Ok_0.status == PaymentStatus::Pending
            &&& initiated.0->Ok_0.amount == amount
            &&& initiated.0->Ok_0.currency == default_currency()
            &&& applied.0 == Ok::<Transition, EngineError>(Transition::Applied)
            &&& applied.1.wf()
            &&& count(applied.1.payment_history, of_attempt(attempt)) == 1
            &&& applied.1.payment_history == s.payment_history.push(
                PaymentHistoryView {
                    id: s.payment_history.len() as int,
                    user_id,
                    subscription_id,
                    payment_intent_id: attempt,
                    amount,
                    currency: default_currency(),
                    status: Outcome::Succeeded,
                    created_at: reported_at,
                },
            )
            &&& count(applied.1.user_subscriptions, active_of(user_id)) == 1
            &&& applied.1.active(user_id) is Some
            &&& applied.1.active(user_id)->0.subscription_id == subscription_id
        }),
{
    let s1 = s.record_intent(user_id, subscription_id, external, amount, client_secret, initiated_at).1;
    lemma_recorded_intent(s, user_id, subscription_id, external, amount, client_secret, initiated_at);
    let i = s.payment_intents.len() as int;
    lemma_settled(s1, i, PaymentStatus::Succeeded, reported_at);
    let settled = s1.with_status(i, PaymentStatus::Succeeded, reported_at);
    lemma_recorded_history(settled, user_id, subscription_id, i, amount, Outcome::Succeeded, reported_at);
    let recorded = settled.record_history(
        user_id,
        subscription_id,
        i,
        amount,
        Outcome::Succeeded,
        reported_at,
    ).1;
    lemma_activated(recorded, user_id, subscription_id, reported_at);
    let last = recorded.activated(user_id, subscription_id, reported_at);
    let at = s.payment_history.len() as int;
    lemma_count_sole(last.payment_history, of_attempt(i), at);
    let k = choose|k: int|
        sole(last.user_subscriptions, active_of(user_id), k) && last.user_subscriptions[k]
            == recorded.activated_row(user_id, subscription_id, reported_at);
    lemma_count_sole(last.user_subscriptions, active_of(user_id), k);
}

/// In a well-formed store a user with an active entitlement has exactly
/// one.
pub proof fn lemma_one_active(s: StoreView, user_id: u128)
    requires
        s.wf(),
        s.has_active(user_id),
    ensures
        count(s.user_subscriptions, active_of(user_id)) == 1,
{
    let k = s.active_index(user_id);
    lemma_count_sole(s.user_subscriptions, active_of(user_id), k);
}

/// Applying an outcome to a recorded attempt leaves the attempt recorded
/// at its place, and where the application succeeds the attempt has the
/// outcome's status.
pub proof fn lemma_applied_attempt(s: StoreView, external: Seq<char>, outcome: Outcome, now: i64)
    requires
        s.wf(),
        s.has_intent(external),
    ensures
        s.apply_outcome(external, outcome, now).1.has_intent(external),
        s.apply_outcome(external, outcome, now).1.intent_index(external) == s.intent_index(
            external,
        ),
        s.apply_outcome(external, outcome, now).1.payment_intents.len()
            == s.payment_intents.len(),
        s.apply_outcome(external, outcome, now).0 is Ok ==> s.apply_outcome(
            external,
            outcome,
            now,
        ).1.payment_intents[s.intent_index(external)].status == outcome.status(),
{
    lemma_applied(s, external, outcome, now);
}

/// Idempotence: applying the same outcome a second time is a repeated
/// delivery that leaves every table as the first application left it, but
/// for the attempt's update time.
///
/// Where the first application took the attempt out of pending, the
/// history holds exactly one entry for the attempt after the first and
/// after the second application, and where the outcome is a success the
/// user has exactly one active entitlement after both.
pub proof fn redelivery_changes_nothing(
    s: StoreView,
    external: Seq<char>,
    outcome: Outcome,
    first_at: i64,
    again_at: i64,
)
    requires
        s.wf(),
        s.apply_outcome(external, outcome, first_at).0 is Ok,
    ensures
        ({
            let first = s.apply_outcome(external, outcome, first_at);
            let once = first.1;
            let second = once.apply_outcome(external, outcome, again_at);
            let twice = second.1;
            let i = s.intent_index(external);
            &&& second.0 == Ok::<Transition, EngineError>(Transition::Redelivered)
            &&& twice == once.with_status(i, outcome.status(), again_at)
            &&& twice.plans == once.plans
            &&& twice.payment_history == once.payment_history
            &&& twice.user_subscriptions == once.user_subscriptions
            &&& twice.payment_methods == once.payment_methods
            &&& twice.payment_intents[i].status == once.payment_intents[i].status
            &&& first.0 == Ok::<Transition, EngineError>(Transition::Applied) ==> count(
                once.payment_history,
                of_attempt(i),
            ) == 1 && count(twice.payment_history, of_attempt(i)) == 1
            &&& first.0 == Ok::<Transition, EngineError>(Transition::Applied) && outcome
                == Outcome::Succeeded ==> count(
                once.user_subscriptions,
                active_of(s.payment_intents[i].user_id),
            ) == 1 && count(twice.user_subscriptions, active_of(s.payment_intents[i].user_id)) == 1
        }),
{
    let first = s.apply_outcome(external, outcome, first_at);
    let once = first.1;
    let i = s.intent_index(external);
    let row = s.payment_intents[i];
    lemma_applied(s, external, outcome, first_at);
    lemma_applied_attempt(s, external, outcome, first_at);
    if first.0 == Ok::<Transition, EngineError>(Transition::Applied) {
        lemma_settled(s, i, outcome.status(), first_at);
        let settled = s.with_status(i, outcome.status(), first_at);
        let at = s.payment_history.len() as int;
        lemma_count_sole(once.payment_history, of_attempt(i), at);
        if outcome == Outcome::Succeeded {
            lemma_recorded_history(
                settled,
                row.user_id,
                row.subscription_id,
                i,
                row.amount,
                outcome,
                first_at,
            );
            let recorded = settled.record_history(
                row.user_id,
                row.subscription_id,
                i,
                row.amount,
                outcome,
                first_at,
            ).1;
            lemma_activated(recorded, row.user_id, row.subscription_id, first_at);
            let k = choose|k: int|
                sole(once.user_subscriptions, active_of(row.user_id), k)
                    && once.user_subscriptions[k] == recorded.activated_row(
                    row.user_id,
                    row.subscription_id,
                    first_at,
                );
            lemma_count_sole(once.user_subscriptions, active_of(row.user_id), k);
        }
    }
}

/// Terminal immutability: once an outcome has been applied to an attempt,
/// applying the other outcome is a conflict that leaves the store, and so
/// the attempt's status, as it was.
pub proof fn settled_outcome_is_final(
    s: StoreView,
    external: Seq<char>,
    outcome: Outcome,
    other: Outcome,
    first_at: i64,
    later_at: i64,
)
    requires
        s.wf(),
        s.apply_outcome(external, outcome, first_at).0 is Ok,
        other != outcome,
    ensures
        ({
            let once = s.apply_outcome(external, outcome, first_at).1;
            let second = once.apply_outcome(external, other, later_at);
            &&& once.intent(external) is Some
            &&& once.intent(external)->0.status == outcome.status()
            &&& second.0 == Err::<Transition, EngineError>(EngineError::ConflictingOutcome)
            &&& second.1 == once
        }),
{
    lemma_applied(s, external, outcome, first_at);
    lemma_applied_attempt(s, external, outcome, first_at);
}

/// A terminal status never flips: the outcome opposite to an attempt's
/// terminal status is refused, whatever brought the attempt there.
pub proof fn terminal_status_never_flips(s: StoreView, external: Seq<char>, outcome: Outcome, now: i64)
    requires
        s.wf(),
        s.has_intent(external),
        s.payment_intents[s.intent_index(external)].status.terminal(),
        s.payment_intents[s.intent_index(external)].status != outcome.status(),
    ensures
        s.apply_outcome(external, outcome, now).0 == Err::<Transition, EngineError>(
            EngineError::ConflictingOutcome,
        ),
        s.apply_outcome(external, outcome, now).1 == s,
{
}

/// The store after a sequence of activations of one user, each given by
/// its plan and its time, in order. An activation that is refused leaves
/// the store as it was.
pub open spec fn activations(s: StoreView, user_id: u128, steps: Seq<(u128, i64)>) -> StoreView
    decreases steps.len(),
{
    if steps.len() == 0 {
        s
    } else {
        activations(s, user_id, steps.drop_last()).activate(
            user_id,
            steps.last().0,
            steps.last().1,
        ).1
    }
}

/// A sequence of activations keeps the store well formed and the plans as
/// they were; a user who was active, or for whom one of the activations
/// names an existing plan, is active afterwards.
pub proof fn lemma_activations(s: StoreView, user_id: u128, steps: Seq<(u128, i64)>)
    requires
        s.wf(),
    ensures
        activations(s, user_id, steps).wf(),
        activations(s, user_id, steps).plans == s.plans,
        s.has_active(user_id) || (exists|k: int|
            0 <= k < steps.len() && s.has_plan((#[trigger] steps[k]).0)) ==> activations(
            s,
            user_id,
            steps,
        ).has_active(user_id),
    decreases steps.len(),
{
    if steps.len() > 0 {
        let init = steps.drop_last();
        let step = steps.last();
        lemma_activations(s, user_id, init);
        let before = activations(s, user_id, init);
        if before.has_plan(step.0) {
            lemma_activated(before, user_id, step.0, step.1);
        } else if !s.has_active(user_id) && exists|k: int|
            0 <= k < steps.len() && s.has_plan((#[trigger] steps[k]).0) {
            // The plan that exists is named by an earlier step.
            let k = choose|k: int| 0 <= k < steps.len() && s.has_plan((#[trigger] steps[k]).0);
            assert(init[k] == steps[k]);
        }
    }
}

/// Entitlement exclusivity: after any sequence of activations of one user,
/// exactly one entitlement of the user is active.
///
/// The sequences after which the user has no entitlement at all are left
/// out: the user was active before, or one of the activations names a plan
/// that exists.
pub proof fn one_active_entitlement(s: StoreView, user_id: u128, steps: Seq<(u128, i64)>)
    requires
        s.wf(),
        s.has_active(user_id) || exists|k: int|
            0 <= k < steps.len() && s.has_plan((#[trigger] steps[k]).0),
    ensures
        activations(s, user_id, steps).wf(),
        count(activations(s, user_id, steps).user_subscriptions, active_of(user_id)) == 1,
{
    lemma_activations(s, user_id, steps);
    lemma_one_active(activations(s, user_id, steps), user_id);
}

/// The attempt with this gateway identifier can be reported as succeeded
/// for the user: it is recorded, pending, the user's, and for a plan that
/// exists.
pub open spec fn awaits_success(s: StoreView, user_id: u128, external: Seq<char>) -> bool {
    &&& s.has_intent(external)
    &&& s.payment_intents[s.intent_index(external)].status == PaymentStatus::Pending
    &&& s.payment_intents[s.intent_index(external)].user_id == user_id
    &&& s.has_plan(s.payment_intents[s.intent_index(external)].subscription_id)
}

/// The plan of the attempt with this gateway identifier.
pub open spec fn plan_of(s: StoreView, external: Seq<char>) -> u128 {
    s.payment_intents[s.intent_index(external)].subscription_id
}

/// The steps name attempts that can be reported as succeeded for the user,
/// each attempt once.
pub open spec fn distinct_pending(s: StoreView, user_id: u128, steps: Seq<(Seq<char>, i64)>) -> bool {
    &&& forall|k: int| 0 <= k < steps.len() ==> awaits_success(s, user_id, (#[trigger] steps[k]).0)
    &&& forall|j: int, k: int|
        0 <= j < k < steps.len() ==> (#[trigger] steps[j]).0 != (#[trigger] steps[k]).0
}

/// The store after a sequence of success reports, each given by the
/// gateway identifier of its attempt and its time, in order.
pub open spec fn successes(s: StoreView, steps: Seq<(Seq<char>, i64)>) -> StoreView
    decreases steps.len(),
{
    if steps.len() == 0 {
        s
    } else {
        successes(s, steps.drop_last()).apply_outcome(
            steps.last().0,
            Outcome::Succeeded,
            steps.last().1,
        ).1
    }
}

/// What the entitlements are after success reports for a user, compared
/// with what they were: every entitlement is at its place and has its
/// owner, one that had ended is as it was, and, where there was a report,
/// one of the user that was active is not active and has an end.
pub open spec fn entitlements_follow(
    before: StoreView,
    after: StoreView,
    user_id: u128,
    reported: bool,
) -> bool {
    &&& after.user_subscriptions.len() >= before.user_subscriptions.len()
    &&& forall|i: int|
        0 <= i < before.user_subscriptions.len() ==> {
            let old_row = before.user_subscriptions[i];
            let new_row = #[trigger] after.user_subscriptions[i];
            &&& new_row.user_id == old_row.user_id
            &&& old_row.ends_at is Some ==> new_row == old_row
            &&& reported && old_row.user_id == user_id && old_row.is_active ==> !new_row.is_active
                && new_row.ends_at is Some
        }
}

/// Every attempt that can be reported as succeeded for the user in
/// `before`, and that `skipped` does not hold, can be so in `after`, for
/// the same plan.
pub open spec fn attempts_wait_on(
    before: StoreView,
    after: StoreView,
    user_id: u128,
    skipped: spec_fn(Seq<char>) -> bool,
) -> bool {
    forall|e: Seq<char>|
        #[trigger] awaits_success(before, user_id, e) && !skipped(e) ==> awaits_success(
            after,
            user_id,
            e,
        ) && plan_of(after, e) == plan_of(before, e)
}

/// One success report for an attempt that can be reported: the outcome is
/// applied, the user has one active entitlement, on the attempt's plan,
/// and the other attempts wait as before.
pub proof fn lemma_success_step(s: StoreView, user_id: u128, external: Seq<char>, now: i64)
    requires
        s.wf(),
        awaits_success(s, user_id, external),
    ensures
        ({
            let applied = s.apply_outcome(external, Outcome::Succeeded, now);
            let t = applied.1;
            &&& applied.0 == Ok::<Transition, EngineError>(Transition::Applied)
            &&& t.wf()
            &&& t.plans == s.plans
            &&& t.has_active(user_id)
            &&& t.user_subscriptions[t.active_index(user_id)].subscription_id == plan_of(
                s,
                external,
            )
            &&& entitlements_follow(s, t, user_id, true)
            &&& attempts_wait_on(s, t, user_id, |e: Seq<char>| e == external)
        }),
{
    let i = s.intent_index(external);
    let row = s.payment_intents[i];
    lemma_applied(s, external, Outcome::Succeeded, now);
    outcome_keeps_the_records(s, external, Outcome::Succeeded, now);
    lemma_settled(s, i, PaymentStatus::Succeeded, now);
    let settled = s.with_status(i, PaymentStatus::Succeeded, now);
    lemma_recorded_history(
        settled,
        row.user_id,
        row.subscription_id,
        row.id,
        row.amount,
        Outcome::Succeeded,
        now,
    );
    let recorded = settled.record_history(
        row.user_id,
        row.subscription_id,
        row.id,
        row.amount,
        Outcome::Succeeded,
        now,
    ).1;
    lemma_activated(recorded, user_id, row.subscription_id, now);
    lemma_activation_closes(recorded, user_id, row.subscription_id, now);
    let t = s.apply_outcome(external, Outcome::Succeeded, now).1;
    assert forall|e: Seq<char>| #[trigger] awaits_success(s, user_id, e) && e != external implies awaits_success(
        t,
        user_id,
        e,
    ) && plan_of(t, e) == plan_of(s, e) by {
        let j = s.intent_index(e);
        assert(t.payment_intents[j] == s.payment_intents[j]);
    }
}

/// A sequence of success reports for attempts of one user that can be
/// reported, each once: the store stays well formed with its plans, the
/// entitlements follow, the attempts that were not reported wait as
/// before, and after at least one report the user has one active
/// entitlement, on the plan of the attempt that was reported last.
pub proof fn lemma_successes(s: StoreView, user_id: u128, steps: Seq<(Seq<char>, i64)>)
    requires
        s.wf(),
        distinct_pending(s, user_id, steps),
    ensures
        ({
            let t = successes(s, steps);
            &&& t.wf()
            &&& t.plans == s.plans
            &&& entitlements_follow(s, t, user_id, steps.len() >= 1)
            &&& attempts_wait_on(
                s,
                t,
                user_id,
                |e: Seq<char>| exists|k: int| 0 <= k < steps.len() && (#[trigger] steps[k]).0 == e,
            )
            &&& steps.len() >= 1 ==> {
                &&& count(t.user_subscriptions, active_of(user_id)) == 1
                &&& t.has_active(user_id)
                &&& t.user_subscriptions[t.active_index(user_id)].subscription_id == plan_of(
                    s,
                    steps.last().0,
                )
            }
        }),
    decreases steps.len(),
{
    if steps.len() > 0 {
        let init = steps.drop_last();
        let last = steps.last();
        lemma_successes(s, user_id, init);
        let mid = successes(s, init);
        lemma_success_step(mid, user_id, last.0, last.1);
        let t = successes(s, steps);
        lemma_one_active(t, user_id);
    }
}

/// `first + second`, applied from a store, is `second` applied from the
/// store that `first` leaves.
pub proof fn lemma_successes_in_turn(
    s: StoreView,
    first: Seq<(Seq<char>, i64)>,
    second: Seq<(Seq<char>, i64)>,
)
    ensures
        successes(s, first + second) == successes(successes(s, first), second),
    decreases second.len(),
{
    if second.len() == 0 {
    } else {
        lemma_successes_in_turn(s, first, second.drop_last());
        assert((first + second).drop_last() =~= first + second.drop_last());
    }
}

/// Entitlement exclusivity under success reports: after every report of a
/// sequence of success reports for attempts of one user, exactly one
/// entitlement of the user is active, and it is on the plan of the attempt
/// that was reported last. Every entitlement of the user that was active
/// before, at the start or after an earlier report, is then not active and
/// has an end.
///
/// The reports are for attempts that are recorded, pending, the user's and
/// for plans that exist, each attempt once; the store at the start is any
/// store.
pub proof fn one_active_after_successes(s: StoreView, user_id: u128, steps: Seq<(Seq<char>, i64)>)
    requires
        s.wf(),
        distinct_pending(s, user_id, steps),
    ensures
        forall|m: int|
            1 <= m <= steps.len() ==> {
                let t = #[trigger] successes(s, steps.take(m));
                &&& t.wf()
                &&& count(t.user_subscriptions, active_of(user_id)) == 1
                &&& t.active(user_id) is Some
                &&& t.active(user_id)->0.subscription_id == plan_of(s, steps[m - 1].0)
                &&& entitlements_follow(s, t, user_id, true)
            },
        forall|m: int, n: int|
            1 <= m < n <= steps.len() ==> {
                let earlier = successes(s, steps.take(m)).active_index(user_id);
                let row = (#[trigger] successes(s, steps.take(n))).user_subscriptions[earlier];
                &&& #[trigger] successes(s, steps.take(m)).has_active(user_id)
                &&& row.user_id == user_id
                &&& !row.is_active
                &&& row.ends_at is Some
            },
{
    assert forall|m: int| 1 <= m <= steps.len() implies {
        let t = #[trigger] successes(s, steps.take(m));
        &&& t.wf()
        &&& count(t.user_subscriptions, active_of(user_id)) == 1
        &&& t.active(user_id) is Some
        &&& t.active(user_id)->0.subscription_id == plan_of(s, steps[m - 1].0)
        &&& entitlements_follow(s, t, user_id, true)
    } by {
        lemma_prefix_pending(s, user_id, steps, m);
        lemma_successes(s, user_id, steps.take(m));
    }
    assert forall|m: int, n: int| 1 <= m < n <= steps.len() implies {
        let earlier = successes(s, steps.take(m)).active_index(user_id);
        let row = (#[trigger] successes(s, steps.take(n))).user_subscriptions[earlier];
        &&& #[trigger] successes(s, steps.take(m)).has_active(user_id)
        &&& row.user_id == user_id
        &&& !row.is_active
        &&& row.ends_at is Some
    } by {
        let first = steps.take(m);
        let second = steps.subrange(m, n);
        lemma_prefix_pending(s, user_id, steps, m);
        lemma_successes(s, user_id, first);
        let mid = successes(s, first);
        assert(first + second =~= steps.take(n));
        lemma_successes_in_turn(s, first, second);
        lemma_successes(mid, user_id, second);
    }
}

/// The first `m` steps of steps that name attempts that can be reported,
/// each once, do so too.
proof fn lemma_prefix_pending(s: StoreView, user_id: u128, steps: Seq<(Seq<char>, i64)>, m: int)
    requires
        distinct_pending(s, user_id, steps),
        0 <= m <= steps.len(),
    ensures
        distinct_pending(s, user_id, steps.take(m)),
{
}

/// At every time a user has at most one active entitlement.
pub proof fn at_most_one_active(s: StoreView, user_id: u128)
    requires
        s.wf(),
    ensures
        count(s.user_subscriptions, active_of(user_id)) <= 1,
{
    if s.has_active(user_id) {
        lemma_one_active(s, user_id);
    } else {
        crate::models::lemma_count_none(s.user_subscriptions, active_of(user_id));
    }
}

/// The records are kept: applying an outcome deletes no attempt and no
/// entry of the history. Every entry stays where it was and at most one is
/// added; every other attempt stays as it was; and of the attempt itself
/// nothing changes but its update time and, where it was pending, its
/// status.
pub proof fn outcome_keeps_the_records(s: StoreView, external: Seq<char>, outcome: Outcome, now: i64)
    requires
        s.wf(),
    ensures
        ({
            let t = s.apply_outcome(external, outcome, now).1;
            &&& s.payment_history.is_prefix_of(t.payment_history)
            &&& t.payment_history.len() <= s.payment_history.len() + 1
            &&& t.payment_intents.len() == s.payment_intents.len()
            &&& forall|j: int|
                0 <= j < s.payment_intents.len() ==> {
                    let before = s.payment_intents[j];
                    let after = #[trigger] t.payment_intents[j];
                    &&& after == PaymentIntentView {
                        status: after.status,
                        updated_at: after.updated_at,
                        ..before
                    }
                    &&& before.status.terminal() ==> after.status == before.status
                    &&& before.stripe_payment_intent_id != external ==> after == before
                }
        }),
{
    lemma_applied(s, external, outcome, now);
}

/// A notification that the gateway's verifier rejected never yields an
/// event and never changes the store. It is answered as a failed
/// authentication, unless the signature was valid and only the body could
/// not be decoded.
pub proof fn rejected_notification_is_refused(s: StoreView, failure: WebhookFailure, now: i64)
    ensures
        verdict(Err::<GatewayEventView, WebhookFailure>(failure)) is Err,
        failure != WebhookFailure::BadParse ==> verdict(
            Err::<GatewayEventView, WebhookFailure>(failure),
        ) == Err::<WebhookEventView, EngineError>(EngineError::AuthenticationFailed),
        s.deliver(Err(failure), now).0 is Err,
        s.deliver(Err(failure), now).1 == s,
{
}

/// A notification that does not pass the screening is refused as a failed
/// authentication, whatever its payload and whatever the secret, and
/// changes nothing: so is every notification whose signature header is not
/// plain text or carries a timestamp of more than 18 characters.
pub proof fn unscreened_notification_is_refused(
    s: StoreView,
    payload: Seq<char>,
    signature: Seq<char>,
    secret: Seq<char>,
    now: i64,
)
    requires
        !screened(signature, now),
    ensures
        verdict(verified(payload, signature, secret, now)) == Err::<WebhookEventView, EngineError>(
            EngineError::AuthenticationFailed,
        ),
        s.deliver(verified(payload, signature, secret, now), now).0 is Err,
        s.deliver(verified(payload, signature, secret, now), now).1 == s,
{
}

} // verus!
