//! Payment attempts, payment methods and the payment history.

use vstd::prelude::*;
use super::{default_currency, Store, StoreView};
use crate::error::EngineError;

verus! {

/// The status of a payment attempt.
#[derive(Debug, Clone, Copy, PartialEq, Eq, Structural)]
pub enum PaymentStatus {
    Pending,
    Succeeded,
    Failed,
}

/// A terminal result that the gateway reports for a payment attempt.
#[derive(Debug, Clone, Copy, PartialEq, Eq, Structural)]
pub enum Outcome {
    Succeeded,
    Failed,
}

/// What applying an outcome to an attempt's status amounts to.
#[derive(Debug, Clone, Copy, PartialEq, Eq, Structural)]
pub enum Transition {
    /// The attempt was pending and now has the outcome's status.
    Applied,
    /// The attempt already had the outcome's status: a repeated delivery.
    Redelivered,
}

impl Outcome {
    /// The status that an attempt has once this outcome is applied.
    pub open spec fn status(self) -> PaymentStatus {
        match self {
            Outcome::Succeeded => PaymentStatus::Succeeded,
            Outcome::Failed => PaymentStatus::Failed,
        }
    }

    /// The status that an attempt has once this outcome is applied.
    #[verifier::when_used_as_spec(status)]
    pub fn to_status(self) -> (r: PaymentStatus)
        ensures
            r == self.status(),
    {
        match self {
            Outcome::Succeeded => PaymentStatus::Succeeded,
            Outcome::Failed => PaymentStatus::Failed,
        }
    }

    /// The word that the payment history stores for this outcome.
    pub fn as_str(&self) -> (word: &'static str)
        ensures
            word@ == self.status().word(),
    {
        match self {
            Outcome::Succeeded => "succeeded",
            Outcome::Failed => "failed",
        }
    }
}

impl PaymentStatus {
    /// A terminal status is never left again.
    pub open spec fn terminal(self) -> bool {
        self != PaymentStatus::Pending
    }

    /// The word that stands for the status in stored records.
    pub open spec fn word(self) -> Seq<char> {
        match self {
            PaymentStatus::Pending => "pending"@,
            PaymentStatus::Succeeded => "succeeded"@,
            PaymentStatus::Failed => "failed"@,
        }
    }

    /// Tells whether the status is terminal.
    pub fn is_terminal(&self) -> (r: bool)
        ensures
            r == self.terminal(),
    {
        match self {
            PaymentStatus::Pending => false,
            _ => true,
        }
    }

    /// The word that stands for the status in stored records.
    pub fn as_str(&self) -> (word: &'static str)
        ensures
            word@ == self.word(),
    {
        match self {
            PaymentStatus::Pending => "pending",
            PaymentStatus::Succeeded => "succeeded",
            PaymentStatus::Failed => "failed",
        }
    }

    /// What applying `outcome` to an attempt with this status amounts to.
    pub open spec fn transition(self, outcome: Outcome) -> Result<Transition, EngineError> {
        if self == PaymentStatus::Pending {
            Ok(Transition::Applied)
        } else if self == outcome.status() {
            Ok(Transition::Redelivered)
        } else {
            Err(EngineError::ConflictingOutcome)
        }
    }

    /// Decides what applying `outcome` to an attempt with this status
    /// amounts to: a pending attempt takes the outcome, an attempt that
    /// already has it is left alone, and a terminal status never flips.
    pub fn decide(&self, outcome: Outcome) -> (r: Result<Transition, EngineError>)
        ensures
            r == self.transition(outcome),
    {
        match (self, outcome) {
            (PaymentStatus::Pending, _) => Ok(Transition::Applied),
            (PaymentStatus::Succeeded, Outcome::Succeeded) => Ok(Transition::Redelivered),
            (PaymentStatus::Failed, Outcome::Failed) => Ok(Transition::Redelivered),
            _ => Err(EngineError::ConflictingOutcome),
        }
    }
}

/// A payment attempt as the contracts see it.
pub struct PaymentIntentView {
    pub id: int,
    pub stripe_payment_intent_id: Seq<char>,
    pub user_id: u128,
    pub subscription_id: u128,
    pub amount: i64,
    pub currency: Seq<char>,
    pub status: PaymentStatus,
    pub client_secret: Seq<char>,
    pub created_at: i64,
    pub updated_at: i64,
}

/// One attempt to move money for a subscription plan.
///
/// Amounts are in the currency's minor unit, timestamps in seconds.
#[derive(Debug)]
pub struct PaymentIntent {
    pub id: u128,
    pub stripe_payment_intent_id: String,
    pub user_id: u128,
    pub subscription_id: u128,
    pub amount: i64,
    pub currency: String,
    pub status: PaymentStatus,
    pub client_secret: String,
    pub created_at: i64,
    pub updated_at: i64,
}

impl View for PaymentIntent {
    type V = PaymentIntentView;

    open spec fn view(&self) -> PaymentIntentView {
        PaymentIntentView {
            id: self.id as int,
            stripe_payment_intent_id: self.stripe_payment_intent_id@,
            user_id: self.user_id,
            subscription_id: self.subscription_id,
            amount: self.amount,
            currency: self.currency@,
            status: self.status,
            client_secret: self.client_secret@,
            created_at: self.created_at,
            updated_at: self.updated_at,
        }
    }
}

impl DeepView for PaymentIntent {
    type V = PaymentIntentView;

    open spec fn deep_view(&self) -> PaymentIntentView {
        self@
    }
}

impl Clone for PaymentIntent {
    fn clone(&self) -> (copy: Self)
        ensures
            copy == *self,
    {
        PaymentIntent {
            id: self.id,
            stripe_payment_intent_id: self.stripe_payment_intent_id.clone(),
            user_id: self.user_id,
            subscription_id: self.subscription_id,
            amount: self.amount,
            currency: self.currency.clone(),
            status: self.status,
            client_secret: self.client_secret.clone(),
            created_at: self.created_at,
            updated_at: self.updated_at,
        }
    }
}

/// The masked card data as the contracts see it.
pub struct CardDetailsView {
    pub brand: Seq<char>,
    pub last4: Seq<char>,
    pub exp_month: i32,
    pub exp_year: i32,
}

/// The masked card data that the gateway discloses of a payment method.
#[derive(Debug)]
pub struct CardDetails {
    pub brand: String,
    pub last4: String,
    pub exp_month: i32,
    pub exp_year: i32,
}

impl View for CardDetails {
    type V = CardDetailsView;

    open spec fn view(&self) -> CardDetailsView {
        CardDetailsView {
            brand: self.brand@,
            last4: self.last4@,
            exp_month: self.exp_month,
            exp_year: self.exp_year,
        }
    }
}

impl DeepView for CardDetails {
    type V = CardDetailsView;

    open spec fn deep_view(&self) -> CardDetailsView {
        self@
    }
}

impl Clone for CardDetails {
    fn clone(&self) -> (copy: Self)
        ensures
            copy == *self,
    {
        CardDetails {
            brand: self.brand.clone(),
            last4: self.last4.clone(),
            exp_month: self.exp_month,
            exp_year: self.exp_year,
        }
    }
}

/// A stored payment method as the contracts see it.
pub struct PaymentMethodView {
    pub id: int,
    pub user_id: u128,
    pub stripe_payment_method_id: Seq<char>,
    pub card_brand: Option<Seq<char>>,
    pub card_last4: Option<Seq<char>>,
    pub card_exp_month: Option<i32>,
    pub card_exp_year: Option<i32>,
    pub is_default: bool,
    pub created_at: i64,
    pub updated_at: i64,
}

/// A payment method that a user attached.
#[derive(Debug)]
pub struct PaymentMethod {
    pub id: u128,
    pub user_id: u128,
    pub stripe_payment_method_id: String,
    pub card_brand: Option<String>,
    pub card_last4: Option<String>,
    pub card_exp_month: Option<i32>,
    pub card_exp_year: Option<i32>,
    pub is_default: bool,
    pub created_at: i64,
    pub updated_at: i64,
}

impl View for PaymentMethod {
    type V = PaymentMethodView;

    open spec fn view(&self) -> PaymentMethodView {
        PaymentMethodView {
            id: self.id as int,
            user_id: self.user_id,
            stripe_payment_method_id: self.stripe_payment_method_id@,
            card_brand: self.card_brand.deep_view(),
            card_last4: self.card_last4.deep_view(),
            card_exp_month: self.card_exp_month,
            card_exp_year: self.card_exp_year,
            is_default: self.is_default,
            created_at: self.created_at,
            updated_at: self.updated_at,
        }
    }
}

impl DeepView for PaymentMethod {
    type V = PaymentMethodView;

    open spec fn deep_view(&self) -> PaymentMethodView {
        self@
    }
}

impl Clone for PaymentMethod {
    fn clone(&self) -> (copy: Self)
        ensures
            copy == *self,
    {
        PaymentMethod {
            id: self.id,
            user_id: self.user_id,
            stripe_payment_method_id: self.stripe_payment_method_id.clone(),
            card_brand: self.card_brand.clone(),
            card_last4: self.card_last4.clone(),
            card_exp_month: self.card_exp_month,
            card_exp_year: self.card_exp_year,
            is_default: self.is_default,
            created_at: self.created_at,
            updated_at: self.updated_at,
        }
    }
}

/// An entry of the payment history as the contracts see it.
pub struct PaymentHistoryView {
    pub id: int,
    pub user_id: u128,
    pub subscription_id: u128,
    pub payment_intent_id: int,
    pub amount: i64,
    pub currency: Seq<char>,
    pub status: Outcome,
    pub created_at: i64,
}

/// One completed payment outcome. Entries are appended, never changed.
#[derive(Debug)]
pub struct PaymentHistory {
    pub id: u128,
    pub user_id: u128,
    pub subscription_id: u128,
    pub payment_intent_id: u128,
    pub amount: i64,
    pub currency: String,
    pub status: Outcome,
    pub created_at: i64,
}

impl View for PaymentHistory {
    type V = PaymentHistoryView;

    open spec fn view(&self) -> PaymentHistoryView {
        PaymentHistoryView {
            id: self.id as int,
            user_id: self.user_id,
            subscription_id: self.subscription_id,
            payment_intent_id: self.payment_intent_id as int,
            amount: self.amount,
            currency: self.currency@,
            status: self.status,
            created_at: self.created_at,
        }
    }
}

impl DeepView for PaymentHistory {
    type V = PaymentHistoryView;

    open spec fn deep_view(&self) -> PaymentHistoryView {
        self@
    }
}

impl Clone for PaymentHistory {
    fn clone(&self) -> (copy: Self)
        ensures
            copy == *self,
    {
        PaymentHistory {
            id: self.id,
            user_id: self.user_id,
            subscription_id: self.subscription_id,
            payment_intent_id: self.payment_intent_id,
            amount: self.amount,
            currency: self.currency.clone(),
            status: self.status,
            created_at: self.created_at,
        }
    }
}

/// A result with its success value replaced by that value's view.
pub open spec fn result_view<T: View>(r: Result<T, EngineError>) -> Result<T::V, EngineError> {
    match r {
        Ok(value) => Ok(value@),
        Err(e) => Err(e),
    }
}

impl StoreView {
    /// The attempt that is recorded for a payment that the gateway accepted:
    /// pending, in the default currency, created and updated at `now`.
    pub open spec fn pending_intent(
        self,
        user_id: u128,
        subscription_id: u128,
        external: Seq<char>,
        amount: i64,
        client_secret: Seq<char>,
        now: i64,
    ) -> PaymentIntentView {
        PaymentIntentView {
            id: self.payment_intents.len() as int,
            stripe_payment_intent_id: external,
            user_id,
            subscription_id,
            amount,
            currency: default_currency(),
            status: PaymentStatus::Pending,
            client_secret,
            created_at: now,
            updated_at: now,
        }
    }

    /// The store with one more attempt.
    pub open spec fn with_intent(self, row: PaymentIntentView) -> StoreView {
        StoreView { payment_intents: self.payment_intents.push(row), ..self }
    }

    /// What recording an attempt returns and leaves: a gateway identifier
    /// that is already recorded is refused.
    pub open spec fn record_intent(
        self,
        user_id: u128,
        subscription_id: u128,
        external: Seq<char>,
        amount: i64,
        client_secret: Seq<char>,
        now: i64,
    ) -> (Result<PaymentIntentView, EngineError>, StoreView) {
        if self.has_intent(external) {
            (Err(EngineError::DuplicateEntry), self)
        } else {
            let row = self.pending_intent(
                user_id,
                subscription_id,
                external,
                amount,
                client_secret,
                now,
            );
            (Ok(row), self.with_intent(row))
        }
    }

    /// The store in which attempt `i` has this status and was updated at
    /// `now`.
    pub open spec fn with_status(self, i: int, status: PaymentStatus, now: i64) -> StoreView {
        StoreView {
            payment_intents: self.payment_intents.update(
                i,
                PaymentIntentView { status, updated_at: now, ..self.payment_intents[i] },
            ),
            ..self
        }
    }

    /// What setting an attempt's status to an outcome returns and leaves.
    ///
    /// The status is set only where the attempt is pending or already has
    /// that status; either way the attempt's update time becomes `now`. An
    /// unknown attempt and an attempt with the opposite terminal status
    /// leave the store as it is.
    pub open spec fn settle(self, external: Seq<char>, outcome: Outcome, now: i64) -> (
        Result<Transition, EngineError>,
        StoreView,
    ) {
        if !self.has_intent(external) {
            (Err(EngineError::UnknownAttempt), self)
        } else {
            let i = self.intent_index(external);
            match self.payment_intents[i].status.transition(outcome) {
                Ok(t) => (Ok(t), self.with_status(i, outcome.status(), now)),
                Err(e) => (Err(e), self),
            }
        }
    }

    /// The attempt with this gateway identifier, if it is recorded.
    pub open spec fn intent(self, external: Seq<char>) -> Option<PaymentIntentView> {
        if self.has_intent(external) {
            Some(self.payment_intents[self.intent_index(external)])
        } else {
            None
        }
    }
}

/// Recording an attempt under a new gateway identifier keeps the store well
/// formed, and the attempt is then found at the end of its table.
pub proof fn lemma_recorded_intent(
    s: StoreView,
    user_id: u128,
    subscription_id: u128,
    external: Seq<char>,
    amount: i64,
    client_secret: Seq<char>,
    now: i64,
)
    requires
        s.wf(),
        !s.has_intent(external),
    ensures
        s.record_intent(user_id, subscription_id, external, amount, client_secret, now).1.wf(),
        s.record_intent(user_id, subscription_id, external, amount, client_secret, now).1.has_intent(
            external,
        ),
        s.record_intent(
            user_id,
            subscription_id,
            external,
            amount,
            client_secret,
            now,
        ).1.intent_index(external) == s.payment_intents.len(),
{
    let row = s.pending_intent(user_id, subscription_id, external, amount, client_secret, now);
    let t = s.with_intent(row);
    let n = s.payment_intents.len() as int;
    assert(t.payment_intents[n] == row);
}

/// Giving a pending attempt a status, or an attempt the status that it
/// has, keeps the store well formed.
pub proof fn lemma_settled(s: StoreView, i: int, status: PaymentStatus, now: i64)
    requires
        s.wf(),
        0 <= i < s.payment_intents.len(),
        s.payment_intents[i].status == PaymentStatus::Pending || s.payment_intents[i].status
            == status,
    ensures
        s.with_status(i, status, now).wf(),
{
}

/// Appending to the history, or being refused, keeps the store well formed.
pub proof fn lemma_recorded_history(
    s: StoreView,
    user_id: u128,
    subscription_id: u128,
    payment_intent_id: int,
    amount: i64,
    status: Outcome,
    now: i64,
)
    requires
        s.wf(),
    ensures
        s.record_history(user_id, subscription_id, payment_intent_id, amount, status, now).1.wf(),
{
}

impl PaymentIntent {
    /// The position of the attempt with this gateway identifier.
    fn position(pool: &Store, external: &String) -> (r: Option<usize>)
        requires
            pool.wf(),
        ensures
            r is Some == pool@.has_intent(external@),
            r is Some ==> r->0 == pool@.intent_index(external@) && r->0 < pool@.payment_intents.len(),
    {
        let n = pool.tables.payment_intents.len();
        let mut i: usize = 0;
        while i < n
            invariant
                pool.wf(),
                n == pool.tables.payment_intents.len(),
                0 <= i <= n,
                forall|k: int|
                    0 <= k < i ==> (#[trigger] pool@.payment_intents[k]).stripe_payment_intent_id
                        != external@,
            decreases n - i,
        {
            assert(pool@.payment_intents[i as int] == pool.tables.payment_intents[i as int]@);
            if pool.tables.payment_intents[i].stripe_payment_intent_id == *external {
                return Some(i);
            }
            i += 1;
        }
        None
    }

    /// Records a new attempt in status pending, in the default currency.
    ///
    /// The gateway's identifier must be new to the store: an identifier that
    /// is already recorded is refused and nothing changes.
    pub fn create(
        pool: &mut Store,
        user_id: u128,
        subscription_id: u128,
        stripe_payment_intent_id: String,
        amount: i64,
        client_secret: String,
        now: i64,
    ) -> (r: Result<PaymentIntent, EngineError>)
        ensures
            result_view(r) == old(pool)@.record_intent(
                user_id,
                subscription_id,
                stripe_payment_intent_id@,
                amount,
                client_secret@,
                now,
            ).0,
            final(pool)@ == old(pool)@.record_intent(
                user_id,
                subscription_id,
                stripe_payment_intent_id@,
                amount,
                client_secret@,
                now,
            ).1,
    {
        proof {
            use_type_invariant(&*pool);
        }
        if Self::position(pool, &stripe_payment_intent_id).is_some() {
            return Err(EngineError::DuplicateEntry);
        }
        let ghost before = pool@;
        let mut tables = pool.take();
        let row = PaymentIntent {
            id: tables.payment_intents.len() as u128,
            stripe_payment_intent_id,
            user_id,
            subscription_id,
            amount,
            currency: "USD".to_owned(),
            status: PaymentStatus::Pending,
            client_secret,
            created_at: now,
            updated_at: now,
        };
        let copy = row.clone();
        tables.payment_intents.push(row);
        proof {
            let after = tables@;
            assert(after.payment_intents =~= before.payment_intents.push(copy@));
            lemma_recorded_intent(
                before,
                user_id,
                subscription_id,
                copy@.stripe_payment_intent_id,
                amount,
                copy@.client_secret,
                now,
            );
        }
        pool.put(tables);
        Ok(copy)
    }

    /// Sets the status of the attempt with this gateway identifier to an
    /// outcome, in one step that compares and sets.
    ///
    /// A pending attempt takes the outcome's status. An attempt that already
    /// has it keeps it. In both cases the attempt's update time becomes
    /// `now`, and the result tells which of the two happened. An unknown
    /// attempt, and an attempt with the opposite terminal status, are
    /// failures that change nothing.
    pub fn update_status(pool: &mut Store, stripe_payment_intent_id: &str, status: Outcome, now: i64) -> (r:
        Result<Transition, EngineError>)
        ensures
            r == old(pool)@.settle(stripe_payment_intent_id@, status, now).0,
            final(pool)@ == old(pool)@.settle(stripe_payment_intent_id@, status, now).1,
    {
        proof {
            use_type_invariant(&*pool);
        }
        let key = stripe_payment_intent_id.to_owned();
        let i = match Self::position(pool, &key) {
            Some(i) => i,
            None => {
                return Err(EngineError::UnknownAttempt);
            },
        };
        let ghost before = pool@;
        let t = match pool.tables.payment_intents[i].status.decide(status) {
            Ok(t) => t,
            Err(e) => {
                return Err(e);
            },
        };
        let mut tables = pool.take();
        tables.payment_intents[i].status = status.to_status();
        tables.payment_intents[i].updated_at = now;
        proof {
            let after = tables@;
            assert(after.payment_intents =~= before.with_status(
                i as int,
                status.status(),
                now,
            ).payment_intents);
            lemma_settled(before, i as int, status.status(), now);
        }
        pool.put(tables);
        Ok(t)
    }

    /// Reads the attempt with this gateway identifier.
    pub fn get_by_stripe_id(pool: &Store, stripe_payment_intent_id: &str) -> (r: Option<PaymentIntent>)
        ensures
            r.deep_view() == pool@.intent(stripe_payment_intent_id@),
    {
        proof {
            use_type_invariant(pool);
        }
        let key = stripe_payment_intent_id.to_owned();
        match Self::position(pool, &key) {
            Some(i) => {
                Some(pool.tables.payment_intents[i].clone())
            },
            None => None,
        }
    }
}

/// Entry `a` comes before entry `b` where the newest comes first: it was
/// created later, or at the same time and recorded later.
pub open spec fn newer(a: PaymentHistoryView, b: PaymentHistoryView) -> bool {
    a.created_at > b.created_at || (a.created_at == b.created_at && a.id > b.id)
}

/// `page` shows the user's entries among `rows`, the newest first, up to
/// `limit` of them: it holds entries of the user only, in that order, and
/// an entry of the user that it does not hold comes after the last one
/// shown on a full page.
pub open spec fn is_history_page(
    rows: Seq<PaymentHistoryView>,
    user_id: u128,
    limit: nat,
    page: Seq<PaymentHistoryView>,
) -> bool {
    &&& page.len() <= limit
    &&& forall|k: int|
        0 <= k < page.len() ==> rows.contains(#[trigger] page[k]) && page[k].user_id == user_id
    &&& forall|k: int, l: int|
        0 <= k < l < page.len() ==> newer(#[trigger] page[k], #[trigger] page[l])
    &&& forall|i: int|
        0 <= i < rows.len() && (#[trigger] rows[i]).user_id == user_id ==> page.contains(rows[i])
            || (page.len() == limit && (limit == 0 || newer(page.last(), rows[i])))
}

impl StoreView {
    /// The entry that the history takes for an attempt's outcome.
    pub open spec fn history_entry(
        self,
        user_id: u128,
        subscription_id: u128,
        payment_intent_id: int,
        amount: i64,
        status: Outcome,
        now: i64,
    ) -> PaymentHistoryView {
        PaymentHistoryView {
            id: self.payment_history.len() as int,
            user_id,
            subscription_id,
            payment_intent_id,
            amount,
            currency: default_currency(),
            status,
            created_at: now,
        }
    }

    /// The store with one more entry in the history.
    pub open spec fn with_history(self, row: PaymentHistoryView) -> StoreView {
        StoreView { payment_history: self.payment_history.push(row), ..self }
    }

    /// What appending to the history returns and leaves.
    ///
    /// An entry is the outcome of a recorded attempt that has this outcome
    /// as its status: an unknown attempt and an attempt with another status
    /// are refused, and so is a second entry for the same attempt and
    /// outcome.
    pub open spec fn record_history(
        self,
        user_id: u128,
        subscription_id: u128,
        payment_intent_id: int,
        amount: i64,
        status: Outcome,
        now: i64,
    ) -> (Result<PaymentHistoryView, EngineError>, StoreView) {
        if !(0 <= payment_intent_id < self.payment_intents.len()) {
            (Err(EngineError::UnknownAttempt), self)
        } else if self.payment_intents[payment_intent_id].status != status.status() {
            (Err(EngineError::ConflictingOutcome), self)
        } else if self.has_history(payment_intent_id, status) {
            (Err(EngineError::DuplicateEntry), self)
        } else {
            let row = self.history_entry(
                user_id,
                subscription_id,
                payment_intent_id,
                amount,
                status,
                now,
            );
            (Ok(row), self.with_history(row))
        }
    }

    /// The payment method that is stored when a user attaches one. It
    /// becomes the user's default method if the user has none.
    pub open spec fn method_row(
        self,
        user_id: u128,
        external: Seq<char>,
        card: Option<CardDetailsView>,
        now: i64,
    ) -> PaymentMethodView {
        PaymentMethodView {
            id: self.payment_methods.len() as int,
            user_id,
            stripe_payment_method_id: external,
            card_brand: match card {
                Some(c) => Some(c.brand),
                None => None,
            },
            card_last4: match card {
                Some(c) => Some(c.last4),
                None => None,
            },
            card_exp_month: match card {
                Some(c) => Some(c.exp_month),
                None => None,
            },
            card_exp_year: match card {
                Some(c) => Some(c.exp_year),
                None => None,
            },
            is_default: !self.has_default_method(user_id),
            created_at: now,
            updated_at: now,
        }
    }

    /// The store with one more payment method.
    pub open spec fn with_method(self, row: PaymentMethodView) -> StoreView {
        StoreView { payment_methods: self.payment_methods.push(row), ..self }
    }

    /// The user's default payment method, if the user has one.
    pub open spec fn default_method(self, user_id: u128) -> Option<PaymentMethodView> {
        if self.has_default_method(user_id) {
            Some(self.payment_methods[self.default_method_index(user_id)])
        } else {
            None
        }
    }
}

impl PaymentHistory {
    /// Appends an entry to the payment history, in the default currency.
    ///
    /// The entry records the outcome of an attempt: the attempt must be
    /// recorded (`UnknownAttempt`) and must have the outcome as its status
    /// (`ConflictingOutcome`). The history holds one entry per attempt and
    /// outcome: a second one is `DuplicateEntry`. A refused entry changes
    /// nothing.
    pub fn create(
        pool: &mut Store,
        user_id: u128,
        subscription_id: u128,
        payment_intent_id: u128,
        amount: i64,
        status: Outcome,
        now: i64,
    ) -> (r: Result<PaymentHistory, EngineError>)
        ensures
            result_view(r) == old(pool)@.record_history(
                user_id,
                subscription_id,
                payment_intent_id as int,
                amount,
                status,
                now,
            ).0,
            final(pool)@ == old(pool)@.record_history(
                user_id,
                subscription_id,
                payment_intent_id as int,
                amount,
                status,
                now,
            ).1,
    {
        proof {
            use_type_invariant(&*pool);
        }
        if payment_intent_id >= pool.tables.payment_intents.len() as u128 {
            return Err(EngineError::UnknownAttempt);
        }
        let at = payment_intent_id as usize;
        if pool.tables.payment_intents[at].status != status.to_status() {
            return Err(EngineError::ConflictingOutcome);
        }
        let n = pool.tables.payment_history.len();
        let mut i: usize = 0;
        while i < n
            invariant
                n == pool.tables.payment_history.len(),
                *pool == *old(pool),
                pool.wf(),
                0 <= i <= n,
                forall|k: int|
                    0 <= k < i ==> !((#[trigger] pool@.payment_history[k]).payment_intent_id
                        == payment_intent_id && pool@.payment_history[k].status == status),
            decreases n - i,
        {
            assert(pool@.payment_history[i as int] == pool.tables.payment_history[i as int]@);
            if pool.tables.payment_history[i].payment_intent_id == payment_intent_id
                && pool.tables.payment_history[i].status == status {
                return Err(EngineError::DuplicateEntry);
            }
            i += 1;
        }
        let ghost before = pool@;
        let row = PaymentHistory {
            id: n as u128,
            user_id,
            subscription_id,
            payment_intent_id,
            amount,
            currency: "USD".to_owned(),
            status,
            created_at: now,
        };
        let copy = row.clone();
        let mut tables = pool.take();
        tables.payment_history.push(row);
        proof {
            let after = tables@;
            assert(after.payment_history =~= before.payment_history.push(copy@));
            lemma_recorded_history(
                before,
                user_id,
                subscription_id,
                payment_intent_id as int,
                amount,
                status,
                now,
            );
        }
        pool.put(tables);
        Ok(copy)
    }

    /// Tells whether this entry comes before `other` where the newest comes
    /// first.
    fn is_newer(&self, other: &PaymentHistory) -> (r: bool)
        ensures
            r == newer(self@, other@),
    {
        self.created_at > other.created_at || (self.created_at == other.created_at && self.id
            > other.id)
    }

    /// The position of the user's newest entry among those that come after
    /// the entry at `bound`, or among all of them where there is no bound.
    fn next_position(pool: &Store, user_id: u128, bound: Option<usize>) -> (best: Option<usize>)
        requires
            pool.wf(),
            bound is Some ==> bound->0 < pool@.payment_history.len(),
        ensures
            match best {
                Some(b) => {
                    &&& b < pool@.payment_history.len()
                    &&& pool@.payment_history[b as int].user_id == user_id
                    &&& bound is Some ==> newer(
                        pool@.payment_history[bound->0 as int],
                        pool@.payment_history[b as int],
                    )
                    &&& forall|i: int|
                        0 <= i < pool@.payment_history.len() && (
                        #[trigger] pool@.payment_history[i]).user_id == user_id && (bound is Some
                            ==> newer(pool@.payment_history[bound->0 as int], pool@.payment_history[i]))
                            ==> i == b || newer(pool@.payment_history[b as int], pool@.payment_history[i])
                },
                None => forall|i: int|
                    0 <= i < pool@.payment_history.len() && (
                    #[trigger] pool@.payment_history[i]).user_id == user_id ==> bound is Some
                        && !newer(pool@.payment_history[bound->0 as int], pool@.payment_history[i]),
            },
    {
        let ghost rows = pool@.payment_history;
        let n = pool.tables.payment_history.len();
        let mut best: Option<usize> = None;
        let mut j: usize = 0;
        while j < n
            invariant
                pool.wf(),
                rows == pool@.payment_history,
                n == pool.tables.payment_history.len(),
                0 <= j <= n,
                bound is Some ==> bound->0 < n,
                best is Some ==> best->0 < j && rows[best->0 as int].user_id == user_id && (bound
                    is Some ==> newer(rows[bound->0 as int], rows[best->0 as int])),
                forall|i: int|
                    0 <= i < j && (#[trigger] rows[i]).user_id == user_id && (bound is Some ==> newer(
                        rows[bound->0 as int],
                        rows[i],
                    )) ==> best is Some && (i == best->0 || newer(rows[best->0 as int], rows[i])),
            decreases n - j,
        {
            let entry = &pool.tables.payment_history[j];
            let after_bound = match bound {
                Some(at) => {
                    pool.tables.payment_history[at].is_newer(entry)
                },
                None => true,
            };
            if entry.user_id == user_id && after_bound {
                let better = match best {
                    Some(b) => {
                        entry.is_newer(&pool.tables.payment_history[b])
                    },
                    None => true,
                };
                if better {
                    best = Some(j);
                }
            }
            j += 1;
        }
        best
    }

    /// Reads the user's entries, the newest first, up to `limit` of them.
    /// Of two entries created at the same time, the one recorded later
    /// counts as newer.
    pub fn get_for_user(pool: &Store, user_id: u128, limit: usize) -> (entries: Vec<PaymentHistory>)
        ensures
            is_history_page(pool@.payment_history, user_id, limit as nat, entries.deep_view()),
    {
        proof {
            use_type_invariant(pool);
        }
        let ghost rows = pool@.payment_history;
        let mut entries: Vec<PaymentHistory> = Vec::new();
        let mut bound: Option<usize> = None;
        let mut complete = false;
        while entries.len() < limit && !complete
            invariant
                pool.wf(),
                rows == pool@.payment_history,
                entries.len() <= limit,
                bound is Some == (entries.len() > 0),
                bound is Some ==> bound->0 < rows.len() && entries.deep_view().last()
                    == rows[bound->0 as int],
                forall|k: int|
                    0 <= k < entries.len() ==> rows.contains(#[trigger] entries.deep_view()[k])
                        && entries.deep_view()[k].user_id == user_id,
                forall|k: int, l: int|
                    0 <= k < l < entries.len() ==> newer(
                        #[trigger] entries.deep_view()[k],
                        #[trigger] entries.deep_view()[l],
                    ),
                forall|i: int|
                    0 <= i < rows.len() && (#[trigger] rows[i]).user_id == user_id && bound is Some
                        ==> entries.deep_view().contains(rows[i]) || newer(
                        rows[bound->0 as int],
                        rows[i],
                    ),
                complete ==> forall|i: int|
                    0 <= i < rows.len() && (#[trigger] rows[i]).user_id == user_id
                        ==> entries.deep_view().contains(rows[i]),
            decreases limit - entries.len() + if complete { 0int } else { 1int },
        {
            let ghost shown = entries.deep_view();
            match Self::next_position(pool, user_id, bound) {
                Some(b) => {
                    entries.push(pool.tables.payment_history[b].clone());
                    proof {
                        let page = entries.deep_view();
                        assert(page =~= shown.push(rows[b as int]));
                        assert forall|i: int|
                            0 <= i < rows.len() && (#[trigger] rows[i]).user_id
                                == user_id implies page.contains(rows[i]) || newer(
                            rows[b as int],
                            rows[i],
                        ) by {
                            if bound is Some && shown.contains(rows[i]) {
                                let k = choose|k: int| 0 <= k < shown.len() && shown[k] == rows[i];
                                assert(page[k] == rows[i]);
                            } else if i == b {
                                assert(page[page.len() - 1] == rows[i]);
                            }
                        }
                    }
                    bound = Some(b);
                },
                None => {
                    complete = true;
                },
            }
        }
        entries
    }
}

/// What a page shows is determined by the history, the user and the
/// limit: two pages of the same history are the same page.
pub proof fn lemma_history_page_unique(
    rows: Seq<PaymentHistoryView>,
    user_id: u128,
    limit: nat,
    p: Seq<PaymentHistoryView>,
    q: Seq<PaymentHistoryView>,
)
    requires
        is_history_page(rows, user_id, limit, p),
        is_history_page(rows, user_id, limit, q),
    ensures
        p == q,
{
    let n = if p.len() <= q.len() {
        p.len() as int
    } else {
        q.len() as int
    };
    lemma_pages_agree(rows, user_id, limit, p, q, n);
    if p.len() < q.len() {
        lemma_page_shows_all(rows, user_id, limit, p, q);
    } else if q.len() < p.len() {
        lemma_pages_agree(rows, user_id, limit, q, p, n);
        lemma_page_shows_all(rows, user_id, limit, q, p);
    }
}

/// A page that agrees with a longer page on all of its own entries cannot
/// be shorter: it is not full, so it shows the longer page's next entry,
/// which the longer page would then show twice.
proof fn lemma_page_shows_all(
    rows: Seq<PaymentHistoryView>,
    user_id: u128,
    limit: nat,
    p: Seq<PaymentHistoryView>,
    q: Seq<PaymentHistoryView>,
)
    requires
        is_history_page(rows, user_id, limit, p),
        is_history_page(rows, user_id, limit, q),
        p.len() <= q.len(),
        forall|k: int| 0 <= k < p.len() ==> p[k] == q[k],
    ensures
        p.len() == q.len(),
{
    if p.len() < q.len() {
        assert(rows.contains(q[p.len() as int]));
    }
}

/// Two pages of the same history agree on their first `n` entries.
proof fn lemma_pages_agree(
    rows: Seq<PaymentHistoryView>,
    user_id: u128,
    limit: nat,
    p: Seq<PaymentHistoryView>,
    q: Seq<PaymentHistoryView>,
    n: int,
)
    requires
        is_history_page(rows, user_id, limit, p),
        is_history_page(rows, user_id, limit, q),
        0 <= n <= p.len(),
        n <= q.len(),
    ensures
        forall|k: int| 0 <= k < n ==> p[k] == q[k],
    decreases n,
{
    if n > 0 {
        lemma_pages_agree(rows, user_id, limit, p, q, n - 1);
        lemma_pages_agree_at(rows, user_id, limit, p, q, n - 1);
    }
}

/// Two pages that agree before place `k` agree at `k`.
///
/// Each page shows the other's entry at `k` at a place from `k` on, or is
/// full and ends before it. So neither entry comes before the other, and
/// entries that are not ordered are the same entry.
proof fn lemma_pages_agree_at(
    rows: Seq<PaymentHistoryView>,
    user_id: u128,
    limit: nat,
    p: Seq<PaymentHistoryView>,
    q: Seq<PaymentHistoryView>,
    k: int,
)
    requires
        is_history_page(rows, user_id, limit, p),
        is_history_page(rows, user_id, limit, q),
        0 <= k < p.len(),
        k < q.len(),
        forall|j: int| 0 <= j < k ==> p[j] == q[j],
    ensures
        p[k] == q[k],
{
    assert(rows.contains(p[k]));
    assert(rows.contains(q[k]));
    let i = choose|i: int| 0 <= i < rows.len() && rows[i] == p[k];
    let j = choose|j: int| 0 <= j < rows.len() && rows[j] == q[k];
    assert(q.contains(rows[i]) || newer(q.last(), rows[i]));
    assert(p.contains(rows[j]) || newer(p.last(), rows[j]));
}

impl PaymentMethod {
    /// The position of the user's default method.
    fn default_position(pool: &Store, user_id: u128) -> (r: Option<usize>)
        requires
            pool.wf(),
        ensures
            r is Some == pool@.has_default_method(user_id),
            r is Some ==> r->0 == pool@.default_method_index(user_id) && r->0
                < pool@.payment_methods.len(),
    {
        let n = pool.tables.payment_methods.len();
        let mut i: usize = 0;
        while i < n
            invariant
                pool.wf(),
                n == pool.tables.payment_methods.len(),
                0 <= i <= n,
                forall|k: int|
                    0 <= k < i ==> !((#[trigger] pool@.payment_methods[k]).user_id == user_id
                        && pool@.payment_methods[k].is_default),
            decreases n - i,
        {
            assert(pool@.payment_methods[i as int] == pool.tables.payment_methods[i as int]@);
            if pool.tables.payment_methods[i].user_id == user_id && pool.tables.payment_methods[i].is_default {
                return Some(i);
            }
            i += 1;
        }
        None
    }

    /// Stores a payment method that the user attached, with the card data
    /// that the gateway disclosed. The method becomes the user's default if
    /// the user has none.
    pub fn create(
        pool: &mut Store,
        user_id: u128,
        stripe_payment_method_id: String,
        card_details: Option<CardDetails>,
        now: i64,
    ) -> (method: PaymentMethod)
        ensures
            method@ == old(pool)@.method_row(
                user_id,
                stripe_payment_method_id@,
                card_details.deep_view(),
                now,
            ),
            final(pool)@ == old(pool)@.with_method(method@),
    {
        proof {
            use_type_invariant(&*pool);
        }
        let is_default = Self::default_position(pool, user_id).is_none();
        let ghost before = pool@;
        let mut tables = pool.take();
        let n = tables.payment_methods.len();
        let row = match card_details {
            Some(card) => PaymentMethod {
                id: n as u128,
                user_id,
                stripe_payment_method_id,
                card_brand: Some(card.brand),
                card_last4: Some(card.last4),
                card_exp_month: Some(card.exp_month),
                card_exp_year: Some(card.exp_year),
                is_default,
                created_at: now,
                updated_at: now,
            },
            None => PaymentMethod {
                id: n as u128,
                user_id,
                stripe_payment_method_id,
                card_brand: None,
                card_last4: None,
                card_exp_month: None,
                card_exp_year: None,
                is_default,
                created_at: now,
                updated_at: now,
            },
        };
        let copy = row.clone();
        tables.payment_methods.push(row);
        assert(tables@.payment_methods =~= before.payment_methods.push(copy@));
        pool.put(tables);
        copy
    }

    /// Reads the user's default payment method.
    pub fn get_default_for_user(pool: &Store, user_id: u128) -> (r: Option<PaymentMethod>)
        ensures
            r.deep_view() == pool@.default_method(user_id),
    {
        proof {
            use_type_invariant(pool);
        }
        match Self::default_position(pool, user_id) {
            Some(i) => {
                Some(pool.tables.payment_methods[i].clone())
            },
            None => None,
        }
    }
}

/// The attempts of this user.
pub open spec fn attempts_of(user_id: u128) -> spec_fn(PaymentIntentView) -> bool {
    |row: PaymentIntentView| row.user_id == user_id
}

/// The payment methods of this user.
pub open spec fn methods_of(user_id: u128) -> spec_fn(PaymentMethodView) -> bool {
    |row: PaymentMethodView| row.user_id == user_id
}

impl PaymentIntent {
    /// Reads every attempt of the user, in the order of their creation.
    pub fn get_for_user(pool: &Store, user_id: u128) -> (attempts: Vec<PaymentIntent>)
        ensures
            attempts.deep_view() == pool@.payment_intents.filter(attempts_of(user_id)),
    {
        let ghost rows = pool@.payment_intents;
        let n = pool.tables.payment_intents.len();
        let mut attempts: Vec<PaymentIntent> = Vec::new();
        let mut i: usize = 0;
        proof {
            reveal(Seq::filter);
            assert(rows.take(0).filter(attempts_of(user_id)) =~= attempts.deep_view());
        }
        while i < n
            invariant
                rows == pool@.payment_intents,
                n == pool.tables.payment_intents.len(),
                0 <= i <= n,
                attempts.deep_view() == rows.take(i as int).filter(attempts_of(user_id)),
            decreases n - i,
        {
            let ghost shown = attempts.deep_view();
            proof {
                assert(rows.take(i + 1) =~= rows.take(i as int).push(rows[i as int]));
                rows.take(i as int).lemma_filter_push(rows[i as int], attempts_of(user_id));
            }
            if pool.tables.payment_intents[i].user_id == user_id {
                attempts.push(pool.tables.payment_intents[i].clone());
                assert(attempts.deep_view() =~= shown.push(rows[i as int]));
            }
            i += 1;
        }
        assert(rows.take(n as int) =~= rows);
        attempts
    }
}

impl PaymentMethod {
    /// Reads every payment method of the user, in the order in which they
    /// were attached.
    pub fn get_for_user(pool: &Store, user_id: u128) -> (methods: Vec<PaymentMethod>)
        ensures
            methods.deep_view() == pool@.payment_methods.filter(methods_of(user_id)),
    {
        let ghost rows = pool@.payment_methods;
        let n = pool.tables.payment_methods.len();
        let mut methods: Vec<PaymentMethod> = Vec::new();
        let mut i: usize = 0;
        proof {
            reveal(Seq::filter);
            assert(rows.take(0).filter(methods_of(user_id)) =~= methods.deep_view());
        }
        while i < n
            invariant
                rows == pool@.payment_methods,
                n == pool.tables.payment_methods.len(),
                0 <= i <= n,
                methods.deep_view() == rows.take(i as int).filter(methods_of(user_id)),
            decreases n - i,
        {
            let ghost shown = methods.deep_view();
            proof {
                assert(rows.take(i + 1) =~= rows.take(i as int).push(rows[i as int]));
                rows.take(i as int).lemma_filter_push(rows[i as int], methods_of(user_id));
            }
            if pool.tables.payment_methods[i].user_id == user_id {
                methods.push(pool.tables.payment_methods[i].clone());
                assert(methods.deep_view() =~= shown.push(rows[i as int]));
            }
            i += 1;
        }
        assert(rows.take(n as int) =~= rows);
        methods
    }
}

} // verus!
