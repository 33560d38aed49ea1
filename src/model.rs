use vstd::prelude::*;
use crate::errors::PayCycleError;
use crate::events::Event;
use crate::fees::{fee_of, BPS_DENOMINATOR, MIN_INTERVAL};
use crate::types::{Address, PlanData, PlanStatus, SubscriptionData, SubscriptionStatus};

verus! {

/// The configuration set once by `initialize`.
#[derive(Clone, Copy, Debug, PartialEq, Eq, Structural)]
pub struct Config {
    pub admin: Address,
    /// Protocol fee in basis points, at most `BPS_DENOMINATOR`.
    pub fee_bps: u32,
    pub fee_collector: Address,
}

/// One movement of funds on the plan's token.
#[derive(Clone, Copy, Debug, PartialEq, Eq, Structural)]
pub struct Transfer {
    pub from: Address,
    pub to: Address,
    pub amount: i128,
}

/// What an executed payment asks the host to move: the merchant's leg and,
/// where the fee is positive, the fee collector's leg. The host performs
/// both or neither.
#[derive(Clone, Copy, Debug, PartialEq, Eq, Structural)]
pub struct PaymentOrder {
    pub token: Address,
    /// The gross amount charged to the subscriber.
    pub amount: i128,
    pub merchant_leg: Transfer,
    pub fee_leg: Option<Transfer>,
}

/// The abstract state of the engine. Plan `k` is `plans[k - 1]` and
/// subscription `k` is `subs[k - 1]`, so the counts are the lengths.
pub struct ContractView {
    pub config: Option<Config>,
    pub plans: Seq<PlanData>,
    pub subs: Seq<SubscriptionData>,
    pub events: Seq<Event>,
}

/// Whether subscription `s` is bound to plan `plan_id` and not cancelled.
pub open spec fn counts_toward(s: SubscriptionData, plan_id: u64) -> bool {
    s.plan_id == plan_id && s.status != SubscriptionStatus::Cancelled
}

/// The number of subscriptions in `subs` that count toward plan `plan_id`.
pub open spec fn live_count(subs: Seq<SubscriptionData>, plan_id: u64) -> nat
    decreases subs.len(),
{
    if subs.len() == 0 {
        0
    } else {
        live_count(subs.drop_last(), plan_id) + if counts_toward(subs.last(), plan_id) {
            1nat
        } else {
            0nat
        }
    }
}

/// The amount charged: the plan's current amount, capped by the subscriber.
pub open spec fn capped_amount(plan_amount: i128, max_amount: i128) -> i128 {
    if plan_amount > max_amount {
        max_amount
    } else {
        plan_amount
    }
}

/// A counter lowered by one, stopping at zero.
pub open spec fn dec_saturating(c: u32) -> u32 {
    if c == 0 {
        0
    } else {
        (c - 1) as u32
    }
}

impl ContractView {
    /// The state before any operation.
    pub open spec fn empty() -> ContractView {
        ContractView {
            config: None,
            plans: Seq::empty(),
            subs: Seq::empty(),
            events: Seq::empty(),
        }
    }

    pub open spec fn has_plan(self, plan_id: u64) -> bool {
        1 <= plan_id <= self.plans.len()
    }

    pub open spec fn plan(self, plan_id: u64) -> PlanData {
        self.plans[plan_id - 1]
    }

    pub open spec fn has_sub(self, subscription_id: u64) -> bool {
        1 <= subscription_id <= self.subs.len()
    }

    pub open spec fn sub(self, subscription_id: u64) -> SubscriptionData {
        self.subs[subscription_id - 1]
    }

    /// The fee rate in force: none before initialization.
    pub open spec fn fee_bps(self) -> u32 {
        match self.config {
            Some(c) => c.fee_bps,
            None => 0,
        }
    }

    /// Well-formedness: the configured fee is a fraction of the payment, the
    /// ids in use fit in `u64`, every
    /// plan keeps a positive amount and an interval of at least an hour, its
    /// subscriber count matches the subscriptions bound to it that are not
    /// cancelled, and every subscription refers to an existing plan under a
    /// positive cap.
    pub open spec fn wf(self) -> bool {
        &&& self.fee_bps() <= BPS_DENOMINATOR
        &&& self.plans.len() <= u64::MAX
        &&& self.subs.len() <= u64::MAX
        &&& forall|i: int|
            0 <= i < self.plans.len() ==> {
                &&& (#[trigger] self.plans[i]).amount > 0
                &&& self.plans[i].interval >= MIN_INTERVAL
                &&& self.plans[i].subscriber_count == live_count(self.subs, (i + 1) as u64)
            }
        &&& forall|j: int|
            0 <= j < self.subs.len() ==> {
                &&& 1 <= (#[trigger] self.subs[j]).plan_id <= self.plans.len()
                &&& self.subs[j].max_amount > 0
            }
    }

    /// Whether the counters that `subscribe` raises can still be raised.
    pub open spec fn subscribe_fits(self, plan_id: u64) -> bool {
        &&& self.subs.len() < u64::MAX
        &&& self.has_plan(plan_id) ==> self.plan(plan_id).subscriber_count < u32::MAX
    }

    /// Whether a payment on `subscription_id` at time `now` keeps its
    /// schedule and its payment counter within their integer types.
    pub open spec fn execution_fits(self, subscription_id: u64, now: u64) -> bool {
        self.has_sub(subscription_id) && self.has_plan(self.sub(subscription_id).plan_id) ==> {
            &&& now + self.plan(self.sub(subscription_id).plan_id).interval <= u64::MAX
            &&& self.sub(subscription_id).payments_made < u32::MAX
        }
    }

    /// `initialize`: the first call sets the configuration, later ones fail.
    pub open spec fn initialize_step(self, admin: Address, fee_bps: u32, fee_collector: Address) -> (
        ContractView,
        Result<(), PayCycleError>,
    ) {
        if self.config is Some {
            (self, Err(PayCycleError::AlreadyInitialized))
        } else {
            (ContractView { config: Some(Config { admin, fee_bps, fee_collector }), ..self }, Ok(()))
        }
    }

    /// `create_plan`: validates the amount, then the interval, and appends an
    /// active plan with no subscribers under the next id.
    pub open spec fn create_plan_step(
        self,
        merchant: Address,
        token: Address,
        amount: i128,
        interval: u64,
        name: String,
        now: u64,
    ) -> (ContractView, Result<u64, PayCycleError>) {
        if amount <= 0 {
            (self, Err(PayCycleError::AmountTooLow))
        } else if interval < MIN_INTERVAL {
            (self, Err(PayCycleError::IntervalTooShort))
        } else {
            let plan_id = (self.plans.len() + 1) as u64;
            let plan = PlanData {
                merchant,
                token,
                amount,
                interval,
                name,
                status: PlanStatus::Active,
                subscriber_count: 0,
                created_at: now,
            };
            (
                ContractView {
                    plans: self.plans.push(plan),
                    events: self.events.push(Event::PlanCreated { plan_id, merchant }),
                    ..self
                },
                Ok(plan_id),
            )
        }
    }

    /// `subscribe`: the plan must exist, be active and fit under the cap; the
    /// new subscription is due at once and counts toward its plan.
    pub open spec fn subscribe_step(
        self,
        subscriber: Address,
        plan_id: u64,
        max_amount: i128,
        now: u64,
    ) -> (ContractView, Result<u64, PayCycleError>) {
        if !self.has_plan(plan_id) {
            (self, Err(PayCycleError::PlanNotFound))
        } else if self.plan(plan_id).status != PlanStatus::Active {
            (self, Err(PayCycleError::PlanInactive))
        } else if max_amount < self.plan(plan_id).amount {
            (self, Err(PayCycleError::ExceedsSpendingCap))
        } else {
            let subscription_id = (self.subs.len() + 1) as u64;
            let sub = SubscriptionData {
                subscriber,
                plan_id,
                max_amount,
                status: SubscriptionStatus::Active,
                last_payment: 0,
                next_payment: now,
                payments_made: 0,
                created_at: now,
            };
            let p = self.plan(plan_id);
            (
                ContractView {
                    plans: self.plans.update(
                        plan_id - 1,
                        PlanData { subscriber_count: (p.subscriber_count + 1) as u32, ..p },
                    ),
                    subs: self.subs.push(sub),
                    events: self.events.push(
                        Event::Subscribed { subscription_id, subscriber, plan_id },
                    ),
                    ..self
                },
                Ok(subscription_id),
            )
        }
    }

    /// The error, if any, that stops `merchant` from amending `plan_id`.
    pub open spec fn plan_access_error(self, merchant: Address, plan_id: u64) -> Option<PayCycleError> {
        if !self.has_plan(plan_id) {
            Some(PayCycleError::PlanNotFound)
        } else if self.plan(plan_id).merchant != merchant {
            Some(PayCycleError::NotAuthorized)
        } else {
            None
        }
    }

    /// `set_plan_amount`: the merchant sets a new positive amount.
    pub open spec fn set_plan_amount_step(self, merchant: Address, plan_id: u64, amount: i128) -> (
        ContractView,
        Result<(), PayCycleError>,
    ) {
        if let Some(e) = self.plan_access_error(merchant, plan_id) {
            (self, Err(e))
        } else if amount <= 0 {
            (self, Err(PayCycleError::AmountTooLow))
        } else {
            (
                ContractView {
                    plans: self.plans.update(plan_id - 1, PlanData { amount, ..self.plan(plan_id) }),
                    ..self
                },
                Ok(()),
            )
        }
    }

    /// `set_plan_status`: the merchant sets a new status.
    pub open spec fn set_plan_status_step(self, merchant: Address, plan_id: u64, status: PlanStatus) -> (
        ContractView,
        Result<(), PayCycleError>,
    ) {
        if let Some(e) = self.plan_access_error(merchant, plan_id) {
            (self, Err(e))
        } else {
            (
                ContractView {
                    plans: self.plans.update(plan_id - 1, PlanData { status, ..self.plan(plan_id) }),
                    ..self
                },
                Ok(()),
            )
        }
    }

    /// The error, if any, that stops `subscriber` from managing `subscription_id`.
    pub open spec fn access_error(self, subscriber: Address, subscription_id: u64) -> Option<
        PayCycleError,
    > {
        if !self.has_sub(subscription_id) {
            Some(PayCycleError::SubscriptionNotFound)
        } else if self.sub(subscription_id).subscriber != subscriber {
            Some(PayCycleError::NotAuthorized)
        } else {
            None
        }
    }

    /// `subscription_id` with its status set to `status`.
    pub open spec fn with_status(self, subscription_id: u64, status: SubscriptionStatus) -> Seq<
        SubscriptionData,
    > {
        self.subs.update(
            subscription_id - 1,
            SubscriptionData { status, ..self.sub(subscription_id) },
        )
    }

    /// `cancel`: the owner ends a subscription that is not yet cancelled, and
    /// its plan loses a subscriber.
    pub open spec fn cancel_step(self, subscriber: Address, subscription_id: u64) -> (
        ContractView,
        Result<(), PayCycleError>,
    ) {
        if let Some(e) = self.access_error(subscriber, subscription_id) {
            (self, Err(e))
        } else if self.sub(subscription_id).status == SubscriptionStatus::Cancelled {
            (self, Err(PayCycleError::InvalidStatus))
        } else {
            let plan_id = self.sub(subscription_id).plan_id;
            let p = self.plan(plan_id);
            (
                ContractView {
                    plans: self.plans.update(
                        plan_id - 1,
                        PlanData { subscriber_count: dec_saturating(p.subscriber_count), ..p },
                    ),
                    subs: self.with_status(subscription_id, SubscriptionStatus::Cancelled),
                    events: self.events.push(Event::SubscriptionCancelled { subscription_id }),
                    ..self
                },
                Ok(()),
            )
        }
    }

    /// `pause`: the owner pauses an active subscription; its schedule stays.
    pub open spec fn pause_step(self, subscriber: Address, subscription_id: u64) -> (
        ContractView,
        Result<(), PayCycleError>,
    ) {
        if let Some(e) = self.access_error(subscriber, subscription_id) {
            (self, Err(e))
        } else if self.sub(subscription_id).status != SubscriptionStatus::Active {
            (self, Err(PayCycleError::InvalidStatus))
        } else {
            (
                ContractView {
                    subs: self.with_status(subscription_id, SubscriptionStatus::Paused),
                    events: self.events.push(Event::SubscriptionPaused { subscription_id }),
                    ..self
                },
                Ok(()),
            )
        }
    }

    /// `resume`: the owner reactivates a paused subscription; its schedule stays.
    pub open spec fn resume_step(self, subscriber: Address, subscription_id: u64) -> (
        ContractView,
        Result<(), PayCycleError>,
    ) {
        if let Some(e) = self.access_error(subscriber, subscription_id) {
            (self, Err(e))
        } else if self.sub(subscription_id).status != SubscriptionStatus::Paused {
            (self, Err(PayCycleError::InvalidStatus))
        } else {
            (
                ContractView {
                    subs: self.with_status(subscription_id, SubscriptionStatus::Active),
                    events: self.events.push(Event::SubscriptionResumed { subscription_id }),
                    ..self
                },
                Ok(()),
            )
        }
    }

    /// The transfers that pay `amount` on `plan` from `sub`'s subscriber.
    pub open spec fn order_for(self, sub: SubscriptionData, plan: PlanData) -> PaymentOrder {
        let amount = capped_amount(plan.amount, sub.max_amount);
        let fee = fee_of(amount as int, self.fee_bps() as int) as i128;
        PaymentOrder {
            token: plan.token,
            amount,
            merchant_leg: Transfer { from: sub.subscriber, to: plan.merchant, amount: (amount - fee) as i128 },
            fee_leg: if fee > 0 {
                match self.config {
                    Some(c) => Some(Transfer { from: sub.subscriber, to: c.fee_collector, amount: fee }),
                    None => None,
                }
            } else {
                None
            },
        }
    }

    /// `execute_payment`: an active, due subscription on an active plan is
    /// charged, and its next payment is set one interval after `now`.
    pub open spec fn execute_payment_step(self, subscription_id: u64, now: u64) -> (
        ContractView,
        Result<PaymentOrder, PayCycleError>,
    ) {
        if !self.has_sub(subscription_id) {
            (self, Err(PayCycleError::SubscriptionNotFound))
        } else if self.sub(subscription_id).status != SubscriptionStatus::Active {
            (self, Err(PayCycleError::InvalidStatus))
        } else if now < self.sub(subscription_id).next_payment {
            (self, Err(PayCycleError::PaymentNotDue))
        } else if !self.has_plan(self.sub(subscription_id).plan_id) {
            (self, Err(PayCycleError::PlanNotFound))
        } else if self.plan(self.sub(subscription_id).plan_id).status != PlanStatus::Active {
            (self, Err(PayCycleError::PlanInactive))
        } else {
            let sub = self.sub(subscription_id);
            let plan = self.plan(sub.plan_id);
            let order = self.order_for(sub, plan);
            let paid = SubscriptionData {
                last_payment: now,
                next_payment: (now + plan.interval) as u64,
                payments_made: (sub.payments_made + 1) as u32,
                ..sub
            };
            (
                ContractView {
                    subs: self.subs.update(subscription_id - 1, paid),
                    events: self.events.push(
                        Event::PaymentExecuted { subscription_id, amount: order.amount },
                    ),
                    ..self
                },
                Ok(order),
            )
        }
    }
}

/// The ids of the subscriptions in `subs` (id `k` at index `k - 1`) that
/// belong to `user`, in increasing order.
pub open spec fn user_sub_ids(subs: Seq<SubscriptionData>, user: Address) -> Seq<u64>
    decreases subs.len(),
{
    if subs.len() == 0 {
        Seq::empty()
    } else if subs.last().subscriber == user {
        user_sub_ids(subs.drop_last(), user).push(subs.len() as u64)
    } else {
        user_sub_ids(subs.drop_last(), user)
    }
}

/// The ids of the subscriptions in `subs` that count toward plan `plan_id`,
/// in increasing order.
pub open spec fn live_sub_ids(subs: Seq<SubscriptionData>, plan_id: u64) -> Seq<u64>
    decreases subs.len(),
{
    if subs.len() == 0 {
        Seq::empty()
    } else if counts_toward(subs.last(), plan_id) {
        live_sub_ids(subs.drop_last(), plan_id).push(subs.len() as u64)
    } else {
        live_sub_ids(subs.drop_last(), plan_id)
    }
}

pub proof fn lemma_live_count_push(subs: Seq<SubscriptionData>, s: SubscriptionData, plan_id: u64)
    ensures
        live_count(subs.push(s), plan_id) == live_count(subs, plan_id) + if counts_toward(s, plan_id) {
            1nat
        } else {
            0nat
        },
{
    assert(subs.push(s).drop_last() =~= subs);
}

pub proof fn lemma_live_count_update(subs: Seq<SubscriptionData>, i: int, s: SubscriptionData, plan_id: u64)
    requires
        0 <= i < subs.len(),
    ensures
        live_count(subs.update(i, s), plan_id) + (if counts_toward(subs[i], plan_id) { 1nat } else { 0nat })
            == live_count(subs, plan_id) + (if counts_toward(s, plan_id) { 1nat } else { 0nat }),
    decreases subs.len(),
{
    let u = subs.update(i, s);
    if i == subs.len() - 1 {
        assert(u.drop_last() =~= subs.drop_last());
    } else {
        assert(u.drop_last() =~= subs.drop_last().update(i, s));
        lemma_live_count_update(subs.drop_last(), i, s, plan_id);
    }
}

/// There are as many live subscription ids of a plan as its live count.
pub proof fn lemma_live_ids_len(subs: Seq<SubscriptionData>, plan_id: u64)
    ensures
        live_sub_ids(subs, plan_id).len() == live_count(subs, plan_id),
    decreases subs.len(),
{
    if subs.len() > 0 {
        lemma_live_ids_len(subs.drop_last(), plan_id);
    }
}

pub proof fn lemma_live_count_none(subs: Seq<SubscriptionData>, plan_id: u64)
    requires
        forall|j: int| 0 <= j < subs.len() ==> (#[trigger] subs[j]).plan_id != plan_id,
    ensures
        live_count(subs, plan_id) == 0,
    decreases subs.len(),
{
    if subs.len() > 0 {
        lemma_live_count_none(subs.drop_last(), plan_id);
    }
}

} // verus!
