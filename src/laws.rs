//! Properties of the engine that relate several operations, proved over the
//! transition functions that its methods are verified against.
use vstd::prelude::*;
use crate::errors::PayCycleError;
use crate::fees::{fee_of, lemma_fee_split, MIN_INTERVAL};
use crate::model::{capped_amount, ContractView};
use crate::types::{Address, PlanStatus, SubscriptionStatus};

verus! {

/// Valid plans get consecutive ids starting at 1: two creations in a row
/// succeed with the next two ids, the second strictly above the first.
pub proof fn law_plan_ids_increase(
    s: ContractView,
    merchant1: Address,
    token1: Address,
    amount1: i128,
    interval1: u64,
    name1: String,
    now1: u64,
    merchant2: Address,
    token2: Address,
    amount2: i128,
    interval2: u64,
    name2: String,
    now2: u64,
)
    requires
        s.plans.len() + 2 <= u64::MAX,
        amount1 > 0,
        interval1 >= MIN_INTERVAL,
        amount2 > 0,
        interval2 >= MIN_INTERVAL,
    ensures
        s.create_plan_step(merchant1, token1, amount1, interval1, name1, now1).1
            == Ok::<u64, PayCycleError>((s.plans.len() + 1) as u64),
        s.create_plan_step(merchant1, token1, amount1, interval1, name1, now1).0.create_plan_step(
            merchant2,
            token2,
            amount2,
            interval2,
            name2,
            now2,
        ).1 == Ok::<u64, PayCycleError>((s.plans.len() + 2) as u64),
        s.plans.len() == 0 ==> s.create_plan_step(merchant1, token1, amount1, interval1, name1, now1).1
            == Ok::<u64, PayCycleError>(1),
{
}

/// An invalid amount or interval is refused and allocates no id: the state
/// is left as it was.
pub proof fn law_invalid_plan_refused(
    s: ContractView,
    merchant: Address,
    token: Address,
    amount: i128,
    interval: u64,
    name: String,
    now: u64,
)
    requires
        amount <= 0 || interval < MIN_INTERVAL,
    ensures
        s.create_plan_step(merchant, token, amount, interval, name, now) == (
            s,
            Err::<u64, PayCycleError>(
                if amount <= 0 {
                    PayCycleError::AmountTooLow
                } else {
                    PayCycleError::IntervalTooShort
                },
            ),
        ),
{
}

/// Subscribing succeeds only to an existing active plan whose current amount
/// is within the subscriber's cap.
pub proof fn law_subscribe_needs_active_plan_within_cap(
    s: ContractView,
    subscriber: Address,
    plan_id: u64,
    max_amount: i128,
    now: u64,
)
    ensures
        s.subscribe_step(subscriber, plan_id, max_amount, now).1 is Ok ==> {
            &&& s.has_plan(plan_id)
            &&& s.plan(plan_id).status == PlanStatus::Active
            &&& max_amount >= s.plan(plan_id).amount
        },
{
}

/// A new subscription is due at once: its next payment is at the time of
/// subscribing, and executing it at that very time succeeds.
pub proof fn law_first_payment_due_at_once(
    s: ContractView,
    subscriber: Address,
    plan_id: u64,
    max_amount: i128,
    now: u64,
)
    requires
        s.wf(),
        s.subscribe_fits(plan_id),
        s.subscribe_step(subscriber, plan_id, max_amount, now).1 is Ok,
    ensures
        ({
            let (s1, r) = s.subscribe_step(subscriber, plan_id, max_amount, now);
            let id = r->Ok_0;
            &&& s1.has_sub(id)
            &&& s1.sub(id).next_payment == now
            &&& s1.execute_payment_step(id, now).1 is Ok
        }),
{
}

/// Every executed payment charges the plan's current amount capped by the
/// subscriber's cap from subscribing, and splits it exactly into the
/// merchant's leg and the fee leg.
pub proof fn law_payment_split(s: ContractView, subscription_id: u64, now: u64)
    requires
        s.wf(),
        s.execute_payment_step(subscription_id, now).1 is Ok,
    ensures
        ({
            let order = s.execute_payment_step(subscription_id, now).1->Ok_0;
            let sub = s.sub(subscription_id);
            let fee: int = match order.fee_leg {
                Some(t) => t.amount as int,
                None => 0,
            };
            &&& order.amount == capped_amount(s.plan(sub.plan_id).amount, sub.max_amount)
            &&& fee == fee_of(order.amount as int, s.fee_bps() as int)
            &&& order.merchant_leg.amount + fee == order.amount
            &&& order.merchant_leg.from == sub.subscriber
            &&& order.merchant_leg.to == s.plan(sub.plan_id).merchant
        }),
{
    let sub = s.sub(subscription_id);
    assert(s.plans[sub.plan_id - 1].amount > 0);
    assert(s.subs[subscription_id - 1].max_amount > 0);
    let amount = capped_amount(s.plan(sub.plan_id).amount, sub.max_amount);
    lemma_fee_split(amount as int, s.fee_bps() as int);
    if fee_of(amount as int, s.fee_bps() as int) > 0 {
        assert(s.config is Some);
    }
}

/// A payment cannot be executed twice at the same time: right after one
/// succeeds, the next attempt at that time is not due.
pub proof fn law_no_second_payment_at_once(s: ContractView, subscription_id: u64, now: u64)
    requires
        s.wf(),
        s.execution_fits(subscription_id, now),
        s.execute_payment_step(subscription_id, now).1 is Ok,
    ensures
        s.execute_payment_step(subscription_id, now).0.execute_payment_step(subscription_id, now)
            == (s.execute_payment_step(subscription_id, now).0, Err::<
            crate::model::PaymentOrder,
            PayCycleError,
        >(PayCycleError::PaymentNotDue)),
{
    let sub = s.sub(subscription_id);
    assert(s.plans[sub.plan_id - 1].interval >= MIN_INTERVAL);
}

/// After a payment, the next one is due one plan interval after the time of
/// execution, whatever the due date was before.
pub proof fn law_next_payment_from_execution(s: ContractView, subscription_id: u64, now: u64)
    requires
        s.execution_fits(subscription_id, now),
        s.execute_payment_step(subscription_id, now).1 is Ok,
    ensures
        ({
            let s1 = s.execute_payment_step(subscription_id, now).0;
            let sub = s.sub(subscription_id);
            &&& s1.sub(subscription_id).next_payment == now + s.plan(sub.plan_id).interval
            &&& s1.sub(subscription_id).last_payment == now
            &&& s1.sub(subscription_id).payments_made == sub.payments_made + 1
        }),
{
}

/// Only a subscription's owner may manage it: cancelling, pausing or
/// resuming another's subscription fails with `NotAuthorized` and changes
/// nothing.
pub proof fn law_only_owner_manages(s: ContractView, caller: Address, subscription_id: u64)
    requires
        s.has_sub(subscription_id),
        s.sub(subscription_id).subscriber != caller,
    ensures
        s.cancel_step(caller, subscription_id) == (s, Err::<(), PayCycleError>(PayCycleError::NotAuthorized)),
        s.pause_step(caller, subscription_id) == (s, Err::<(), PayCycleError>(PayCycleError::NotAuthorized)),
        s.resume_step(caller, subscription_id) == (s, Err::<(), PayCycleError>(PayCycleError::NotAuthorized)),
{
}

/// A paused subscription cannot be charged, and resuming it restores its
/// old due date unchanged, so a payment due before the pause is due at once.
pub proof fn law_pause_resume_keeps_due_date(
    s: ContractView,
    subscriber: Address,
    subscription_id: u64,
    now: u64,
)
    requires
        s.pause_step(subscriber, subscription_id).1 is Ok,
    ensures
        ({
            let paused = s.pause_step(subscriber, subscription_id).0;
            let resumed = paused.resume_step(subscriber, subscription_id);
            &&& paused.execute_payment_step(subscription_id, now).1
                == Err::<crate::model::PaymentOrder, PayCycleError>(PayCycleError::InvalidStatus)
            &&& resumed.1 is Ok
            &&& resumed.0.sub(subscription_id) == s.sub(subscription_id)
            &&& resumed.0.sub(subscription_id).status == SubscriptionStatus::Active
        }),
{
}

} // verus!
