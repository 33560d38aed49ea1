use vstd::prelude::*;
use crate::types::Address;

verus! {

/// A notification of a state change, recorded once per successful operation.
#[derive(Clone, Copy, Debug, PartialEq, Eq, Structural)]
pub enum Event {
    PlanCreated { plan_id: u64, merchant: Address },
    Subscribed { subscription_id: u64, subscriber: Address, plan_id: u64 },
    PaymentExecuted { subscription_id: u64, amount: i128 },
    SubscriptionCancelled { subscription_id: u64 },
    SubscriptionPaused { subscription_id: u64 },
    SubscriptionResumed { subscription_id: u64 },
}

/// Records that plan `plan_id` was created by `merchant`.
pub fn emit_plan_created(events: &mut Vec<Event>, plan_id: u64, merchant: Address)
    ensures
        final(events)@ == old(events)@.push(Event::PlanCreated { plan_id, merchant }),
{
    events.push(Event::PlanCreated { plan_id, merchant });
}

/// Records that `subscriber` bound subscription `subscription_id` to plan `plan_id`.
pub fn emit_subscribed(events: &mut Vec<Event>, subscription_id: u64, subscriber: Address, plan_id: u64)
    ensures
        final(events)@ == old(events)@.push(
            Event::Subscribed { subscription_id, subscriber, plan_id },
        ),
{
    events.push(Event::Subscribed { subscription_id, subscriber, plan_id });
}

/// Records that a payment of gross `amount` was executed on `subscription_id`.
pub fn emit_payment_executed(events: &mut Vec<Event>, subscription_id: u64, amount: i128)
    ensures
        final(events)@ == old(events)@.push(Event::PaymentExecuted { subscription_id, amount }),
{
    events.push(Event::PaymentExecuted { subscription_id, amount });
}

/// Records that `subscription_id` was cancelled.
pub fn emit_subscription_cancelled(events: &mut Vec<Event>, subscription_id: u64)
    ensures
        final(events)@ == old(events)@.push(Event::SubscriptionCancelled { subscription_id }),
{
    events.push(Event::SubscriptionCancelled { subscription_id });
}

/// Records that `subscription_id` was paused.
pub fn emit_subscription_paused(events: &mut Vec<Event>, subscription_id: u64)
    ensures
        final(events)@ == old(events)@.push(Event::SubscriptionPaused { subscription_id }),
{
    events.push(Event::SubscriptionPaused { subscription_id });
}

/// Records that `subscription_id` was resumed.
pub fn emit_subscription_resumed(events: &mut Vec<Event>, subscription_id: u64)
    ensures
        final(events)@ == old(events)@.push(Event::SubscriptionResumed { subscription_id }),
{
    events.push(Event::SubscriptionResumed { subscription_id });
}

} // verus!
