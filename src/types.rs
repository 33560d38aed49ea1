use vstd::prelude::*;

verus! {

/// An identity (a merchant, a subscriber, a fee collector) or an asset,
/// as a number that the host assigns to it.
#[derive(Clone, Copy, Debug, PartialEq, Eq, Structural, Hash)]
pub struct Address {
    pub id: u64,
}

/// Status of a subscription plan.
#[derive(Clone, Copy, Debug, PartialEq, Eq, Structural)]
pub enum PlanStatus {
    Active,
    Paused,
    Cancelled,
}

/// Status of an individual subscription. No operation of the engine leads
/// to `Expired`; it is kept so that hosts can share one vocabulary.
#[derive(Clone, Copy, Debug, PartialEq, Eq, Structural)]
pub enum SubscriptionStatus {
    Active,
    Paused,
    Cancelled,
    Expired,
}

/// A recurring payment plan created by a merchant.
#[derive(Clone, Debug)]
pub struct PlanData {
    pub merchant: Address,
    pub token: Address,
    pub amount: i128,
    /// Seconds between payments.
    pub interval: u64,
    pub name: String,
    pub status: PlanStatus,
    /// Number of subscriptions to this plan that are not cancelled.
    pub subscriber_count: u32,
    pub created_at: u64,
}

/// A subscriber's binding to a plan.
#[derive(Clone, Copy, Debug, PartialEq, Eq, Structural)]
pub struct SubscriptionData {
    pub subscriber: Address,
    pub plan_id: u64,
    /// Spending cap per payment, fixed when subscribing.
    pub max_amount: i128,
    pub status: SubscriptionStatus,
    /// Time of the last executed payment, 0 before the first one.
    pub last_payment: u64,
    /// Time from which the next payment is due.
    pub next_payment: u64,
    pub payments_made: u32,
    pub created_at: u64,
}

/// The keys under which the engine's records are addressed.
#[derive(Clone, Copy, Debug, PartialEq, Eq, Structural)]
pub enum DataKey {
    Admin,
    FeeBps,
    FeeCollector,
    PlanCount,
    SubCount,
    Plan(u64),
    Sub(u64),
}

} // verus!
