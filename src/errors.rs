use vstd::prelude::*;

verus! {

/// Every way an operation of the engine can fail.
#[derive(Clone, Copy, Debug, PartialEq, Eq, Structural, PartialOrd, Ord)]
pub enum PayCycleError {
    NotAuthorized,
    PlanNotFound,
    SubscriptionNotFound,
    InvalidStatus,
    InsufficientBalance,
    PaymentNotDue,
    ExceedsSpendingCap,
    PlanInactive,
    AlreadySubscribed,
    IntervalTooShort,
    AmountTooLow,
    AlreadyInitialized,
}

} // verus!
