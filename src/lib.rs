//! A recurring-payment engine: merchants publish plans, subscribers bind to
//! them under a spending cap, and anyone may trigger a payment once it is due.
//!
//! The engine is a pure state machine. The host that runs it authenticates
//! callers, supplies the clock, performs the token transfers that an executed
//! payment orders, and publishes the recorded events.

mod errors;
mod types;
mod events;
mod fees;
mod model;
mod contract;
pub mod laws;

pub use errors::PayCycleError;
pub use types::{Address, DataKey, PlanData, PlanStatus, SubscriptionData, SubscriptionStatus};
pub use events::{
    Event, emit_payment_executed, emit_plan_created, emit_subscribed, emit_subscription_cancelled,
    emit_subscription_paused, emit_subscription_resumed,
};
pub use fees::{compute_fee, fee_of, BPS_DENOMINATOR, MIN_INTERVAL};
pub use model::{
    capped_amount, counts_toward, dec_saturating, live_count, live_sub_ids, user_sub_ids, Config,
    ContractView, PaymentOrder, Transfer,
};
pub use contract::{KeeperContract, PayCycleToken, SubscriptionContract};
