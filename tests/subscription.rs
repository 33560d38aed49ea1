use std::collections::HashMap;

use paycycle::{
    compute_fee, Address, DataKey, Event, PayCycleError, PaymentOrder, PlanStatus,
    SubscriptionContract, SubscriptionStatus,
};

const START: u64 = 1_000_000;
const FUNDS: i128 = 1_000_000_0000000;

/// Balances of one token, as the host's transfer primitive keeps them.
struct Ledger {
    balances: HashMap<Address, i128>,
}

impl Ledger {
    fn balance(&self, who: Address) -> i128 {
        *self.balances.get(&who).unwrap_or(&0)
    }

    fn credit(&mut self, who: Address, amount: i128) {
        let b = self.balance(who);
        self.balances.insert(who, b + amount);
    }

    /// Performs both legs of an order, or neither.
    fn settle(&mut self, order: &PaymentOrder) {
        let total = order.merchant_leg.amount + order.fee_leg.map_or(0, |t| t.amount);
        assert!(self.balance(order.merchant_leg.from) >= total);
        self.credit(order.merchant_leg.from, -order.merchant_leg.amount);
        self.credit(order.merchant_leg.to, order.merchant_leg.amount);
        if let Some(t) = order.fee_leg {
            self.credit(t.from, -t.amount);
            self.credit(t.to, t.amount);
        }
    }
}

struct Setup {
    client: SubscriptionContract,
    ledger: Ledger,
    token_id: Address,
    merchant: Address,
    subscriber: Address,
    fee_collector: Address,
}

fn setup() -> Setup {
    let mut client = SubscriptionContract::new();
    let admin = Address { id: 1 };
    let fee_collector = Address { id: 2 };
    let merchant = Address { id: 3 };
    let subscriber = Address { id: 4 };
    client.initialize(admin, 50, fee_collector).unwrap();
    let mut ledger = Ledger { balances: HashMap::new() };
    ledger.credit(subscriber, FUNDS);
    Setup { client, ledger, token_id: Address { id: 100 }, merchant, subscriber, fee_collector }
}

fn plan(s: &mut Setup, amount: i128, interval: u64, name: &str) -> u64 {
    s.client
        .create_plan(s.merchant, s.token_id, amount, interval, name.to_string(), START)
        .unwrap()
}

#[test]
fn test_initialize() {
    let mut client = SubscriptionContract::new();
    let admin = Address { id: 1 };
    let fee_collector = Address { id: 2 };

    assert_eq!(client.initialize(admin, 50u32, fee_collector), Ok(()));
    assert_eq!(client.get_plan_count(), 0);
    assert_eq!(client.get_sub_count(), 0);

    let result = client.initialize(admin, 50u32, fee_collector);
    assert!(result.is_err());
    assert_eq!(result, Err(PayCycleError::AlreadyInitialized));
}

#[test]
fn test_create_plan() {
    let mut s = setup();
    let plan_id = plan(&mut s, 10_0000000i128, 30 * 24 * 3600u64, "Premium Monthly");

    assert_eq!(plan_id, 1);
    assert_eq!(s.client.get_plan_count(), 1);

    let p = s.client.get_plan(plan_id).unwrap();
    assert_eq!(p.merchant, s.merchant);
    assert_eq!(p.amount, 10_0000000i128);
    assert_eq!(p.interval, 30 * 24 * 3600);
    assert_eq!(p.status, PlanStatus::Active);
    assert_eq!(p.subscriber_count, 0);
    assert_eq!(p.name, "Premium Monthly");
    assert_eq!(p.created_at, START);
}

#[test]
fn test_subscribe() {
    let mut s = setup();
    let plan_id = plan(&mut s, 10_0000000i128, 3600u64, "Hourly Plan");

    let sub_id = s.client.subscribe(s.subscriber, plan_id, 15_0000000i128, START).unwrap();

    assert_eq!(sub_id, 1);
    assert_eq!(s.client.get_sub_count(), 1);

    let sub = s.client.get_subscription(sub_id).unwrap();
    assert_eq!(sub.subscriber, s.subscriber);
    assert_eq!(sub.plan_id, plan_id);
    assert_eq!(sub.max_amount, 15_0000000i128);
    assert_eq!(sub.status, SubscriptionStatus::Active);
    assert_eq!(sub.payments_made, 0);

    assert_eq!(s.client.get_plan(plan_id).unwrap().subscriber_count, 1);
}

#[test]
fn test_execute_payment() {
    let mut s = setup();
    let plan_amount = 10_0000000i128;
    let plan_id = plan(&mut s, plan_amount, 3600u64, "Hourly");
    let sub_id = s.client.subscribe(s.subscriber, plan_id, plan_amount, START).unwrap();

    let sub_balance_before = s.ledger.balance(s.subscriber);
    let merchant_balance_before = s.ledger.balance(s.merchant);
    let fee_balance_before = s.ledger.balance(s.fee_collector);

    let order = s.client.execute_payment(sub_id, START).unwrap();
    s.ledger.settle(&order);

    let expected_fee = (plan_amount * 50) / 10_000;
    let expected_merchant = plan_amount - expected_fee;

    assert_eq!(s.ledger.balance(s.subscriber), sub_balance_before - plan_amount);
    assert_eq!(s.ledger.balance(s.merchant), merchant_balance_before + expected_merchant);
    assert_eq!(s.ledger.balance(s.fee_collector), fee_balance_before + expected_fee);

    let sub = s.client.get_subscription(sub_id).unwrap();
    assert_eq!(sub.payments_made, 1);
    assert!(sub.last_payment > 0);
    assert!(sub.next_payment > sub.last_payment);
}

#[test]
fn test_cancel_subscription() {
    let mut s = setup();
    let plan_id = plan(&mut s, 10_0000000i128, 3600u64, "Test");
    let sub_id = s.client.subscribe(s.subscriber, plan_id, 10_0000000i128, START).unwrap();

    s.client.cancel(s.subscriber, sub_id).unwrap();

    let sub = s.client.get_subscription(sub_id).unwrap();
    assert_eq!(sub.status, SubscriptionStatus::Cancelled);
    assert_eq!(s.client.get_plan(plan_id).unwrap().subscriber_count, 0);

    let result = s.client.execute_payment(sub_id, START);
    assert!(result.is_err());
}

#[test]
fn test_pause_resume() {
    let mut s = setup();
    let plan_id = plan(&mut s, 10_0000000i128, 3600u64, "Test");
    let sub_id = s.client.subscribe(s.subscriber, plan_id, 10_0000000i128, START).unwrap();

    s.client.pause(s.subscriber, sub_id).unwrap();
    assert_eq!(s.client.get_subscription(sub_id).unwrap().status, SubscriptionStatus::Paused);

    let result = s.client.execute_payment(sub_id, START);
    assert!(result.is_err());

    s.client.resume(s.subscriber, sub_id).unwrap();
    assert_eq!(s.client.get_subscription(sub_id).unwrap().status, SubscriptionStatus::Active);

    let result = s.client.execute_payment(sub_id, START);
    assert!(result.is_ok());
}

#[test]
fn test_payment_not_due() {
    let mut s = setup();
    let interval = 3600u64;
    let plan_id = plan(&mut s, 10_0000000i128, interval, "Test");
    let sub_id = s.client.subscribe(s.subscriber, plan_id, 10_0000000i128, START).unwrap();

    let mut now = START;
    s.client.execute_payment(sub_id, now).unwrap();

    let result = s.client.execute_payment(sub_id, now);
    assert!(result.is_err());

    now += interval + 1;
    let result = s.client.execute_payment(sub_id, now);
    assert!(result.is_ok());

    assert_eq!(s.client.get_subscription(sub_id).unwrap().payments_made, 2);
}

#[test]
fn test_spending_cap_enforcement() {
    let mut s = setup();
    let plan_id = plan(&mut s, 10_0000000i128, 3600u64, "Cap Test");
    let sub_id = s.client.subscribe(s.subscriber, plan_id, 10_0000000i128, START).unwrap();

    s.client.set_plan_amount(s.merchant, plan_id, 20_0000000i128).unwrap();

    let balance_before = s.ledger.balance(s.subscriber);
    let order = s.client.execute_payment(sub_id, START).unwrap();
    s.ledger.settle(&order);

    let expected_payment = 10_0000000i128;
    assert_eq!(s.ledger.balance(s.subscriber), balance_before - expected_payment);
}

#[test]
fn test_unauthorized_cancel() {
    let mut s = setup();
    let plan_id = plan(&mut s, 10_0000000i128, 3600u64, "Test");
    let sub_id = s.client.subscribe(s.subscriber, plan_id, 10_0000000i128, START).unwrap();

    let attacker = Address { id: 666 };
    let result = s.client.cancel(attacker, sub_id);
    assert!(result.is_err());
    assert_eq!(result, Err(PayCycleError::NotAuthorized));

    assert_eq!(s.client.get_subscription(sub_id).unwrap().status, SubscriptionStatus::Active);
}

#[test]
fn plan_ids_start_at_one_and_increase() {
    let mut s = setup();
    assert_eq!(plan(&mut s, 1, 3600, "a"), 1);
    assert_eq!(plan(&mut s, 2, 7200, "b"), 2);
    assert_eq!(plan(&mut s, 3, 3600, "c"), 3);
    assert_eq!(s.client.get_plan_count(), 3);
}

#[test]
fn invalid_plans_allocate_no_id() {
    let mut s = setup();
    let m = s.merchant;
    let t = s.token_id;
    assert_eq!(s.client.create_plan(m, t, 0, 3600, "x".to_string(), START), Err(PayCycleError::AmountTooLow));
    assert_eq!(s.client.create_plan(m, t, -5, 3600, "x".to_string(), START), Err(PayCycleError::AmountTooLow));
    assert_eq!(s.client.create_plan(m, t, 10, 3599, "x".to_string(), START), Err(PayCycleError::IntervalTooShort));
    assert_eq!(s.client.create_plan(m, t, 0, 10, "x".to_string(), START), Err(PayCycleError::AmountTooLow));
    assert_eq!(s.client.get_plan_count(), 0);
    assert!(s.client.events().is_empty());
    assert_eq!(plan(&mut s, 10, 3600, "ok"), 1);
}

#[test]
fn subscribe_refuses_inactive_plan_and_low_cap() {
    let mut s = setup();
    let plan_id = plan(&mut s, 100, 3600, "p");
    let sub = s.subscriber;
    assert_eq!(s.client.subscribe(sub, 7, 100, START), Err(PayCycleError::PlanNotFound));
    assert_eq!(s.client.subscribe(sub, 0, 100, START), Err(PayCycleError::PlanNotFound));
    assert_eq!(s.client.subscribe(sub, plan_id, 99, START), Err(PayCycleError::ExceedsSpendingCap));
    s.client.set_plan_status(s.merchant, plan_id, PlanStatus::Paused).unwrap();
    assert_eq!(s.client.subscribe(sub, plan_id, 100, START), Err(PayCycleError::PlanInactive));
    s.client.set_plan_status(s.merchant, plan_id, PlanStatus::Cancelled).unwrap();
    assert_eq!(s.client.subscribe(sub, plan_id, 1000, START), Err(PayCycleError::PlanInactive));
    assert_eq!(s.client.get_sub_count(), 0);
    assert_eq!(s.client.get_plan(plan_id).unwrap().subscriber_count, 0);
}

#[test]
fn first_payment_due_at_subscription_time() {
    let mut s = setup();
    let plan_id = plan(&mut s, 100, 3600, "p");
    let id = s.client.subscribe(s.subscriber, plan_id, 100, START + 5).unwrap();
    let sub = s.client.get_subscription(id).unwrap();
    assert_eq!(sub.next_payment, START + 5);
    assert_eq!(sub.last_payment, 0);
    assert_eq!(sub.created_at, START + 5);
    assert_eq!(s.client.execute_payment(id, START + 4), Err(PayCycleError::PaymentNotDue));
    assert!(s.client.execute_payment(id, START + 5).is_ok());
}

#[test]
fn payment_legs_add_up_to_capped_amount() {
    let mut s = setup();
    let plan_id = plan(&mut s, 1_000_003, 3600, "p");
    let id = s.client.subscribe(s.subscriber, plan_id, 2_000_000, START).unwrap();
    let order = s.client.execute_payment(id, START).unwrap();
    assert_eq!(order.amount, 1_000_003);
    assert_eq!(order.token, s.token_id);
    let fee = order.fee_leg.unwrap();
    assert_eq!(fee.amount, 5_000);
    assert_eq!(fee.to, s.fee_collector);
    assert_eq!(fee.from, s.subscriber);
    assert_eq!(order.merchant_leg.amount, 995_003);
    assert_eq!(order.merchant_leg.to, s.merchant);
    assert_eq!(order.merchant_leg.amount + fee.amount, order.amount);
}

#[test]
fn second_execution_at_same_time_is_not_due() {
    let mut s = setup();
    let plan_id = plan(&mut s, 100, 3600, "p");
    let id = s.client.subscribe(s.subscriber, plan_id, 100, START).unwrap();
    assert!(s.client.execute_payment(id, START).is_ok());
    assert_eq!(s.client.execute_payment(id, START), Err(PayCycleError::PaymentNotDue));
    assert_eq!(s.client.execute_payment(id, START + 3599), Err(PayCycleError::PaymentNotDue));
    assert!(s.client.execute_payment(id, START + 3600).is_ok());
}

#[test]
fn late_execution_schedules_from_execution_time() {
    let mut s = setup();
    let plan_id = plan(&mut s, 100, 3600, "p");
    let id = s.client.subscribe(s.subscriber, plan_id, 100, START).unwrap();
    let late = START + 10 * 3600 + 17;
    s.client.execute_payment(id, late).unwrap();
    let sub = s.client.get_subscription(id).unwrap();
    assert_eq!(sub.last_payment, late);
    assert_eq!(sub.next_payment, late + 3600);
    assert_eq!(s.client.execute_payment(id, late + 1), Err(PayCycleError::PaymentNotDue));
}

#[test]
fn foreign_pause_and_resume_change_nothing() {
    let mut s = setup();
    let plan_id = plan(&mut s, 100, 3600, "p");
    let id = s.client.subscribe(s.subscriber, plan_id, 100, START).unwrap();
    let other = Address { id: 77 };
    let before = s.client.get_subscription(id).unwrap();
    let n_events = s.client.events().len();
    assert_eq!(s.client.pause(other, id), Err(PayCycleError::NotAuthorized));
    assert_eq!(s.client.cancel(other, id), Err(PayCycleError::NotAuthorized));
    s.client.pause(s.subscriber, id).unwrap();
    assert_eq!(s.client.resume(other, id), Err(PayCycleError::NotAuthorized));
    assert_eq!(s.client.get_subscription(id).unwrap().status, SubscriptionStatus::Paused);
    s.client.resume(s.subscriber, id).unwrap();
    assert_eq!(s.client.get_subscription(id).unwrap(), before);
    assert_eq!(s.client.events().len(), n_events + 2);
}

#[test]
fn fee_rounds_down() {
    assert_eq!(compute_fee(10, 50), 0);
    assert_eq!(compute_fee(1999, 50), 9);
    assert_eq!(compute_fee(2000, 50), 10);
    assert_eq!(compute_fee(100_000_000, 50), 500_000);
    assert_eq!(compute_fee(10_000_000, 50), 50_000);
    assert_eq!(compute_fee(100_000_000, 0), 0);
    assert_eq!(compute_fee(100_000_000, 10_000), 100_000_000);
    assert_eq!(compute_fee(i128::MAX, 10_000), i128::MAX);
    assert_eq!(compute_fee(i128::MAX, 1), i128::MAX / 10_000);
}

#[test]
fn small_payment_has_no_fee_leg() {
    let mut s = setup();
    let plan_id = plan(&mut s, 10, 3600, "tiny");
    let id = s.client.subscribe(s.subscriber, plan_id, 10, START).unwrap();
    let order = s.client.execute_payment(id, START).unwrap();
    assert_eq!(order.amount, 10);
    assert_eq!(order.fee_leg, None);
    assert_eq!(order.merchant_leg.amount, 10);
}

#[test]
fn ten_unit_payment_fee_split() {
    let mut s = setup();
    let plan_id = plan(&mut s, 100_000_000, 3600, "ten");
    let id = s.client.subscribe(s.subscriber, plan_id, 100_000_000, START).unwrap();
    let order = s.client.execute_payment(id, START).unwrap();
    assert_eq!(order.fee_leg.unwrap().amount, 500_000);
    assert_eq!(order.merchant_leg.amount, 99_500_000);
}

#[test]
fn raised_plan_amount_is_capped() {
    let mut s = setup();
    let plan_id = plan(&mut s, 10, 3600, "cap");
    let id = s.client.subscribe(s.subscriber, plan_id, 10, START).unwrap();
    s.client.set_plan_amount(s.merchant, plan_id, 20).unwrap();
    assert_eq!(s.client.get_plan(plan_id).unwrap().amount, 20);
    let order = s.client.execute_payment(id, START).unwrap();
    assert_eq!(order.amount, 10);
    assert_eq!(s.client.events().last(), Some(&Event::PaymentExecuted { subscription_id: id, amount: 10 }));
}

#[test]
fn lowered_plan_amount_is_charged() {
    let mut s = setup();
    let plan_id = plan(&mut s, 10, 3600, "cap");
    let id = s.client.subscribe(s.subscriber, plan_id, 15, START).unwrap();
    s.client.set_plan_amount(s.merchant, plan_id, 4).unwrap();
    assert_eq!(s.client.execute_payment(id, START).unwrap().amount, 4);
}

#[test]
fn resume_keeps_stale_due_date() {
    let mut s = setup();
    let plan_id = plan(&mut s, 100, 3600, "p");
    let id = s.client.subscribe(s.subscriber, plan_id, 100, START).unwrap();
    s.client.execute_payment(id, START).unwrap();
    s.client.pause(s.subscriber, id).unwrap();
    let later = START + 5 * 3600;
    assert_eq!(s.client.execute_payment(id, later), Err(PayCycleError::InvalidStatus));
    s.client.resume(s.subscriber, id).unwrap();
    assert_eq!(s.client.get_subscription(id).unwrap().next_payment, START + 3600);
    assert!(s.client.execute_payment(id, later).is_ok());
    assert_eq!(s.client.get_subscription(id).unwrap().next_payment, later + 3600);
}

#[test]
fn status_errors() {
    let mut s = setup();
    let plan_id = plan(&mut s, 100, 3600, "p");
    let id = s.client.subscribe(s.subscriber, plan_id, 100, START).unwrap();
    assert_eq!(s.client.resume(s.subscriber, id), Err(PayCycleError::InvalidStatus));
    s.client.pause(s.subscriber, id).unwrap();
    assert_eq!(s.client.pause(s.subscriber, id), Err(PayCycleError::InvalidStatus));
    s.client.cancel(s.subscriber, id).unwrap();
    assert_eq!(s.client.cancel(s.subscriber, id), Err(PayCycleError::InvalidStatus));
    assert_eq!(s.client.resume(s.subscriber, id), Err(PayCycleError::InvalidStatus));
    assert_eq!(s.client.pause(s.subscriber, id), Err(PayCycleError::InvalidStatus));
    assert_eq!(s.client.execute_payment(id, START), Err(PayCycleError::InvalidStatus));
}

#[test]
fn missing_subscription_errors() {
    let mut s = setup();
    let who = s.subscriber;
    assert_eq!(s.client.cancel(who, 1), Err(PayCycleError::SubscriptionNotFound));
    assert_eq!(s.client.pause(who, 0), Err(PayCycleError::SubscriptionNotFound));
    assert_eq!(s.client.resume(who, 3), Err(PayCycleError::SubscriptionNotFound));
    assert_eq!(s.client.execute_payment(1, START), Err(PayCycleError::SubscriptionNotFound));
    assert_eq!(s.client.get_subscription(1), Err(PayCycleError::SubscriptionNotFound));
    assert!(matches!(s.client.get_plan(1), Err(PayCycleError::PlanNotFound)));
}

#[test]
fn inactive_plan_blocks_payment() {
    let mut s = setup();
    let plan_id = plan(&mut s, 100, 3600, "p");
    let id = s.client.subscribe(s.subscriber, plan_id, 100, START).unwrap();
    s.client.set_plan_status(s.merchant, plan_id, PlanStatus::Paused).unwrap();
    assert_eq!(s.client.execute_payment(id, START), Err(PayCycleError::PlanInactive));
    s.client.set_plan_status(s.merchant, plan_id, PlanStatus::Active).unwrap();
    assert!(s.client.execute_payment(id, START).is_ok());
}

#[test]
fn plan_amendments_need_the_merchant() {
    let mut s = setup();
    let plan_id = plan(&mut s, 100, 3600, "p");
    let other = Address { id: 9 };
    assert_eq!(s.client.set_plan_amount(other, plan_id, 5), Err(PayCycleError::NotAuthorized));
    assert_eq!(s.client.set_plan_status(other, plan_id, PlanStatus::Paused), Err(PayCycleError::NotAuthorized));
    assert_eq!(s.client.set_plan_amount(s.merchant, plan_id, 0), Err(PayCycleError::AmountTooLow));
    assert_eq!(s.client.set_plan_amount(s.merchant, 2, 5), Err(PayCycleError::PlanNotFound));
    assert_eq!(s.client.get_plan(plan_id).unwrap().amount, 100);
}

#[test]
fn subscriber_count_tracks_live_subscriptions() {
    let mut s = setup();
    let first = plan(&mut s, 100, 3600, "one");
    let second = plan(&mut s, 100, 3600, "two");
    let a = s.subscriber;
    let b = Address { id: 5 };
    let s1 = s.client.subscribe(a, first, 100, START).unwrap();
    let s2 = s.client.subscribe(b, first, 100, START).unwrap();
    let s3 = s.client.subscribe(a, second, 100, START).unwrap();
    assert_eq!((s1, s2, s3), (1, 2, 3));
    assert_eq!(s.client.get_plan(first).unwrap().subscriber_count, 2);
    s.client.pause(b, s2).unwrap();
    assert_eq!(s.client.get_plan(first).unwrap().subscriber_count, 2);
    s.client.cancel(a, s1).unwrap();
    assert_eq!(s.client.get_plan(first).unwrap().subscriber_count, 1);
    assert_eq!(s.client.get_plan(second).unwrap().subscriber_count, 1);
    assert_eq!(s.client.get_plan_subscribers(first), vec![2]);
    assert_eq!(s.client.get_plan_subscribers(second), vec![3]);
    assert_eq!(s.client.get_user_subscriptions(a), vec![1, 3]);
    assert_eq!(s.client.get_user_subscriptions(b), vec![2]);
    assert_eq!(s.client.get_user_subscriptions(Address { id: 42 }), Vec::<u64>::new());
}

#[test]
fn uninitialized_engine_charges_no_fee() {
    let mut client = SubscriptionContract::new();
    let m = Address { id: 3 };
    let u = Address { id: 4 };
    assert!(!client.has(DataKey::Admin));
    assert!(!client.has(DataKey::PlanCount));
    let plan_id = client.create_plan(m, Address { id: 100 }, 100_000_000, 3600, "p".to_string(), 0).unwrap();
    let id = client.subscribe(u, plan_id, 100_000_000, 0).unwrap();
    let order = client.execute_payment(id, 0).unwrap();
    assert_eq!(order.fee_leg, None);
    assert_eq!(order.merchant_leg.amount, 100_000_000);
    assert!(client.has(DataKey::PlanCount));
    assert!(client.has(DataKey::Plan(1)));
    assert!(!client.has(DataKey::Plan(2)));
    assert!(client.has(DataKey::Sub(1)));
    assert!(!client.has(DataKey::Sub(0)));
    assert_eq!(client.get_config(), None);
}

#[test]
fn events_record_each_success_once() {
    let mut s = setup();
    let plan_id = plan(&mut s, 100, 3600, "p");
    let id = s.client.subscribe(s.subscriber, plan_id, 100, START).unwrap();
    s.client.execute_payment(id, START).unwrap();
    let _ = s.client.execute_payment(id, START);
    s.client.pause(s.subscriber, id).unwrap();
    s.client.resume(s.subscriber, id).unwrap();
    s.client.cancel(s.subscriber, id).unwrap();
    let expected = vec![
        Event::PlanCreated { plan_id: 1, merchant: s.merchant },
        Event::Subscribed { subscription_id: 1, subscriber: s.subscriber, plan_id: 1 },
        Event::PaymentExecuted { subscription_id: 1, amount: 100 },
        Event::SubscriptionPaused { subscription_id: 1 },
        Event::SubscriptionResumed { subscription_id: 1 },
        Event::SubscriptionCancelled { subscription_id: 1 },
    ];
    assert_eq!(s.client.events(), &expected);
    assert!(s.client.has(DataKey::FeeBps));
    assert_eq!(s.client.get_config().unwrap().fee_bps, 50);
}
