use vstd::prelude::*;
use crate::errors::PayCycleError;
use crate::events::{
    Event, emit_payment_executed, emit_plan_created, emit_subscribed, emit_subscription_cancelled,
    emit_subscription_paused, emit_subscription_resumed,
};
use crate::fees::{compute_fee, BPS_DENOMINATOR, MIN_INTERVAL};
use crate::model::{
    Config, ContractView, PaymentOrder, Transfer, lemma_live_count_none, lemma_live_count_push,
    lemma_live_count_update, lemma_live_ids_len, live_sub_ids, user_sub_ids,
};
use crate::types::{Address, DataKey, PlanData, PlanStatus, SubscriptionData, SubscriptionStatus};

verus! {

/// The batch driver that triggers due payments. Its work is done by the host,
/// which calls `SubscriptionContract::execute_payment` for each id.
pub struct KeeperContract;

/// The loyalty token that could reward completed payments; it has no
/// operations in this engine.
pub struct PayCycleToken;

/// The subscription engine: its configuration, its plans and subscriptions
/// (id `k` at index `k - 1`), and the events recorded so far.
#[derive(Clone, Debug)]
pub struct SubscriptionContract {
    config: Option<Config>,
    plans: Vec<PlanData>,
    subs: Vec<SubscriptionData>,
    events: Vec<Event>,
}

impl View for SubscriptionContract {
    type V = ContractView;

    closed spec fn view(&self) -> ContractView {
        ContractView { config: self.config, plans: self.plans@, subs: self.subs@, events: self.events@ }
    }
}

impl SubscriptionContract {
    /// An engine with no configuration, plans, subscriptions or events.
    pub fn new() -> (r: Self)
        ensures
            r@ == ContractView::empty(),
            r@.wf(),
    {
        let r = SubscriptionContract { config: None, plans: Vec::new(), subs: Vec::new(), events: Vec::new() };
        assert(r.plans@ =~= Seq::empty());
        assert(r.subs@ =~= Seq::empty());
        assert(r.events@ =~= Seq::empty());
        r
    }

    /// Sets the admin, the fee rate and the fee collector; only the first
    /// call succeeds.
    pub fn initialize(&mut self, admin: Address, fee_bps: u32, fee_collector: Address) -> (r: Result<(), PayCycleError>)
        requires
            old(self)@.wf(),
            fee_bps <= BPS_DENOMINATOR,
        ensures
            (final(self)@, r) == old(self)@.initialize_step(admin, fee_bps, fee_collector),
            final(self)@.wf(),
    {
        if self.config.is_some() {
            return Err(PayCycleError::AlreadyInitialized);
        }
        self.config = Some(Config { admin, fee_bps, fee_collector });
        Ok(())
    }

    /// Publishes a plan for `merchant`, who the host has authenticated, and
    /// returns its id, one more than the number of plans so far.
    pub fn create_plan(
        &mut self,
        merchant: Address,
        token: Address,
        amount: i128,
        interval: u64,
        name: String,
        now: u64,
    ) -> (r: Result<u64, PayCycleError>)
        requires
            old(self)@.wf(),
            old(self)@.plans.len() < u64::MAX,
        ensures
            (final(self)@, r) == old(self)@.create_plan_step(merchant, token, amount, interval, name, now),
            final(self)@.wf(),
    {
        if amount <= 0 {
            return Err(PayCycleError::AmountTooLow);
        }
        if interval < MIN_INTERVAL {
            return Err(PayCycleError::IntervalTooShort);
        }
        let ghost s0 = self@;
        let plan_id: u64 = self.plans.len() as u64 + 1;
        self.plans.push(
            PlanData {
                merchant,
                token,
                amount,
                interval,
                name,
                status: PlanStatus::Active,
                subscriber_count: 0,
                created_at: now,
            },
        );
        emit_plan_created(&mut self.events, plan_id, merchant);
        proof {
            lemma_live_count_none(s0.subs, plan_id);
            assert(self@.wf());
        }
        Ok(plan_id)
    }

    /// Binds `subscriber`, who the host has authenticated, to `plan_id` under
    /// the cap `max_amount`, with the first payment due at `now`.
    pub fn subscribe(&mut self, subscriber: Address, plan_id: u64, max_amount: i128, now: u64) -> (r: Result<u64, PayCycleError>)
        requires
            old(self)@.wf(),
            old(self)@.subscribe_fits(plan_id),
        ensures
            (final(self)@, r) == old(self)@.subscribe_step(subscriber, plan_id, max_amount, now),
            final(self)@.wf(),
    {
        if plan_id == 0 || plan_id > self.plans.len() as u64 {
            return Err(PayCycleError::PlanNotFound);
        }
        let pi = (plan_id - 1) as usize;
        if self.plans[pi].status != PlanStatus::Active {
            return Err(PayCycleError::PlanInactive);
        }
        if max_amount < self.plans[pi].amount {
            return Err(PayCycleError::ExceedsSpendingCap);
        }
        let ghost s0 = self@;
        let subscription_id: u64 = self.subs.len() as u64 + 1;
        let sub = SubscriptionData {
            subscriber,
            plan_id,
            max_amount,
            status: SubscriptionStatus::Active,
            last_payment: 0,
            next_payment: now,
            payments_made: 0,
            created_at: now,
        };
        self.subs.push(sub);
        let count = self.plans[pi].subscriber_count;
        self.plans[pi].subscriber_count = count + 1;
        emit_subscribed(&mut self.events, subscription_id, subscriber, plan_id);
        proof {
            assert forall|i: int| 0 <= i < self@.plans.len() implies (#[trigger] self@.plans[i]).subscriber_count
                == crate::model::live_count(self@.subs, (i + 1) as u64) by {
                lemma_live_count_push(s0.subs, sub, (i + 1) as u64);
            }
        }
        Ok(subscription_id)
    }

    /// Looks up `subscription_id` for `subscriber`: its index, or why
    /// `subscriber` may not manage it.
    fn owned_index(&self, subscriber: Address, subscription_id: u64) -> (r: Result<usize, PayCycleError>)
        ensures
            match r {
                Ok(i) => self@.access_error(subscriber, subscription_id) is None && i == subscription_id - 1,
                Err(e) => self@.access_error(subscriber, subscription_id) == Some(e),
            },
    {
        if subscription_id == 0 || subscription_id > self.subs.len() as u64 {
            return Err(PayCycleError::SubscriptionNotFound);
        }
        let si = (subscription_id - 1) as usize;
        if self.subs[si].subscriber != subscriber {
            return Err(PayCycleError::NotAuthorized);
        }
        Ok(si)
    }

    /// Sets the status of subscription `si + 1`, keeping the subscriber
    /// counts of its plan as they are.
    fn set_status(&mut self, si: usize, status: SubscriptionStatus)
        requires
            old(self)@.wf(),
            si < old(self)@.subs.len(),
            (old(self)@.subs[si as int].status == SubscriptionStatus::Cancelled) == (status == SubscriptionStatus::Cancelled),
        ensures
            final(self)@ == (ContractView { subs: old(self)@.with_status((si + 1) as u64, status), ..old(self)@ }),
            final(self)@.wf(),
    {
        let ghost s0 = self@;
        let sub = self.subs[si];
        let changed = SubscriptionData { status, ..sub };
        self.subs[si] = changed;
        proof {
            assert forall|i: int| 0 <= i < self@.plans.len() implies (#[trigger] self@.plans[i]).subscriber_count
                == crate::model::live_count(self@.subs, (i + 1) as u64) by {
                lemma_live_count_update(s0.subs, si as int, changed, (i + 1) as u64);
            }
        }
    }

    /// Cancels `subscription_id` for its owner and lowers its plan's
    /// subscriber count.
    pub fn cancel(&mut self, subscriber: Address, subscription_id: u64) -> (r: Result<(), PayCycleError>)
        requires
            old(self)@.wf(),
        ensures
            (final(self)@, r) == old(self)@.cancel_step(subscriber, subscription_id),
            final(self)@.wf(),
    {
        let si = match self.owned_index(subscriber, subscription_id) {
            Ok(si) => si,
            Err(e) => return Err(e),
        };
        let sub = self.subs[si];
        if sub.status == SubscriptionStatus::Cancelled {
            return Err(PayCycleError::InvalidStatus);
        }
        let ghost s0 = self@;
        proof {
            assert(s0.subs[si as int] == sub);
            assert(sub.plan_id <= self.plans.len());
        }
        let changed = SubscriptionData { status: SubscriptionStatus::Cancelled, ..sub };
        self.subs[si] = changed;
        let pi = (sub.plan_id - 1) as usize;
        let count = self.plans[pi].subscriber_count;
        self.plans[pi].subscriber_count = if count > 0 {
            count - 1
        } else {
            0
        };
        emit_subscription_cancelled(&mut self.events, subscription_id);
        proof {
            assert forall|i: int| 0 <= i < self@.plans.len() implies (#[trigger] self@.plans[i]).subscriber_count
                == crate::model::live_count(self@.subs, (i + 1) as u64) by {
                lemma_live_count_update(s0.subs, si as int, changed, (i + 1) as u64);
            }
        }
        Ok(())
    }

    /// Pauses an active `subscription_id` for its owner; its due date stays.
    pub fn pause(&mut self, subscriber: Address, subscription_id: u64) -> (r: Result<(), PayCycleError>)
        requires
            old(self)@.wf(),
        ensures
            (final(self)@, r) == old(self)@.pause_step(subscriber, subscription_id),
            final(self)@.wf(),
    {
        let si = match self.owned_index(subscriber, subscription_id) {
            Ok(si) => si,
            Err(e) => return Err(e),
        };
        if self.subs[si].status != SubscriptionStatus::Active {
            return Err(PayCycleError::InvalidStatus);
        }
        self.set_status(si, SubscriptionStatus::Paused);
        emit_subscription_paused(&mut self.events, subscription_id);
        Ok(())
    }

    /// Resumes a paused `subscription_id` for its owner, with the due date it
    /// had when paused.
    pub fn resume(&mut self, subscriber: Address, subscription_id: u64) -> (r: Result<(), PayCycleError>)
        requires
            old(self)@.wf(),
        ensures
            (final(self)@, r) == old(self)@.resume_step(subscriber, subscription_id),
            final(self)@.wf(),
    {
        let si = match self.owned_index(subscriber, subscription_id) {
            Ok(si) => si,
            Err(e) => return Err(e),
        };
        if self.subs[si].status != SubscriptionStatus::Paused {
            return Err(PayCycleError::InvalidStatus);
        }
        self.set_status(si, SubscriptionStatus::Active);
        emit_subscription_resumed(&mut self.events, subscription_id);
        Ok(())
    }

    /// Executes the payment of `subscription_id` due by `now`: records it,
    /// schedules the next one an interval after `now`, and returns the
    /// transfers for the host to perform. Anyone may call it.
    pub fn execute_payment(&mut self, subscription_id: u64, now: u64) -> (r: Result<PaymentOrder, PayCycleError>)
        requires
            old(self)@.wf(),
            old(self)@.execution_fits(subscription_id, now),
        ensures
            (final(self)@, r) == old(self)@.execute_payment_step(subscription_id, now),
            final(self)@.wf(),
    {
        if subscription_id == 0 || subscription_id > self.subs.len() as u64 {
            return Err(PayCycleError::SubscriptionNotFound);
        }
        let si = (subscription_id - 1) as usize;
        let sub = self.subs[si];
        if sub.status != SubscriptionStatus::Active {
            return Err(PayCycleError::InvalidStatus);
        }
        if now < sub.next_payment {
            return Err(PayCycleError::PaymentNotDue);
        }
        if sub.plan_id == 0 || sub.plan_id > self.plans.len() as u64 {
            return Err(PayCycleError::PlanNotFound);
        }
        let pi = (sub.plan_id - 1) as usize;
        if self.plans[pi].status != PlanStatus::Active {
            return Err(PayCycleError::PlanInactive);
        }
        let ghost s0 = self@;
        let plan_amount = self.plans[pi].amount;
        let interval = self.plans[pi].interval;
        let merchant = self.plans[pi].merchant;
        let token = self.plans[pi].token;
        let amount = if plan_amount > sub.max_amount {
            sub.max_amount
        } else {
            plan_amount
        };
        let fee_bps: u32 = match self.config {
            Some(c) => c.fee_bps,
            None => 0,
        };
        let fee = compute_fee(amount, fee_bps);
        let fee_leg = if fee > 0 {
            match self.config {
                Some(c) => Some(Transfer { from: sub.subscriber, to: c.fee_collector, amount: fee }),
                None => None,
            }
        } else {
            None
        };
        let order = PaymentOrder {
            token,
            amount,
            merchant_leg: Transfer { from: sub.subscriber, to: merchant, amount: amount - fee },
            fee_leg,
        };
        let paid = SubscriptionData {
            last_payment: now,
            next_payment: now + interval,
            payments_made: sub.payments_made + 1,
            ..sub
        };
        self.subs[si] = paid;
        emit_payment_executed(&mut self.events, subscription_id, amount);
        proof {
            assert forall|i: int| 0 <= i < self@.plans.len() implies (#[trigger] self@.plans[i]).subscriber_count
                == crate::model::live_count(self@.subs, (i + 1) as u64) by {
                lemma_live_count_update(s0.subs, si as int, paid, (i + 1) as u64);
            }
        }
        Ok(order)
    }

    /// Amends the amount of `plan_id` for its merchant. Subscriptions keep the
    /// cap they were bound with; the amount stays positive, as at creation.
    pub fn set_plan_amount(&mut self, merchant: Address, plan_id: u64, amount: i128) -> (r: Result<(), PayCycleError>)
        requires
            old(self)@.wf(),
        ensures
            (final(self)@, r) == old(self)@.set_plan_amount_step(merchant, plan_id, amount),
            final(self)@.wf(),
    {
        let pi = match self.owned_plan_index(merchant, plan_id) {
            Ok(pi) => pi,
            Err(e) => return Err(e),
        };
        if amount <= 0 {
            return Err(PayCycleError::AmountTooLow);
        }
        self.plans[pi].amount = amount;
        Ok(())
    }

    /// Sets the status of `plan_id` for its merchant.
    pub fn set_plan_status(&mut self, merchant: Address, plan_id: u64, status: PlanStatus) -> (r: Result<(), PayCycleError>)
        requires
            old(self)@.wf(),
        ensures
            (final(self)@, r) == old(self)@.set_plan_status_step(merchant, plan_id, status),
            final(self)@.wf(),
    {
        let pi = match self.owned_plan_index(merchant, plan_id) {
            Ok(pi) => pi,
            Err(e) => return Err(e),
        };
        self.plans[pi].status = status;
        Ok(())
    }

    /// Looks up `plan_id` for `merchant`: its index, or why `merchant` may not
    /// amend it.
    fn owned_plan_index(&self, merchant: Address, plan_id: u64) -> (r: Result<usize, PayCycleError>)
        ensures
            match r {
                Ok(i) => self@.plan_access_error(merchant, plan_id) is None && i == plan_id - 1,
                Err(e) => self@.plan_access_error(merchant, plan_id) == Some(e),
            },
    {
        if plan_id == 0 || plan_id > self.plans.len() as u64 {
            return Err(PayCycleError::PlanNotFound);
        }
        let pi = (plan_id - 1) as usize;
        if self.plans[pi].merchant != merchant {
            return Err(PayCycleError::NotAuthorized);
        }
        Ok(pi)
    }

    /// The plan `plan_id`.
    pub fn get_plan(&self, plan_id: u64) -> (r: Result<&PlanData, PayCycleError>)
        ensures
            match r {
                Ok(p) => self@.has_plan(plan_id) && *p == self@.plan(plan_id),
                Err(e) => !self@.has_plan(plan_id) && e == PayCycleError::PlanNotFound,
            },
    {
        if plan_id == 0 || plan_id > self.plans.len() as u64 {
            return Err(PayCycleError::PlanNotFound);
        }
        Ok(&self.plans[(plan_id - 1) as usize])
    }

    /// The subscription `subscription_id`.
    pub fn get_subscription(&self, subscription_id: u64) -> (r: Result<SubscriptionData, PayCycleError>)
        ensures
            r == if self@.has_sub(subscription_id) {
                Ok(self@.sub(subscription_id))
            } else {
                Err(PayCycleError::SubscriptionNotFound)
            },
    {
        if subscription_id == 0 || subscription_id > self.subs.len() as u64 {
            return Err(PayCycleError::SubscriptionNotFound);
        }
        Ok(self.subs[(subscription_id - 1) as usize])
    }

    /// The ids of the subscriptions of `user`, in increasing order.
    pub fn get_user_subscriptions(&self, user: Address) -> (r: Vec<u64>)
        requires
            self@.wf(),
        ensures
            r@ == user_sub_ids(self@.subs, user),
    {
        let mut r: Vec<u64> = Vec::new();
        let n = self.subs.len();
        let mut j: usize = 0;
        while j < n
            invariant
                self@.wf(),
                n == self@.subs.len(),
                j <= n,
                r@ == user_sub_ids(self@.subs.take(j as int), user),
            decreases n - j,
        {
            assert(self@.subs.take(j + 1).drop_last() =~= self@.subs.take(j as int));
            if self.subs[j].subscriber == user {
                r.push(j as u64 + 1);
            }
            j = j + 1;
        }
        assert(self@.subs.take(n as int) =~= self@.subs);
        r
    }

    /// The ids of the subscriptions to `plan_id` that are not cancelled, in
    /// increasing order.
    pub fn get_plan_subscribers(&self, plan_id: u64) -> (r: Vec<u64>)
        requires
            self@.wf(),
        ensures
            r@ == live_sub_ids(self@.subs, plan_id),
            self@.has_plan(plan_id) ==> r@.len() == self@.plan(plan_id).subscriber_count,
    {
        let mut r: Vec<u64> = Vec::new();
        let n = self.subs.len();
        let mut j: usize = 0;
        while j < n
            invariant
                self@.wf(),
                n == self@.subs.len(),
                j <= n,
                r@ == live_sub_ids(self@.subs.take(j as int), plan_id),
            decreases n - j,
        {
            assert(self@.subs.take(j + 1).drop_last() =~= self@.subs.take(j as int));
            if self.subs[j].plan_id == plan_id && self.subs[j].status != SubscriptionStatus::Cancelled {
                r.push(j as u64 + 1);
            }
            j = j + 1;
        }
        assert(self@.subs.take(n as int) =~= self@.subs);
        proof {
            lemma_live_ids_len(self@.subs, plan_id);
            if self@.has_plan(plan_id) {
                assert(self@.plans[plan_id - 1] == self@.plan(plan_id));
            }
        }
        r
    }

    /// The number of plans created so far, which is also the last plan id.
    pub fn get_plan_count(&self) -> (r: u64)
        requires
            self@.wf(),
        ensures
            r == self@.plans.len(),
    {
        self.plans.len() as u64
    }

    /// The number of subscriptions created so far, which is also the last
    /// subscription id.
    pub fn get_sub_count(&self) -> (r: u64)
        requires
            self@.wf(),
        ensures
            r == self@.subs.len(),
    {
        self.subs.len() as u64
    }

    /// The configuration, once initialized.
    pub fn get_config(&self) -> (r: Option<Config>)
        ensures
            r == self@.config,
    {
        self.config
    }

    /// The events recorded so far, oldest first.
    pub fn events(&self) -> (r: &Vec<Event>)
        ensures
            r@ == self@.events,
    {
        &self.events
    }

    /// Whether a record is stored under `key`.
    pub fn has(&self, key: DataKey) -> (r: bool)
        ensures
            r == match key {
                DataKey::Admin | DataKey::FeeBps | DataKey::FeeCollector => self@.config is Some,
                DataKey::PlanCount => self@.config is Some || self@.plans.len() > 0,
                DataKey::SubCount => self@.config is Some || self@.subs.len() > 0,
                DataKey::Plan(id) => self@.has_plan(id),
                DataKey::Sub(id) => self@.has_sub(id),
            },
    {
        match key {
            DataKey::Admin | DataKey::FeeBps | DataKey::FeeCollector => self.config.is_some(),
            DataKey::PlanCount => self.config.is_some() || self.plans.len() > 0,
            DataKey::SubCount => self.config.is_some() || self.subs.len() > 0,
            DataKey::Plan(id) => 1 <= id && id <= self.plans.len() as u64,
            DataKey::Sub(id) => 1 <= id && id <= self.subs.len() as u64,
        }
    }
}

} // verus!
