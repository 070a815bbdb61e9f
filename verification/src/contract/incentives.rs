//! Manufacturer incentives: creation, updates, reward calculation, claims
//! and queries.
use vstd::prelude::*;
use crate::contract::{
    check_not_paused, check_only_manufacturer, check_only_registered, check_require_registered, commits, either,
    incentive_of, material_of, ContractState, ScavengerContract,
};
use crate::contract::rewards::{apply_ledger, credit, ledger_of, lemma_credit_keyed, Ledger};
use crate::errors::{Error, Fault, Panic};
use crate::events::ContractEvent;
use crate::types::{Address, Incentive, WasteType};

verus! {

broadcast use vstd::std_specs::hash::group_hash_axioms;

pub open spec fn create_fault(s: ContractState, rewarder: Address) -> Option<Fault> {
    either(
        check_not_paused(s),
        either(
            check_only_manufacturer(s, rewarder),
            if s.incentives.len() >= u64::MAX {
                Some(Fault::Panic(Panic::ArithmeticOverflow))
            } else {
                None
            },
        ),
    )
}

/// The incentive a creation makes: active, with its whole budget remaining.
pub open spec fn new_incentive(
    s: ContractState,
    rewarder: Address,
    waste_type: WasteType,
    reward_points: u64,
    total_budget: u64,
    now: u64,
) -> Incentive {
    Incentive {
        id: (s.incentives.len() + 1) as u64,
        rewarder,
        waste_type,
        reward_points,
        total_budget,
        remaining_budget: total_budget,
        active: true,
        created_at: now,
    }
}

/// The state with incentive `inc` replaced.
pub open spec fn with_incentive(s: ContractState, inc: Incentive) -> ContractState {
    ContractState { incentives: s.incentives.update(inc.id - 1, inc), ..s }
}

/// An existing incentive whose creator is still registered.
pub open spec fn owned_incentive_fault(s: ContractState, id: u64) -> Option<Fault> {
    either(
        check_not_paused(s),
        match incentive_of(s, id) {
            None => Some(Fault::Panic(Panic::IncentiveNotFound)),
            Some(inc) => check_require_registered(s, inc.rewarder),
        },
    )
}

pub open spec fn update_fault(s: ContractState, id: u64, points: u64, budget: u64) -> Option<Fault> {
    either(
        owned_incentive_fault(s, id),
        if !incentive_of(s, id)->0.active {
            Some(Fault::Panic(Panic::IncentiveNotActive))
        } else if points == 0 {
            Some(Fault::Panic(Panic::RewardNotPositive))
        } else if budget == 0 {
            Some(Fault::Panic(Panic::BudgetNotPositive))
        } else {
            None
        },
    )
}

/// New points and budget; what was already spent stays spent, and an
/// incentive whose new budget does not exceed the spent amount is closed.
pub open spec fn updated_incentive(inc: Incentive, points: u64, budget: u64) -> Incentive {
    let used = inc.total_budget - inc.remaining_budget;
    if budget > used {
        Incentive { reward_points: points, total_budget: budget, remaining_budget: (budget - used) as u64, ..inc }
    } else {
        Incentive { reward_points: points, total_budget: budget, remaining_budget: 0, active: false, ..inc }
    }
}

/// Reward for `amount` grams: whole kilograms times the points, capped by the
/// remaining budget; nothing for an inactive incentive.
pub open spec fn incentive_reward(inc: Incentive, amount: u64) -> u64 {
    if !inc.active {
        0
    } else if (amount / 1000) * inc.reward_points > inc.remaining_budget {
        inc.remaining_budget
    } else {
        ((amount / 1000) * inc.reward_points) as u64
    }
}

/// Points a claim for `amount` grams earns: whole kilograms times the
/// incentive's points, before any budget is considered.
pub open spec fn claim_points(inc: Incentive, amount: u64) -> int {
    (amount / 1000) * inc.reward_points
}

/// The reward computation overflows `u64`.
pub open spec fn reward_overflows(inc: Incentive, amount: u64) -> bool {
    inc.active && (amount / 1000) * inc.reward_points > u64::MAX
}

pub open spec fn calculate_fault(s: ContractState, id: u64, amount: u64) -> Option<Fault> {
    match incentive_of(s, id) {
        None => Some(Fault::Panic(Panic::IncentiveNotFound)),
        Some(inc) => if reward_overflows(inc, amount) {
            Some(Fault::Panic(Panic::ArithmeticOverflow))
        } else {
            None
        },
    }
}

/// Candidates of a waste type: active incentives of that type.
pub open spec fn is_open_for(waste_type: WasteType) -> spec_fn(Incentive) -> bool {
    |i: Incentive| i.active && i.waste_type == waste_type
}

/// Order of the ranked list: more points first, older first among equals.
pub open spec fn ranks_before(a: Incentive, b: Incentive) -> bool {
    a.reward_points > b.reward_points || (a.reward_points == b.reward_points && a.id < b.id)
}

pub open spec fn ranked(r: Seq<Incentive>) -> bool {
    forall|i: int, j: int| 0 <= i < j < r.len() ==> ranks_before(#[trigger] r[i], #[trigger] r[j])
}

pub open spec fn is_active_incentive() -> spec_fn(Incentive) -> bool {
    |i: Incentive| i.active
}

pub open spec fn created_by(rewarder: Address) -> spec_fn(Incentive) -> bool {
    |i: Incentive| i.rewarder == rewarder
}

/// Candidates of a manufacturer and waste type: active incentives of both.
pub open spec fn offered_by(rewarder: Address, waste_type: WasteType) -> spec_fn(Incentive) -> bool {
    |i: Incentive| i.rewarder == rewarder && i.active && i.waste_type == waste_type
}

/// The best offer among `cands`: the most points, the oldest among equals;
/// `None` exactly when there is no candidate.
pub open spec fn best_offer(cands: Seq<Incentive>, r: Option<Incentive>) -> bool {
    match r {
        None => cands.len() == 0,
        Some(c) => exists|k: int| is_best_at(cands, c, k),
    }
}

/// `c` is the candidate at `k`, offers the most points, and every earlier
/// candidate offers fewer.
pub open spec fn is_best_at(cands: Seq<Incentive>, c: Incentive, k: int) -> bool {
    &&& 0 <= k < cands.len()
    &&& cands[k] == c
    &&& forall|i: int| 0 <= i < cands.len() ==> (#[trigger] cands[i]).reward_points <= c.reward_points
    &&& forall|i: int| 0 <= i < k ==> (#[trigger] cands[i]).reward_points < c.reward_points
}

pub open spec fn claim_fault(s: ContractState, incentive_id: u64, material_id: u64, claimer: Address) -> Option<Fault> {
    either(
        check_not_paused(s),
        either(
            check_only_registered(s, claimer),
            match incentive_of(s, incentive_id) {
                None => Some(Fault::Panic(Panic::IncentiveNotFound)),
                Some(inc) => if !inc.active {
                    Some(Fault::Panic(Panic::IncentiveNotActive))
                } else {
                    match material_of(s, material_id) {
                        None => Some(Fault::Panic(Panic::MaterialNotFound)),
                        Some(m) => if !m.verified {
                            Some(Fault::Panic(Panic::MaterialNotVerified))
                        } else if m.waste_type != inc.waste_type {
                            Some(Fault::Panic(Panic::WasteTypeMismatch))
                        } else if reward_overflows(inc, m.weight) {
                            Some(Fault::Panic(Panic::ArithmeticOverflow))
                        } else if claim_points(inc, m.weight) == 0 {
                            Some(Fault::Panic(Panic::NoRewardAvailable))
                        } else if claim_points(inc, m.weight) > inc.remaining_budget {
                            Some(Fault::Error(Error::InsufficientBudget))
                        } else {
                            match credit(ledger_of(s), claimer, claim_points(inc, m.weight) as u64) {
                                Err(f) => Some(f),
                                Ok(_) => None,
                            }
                        }
                    }
                },
            },
        ),
    )
}

/// The incentive after paying `reward`: closed when its budget runs out.
pub open spec fn drawn(inc: Incentive, reward: u64) -> Incentive {
    let left = if inc.remaining_budget >= reward { (inc.remaining_budget - reward) as u64 } else { 0 };
    Incentive { remaining_budget: left, active: inc.active && left != 0, ..inc }
}

pub open spec fn claim_reward(s: ContractState, incentive_id: u64, material_id: u64) -> u64 {
    claim_points(incentive_of(s, incentive_id)->0, material_of(s, material_id)->0.weight) as u64
}

pub open spec fn claim_after(s: ContractState, incentive_id: u64, material_id: u64, claimer: Address) -> ContractState {
    let inc = incentive_of(s, incentive_id)->0;
    let reward = claim_reward(s, incentive_id, material_id);
    apply_ledger(with_incentive(s, drawn(inc, reward)), credit(ledger_of(s), claimer, reward)->Ok_0)
}

pub open spec fn deactivate_incentive_fault(s: ContractState, id: u64, rewarder: Address) -> Option<Fault> {
    either(
        check_not_paused(s),
        either(
            check_require_registered(s, rewarder),
            match incentive_of(s, id) {
                None => Some(Fault::Panic(Panic::IncentiveNotFound)),
                Some(inc) => if inc.rewarder != rewarder {
                    Some(Fault::Panic(Panic::OnlyCreatorDeactivates))
                } else {
                    None
                },
            },
        ),
    )
}

impl ScavengerContract {
    /// Replaces the incentive at position `i`.
    pub(crate) fn put_incentive(&mut self, i: usize, inc: Incentive)
        requires
            old(self).wf(),
            i < old(self)@.incentives.len(),
            inc.id == i + 1,
            inc.remaining_budget <= inc.total_budget,
        ensures
            final(self).wf(),
            final(self)@ == with_incentive(old(self)@, inc),
    {
        self.incentives.set(i, inc);
        assert(self@ =~= with_incentive(old(self)@, inc));
    }

    pub(crate) fn incentive_index(&self, id: u64) -> (r: Option<usize>)
        requires
            self.wf(),
        ensures
            match r {
                Some(i) => incentive_of(self@, id) is Some && i == id - 1 && i < self@.incentives.len()
                    && self@.incentives[i as int] == incentive_of(self@, id)->0,
                None => incentive_of(self@, id) is None,
            },
    {
        if id == 0 || id as u128 > self.incentives.len() as u128 {
            None
        } else {
            Some((id - 1) as usize)
        }
    }

    /// Creates an incentive (a registered manufacturer only).
    pub fn create_incentive(
        &mut self,
        rewarder: Address,
        waste_type: WasteType,
        reward_points: u64,
        total_budget: u64,
        now: u64,
    ) -> (r: Result<Incentive, Fault>)
        requires
            old(self).wf(),
        ensures
            final(self).wf(),
            commits(old(self)@, final(self)@, r, create_fault(old(self)@, rewarder),
                ContractState {
                    incentives: old(self)@.incentives.push(
                        new_incentive(old(self)@, rewarder, waste_type, reward_points, total_budget, now),
                    ),
                    ..old(self)@
                },
                new_incentive(old(self)@, rewarder, waste_type, reward_points, total_budget, now)),
    {
        if let Some(f) = self.check_not_paused() {
            return Err(f);
        }
        if let Some(f) = self.check_only_manufacturer(rewarder) {
            return Err(f);
        }
        if self.incentives.len() as u64 >= u64::MAX {
            return Err(Fault::Panic(Panic::ArithmeticOverflow));
        }
        let inc = Incentive {
            id: self.incentives.len() as u64 + 1,
            rewarder,
            waste_type,
            reward_points,
            total_budget,
            remaining_budget: total_budget,
            active: true,
            created_at: now,
        };
        self.incentives.push(inc);
        Ok(inc)
    }

    /// The incentive with the given ID, if any.
    pub fn get_incentive_by_id(&self, incentive_id: u64) -> (r: Option<Incentive>)
        requires
            self.wf(),
        ensures
            r == incentive_of(self@, incentive_id),
    {
        match self.incentive_index(incentive_id) {
            None => None,
            Some(i) => Some(self.incentives[i]),
        }
    }

    /// Whether an incentive has the given ID.
    pub fn incentive_exists(&self, incentive_id: u64) -> (r: bool)
        requires
            self.wf(),
        ensures
            r == incentive_of(self@, incentive_id) is Some,
    {
        self.incentive_index(incentive_id).is_some()
    }

    /// Switches an incentive on or off (its creator, who must be registered).
    pub fn update_incentive_status(&mut self, incentive_id: u64, is_active: bool) -> (r: Result<Incentive, Fault>)
        requires
            old(self).wf(),
        ensures
            final(self).wf(),
            commits(old(self)@, final(self)@, r, owned_incentive_fault(old(self)@, incentive_id),
                with_incentive(old(self)@, Incentive { active: is_active, ..incentive_of(old(self)@, incentive_id)->0 }),
                Incentive { active: is_active, ..incentive_of(old(self)@, incentive_id)->0 }),
    {
        if let Some(f) = self.check_not_paused() {
            return Err(f);
        }
        let i = match self.incentive_index(incentive_id) {
            None => return Err(Fault::Panic(Panic::IncentiveNotFound)),
            Some(i) => i,
        };
        let inc = self.incentives[i];
        if let Some(f) = self.check_require_registered(inc.rewarder) {
            return Err(f);
        }
        let updated = Incentive { active: is_active, ..inc };
        self.put_incentive(i, updated);
        Ok(updated)
    }

    /// Changes an active incentive's points and budget (its creator).
    pub fn update_incentive(
        &mut self,
        incentive_id: u64,
        new_reward_points: u64,
        new_total_budget: u64,
    ) -> (r: Result<Incentive, Fault>)
        requires
            old(self).wf(),
        ensures
            final(self).wf(),
            commits(old(self)@, final(self)@, r,
                update_fault(old(self)@, incentive_id, new_reward_points, new_total_budget),
                ContractState {
                    events: old(self)@.events.push(
                        ContractEvent::IncentiveUpdated {
                            incentive_id,
                            rewarder: incentive_of(old(self)@, incentive_id)->0.rewarder,
                            new_reward_points,
                            new_total_budget,
                        },
                    ),
                    ..with_incentive(old(self)@,
                        updated_incentive(incentive_of(old(self)@, incentive_id)->0, new_reward_points, new_total_budget))
                },
                updated_incentive(incentive_of(old(self)@, incentive_id)->0, new_reward_points, new_total_budget)),
    {
        if let Some(f) = self.check_not_paused() {
            return Err(f);
        }
        let i = match self.incentive_index(incentive_id) {
            None => return Err(Fault::Panic(Panic::IncentiveNotFound)),
            Some(i) => i,
        };
        let inc = self.incentives[i];
        if let Some(f) = self.check_require_registered(inc.rewarder) {
            return Err(f);
        }
        if !inc.active {
            return Err(Fault::Panic(Panic::IncentiveNotActive));
        }
        if new_reward_points == 0 {
            return Err(Fault::Panic(Panic::RewardNotPositive));
        }
        if new_total_budget == 0 {
            return Err(Fault::Panic(Panic::BudgetNotPositive));
        }
        let used = inc.total_budget - inc.remaining_budget;
        let updated = if new_total_budget > used {
            Incentive {
                reward_points: new_reward_points,
                total_budget: new_total_budget,
                remaining_budget: new_total_budget - used,
                ..inc
            }
        } else {
            Incentive {
                reward_points: new_reward_points,
                total_budget: new_total_budget,
                remaining_budget: 0,
                active: false,
                ..inc
            }
        };
        self.put_incentive(i, updated);
        self.events.push(ContractEvent::IncentiveUpdated {
            incentive_id,
            rewarder: inc.rewarder,
            new_reward_points,
            new_total_budget,
        });
        Ok(updated)
    }

    /// Reward of an incentive for `waste_amount` grams (0 when inactive).
    pub fn calculate_incentive_reward(&self, incentive_id: u64, waste_amount: u64) -> (r: Result<u64, Fault>)
        requires
            self.wf(),
        ensures
            match calculate_fault(self@, incentive_id, waste_amount) {
                Some(f) => r == Err::<u64, Fault>(f),
                None => r == Ok::<u64, Fault>(incentive_reward(incentive_of(self@, incentive_id)->0, waste_amount)),
            },
            incentive_of(self@, incentive_id) matches Some(inc) && !inc.active ==> r == Ok::<u64, Fault>(0),
    {
        let i = match self.incentive_index(incentive_id) {
            None => return Err(Fault::Panic(Panic::IncentiveNotFound)),
            Some(i) => i,
        };
        reward_for(&self.incentives[i], waste_amount)
    }

    /// Active incentives of a waste type, most points first (older first among equals).
    pub fn get_incentives_by_waste_type(&self, waste_type: WasteType) -> (r: Vec<Incentive>)
        requires
            self.wf(),
        ensures
            ranked(r@),
            forall|x: Incentive| r@.contains(x) <==> self@.incentives.filter(is_open_for(waste_type)).contains(x),
    {
        let ghost pred = is_open_for(waste_type);
        let mut results: Vec<Incentive> = Vec::new();
        let mut i: usize = 0;
        while i < self.incentives.len()
            invariant
                i <= self.incentives.len(),
                self.wf(),
                pred == is_open_for(waste_type),
                ranked(results@),
                forall|x: Incentive| results@.contains(x) <==> self@.incentives.take(i as int).filter(pred).contains(x),
                forall|k: int| 0 <= k < results@.len() ==> (#[trigger] results@[k]).id <= i,
            decreases self.incentives.len() - i,
        {
            let inc = self.incentives[i];
            proof {
                broadcast use vstd::seq_lib::group_filter_ensures;
                self@.incentives.take(i as int).lemma_filter_push(inc, pred);
                assert(self@.incentives.take(i as int).push(inc) =~= self@.incentives.take(i + 1));
                assert(inc.id == i + 1);
            }
            let ghost before = results@;
            let ghost filtered = self@.incentives.take(i as int).filter(pred);
            if inc.waste_type == waste_type && inc.active {
                let idx = insert_position(&results, inc.reward_points);
                results.insert(idx, inc);
                proof {
                    let after = results@;
                    assert(after =~= before.insert(idx as int, inc));
                    assert forall|a: int, b: int| 0 <= a < b < after.len() implies ranks_before(#[trigger] after[a], #[trigger] after[b]) by {
                        if b < idx {
                            assert(after[a] == before[a] && after[b] == before[b]);
                        } else if b == idx {
                            assert(after[a] == before[a]);
                            assert(before[a].id <= i);
                        } else if a == idx {
                            assert(after[b] == before[b - 1]);
                            assert(inc.reward_points > before[idx as int].reward_points);
                            if b - 1 > idx {
                                assert(ranks_before(before[idx as int], before[b - 1]));
                            }
                        } else if a < idx {
                            assert(after[a] == before[a] && after[b] == before[b - 1]);
                        } else {
                            assert(after[a] == before[a - 1] && after[b] == before[b - 1]);
                        }
                    }
                    assert forall|x: Incentive| after.contains(x) <==> (before.contains(x) || x == inc) by {
                        if after.contains(x) {
                            let k = choose|k: int| 0 <= k < after.len() && after[k] == x;
                            if k < idx {
                                assert(before[k] == x);
                            } else if k > idx {
                                assert(before[k - 1] == x);
                            }
                        }
                        if before.contains(x) {
                            let k = choose|k: int| 0 <= k < before.len() && before[k] == x;
                            if k < idx {
                                assert(after[k] == x);
                            } else {
                                assert(after[k + 1] == x);
                            }
                        }
                        if x == inc {
                            assert(after[idx as int] == x);
                        }
                    }
                    assert forall|x: Incentive| filtered.push(inc).contains(x) <==> (filtered.contains(x) || x == inc) by {
                        if filtered.push(inc).contains(x) {
                            let k = choose|k: int| 0 <= k < filtered.len() + 1 && filtered.push(inc)[k] == x;
                            if k < filtered.len() {
                                assert(filtered[k] == x);
                            }
                        }
                        if filtered.contains(x) {
                            let k = choose|k: int| 0 <= k < filtered.len() && filtered[k] == x;
                            assert(filtered.push(inc)[k] == x);
                        }
                        if x == inc {
                            assert(filtered.push(inc)[filtered.len() as int] == x);
                        }
                    }
                }
            }
            i = i + 1;
        }
        assert(self@.incentives.take(self.incentives.len() as int) =~= self@.incentives);
        results
    }

    /// Same as `get_incentives_by_waste_type`.
    pub fn get_incentives(&self, waste_type: WasteType) -> (r: Vec<Incentive>)
        requires
            self.wf(),
        ensures
            ranked(r@),
            forall|x: Incentive| r@.contains(x) <==> self@.incentives.filter(is_open_for(waste_type)).contains(x),
    {
        self.get_incentives_by_waste_type(waste_type)
    }

    /// The incentives satisfying `pred`, in ID order.
    fn incentives_where(&self, pred: Ghost<spec_fn(Incentive) -> bool>, mode: u8, rewarder: Address) -> (r: Vec<Incentive>)
        requires
            mode == 0 ==> pred@ == is_active_incentive(),
            mode != 0 ==> pred@ == created_by(rewarder),
        ensures
            r@ == self@.incentives.filter(pred@),
    {
        let mut out: Vec<Incentive> = Vec::new();
        let mut i: usize = 0;
        while i < self.incentives.len()
            invariant
                i <= self.incentives.len(),
                mode == 0 ==> pred@ == is_active_incentive(),
                mode != 0 ==> pred@ == created_by(rewarder),
                out@ == self@.incentives.take(i as int).filter(pred@),
            decreases self.incentives.len() - i,
        {
            let inc = self.incentives[i];
            proof {
                self@.incentives.take(i as int).lemma_filter_push(inc, pred@);
                assert(self@.incentives.take(i as int).push(inc) =~= self@.incentives.take(i + 1));
            }
            let keep = if mode == 0 {
                inc.active
            } else {
                inc.rewarder == rewarder
            };
            if keep {
                out.push(inc);
            }
            i = i + 1;
        }
        assert(self@.incentives.take(self.incentives.len() as int) =~= self@.incentives);
        out
    }

    /// All active incentives, in ID order.
    pub fn get_active_incentives(&self) -> (r: Vec<Incentive>)
        ensures
            r@ == self@.incentives.filter(is_active_incentive()),
    {
        self.incentives_where(Ghost(is_active_incentive()), 0, Address(0))
    }

    /// All incentives created by `rewarder`, in ID order.
    pub fn get_incentives_by_rewarder(&self, rewarder: Address) -> (r: Vec<Incentive>)
        ensures
            r@ == self@.incentives.filter(created_by(rewarder)),
    {
        self.incentives_where(Ghost(created_by(rewarder)), 1, rewarder)
    }

    /// The best active incentive of a manufacturer for a waste type.
    pub fn get_active_mfr_incentive(&self, manufacturer: Address, waste_type: WasteType) -> (r: Option<Incentive>)
        ensures
            best_offer(self@.incentives.filter(offered_by(manufacturer, waste_type)), r),
    {
        let ghost pred = offered_by(manufacturer, waste_type);
        let mut best: Option<Incentive> = None;
        let ghost mut best_k: int = 0;
        let mut i: usize = 0;
        while i < self.incentives.len()
            invariant
                i <= self.incentives.len(),
                pred == offered_by(manufacturer, waste_type),
                match best {
                    None => self@.incentives.take(i as int).filter(pred).len() == 0,
                    Some(c) => is_best_at(self@.incentives.take(i as int).filter(pred), c, best_k),
                },
            decreases self.incentives.len() - i,
        {
            let inc = self.incentives[i];
            let ghost cands = self@.incentives.take(i as int).filter(pred);
            proof {
                self@.incentives.take(i as int).lemma_filter_push(inc, pred);
                assert(self@.incentives.take(i as int).push(inc) =~= self@.incentives.take(i + 1));
            }
            if inc.rewarder == manufacturer && inc.active && inc.waste_type == waste_type {
                let ghost next = cands.push(inc);
                let better = match best {
                    None => true,
                    Some(c) => inc.reward_points > c.reward_points,
                };
                if better {
                    proof {
                        assert(next[cands.len() as int] == inc);
                        assert forall|x: int| 0 <= x < next.len() implies (#[trigger] next[x]).reward_points <= inc.reward_points by {
                            if x < cands.len() {
                                assert(next[x] == cands[x]);
                            }
                        }
                        assert forall|x: int| 0 <= x < cands.len() implies (#[trigger] next[x]).reward_points < inc.reward_points by {
                            assert(next[x] == cands[x]);
                        }
                        best_k = cands.len() as int;
                    }
                    best = Some(inc);
                } else {
                    proof {
                        let c = best->0;
                        assert forall|x: int| 0 <= x < next.len() implies (#[trigger] next[x]).reward_points <= c.reward_points by {
                            if x < cands.len() {
                                assert(next[x] == cands[x]);
                            }
                        }
                        assert forall|x: int| 0 <= x < best_k implies (#[trigger] next[x]).reward_points < c.reward_points by {
                            assert(next[x] == cands[x]);
                        }
                        assert(next[best_k] == cands[best_k]);
                    }
                }
            }
            i = i + 1;
        }
        proof {
            assert(self@.incentives.take(self.incentives.len() as int) =~= self@.incentives);
        }
        best
    }

    /// Claims an incentive's reward for a verified material of its waste type;
    /// the claimer is credited and the incentive's budget drawn down.
    pub fn claim_incentive_reward(&mut self, incentive_id: u64, material_id: u64, claimer: Address) -> (r: Result<i128, Fault>)
        requires
            old(self).wf(),
        ensures
            final(self).wf(),
            commits(old(self)@, final(self)@, r, claim_fault(old(self)@, incentive_id, material_id, claimer),
                claim_after(old(self)@, incentive_id, material_id, claimer),
                claim_reward(old(self)@, incentive_id, material_id) as i128),
            r is Ok ==> forall|k: u64| #[trigger] old(self)@.participants.contains_key(k) ==> {
                &&& final(self)@.participants.contains_key(k)
                &&& final(self)@.participants[k].total_tokens_earned == old(self)@.participants[k].total_tokens_earned
                    + if k == claimer.0 { r->Ok_0 as int } else { 0 }
            },
    {
        if let Some(f) = self.check_not_paused() {
            return Err(f);
        }
        if let Some(f) = self.check_only_registered(claimer) {
            return Err(f);
        }
        let i = match self.incentive_index(incentive_id) {
            None => return Err(Fault::Panic(Panic::IncentiveNotFound)),
            Some(i) => i,
        };
        let inc = self.incentives[i];
        if !inc.active {
            return Err(Fault::Panic(Panic::IncentiveNotActive));
        }
        let m = match self.get_waste(material_id) {
            None => return Err(Fault::Panic(Panic::MaterialNotFound)),
            Some(m) => m,
        };
        if !m.verified {
            return Err(Fault::Panic(Panic::MaterialNotVerified));
        }
        if m.waste_type != inc.waste_type {
            return Err(Fault::Panic(Panic::WasteTypeMismatch));
        }
        let kg = m.weight / 1000;
        let reward = match kg.checked_mul(inc.reward_points) {
            None => return Err(Fault::Panic(Panic::ArithmeticOverflow)),
            Some(x) => x,
        };
        if reward == 0 {
            return Err(Fault::Panic(Panic::NoRewardAvailable));
        }
        if reward > inc.remaining_budget {
            return Err(Fault::Error(Error::InsufficientBudget));
        }
        let mut ledger = self.ledger();
        proof { lemma_credit_keyed(ledger_of(self@), claimer, reward); }
        ledger.credit(claimer, reward)?;
        let left = inc.remaining_budget.saturating_sub(reward);
        let drawn_inc = Incentive { remaining_budget: left, active: inc.active && left != 0, ..inc };
        self.put_incentive(i, drawn_inc);
        self.apply_ledger(ledger);
        proof {
            assert(self@ == claim_after(old(self)@, incentive_id, material_id, claimer));
            assert forall|k: u64| #[trigger] old(self)@.participants.contains_key(k) implies {
                &&& self@.participants.contains_key(k)
                &&& self@.participants[k].total_tokens_earned == old(self)@.participants[k].total_tokens_earned
                    + if k == claimer.0 { reward as int } else { 0 }
            } by {
                crate::payout_laws::law_claim_credits_the_claimer(old(self)@, incentive_id, material_id, claimer, Address(k));
            }
        }
        Ok(reward as i128)
    }

    /// Closes an incentive (its creator only).
    pub fn deactivate_incentive(&mut self, incentive_id: u64, rewarder: Address) -> (r: Result<Incentive, Fault>)
        requires
            old(self).wf(),
        ensures
            final(self).wf(),
            commits(old(self)@, final(self)@, r, deactivate_incentive_fault(old(self)@, incentive_id, rewarder),
                with_incentive(old(self)@, Incentive { active: false, ..incentive_of(old(self)@, incentive_id)->0 }),
                Incentive { active: false, ..incentive_of(old(self)@, incentive_id)->0 }),
    {
        if let Some(f) = self.check_not_paused() {
            return Err(f);
        }
        if let Some(f) = self.check_require_registered(rewarder) {
            return Err(f);
        }
        let i = match self.incentive_index(incentive_id) {
            None => return Err(Fault::Panic(Panic::IncentiveNotFound)),
            Some(i) => i,
        };
        let inc = self.incentives[i];
        if inc.rewarder != rewarder {
            return Err(Fault::Panic(Panic::OnlyCreatorDeactivates));
        }
        let closed = Incentive { active: false, ..inc };
        self.put_incentive(i, closed);
        Ok(closed)
    }
}

/// Where an incentive with `points` goes in a ranked list: after every entry
/// with at least as many points.
fn insert_position(results: &Vec<Incentive>, points: u64) -> (idx: usize)
    requires
        ranked(results@),
    ensures
        idx <= results@.len(),
        forall|k: int| 0 <= k < idx ==> (#[trigger] results@[k]).reward_points >= points,
        idx < results@.len() ==> points > results@[idx as int].reward_points,
{
    let mut idx: usize = 0;
    while idx < results.len()
        invariant
            idx <= results@.len(),
            forall|k: int| 0 <= k < idx ==> (#[trigger] results@[k]).reward_points >= points,
        decreases results.len() - idx,
    {
        if points > results[idx].reward_points {
            return idx;
        }
        idx = idx + 1;
    }
    idx
}

/// Reward of `inc` for `amount` grams.
pub fn reward_for(inc: &Incentive, amount: u64) -> (r: Result<u64, Fault>)
    ensures
        if reward_overflows(*inc, amount) {
            r == Err::<u64, Fault>(Fault::Panic(Panic::ArithmeticOverflow))
        } else {
            r == Ok::<u64, Fault>(incentive_reward(*inc, amount))
        },
{
    if !inc.active {
        return Ok(0);
    }
    let kg = amount / 1000;
    let reward = match kg.checked_mul(inc.reward_points) {
        None => return Err(Fault::Panic(Panic::ArithmeticOverflow)),
        Some(x) => x,
    };
    if reward > inc.remaining_budget {
        Ok(inc.remaining_budget)
    } else {
        Ok(reward)
    }
}

} // verus!
