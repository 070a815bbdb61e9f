//! Tokens: manual rewards, donations to the charity, incentive-funded reward
//! distribution, and the global counters.
use vstd::prelude::*;
use crate::contract::{
    check_not_paused, check_only_registered, commits, either, history_of, incentive_of, is_registered, material_of,
    ContractState, ScavengerContract,
};
use crate::contract::incentives::with_incentive;
use crate::contract::rewards::{add_total, apply_ledger, credit, ledger_of, lemma_credit_keyed, ledger_keyed, Ledger};
use crate::errors::{Fault, Panic};
use crate::events::{emit_donation_made, ContractEvent};
use crate::types::{Address, GlobalMetrics, Incentive, Participant, WasteTransfer};

verus! {

broadcast use vstd::std_specs::hash::group_hash_axioms;

/// A token transfer the contract asks the token contract to make.
#[derive(Clone, Copy, Debug, PartialEq, Eq, Structural)]
pub struct TokenPayment {
    pub from: Address,
    pub to: Address,
    pub amount: i128,
}

pub open spec fn donate_fault(s: ContractState, donor: Address, amount: i128) -> Option<Fault> {
    either(
        check_not_paused(s),
        either(
            check_only_registered(s, donor),
            if amount <= 0 {
                Some(Fault::Panic(Panic::DonationNotPositive))
            } else if s.participants[donor.0].total_tokens_earned < amount {
                Some(Fault::Panic(Panic::InsufficientBalance))
            } else if s.charity is None {
                Some(Fault::Panic(Panic::CharityNotSet))
            } else {
                None
            },
        ),
    )
}

pub open spec fn donate_after(s: ContractState, donor: Address, amount: i128) -> ContractState {
    let p = s.participants[donor.0];
    ContractState {
        participants: s.participants.insert(
            donor.0,
            Participant { total_tokens_earned: (p.total_tokens_earned - amount) as u128, ..p },
        ),
        events: s.events.push(ContractEvent::DonationMade { donor, amount, charity_contract: s.charity->0 }),
        ..s
    }
}

pub open spec fn reward_tokens_fault(s: ContractState, recipient: Address, amount: i128) -> Option<Fault> {
    either(
        check_not_paused(s),
        if amount <= 0 {
            Some(Fault::Panic(Panic::RewardAmountNotPositive))
        } else if !is_registered(s, recipient) {
            Some(Fault::Panic(Panic::RecipientNotRegistered))
        } else if s.token is None {
            Some(Fault::Panic(Panic::TokenAddressNotSet))
        } else if s.participants[recipient.0].total_tokens_earned + amount > u128::MAX {
            Some(Fault::Panic(Panic::TokenOverflow))
        } else if s.total_tokens + amount > u128::MAX {
            Some(Fault::Panic(Panic::TotalTokensOverflow))
        } else {
            None
        },
    )
}

pub open spec fn reward_tokens_after(s: ContractState, recipient: Address, amount: i128, waste_id: u64) -> ContractState {
    let p = s.participants[recipient.0];
    ContractState {
        participants: s.participants.insert(
            recipient.0,
            Participant { total_tokens_earned: (p.total_tokens_earned + amount) as u128, ..p },
        ),
        total_tokens: (s.total_tokens + amount) as u128,
        events: s.events.push(ContractEvent::TokensRewarded { recipient, amount: amount as u128, waste_id }),
        ..s
    }
}

/// Total reward of a distribution: points per kilogram times whole kilograms.
pub open spec fn distribution_total(inc: Incentive, weight: u64) -> int {
    inc.reward_points as int * (weight / 1000) as int
}

/// Checks before anything is paid.
pub open spec fn distribute_precheck(s: ContractState, waste_id: u64, incentive_id: u64, manufacturer: Address) -> Option<Fault> {
    match material_of(s, waste_id) {
        None => Some(Fault::Panic(Panic::MaterialNotFound)),
        Some(m) => if !m.verified {
            Some(Fault::Panic(Panic::MaterialNotConfirmed))
        } else {
            either(
                check_not_paused(s),
                match incentive_of(s, incentive_id) {
                    None => Some(Fault::Panic(Panic::IncentiveNotFound)),
                    Some(inc) => if inc.rewarder != manufacturer {
                        Some(Fault::Panic(Panic::OnlyCreatorDistributes))
                    } else if inc.waste_type != m.waste_type {
                        Some(Fault::Panic(Panic::WasteTypeMismatch))
                    } else if !inc.active {
                        Some(Fault::Panic(Panic::IncentiveInactive))
                    } else if distribution_total(inc, m.weight) > i128::MAX {
                        Some(Fault::Panic(Panic::ArithmeticOverflow))
                    } else if distribution_total(inc, m.weight) > inc.remaining_budget {
                        Some(Fault::Panic(Panic::InsufficientIncentiveBudget))
                    } else if s.token is None {
                        Some(Fault::Panic(Panic::TokenAddressNotSet))
                    } else if distribution_total(inc, m.weight) * s.config.collector_percentage > i128::MAX
                        || distribution_total(inc, m.weight) * s.config.owner_percentage > i128::MAX {
                        Some(Fault::Panic(Panic::ArithmeticOverflow))
                    } else {
                        None
                    },
                },
            )
        },
    }
}

/// Does the recipient of `t` collect without manufacturing (a recycler or a collector)?
pub open spec fn pays_gatherer(l: Ledger, t: WasteTransfer) -> bool {
    l.participants.contains_key(t.to.0)
        && l.participants[t.to.0].role.spec_can_collect_materials()
        && !l.participants[t.to.0].role.spec_can_manufacture()
}

/// Pays `amount` to `to`: a token payment from the manufacturer, a credit
/// and an event.
pub open spec fn pay(l: Ledger, pays: Seq<TokenPayment>, from: Address, to: Address, amount: i128, waste_id: u64) -> Result<(Ledger, Seq<TokenPayment>), Fault> {
    match credit(l, to, amount as u64) {
        Err(f) => Err(f),
        Ok(l2) => Ok((
            Ledger {
                emitted: l2.emitted.push(ContractEvent::TokensRewarded { recipient: to, amount: amount as u128, waste_id }),
                ..l2
            },
            pays.push(TokenPayment { from, to, amount }),
        )),
    }
}

/// The gatherers' pass over the transfer history, oldest first.
pub open spec fn gatherer_pass(
    l: Ledger,
    hist: Seq<WasteTransfer>,
    share: i128,
    manufacturer: Address,
    waste_id: u64,
) -> Result<(Ledger, Seq<TokenPayment>, i128), Fault>
    decreases hist.len(),
{
    if hist.len() == 0 {
        Ok((l, Seq::empty(), 0i128))
    } else {
        match gatherer_pass(l, hist.drop_last(), share, manufacturer, waste_id) {
            Err(f) => Err(f),
            Ok((l1, pays, d)) => {
                let t = hist.last();
                if pays_gatherer(l1, t) {
                    match pay(l1, pays, manufacturer, t.to, share, waste_id) {
                        Err(f) => Err(f),
                        Ok((l2, pays2)) => if d + share > i128::MAX {
                            Err(Fault::Panic(Panic::ArithmeticOverflow))
                        } else {
                            Ok((l2, pays2, (d + share) as i128))
                        },
                    }
                } else {
                    Ok((l1, pays, d))
                }
            },
        }
    }
}

/// The holder's payments: the owner share, then whatever the total leaves.
pub open spec fn holder_pass(
    l: Ledger,
    pays: Seq<TokenPayment>,
    d: i128,
    holder: Address,
    total: i128,
    owner_share: i128,
    manufacturer: Address,
    waste_id: u64,
) -> Result<(Ledger, Seq<TokenPayment>), Fault> {
    match pay(l, pays, manufacturer, holder, owner_share, waste_id) {
        Err(f) => Err(f),
        Ok((l1, pays1)) => if d + owner_share > i128::MAX {
            Err(Fault::Panic(Panic::ArithmeticOverflow))
        } else {
            let rest = total - (d + owner_share);
            if rest > 0 {
                pay(l1, pays1, manufacturer, holder, rest as i128, waste_id)
            } else {
                Ok((l1, pays1))
            }
        },
    }
}

/// The whole distribution after the checks: gatherers, holder, then the
/// token total; yields the ledger and the payments to make.
pub open spec fn distribution(s: ContractState, waste_id: u64, incentive_id: u64, manufacturer: Address) -> Result<(Ledger, Seq<TokenPayment>), Fault> {
    let m = material_of(s, waste_id)->0;
    let inc = incentive_of(s, incentive_id)->0;
    let total = distribution_total(inc, m.weight) as i128;
    let collector_share = (total * s.config.collector_percentage / 100) as i128;
    let owner_share = (total * s.config.owner_percentage / 100) as i128;
    match gatherer_pass(ledger_of(s), history_of(s, waste_id as u128), collector_share, manufacturer, waste_id) {
        Err(f) => Err(f),
        Ok((l1, pays, d)) => match holder_pass(l1, pays, d, m.submitter, total, owner_share, manufacturer, waste_id) {
            Err(f) => Err(f),
            Ok((l2, pays2)) => match add_total(l2, total as u128) {
                Err(f) => Err(f),
                Ok(l3) => Ok((l3, pays2)),
            },
        },
    }
}

pub open spec fn distribute_fault(s: ContractState, waste_id: u64, incentive_id: u64, manufacturer: Address) -> Option<Fault> {
    either(
        distribute_precheck(s, waste_id, incentive_id, manufacturer),
        match distribution(s, waste_id, incentive_id, manufacturer) {
            Err(f) => Some(f),
            Ok(_) => None,
        },
    )
}

/// The incentive after funding a distribution of `total`: closed when drained.
pub open spec fn funded(inc: Incentive, total: i128) -> Incentive {
    let left = if inc.remaining_budget >= total { (inc.remaining_budget - total) as u64 } else { 0 };
    Incentive { remaining_budget: left, active: inc.active && left != 0, ..inc }
}

pub open spec fn distribute_after(s: ContractState, waste_id: u64, incentive_id: u64, manufacturer: Address) -> ContractState {
    let m = material_of(s, waste_id)->0;
    let inc = incentive_of(s, incentive_id)->0;
    let total = distribution_total(inc, m.weight) as i128;
    apply_ledger(with_incentive(s, funded(inc, total)), distribution(s, waste_id, incentive_id, manufacturer)->Ok_0.0)
}

pub open spec fn distribute_result(s: ContractState, waste_id: u64, incentive_id: u64, manufacturer: Address) -> (i128, Seq<TokenPayment>) {
    let m = material_of(s, waste_id)->0;
    let inc = incentive_of(s, incentive_id)->0;
    (distribution_total(inc, m.weight) as i128, distribution(s, waste_id, incentive_id, manufacturer)->Ok_0.1)
}

/// A refused prefix refuses the whole pass.
pub proof fn lemma_gatherer_err_extends(l: Ledger, hist: Seq<WasteTransfer>, j: int, share: i128, manufacturer: Address, waste_id: u64)
    requires
        0 <= j <= hist.len(),
        gatherer_pass(l, hist.take(j), share, manufacturer, waste_id) is Err,
    ensures
        gatherer_pass(l, hist, share, manufacturer, waste_id) == gatherer_pass(l, hist.take(j), share, manufacturer, waste_id),
    decreases hist.len() - j,
{
    if j == hist.len() {
        assert(hist.take(j) =~= hist);
    } else {
        assert(hist.take(j + 1).drop_last() =~= hist.take(j));
        lemma_gatherer_err_extends(l, hist, j + 1, share, manufacturer, waste_id);
    }
}

pub proof fn lemma_pay_keyed(l: Ledger, pays: Seq<TokenPayment>, from: Address, to: Address, amount: i128, waste_id: u64)
    requires
        ledger_keyed(l),
    ensures
        pay(l, pays, from, to, amount, waste_id) matches Ok((l2, _)) ==> ledger_keyed(l2)
            && l2.participants.dom() == l.participants.dom(),
{
    lemma_credit_keyed(l, to, amount as u64);
}

impl ScavengerContract {
    /// Donates earned tokens to the charity (a registered participant).
    pub fn donate_to_charity(&mut self, donor: Address, amount: i128) -> (r: Result<(), Fault>)
        requires
            old(self).wf(),
        ensures
            final(self).wf(),
            commits(old(self)@, final(self)@, r, donate_fault(old(self)@, donor, amount),
                donate_after(old(self)@, donor, amount), ()),
    {
        if let Some(f) = self.check_not_paused() {
            return Err(f);
        }
        if let Some(f) = self.check_only_registered(donor) {
            return Err(f);
        }
        if amount <= 0 {
            return Err(Fault::Panic(Panic::DonationNotPositive));
        }
        let mut p = self.participants.get(&donor.0).unwrap().duplicate();
        let value = amount as u128;
        if p.total_tokens_earned < value {
            return Err(Fault::Panic(Panic::InsufficientBalance));
        }
        let charity = match self.charity {
            None => return Err(Fault::Panic(Panic::CharityNotSet)),
            Some(c) => c,
        };
        p.total_tokens_earned = p.total_tokens_earned - value;
        self.participants.insert(donor.0, p);
        emit_donation_made(&mut self.events, &donor, amount, &charity);
        assert(self@ =~= donate_after(old(self)@, donor, amount));
        Ok(())
    }

    /// Credits `amount` tokens to a registered recipient and the token total.
    pub fn reward_tokens(&mut self, rewarder: Address, recipient: Address, amount: i128, waste_id: u64) -> (r: Result<(), Fault>)
        requires
            old(self).wf(),
        ensures
            final(self).wf(),
            commits(old(self)@, final(self)@, r, reward_tokens_fault(old(self)@, recipient, amount),
                reward_tokens_after(old(self)@, recipient, amount, waste_id), ()),
    {
        if let Some(f) = self.check_not_paused() {
            return Err(f);
        }
        if amount <= 0 {
            return Err(Fault::Panic(Panic::RewardAmountNotPositive));
        }
        if !self.registered(recipient) {
            return Err(Fault::Panic(Panic::RecipientNotRegistered));
        }
        if self.token.is_none() {
            return Err(Fault::Panic(Panic::TokenAddressNotSet));
        }
        let value = amount as u128;
        let mut p = self.participants.get(&recipient.0).unwrap().duplicate();
        let earned = match p.total_tokens_earned.checked_add(value) {
            None => return Err(Fault::Panic(Panic::TokenOverflow)),
            Some(x) => x,
        };
        let total = match self.total_tokens.checked_add(value) {
            None => return Err(Fault::Panic(Panic::TotalTokensOverflow)),
            Some(x) => x,
        };
        p.total_tokens_earned = earned;
        self.participants.insert(recipient.0, p);
        self.total_tokens = total;
        self.events.push(ContractEvent::TokensRewarded { recipient, amount: value, waste_id });
        assert(self@ =~= reward_tokens_after(old(self)@, recipient, amount, waste_id));
        Ok(())
    }

    /// Pays a verified material's incentive reward along its supply chain,
    /// funded by the incentive's creator: each recycler or collector in the
    /// transfer history gets the collector share, the holder the owner share
    /// and the rest. Returns the total and the token payments to make; the
    /// call must be discarded if a payment fails.
    pub fn distribute_rewards(&mut self, waste_id: u64, incentive_id: u64, manufacturer: Address) -> (r: Result<(i128, Vec<TokenPayment>), Fault>)
        requires
            old(self).wf(),
        ensures
            final(self).wf(),
            match distribute_fault(old(self)@, waste_id, incentive_id, manufacturer) {
                Some(f) => r is Err && r->Err_0 == f && final(self)@ == old(self)@,
                None => r is Ok && r->Ok_0.0 == distribute_result(old(self)@, waste_id, incentive_id, manufacturer).0
                    && r->Ok_0.1@ == distribute_result(old(self)@, waste_id, incentive_id, manufacturer).1
                    && final(self)@ == distribute_after(old(self)@, waste_id, incentive_id, manufacturer),
            },
            r matches Ok((_, pays)) ==> forall|k: u64| #[trigger] old(self)@.participants.contains_key(k) ==> {
                &&& final(self)@.participants.contains_key(k)
                &&& final(self)@.participants[k].total_tokens_earned == old(self)@.participants[k].total_tokens_earned
                    + crate::payout_laws::paid_to(pays@, k)
            },
    {
        let m = match self.get_waste(waste_id) {
            None => return Err(Fault::Panic(Panic::MaterialNotFound)),
            Some(m) => m,
        };
        if !m.verified {
            return Err(Fault::Panic(Panic::MaterialNotConfirmed));
        }
        if let Some(f) = self.check_not_paused() {
            return Err(f);
        }
        let i = match self.incentive_index(incentive_id) {
            None => return Err(Fault::Panic(Panic::IncentiveNotFound)),
            Some(i) => i,
        };
        let inc = self.get_incentive_by_id(incentive_id).unwrap();
        if inc.rewarder != manufacturer {
            return Err(Fault::Panic(Panic::OnlyCreatorDistributes));
        }
        if inc.waste_type != m.waste_type {
            return Err(Fault::Panic(Panic::WasteTypeMismatch));
        }
        if !inc.active {
            return Err(Fault::Panic(Panic::IncentiveInactive));
        }
        let kg = m.weight / 1000;
        let total = match (inc.reward_points as i128).checked_mul(kg as i128) {
            None => return Err(Fault::Panic(Panic::ArithmeticOverflow)),
            Some(t) => t,
        };
        assert(total == distribution_total(inc, m.weight)) by (nonlinear_arith)
            requires
                total == (inc.reward_points as i128) * (kg as i128),
                kg == m.weight / 1000,
        ;
        assert(total >= 0) by (nonlinear_arith)
            requires
                total == (inc.reward_points as i128) * (kg as i128),
                inc.reward_points >= 0,
                kg >= 0,
        ;
        if total > inc.remaining_budget as i128 {
            return Err(Fault::Panic(Panic::InsufficientIncentiveBudget));
        }
        if self.token.is_none() {
            return Err(Fault::Panic(Panic::TokenAddressNotSet));
        }
        let c = match total.checked_mul(self.config.collector_percentage as i128) {
            None => return Err(Fault::Panic(Panic::ArithmeticOverflow)),
            Some(c) => c,
        };
        let o = match total.checked_mul(self.config.owner_percentage as i128) {
            None => return Err(Fault::Panic(Panic::ArithmeticOverflow)),
            Some(o) => o,
        };
        assert(c >= 0 && o >= 0) by (nonlinear_arith)
            requires
                c == total * (self.config.collector_percentage as i128),
                o == total * (self.config.owner_percentage as i128),
                total >= 0,
        ;
        let collector_share = c / 100;
        let owner_share = o / 100;
        let hist = self.history(waste_id as u128);
        let mut ledger = self.ledger();
        let (mut pays, d) = match ledger.gatherer_pass(&hist, collector_share, manufacturer, waste_id) {
            Err(f) => return Err(f),
            Ok(x) => x,
        };
        let ghost l1 = ledger@;
        let ghost pays1 = pays@;
        proof {
            lemma_gatherer_nonneg(ledger_of(self@), hist@, collector_share, manufacturer, waste_id);
        }
        if let Err(f) = ledger.pay(&mut pays, manufacturer, m.submitter, owner_share, waste_id) {
            return Err(f);
        }
        let paid = match d.checked_add(owner_share) {
            None => return Err(Fault::Panic(Panic::ArithmeticOverflow)),
            Some(x) => x,
        };
        let rest = total - paid;
        if rest > 0 {
            if let Err(f) = ledger.pay(&mut pays, manufacturer, m.submitter, rest, waste_id) {
                return Err(f);
            }
        }
        assert(ledger@ == holder_pass(l1, pays1, d, m.submitter, total, owner_share, manufacturer, waste_id)->Ok_0.0);
        if let Err(f) = ledger.add_total(total as u128) {
            return Err(f);
        }
        let ghost s0 = self@;
        proof {
            assert(ledger_keyed(ledger_of(s0)));
            lemma_distribution_keyed(s0, waste_id, incentive_id, manufacturer);
        }
        let spent = total as u64;
        let left = inc.remaining_budget.saturating_sub(spent);
        let drained = Incentive { remaining_budget: left, active: inc.active && left != 0, ..inc };
        assert(drained == funded(inc, total));
        self.put_incentive(i, drained);
        self.apply_ledger(ledger);
        assert(self@ =~= distribute_after(s0, waste_id, incentive_id, manufacturer));
        proof {
            assert forall|k: u64| #[trigger] s0.participants.contains_key(k) implies {
                &&& self@.participants.contains_key(k)
                &&& self@.participants[k].total_tokens_earned == s0.participants[k].total_tokens_earned
                    + crate::payout_laws::paid_to(pays@, k)
            } by {
                crate::payout_laws::law_distribution_credits_its_payments(s0, waste_id, incentive_id, manufacturer, Address(k));
            }
        }
        Ok((total, pays))
    }

    /// The global counters: the number of waste records logged (v1 materials
    /// and v2 items together) and the tokens credited in total.
    pub fn get_metrics(&self) -> (r: GlobalMetrics)
        requires
            self.wf(),
        ensures
            r == (GlobalMetrics { total_wastes_count: self@.wastes.len() as u64, total_tokens_earned: self@.total_tokens }),
    {
        GlobalMetrics { total_wastes_count: self.wastes.len() as u64, total_tokens_earned: self.total_tokens }
    }
}

/// The gatherers' pass hands out a non-negative amount.
pub proof fn lemma_gatherer_nonneg(l: Ledger, hist: Seq<WasteTransfer>, share: i128, manufacturer: Address, waste_id: u64)
    requires
        share >= 0,
    ensures
        gatherer_pass(l, hist, share, manufacturer, waste_id) matches Ok((_, _, d)) ==> d >= 0,
    decreases hist.len(),
{
    if hist.len() > 0 {
        lemma_gatherer_nonneg(l, hist.drop_last(), share, manufacturer, waste_id);
    }
}

pub proof fn lemma_gatherer_keyed(l: Ledger, hist: Seq<WasteTransfer>, share: i128, manufacturer: Address, waste_id: u64)
    requires
        ledger_keyed(l),
    ensures
        gatherer_pass(l, hist, share, manufacturer, waste_id) matches Ok((l2, _, _)) ==> ledger_keyed(l2)
            && l2.participants.dom() == l.participants.dom(),
    decreases hist.len(),
{
    if hist.len() > 0 {
        lemma_gatherer_keyed(l, hist.drop_last(), share, manufacturer, waste_id);
        if let Ok((l1, pays, d)) = gatherer_pass(l, hist.drop_last(), share, manufacturer, waste_id) {
            lemma_pay_keyed(l1, pays, manufacturer, hist.last().to, share, waste_id);
        }
    }
}

pub proof fn lemma_distribution_keyed(s: ContractState, waste_id: u64, incentive_id: u64, manufacturer: Address)
    requires
        ledger_keyed(ledger_of(s)),
    ensures
        distribution(s, waste_id, incentive_id, manufacturer) matches Ok((l, _)) ==> ledger_keyed(l)
            && l.participants.dom() == s.participants.dom(),
{
    let m = material_of(s, waste_id)->0;
    let inc = incentive_of(s, incentive_id)->0;
    let total = distribution_total(inc, m.weight) as i128;
    let collector_share = (total * s.config.collector_percentage / 100) as i128;
    let owner_share = (total * s.config.owner_percentage / 100) as i128;
    let hist = history_of(s, waste_id as u128);
    lemma_gatherer_keyed(ledger_of(s), hist, collector_share, manufacturer, waste_id);
    if let Ok((l1, pays, d)) = gatherer_pass(ledger_of(s), hist, collector_share, manufacturer, waste_id) {
        lemma_pay_keyed(l1, pays, manufacturer, m.submitter, owner_share, waste_id);
        if let Ok((l2, p2)) = pay(l1, pays, manufacturer, m.submitter, owner_share, waste_id) {
            if d + owner_share <= i128::MAX {
                let rest = total - (d + owner_share);
                lemma_pay_keyed(l2, p2, manufacturer, m.submitter, rest as i128, waste_id);
            }
        }
    }
}

} // verus!
