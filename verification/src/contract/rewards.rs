//! Splitting a material's reward along its supply chain: each collector in
//! the transfer history gets the collector share, the material's holder gets
//! the owner share plus whatever is left of the reward.
use vstd::prelude::*;
use std::collections::HashMap;
use crate::contract::{ContractState, ScavengerContract};
use crate::errors::{Fault, Panic};
use crate::events::ContractEvent;
use crate::types::{Address, Participant, RewardConfig, WasteTransfer};
use crate::contract::tokens::{gatherer_pass, lemma_gatherer_err_extends, pay, pays_gatherer, TokenPayment};

verus! {

broadcast use vstd::std_specs::hash::group_hash_axioms;

/// The part of the state a reward touches: participant balances, the token
/// total, and the events emitted so far by the reward.
pub struct Ledger {
    pub participants: Map<u64, Participant>,
    pub total_tokens: u128,
    pub emitted: Seq<ContractEvent>,
}

/// The ledger of a state, with no events emitted yet.
pub open spec fn ledger_of(s: ContractState) -> Ledger {
    Ledger { participants: s.participants, total_tokens: s.total_tokens, emitted: Seq::empty() }
}

/// The state with a ledger's balances and events written back.
pub open spec fn apply_ledger(s: ContractState, l: Ledger) -> ContractState {
    ContractState {
        participants: l.participants,
        total_tokens: l.total_tokens,
        events: s.events + l.emitted,
        ..s
    }
}

/// Every record is stored under its own address.
pub open spec fn ledger_keyed(l: Ledger) -> bool {
    forall|k: u64| #[trigger] l.participants.contains_key(k) ==> l.participants[k].address.0 == k
}

/// Adds to the token total, refusing an overflow.
pub open spec fn add_total(l: Ledger, amount: u128) -> Result<Ledger, Fault> {
    if l.total_tokens + amount > u128::MAX {
        Err(Fault::Panic(Panic::TotalTokensSumOverflow))
    } else {
        Ok(Ledger { total_tokens: (l.total_tokens + amount) as u128, ..l })
    }
}

/// Adds to a participant's earnings (nothing happens for an unknown address).
pub open spec fn raise_earnings(l: Ledger, a: Address, amount: u128) -> Result<Ledger, Fault> {
    if !l.participants.contains_key(a.0) {
        Ok(l)
    } else {
        let p = l.participants[a.0];
        if p.total_tokens_earned + amount > u128::MAX {
            Err(Fault::Panic(Panic::TokensEarnedOverflow))
        } else {
            Ok(Ledger {
                participants: l.participants.insert(
                    a.0,
                    Participant { total_tokens_earned: (p.total_tokens_earned + amount) as u128, ..p },
                ),
                ..l
            })
        }
    }
}

/// Credits `tokens` to a known participant and, when positive, to the token
/// total; an unknown address is left alone.
pub open spec fn credit(l: Ledger, a: Address, tokens: u64) -> Result<Ledger, Fault> {
    if !l.participants.contains_key(a.0) {
        Ok(l)
    } else {
        match raise_earnings(l, a, tokens as u128) {
            Err(f) => Err(f),
            Ok(l1) => if tokens > 0 {
                add_total(l1, tokens as u128)
            } else {
                Ok(l1)
            },
        }
    }
}

/// Is the recipient of `t` currently a collector?
pub open spec fn pays_collector(l: Ledger, t: WasteTransfer) -> bool {
    l.participants.contains_key(t.to.0) && l.participants[t.to.0].role is Collector
}

/// One transfer of the history: a collector recipient gets `share`.
pub open spec fn collector_step(
    l: Ledger,
    distributed: u128,
    t: WasteTransfer,
    share: u128,
    waste_id: u64,
) -> Result<(Ledger, u128), Fault> {
    if pays_collector(l, t) {
        if distributed + share > u128::MAX {
            Err(Fault::Panic(Panic::ArithmeticOverflow))
        } else {
            match credit(l, t.to, share as u64) {
                Err(f) => Err(f),
                Ok(l2) => Ok(
                    (
                        Ledger {
                            emitted: l2.emitted.push(
                                ContractEvent::TokensRewarded { recipient: t.to, amount: share, waste_id },
                            ),
                            ..l2
                        },
                        (distributed + share) as u128,
                    ),
                ),
            }
        }
    } else {
        Ok((l, distributed))
    }
}

/// The collectors' pass over a transfer history, oldest first; also returns
/// the amount handed out.
pub open spec fn collector_pass(l: Ledger, hist: Seq<WasteTransfer>, share: u128, waste_id: u64) -> Result<(Ledger, u128), Fault>
    decreases hist.len(),
{
    if hist.len() == 0 {
        Ok((l, 0u128))
    } else {
        match collector_pass(l, hist.drop_last(), share, waste_id) {
            Err(f) => Err(f),
            Ok((l1, d)) => collector_step(l1, d, hist.last(), share, waste_id),
        }
    }
}

/// Share of `total` at `pct` percent, rounded down.
pub open spec fn share_of(total: u128, pct: u32) -> u128 {
    (total * pct / 100) as u128
}

/// What the holder receives: the owner share plus what the collectors and the
/// owner share leave of the total (nothing when they exceed it).
pub open spec fn holder_amount(total: u128, distributed: u128, owner_share: u128) -> u128 {
    let remainder = if total >= distributed + owner_share {
        total - (distributed + owner_share)
    } else {
        0
    };
    (owner_share + remainder) as u128
}

/// The holder's part of a reward.
pub open spec fn holder_payout(
    l: Ledger,
    holder: Address,
    total: u128,
    distributed: u128,
    owner_share: u128,
    waste_id: u64,
) -> Result<Ledger, Fault> {
    if distributed + owner_share > u128::MAX {
        Err(Fault::Panic(Panic::ArithmeticOverflow))
    } else {
        let amount = holder_amount(total, distributed, owner_share);
        let remainder = (amount - owner_share) as u128;
        if amount == 0 {
            Ok(l)
        } else {
            match raise_earnings(l, holder, amount) {
                Err(f) => Err(f),
                Ok(l2) => match add_total(l2, amount) {
                    Err(f) => Err(f),
                    Ok(l3) => {
                        let e1 = l3.emitted.push(
                            ContractEvent::TokensRewarded { recipient: holder, amount: owner_share, waste_id },
                        );
                        Ok(Ledger {
                            emitted: if remainder > 0 {
                                e1.push(ContractEvent::TokensRewarded { recipient: holder, amount: remainder, waste_id })
                            } else {
                                e1
                            },
                            ..l3
                        })
                    },
                },
            }
        }
    }
}

/// The whole reward of a verified material: nothing for a zero total,
/// otherwise the collectors' pass followed by the holder's payout.
pub open spec fn material_rewards(
    l: Ledger,
    config: RewardConfig,
    hist: Seq<WasteTransfer>,
    holder: Address,
    waste_id: u64,
    total: u128,
) -> Result<Ledger, Fault> {
    if total == 0 {
        Ok(l)
    } else if total * config.collector_percentage > u128::MAX || total * config.owner_percentage > u128::MAX {
        Err(Fault::Panic(Panic::ArithmeticOverflow))
    } else {
        let collector_share = share_of(total, config.collector_percentage);
        let owner_share = share_of(total, config.owner_percentage);
        match collector_pass(l, hist, collector_share, waste_id) {
            Err(f) => Err(f),
            Ok((l1, d)) => holder_payout(l1, holder, total, d, owner_share, waste_id),
        }
    }
}

/// A refused prefix refuses the whole pass.
pub proof fn lemma_pass_err_extends(l: Ledger, hist: Seq<WasteTransfer>, j: int, share: u128, waste_id: u64)
    requires
        0 <= j <= hist.len(),
        collector_pass(l, hist.take(j), share, waste_id) is Err,
    ensures
        collector_pass(l, hist, share, waste_id) == collector_pass(l, hist.take(j), share, waste_id),
    decreases hist.len() - j,
{
    if j == hist.len() {
        assert(hist.take(j) =~= hist);
    } else {
        assert(hist.take(j + 1).drop_last() =~= hist.take(j));
        lemma_pass_err_extends(l, hist, j + 1, share, waste_id);
    }
}

/// Credits keep every record under its own address and add no addresses.
pub proof fn lemma_credit_keyed(l: Ledger, a: Address, tokens: u64)
    requires
        ledger_keyed(l),
    ensures
        credit(l, a, tokens) matches Ok(l2) ==> ledger_keyed(l2) && l2.participants.dom() == l.participants.dom(),
{
    if credit(l, a, tokens) is Ok {
        assert(credit(l, a, tokens)->Ok_0.participants.dom() =~= l.participants.dom());
    }
}

pub proof fn lemma_pass_keyed(l: Ledger, hist: Seq<WasteTransfer>, share: u128, waste_id: u64)
    requires
        ledger_keyed(l),
    ensures
        collector_pass(l, hist, share, waste_id) matches Ok((l2, _)) ==> ledger_keyed(l2)
            && l2.participants.dom() == l.participants.dom(),
    decreases hist.len(),
{
    if hist.len() > 0 {
        lemma_pass_keyed(l, hist.drop_last(), share, waste_id);
        if let Ok((l1, d)) = collector_pass(l, hist.drop_last(), share, waste_id) {
            lemma_credit_keyed(l1, hist.last().to, share as u64);
        }
    }
}

pub proof fn lemma_rewards_keyed(l: Ledger, config: RewardConfig, hist: Seq<WasteTransfer>, holder: Address, waste_id: u64, total: u128)
    requires
        ledger_keyed(l),
    ensures
        material_rewards(l, config, hist, holder, waste_id, total) matches Ok(l2) ==> ledger_keyed(l2)
            && l2.participants.dom() == l.participants.dom(),
{
    if total != 0 && total * config.collector_percentage <= u128::MAX && total * config.owner_percentage <= u128::MAX {
        let cs = share_of(total, config.collector_percentage);
        lemma_pass_keyed(l, hist, cs, waste_id);
        if let Ok((l1, d)) = collector_pass(l, hist, cs, waste_id) {
            let r = material_rewards(l, config, hist, holder, waste_id, total);
            if r is Ok {
                assert(r->Ok_0.participants.dom() =~= l1.participants.dom());
            }
        }
    }
}

/// Working copy of the ledger while a reward is computed; written back only
/// when the whole reward succeeds.
pub(crate) struct RewardLedger {
    pub(crate) participants: HashMap<u64, Participant>,
    pub(crate) total_tokens: u128,
    pub(crate) emitted: Vec<ContractEvent>,
}

impl View for RewardLedger {
    type V = Ledger;

    closed spec fn view(&self) -> Ledger {
        Ledger { participants: self.participants@, total_tokens: self.total_tokens, emitted: self.emitted@ }
    }
}

impl RewardLedger {
    pub(crate) fn add_total(&mut self, amount: u128) -> (r: Result<(), Fault>)
        ensures
            match add_total(old(self)@, amount) {
                Err(f) => r == Err::<(), Fault>(f),
                Ok(l) => r is Ok && final(self)@ == l,
            },
    {
        match self.total_tokens.checked_add(amount) {
            None => Err(Fault::Panic(Panic::TotalTokensSumOverflow)),
            Some(t) => {
                self.total_tokens = t;
                Ok(())
            },
        }
    }

    pub(crate) fn raise_earnings(&mut self, a: Address, amount: u128) -> (r: Result<(), Fault>)
        ensures
            match raise_earnings(old(self)@, a, amount) {
                Err(f) => r == Err::<(), Fault>(f),
                Ok(l) => r is Ok && final(self)@ == l,
            },
    {
        let mut p = match self.participants.get(&a.0) {
            None => return Ok(()),
            Some(p) => p.duplicate(),
        };
        match p.total_tokens_earned.checked_add(amount) {
            None => Err(Fault::Panic(Panic::TokensEarnedOverflow)),
            Some(t) => {
                p.total_tokens_earned = t;
                self.participants.insert(a.0, p);
                Ok(())
            },
        }
    }

    pub(crate) fn credit(&mut self, a: Address, tokens: u64) -> (r: Result<(), Fault>)
        ensures
            match credit(old(self)@, a, tokens) {
                Err(f) => r == Err::<(), Fault>(f),
                Ok(l) => r is Ok && final(self)@ == l,
            },
    {
        if !self.participants.contains_key(&a.0) {
            return Ok(());
        }
        self.raise_earnings(a, tokens as u128)?;
        if tokens > 0 {
            self.add_total(tokens as u128)
        } else {
            Ok(())
        }
    }

    /// Pays the collector share to each collector recipient of `hist`.
    pub(crate) fn collector_pass(&mut self, hist: &Vec<WasteTransfer>, share: u128, waste_id: u64) -> (r: Result<u128, Fault>)
        ensures
            match collector_pass(old(self)@, hist@, share, waste_id) {
                Err(f) => r == Err::<u128, Fault>(f),
                Ok((l, d)) => r == Ok::<u128, Fault>(d) && final(self)@ == l,
            },
    {
        let ghost l0 = self@;
        let mut distributed: u128 = 0;
        let mut i: usize = 0;
        assert(hist@.take(0) =~= Seq::<WasteTransfer>::empty());
        while i < hist.len()
            invariant
                i <= hist.len(),
                l0 == old(self)@,
                collector_pass(l0, hist@.take(i as int), share, waste_id) == Ok::<(Ledger, u128), Fault>((self@, distributed)),
            decreases hist.len() - i,
        {
            let t = &hist[i];
            proof {
                assert(hist@.take(i + 1).drop_last() =~= hist@.take(i as int));
                assert(hist@.take(i + 1).last() == hist@[i as int]);
            }
            let is_collector = match self.participants.get(&t.to.0) {
                Some(p) => match p.role {
                    crate::types::ParticipantRole::Collector => true,
                    _ => false,
                },
                None => false,
            };
            assert(is_collector == pays_collector(self@, hist@[i as int]));
            if is_collector {
                let d = match distributed.checked_add(share) {
                    None => {
                        proof {
                            assert(collector_pass(l0, hist@.take(i + 1), share, waste_id)
                                == Err::<(Ledger, u128), Fault>(Fault::Panic(Panic::ArithmeticOverflow)));
                            lemma_pass_err_extends(l0, hist@, i + 1, share, waste_id);
                        }
                        return Err(Fault::Panic(Panic::ArithmeticOverflow));
                    },
                    Some(d) => d,
                };
                match self.credit(t.to, #[verifier::truncate] (share as u64)) {
                    Err(f) => {
                        proof {
                            assert(collector_pass(l0, hist@.take(i + 1), share, waste_id) == Err::<(Ledger, u128), Fault>(f));
                            lemma_pass_err_extends(l0, hist@, i + 1, share, waste_id);
                        }
                        return Err(f);
                    },
                    Ok(()) => {},
                }
                self.emitted.push(ContractEvent::TokensRewarded { recipient: t.to, amount: share, waste_id });
                distributed = d;
            }
            i = i + 1;
        }
        assert(hist@.take(hist.len() as int) =~= hist@);
        Ok(distributed)
    }

    /// Pays the holder.
    pub(crate) fn holder_payout(
        &mut self,
        holder: Address,
        total: u128,
        distributed: u128,
        owner_share: u128,
        waste_id: u64,
    ) -> (r: Result<(), Fault>)
        ensures
            match holder_payout(old(self)@, holder, total, distributed, owner_share, waste_id) {
                Err(f) => r == Err::<(), Fault>(f),
                Ok(l) => r is Ok && final(self)@ == l,
            },
    {
        let paid = match distributed.checked_add(owner_share) {
            None => return Err(Fault::Panic(Panic::ArithmeticOverflow)),
            Some(p) => p,
        };
        let remainder = total.saturating_sub(paid);
        assert(owner_share + remainder <= u128::MAX);
        let amount = owner_share + remainder;
        if amount == 0 {
            return Ok(());
        }
        self.raise_earnings(holder, amount)?;
        self.add_total(amount)?;
        self.emitted.push(ContractEvent::TokensRewarded { recipient: holder, amount: owner_share, waste_id });
        if remainder > 0 {
            self.emitted.push(ContractEvent::TokensRewarded { recipient: holder, amount: remainder, waste_id });
        }
        Ok(())
    }

    pub(crate) fn material_rewards(
        &mut self,
        config: RewardConfig,
        hist: &Vec<WasteTransfer>,
        holder: Address,
        waste_id: u64,
        total: u128,
    ) -> (r: Result<(), Fault>)
        ensures
            match material_rewards(old(self)@, config, hist@, holder, waste_id, total) {
                Err(f) => r == Err::<(), Fault>(f),
                Ok(l) => r is Ok && final(self)@ == l,
            },
    {
        if total == 0 {
            return Ok(());
        }
        let c = match total.checked_mul(config.collector_percentage as u128) {
            None => return Err(Fault::Panic(Panic::ArithmeticOverflow)),
            Some(c) => c,
        };
        let o = match total.checked_mul(config.owner_percentage as u128) {
            None => return Err(Fault::Panic(Panic::ArithmeticOverflow)),
            Some(o) => o,
        };
        let collector_share = c / 100;
        let owner_share = o / 100;
        let d = self.collector_pass(hist, collector_share, waste_id)?;
        self.holder_payout(holder, total, d, owner_share, waste_id)
    }
}

impl RewardLedger {
    pub(crate) fn pay(
        &mut self,
        pays: &mut Vec<TokenPayment>,
        from: Address,
        to: Address,
        amount: i128,
        waste_id: u64,
    ) -> (r: Result<(), Fault>)
        requires
            amount >= 0,
        ensures
            match pay(old(self)@, old(pays)@, from, to, amount, waste_id) {
                Err(f) => r == Err::<(), Fault>(f),
                Ok((l, p)) => r is Ok && final(self)@ == l && final(pays)@ == p,
            },
    {
        if let Err(f) = self.credit(to, #[verifier::truncate] (amount as u64)) {
            return Err(f);
        }
        self.emitted.push(ContractEvent::TokensRewarded { recipient: to, amount: amount as u128, waste_id });
        pays.push(TokenPayment { from, to, amount });
        Ok(())
    }

    pub(crate) fn gatherer_pass(
        &mut self,
        hist: &Vec<WasteTransfer>,
        share: i128,
        manufacturer: Address,
        waste_id: u64,
    ) -> (r: Result<(Vec<TokenPayment>, i128), Fault>)
        requires
            share >= 0,
        ensures
            match gatherer_pass(old(self)@, hist@, share, manufacturer, waste_id) {
                Err(f) => r is Err && r->Err_0 == f,
                Ok((l, p, d)) => r is Ok && final(self)@ == l && r->Ok_0.0@ == p && r->Ok_0.1 == d,
            },
    {
        let ghost l0 = self@;
        let mut pays: Vec<TokenPayment> = Vec::new();
        let mut d: i128 = 0;
        let mut i: usize = 0;
        assert(hist@.take(0) =~= Seq::<WasteTransfer>::empty());
        while i < hist.len()
            invariant
                i <= hist.len(),
                share >= 0,
                d >= 0,
                l0 == old(self)@,
                gatherer_pass(l0, hist@.take(i as int), share, manufacturer, waste_id)
                    == Ok::<(Ledger, Seq<TokenPayment>, i128), Fault>((self@, pays@, d)),
            decreases hist.len() - i,
        {
            let t = &hist[i];
            proof {
                assert(hist@.take(i + 1).drop_last() =~= hist@.take(i as int));
                assert(hist@.take(i + 1).last() == hist@[i as int]);
            }
            let gatherer = match self.participants.get(&t.to.0) {
                Some(p) => p.role.can_collect_materials() && !p.role.can_manufacture(),
                None => false,
            };
            assert(gatherer == pays_gatherer(self@, hist@[i as int]));
            if gatherer {
                match self.pay(&mut pays, manufacturer, t.to, share, waste_id) {
                    Err(f) => {
                        proof { lemma_gatherer_err_extends(l0, hist@, i + 1, share, manufacturer, waste_id); }
                        return Err(f);
                    },
                    Ok(()) => {},
                }
                d = match d.checked_add(share) {
                    None => {
                        proof { lemma_gatherer_err_extends(l0, hist@, i + 1, share, manufacturer, waste_id); }
                        return Err(Fault::Panic(Panic::ArithmeticOverflow));
                    },
                    Some(x) => x,
                };
            }
            i = i + 1;
        }
        assert(hist@.take(hist.len() as int) =~= hist@);
        Ok((pays, d))
    }
}

impl ScavengerContract {
    /// A working copy of the balances, for computing a reward.
    pub(crate) fn ledger(&self) -> (r: RewardLedger)
        ensures
            r@ == ledger_of(self@),
    {
        let r = RewardLedger { participants: self.participants.clone(), total_tokens: self.total_tokens, emitted: Vec::new() };
        assert(r@ =~= ledger_of(self@));
        r
    }

    /// Writes a computed reward back.
    pub(crate) fn apply_ledger(&mut self, l: RewardLedger)
        ensures
            final(self)@ == apply_ledger(old(self)@, l@),
    {
        let mut emitted = l.emitted;
        self.participants = l.participants;
        self.total_tokens = l.total_tokens;
        self.events.append(&mut emitted);
        assert(self@ =~= apply_ledger(old(self)@, l@));
    }
}

} // verus!
