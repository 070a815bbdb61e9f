//! Who is credited with what: the balances that verification rewards,
//! incentive claims and incentive distributions move, stated against the
//! participants, the transfer history and the payments returned.
use vstd::prelude::*;
use crate::contract::{history_of, incentive_of, material_of, state_inv, ContractState, WasteRecord};
use crate::contract::incentives::{calculate_fault, claim_after, claim_fault, claim_reward, incentive_reward};
use crate::contract::materials::{verify_all, verify_fault, verify_step};
use crate::contract::rewards::{collector_pass, credit, Ledger};
use crate::contract::tokens::{
    distribute_after, distribute_fault, distribute_result, distribution, distribution_total, gatherer_pass, pay,
    TokenPayment,
};
use crate::types::{spec_reward_points, Address, Participant, WasteTransfer};

verus! {

/// Sum of the amounts of the payments addressed to the participant keyed `k`.
pub open spec fn paid_to(pays: Seq<TokenPayment>, k: u64) -> int
    decreases pays.len(),
{
    if pays.len() == 0 {
        0
    } else {
        paid_to(pays.drop_last(), k) + if pays.last().to.0 == k {
            pays.last().amount as int
        } else {
            0
        }
    }
}

/// How many transfers of `hist` the participant keyed `k` received.
pub open spec fn receipts(hist: Seq<WasteTransfer>, k: u64) -> int
    decreases hist.len(),
{
    if hist.len() == 0 {
        0
    } else {
        receipts(hist.drop_last(), k) + if hist.last().to.0 == k {
            1int
        } else {
            0
        }
    }
}

/// How many transfers of `hist` went to a participant that is a collector in `p`.
pub open spec fn collector_receipts(p: Map<u64, Participant>, hist: Seq<WasteTransfer>) -> int
    decreases hist.len(),
{
    if hist.len() == 0 {
        0
    } else {
        collector_receipts(p, hist.drop_last()) + if p.contains_key(hist.last().to.0)
            && p[hist.last().to.0].role is Collector {
            1int
        } else {
            0
        }
    }
}

/// The same participants, with the same roles.
pub open spec fn same_roster(p: Map<u64, Participant>, q: Map<u64, Participant>) -> bool {
    &&& q.dom() == p.dom()
    &&& forall|k: u64| #[trigger] p.contains_key(k) ==> q[k].role == p[k].role
}

/// The greater of two integers.
pub open spec fn larger(a: int, b: int) -> int {
    if a >= b {
        a
    } else {
        b
    }
}

/// A credit of `tokens` raises the earnings of exactly the credited
/// participant, by exactly `tokens`.
pub proof fn lemma_credit_raises(l: Ledger, a: Address, tokens: u64)
    ensures
        credit(l, a, tokens) matches Ok(l2) ==> {
            &&& same_roster(l.participants, l2.participants)
            &&& forall|k: u64| #[trigger] l.participants.contains_key(k) ==> l2.participants[k].total_tokens_earned
                == l.participants[k].total_tokens_earned + if k == a.0 {
                tokens as int
            } else {
                0
            }
        },
{
    if let Ok(l2) = credit(l, a, tokens) {
        assert(l2.participants.dom() =~= l.participants.dom());
    }
}

/// The collectors' pass of a verification reward credits every transfer to
/// a collector with `share`, and reports the amount handed out.
pub proof fn lemma_collector_pass_credits(l: Ledger, hist: Seq<WasteTransfer>, share: u128, waste_id: u64)
    requires
        share <= u64::MAX,
    ensures
        collector_pass(l, hist, share, waste_id) matches Ok((l2, d)) ==> {
            &&& same_roster(l.participants, l2.participants)
            &&& d == collector_receipts(l.participants, hist) * share
            &&& forall|k: u64| #[trigger] l.participants.contains_key(k) ==> l2.participants[k].total_tokens_earned
                == l.participants[k].total_tokens_earned + if l.participants[k].role is Collector {
                receipts(hist, k) * share
            } else {
                0
            }
        },
    decreases hist.len(),
{
    if hist.len() > 0 {
        let pre = hist.drop_last();
        let t = hist.last();
        lemma_collector_pass_credits(l, pre, share, waste_id);
        if let Ok((l1, d1)) = collector_pass(l, pre, share, waste_id) {
            lemma_credit_raises(l1, t.to, share as u64);
            if let Ok((l2, d)) = collector_pass(l, hist, share, waste_id) {
                let hit = l.participants.contains_key(t.to.0) && l.participants[t.to.0].role is Collector;
                let cr = collector_receipts(l.participants, pre);
                if hit {
                    assert(l1.participants.contains_key(t.to.0));
                    assert((cr + 1) * share == cr * share + share) by (nonlinear_arith);
                } else {
                    assert(!(l1.participants.contains_key(t.to.0) && l1.participants[t.to.0].role is Collector));
                }
                assert(l2.participants.dom() =~= l.participants.dom());
                assert forall|k: u64| #[trigger] l.participants.contains_key(k) implies l2.participants[k].total_tokens_earned
                    == l.participants[k].total_tokens_earned + if l.participants[k].role is Collector {
                    receipts(hist, k) * share
                } else {
                    0
                } by {
                    let r = receipts(pre, k);
                    assert((r + 1) * share == r * share + share) by (nonlinear_arith);
                }
            }
        }
    }
}

/// A payment credits its recipient with its amount and records it.
pub proof fn lemma_pay_credits(l: Ledger, pays: Seq<TokenPayment>, from: Address, to: Address, amount: i128, waste_id: u64)
    requires
        0 <= amount <= u64::MAX,
    ensures
        pay(l, pays, from, to, amount, waste_id) matches Ok((l2, pays2)) ==> {
            &&& pays2 == pays.push(TokenPayment { from, to, amount })
            &&& same_roster(l.participants, l2.participants)
            &&& forall|k: u64| #[trigger] l.participants.contains_key(k) ==> l2.participants[k].total_tokens_earned
                == l.participants[k].total_tokens_earned + if k == to.0 {
                amount as int
            } else {
                0
            }
        },
{
    lemma_credit_raises(l, to, amount as u64);
}

/// The collectors' pass of a distribution credits every participant with the
/// payments it returns for that participant.
pub proof fn lemma_gatherer_pass_credits(
    l: Ledger,
    hist: Seq<WasteTransfer>,
    share: i128,
    manufacturer: Address,
    waste_id: u64,
)
    requires
        0 <= share <= u64::MAX,
    ensures
        gatherer_pass(l, hist, share, manufacturer, waste_id) matches Ok((l2, pays, _)) ==> {
            &&& same_roster(l.participants, l2.participants)
            &&& forall|k: u64| #[trigger] l.participants.contains_key(k) ==> l2.participants[k].total_tokens_earned
                == l.participants[k].total_tokens_earned + paid_to(pays, k)
        },
    decreases hist.len(),
{
    if hist.len() > 0 {
        let pre = hist.drop_last();
        lemma_gatherer_pass_credits(l, pre, share, manufacturer, waste_id);
        if let Ok((l1, pays1, d1)) = gatherer_pass(l, pre, share, manufacturer, waste_id) {
            lemma_pay_credits(l1, pays1, manufacturer, hist.last().to, share, waste_id);
            if let Ok((l2, pays2)) = pay(l1, pays1, manufacturer, hist.last().to, share, waste_id) {
                assert(pays2.drop_last() =~= pays1);
                assert(l2.participants.dom() =~= l.participants.dom());
            }
        }
    }
}

/// Every payment a distribution returns is credited to its recipient: the
/// earnings of each participant rise by exactly the sum of the payments
/// addressed to it, and by nothing else.
pub proof fn law_distribution_credits_its_payments(
    s: ContractState,
    waste_id: u64,
    incentive_id: u64,
    manufacturer: Address,
    a: Address,
)
    requires
        state_inv(s),
        distribute_fault(s, waste_id, incentive_id, manufacturer) is None,
        s.participants.contains_key(a.0),
    ensures
        distribute_after(s, waste_id, incentive_id, manufacturer).participants.contains_key(a.0),
        distribute_after(s, waste_id, incentive_id, manufacturer).participants[a.0].total_tokens_earned
            == s.participants[a.0].total_tokens_earned + paid_to(
            distribute_result(s, waste_id, incentive_id, manufacturer).1,
            a.0,
        ),
{
    let m = material_of(s, waste_id)->0;
    let inc = incentive_of(s, incentive_id)->0;
    let t = distribution_total(inc, m.weight);
    let total = t as i128;
    let c = s.config.collector_percentage;
    let o = s.config.owner_percentage;
    assert(t >= 0) by (nonlinear_arith)
        requires
            t == inc.reward_points as int * (m.weight / 1000) as int,
            inc.reward_points >= 0,
            m.weight >= 0,
    ;
    assert(0 <= total * c / 100 <= total && 0 <= total * o / 100 <= total) by (nonlinear_arith)
        requires
            0 <= total,
            c <= 100,
            o <= 100,
    ;
    let cs = (total * c / 100) as i128;
    let os = (total * o / 100) as i128;
    assert(t <= inc.remaining_budget);
    let l0 = crate::contract::rewards::ledger_of(s);
    let hist = history_of(s, waste_id as u128);
    assert(distribution(s, waste_id, incentive_id, manufacturer) is Ok);
    lemma_gatherer_pass_credits(l0, hist, cs, manufacturer, waste_id);
    crate::contract::tokens::lemma_gatherer_nonneg(l0, hist, cs, manufacturer, waste_id);
    let (l1, pays, d) = gatherer_pass(l0, hist, cs, manufacturer, waste_id)->Ok_0;
    lemma_pay_credits(l1, pays, manufacturer, m.submitter, os, waste_id);
    let (l2, pays1) = pay(l1, pays, manufacturer, m.submitter, os, waste_id)->Ok_0;
    assert(pays1.drop_last() =~= pays);
    assert(l1.participants.contains_key(a.0) && l2.participants.contains_key(a.0));
    let hp = crate::contract::tokens::holder_pass(l1, pays, d, m.submitter, total, os, manufacturer, waste_id);
    assert(hp is Ok);
    assert(d + os <= i128::MAX);
    let rest = total - (d + os);
    assert(d >= 0 && os >= 0);
    assert(l1.participants[a.0].total_tokens_earned == s.participants[a.0].total_tokens_earned + paid_to(pays, a.0));
    assert(l2.participants[a.0].total_tokens_earned == s.participants[a.0].total_tokens_earned + paid_to(pays1, a.0));
    if rest > 0 {
        assert(0 <= rest <= u64::MAX);
        lemma_pay_credits(l2, pays1, manufacturer, m.submitter, rest as i128, waste_id);
        let (l3, pays2) = pay(l2, pays1, manufacturer, m.submitter, rest as i128, waste_id)->Ok_0;
        assert(pays2.drop_last() =~= pays1);
        assert(hp == Ok::<(Ledger, Seq<TokenPayment>), crate::errors::Fault>((l3, pays2)));
        assert(l3.participants[a.0].total_tokens_earned == s.participants[a.0].total_tokens_earned + paid_to(pays2, a.0));
    } else {
        assert(hp == Ok::<(Ledger, Seq<TokenPayment>), crate::errors::Fault>((l2, pays1)));
        assert(l2.participants[a.0].total_tokens_earned == s.participants[a.0].total_tokens_earned + paid_to(pays1, a.0));
    }
}

/// What verifying material `id` credits to the participant keyed `k`: the
/// collector share of the material's points for every time `k` received the
/// material while a collector, and, for the material's holder, the owner
/// share or everything the collectors left, whichever is more.
pub open spec fn verification_credit(s: ContractState, id: u64, k: u64) -> int {
    let m = material_of(s, id)->0;
    let total = spec_reward_points(m.waste_type, m.weight) as int;
    let share = total * s.config.collector_percentage / 100;
    let own = total * s.config.owner_percentage / 100;
    let hist = history_of(s, id as u128);
    let as_collector = if s.participants[k].role is Collector {
        receipts(hist, k) * share
    } else {
        0
    };
    let as_holder = if k == m.submitter.0 {
        larger(own, total - collector_receipts(s.participants, hist) * share)
    } else {
        0
    };
    as_collector + as_holder
}

/// A verification reward of `total` points credits each collector with the
/// collector share once for every time it received the material, and the
/// material's holder with the owner share, or with everything the collectors
/// left when that is more; nobody else is credited.
pub proof fn law_verification_credits(s: ContractState, id: u64, verifier: Address, a: Address)
    requires
        state_inv(s),
        verify_fault(s, id, verifier) is None,
        s.participants.contains_key(a.0),
    ensures
        verify_step(s, material_of(s, id)->0)->Ok_0.participants.contains_key(a.0),
        verify_step(s, material_of(s, id)->0)->Ok_0.participants[a.0].total_tokens_earned
            == s.participants[a.0].total_tokens_earned + verification_credit(s, id, a.0),
{
    let m = material_of(s, id)->0;
    let v = crate::types::Material { verified: true, ..m };
    let total = spec_reward_points(m.waste_type, m.weight);
    let c = s.config.collector_percentage;
    let o = s.config.owner_percentage;
    let l0 = crate::contract::rewards::ledger_of(s);
    let hist = history_of(s, id as u128);
    assert(0 <= total * c / 100 <= total && 0 <= total * o / 100 <= total) by (nonlinear_arith)
        requires
            0 <= total,
            c <= 100,
            o <= 100,
    ;
    assert(s.wastes[id - 1].spec_id() == id);
    assert(m.id == id);
    let vr = crate::contract::materials::verification_reward(s, v);
    assert(vr is Ok);
    if total == 0 {
        assert(total * c / 100 == 0 && total * o / 100 == 0);
        assert(receipts(hist, a.0) * 0 == 0) by (nonlinear_arith);
        assert(collector_receipts(s.participants, hist) * 0 == 0) by (nonlinear_arith);
    } else {
        let share = crate::contract::rewards::share_of(total as u128, c);
        let os = crate::contract::rewards::share_of(total as u128, o);
        lemma_collector_pass_credits(l0, hist, share, id);
        assert(collector_pass(l0, hist, share, id) is Ok);
        let (l1, d) = collector_pass(l0, hist, share, id)->Ok_0;
        assert(l1.participants.contains_key(a.0));
        let hp = crate::contract::rewards::holder_payout(l1, m.submitter, total as u128, d, os, id);
        assert(hp is Ok);
        let amount = crate::contract::rewards::holder_amount(total as u128, d, os);
        assert(amount == larger(os as int, total - d));
        if amount != 0 {
            let l2 = crate::contract::rewards::raise_earnings(l1, m.submitter, amount)->Ok_0;
            assert(l2.participants.contains_key(a.0));
        }
    }
}

/// The material of an ID: stored under that ID.
pub open spec fn ids_in_place(s: ContractState) -> bool {
    forall|i: int| 0 <= i < s.wastes.len() ==> #[trigger] s.wastes[i].spec_id() == i + 1
}

/// Verifying a batch keeps every record in place, and every material it
/// returns is verified and is exactly the record stored under its ID.
pub proof fn lemma_verify_all_returns_stored(s: ContractState, ids: Seq<u64>)
    requires
        ids_in_place(s),
    ensures
        verify_all(s, ids) matches Ok((s2, done)) ==> {
            &&& ids_in_place(s2)
            &&& s2.wastes.len() == s.wastes.len()
            &&& forall|i: int| 0 <= i < done.len() ==> (#[trigger] done[i]).verified && material_of(s2, done[i].id)
                == Some(done[i])
        },
    decreases ids.len(),
{
    if ids.len() > 0 {
        lemma_verify_all_returns_stored(s, ids.drop_last());
        if let Ok((s1, done1)) = verify_all(s, ids.drop_last()) {
            if let Some(m) = material_of(s1, ids.last()) {
                if let Ok(s2) = verify_step(s1, m) {
                    let x = ids.last();
                    assert(s1.wastes[x - 1].spec_id() == x);
                    let v = crate::types::Material { verified: true, ..m };
                    let done = done1.push(v);
                    assert(s2.wastes == s1.wastes.update(m.id - 1, WasteRecord::Material(v)));
                    assert forall|i: int| 0 <= i < s2.wastes.len() implies #[trigger] s2.wastes[i].spec_id() == i + 1 by {
                        assert(s1.wastes[i].spec_id() == i + 1);
                    }
                    assert forall|i: int| 0 <= i < done.len() implies (#[trigger] done[i]).verified && material_of(
                        s2,
                        done[i].id,
                    ) == Some(done[i]) by {
                        if i < done1.len() {
                            assert(done[i] == done1[i]);
                            assert(material_of(s1, done1[i].id) == Some(done1[i]));
                        }
                    }
                }
            }
        }
    }
}

/// Every material a batch verification returns is verified and equals the
/// record stored under its ID once the batch is done.
pub proof fn law_batch_verification_returns_stored(s: ContractState, ids: Seq<u64>)
    requires
        state_inv(s),
        verify_all(s, ids) is Ok,
    ensures
        ({
            let (s2, done) = verify_all(s, ids)->Ok_0;
            forall|i: int| 0 <= i < done.len() ==> (#[trigger] done[i]).verified && material_of(s2, done[i].id)
                == Some(done[i])
        }),
{
    lemma_verify_all_returns_stored(s, ids);
}

/// A successful claim credits the claimer with exactly the reward it returns
/// and leaves every other participant's earnings unchanged.
pub proof fn law_claim_credits_the_claimer(
    s: ContractState,
    incentive_id: u64,
    material_id: u64,
    claimer: Address,
    a: Address,
)
    requires
        claim_fault(s, incentive_id, material_id, claimer) is None,
        s.participants.contains_key(a.0),
    ensures
        claim_after(s, incentive_id, material_id, claimer).participants.contains_key(a.0),
        claim_after(s, incentive_id, material_id, claimer).participants[a.0].total_tokens_earned
            == s.participants[a.0].total_tokens_earned + if a.0 == claimer.0 {
            claim_reward(s, incentive_id, material_id) as int
        } else {
            0
        },
{
    lemma_credit_raises(
        crate::contract::rewards::ledger_of(s),
        claimer,
        claim_reward(s, incentive_id, material_id),
    );
}

/// An inactive incentive offers nothing: the calculated reward of any
/// amount is zero, and the calculation is never refused.
pub proof fn law_inactive_incentive_rewards_nothing(s: ContractState, id: u64, amount: u64)
    requires
        incentive_of(s, id) matches Some(inc) && !inc.active,
    ensures
        calculate_fault(s, id, amount) is None,
        incentive_reward(incentive_of(s, id)->0, amount) == 0,
{
}

} // verus!
