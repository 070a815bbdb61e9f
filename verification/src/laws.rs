//! Properties of the contract that span entry points: the supply-chain
//! routes, the fate of deactivated waste, what a transfer does to ownership,
//! what a pause blocks, and read-after-write facts of the setters.
use vstd::prelude::*;
use crate::contract::{
    check_only_registered, check_require_admin, history_of, is_admin, is_registered, owned_by, participant_of,
    material_of, state_inv, valid_transfer, waste_of, ContractState,
};
use crate::contract::admin::{
    initialize_admin_after, initialize_admin_fault, pause_fault, remove_admin_after, remove_admin_fault,
    set_percentages_fault, transfer_admin_after, transfer_admin_fault, unpause_fault, with_config,
};
use crate::contract::incentives::{
    claim_fault, claim_reward, create_fault, deactivate_incentive_fault, drawn, owned_incentive_fault, update_fault,
};
use crate::contract::materials::{
    batch_fault, submit_after, submit_fault, submitted_material, transfer_v1_fault, verifier_fault, verify_fault,
};
use crate::contract::participants::{
    deregister_after, deregister_fault, existing_participant_fault, location_fault, new_participant, register_after,
    register_fault,
};
use crate::contract::rewards::Ledger;
use crate::contract::tokens::{
    distribute_fault, distribute_precheck, distribute_result, funded, distribution, distribution_total, donate_fault,
    gatherer_pass, holder_pass, pay, reward_tokens_fault, TokenPayment,
};
use crate::contract::wastes::{
    batch_item_fault, batch_items_fault, batch_transfer_fault, collected_fault, confirm_fault, deactivate_fault,
    move_item, recycle_after, recycle_fault, recycled_waste, reset_fault, transfer_record, transfer_v2_fault, unconfirmed, with_item,
};
use crate::events::ContractEvent;
use crate::types::{Address, Incentive, ParticipantRole, Waste, WasteType};

verus! {

/// Waste only moves forward along the supply chain: a permitted transfer
/// joins two different roles, never starts at a manufacturer, always ends at
/// a collector or a manufacturer, and can never be made in the opposite
/// direction; nobody can transfer to themselves.
pub proof fn law_supply_chain_routes(s: ContractState, from: Address, to: Address)
    ensures
        valid_transfer(s, from, to) ==> s.participants[from.0].role != s.participants[to.0].role,
        valid_transfer(s, from, to) ==> !(s.participants[from.0].role is Manufacturer),
        valid_transfer(s, from, to) ==> !(s.participants[to.0].role is Recycler),
        valid_transfer(s, from, to) ==> !valid_transfer(s, to, from),
        valid_transfer(s, from, to) ==> is_registered(s, from) && is_registered(s, to),
        !valid_transfer(s, from, from),
{
}

/// A batch that names an item whose own check fails is refused as a whole.
pub proof fn lemma_batch_refuses_bad_item(s: ContractState, ids: Seq<u128>, id: u128, to: Address)
    requires
        ids.contains(id),
        batch_item_fault(s, id, to) is Some,
    ensures
        batch_items_fault(s, ids, to) is Some,
    decreases ids.len(),
{
    if ids.last() != id {
        assert(ids.drop_last().contains(id)) by {
            let k = choose|k: int| 0 <= k < ids.len() && ids[k] == id;
            assert(ids.drop_last()[k] == id);
        }
        lemma_batch_refuses_bad_item(s, ids.drop_last(), id, to);
    }
}

/// Deactivation is final: a deactivated item can no longer be transferred,
/// alone or in a batch, nor confirmed, nor deactivated again, and clearing
/// its confirmation leaves it deactivated.
pub proof fn law_deactivation_is_final(
    s: ContractState,
    id: u128,
    from: Address,
    to: Address,
    ids: Seq<u128>,
    confirmer: Address,
    admin: Address,
)
    requires
        state_inv(s),
        waste_of(s, id) matches Some(w) && !w.is_active,
    ensures
        transfer_v2_fault(s, id, from, to) is Some,
        ids.contains(id) ==> batch_transfer_fault(s, ids, to) is Some,
        confirm_fault(s, id, confirmer) is Some,
        deactivate_fault(s, id, admin) is Some,
        waste_of(with_item(s, unconfirmed(s, id)), id) matches Some(w2) && !w2.is_active,
{
    if ids.contains(id) {
        lemma_batch_refuses_bad_item(s, ids, id, to);
    }
    assert(s.wastes[id - 1].spec_id() == id);
}

/// A transfer hands the item to the recipient: the recipient holds it (at
/// the end of their list), the sender no longer does, its history gains the
/// transfer record, every other item is untouched, and the state stays valid.
pub proof fn law_transfer_moves_ownership(
    s: ContractState,
    id: u128,
    from: Address,
    to: Address,
    latitude: i128,
    longitude: i128,
    now: u64,
    note: String,
)
    requires
        state_inv(s),
        transfer_v2_fault(s, id, from, to) is None,
    ensures
        ({
            let s2 = move_item(s, s, id, to, latitude, longitude, now, note);
            &&& waste_of(s2, id) == Some(Waste { current_owner: to, ..waste_of(s, id)->0 })
            &&& owned_by(s2, to) == owned_by(s, to).push(id)
            &&& !owned_by(s2, from).contains(id)
            &&& history_of(s2, id) == history_of(s, id).push(
                transfer_record(id, from, to, now, latitude, longitude, note),
            )
            &&& forall|j: u128| j != id ==> #[trigger] waste_of(s2, j) == waste_of(s, j)
            &&& state_inv(s2)
        }),
{
    broadcast use vstd::seq_lib::group_filter_ensures;
    let s2 = move_item(s, s, id, to, latitude, longitude, now, note);
    let rec = transfer_record(id, from, to, now, latitude, longitude, note);
    assert(s.wastes[id - 1].spec_id() == id);
    s.transfers.lemma_filter_push(rec, crate::contract::is_about(id));
    assert(owned_by(s2, to) == owned_by(s, to).push(id));
    if owned_by(s2, from).contains(id) {
        let k = choose|k: int| 0 <= k < owned_by(s2, from).len() && owned_by(s2, from)[k] == id;
        assert(crate::contract::wastes::not_id(id)(owned_by(s, from).filter(crate::contract::wastes::not_id(id))[k]));
    }
    assert forall|i: int| 0 <= i < s2.wastes.len() implies #[trigger] s2.wastes[i].spec_id() == i + 1 by {
        assert(s.wastes[i].spec_id() == i + 1);
    }
}

/// While the contract is paused every state-changing entry point of
/// participants, waste, incentives and tokens is refused; an admin can still
/// lift the pause.
pub proof fn law_pause_blocks_changes(s: ContractState)
    requires
        s.paused,
    ensures
        forall|a: Address, lat: i128, lon: i128| #[trigger] register_fault(s, a, lat, lon) is Some,
        forall|a: Address| #[trigger] existing_participant_fault(s, a) is Some,
        forall|a: Address| #[trigger] deregister_fault(s, a) is Some,
        forall|a: Address, lat: i128, lon: i128| #[trigger] location_fault(s, a, lat, lon) is Some,
        forall|a: Address, w: u64| #[trigger] submit_fault(s, a, w) is Some,
        forall|items: Seq<(WasteType, u64, String)>, a: Address| #[trigger] batch_fault(s, items, a) is Some,
        forall|v: Address| #[trigger] verifier_fault(s, v) is Some,
        forall|id: u64, v: Address| #[trigger] verify_fault(s, id, v) is Some,
        forall|id: u64, a: Address, b: Address| #[trigger] transfer_v1_fault(s, id, a, b) is Some,
        forall|a: Address, w: u128| #[trigger] recycle_fault(s, a, w) is Some,
        forall|id: u128, a: Address, b: Address| #[trigger] transfer_v2_fault(s, id, a, b) is Some,
        forall|ids: Seq<u128>, b: Address| #[trigger] batch_transfer_fault(s, ids, b) is Some,
        forall|a: Address, b: Address| #[trigger] collected_fault(s, a, b) is Some,
        forall|id: u128, a: Address| #[trigger] confirm_fault(s, id, a) is Some,
        forall|id: u128, a: Address| #[trigger] reset_fault(s, id, a) is Some,
        forall|a: Address| #[trigger] create_fault(s, a) is Some,
        forall|id: u64| #[trigger] owned_incentive_fault(s, id) is Some,
        forall|id: u64, p: u64, b: u64| #[trigger] update_fault(s, id, p, b) is Some,
        forall|id: u64, m: u64, a: Address| #[trigger] claim_fault(s, id, m, a) is Some,
        forall|id: u64, a: Address| #[trigger] deactivate_incentive_fault(s, id, a) is Some,
        forall|a: Address, amount: i128| #[trigger] donate_fault(s, a, amount) is Some,
        forall|a: Address, amount: i128| #[trigger] reward_tokens_fault(s, a, amount) is Some,
        forall|w: u64, i: u64, a: Address| #[trigger] distribute_fault(s, w, i, a) is Some,
        forall|a: Address| is_admin(s, a) ==> #[trigger] unpause_fault(s, a) is None,
{
}

/// Registration reads back: the address becomes registered with exactly the
/// record it was given, joins the end of the participant list, and any
/// further registration of it is refused.
pub proof fn law_registration_round_trip(
    s: ContractState,
    address: Address,
    role: ParticipantRole,
    name: String,
    latitude: i128,
    longitude: i128,
    now: u64,
    latitude2: i128,
    longitude2: i128,
)
    requires
        register_fault(s, address, latitude, longitude) is None,
    ensures
        ({
            let s2 = register_after(s, address, role, name, latitude, longitude, now);
            &&& is_registered(s2, address)
            &&& participant_of(s2, address) == Some(new_participant(address, role, name, latitude, longitude, now))
            &&& s2.index.last() == address
            &&& register_fault(s2, address, latitude2, longitude2) is Some
        }),
{
}

/// Deregistration keeps the record but takes the address off the
/// participant list, and the address can no longer act as a registered
/// participant.
pub proof fn law_deregistration(s: ContractState, address: Address)
    requires
        deregister_fault(s, address) is None,
    ensures
        ({
            let s2 = deregister_after(s, address);
            &&& !is_registered(s2, address)
            &&& participant_of(s2, address) is Some
            &&& !s2.index.contains(address)
            &&& check_only_registered(s2, address) is Some
            &&& existing_participant_fault(s2, address) is Some
        }),
{
    broadcast use vstd::seq_lib::group_filter_ensures;
    let s2 = deregister_after(s, address);
    if s2.index.contains(address) {
        let k = choose|k: int| 0 <= k < s2.index.len() && s2.index[k] == address;
        assert(crate::contract::participants::other_than(address)(s2.index[k]));
    }
}

/// The admin list is set up only once: after initialisation the single
/// admin holds admin rights and a second initialisation is refused.
pub proof fn law_admin_initialised_once(s: ContractState, admin: Address)
    requires
        initialize_admin_fault(s) is None,
    ensures
        initialize_admin_fault(initialize_admin_after(s, admin)) is Some,
        is_admin(initialize_admin_after(s, admin), admin),
{
    assert(seq![admin][0] == admin);
}

/// Handing the admin role over installs exactly the new list: its members
/// hold admin rights and nobody else does.
pub proof fn law_admin_transfer(s: ContractState, current: Address, new_admins: Seq<Address>, a: Address)
    requires
        transfer_admin_fault(s, current, new_admins) is None,
    ensures
        transfer_admin_after(s, current, new_admins).admins == Some(new_admins),
        is_admin(transfer_admin_after(s, current, new_admins), a) <==> new_admins.contains(a),
        !new_admins.contains(a) ==> check_require_admin(transfer_admin_after(s, current, new_admins), a) is Some,
{
}

/// Removing an admin takes away all of its rights and keeps every other
/// admin.
pub proof fn law_admin_removal(s: ContractState, current: Address, to_remove: Address, a: Address)
    requires
        remove_admin_fault(s, current, to_remove) is None,
    ensures
        !is_admin(remove_admin_after(s, to_remove), to_remove),
        a != to_remove ==> (is_admin(remove_admin_after(s, to_remove), a) <==> is_admin(s, a)),
{
    broadcast use vstd::seq_lib::group_filter_ensures;
    let l = s.admins->0;
    let p = crate::contract::admin::is_not(to_remove);
    let l2 = l.filter(p);
    if l2.contains(to_remove) {
        let k = choose|k: int| 0 <= k < l2.len() && l2[k] == to_remove;
        assert(p(l2[k]));
    }
    if a != to_remove && l.contains(a) {
        let k = choose|k: int| 0 <= k < l.len() && l[k] == a;
        assert(p(l[k]));
        assert(l2.contains(l[k]));
    }
    if a != to_remove && l2.contains(a) {
        let k = choose|k: int| 0 <= k < l2.len() && l2[k] == a;
        l.lemma_filter_contains_rev(p, a);
    }
}

/// The reward split reads back what was set, and an accepted split never
/// gives away more than the whole reward.
pub proof fn law_split_round_trip(s: ContractState, admin: Address, collector: u32, owner: u32)
    requires
        state_inv(s),
        set_percentages_fault(s, admin, collector, owner) is None,
    ensures
        with_config(s, collector, owner).config.collector_percentage == collector,
        with_config(s, collector, owner).config.owner_percentage == owner,
        collector + owner <= 100,
        state_inv(with_config(s, collector, owner)),
{
}

/// Pausing and unpausing are inverse: a second pause is refused, an admin
/// can lift the pause, and lifting it restores the state as it was before
/// the pause, with the two events added.
pub proof fn law_pause_round_trip(s: ContractState, admin: Address)
    requires
        pause_fault(s, admin) is None,
    ensures
        ({
            let s2 = ContractState { paused: true, events: s.events.push(ContractEvent::ContractPaused { admin }), ..s };
            let s3 = ContractState { paused: false, events: s2.events.push(ContractEvent::ContractUnpaused { admin }), ..s2 };
            &&& pause_fault(s2, admin) is Some
            &&& unpause_fault(s2, admin) is None
            &&& s3 == ContractState {
                events: s.events.push(ContractEvent::ContractPaused { admin }).push(ContractEvent::ContractUnpaused { admin }),
                ..s
            }
        }),
{
}

/// A claim is paid from the incentive's budget: it never pays more than the
/// remaining budget, the budget drops by exactly the amount paid, and the
/// incentive closes when its budget runs out.
pub proof fn law_claim_draws_budget(s: ContractState, incentive_id: u64, material_id: u64, claimer: Address)
    requires
        claim_fault(s, incentive_id, material_id, claimer) is None,
    ensures
        ({
            let inc = crate::contract::incentive_of(s, incentive_id)->0;
            let reward = claim_reward(s, incentive_id, material_id);
            let after = drawn(inc, reward);
            &&& 0 < reward <= inc.remaining_budget
            &&& after.remaining_budget == inc.remaining_budget - reward
            &&& after.active <==> after.remaining_budget > 0
            &&& after.total_budget == inc.total_budget
        }),
{
}

/// Sum of the amounts of a list of payments.
pub open spec fn paid_total(pays: Seq<TokenPayment>) -> int
    decreases pays.len(),
{
    if pays.len() == 0 {
        0
    } else {
        paid_total(pays.drop_last()) + pays.last().amount
    }
}

/// All payments come from `payer`.
pub open spec fn all_from(pays: Seq<TokenPayment>, payer: Address) -> bool {
    forall|i: int| 0 <= i < pays.len() ==> (#[trigger] pays[i]).from == payer
}

/// The collectors' pass pays, from the manufacturer, exactly the amount it
/// reports.
pub proof fn lemma_gatherer_paid(l: Ledger, hist: Seq<crate::types::WasteTransfer>, share: i128, manufacturer: Address, waste_id: u64)
    requires
        share >= 0,
    ensures
        gatherer_pass(l, hist, share, manufacturer, waste_id) matches Ok((_, pays, d)) ==> paid_total(pays) == d
            && all_from(pays, manufacturer),
    decreases hist.len(),
{
    if hist.len() > 0 {
        lemma_gatherer_paid(l, hist.drop_last(), share, manufacturer, waste_id);
        crate::contract::tokens::lemma_gatherer_nonneg(l, hist.drop_last(), share, manufacturer, waste_id);
        if let Ok((l1, pays, d)) = gatherer_pass(l, hist.drop_last(), share, manufacturer, waste_id) {
            if let Ok((l2, pays2)) = pay(l1, pays, manufacturer, hist.last().to, share, waste_id) {
                assert(pays2.drop_last() =~= pays);
                assert(pays2.last().amount == share);
                assert(paid_total(pays2) == d + share);
                assert forall|i: int| 0 <= i < pays2.len() implies (#[trigger] pays2[i]).from == manufacturer by {
                    if i < pays.len() {
                        assert(pays2[i] == pays[i]);
                    }
                }
            }
        }
    }
}

/// The collectors' part of a distribution: what the collectors' pass hands out.
pub open spec fn collectors_paid(s: ContractState, waste_id: u64, incentive_id: u64, manufacturer: Address) -> int {
    let m = crate::contract::material_of(s, waste_id)->0;
    let inc = crate::contract::incentive_of(s, incentive_id)->0;
    let total = distribution_total(inc, m.weight) as i128;
    let collector_share = (total * s.config.collector_percentage / 100) as i128;
    gatherer_pass(crate::contract::rewards::ledger_of(s), history_of(s, waste_id as u128), collector_share,
        manufacturer, waste_id)->Ok_0.2 as int
}

/// The holder's owner share of a distribution.
pub open spec fn owner_share(s: ContractState, waste_id: u64, incentive_id: u64) -> int {
    let m = crate::contract::material_of(s, waste_id)->0;
    let inc = crate::contract::incentive_of(s, incentive_id)->0;
    let total = distribution_total(inc, m.weight) as i128;
    (total * s.config.owner_percentage / 100) as int
}

/// A distribution pays out its whole total, all of it from the incentive's
/// creator: the payments add up to exactly the total, unless the collectors'
/// shares and the owner share together already exceed it, in which case
/// they add up to those shares.
pub proof fn law_distribution_pays_total(s: ContractState, waste_id: u64, incentive_id: u64, manufacturer: Address)
    requires
        distribute_fault(s, waste_id, incentive_id, manufacturer) is None,
    ensures
        ({
            let (total, pays) = distribute_result(s, waste_id, incentive_id, manufacturer);
            let paid = collectors_paid(s, waste_id, incentive_id, manufacturer) + owner_share(s, waste_id, incentive_id);
            &&& all_from(pays, manufacturer)
            &&& paid_total(pays) == if paid <= total { total as int } else { paid }
        }),
{
    let m = crate::contract::material_of(s, waste_id)->0;
    let inc = crate::contract::incentive_of(s, incentive_id)->0;
    let total = distribution_total(inc, m.weight) as i128;
    let collector_share = (total * s.config.collector_percentage / 100) as i128;
    let os = (total * s.config.owner_percentage / 100) as i128;
    assert(total >= 0) by (nonlinear_arith)
        requires
            total == (inc.reward_points as int * (m.weight / 1000) as int) as i128,
            inc.reward_points as int * (m.weight / 1000) as int <= i128::MAX,
            inc.reward_points >= 0,
            m.weight >= 0,
    ;
    assert(total * s.config.collector_percentage >= 0 && total * s.config.owner_percentage >= 0) by (nonlinear_arith)
        requires
            total >= 0,
    ;
    let l0 = crate::contract::rewards::ledger_of(s);
    let hist = history_of(s, waste_id as u128);
    lemma_gatherer_paid(l0, hist, collector_share, manufacturer, waste_id);
    crate::contract::tokens::lemma_gatherer_nonneg(l0, hist, collector_share, manufacturer, waste_id);
    let (l1, pays, d) = gatherer_pass(l0, hist, collector_share, manufacturer, waste_id)->Ok_0;
    let (l2, pays1) = pay(l1, pays, manufacturer, m.submitter, os, waste_id)->Ok_0;
    assert(pays1.drop_last() =~= pays);
    assert(paid_total(pays1) == d + os);
    assert(all_from(pays1, manufacturer)) by {
        assert forall|i: int| 0 <= i < pays1.len() implies (#[trigger] pays1[i]).from == manufacturer by {
            if i < pays.len() {
                assert(pays1[i] == pays[i]);
            }
        }
    }
    let rest = total - (d + os);
    if rest > 0 {
        let (l3, pays2) = pay(l2, pays1, manufacturer, m.submitter, rest as i128, waste_id)->Ok_0;
        assert(pays2.drop_last() =~= pays1);
        assert(paid_total(pays2) == total);
        assert forall|i: int| 0 <= i < pays2.len() implies (#[trigger] pays2[i]).from == manufacturer by {
            if i < pays1.len() {
                assert(pays2[i] == pays1[i]);
            }
        }
    }
}

/// A distribution is paid from the incentive's budget: its total never
/// exceeds the remaining budget, the budget drops by exactly the total, and
/// the incentive closes when the budget runs out.
pub proof fn law_distribution_draws_budget(s: ContractState, waste_id: u64, incentive_id: u64, manufacturer: Address)
    requires
        distribute_fault(s, waste_id, incentive_id, manufacturer) is None,
    ensures
        ({
            let inc = crate::contract::incentive_of(s, incentive_id)->0;
            let total = distribute_result(s, waste_id, incentive_id, manufacturer).0;
            let after = funded(inc, total);
            &&& 0 <= total <= inc.remaining_budget
            &&& after.remaining_budget == inc.remaining_budget - total
            &&& after.active <==> after.remaining_budget > 0
            &&& after.total_budget == inc.total_budget
        }),
{
    let m = crate::contract::material_of(s, waste_id)->0;
    let inc = crate::contract::incentive_of(s, incentive_id)->0;
    assert(distribution_total(inc, m.weight) >= 0) by (nonlinear_arith)
        requires
            inc.reward_points >= 0,
            m.weight >= 0,
    ;
}

/// A submitted material reads back under the next ID of the shared counter,
/// as a material and not as a v2 item; every earlier record is untouched and
/// the total weight grows by its weight.
pub proof fn law_submission_reads_back(
    s: ContractState,
    waste_type: WasteType,
    weight: u64,
    submitter: Address,
    description: String,
    now: u64,
)
    requires
        state_inv(s),
        submit_fault(s, submitter, weight) is None,
    ensures
        ({
            let m = submitted_material(s, waste_type, weight, submitter, description, now);
            let s2 = submit_after(s, m);
            &&& m.id == s.wastes.len() + 1
            &&& material_of(s2, m.id) == Some(m)
            &&& waste_of(s2, m.id as u128) is None
            &&& forall|j: u64| j != m.id ==> #[trigger] material_of(s2, j) == material_of(s, j)
            &&& forall|j: u128| j != m.id ==> #[trigger] waste_of(s2, j) == waste_of(s, j)
            &&& s2.total_weight == s.total_weight + weight
        }),
{
}

/// A registered v2 item reads back under the next ID of the shared counter,
/// active and unconfirmed, at the end of the recycler's holdings; every
/// earlier record is untouched.
pub proof fn law_recycling_reads_back(
    s: ContractState,
    waste_type: WasteType,
    weight: u128,
    recycler: Address,
    latitude: i128,
    longitude: i128,
    now: u64,
)
    requires
        state_inv(s),
        recycle_fault(s, recycler, weight) is None,
    ensures
        ({
            let w = recycled_waste(s, waste_type, weight, recycler, latitude, longitude, now);
            let s2 = recycle_after(s, w);
            &&& w.waste_id == s.wastes.len() + 1
            &&& waste_of(s2, w.waste_id) == Some(w)
            &&& w.is_active && !w.is_confirmed && w.current_owner == recycler
            &&& material_of(s2, w.waste_id as u64) is None
            &&& owned_by(s2, recycler) == owned_by(s, recycler).push(w.waste_id)
            &&& forall|j: u128| j != w.waste_id ==> #[trigger] waste_of(s2, j) == waste_of(s, j)
        }),
{
}

} // verus!
