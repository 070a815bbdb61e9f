//! Version 1 waste records: submitted materials, their verification and
//! reward, transfers, and queries.
use vstd::prelude::*;
use crate::contract::{
    check_not_paused, check_only_registered, check_require_registered, commits, either, history_of, is_about,
    material_of, state_inv, valid_transfer, ContractState, ScavengerContract, WasteRecord,
};
use crate::contract::rewards::{apply_ledger, ledger_of, lemma_rewards_keyed, material_rewards, Ledger};
use crate::errors::{Fault, Panic};
use crate::events::{emit_waste_transferred, ContractEvent};
use crate::types::{
    empty_stats, spec_reward_points, stats_after_submission, stats_after_verification, Address, Material, Participant,
    RecyclingStats, WasteTransfer, WasteType,
};

verus! {

broadcast use vstd::std_specs::hash::group_hash_axioms;

/// The statistics of `a`, or empty ones.
pub open spec fn stats_or_empty(s: ContractState, a: Address) -> RecyclingStats {
    if s.stats.contains_key(a.0) {
        s.stats[a.0]
    } else {
        empty_stats(a)
    }
}

/// The ID the next waste record receives.
pub open spec fn next_id(s: ContractState) -> int {
    s.wastes.len() as int + 1
}

pub open spec fn submit_fault(s: ContractState, submitter: Address, weight: u64) -> Option<Fault> {
    either(
        check_not_paused(s),
        either(
            check_only_registered(s, submitter),
            if weight == 0 {
                Some(Fault::Panic(Panic::WeightNotPositive))
            } else if s.wastes.len() >= u64::MAX {
                Some(Fault::Panic(Panic::ArithmeticOverflow))
            } else if s.participants[submitter.0].total_waste_processed + weight > u128::MAX {
                Some(Fault::Panic(Panic::WasteProcessedOverflow))
            } else if s.total_weight + weight > u64::MAX {
                Some(Fault::Panic(Panic::TotalWeightOverflow))
            } else {
                None
            },
        ),
    )
}

/// The material a submission creates.
pub open spec fn submitted_material(
    s: ContractState,
    waste_type: WasteType,
    weight: u64,
    submitter: Address,
    description: String,
    now: u64,
) -> Material {
    Material {
        id: next_id(s) as u64,
        waste_type,
        weight,
        submitter,
        submitted_at: now,
        verified: false,
        description,
    }
}

/// The participant with `weight` more grams processed.
pub open spec fn with_processed(p: Participant, weight: u64) -> Participant {
    Participant { total_waste_processed: (p.total_waste_processed + weight) as u128, ..p }
}

pub open spec fn submit_after(s: ContractState, m: Material) -> ContractState {
    ContractState {
        wastes: s.wastes.push(WasteRecord::Material(m)),
        stats: s.stats.insert(m.submitter.0, stats_after_submission(stats_or_empty(s, m.submitter), m)),
        participants: s.participants.insert(m.submitter.0, with_processed(s.participants[m.submitter.0], m.weight)),
        total_weight: (s.total_weight + m.weight) as u64,
        ..s
    }
}

/// A batch is refused at its first item that weighs nothing or would
/// overflow the ID counter or the running weight; otherwise yields the total
/// weight.
pub open spec fn batch_scan(count: int, weights: Seq<u64>) -> Result<int, Fault>
    decreases weights.len(),
{
    if weights.len() == 0 {
        Ok(0)
    } else {
        match batch_scan(count, weights.drop_last()) {
            Err(f) => Err(f),
            Ok(sum) => if weights.last() == 0 {
                Err(Fault::Panic(Panic::WeightNotPositive))
            } else if count + weights.len() > u64::MAX {
                Err(Fault::Panic(Panic::ArithmeticOverflow))
            } else if sum + weights.last() > u64::MAX {
                Err(Fault::Panic(Panic::BatchWeightOverflow))
            } else {
                Ok(sum + weights.last())
            },
        }
    }
}

/// The weights of a batch of submissions.
pub open spec fn batch_weights(items: Seq<(WasteType, u64, String)>) -> Seq<u64> {
    items.map_values(|it: (WasteType, u64, String)| it.1)
}

/// The materials a batch creates, in order.
pub open spec fn batch_materials(count: int, items: Seq<(WasteType, u64, String)>, submitter: Address, now: u64) -> Seq<Material> {
    Seq::new(
        items.len(),
        |i: int|
            Material {
                id: (count + i + 1) as u64,
                waste_type: items[i].0,
                weight: items[i].1,
                submitter,
                submitted_at: now,
                verified: false,
                description: items[i].2,
            },
    )
}

/// The materials of `ms` as waste records.
pub open spec fn material_records(ms: Seq<Material>) -> Seq<WasteRecord> {
    ms.map_values(|m: Material| WasteRecord::Material(m))
}

/// Statistics after recording each material of `ms` in order.
pub open spec fn stats_after_all(st: RecyclingStats, ms: Seq<Material>) -> RecyclingStats
    decreases ms.len(),
{
    if ms.len() == 0 {
        st
    } else {
        stats_after_submission(stats_after_all(st, ms.drop_last()), ms.last())
    }
}

pub open spec fn batch_fault(s: ContractState, items: Seq<(WasteType, u64, String)>, submitter: Address) -> Option<Fault> {
    either(
        check_not_paused(s),
        either(
            check_only_registered(s, submitter),
            match batch_scan(s.wastes.len() as int, batch_weights(items)) {
                Err(f) => Some(f),
                Ok(total) => if s.participants[submitter.0].total_waste_processed + total > u128::MAX {
                    Some(Fault::Panic(Panic::WasteProcessedOverflow))
                } else {
                    None
                },
            },
        ),
    )
}

pub open spec fn batch_after(s: ContractState, items: Seq<(WasteType, u64, String)>, submitter: Address, now: u64) -> ContractState {
    let ms = batch_materials(s.wastes.len() as int, items, submitter, now);
    let total = batch_scan(s.wastes.len() as int, batch_weights(items))->Ok_0;
    ContractState {
        wastes: s.wastes + material_records(ms),
        stats: s.stats.insert(submitter.0, stats_after_all(stats_or_empty(s, submitter), ms)),
        participants: s.participants.insert(
            submitter.0,
            Participant {
                total_waste_processed: (s.participants[submitter.0].total_waste_processed + total) as u128,
                ..s.participants[submitter.0]
            },
        ),
        ..s
    }
}

/// Checks on the verifier.
pub open spec fn verifier_fault(s: ContractState, verifier: Address) -> Option<Fault> {
    either(
        check_not_paused(s),
        if !s.participants.contains_key(verifier.0) {
            Some(Fault::Panic(Panic::VerifierNotFound))
        } else if !s.participants[verifier.0].is_registered {
            Some(Fault::Panic(Panic::VerifierNotRegistered))
        } else if !s.participants[verifier.0].role.spec_can_process_recyclables() {
            Some(Fault::Panic(Panic::OnlyRecyclersVerify))
        } else {
            None
        },
    )
}

/// The reward of verifying material `m`, computed on `s`.
pub open spec fn verification_reward(s: ContractState, m: Material) -> Result<Ledger, Fault> {
    material_rewards(
        ledger_of(s),
        s.config,
        history_of(s, m.id as u128),
        m.submitter,
        m.id,
        spec_reward_points(m.waste_type, m.weight) as u128,
    )
}

/// Verifying one existing material: refused only by its reward.
pub open spec fn verify_step(s: ContractState, m: Material) -> Result<ContractState, Fault> {
    let v = Material { verified: true, ..m };
    match verification_reward(s, v) {
        Err(f) => Err(f),
        Ok(l) => Ok(apply_ledger(
            ContractState {
                wastes: s.wastes.update(m.id - 1, WasteRecord::Material(v)),
                stats: s.stats.insert(m.submitter.0, stats_after_verification(stats_or_empty(s, m.submitter), v)),
                ..s
            },
            l,
        )),
    }
}

pub open spec fn verify_fault(s: ContractState, id: u64, verifier: Address) -> Option<Fault> {
    either(
        verifier_fault(s, verifier),
        match material_of(s, id) {
            None => Some(Fault::Panic(Panic::MaterialNotFound)),
            Some(m) => match verify_step(s, m) {
                Err(f) => Some(f),
                Ok(_) => None,
            },
        },
    )
}

/// Verifying the materials of `ids` in order, skipping unknown IDs.
pub open spec fn verify_all(s: ContractState, ids: Seq<u64>) -> Result<(ContractState, Seq<Material>), Fault>
    decreases ids.len(),
{
    if ids.len() == 0 {
        Ok((s, Seq::empty()))
    } else {
        match verify_all(s, ids.drop_last()) {
            Err(f) => Err(f),
            Ok((s1, done)) => match material_of(s1, ids.last()) {
                None => Ok((s1, done)),
                Some(m) => match verify_step(s1, m) {
                    Err(f) => Err(f),
                    Ok(s2) => Ok((s2, done.push(Material { verified: true, ..m }))),
                },
            },
        }
    }
}

pub open spec fn transfer_v1_fault(s: ContractState, id: u64, from: Address, to: Address) -> Option<Fault> {
    either(
        check_not_paused(s),
        either(
            check_require_registered(s, from),
            either(
                check_require_registered(s, to),
                match material_of(s, id) {
                    None => Some(Fault::Panic(Panic::WasteNotFound)),
                    Some(m) => if m.submitter != from {
                        Some(Fault::Panic(Panic::OnlyOwnerCanTransfer))
                    } else if from == to {
                        Some(Fault::Panic(Panic::SelfTransfer))
                    } else if !valid_transfer(s, from, to) {
                        Some(Fault::Panic(Panic::InvalidRoute))
                    } else {
                        None
                    },
                },
            ),
        ),
    )
}

pub open spec fn transfer_v1_after(s: ContractState, id: u64, from: Address, to: Address, now: u64, note: String) -> ContractState {
    let m = material_of(s, id)->0;
    ContractState {
        wastes: s.wastes.update(id - 1, WasteRecord::Material(Material { submitter: to, ..m })),
        events: s.events.push(ContractEvent::WasteTransferred { waste_id: id, from, to }),
        transfers: s.transfers.push(
            WasteTransfer { waste_id: id as u128, from, to, transferred_at: now, latitude: 0, longitude: 0, note },
        ),
        ..s
    }
}

/// IDs of the v1 materials held by `a`, in ID order.
pub open spec fn materials_held(ws: Seq<WasteRecord>, a: Address) -> Seq<u64>
    decreases ws.len(),
{
    if ws.len() == 0 {
        Seq::empty()
    } else {
        let rest = materials_held(ws.drop_last(), a);
        match ws.last() {
            WasteRecord::Material(m) => if m.submitter == a {
                rest.push(m.id)
            } else {
                rest
            },
            WasteRecord::Item(_) => rest,
        }
    }
}

impl ScavengerContract {
    /// Statistics of `a` (empty ones when none are recorded).
    fn stats_copy(&self, a: Address) -> (r: RecyclingStats)
        ensures
            r == stats_or_empty(self@, a),
    {
        match self.stats.get(&a.0) {
            Some(st) => *st,
            None => RecyclingStats::new(a),
        }
    }

    /// Submits one material; it receives the next waste ID.
    pub fn submit_material(
        &mut self,
        waste_type: WasteType,
        weight: u64,
        submitter: Address,
        description: String,
        now: u64,
    ) -> (r: Result<Material, Fault>)
        requires
            old(self).wf(),
        ensures
            final(self).wf(),
            commits(old(self)@, final(self)@, r, submit_fault(old(self)@, submitter, weight),
                submit_after(old(self)@, submitted_material(old(self)@, waste_type, weight, submitter, description, now)),
                submitted_material(old(self)@, waste_type, weight, submitter, description, now)),
    {
        if let Some(f) = self.check_not_paused() {
            return Err(f);
        }
        if let Some(f) = self.check_only_registered(submitter) {
            return Err(f);
        }
        if weight == 0 {
            return Err(Fault::Panic(Panic::WeightNotPositive));
        }
        if self.wastes.len() as u64 >= u64::MAX {
            return Err(Fault::Panic(Panic::ArithmeticOverflow));
        }
        let mut p = self.participants.get(&submitter.0).unwrap().duplicate();
        let processed = match p.total_waste_processed.checked_add(weight as u128) {
            None => return Err(Fault::Panic(Panic::WasteProcessedOverflow)),
            Some(x) => x,
        };
        let total_weight = match self.total_weight.checked_add(weight) {
            None => return Err(Fault::Panic(Panic::TotalWeightOverflow)),
            Some(x) => x,
        };
        let id = self.wastes.len() as u64 + 1;
        let m = Material::new(id, waste_type, weight, submitter, now, description);
        let mut st = self.stats_copy(submitter);
        st.record_submission(&m);
        self.stats.insert(submitter.0, st);
        p.total_waste_processed = processed;
        self.participants.insert(submitter.0, p);
        self.total_weight = total_weight;
        self.wastes.push(WasteRecord::Material(m.duplicate()));
        assert(self@ =~= submit_after(old(self)@, m));
        Ok(m)
    }

    /// Submits several materials in one call; each receives the next waste ID.
    pub fn submit_materials_batch(
        &mut self,
        materials: Vec<(WasteType, u64, String)>,
        submitter: Address,
        now: u64,
    ) -> (r: Result<Vec<Material>, Fault>)
        requires
            old(self).wf(),
        ensures
            final(self).wf(),
            match batch_fault(old(self)@, materials@, submitter) {
                Some(f) => r == Err::<Vec<Material>, Fault>(f) && final(self)@ == old(self)@,
                None => r matches Ok(v) && v@ == batch_materials(old(self)@.wastes.len() as int, materials@, submitter, now)
                    && final(self)@ == batch_after(old(self)@, materials@, submitter, now),
            },
    {
        if let Some(f) = self.check_not_paused() {
            return Err(f);
        }
        if let Some(f) = self.check_only_registered(submitter) {
            return Err(f);
        }
        let count = self.wastes.len();
        let ghost ws = batch_weights(materials@);
        // Checks every item before anything is stored.
        let mut total: u64 = 0;
        let mut i: usize = 0;
        assert(ws.take(0) =~= Seq::<u64>::empty());
        while i < materials.len()
            invariant
                i <= materials.len(),
                self@ == old(self)@,
                self.wf(),
                check_not_paused(old(self)@) is None,
                check_only_registered(old(self)@, submitter) is None,
                count == old(self)@.wastes.len(),
                old(self)@.wastes.len() <= u64::MAX,
                ws == batch_weights(materials@),
                batch_scan(count as int, ws.take(i as int)) == Ok::<int, Fault>(total as int),
            decreases materials.len() - i,
        {
            proof {
                assert(ws.take(i + 1).drop_last() =~= ws.take(i as int));
                assert(ws.take(i + 1).last() == materials@[i as int].1);
            }
            if materials[i].1 == 0 {
                proof { lemma_scan_err_extends(count as int, ws, i + 1); }
                return Err(Fault::Panic(Panic::WeightNotPositive));
            }
            if count as u64 >= u64::MAX - i as u64 {
                proof {
                    assert(batch_scan(count as int, ws.take(i + 1)) == Err::<int, Fault>(Fault::Panic(Panic::ArithmeticOverflow)));
                    lemma_scan_err_extends(count as int, ws, i + 1);
                    assert(batch_scan(count as int, ws) == Err::<int, Fault>(Fault::Panic(Panic::ArithmeticOverflow)));
                }
                return Err(Fault::Panic(Panic::ArithmeticOverflow));
            }
            total = match total.checked_add(materials[i].1) {
                None => {
                    proof { lemma_scan_err_extends(count as int, ws, i + 1); }
                    return Err(Fault::Panic(Panic::BatchWeightOverflow));
                },
                Some(t) => t,
            };
            i = i + 1;
        }
        assert(ws.take(materials.len() as int) =~= ws);
        let mut p = self.participants.get(&submitter.0).unwrap().duplicate();
        let processed = match p.total_waste_processed.checked_add(total as u128) {
            None => return Err(Fault::Panic(Panic::WasteProcessedOverflow)),
            Some(x) => x,
        };
        let mut records: Vec<WasteRecord> = Vec::new();
        let ghost ms = batch_materials(count as int, materials@, submitter, now);
        let mut st = self.stats_copy(submitter);
        let ghost st0 = st;
        let mut results: Vec<Material> = Vec::new();
        let mut k: usize = 0;
        while k < materials.len()
            invariant
                k <= materials.len(),
                count == old(self)@.wastes.len(),
                self@ == old(self)@,
                ms == batch_materials(count as int, materials@, submitter, now),
                ws == batch_weights(materials@),
                batch_scan(count as int, ws) == Ok::<int, Fault>(total as int),
                results@ == ms.take(k as int),
                records@ == material_records(ms.take(k as int)),
                st == stats_after_all(st0, ms.take(k as int)),
            decreases materials.len() - k,
        {
            proof { lemma_scan_bound(count as int, ws, k as int); }
            let id = count as u64 + k as u64 + 1;
            let item = &materials[k];
            let m = Material::new(id, item.0, item.1, submitter, now, item.2.clone());
            st.record_submission(&m);
            records.push(WasteRecord::Material(m.duplicate()));
            results.push(m);
            k = k + 1;
            proof {
                assert(ms.take(k as int).drop_last() =~= ms.take(k - 1));
                assert(results@ =~= ms.take(k as int));
                assert(records@ =~= material_records(ms.take(k as int)));
            }
        }
        assert(ms.take(materials.len() as int) =~= ms);
        self.wastes.append(&mut records);
        self.stats.insert(submitter.0, st);
        p.total_waste_processed = processed;
        self.participants.insert(submitter.0, p);
        proof {
            let s1 = self@;
            assert forall|j: int| 0 <= j < s1.wastes.len() implies #[trigger] s1.wastes[j].spec_id() == j + 1 by {
                if j >= count {
                    assert(s1.wastes[j] == WasteRecord::Material(ms[j - count]));
                }
            }
        }
        proof {
            let after = batch_after(old(self)@, materials@, submitter, now);
            assert(self@.wastes =~= after.wastes);
            assert(self@.stats =~= after.stats);
            assert(self@.participants =~= after.participants);
        }
        assert(self@ =~= batch_after(old(self)@, materials@, submitter, now));
        Ok(results)
    }

    /// The transfers of waste `id` (a material or a v2 item), oldest first.
    pub fn get_transfer_history(&self, waste_id: u64) -> (r: Vec<WasteTransfer>)
        ensures
            r@ == history_of(self@, waste_id as u128),
    {
        self.history(waste_id as u128)
    }

    /// Same as `get_transfer_history`.
    pub fn get_waste_transfer_history(&self, waste_id: u64) -> (r: Vec<WasteTransfer>)
        ensures
            r@ == history_of(self@, waste_id as u128),
    {
        self.history(waste_id as u128)
    }

    pub(crate) fn history(&self, id: u128) -> (r: Vec<WasteTransfer>)
        ensures
            r@ == history_of(self@, id),
    {
        let ghost pred = is_about(id);
        let mut out: Vec<WasteTransfer> = Vec::new();
        let mut i: usize = 0;
        while i < self.transfers.len()
            invariant
                i <= self.transfers.len(),
                pred == is_about(id),
                out@ == self.transfers@.take(i as int).filter(pred),
            decreases self.transfers.len() - i,
        {
            proof {
                self.transfers@.take(i as int).lemma_filter_push(self.transfers@[i as int], pred);
                assert(self.transfers@.take(i as int).push(self.transfers@[i as int]) =~= self.transfers@.take(i + 1));
            }
            if self.transfers[i].waste_id == id {
                out.push(self.transfers[i].duplicate());
            }
            i = i + 1;
        }
        assert(self.transfers@.take(self.transfers.len() as int) =~= self.transfers@);
        out
    }

    /// Checks on the verifier of a material.
    fn check_verifier(&self, verifier: Address) -> (r: Option<Fault>)
        ensures
            r == verifier_fault(self@, verifier),
    {
        if let Some(f) = self.check_not_paused() {
            return Some(f);
        }
        match self.participants.get(&verifier.0) {
            None => Some(Fault::Panic(Panic::VerifierNotFound)),
            Some(p) => if !p.is_registered {
                Some(Fault::Panic(Panic::VerifierNotRegistered))
            } else if !p.role.can_process_recyclables() {
                Some(Fault::Panic(Panic::OnlyRecyclersVerify))
            } else {
                None
            },
        }
    }

    /// Verifies the material at position `i` and pays its reward, or changes nothing.
    fn verify_at(&mut self, i: usize) -> (r: Result<Material, Fault>)
        requires
            old(self).wf(),
            i < old(self)@.wastes.len(),
            old(self)@.wastes[i as int] is Material,
        ensures
            final(self).wf(),
            match verify_step(old(self)@, old(self)@.wastes[i as int]->Material_0) {
                Err(f) => r == Err::<Material, Fault>(f) && final(self)@ == old(self)@,
                Ok(s2) => r == Ok::<Material, Fault>(Material { verified: true, ..old(self)@.wastes[i as int]->Material_0 })
                    && final(self)@ == s2,
            },
    {
        let mut m = match &self.wastes[i] {
            WasteRecord::Material(m) => m.duplicate(),
            WasteRecord::Item(_) => return Err(Fault::Panic(Panic::MaterialNotFound)),
        };
        proof { assert(self@.wastes[i as int].spec_id() == i + 1); }
        m.verified = true;
        let points = m.calculate_reward_points();
        let hist = self.history(m.id as u128);
        let mut ledger = self.ledger();
        let config = self.config;
        proof { lemma_rewards_keyed(ledger_of(self@), config, hist@, m.submitter, m.id, points as u128); }
        if let Err(f) = ledger.material_rewards(config, &hist, m.submitter, m.id, points as u128) {
            return Err(f);
        }
        let mut st = self.stats_copy(m.submitter);
        st.record_verification(&m);
        self.stats.insert(m.submitter.0, st);
        self.wastes.set(i, WasteRecord::Material(m.duplicate()));
        self.apply_ledger(ledger);
        proof {
            let s1 = self@;
            assert forall|j: int| 0 <= j < s1.wastes.len() implies #[trigger] s1.wastes[j].spec_id() == j + 1 by {
                if j != i {
                    assert(s1.wastes[j] == old(self)@.wastes[j]);
                }
            }
        }
        Ok(m)
    }

    /// Verifies a material (a registered recycler only) and pays its reward
    /// along the supply chain.
    pub fn verify_material(&mut self, material_id: u64, verifier: Address) -> (r: Result<Material, Fault>)
        requires
            old(self).wf(),
        ensures
            final(self).wf(),
            commits(old(self)@, final(self)@, r, verify_fault(old(self)@, material_id, verifier),
                verify_step(old(self)@, material_of(old(self)@, material_id)->0)->Ok_0,
                Material { verified: true, ..material_of(old(self)@, material_id)->0 }),
            r is Ok ==> forall|k: u64| #[trigger] old(self)@.participants.contains_key(k) ==> {
                &&& final(self)@.participants.contains_key(k)
                &&& final(self)@.participants[k].total_tokens_earned == old(self)@.participants[k].total_tokens_earned
                    + crate::payout_laws::verification_credit(old(self)@, material_id, k)
            },
    {
        if let Some(f) = self.check_verifier(verifier) {
            return Err(f);
        }
        let i = match self.material_index(material_id) {
            None => return Err(Fault::Panic(Panic::MaterialNotFound)),
            Some(i) => i,
        };
        let r = self.verify_at(i);
        proof {
            if r is Ok {
                assert forall|k: u64| #[trigger] old(self)@.participants.contains_key(k) implies {
                    &&& self@.participants.contains_key(k)
                    &&& self@.participants[k].total_tokens_earned == old(self)@.participants[k].total_tokens_earned
                        + crate::payout_laws::verification_credit(old(self)@, material_id, k)
                } by {
                    crate::payout_laws::law_verification_credits(old(self)@, material_id, verifier, Address(k));
                }
            }
        }
        r
    }

    /// Verifies several materials in order, skipping unknown IDs; either all
    /// succeed or nothing changes.
    pub fn verify_materials_batch(&mut self, material_ids: Vec<u64>, verifier: Address) -> (r: Result<Vec<Material>, Fault>)
        requires
            old(self).wf(),
        ensures
            final(self).wf(),
            match either(verifier_fault(old(self)@, verifier),
                match verify_all(old(self)@, material_ids@) { Err(f) => Some(f), Ok(_) => None }) {
                Some(f) => r == Err::<Vec<Material>, Fault>(f) && final(self)@ == old(self)@,
                None => r matches Ok(v) && v@ == verify_all(old(self)@, material_ids@)->Ok_0.1
                    && final(self)@ == verify_all(old(self)@, material_ids@)->Ok_0.0,
            },
            r matches Ok(v) ==> forall|i: int| 0 <= i < v.len() ==> (#[trigger] v@[i]).verified
                && material_of(final(self)@, v@[i].id) == Some(v@[i]),
    {
        if let Some(f) = self.check_verifier(verifier) {
            return Err(f);
        }
        let mut work = self.snapshot();
        let ghost s0 = self@;
        let mut results: Vec<Material> = Vec::new();
        let mut k: usize = 0;
        assert(material_ids@.take(0) =~= Seq::<u64>::empty());
        while k < material_ids.len()
            invariant
                k <= material_ids.len(),
                s0 == old(self)@,
                self.wf(),
                verifier_fault(old(self)@, verifier) is None,
                self@ == old(self)@,
                work.wf(),
                verify_all(s0, material_ids@.take(k as int)) == Ok::<(ContractState, Seq<Material>), Fault>((work@, results@)),
            decreases material_ids.len() - k,
        {
            proof { assert(material_ids@.take(k + 1).drop_last() =~= material_ids@.take(k as int)); }
            match work.material_index(material_ids[k]) {
                None => {},
                Some(i) => {
                    match work.verify_at(i) {
                        Err(f) => {
                            proof { lemma_verify_all_err_extends(s0, material_ids@, k + 1); }
                            return Err(f);
                        },
                        Ok(m) => {
                            results.push(m);
                        },
                    }
                },
            }
            k = k + 1;
        }
        assert(material_ids@.take(material_ids.len() as int) =~= material_ids@);
        *self = work;
        proof {
            crate::payout_laws::law_batch_verification_returns_stored(old(self)@, material_ids@);
        }
        Ok(results)
    }

    /// The v1 material with the given ID, if any.
    pub fn get_waste(&self, waste_id: u64) -> (r: Option<Material>)
        requires
            self.wf(),
        ensures
            r == material_of(self@, waste_id),
    {
        match self.material_index(waste_id) {
            None => None,
            Some(i) => match &self.wastes[i] {
                WasteRecord::Material(m) => Some(m.duplicate()),
                WasteRecord::Item(_) => None,
            },
        }
    }

    /// Same as `get_waste`.
    pub fn get_material(&self, material_id: u64) -> (r: Option<Material>)
        requires
            self.wf(),
        ensures
            r == material_of(self@, material_id),
    {
        self.get_waste(material_id)
    }

    /// Same as `get_waste`.
    pub fn get_waste_by_id(&self, waste_id: u64) -> (r: Option<Material>)
        requires
            self.wf(),
        ensures
            r == material_of(self@, waste_id),
    {
        self.get_waste(waste_id)
    }

    /// Whether a v1 material has the given ID.
    pub fn waste_exists(&self, waste_id: u64) -> (r: bool)
        requires
            self.wf(),
        ensures
            r == material_of(self@, waste_id) is Some,
    {
        self.material_index(waste_id).is_some()
    }

    /// The materials of several IDs (`None` for an unknown ID), in order.
    pub fn get_wastes_batch(&self, waste_ids: Vec<u64>) -> (r: Vec<Option<Material>>)
        requires
            self.wf(),
        ensures
            r@.len() == waste_ids@.len(),
            forall|i: int| 0 <= i < waste_ids@.len() ==> #[trigger] r@[i] == material_of(self@, waste_ids@[i]),
    {
        let mut out: Vec<Option<Material>> = Vec::new();
        let mut i: usize = 0;
        while i < waste_ids.len()
            invariant
                i <= waste_ids.len(),
                self.wf(),
                out@.len() == i,
                forall|j: int| 0 <= j < i ==> #[trigger] out@[j] == material_of(self@, waste_ids@[j]),
            decreases waste_ids.len() - i,
        {
            out.push(self.get_waste(waste_ids[i]));
            i = i + 1;
        }
        out
    }

    /// IDs of the v1 materials currently held by `participant`, in ID order.
    pub fn get_participant_wastes(&self, participant: Address) -> (r: Vec<u64>)
        requires
            self.wf(),
        ensures
            r@ == materials_held(self@.wastes, participant),
    {
        let mut out: Vec<u64> = Vec::new();
        let mut i: usize = 0;
        while i < self.wastes.len()
            invariant
                i <= self.wastes.len(),
                out@ == materials_held(self@.wastes.take(i as int), participant),
            decreases self.wastes.len() - i,
        {
            proof { assert(self@.wastes.take(i + 1).drop_last() =~= self@.wastes.take(i as int)); }
            match &self.wastes[i] {
                WasteRecord::Material(m) => if m.submitter == participant {
                    out.push(m.id);
                },
                WasteRecord::Item(_) => {},
            }
            i = i + 1;
        }
        assert(self@.wastes.take(self.wastes.len() as int) =~= self@.wastes);
        out
    }

    /// Hands a v1 material to another participant along a permitted route.
    pub fn transfer_waste(
        &mut self,
        waste_id: u64,
        from: Address,
        to: Address,
        note: String,
        now: u64,
    ) -> (r: Result<Material, Fault>)
        requires
            old(self).wf(),
        ensures
            final(self).wf(),
            transfer_v1_fault(old(self)@, waste_id, from, to) is None ==> final(self)@.transfers.last().note@ == "note"@,
            commits(old(self)@, final(self)@, r, transfer_v1_fault(old(self)@, waste_id, from, to),
                transfer_v1_after(old(self)@, waste_id, from, to, now, final(self)@.transfers.last().note),
                Material { submitter: to, ..material_of(old(self)@, waste_id)->0 }),
    {
        if let Some(f) = self.check_not_paused() {
            return Err(f);
        }
        if let Some(f) = self.check_require_registered(from) {
            return Err(f);
        }
        if let Some(f) = self.check_require_registered(to) {
            return Err(f);
        }
        let i = match self.material_index(waste_id) {
            None => return Err(Fault::Panic(Panic::WasteNotFound)),
            Some(i) => i,
        };
        let mut m = match &self.wastes[i] {
            WasteRecord::Material(m) => m.duplicate(),
            WasteRecord::Item(_) => return Err(Fault::Panic(Panic::WasteNotFound)),
        };
        if m.submitter != from {
            return Err(Fault::Panic(Panic::OnlyOwnerCanTransfer));
        }
        if from == to {
            return Err(Fault::Panic(Panic::SelfTransfer));
        }
        if !self.is_valid_transfer(from, to) {
            return Err(Fault::Panic(Panic::InvalidRoute));
        }
        proof { assert(self@.wastes[i as int].spec_id() == i + 1); }
        m.submitter = to;
        self.wastes.set(i, WasteRecord::Material(m.duplicate()));
        emit_waste_transferred(&mut self.events, waste_id, &from, &to);
        let label = String::from_str("note");
        self.transfers.push(WasteTransfer {
            waste_id: waste_id as u128,
            from,
            to,
            transferred_at: now,
            latitude: 0,
            longitude: 0,
            note: label,
        });
        proof {
            let s1 = self@;
            assert forall|j: int| 0 <= j < s1.wastes.len() implies #[trigger] s1.wastes[j].spec_id() == j + 1 by {
                if j != i {
                    assert(s1.wastes[j] == old(self)@.wastes[j]);
                }
            }
        }
        assert(self@ =~= transfer_v1_after(old(self)@, waste_id, from, to, now, self@.transfers.last().note));
        Ok(m)
    }

    /// Outbound transfers by participant; no sender index is kept, so the list is empty.
    pub fn get_transfers_from(&self, address: Address) -> (r: Vec<(u64, Vec<WasteTransfer>)>)
        ensures
            r@.len() == 0,
    {
        Vec::new()
    }

    /// Inbound transfers by participant; no receiver index is kept, so the list is empty.
    pub fn get_transfers_to(&self, address: Address) -> (r: Vec<(u64, Vec<WasteTransfer>)>)
        ensures
            r@.len() == 0,
    {
        Vec::new()
    }
}

/// A refused prefix refuses the whole batch scan.
pub proof fn lemma_scan_err_extends(count: int, ws: Seq<u64>, j: int)
    requires
        0 <= j <= ws.len(),
        batch_scan(count, ws.take(j)) is Err,
    ensures
        batch_scan(count, ws) == batch_scan(count, ws.take(j)),
    decreases ws.len() - j,
{
    if j == ws.len() {
        assert(ws.take(j) =~= ws);
    } else {
        assert(ws.take(j + 1).drop_last() =~= ws.take(j));
        lemma_scan_err_extends(count, ws, j + 1);
    }
}

/// A successful scan bounds the IDs it allocates.
pub proof fn lemma_scan_bound(count: int, ws: Seq<u64>, k: int)
    requires
        0 <= k < ws.len(),
        batch_scan(count, ws) is Ok,
    ensures
        count + k + 1 <= u64::MAX,
    decreases ws.len(),
{
    if k < ws.len() - 1 {
        lemma_scan_bound(count, ws.drop_last(), k);
    }
}

/// A refused prefix refuses the whole batch of verifications.
pub proof fn lemma_verify_all_err_extends(s: ContractState, ids: Seq<u64>, j: int)
    requires
        0 <= j <= ids.len(),
        verify_all(s, ids.take(j)) is Err,
    ensures
        verify_all(s, ids) == verify_all(s, ids.take(j)),
    decreases ids.len() - j,
{
    if j == ids.len() {
        assert(ids.take(j) =~= ids);
    } else {
        assert(ids.take(j + 1).drop_last() =~= ids.take(j));
        lemma_verify_all_err_extends(s, ids, j + 1);
    }
}

} // verus!
