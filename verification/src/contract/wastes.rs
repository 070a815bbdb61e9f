//! Version 2 waste items: registration with location, transfers along the
//! supply chain, confirmation, deactivation, and queries.
use vstd::prelude::*;
use crate::contract::{
    check_not_paused, check_only_admin, check_only_registered, check_only_waste_owner, check_require_registered,
    commits, either, history_of, owned_by, valid_transfer, waste_of, ContractState, ScavengerContract, WasteRecord,
};
use crate::errors::{Error, Fault, Panic};
use crate::events::{emit_waste_confirmed, emit_waste_registered, ContractEvent};
use crate::types::{Address, Waste, WasteTransfer, WasteType};

verus! {

broadcast use vstd::std_specs::hash::group_hash_axioms;

/// Keeps every ID but `id`.
pub open spec fn not_id(id: u128) -> spec_fn(u128) -> bool {
    |x: u128| x != id
}

/// A string holding exactly `label`.
pub open spec fn labelled(n: String, label: Seq<char>) -> bool {
    n@ == label
}

pub open spec fn recycle_fault(s: ContractState, recycler: Address, weight: u128) -> Option<Fault> {
    either(
        check_not_paused(s),
        either(
            check_only_registered(s, recycler),
            if weight == 0 {
                Some(Fault::Panic(Panic::WeightNotPositive))
            } else if s.wastes.len() >= u64::MAX {
                Some(Fault::Panic(Panic::ArithmeticOverflow))
            } else {
                None
            },
        ),
    )
}

/// The waste item a registration creates: active, unconfirmed, held by the recycler.
pub open spec fn recycled_waste(
    s: ContractState,
    waste_type: WasteType,
    weight: u128,
    recycler: Address,
    latitude: i128,
    longitude: i128,
    now: u64,
) -> Waste {
    Waste {
        waste_id: (s.wastes.len() + 1) as u128,
        waste_type,
        weight,
        current_owner: recycler,
        latitude,
        longitude,
        recycled_timestamp: now,
        is_active: true,
        is_confirmed: false,
        confirmer: recycler,
    }
}

pub open spec fn recycle_after(s: ContractState, w: Waste) -> ContractState {
    ContractState {
        wastes: s.wastes.push(WasteRecord::Item(w)),
        owned: s.owned.insert(w.current_owner.0, owned_by(s, w.current_owner).push(w.waste_id)),
        events: s.events.push(
            ContractEvent::WasteRegistered {
                waste_id: w.waste_id,
                recycler: w.current_owner,
                waste_type: w.waste_type,
                weight: w.weight,
                latitude: w.latitude,
                longitude: w.longitude,
            },
        ),
        ..s
    }
}

/// Checks of a single transfer of item `id` from `from` to `to`.
pub open spec fn transfer_v2_fault(s: ContractState, id: u128, from: Address, to: Address) -> Option<Fault> {
    either(
        check_not_paused(s),
        match waste_of(s, id) {
            None => Some(Fault::Error(Error::WasteNotFound)),
            Some(w) => if w.current_owner != from {
                Some(Fault::Panic(Panic::NotWasteOwner))
            } else {
                either(
                    check_require_registered(s, from),
                    either(
                        check_require_registered(s, to),
                        if !w.is_active {
                            Some(Fault::Error(Error::WasteDeactivated))
                        } else if from == to {
                            Some(Fault::Panic(Panic::SelfTransfer))
                        } else if !valid_transfer(s, from, to) {
                            Some(Fault::Error(Error::InvalidTransferRoute))
                        } else {
                            None
                        },
                    ),
                )
            },
        },
    )
}

/// The record of a transfer.
pub open spec fn transfer_record(
    id: u128,
    from: Address,
    to: Address,
    now: u64,
    latitude: i128,
    longitude: i128,
    note: String,
) -> WasteTransfer {
    WasteTransfer { waste_id: id, from, to, transferred_at: now, latitude, longitude, note }
}

/// Moves item `id` (whose holder in `s0` was `from`) to `to` in state `s`:
/// ownership, both holders' lists, the transfer log and the event.
pub open spec fn move_item(
    s0: ContractState,
    s: ContractState,
    id: u128,
    to: Address,
    latitude: i128,
    longitude: i128,
    now: u64,
    note: String,
) -> ContractState {
    let w = waste_of(s0, id)->0;
    let from = w.current_owner;
    let owned1 = s.owned.insert(from.0, owned_by(s, from).filter(not_id(id)));
    let to_list = if owned1.contains_key(to.0) {
        owned1[to.0]
    } else {
        Seq::empty()
    };
    ContractState {
        wastes: s.wastes.update(id - 1, WasteRecord::Item(Waste { current_owner: to, ..w })),
        owned: owned1.insert(to.0, to_list.push(id)),
        transfers: s.transfers.push(transfer_record(id, from, to, now, latitude, longitude, note)),
        events: s.events.push(ContractEvent::WasteTransferredAt { waste_id: id, from, to, timestamp: now }),
        ..s
    }
}

/// Checks of one item of a batch transfer to `to`.
pub open spec fn batch_item_fault(s: ContractState, id: u128, to: Address) -> Option<Fault> {
    match waste_of(s, id) {
        None => Some(Fault::Error(Error::WasteNotFound)),
        Some(w) => if !w.is_active {
            Some(Fault::Error(Error::WasteDeactivated))
        } else {
            either(
                check_require_registered(s, w.current_owner),
                if w.current_owner == to {
                    Some(Fault::Panic(Panic::SelfTransfer))
                } else if !valid_transfer(s, w.current_owner, to) {
                    Some(Fault::Error(Error::InvalidTransferRoute))
                } else {
                    None
                },
            )
        },
    }
}

/// The first failing item of a batch, in order.
pub open spec fn batch_items_fault(s: ContractState, ids: Seq<u128>, to: Address) -> Option<Fault>
    decreases ids.len(),
{
    if ids.len() == 0 {
        None
    } else {
        either(batch_items_fault(s, ids.drop_last(), to), batch_item_fault(s, ids.last(), to))
    }
}

pub open spec fn batch_transfer_fault(s: ContractState, ids: Seq<u128>, to: Address) -> Option<Fault> {
    either(
        check_not_paused(s),
        either(check_require_registered(s, to), batch_items_fault(s, ids, to)),
    )
}

/// All moves of a batch, in order; each item's sender is its holder before the batch.
pub open spec fn batch_moves(
    s0: ContractState,
    ids: Seq<u128>,
    to: Address,
    latitude: i128,
    longitude: i128,
    now: u64,
    note: String,
) -> ContractState
    decreases ids.len(),
{
    if ids.len() == 0 {
        s0
    } else {
        move_item(s0, batch_moves(s0, ids.drop_last(), to, latitude, longitude, now, note), ids.last(), to, latitude, longitude, now, note)
    }
}

/// The transfer records a batch returns.
pub open spec fn batch_records(
    s0: ContractState,
    ids: Seq<u128>,
    to: Address,
    latitude: i128,
    longitude: i128,
    now: u64,
    note: String,
) -> Seq<WasteTransfer> {
    Seq::new(
        ids.len(),
        |i: int| transfer_record(ids[i], waste_of(s0, ids[i])->0.current_owner, to, now, latitude, longitude, note),
    )
}

pub open spec fn collected_fault(s: ContractState, collector: Address, manufacturer: Address) -> Option<Fault> {
    either(
        check_not_paused(s),
        either(
            check_require_registered(s, collector),
            either(
                check_require_registered(s, manufacturer),
                if !(s.participants[collector.0].role is Collector) {
                    Some(Fault::Panic(Panic::OnlyCollectors))
                } else if !(s.participants[manufacturer.0].role is Manufacturer) {
                    Some(Fault::Panic(Panic::RecipientNotManufacturer))
                } else if s.wastes.len() >= u64::MAX {
                    Some(Fault::Panic(Panic::ArithmeticOverflow))
                } else {
                    None
                },
            ),
        ),
    )
}

pub open spec fn collected_after(
    s: ContractState,
    waste_type: WasteType,
    collector: Address,
    manufacturer: Address,
    latitude: i128,
    longitude: i128,
    notes: String,
    now: u64,
) -> ContractState {
    let id = (s.wastes.len() + 1) as u128;
    let w = Waste {
        waste_id: id,
        waste_type,
        weight: 0,
        current_owner: manufacturer,
        latitude,
        longitude,
        recycled_timestamp: now,
        is_active: true,
        is_confirmed: false,
        confirmer: manufacturer,
    };
    ContractState {
        wastes: s.wastes.push(WasteRecord::Item(w)),
        owned: s.owned.insert(manufacturer.0, owned_by(s, manufacturer).push(id)),
        transfers: s.transfers.push(transfer_record(id, collector, manufacturer, now, latitude, longitude, notes)),
        events: s.events.push(
            ContractEvent::CollectedWasteTransferred { waste_id: id, collector, manufacturer, waste_type, timestamp: now },
        ),
        ..s
    }
}

/// The state with item `id` replaced.
pub open spec fn with_item(s: ContractState, w: Waste) -> ContractState {
    ContractState { wastes: s.wastes.update(w.waste_id - 1, WasteRecord::Item(w)), ..s }
}

pub open spec fn confirm_fault(s: ContractState, id: u128, confirmer: Address) -> Option<Fault> {
    either(
        check_not_paused(s),
        either(
            check_require_registered(s, confirmer),
            match waste_of(s, id) {
                None => Some(Fault::Panic(Panic::WasteNotFound)),
                Some(w) => if !w.is_active {
                    Some(Fault::Panic(Panic::ConfirmDeactivated))
                } else if w.current_owner == confirmer {
                    Some(Fault::Panic(Panic::OwnerConfirmation))
                } else if w.is_confirmed {
                    Some(Fault::Panic(Panic::AlreadyConfirmed))
                } else {
                    None
                },
            },
        ),
    )
}

pub open spec fn confirmed(s: ContractState, id: u128, confirmer: Address) -> Waste {
    Waste { is_confirmed: true, confirmer, ..waste_of(s, id)->0 }
}

pub open spec fn reset_fault(s: ContractState, id: u128, owner: Address) -> Option<Fault> {
    either(
        check_not_paused(s),
        either(
            check_only_waste_owner(s, owner, id),
            either(
                check_require_registered(s, owner),
                if !waste_of(s, id)->0.is_confirmed {
                    Some(Fault::Panic(Panic::NotConfirmed))
                } else {
                    None
                },
            ),
        ),
    )
}

/// A cleared confirmation: unconfirmed, with the holder as confirmer.
pub open spec fn unconfirmed(s: ContractState, id: u128) -> Waste {
    let w = waste_of(s, id)->0;
    Waste { is_confirmed: false, confirmer: w.current_owner, ..w }
}

pub open spec fn deactivate_fault(s: ContractState, id: u128, admin: Address) -> Option<Fault> {
    either(
        check_only_admin(s, admin),
        match waste_of(s, id) {
            None => Some(Fault::Panic(Panic::WasteItemNotFound)),
            Some(w) => if !w.is_active {
                Some(Fault::Panic(Panic::AlreadyDeactivated))
            } else {
                None
            },
        },
    )
}

pub open spec fn deactivated(s: ContractState, id: u128) -> Waste {
    Waste { is_active: false, ..waste_of(s, id)->0 }
}

/// Total weight of the active v2 items, in ID order; refused when a weight or
/// the running total leaves `u64`.
pub open spec fn active_weight(ws: Seq<WasteRecord>) -> Result<u64, Fault>
    decreases ws.len(),
{
    if ws.len() == 0 {
        Ok(0u64)
    } else {
        match active_weight(ws.drop_last()) {
            Err(f) => Err(f),
            Ok(total) => match ws.last() {
                WasteRecord::Item(w) => if !w.is_active {
                    Ok(total)
                } else if w.weight > u64::MAX {
                    Err(Fault::Panic(Panic::WeightExceedsU64))
                } else if total + w.weight > u64::MAX {
                    Err(Fault::Panic(Panic::ActiveWeightOverflow))
                } else {
                    Ok((total + w.weight) as u64)
                },
                WasteRecord::Material(_) => Ok(total),
            },
        }
    }
}

impl ScavengerContract {
    /// The v2 IDs held by `a` (empty when none).
    fn owned_list(&self, a: Address) -> (r: Vec<u128>)
        ensures
            r@ == owned_by(self@, a),
    {
        match self.owned.get(&a.0) {
            Some(v) => v.clone(),
            None => Vec::new(),
        }
    }

    fn set_owned(&mut self, a: Address, v: Vec<u128>)
        ensures
            final(self)@ == (ContractState { owned: old(self)@.owned.insert(a.0, v@), ..old(self)@ }),
    {
        let ghost vv = v@;
        self.owned.insert(a.0, v);
        assert(self@.owned =~= old(self)@.owned.insert(a.0, vv));
        assert(self@ =~= (ContractState { owned: old(self)@.owned.insert(a.0, vv), ..old(self)@ }));
    }

    /// Registers a v2 waste item held by the recycler; returns its ID.
    pub fn recycle_waste(
        &mut self,
        waste_type: WasteType,
        weight: u128,
        recycler: Address,
        latitude: i128,
        longitude: i128,
        now: u64,
    ) -> (r: Result<u128, Fault>)
        requires
            old(self).wf(),
        ensures
            final(self).wf(),
            commits(old(self)@, final(self)@, r, recycle_fault(old(self)@, recycler, weight),
                recycle_after(old(self)@, recycled_waste(old(self)@, waste_type, weight, recycler, latitude, longitude, now)),
                (old(self)@.wastes.len() + 1) as u128),
    {
        if let Some(f) = self.check_not_paused() {
            return Err(f);
        }
        if let Some(f) = self.check_only_registered(recycler) {
            return Err(f);
        }
        if weight == 0 {
            return Err(Fault::Panic(Panic::WeightNotPositive));
        }
        if self.wastes.len() as u64 >= u64::MAX {
            return Err(Fault::Panic(Panic::ArithmeticOverflow));
        }
        let id = self.wastes.len() as u128 + 1;
        let w = Waste {
            waste_id: id,
            waste_type,
            weight,
            current_owner: recycler,
            latitude,
            longitude,
            recycled_timestamp: now,
            is_active: true,
            is_confirmed: false,
            confirmer: recycler,
        };
        self.wastes.push(WasteRecord::Item(w));
        let mut list = self.owned_list(recycler);
        list.push(id);
        self.set_owned(recycler, list);
        emit_waste_registered(&mut self.events, id, &recycler, waste_type, weight, latitude, longitude);
        assert(self@ =~= recycle_after(old(self)@, w));
        Ok(id)
    }

    /// The v2 waste item with the given ID, if any.
    pub fn get_waste_v2(&self, waste_id: u128) -> (r: Option<Waste>)
        requires
            self.wf(),
        ensures
            r == waste_of(self@, waste_id),
    {
        match self.waste_index(waste_id) {
            None => None,
            Some(i) => match &self.wastes[i] {
                WasteRecord::Item(w) => Some(*w),
                WasteRecord::Material(_) => None,
            },
        }
    }

    /// The v2 IDs held by `participant`, in order of receipt.
    pub fn get_participant_wastes_v2(&self, participant: Address) -> (r: Vec<u128>)
        ensures
            r@ == owned_by(self@, participant),
    {
        self.owned_list(participant)
    }

    /// The transfers of v2 item `waste_id` (empty when no such item exists).
    pub fn get_waste_transfer_history_v2(&self, waste_id: u128) -> (r: Vec<WasteTransfer>)
        requires
            self.wf(),
        ensures
            r@ == (if waste_of(self@, waste_id) is Some {
                history_of(self@, waste_id)
            } else {
                Seq::empty()
            }),
    {
        match self.waste_index(waste_id) {
            None => Vec::new(),
            Some(_) => self.history(waste_id),
        }
    }

    /// Moves item `id` (currently `w`, held by `from`) to `to`; returns the transfer record.
    fn move_item(
        &mut self,
        ghost_s0: Ghost<ContractState>,
        i: usize,
        w: Waste,
        to: Address,
        latitude: i128,
        longitude: i128,
        now: u64,
        note: &String,
    ) -> (r: WasteTransfer)
        requires
            old(self).wf(),
            i < old(self)@.wastes.len(),
            waste_of(ghost_s0@, w.waste_id) == Some(w),
            w.waste_id == i + 1,
            old(self)@.wastes[i as int] is Item,
            old(self)@.wastes[i as int]->Item_0.waste_id == w.waste_id,
        ensures
            final(self).wf(),
            final(self)@ == move_item(ghost_s0@, old(self)@, w.waste_id, to, latitude, longitude, now, *note),
            r == transfer_record(w.waste_id, w.current_owner, to, now, latitude, longitude, *note),
    {
        let id = w.waste_id;
        let from = w.current_owner;
        let moved = Waste { current_owner: to, ..w };
        self.wastes.set(i, WasteRecord::Item(moved));
        let from_list = self.owned_list(from);
        let ghost pred = not_id(id);
        let mut kept: Vec<u128> = Vec::new();
        let mut k: usize = 0;
        while k < from_list.len()
            invariant
                k <= from_list.len(),
                pred == not_id(id),
                kept@ == from_list@.take(k as int).filter(pred),
            decreases from_list.len() - k,
        {
            proof {
                from_list@.take(k as int).lemma_filter_push(from_list@[k as int], pred);
                assert(from_list@.take(k as int).push(from_list@[k as int]) =~= from_list@.take(k + 1));
            }
            if from_list[k] != id {
                kept.push(from_list[k]);
            }
            k = k + 1;
        }
        assert(from_list@.take(from_list.len() as int) =~= from_list@);
        self.set_owned(from, kept);
        let mut to_list = self.owned_list(to);
        to_list.push(id);
        self.set_owned(to, to_list);
        let record = WasteTransfer {
            waste_id: id,
            from,
            to,
            transferred_at: now,
            latitude,
            longitude,
            note: note.clone(),
        };
        self.transfers.push(record.duplicate());
        self.events.push(ContractEvent::WasteTransferredAt { waste_id: id, from, to, timestamp: now });
        proof {
            let s1 = self@;
            assert forall|j: int| 0 <= j < s1.wastes.len() implies #[trigger] s1.wastes[j].spec_id() == j + 1 by {
                if j != i {
                    assert(s1.wastes[j] == old(self)@.wastes[j]);
                }
            }
        }
        assert(self@ =~= move_item(ghost_s0@, old(self)@, id, to, latitude, longitude, now, *note));
        record
    }

    /// Hands v2 item `waste_id` from its holder to `to` along a permitted route.
    pub fn transfer_waste_v2(
        &mut self,
        waste_id: u128,
        from: Address,
        to: Address,
        latitude: i128,
        longitude: i128,
        now: u64,
    ) -> (r: Result<WasteTransfer, Fault>)
        requires
            old(self).wf(),
        ensures
            final(self).wf(),
            r matches Ok(t) ==> labelled(t.note, "transfer"@),
            commits(old(self)@, final(self)@, r, transfer_v2_fault(old(self)@, waste_id, from, to),
                move_item(old(self)@, old(self)@, waste_id, to, latitude, longitude, now, r->Ok_0.note),
                transfer_record(waste_id, from, to, now, latitude, longitude, r->Ok_0.note)),
    {
        if let Some(f) = self.check_not_paused() {
            return Err(f);
        }
        let i = match self.waste_index(waste_id) {
            None => return Err(Fault::Error(Error::WasteNotFound)),
            Some(i) => i,
        };
        let w = match &self.wastes[i] {
            WasteRecord::Item(w) => *w,
            WasteRecord::Material(_) => return Err(Fault::Error(Error::WasteNotFound)),
        };
        if w.current_owner != from {
            return Err(Fault::Panic(Panic::NotWasteOwner));
        }
        if let Some(f) = self.check_require_registered(from) {
            return Err(f);
        }
        if let Some(f) = self.check_require_registered(to) {
            return Err(f);
        }
        if !w.is_active {
            return Err(Fault::Error(Error::WasteDeactivated));
        }
        if from == to {
            return Err(Fault::Panic(Panic::SelfTransfer));
        }
        if !self.is_valid_transfer(from, to) {
            return Err(Fault::Error(Error::InvalidTransferRoute));
        }
        let note = String::from_str("transfer");
        let ghost s0 = self@;
        proof { assert(self@.wastes[i as int].spec_id() == i + 1); }
        let t = self.move_item(Ghost(s0), i, w, to, latitude, longitude, now, &note);
        Ok(t)
    }

    /// Hands several v2 items to one recipient; every item is checked before
    /// any moves, and either all move or nothing changes.
    pub fn batch_transfer_waste(
        &mut self,
        waste_ids: Vec<u128>,
        to: Address,
        latitude: i128,
        longitude: i128,
        now: u64,
    ) -> (r: Result<Vec<WasteTransfer>, Fault>)
        requires
            old(self).wf(),
        ensures
            final(self).wf(),
            match batch_transfer_fault(old(self)@, waste_ids@, to) {
                Some(f) => r == Err::<Vec<WasteTransfer>, Fault>(f) && final(self)@ == old(self)@,
                None => r matches Ok(v) && exists|note: String| {
                    &&& labelled(note, "transfer"@)
                    &&& v@ == batch_records(old(self)@, waste_ids@, to, latitude, longitude, now, note)
                    &&& final(self)@ == batch_moves(old(self)@, waste_ids@, to, latitude, longitude, now, note)
                },
            },
    {
        if let Some(f) = self.check_not_paused() {
            return Err(f);
        }
        if let Some(f) = self.check_require_registered(to) {
            return Err(f);
        }
        let note = String::from_str("transfer");
        if waste_ids.len() == 0 {
            let out: Vec<WasteTransfer> = Vec::new();
            proof {
                assert(out@ =~= batch_records(old(self)@, waste_ids@, to, latitude, longitude, now, note));
                assert(batch_moves(old(self)@, waste_ids@, to, latitude, longitude, now, note) == old(self)@);
                assert(labelled(note, "transfer"@));
            }
            return Ok(out);
        }
        // Checks every item before anything moves.
        let ghost s0 = self@;
        let mut plan: Vec<(usize, Waste)> = Vec::new();
        let mut k: usize = 0;
        while k < waste_ids.len()
            invariant
                k <= waste_ids.len(),
                self@ == s0,
                s0 == old(self)@,
                self.wf(),
                check_not_paused(s0) is None,
                check_require_registered(s0, to) is None,
                batch_items_fault(s0, waste_ids@.take(k as int), to) is None,
                plan@.len() == k,
                forall|j: int| 0 <= j < k ==> {
                    &&& waste_of(s0, #[trigger] waste_ids@[j]) == Some(plan@[j].1)
                    &&& plan@[j].0 == waste_ids@[j] - 1
                    &&& plan@[j].1.waste_id == waste_ids@[j]
                },
            decreases waste_ids.len() - k,
        {
            proof { assert(waste_ids@.take(k + 1).drop_last() =~= waste_ids@.take(k as int)); }
            let id = waste_ids[k];
            let i = match self.waste_index(id) {
                None => {
                    proof { lemma_items_fault_extends(s0, waste_ids@, k + 1, to); }
                    return Err(Fault::Error(Error::WasteNotFound));
                },
                Some(i) => i,
            };
            let w = match &self.wastes[i] {
                WasteRecord::Item(w) => *w,
                WasteRecord::Material(_) => return Err(Fault::Error(Error::WasteNotFound)),
            };
            proof { assert(self@.wastes[i as int].spec_id() == i + 1); }
            if !w.is_active {
                proof { lemma_items_fault_extends(s0, waste_ids@, k + 1, to); }
                return Err(Fault::Error(Error::WasteDeactivated));
            }
            if let Some(f) = self.check_require_registered(w.current_owner) {
                proof { lemma_items_fault_extends(s0, waste_ids@, k + 1, to); }
                return Err(f);
            }
            if w.current_owner == to {
                proof { lemma_items_fault_extends(s0, waste_ids@, k + 1, to); }
                return Err(Fault::Panic(Panic::SelfTransfer));
            }
            if !self.is_valid_transfer(w.current_owner, to) {
                proof { lemma_items_fault_extends(s0, waste_ids@, k + 1, to); }
                return Err(Fault::Error(Error::InvalidTransferRoute));
            }
            plan.push((i, w));
            k = k + 1;
        }
        assert(waste_ids@.take(waste_ids.len() as int) =~= waste_ids@);
        // Executes every move.
        proof {
            assert forall|x: int| 0 <= x < s0.wastes.len() && self@.wastes[x] is Item implies
                (#[trigger] self@.wastes[x])->Item_0.waste_id == x + 1 by {
                assert(self@.wastes[x].spec_id() == x + 1);
            }
        }
        let mut out: Vec<WasteTransfer> = Vec::new();
        let mut j: usize = 0;
        assert(waste_ids@.take(0) =~= Seq::<u128>::empty());
        while j < plan.len()
            invariant
                j <= plan.len(),
                plan@.len() == waste_ids@.len(),
                s0 == old(self)@,
                self.wf(),
                self@.wastes.len() == s0.wastes.len(),
                labelled(note, "transfer"@),
                forall|x: int| 0 <= x < plan@.len() ==> {
                    &&& waste_of(s0, #[trigger] waste_ids@[x]) == Some(plan@[x].1)
                    &&& plan@[x].0 == waste_ids@[x] - 1
                    &&& plan@[x].1.waste_id == waste_ids@[x]
                },
                forall|x: int| 0 <= x < s0.wastes.len() ==> (#[trigger] self@.wastes[x]) is Item == s0.wastes[x] is Item,
                forall|x: int| 0 <= x < s0.wastes.len() && self@.wastes[x] is Item ==>
                    (#[trigger] self@.wastes[x])->Item_0.waste_id == x + 1,
                self@ == batch_moves(s0, waste_ids@.take(j as int), to, latitude, longitude, now, note),
                out@ == batch_records(s0, waste_ids@.take(j as int), to, latitude, longitude, now, note),
            decreases plan.len() - j,
        {
            let (i, w) = plan[j];
            proof {
                assert(waste_ids@.take(j + 1).drop_last() =~= waste_ids@.take(j as int));
                assert(waste_ids@.take(j + 1).last() == waste_ids@[j as int]);
                assert(self@.wastes[i as int] is Item);
            }
            let t = self.move_item(Ghost(s0), i, w, to, latitude, longitude, now, &note);
            out.push(t);
            j = j + 1;
            proof {
                assert(out@ =~= batch_records(s0, waste_ids@.take(j as int), to, latitude, longitude, now, note));
                let s1 = self@;
                assert forall|x: int| 0 <= x < s0.wastes.len() && s1.wastes[x] is Item implies
                    (#[trigger] s1.wastes[x])->Item_0.waste_id == x + 1 by {
                    assert(s1.wastes[x].spec_id() == x + 1);
                }
            }
        }
        assert(waste_ids@.take(plan.len() as int) =~= waste_ids@);
        assert(labelled(note, "transfer"@));
        Ok(out)
    }

    /// A collector hands aggregated waste to a manufacturer; a new v2 item of
    /// weight 0 held by the manufacturer is created and its ID returned.
    pub fn transfer_collected_waste(
        &mut self,
        waste_type: WasteType,
        collector: Address,
        manufacturer: Address,
        latitude: i128,
        longitude: i128,
        notes: String,
        now: u64,
    ) -> (r: Result<u128, Fault>)
        requires
            old(self).wf(),
        ensures
            final(self).wf(),
            commits(old(self)@, final(self)@, r, collected_fault(old(self)@, collector, manufacturer),
                collected_after(old(self)@, waste_type, collector, manufacturer, latitude, longitude, notes, now),
                (old(self)@.wastes.len() + 1) as u128),
    {
        if let Some(f) = self.check_not_paused() {
            return Err(f);
        }
        if let Some(f) = self.check_require_registered(collector) {
            return Err(f);
        }
        if let Some(f) = self.check_require_registered(manufacturer) {
            return Err(f);
        }
        match self.participants.get(&collector.0).unwrap().role {
            crate::types::ParticipantRole::Collector => {},
            _ => return Err(Fault::Panic(Panic::OnlyCollectors)),
        }
        match self.participants.get(&manufacturer.0).unwrap().role {
            crate::types::ParticipantRole::Manufacturer => {},
            _ => return Err(Fault::Panic(Panic::RecipientNotManufacturer)),
        }
        if self.wastes.len() as u64 >= u64::MAX {
            return Err(Fault::Panic(Panic::ArithmeticOverflow));
        }
        let id = self.wastes.len() as u128 + 1;
        let w = Waste {
            waste_id: id,
            waste_type,
            weight: 0,
            current_owner: manufacturer,
            latitude,
            longitude,
            recycled_timestamp: now,
            is_active: true,
            is_confirmed: false,
            confirmer: manufacturer,
        };
        self.wastes.push(WasteRecord::Item(w));
        let mut list = self.owned_list(manufacturer);
        list.push(id);
        self.set_owned(manufacturer, list);
        self.transfers.push(WasteTransfer {
            waste_id: id,
            from: collector,
            to: manufacturer,
            transferred_at: now,
            latitude,
            longitude,
            note: notes,
        });
        self.events.push(ContractEvent::CollectedWasteTransferred {
            waste_id: id,
            collector,
            manufacturer,
            waste_type,
            timestamp: now,
        });
        assert(self@ =~= collected_after(old(self)@, waste_type, collector, manufacturer, latitude, longitude, notes, now));
        Ok(id)
    }

    /// Replaces the item at position `i`.
    fn put_item(&mut self, i: usize, w: Waste)
        requires
            old(self).wf(),
            i < old(self)@.wastes.len(),
            w.waste_id == i + 1,
        ensures
            final(self).wf(),
            final(self)@ == with_item(old(self)@, w),
    {
        self.wastes.set(i, WasteRecord::Item(w));
        proof {
            let s1 = self@;
            assert forall|j: int| 0 <= j < s1.wastes.len() implies #[trigger] s1.wastes[j].spec_id() == j + 1 by {
                if j != i {
                    assert(s1.wastes[j] == old(self)@.wastes[j]);
                }
            }
        }
        assert(self@ =~= with_item(old(self)@, w));
    }

    /// A third party confirms a v2 item.
    pub fn confirm_waste_details(&mut self, waste_id: u128, confirmer: Address) -> (r: Result<Waste, Fault>)
        requires
            old(self).wf(),
        ensures
            final(self).wf(),
            commits(old(self)@, final(self)@, r, confirm_fault(old(self)@, waste_id, confirmer),
                ContractState {
                    events: old(self)@.events.push(ContractEvent::WasteConfirmed { waste_id, confirmer }),
                    ..with_item(old(self)@, confirmed(old(self)@, waste_id, confirmer))
                },
                confirmed(old(self)@, waste_id, confirmer)),
    {
        if let Some(f) = self.check_not_paused() {
            return Err(f);
        }
        if let Some(f) = self.check_require_registered(confirmer) {
            return Err(f);
        }
        let i = match self.waste_index(waste_id) {
            None => return Err(Fault::Panic(Panic::WasteNotFound)),
            Some(i) => i,
        };
        let w = match &self.wastes[i] {
            WasteRecord::Item(w) => *w,
            WasteRecord::Material(_) => return Err(Fault::Panic(Panic::WasteNotFound)),
        };
        if !w.is_active {
            return Err(Fault::Panic(Panic::ConfirmDeactivated));
        }
        if w.current_owner == confirmer {
            return Err(Fault::Panic(Panic::OwnerConfirmation));
        }
        if w.is_confirmed {
            return Err(Fault::Panic(Panic::AlreadyConfirmed));
        }
        proof { assert(self@.wastes[i as int].spec_id() == i + 1); }
        let c = Waste { is_confirmed: true, confirmer, ..w };
        self.put_item(i, c);
        emit_waste_confirmed(&mut self.events, waste_id, &confirmer);
        Ok(c)
    }

    /// The holder clears the confirmation of a v2 item.
    pub fn reset_waste_confirmation(&mut self, waste_id: u128, owner: Address, now: u64) -> (r: Result<Waste, Fault>)
        requires
            old(self).wf(),
        ensures
            final(self).wf(),
            commits(old(self)@, final(self)@, r, reset_fault(old(self)@, waste_id, owner),
                ContractState {
                    events: old(self)@.events.push(ContractEvent::ConfirmationReset { waste_id, owner, timestamp: now }),
                    ..with_item(old(self)@, unconfirmed(old(self)@, waste_id))
                },
                unconfirmed(old(self)@, waste_id)),
    {
        if let Some(f) = self.check_not_paused() {
            return Err(f);
        }
        if let Some(f) = self.check_only_waste_owner(owner, waste_id) {
            return Err(f);
        }
        if let Some(f) = self.check_require_registered(owner) {
            return Err(f);
        }
        let i = self.waste_index(waste_id).unwrap();
        let w = match &self.wastes[i] {
            WasteRecord::Item(w) => *w,
            WasteRecord::Material(_) => return Err(Fault::Panic(Panic::WasteItemNotFound)),
        };
        if !w.is_confirmed {
            return Err(Fault::Panic(Panic::NotConfirmed));
        }
        proof { assert(self@.wastes[i as int].spec_id() == i + 1); }
        let u = Waste { is_confirmed: false, confirmer: w.current_owner, ..w };
        self.put_item(i, u);
        self.events.push(ContractEvent::ConfirmationReset { waste_id, owner, timestamp: now });
        Ok(u)
    }

    /// Deactivates a v2 item (an admin only); deactivation is permanent.
    pub fn deactivate_waste(&mut self, waste_id: u128, admin: Address, now: u64) -> (r: Result<Waste, Fault>)
        requires
            old(self).wf(),
        ensures
            final(self).wf(),
            commits(old(self)@, final(self)@, r, deactivate_fault(old(self)@, waste_id, admin),
                ContractState {
                    events: old(self)@.events.push(ContractEvent::WasteDeactivated { waste_id, admin, timestamp: now }),
                    ..with_item(old(self)@, deactivated(old(self)@, waste_id))
                },
                deactivated(old(self)@, waste_id)),
    {
        if let Some(f) = self.check_only_admin(admin) {
            return Err(f);
        }
        let i = match self.waste_index(waste_id) {
            None => return Err(Fault::Panic(Panic::WasteItemNotFound)),
            Some(i) => i,
        };
        let w = match &self.wastes[i] {
            WasteRecord::Item(w) => *w,
            WasteRecord::Material(_) => return Err(Fault::Panic(Panic::WasteItemNotFound)),
        };
        if !w.is_active {
            return Err(Fault::Panic(Panic::AlreadyDeactivated));
        }
        proof { assert(self@.wastes[i as int].spec_id() == i + 1); }
        let d = Waste { is_active: false, ..w };
        self.put_item(i, d);
        self.events.push(ContractEvent::WasteDeactivated { waste_id, admin, timestamp: now });
        Ok(d)
    }

    /// (number of waste records, active v2 weight in grams, tokens credited).
    pub fn get_supply_chain_stats(&self) -> (r: Result<(u64, u64, u128), Fault>)
        requires
            self.wf(),
        ensures
            match active_weight(self@.wastes) {
                Err(f) => r == Err::<(u64, u64, u128), Fault>(f),
                Ok(w) => r == Ok::<(u64, u64, u128), Fault>((self@.wastes.len() as u64, w, self@.total_tokens)),
            },
    {
        let mut total: u64 = 0;
        let mut i: usize = 0;
        assert(self@.wastes.take(0) =~= Seq::<WasteRecord>::empty());
        while i < self.wastes.len()
            invariant
                i <= self.wastes.len(),
                active_weight(self@.wastes.take(i as int)) == Ok::<u64, Fault>(total),
            decreases self.wastes.len() - i,
        {
            proof { assert(self@.wastes.take(i + 1).drop_last() =~= self@.wastes.take(i as int)); }
            match &self.wastes[i] {
                WasteRecord::Item(w) => if w.is_active {
                    if w.weight > u64::MAX as u128 {
                        proof { lemma_active_err_extends(self@.wastes, i + 1); }
                        return Err(Fault::Panic(Panic::WeightExceedsU64));
                    }
                    total = match total.checked_add(w.weight as u64) {
                        None => {
                            proof { lemma_active_err_extends(self@.wastes, i + 1); }
                            return Err(Fault::Panic(Panic::ActiveWeightOverflow));
                        },
                        Some(t) => t,
                    };
                },
                WasteRecord::Material(_) => {},
            }
            i = i + 1;
        }
        assert(self@.wastes.take(self.wastes.len() as int) =~= self@.wastes);
        Ok((self.wastes.len() as u64, total, self.total_tokens))
    }
}

/// A refused prefix refuses the whole batch check.
pub proof fn lemma_items_fault_extends(s: ContractState, ids: Seq<u128>, j: int, to: Address)
    requires
        0 <= j <= ids.len(),
        batch_items_fault(s, ids.take(j), to) is Some,
    ensures
        batch_items_fault(s, ids, to) == batch_items_fault(s, ids.take(j), to),
    decreases ids.len() - j,
{
    if j == ids.len() {
        assert(ids.take(j) =~= ids);
    } else {
        assert(ids.take(j + 1).drop_last() =~= ids.take(j));
        lemma_items_fault_extends(s, ids, j + 1, to);
    }
}

/// A refused prefix refuses the whole weight sum.
pub proof fn lemma_active_err_extends(ws: Seq<WasteRecord>, j: int)
    requires
        0 <= j <= ws.len(),
        active_weight(ws.take(j)) is Err,
    ensures
        active_weight(ws) == active_weight(ws.take(j)),
    decreases ws.len() - j,
{
    if j == ws.len() {
        assert(ws.take(j) =~= ws);
    } else {
        assert(ws.take(j + 1).drop_last() =~= ws.take(j));
        lemma_active_err_extends(ws, j + 1);
    }
}

} // verus!
