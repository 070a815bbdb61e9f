//! Participants: registration, roles, locations and queries.
use vstd::prelude::*;
use crate::contract::{
    commits, either, check_not_paused, is_registered, participant_of, ContractState, ScavengerContract,
};
use crate::errors::{Fault, Panic};
use crate::events::{emit_participant_location_updated, emit_participant_registered, ContractEvent};
use crate::types::{empty_stats, Address, Participant, ParticipantInfo, ParticipantRole, RecyclingStats, WasteType};
use crate::validation::{coordinates_fault, validate_coordinates};

verus! {

broadcast use vstd::std_specs::hash::group_hash_axioms;

/// The record a registration creates.
pub open spec fn new_participant(
    address: Address,
    role: ParticipantRole,
    name: String,
    latitude: i128,
    longitude: i128,
    now: u64,
) -> Participant {
    Participant {
        address,
        role,
        name,
        latitude,
        longitude,
        is_registered: true,
        total_waste_processed: 0,
        total_tokens_earned: 0,
        registered_at: now,
    }
}

pub open spec fn register_fault(s: ContractState, address: Address, latitude: i128, longitude: i128) -> Option<Fault> {
    either(
        check_not_paused(s),
        either(
            coordinates_fault(latitude, longitude),
            if is_registered(s, address) {
                Some(Fault::Panic(Panic::AlreadyRegistered))
            } else {
                None
            },
        ),
    )
}

pub open spec fn register_after(
    s: ContractState,
    address: Address,
    role: ParticipantRole,
    name: String,
    latitude: i128,
    longitude: i128,
    now: u64,
) -> ContractState {
    ContractState {
        participants: s.participants.insert(address.0, new_participant(address, role, name, latitude, longitude, now)),
        index: s.index.push(address),
        events: s.events.push(
            ContractEvent::ParticipantRegistered { address, role: role.spec_to_u32(), name, latitude, longitude },
        ),
        ..s
    }
}

/// A change to an existing participant: refused while paused, for an unknown
/// address, or for a deregistered one.
pub open spec fn existing_participant_fault(s: ContractState, address: Address) -> Option<Fault> {
    either(
        check_not_paused(s),
        if !s.participants.contains_key(address.0) {
            Some(Fault::Panic(Panic::ParticipantNotFound))
        } else if !s.participants[address.0].is_registered {
            Some(Fault::Panic(Panic::ParticipantNotRegistered))
        } else {
            None
        },
    )
}

pub open spec fn with_participant(s: ContractState, p: Participant) -> ContractState {
    ContractState { participants: s.participants.insert(p.address.0, p), ..s }
}

pub open spec fn deregister_fault(s: ContractState, address: Address) -> Option<Fault> {
    either(
        check_not_paused(s),
        if !s.participants.contains_key(address.0) {
            Some(Fault::Panic(Panic::ParticipantNotFound))
        } else {
            None
        },
    )
}

/// Keeps every address but `a`.
pub open spec fn other_than(a: Address) -> spec_fn(Address) -> bool {
    |x: Address| x != a
}

pub open spec fn deregistered(s: ContractState, address: Address) -> Participant {
    Participant { is_registered: false, ..s.participants[address.0] }
}

pub open spec fn deregister_after(s: ContractState, address: Address) -> ContractState {
    ContractState {
        participants: s.participants.insert(address.0, deregistered(s, address)),
        index: s.index.filter(other_than(address)),
        ..s
    }
}

pub open spec fn location_fault(s: ContractState, address: Address, latitude: i128, longitude: i128) -> Option<Fault> {
    either(
        check_not_paused(s),
        either(
            coordinates_fault(latitude, longitude),
            if !s.participants.contains_key(address.0) {
                Some(Fault::Panic(Panic::ParticipantNotFound))
            } else if !s.participants[address.0].is_registered {
                Some(Fault::Panic(Panic::ParticipantNotRegistered))
            } else {
                None
            },
        ),
    )
}

pub open spec fn relocated(s: ContractState, address: Address, latitude: i128, longitude: i128) -> Participant {
    Participant { latitude, longitude, ..s.participants[address.0] }
}

pub open spec fn location_after(s: ContractState, address: Address, latitude: i128, longitude: i128) -> ContractState {
    ContractState {
        participants: s.participants.insert(address.0, relocated(s, address, latitude, longitude)),
        events: s.events.push(ContractEvent::ParticipantLocationUpdated { address, latitude, longitude }),
        ..s
    }
}

/// The window `[offset, min(offset + limit, len))` of the participant index.
pub open spec fn page_fault(s: ContractState, offset: u32, limit: u32) -> Option<Fault> {
    if offset < s.index.len() && offset + limit > u32::MAX {
        Some(Fault::Panic(Panic::ArithmeticOverflow))
    } else {
        None
    }
}

pub open spec fn page_of(s: ContractState, offset: u32, limit: u32) -> Seq<Address> {
    if offset >= s.index.len() {
        Seq::empty()
    } else if offset + limit < s.index.len() {
        s.index.subrange(offset as int, offset + limit)
    } else {
        s.index.subrange(offset as int, s.index.len() as int)
    }
}

impl ScavengerContract {
    /// Whether `address` has a record with `is_registered` set.
    pub fn is_participant_registered(&self, address: Address) -> (r: bool)
        ensures
            r == is_registered(self@, address),
    {
        self.registered(address)
    }

    /// Registers a participant at the given location (microdegrees).
    pub fn register_participant(
        &mut self,
        address: Address,
        role: ParticipantRole,
        name: String,
        latitude: i128,
        longitude: i128,
        now: u64,
    ) -> (r: Result<Participant, Fault>)
        requires
            old(self).wf(),
        ensures
            final(self).wf(),
            commits(old(self)@, final(self)@, r, register_fault(old(self)@, address, latitude, longitude),
                register_after(old(self)@, address, role, name, latitude, longitude, now),
                new_participant(address, role, name, latitude, longitude, now)),
    {
        if let Some(f) = self.check_not_paused() {
            return Err(f);
        }
        if let Err(f) = validate_coordinates(latitude, longitude) {
            return Err(f);
        }
        if self.registered(address) {
            return Err(Fault::Panic(Panic::AlreadyRegistered));
        }
        let p = Participant {
            address,
            role,
            name: name.clone(),
            latitude,
            longitude,
            is_registered: true,
            total_waste_processed: 0,
            total_tokens_earned: 0,
            registered_at: now,
        };
        self.participants.insert(address.0, p.duplicate());
        self.index.push(address);
        emit_participant_registered(&mut self.events, &address, role, name, latitude, longitude);
        assert(self@ =~= register_after(old(self)@, address, role, name, latitude, longitude, now));
        Ok(p)
    }

    /// The record of `address`, if any.
    pub fn get_participant(&self, address: Address) -> (r: Option<Participant>)
        ensures
            r == participant_of(self@, address),
    {
        match self.participants.get(&address.0) {
            Some(p) => Some(p.duplicate()),
            None => None,
        }
    }

    /// Tokens earned by `address` as a signed amount (0 when unknown).
    pub fn get_participant_earnings(&self, address: Address) -> (r: i128)
        ensures
            r == (match participant_of(self@, address) {
                Some(p) => p.total_tokens_earned as i128,
                None => 0i128,
            }),
    {
        match self.participants.get(&address.0) {
            Some(p) => p.total_tokens_earned as i128,
            None => 0,
        }
    }

    /// The record of `address` with its statistics (empty ones if none recorded).
    pub fn get_participant_info(&self, address: Address) -> (r: Option<ParticipantInfo>)
        ensures
            match participant_of(self@, address) {
                None => r is None,
                Some(p) => r == Some(
                    ParticipantInfo {
                        participant: p,
                        stats: if self@.stats.contains_key(address.0) {
                            self@.stats[address.0]
                        } else {
                            empty_stats(address)
                        },
                    },
                ),
            },
    {
        let participant = match self.participants.get(&address.0) {
            Some(p) => p.duplicate(),
            None => return None,
        };
        let stats = match self.stats.get(&address.0) {
            Some(s) => *s,
            None => RecyclingStats::new(address),
        };
        Some(ParticipantInfo { participant, stats })
    }

    /// A page of the registered addresses, in registration order.
    pub fn get_all_participants(&self, offset: u32, limit: u32) -> (r: Result<Vec<Address>, Fault>)
        ensures
            match page_fault(self@, offset, limit) {
                Some(f) => r == Err::<Vec<Address>, Fault>(f),
                None => r matches Ok(v) && v@ == page_of(self@, offset, limit),
            },
    {
        let total = self.index.len();
        let mut result: Vec<Address> = Vec::new();
        if offset as usize >= total {
            return Ok(result);
        }
        let end_sum = match offset.checked_add(limit) {
            Some(e) => e,
            None => return Err(Fault::Panic(Panic::ArithmeticOverflow)),
        };
        let end: usize = if (end_sum as usize) < total {
            end_sum as usize
        } else {
            total
        };
        let mut i: usize = offset as usize;
        while i < end
            invariant
                offset <= i <= end <= total,
                total == self.index.len(),
                result@ == self@.index.subrange(offset as int, i as int),
            decreases end - i,
        {
            result.push(self.index[i]);
            i = i + 1;
            assert(result@ =~= self@.index.subrange(offset as int, i as int));
        }
        Ok(result)
    }

    /// Changes the role of a registered participant; all other fields stay.
    pub fn update_role(&mut self, address: Address, new_role: ParticipantRole) -> (r: Result<Participant, Fault>)
        requires
            old(self).wf(),
        ensures
            final(self).wf(),
            commits(old(self)@, final(self)@, r, existing_participant_fault(old(self)@, address),
                with_participant(old(self)@, Participant { role: new_role, ..old(self)@.participants[address.0] }),
                Participant { role: new_role, ..old(self)@.participants[address.0] }),
    {
        if let Some(f) = self.check_not_paused() {
            return Err(f);
        }
        let mut p = match self.participants.get(&address.0) {
            None => return Err(Fault::Panic(Panic::ParticipantNotFound)),
            Some(p) => p.duplicate(),
        };
        if !p.is_registered {
            return Err(Fault::Panic(Panic::ParticipantNotRegistered));
        }
        p.role = new_role;
        self.participants.insert(address.0, p.duplicate());
        assert(self@ =~= with_participant(old(self)@, p));
        Ok(p)
    }

    /// Marks a participant deregistered and drops it from the index.
    pub fn deregister_participant(&mut self, address: Address) -> (r: Result<Participant, Fault>)
        requires
            old(self).wf(),
        ensures
            final(self).wf(),
            commits(old(self)@, final(self)@, r, deregister_fault(old(self)@, address),
                deregister_after(old(self)@, address), deregistered(old(self)@, address)),
    {
        if let Some(f) = self.check_not_paused() {
            return Err(f);
        }
        let mut p = match self.participants.get(&address.0) {
            None => return Err(Fault::Panic(Panic::ParticipantNotFound)),
            Some(p) => p.duplicate(),
        };
        p.is_registered = false;
        self.participants.insert(address.0, p.duplicate());
        let ghost pred = other_than(address);
        let mut kept: Vec<Address> = Vec::new();
        let mut i: usize = 0;
        while i < self.index.len()
            invariant
                i <= self.index.len(),
                kept@ == self.index@.take(i as int).filter(pred),
                pred == other_than(address),
            decreases self.index.len() - i,
        {
            proof {
                self.index@.take(i as int).lemma_filter_push(self.index@[i as int], pred);
                assert(self.index@.take(i as int).push(self.index@[i as int]) =~= self.index@.take(i + 1));
            }
            if self.index[i] != address {
                kept.push(self.index[i]);
            }
            i = i + 1;
        }
        assert(self.index@.take(self.index.len() as int) =~= self.index@);
        self.index = kept;
        assert(self@ =~= deregister_after(old(self)@, address));
        Ok(p)
    }

    /// Moves a registered participant (coordinates in microdegrees).
    pub fn update_participant_location(&mut self, address: Address, latitude: i128, longitude: i128) -> (r: Result<Participant, Fault>)
        requires
            old(self).wf(),
        ensures
            final(self).wf(),
            commits(old(self)@, final(self)@, r, location_fault(old(self)@, address, latitude, longitude),
                location_after(old(self)@, address, latitude, longitude),
                relocated(old(self)@, address, latitude, longitude)),
    {
        if let Some(f) = self.check_not_paused() {
            return Err(f);
        }
        if let Err(f) = validate_coordinates(latitude, longitude) {
            return Err(f);
        }
        let mut p = match self.participants.get(&address.0) {
            None => return Err(Fault::Panic(Panic::ParticipantNotFound)),
            Some(p) => p.duplicate(),
        };
        if !p.is_registered {
            return Err(Fault::Panic(Panic::ParticipantNotRegistered));
        }
        p.latitude = latitude;
        p.longitude = longitude;
        self.participants.insert(address.0, p.duplicate());
        emit_participant_location_updated(&mut self.events, &address, latitude, longitude);
        assert(self@ =~= location_after(old(self)@, address, latitude, longitude));
        Ok(p)
    }

    /// Older name of `update_participant_location`, with the same behaviour.
    pub fn update_location(&mut self, address: Address, latitude: i128, longitude: i128) -> (r: Result<Participant, Fault>)
        requires
            old(self).wf(),
        ensures
            final(self).wf(),
            commits(old(self)@, final(self)@, r, location_fault(old(self)@, address, latitude, longitude),
                location_after(old(self)@, address, latitude, longitude),
                relocated(old(self)@, address, latitude, longitude)),
    {
        self.update_participant_location(address, latitude, longitude)
    }

    /// Registered recyclers and collectors may collect materials.
    pub fn can_collect(&self, address: Address) -> (r: bool)
        ensures
            r == (is_registered(self@, address) && self@.participants[address.0].role.spec_can_collect_materials()),
    {
        match self.participants.get(&address.0) {
            Some(p) => p.is_registered && p.role.can_collect_materials(),
            None => false,
        }
    }

    /// Registered manufacturers may manufacture.
    pub fn can_manufacture(&self, address: Address) -> (r: bool)
        ensures
            r == (is_registered(self@, address) && self@.participants[address.0].role.spec_can_manufacture()),
    {
        match self.participants.get(&address.0) {
            Some(p) => p.is_registered && p.role.can_manufacture(),
            None => false,
        }
    }

    /// The recycling statistics of `address`, if any were recorded.
    pub fn get_stats(&self, address: Address) -> (r: Option<RecyclingStats>)
        ensures
            r == (if self@.stats.contains_key(address.0) {
                Some(self@.stats[address.0])
            } else {
                None
            }),
    {
        match self.stats.get(&address.0) {
            Some(s) => Some(*s),
            None => None,
        }
    }

    /// Label of a waste type, such as "Plastic".
    pub fn get_waste_type_string(waste_type: WasteType) -> (r: String)
        ensures
            r@ == waste_type.spec_label(),
    {
        waste_type.as_str().to_owned()
    }

    /// Label of a role, such as "Collector".
    pub fn get_participant_role_string(role: ParticipantRole) -> (r: String)
        ensures
            r@ == role.spec_label(),
    {
        role.as_str().to_owned()
    }
}

} // verus!
