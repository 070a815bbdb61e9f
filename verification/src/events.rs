//! Events the contract publishes. Each call appends its events to the
//! contract's event log; the layer that talks to the ledger publishes them.
use vstd::prelude::*;
use crate::types::{Address, ParticipantRole, WasteType};

verus! {

/// One published event: its topic symbol is `topic()`, the other fields are
/// the indexed value and the payload.
#[derive(Clone, Debug, PartialEq, Eq)]
#[allow(inconsistent_fields)]
pub enum ContractEvent {
    /// "recycled": a v2 waste item was registered.
    WasteRegistered {
        waste_id: u128,
        recycler: Address,
        waste_type: WasteType,
        weight: u128,
        latitude: i128,
        longitude: i128,
    },
    /// "donated": tokens were donated to the charity.
    DonationMade { donor: Address, amount: i128, charity_contract: Address },
    /// "transfer": a v1 material changed hands.
    WasteTransferred { waste_id: u64, from: Address, to: Address },
    /// "transfer": a v2 waste item changed hands.
    WasteTransferredAt { waste_id: u128, from: Address, to: Address, timestamp: u64 },
    /// "confirmed": a v2 waste item was confirmed by a third party.
    WasteConfirmed { waste_id: u128, confirmer: Address },
    /// "reg": a participant registered (role as its number).
    ParticipantRegistered {
        address: Address,
        role: u32,
        name: String,
        latitude: i128,
        longitude: i128,
    },
    /// "rewarded": tokens were credited to a participant.
    TokensRewarded { recipient: Address, amount: u128, waste_id: u64 },
    /// "loc_upd": a participant moved.
    ParticipantLocationUpdated { address: Address, latitude: i128, longitude: i128 },
    /// "inc_upd": an incentive's points and budget were changed.
    IncentiveUpdated {
        incentive_id: u64,
        rewarder: Address,
        new_reward_points: u64,
        new_total_budget: u64,
    },
    /// "bulk_xfr": aggregated waste went from a collector to a manufacturer.
    CollectedWasteTransferred {
        waste_id: u128,
        collector: Address,
        manufacturer: Address,
        waste_type: WasteType,
        timestamp: u64,
    },
    /// "reset": a waste item's confirmation was cleared.
    ConfirmationReset { waste_id: u128, owner: Address, timestamp: u64 },
    /// "deactive": a waste item was deactivated.
    WasteDeactivated { waste_id: u128, admin: Address, timestamp: u64 },
    /// "adm_xfr": the admin list was replaced.
    AdminTransferred { previous_admin: Address },
    /// "paused": the contract was paused.
    ContractPaused { admin: Address },
    /// "unpaused": the contract was unpaused.
    ContractUnpaused { admin: Address },
}

impl ContractEvent {
    /// The topic symbol of the event.
    pub open spec fn spec_topic(&self) -> Seq<char> {
        match self {
            ContractEvent::WasteRegistered { .. } => "recycled"@,
            ContractEvent::DonationMade { .. } => "donated"@,
            ContractEvent::WasteTransferred { .. } => "transfer"@,
            ContractEvent::WasteTransferredAt { .. } => "transfer"@,
            ContractEvent::WasteConfirmed { .. } => "confirmed"@,
            ContractEvent::ParticipantRegistered { .. } => "reg"@,
            ContractEvent::TokensRewarded { .. } => "rewarded"@,
            ContractEvent::ParticipantLocationUpdated { .. } => "loc_upd"@,
            ContractEvent::IncentiveUpdated { .. } => "inc_upd"@,
            ContractEvent::CollectedWasteTransferred { .. } => "bulk_xfr"@,
            ContractEvent::ConfirmationReset { .. } => "reset"@,
            ContractEvent::WasteDeactivated { .. } => "deactive"@,
            ContractEvent::AdminTransferred { .. } => "adm_xfr"@,
            ContractEvent::ContractPaused { .. } => "paused"@,
            ContractEvent::ContractUnpaused { .. } => "unpaused"@,
        }
    }

    pub fn topic(&self) -> (r: &'static str)
        ensures
            r@ == self.spec_topic(),
    {
        match self {
            ContractEvent::WasteRegistered { .. } => "recycled",
            ContractEvent::DonationMade { .. } => "donated",
            ContractEvent::WasteTransferred { .. } => "transfer",
            ContractEvent::WasteTransferredAt { .. } => "transfer",
            ContractEvent::WasteConfirmed { .. } => "confirmed",
            ContractEvent::ParticipantRegistered { .. } => "reg",
            ContractEvent::TokensRewarded { .. } => "rewarded",
            ContractEvent::ParticipantLocationUpdated { .. } => "loc_upd",
            ContractEvent::IncentiveUpdated { .. } => "inc_upd",
            ContractEvent::CollectedWasteTransferred { .. } => "bulk_xfr",
            ContractEvent::ConfirmationReset { .. } => "reset",
            ContractEvent::WasteDeactivated { .. } => "deactive",
            ContractEvent::AdminTransferred { .. } => "adm_xfr",
            ContractEvent::ContractPaused { .. } => "paused",
            ContractEvent::ContractUnpaused { .. } => "unpaused",
        }
    }

    pub fn duplicate(&self) -> (r: ContractEvent)
        ensures
            r == *self,
    {
        match self {
            ContractEvent::ParticipantRegistered { address, role, name, latitude, longitude } => {
                ContractEvent::ParticipantRegistered {
                    address: *address,
                    role: *role,
                    name: name.clone(),
                    latitude: *latitude,
                    longitude: *longitude,
                }
            },
            ContractEvent::WasteRegistered { waste_id, recycler, waste_type, weight, latitude, longitude } => {
                ContractEvent::WasteRegistered {
                    waste_id: *waste_id,
                    recycler: *recycler,
                    waste_type: *waste_type,
                    weight: *weight,
                    latitude: *latitude,
                    longitude: *longitude,
                }
            },
            ContractEvent::DonationMade { donor, amount, charity_contract } => {
                ContractEvent::DonationMade { donor: *donor, amount: *amount, charity_contract: *charity_contract }
            },
            ContractEvent::WasteTransferred { waste_id, from, to } => {
                ContractEvent::WasteTransferred { waste_id: *waste_id, from: *from, to: *to }
            },
            ContractEvent::WasteTransferredAt { waste_id, from, to, timestamp } => {
                ContractEvent::WasteTransferredAt { waste_id: *waste_id, from: *from, to: *to, timestamp: *timestamp }
            },
            ContractEvent::WasteConfirmed { waste_id, confirmer } => {
                ContractEvent::WasteConfirmed { waste_id: *waste_id, confirmer: *confirmer }
            },
            ContractEvent::TokensRewarded { recipient, amount, waste_id } => {
                ContractEvent::TokensRewarded { recipient: *recipient, amount: *amount, waste_id: *waste_id }
            },
            ContractEvent::ParticipantLocationUpdated { address, latitude, longitude } => {
                ContractEvent::ParticipantLocationUpdated { address: *address, latitude: *latitude, longitude: *longitude }
            },
            ContractEvent::IncentiveUpdated { incentive_id, rewarder, new_reward_points, new_total_budget } => {
                ContractEvent::IncentiveUpdated {
                    incentive_id: *incentive_id,
                    rewarder: *rewarder,
                    new_reward_points: *new_reward_points,
                    new_total_budget: *new_total_budget,
                }
            },
            ContractEvent::CollectedWasteTransferred { waste_id, collector, manufacturer, waste_type, timestamp } => {
                ContractEvent::CollectedWasteTransferred {
                    waste_id: *waste_id,
                    collector: *collector,
                    manufacturer: *manufacturer,
                    waste_type: *waste_type,
                    timestamp: *timestamp,
                }
            },
            ContractEvent::ConfirmationReset { waste_id, owner, timestamp } => {
                ContractEvent::ConfirmationReset { waste_id: *waste_id, owner: *owner, timestamp: *timestamp }
            },
            ContractEvent::WasteDeactivated { waste_id, admin, timestamp } => {
                ContractEvent::WasteDeactivated { waste_id: *waste_id, admin: *admin, timestamp: *timestamp }
            },
            ContractEvent::AdminTransferred { previous_admin } => {
                ContractEvent::AdminTransferred { previous_admin: *previous_admin }
            },
            ContractEvent::ContractPaused { admin } => ContractEvent::ContractPaused { admin: *admin },
            ContractEvent::ContractUnpaused { admin } => ContractEvent::ContractUnpaused { admin: *admin },
        }
    }
}

/// One value of a published event, as the ledger carries it.
#[derive(Clone, Debug, PartialEq, Eq)]
pub enum EventValue {
    Address(Address),
    U32(u32),
    U64(u64),
    U128(u128),
    I128(i128),
    WasteType(WasteType),
    Text(String),
}

impl ContractEvent {
    /// The indexed value that follows the topic symbol in the topic tuple;
    /// `None` for the events whose topic is the symbol alone.
    pub open spec fn spec_indexed(&self) -> Option<EventValue> {
        match *self {
            ContractEvent::WasteRegistered { waste_id, recycler, waste_type, weight, latitude, longitude } => Some(EventValue::U128(waste_id)),
            ContractEvent::DonationMade { donor, amount, charity_contract } => Some(EventValue::Address(donor)),
            ContractEvent::WasteTransferred { waste_id, from, to } => Some(EventValue::U64(waste_id)),
            ContractEvent::WasteTransferredAt { waste_id, from, to, timestamp } => Some(EventValue::U128(waste_id)),
            ContractEvent::WasteConfirmed { waste_id, confirmer } => Some(EventValue::U128(waste_id)),
            ContractEvent::ParticipantRegistered { address, role, name, latitude, longitude } => Some(EventValue::Address(address)),
            ContractEvent::TokensRewarded { recipient, amount, waste_id } => Some(EventValue::Address(recipient)),
            ContractEvent::ParticipantLocationUpdated { address, latitude, longitude } => Some(EventValue::Address(address)),
            ContractEvent::IncentiveUpdated { incentive_id, rewarder, new_reward_points, new_total_budget } => Some(EventValue::U64(incentive_id)),
            ContractEvent::CollectedWasteTransferred { waste_id, collector, manufacturer, waste_type, timestamp } => Some(EventValue::U128(waste_id)),
            ContractEvent::ConfirmationReset { waste_id, owner, timestamp } => Some(EventValue::U128(waste_id)),
            ContractEvent::WasteDeactivated { waste_id, admin, timestamp } => Some(EventValue::U128(waste_id)),
            ContractEvent::AdminTransferred { previous_admin } => None,
            ContractEvent::ContractPaused { admin } => None,
            ContractEvent::ContractUnpaused { admin } => None,
        }
    }

    /// The data payload, in order.
    pub open spec fn spec_payload(&self) -> Seq<EventValue> {
        match *self {
            ContractEvent::WasteRegistered { waste_id, recycler, waste_type, weight, latitude, longitude } => seq![EventValue::WasteType(waste_type), EventValue::U128(weight), EventValue::Address(recycler), EventValue::I128(latitude), EventValue::I128(longitude)],
            ContractEvent::DonationMade { donor, amount, charity_contract } => seq![EventValue::I128(amount), EventValue::Address(charity_contract)],
            ContractEvent::WasteTransferred { waste_id, from, to } => seq![EventValue::Address(from), EventValue::Address(to)],
            ContractEvent::WasteTransferredAt { waste_id, from, to, timestamp } => seq![EventValue::Address(from), EventValue::Address(to), EventValue::U64(timestamp)],
            ContractEvent::WasteConfirmed { waste_id, confirmer } => seq![EventValue::Address(confirmer)],
            ContractEvent::ParticipantRegistered { address, role, name, latitude, longitude } => seq![EventValue::U32(role), EventValue::Text(name), EventValue::I128(latitude), EventValue::I128(longitude)],
            ContractEvent::TokensRewarded { recipient, amount, waste_id } => seq![EventValue::U128(amount), EventValue::U64(waste_id)],
            ContractEvent::ParticipantLocationUpdated { address, latitude, longitude } => seq![EventValue::I128(latitude), EventValue::I128(longitude)],
            ContractEvent::IncentiveUpdated { incentive_id, rewarder, new_reward_points, new_total_budget } => seq![EventValue::Address(rewarder), EventValue::U64(new_reward_points), EventValue::U64(new_total_budget)],
            ContractEvent::CollectedWasteTransferred { waste_id, collector, manufacturer, waste_type, timestamp } => seq![EventValue::Address(collector), EventValue::Address(manufacturer), EventValue::WasteType(waste_type), EventValue::U64(timestamp)],
            ContractEvent::ConfirmationReset { waste_id, owner, timestamp } => seq![EventValue::Address(owner), EventValue::U64(timestamp)],
            ContractEvent::WasteDeactivated { waste_id, admin, timestamp } => seq![EventValue::Address(admin), EventValue::U64(timestamp)],
            ContractEvent::AdminTransferred { previous_admin } => seq![EventValue::Address(previous_admin)],
            ContractEvent::ContractPaused { admin } => seq![EventValue::Address(admin)],
            ContractEvent::ContractUnpaused { admin } => seq![EventValue::Address(admin)],
        }
    }

    pub fn indexed(&self) -> (r: Option<EventValue>)
        ensures
            r == self.spec_indexed(),
    {
        match self {
            ContractEvent::WasteRegistered { waste_id, recycler, waste_type, weight, latitude, longitude } => Some(EventValue::U128(*waste_id)),
            ContractEvent::DonationMade { donor, amount, charity_contract } => Some(EventValue::Address(*donor)),
            ContractEvent::WasteTransferred { waste_id, from, to } => Some(EventValue::U64(*waste_id)),
            ContractEvent::WasteTransferredAt { waste_id, from, to, timestamp } => Some(EventValue::U128(*waste_id)),
            ContractEvent::WasteConfirmed { waste_id, confirmer } => Some(EventValue::U128(*waste_id)),
            ContractEvent::ParticipantRegistered { address, role, name, latitude, longitude } => Some(EventValue::Address(*address)),
            ContractEvent::TokensRewarded { recipient, amount, waste_id } => Some(EventValue::Address(*recipient)),
            ContractEvent::ParticipantLocationUpdated { address, latitude, longitude } => Some(EventValue::Address(*address)),
            ContractEvent::IncentiveUpdated { incentive_id, rewarder, new_reward_points, new_total_budget } => Some(EventValue::U64(*incentive_id)),
            ContractEvent::CollectedWasteTransferred { waste_id, collector, manufacturer, waste_type, timestamp } => Some(EventValue::U128(*waste_id)),
            ContractEvent::ConfirmationReset { waste_id, owner, timestamp } => Some(EventValue::U128(*waste_id)),
            ContractEvent::WasteDeactivated { waste_id, admin, timestamp } => Some(EventValue::U128(*waste_id)),
            ContractEvent::AdminTransferred { previous_admin } => None,
            ContractEvent::ContractPaused { admin } => None,
            ContractEvent::ContractUnpaused { admin } => None,
        }
    }

    pub fn payload(&self) -> (r: Vec<EventValue>)
        ensures
            r@ == self.spec_payload(),
    {
        match self {
            ContractEvent::WasteRegistered { waste_id, recycler, waste_type, weight, latitude, longitude } => vec![EventValue::WasteType(*waste_type), EventValue::U128(*weight), EventValue::Address(*recycler), EventValue::I128(*latitude), EventValue::I128(*longitude)],
            ContractEvent::DonationMade { donor, amount, charity_contract } => vec![EventValue::I128(*amount), EventValue::Address(*charity_contract)],
            ContractEvent::WasteTransferred { waste_id, from, to } => vec![EventValue::Address(*from), EventValue::Address(*to)],
            ContractEvent::WasteTransferredAt { waste_id, from, to, timestamp } => vec![EventValue::Address(*from), EventValue::Address(*to), EventValue::U64(*timestamp)],
            ContractEvent::WasteConfirmed { waste_id, confirmer } => vec![EventValue::Address(*confirmer)],
            ContractEvent::ParticipantRegistered { address, role, name, latitude, longitude } => vec![EventValue::U32(*role), EventValue::Text(name.clone()), EventValue::I128(*latitude), EventValue::I128(*longitude)],
            ContractEvent::TokensRewarded { recipient, amount, waste_id } => vec![EventValue::U128(*amount), EventValue::U64(*waste_id)],
            ContractEvent::ParticipantLocationUpdated { address, latitude, longitude } => vec![EventValue::I128(*latitude), EventValue::I128(*longitude)],
            ContractEvent::IncentiveUpdated { incentive_id, rewarder, new_reward_points, new_total_budget } => vec![EventValue::Address(*rewarder), EventValue::U64(*new_reward_points), EventValue::U64(*new_total_budget)],
            ContractEvent::CollectedWasteTransferred { waste_id, collector, manufacturer, waste_type, timestamp } => vec![EventValue::Address(*collector), EventValue::Address(*manufacturer), EventValue::WasteType(*waste_type), EventValue::U64(*timestamp)],
            ContractEvent::ConfirmationReset { waste_id, owner, timestamp } => vec![EventValue::Address(*owner), EventValue::U64(*timestamp)],
            ContractEvent::WasteDeactivated { waste_id, admin, timestamp } => vec![EventValue::Address(*admin), EventValue::U64(*timestamp)],
            ContractEvent::AdminTransferred { previous_admin } => vec![EventValue::Address(*previous_admin)],
            ContractEvent::ContractPaused { admin } => vec![EventValue::Address(*admin)],
            ContractEvent::ContractUnpaused { admin } => vec![EventValue::Address(*admin)],
        }
    }
}

/// Appends the event for a registered v2 waste item.
pub fn emit_waste_registered(
    events: &mut Vec<ContractEvent>,
    waste_id: u128,
    recycler: &Address,
    waste_type: WasteType,
    weight: u128,
    latitude: i128,
    longitude: i128,
)
    ensures
        final(events)@ == old(events)@.push(
            ContractEvent::WasteRegistered { waste_id, recycler: *recycler, waste_type, weight, latitude, longitude },
        ),
{
    events.push(ContractEvent::WasteRegistered { waste_id, recycler: *recycler, waste_type, weight, latitude, longitude });
}

/// Appends the event for a donation to the charity.
pub fn emit_donation_made(events: &mut Vec<ContractEvent>, donor: &Address, amount: i128, charity_contract: &Address)
    ensures
        final(events)@ == old(events)@.push(
            ContractEvent::DonationMade { donor: *donor, amount, charity_contract: *charity_contract },
        ),
{
    events.push(ContractEvent::DonationMade { donor: *donor, amount, charity_contract: *charity_contract });
}

/// Appends the event for a v1 material transfer.
pub fn emit_waste_transferred(events: &mut Vec<ContractEvent>, waste_id: u64, from: &Address, to: &Address)
    ensures
        final(events)@ == old(events)@.push(ContractEvent::WasteTransferred { waste_id, from: *from, to: *to }),
{
    events.push(ContractEvent::WasteTransferred { waste_id, from: *from, to: *to });
}

/// Appends the event for a third-party confirmation.
pub fn emit_waste_confirmed(events: &mut Vec<ContractEvent>, waste_id: u128, confirmer: &Address)
    ensures
        final(events)@ == old(events)@.push(ContractEvent::WasteConfirmed { waste_id, confirmer: *confirmer }),
{
    events.push(ContractEvent::WasteConfirmed { waste_id, confirmer: *confirmer });
}

/// Appends the event for a registration; the role is published as its number.
pub fn emit_participant_registered(
    events: &mut Vec<ContractEvent>,
    address: &Address,
    role: ParticipantRole,
    name: String,
    latitude: i128,
    longitude: i128,
)
    ensures
        final(events)@ == old(events)@.push(
            ContractEvent::ParticipantRegistered {
                address: *address,
                role: role.spec_to_u32(),
                name,
                latitude,
                longitude,
            },
        ),
{
    let code = role.to_u32();
    events.push(ContractEvent::ParticipantRegistered { address: *address, role: code, name, latitude, longitude });
}

/// Appends the event for a token credit.
pub fn emit_tokens_rewarded(events: &mut Vec<ContractEvent>, recipient: &Address, amount: u128, waste_id: u64)
    ensures
        final(events)@ == old(events)@.push(ContractEvent::TokensRewarded { recipient: *recipient, amount, waste_id }),
{
    events.push(ContractEvent::TokensRewarded { recipient: *recipient, amount, waste_id });
}

/// Appends the event for a location change.
pub fn emit_participant_location_updated(
    events: &mut Vec<ContractEvent>,
    address: &Address,
    latitude: i128,
    longitude: i128,
)
    ensures
        final(events)@ == old(events)@.push(
            ContractEvent::ParticipantLocationUpdated { address: *address, latitude, longitude },
        ),
{
    events.push(ContractEvent::ParticipantLocationUpdated { address: *address, latitude, longitude });
}

/// Appends the event for a pause.
pub fn emit_contract_paused(events: &mut Vec<ContractEvent>, admin: &Address)
    ensures
        final(events)@ == old(events)@.push(ContractEvent::ContractPaused { admin: *admin }),
{
    events.push(ContractEvent::ContractPaused { admin: *admin });
}

/// Appends the event for an unpause.
pub fn emit_contract_unpaused(events: &mut Vec<ContractEvent>, admin: &Address)
    ensures
        final(events)@ == old(events)@.push(ContractEvent::ContractUnpaused { admin: *admin }),
{
    events.push(ContractEvent::ContractUnpaused { admin: *admin });
}

} // verus!
