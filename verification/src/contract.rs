//! The contract's state, its mathematical model, and the access checks that
//! the entry points share.
use vstd::prelude::*;

pub mod admin;
pub mod incentives;
pub mod materials;
pub mod participants;
pub mod rewards;
pub mod signers;
pub mod tokens;
pub mod wastes;
use std::collections::HashMap;
use crate::errors::{Fault, Panic};
use crate::events::ContractEvent;
use crate::types::{Address, Incentive, Material, Participant, RecyclingStats, RewardConfig, Waste, WasteTransfer};

verus! {

broadcast use vstd::std_specs::hash::group_hash_axioms;

/// A waste record under its numeric ID: a v1 material or a v2 waste item.
/// Both kinds draw their IDs from one counter.
#[derive(Clone, Debug, PartialEq, Eq)]
pub enum WasteRecord {
    Material(Material),
    Item(Waste),
}

impl WasteRecord {
    /// The ID the record was stored under.
    pub open spec fn spec_id(&self) -> int {
        match self {
            WasteRecord::Material(m) => m.id as int,
            WasteRecord::Item(w) => w.waste_id as int,
        }
    }

    pub fn duplicate(&self) -> (r: WasteRecord)
        ensures
            r == *self,
    {
        match self {
            WasteRecord::Material(m) => WasteRecord::Material(m.duplicate()),
            WasteRecord::Item(w) => WasteRecord::Item(*w),
        }
    }
}

/// Mathematical model of the contract's storage.
#[verifier::ext_equal]
pub struct ContractState {
    /// Admin list; `None` until `initialize_admin`.
    pub admins: Option<Seq<Address>>,
    pub charity: Option<Address>,
    /// Reward percentages in force (5 % / 50 % until changed).
    pub config: RewardConfig,
    pub token: Option<Address>,
    pub paused: bool,
    /// Grams submitted through `submit_material`.
    pub total_weight: u64,
    /// Tokens credited to participants in total.
    pub total_tokens: u128,
    /// Participant records by address.
    pub participants: Map<u64, Participant>,
    /// Registered addresses in registration order.
    pub index: Seq<Address>,
    /// Recycling statistics by address.
    pub stats: Map<u64, RecyclingStats>,
    /// v2 waste IDs held by each address, in order of receipt.
    pub owned: Map<u64, Seq<u128>>,
    /// Waste records; the record with ID `i + 1` is at position `i`.
    pub wastes: Seq<WasteRecord>,
    /// Every transfer ever made, oldest first.
    pub transfers: Seq<WasteTransfer>,
    /// Incentives; the incentive with ID `i + 1` is at position `i`.
    pub incentives: Seq<Incentive>,
    /// Published events, oldest first.
    pub events: Seq<ContractEvent>,
}

/// The default reward split.
pub open spec fn default_config() -> RewardConfig {
    RewardConfig { collector_percentage: 5, owner_percentage: 50 }
}

/// What every reachable state satisfies.
pub open spec fn state_inv(s: ContractState) -> bool {
    &&& s.config.collector_percentage + s.config.owner_percentage <= 100
    &&& forall|k: u64| #[trigger] s.participants.contains_key(k) ==> s.participants[k].address.0 == k
    &&& s.wastes.len() <= u64::MAX
    &&& forall|i: int| 0 <= i < s.wastes.len() ==> #[trigger] s.wastes[i].spec_id() == i + 1
    &&& s.incentives.len() <= u64::MAX
    &&& forall|i: int|
        0 <= i < s.incentives.len() ==> {
            &&& (#[trigger] s.incentives[i]).id == i + 1
            &&& s.incentives[i].remaining_budget <= s.incentives[i].total_budget
        }
}

/// The state of a freshly deployed contract.
pub open spec fn initial_state() -> ContractState {
    ContractState {
        admins: None,
        charity: None,
        config: default_config(),
        token: None,
        paused: false,
        total_weight: 0,
        total_tokens: 0,
        participants: Map::empty(),
        index: Seq::empty(),
        stats: Map::empty(),
        owned: Map::empty(),
        wastes: Seq::empty(),
        transfers: Seq::empty(),
        incentives: Seq::empty(),
        events: Seq::empty(),
    }
}

/// Is `a` in the admin list?
pub open spec fn is_admin(s: ContractState, a: Address) -> bool {
    s.admins matches Some(l) && l.contains(a)
}

/// The participant record stored for `a`, if any.
pub open spec fn participant_of(s: ContractState, a: Address) -> Option<Participant> {
    if s.participants.contains_key(a.0) {
        Some(s.participants[a.0])
    } else {
        None
    }
}

/// Does `a` have a record with `is_registered` set?
pub open spec fn is_registered(s: ContractState, a: Address) -> bool {
    s.participants.contains_key(a.0) && s.participants[a.0].is_registered
}

/// The v1 material with the given ID, if any.
pub open spec fn material_of(s: ContractState, id: u64) -> Option<Material> {
    if 1 <= id <= s.wastes.len() {
        match s.wastes[id - 1] {
            WasteRecord::Material(m) => Some(m),
            WasteRecord::Item(_) => None,
        }
    } else {
        None
    }
}

/// The v2 waste item with the given ID, if any.
pub open spec fn waste_of(s: ContractState, id: u128) -> Option<Waste> {
    if 1 <= id <= s.wastes.len() {
        match s.wastes[id - 1] {
            WasteRecord::Item(w) => Some(w),
            WasteRecord::Material(_) => None,
        }
    } else {
        None
    }
}

/// The incentive with the given ID, if any.
pub open spec fn incentive_of(s: ContractState, id: u64) -> Option<Incentive> {
    if 1 <= id <= s.incentives.len() {
        Some(s.incentives[id - 1])
    } else {
        None
    }
}

/// Is a transfer record about waste `id`?
pub open spec fn is_about(id: u128) -> spec_fn(WasteTransfer) -> bool {
    |t: WasteTransfer| t.waste_id == id
}

/// Transfers of waste `id`, oldest first.
pub open spec fn history_of(s: ContractState, id: u128) -> Seq<WasteTransfer> {
    s.transfers.filter(is_about(id))
}

/// The v2 waste IDs held by `a`.
pub open spec fn owned_by(s: ContractState, a: Address) -> Seq<u128> {
    if s.owned.contains_key(a.0) {
        s.owned[a.0]
    } else {
        Seq::empty()
    }
}

/// How an entry point ends: refused with `fault` and the state untouched, or
/// returning `value` with the state moved to `after`.
pub open spec fn commits<T>(
    old: ContractState,
    new: ContractState,
    r: Result<T, Fault>,
    fault: Option<Fault>,
    after: ContractState,
    value: T,
) -> bool {
    match fault {
        Some(f) => r == Err::<T, Fault>(f) && new == old,
        None => r == Ok::<T, Fault>(value) && new == after,
    }
}

/// The first of two checks that fails, if any.
pub open spec fn either(first: Option<Fault>, second: Option<Fault>) -> Option<Fault> {
    if first is Some {
        first
    } else {
        second
    }
}

/// Refuses every state change while the contract is paused.
pub open spec fn check_not_paused(s: ContractState) -> Option<Fault> {
    if s.paused {
        Some(Fault::Panic(Panic::Paused))
    } else {
        None
    }
}

/// The caller must be a registered participant.
pub open spec fn check_only_registered(s: ContractState, a: Address) -> Option<Fault> {
    if is_registered(s, a) {
        None
    } else {
        Some(Fault::Panic(Panic::CallerNotRegistered))
    }
}

/// An address taking part in a transfer or action must be registered.
pub open spec fn check_require_registered(s: ContractState, a: Address) -> Option<Fault> {
    if !s.participants.contains_key(a.0) {
        Some(Fault::Panic(Panic::ParticipantNotFound))
    } else if !s.participants[a.0].is_registered {
        Some(Fault::Panic(Panic::ParticipantNotRegistered))
    } else {
        None
    }
}

/// The caller must be a registered manufacturer.
pub open spec fn check_only_manufacturer(s: ContractState, a: Address) -> Option<Fault> {
    if !is_registered(s, a) {
        Some(Fault::Panic(Panic::CallerNotRegistered))
    } else if !s.participants[a.0].role.spec_can_manufacture() {
        Some(Fault::Panic(Panic::CallerNotManufacturer))
    } else {
        None
    }
}

/// Admin check used by the configuration setters.
pub open spec fn check_only_admin(s: ContractState, a: Address) -> Option<Fault> {
    match s.admins {
        None => Some(Fault::Panic(Panic::ContractAdminNotSet)),
        Some(l) => if l.contains(a) {
            None
        } else {
            Some(Fault::Panic(Panic::NotContractAdmin))
        },
    }
}

/// Admin check used by admin management, token setup and pausing.
pub open spec fn check_require_admin(s: ContractState, a: Address) -> Option<Fault> {
    match s.admins {
        None => Some(Fault::Panic(Panic::AdminNotSet)),
        Some(l) => if l.contains(a) {
            None
        } else {
            Some(Fault::Panic(Panic::CallerNotAdmin))
        },
    }
}

/// The caller must hold the v2 waste item.
pub open spec fn check_only_waste_owner(s: ContractState, a: Address, id: u128) -> Option<Fault> {
    match waste_of(s, id) {
        None => Some(Fault::Panic(Panic::WasteItemNotFound)),
        Some(w) => if w.current_owner == a {
            None
        } else {
            Some(Fault::Panic(Panic::NotWasteOwner))
        },
    }
}

/// The recycling supply chain: the exact set of permitted role transitions.
pub open spec fn permitted_route(from: crate::types::ParticipantRole, to: crate::types::ParticipantRole) -> bool {
    ||| (from is Recycler && to is Collector)
    ||| (from is Recycler && to is Manufacturer)
    ||| (from is Collector && to is Manufacturer)
}

/// Both parties are registered and their roles form a permitted route.
pub open spec fn valid_transfer(s: ContractState, from: Address, to: Address) -> bool {
    &&& is_registered(s, from)
    &&& is_registered(s, to)
    &&& permitted_route(s.participants[from.0].role, s.participants[to.0].role)
}

/// The state of the contract: what it keeps in its instance storage.
pub struct ScavengerContract {
    pub(crate) admins: Option<Vec<Address>>,
    pub(crate) charity: Option<Address>,
    pub(crate) config: RewardConfig,
    pub(crate) token: Option<Address>,
    pub(crate) paused: bool,
    pub(crate) total_weight: u64,
    pub(crate) total_tokens: u128,
    pub(crate) participants: HashMap<u64, Participant>,
    pub(crate) index: Vec<Address>,
    pub(crate) stats: HashMap<u64, RecyclingStats>,
    pub(crate) owned: HashMap<u64, Vec<u128>>,
    pub(crate) wastes: Vec<WasteRecord>,
    pub(crate) transfers: Vec<WasteTransfer>,
    pub(crate) incentives: Vec<Incentive>,
    pub(crate) events: Vec<ContractEvent>,
}

impl View for ScavengerContract {
    type V = ContractState;

    closed spec fn view(&self) -> ContractState {
        ContractState {
            admins: match self.admins {
                Some(l) => Some(l@),
                None => None,
            },
            charity: self.charity,
            config: self.config,
            token: self.token,
            paused: self.paused,
            total_weight: self.total_weight,
            total_tokens: self.total_tokens,
            participants: self.participants@,
            index: self.index@,
            stats: self.stats@,
            owned: self.owned@.map_values(|v: Vec<u128>| v@),
            wastes: self.wastes@,
            transfers: self.transfers@,
            incentives: self.incentives@,
            events: self.events@,
        }
    }
}

impl ScavengerContract {
    /// Well-formedness: the model satisfies the state invariant.
    pub closed spec fn wf(&self) -> bool {
        state_inv(self@)
    }

    /// A freshly deployed contract.
    pub fn new() -> (r: ScavengerContract)
        ensures
            r.wf(),
            r@ == initial_state(),
    {
        let r = ScavengerContract {
            admins: None,
            charity: None,
            config: RewardConfig { collector_percentage: 5, owner_percentage: 50 },
            token: None,
            paused: false,
            total_weight: 0,
            total_tokens: 0,
            participants: HashMap::new(),
            index: Vec::new(),
            stats: HashMap::new(),
            owned: HashMap::new(),
            wastes: Vec::new(),
            transfers: Vec::new(),
            incentives: Vec::new(),
            events: Vec::new(),
        };
        assert(r@.owned =~= Map::<u64, Seq<u128>>::empty());
        assert(r@ == initial_state());
        r
    }

    /// A copy of the whole state, for entry points that work on a copy and
    /// keep it only when every step succeeds.
    pub(crate) fn snapshot(&self) -> (r: ScavengerContract)
        ensures
            r@ == self@,
    {
        let admins = match &self.admins {
            Some(l) => Some(l.clone()),
            None => None,
        };
        let mut wastes: Vec<WasteRecord> = Vec::new();
        let mut i: usize = 0;
        while i < self.wastes.len()
            invariant
                i <= self.wastes.len(),
                wastes@ == self.wastes@.take(i as int),
            decreases self.wastes.len() - i,
        {
            wastes.push(self.wastes[i].duplicate());
            i = i + 1;
            assert(wastes@ =~= self.wastes@.take(i as int));
        }
        let mut transfers: Vec<WasteTransfer> = Vec::new();
        let mut j: usize = 0;
        while j < self.transfers.len()
            invariant
                j <= self.transfers.len(),
                transfers@ == self.transfers@.take(j as int),
            decreases self.transfers.len() - j,
        {
            transfers.push(self.transfers[j].duplicate());
            j = j + 1;
            assert(transfers@ =~= self.transfers@.take(j as int));
        }
        let mut events: Vec<ContractEvent> = Vec::new();
        let mut k: usize = 0;
        while k < self.events.len()
            invariant
                k <= self.events.len(),
                events@ == self.events@.take(k as int),
            decreases self.events.len() - k,
        {
            events.push(self.events[k].duplicate());
            k = k + 1;
            assert(events@ =~= self.events@.take(k as int));
        }
        assert(wastes@ =~= self.wastes@);
        assert(transfers@ =~= self.transfers@);
        assert(events@ =~= self.events@);
        let r = ScavengerContract {
            admins,
            charity: self.charity,
            config: self.config,
            token: self.token,
            paused: self.paused,
            total_weight: self.total_weight,
            total_tokens: self.total_tokens,
            participants: self.participants.clone(),
            index: self.index.clone(),
            stats: self.stats.clone(),
            owned: self.owned.clone(),
            wastes,
            transfers,
            incentives: self.incentives.clone(),
            events,
        };
        assert(r@.index =~= self@.index);
        assert(r@.incentives =~= self@.incentives);
        assert(r@ =~= self@);
        r
    }

    /// Events published so far, oldest first.
    pub fn events(&self) -> (r: &Vec<ContractEvent>)
        ensures
            r@ == self@.events,
    {
        &self.events
    }

    pub(crate) fn check_not_paused(&self) -> (r: Option<Fault>)
        ensures
            r == check_not_paused(self@),
    {
        if self.paused {
            Some(Fault::Panic(Panic::Paused))
        } else {
            None
        }
    }

    pub(crate) fn registered(&self, a: Address) -> (r: bool)
        ensures
            r == is_registered(self@, a),
    {
        match self.participants.get(&a.0) {
            Some(p) => p.is_registered,
            None => false,
        }
    }

    pub(crate) fn check_only_registered(&self, a: Address) -> (r: Option<Fault>)
        ensures
            r == check_only_registered(self@, a),
    {
        if self.registered(a) {
            None
        } else {
            Some(Fault::Panic(Panic::CallerNotRegistered))
        }
    }

    pub(crate) fn check_require_registered(&self, a: Address) -> (r: Option<Fault>)
        ensures
            r == check_require_registered(self@, a),
    {
        match self.participants.get(&a.0) {
            None => Some(Fault::Panic(Panic::ParticipantNotFound)),
            Some(p) => if !p.is_registered {
                Some(Fault::Panic(Panic::ParticipantNotRegistered))
            } else {
                None
            },
        }
    }

    pub(crate) fn check_only_manufacturer(&self, a: Address) -> (r: Option<Fault>)
        ensures
            r == check_only_manufacturer(self@, a),
    {
        match self.participants.get(&a.0) {
            None => Some(Fault::Panic(Panic::CallerNotRegistered)),
            Some(p) => if !p.is_registered {
                Some(Fault::Panic(Panic::CallerNotRegistered))
            } else if !p.role.can_manufacture() {
                Some(Fault::Panic(Panic::CallerNotManufacturer))
            } else {
                None
            },
        }
    }

    pub(crate) fn admin_listed(&self, a: Address) -> (r: bool)
        ensures
            r == is_admin(self@, a),
    {
        match &self.admins {
            None => false,
            Some(l) => contains_address(l, a),
        }
    }

    pub(crate) fn check_only_admin(&self, a: Address) -> (r: Option<Fault>)
        ensures
            r == check_only_admin(self@, a),
    {
        match &self.admins {
            None => Some(Fault::Panic(Panic::ContractAdminNotSet)),
            Some(l) => if contains_address(l, a) {
                None
            } else {
                Some(Fault::Panic(Panic::NotContractAdmin))
            },
        }
    }

    pub(crate) fn check_require_admin(&self, a: Address) -> (r: Option<Fault>)
        ensures
            r == check_require_admin(self@, a),
    {
        match &self.admins {
            None => Some(Fault::Panic(Panic::AdminNotSet)),
            Some(l) => if contains_address(l, a) {
                None
            } else {
                Some(Fault::Panic(Panic::CallerNotAdmin))
            },
        }
    }

    /// Position of the v2 waste item `id` in the record list, if it exists.
    pub(crate) fn waste_index(&self, id: u128) -> (r: Option<usize>)
        requires
            self.wf(),
        ensures
            match r {
                Some(i) => waste_of(self@, id) is Some && i == id - 1 && i < self@.wastes.len()
                    && self@.wastes[i as int] == WasteRecord::Item(waste_of(self@, id)->0),
                None => waste_of(self@, id) is None,
            },
    {
        if id == 0 || id > self.wastes.len() as u128 {
            return None;
        }
        let i = (id - 1) as usize;
        match &self.wastes[i] {
            WasteRecord::Item(_) => Some(i),
            WasteRecord::Material(_) => None,
        }
    }

    /// Position of the v1 material `id` in the record list, if it exists.
    pub(crate) fn material_index(&self, id: u64) -> (r: Option<usize>)
        requires
            self.wf(),
        ensures
            match r {
                Some(i) => material_of(self@, id) is Some && i == id - 1 && i < self@.wastes.len()
                    && self@.wastes[i as int] == WasteRecord::Material(material_of(self@, id)->0),
                None => material_of(self@, id) is None,
            },
    {
        if id == 0 || id as u128 > self.wastes.len() as u128 {
            return None;
        }
        let i = (id - 1) as usize;
        match &self.wastes[i] {
            WasteRecord::Material(_) => Some(i),
            WasteRecord::Item(_) => None,
        }
    }

    pub(crate) fn check_only_waste_owner(&self, a: Address, id: u128) -> (r: Option<Fault>)
        requires
            self.wf(),
        ensures
            r == check_only_waste_owner(self@, a, id),
    {
        match self.waste_index(id) {
            None => Some(Fault::Panic(Panic::WasteItemNotFound)),
            Some(i) => match &self.wastes[i] {
                WasteRecord::Item(w) => if w.current_owner == a {
                    None
                } else {
                    Some(Fault::Panic(Panic::NotWasteOwner))
                },
                WasteRecord::Material(_) => Some(Fault::Panic(Panic::WasteItemNotFound)),
            },
        }
    }

    /// Whether `from` may hand waste to `to`: both registered and the roles
    /// form one of the permitted routes.
    pub fn is_valid_transfer(&self, from: Address, to: Address) -> (r: bool)
        ensures
            r == valid_transfer(self@, from, to),
    {
        let fp = match self.participants.get(&from.0) {
            Some(p) => p,
            None => return false,
        };
        let tp = match self.participants.get(&to.0) {
            Some(p) => p,
            None => return false,
        };
        if !fp.is_registered || !tp.is_registered {
            return false;
        }
        if fp.role.is_same(&tp.role) {
            return false;
        }
        match (fp.role, tp.role) {
            (crate::types::ParticipantRole::Recycler, crate::types::ParticipantRole::Collector) => true,
            (crate::types::ParticipantRole::Recycler, crate::types::ParticipantRole::Manufacturer) => true,
            (crate::types::ParticipantRole::Collector, crate::types::ParticipantRole::Manufacturer) => true,
            _ => false,
        }
    }
}

/// Linear search for an address.
pub fn contains_address(l: &Vec<Address>, a: Address) -> (r: bool)
    ensures
        r == l@.contains(a),
{
    let mut i: usize = 0;
    while i < l.len()
        invariant
            i <= l.len(),
            forall|j: int| 0 <= j < i ==> l@[j] != a,
        decreases l.len() - i,
    {
        if l[i] == a {
            return true;
        }
        i = i + 1;
    }
    false
}

} // verus!
