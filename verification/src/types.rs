//! Records kept by the contract: participants, v1 materials, v2 waste items,
//! transfers, incentives and statistics.
use vstd::prelude::*;

verus! {

/// An account on the ledger. The host's addresses are mapped one to one onto
/// these identifiers by the layer that talks to the ledger.
#[derive(Clone, Copy, Debug, PartialEq, Eq, Structural, Hash)]
pub struct Address(pub u64);

/// Category of a waste material.
#[derive(Clone, Copy, Debug, PartialEq, Eq, Structural, Hash)]
pub enum WasteType {
    Paper,
    PetPlastic,
    Plastic,
    Metal,
    Glass,
}

impl WasteType {
    /// Numeric value of the variant (0 to 4, in declaration order).
    pub open spec fn spec_to_u32(self) -> u32 {
        match self {
            WasteType::Paper => 0,
            WasteType::PetPlastic => 1,
            WasteType::Plastic => 2,
            WasteType::Metal => 3,
            WasteType::Glass => 4,
        }
    }

    pub fn to_u32(&self) -> (r: u32)
        ensures
            r == self.spec_to_u32(),
    {
        match self {
            WasteType::Paper => 0,
            WasteType::PetPlastic => 1,
            WasteType::Plastic => 2,
            WasteType::Metal => 3,
            WasteType::Glass => 4,
        }
    }

    /// Reward multiplier of the waste type.
    pub open spec fn spec_multiplier(self) -> u64 {
        match self {
            WasteType::Paper => 1,
            WasteType::PetPlastic => 3,
            WasteType::Plastic => 2,
            WasteType::Metal => 5,
            WasteType::Glass => 2,
        }
    }

    pub fn multiplier(&self) -> (r: u64)
        ensures
            r == self.spec_multiplier(),
    {
        match self {
            WasteType::Paper => 1,
            WasteType::PetPlastic => 3,
            WasteType::Plastic => 2,
            WasteType::Metal => 5,
            WasteType::Glass => 2,
        }
    }

    /// Human-readable label.
    pub open spec fn spec_label(self) -> Seq<char> {
        match self {
            WasteType::Paper => "Paper"@,
            WasteType::PetPlastic => "PetPlastic"@,
            WasteType::Plastic => "Plastic"@,
            WasteType::Metal => "Metal"@,
            WasteType::Glass => "Glass"@,
        }
    }

    pub fn as_str(&self) -> (r: &'static str)
        ensures
            r@ == self.spec_label(),
    {
        match self {
            WasteType::Paper => "Paper",
            WasteType::PetPlastic => "PetPlastic",
            WasteType::Plastic => "Plastic",
            WasteType::Metal => "Metal",
            WasteType::Glass => "Glass",
        }
    }
}

/// Role of a participant in the supply chain.
#[derive(Clone, Copy, Debug, PartialEq, Eq, Structural, Hash)]
pub enum ParticipantRole {
    Recycler,
    Collector,
    Manufacturer,
}

impl ParticipantRole {
    pub open spec fn spec_to_u32(self) -> u32 {
        match self {
            ParticipantRole::Recycler => 0,
            ParticipantRole::Collector => 1,
            ParticipantRole::Manufacturer => 2,
        }
    }

    pub fn to_u32(&self) -> (r: u32)
        ensures
            r == self.spec_to_u32(),
    {
        match self {
            ParticipantRole::Recycler => 0,
            ParticipantRole::Collector => 1,
            ParticipantRole::Manufacturer => 2,
        }
    }

    pub open spec fn spec_label(self) -> Seq<char> {
        match self {
            ParticipantRole::Recycler => "Recycler"@,
            ParticipantRole::Collector => "Collector"@,
            ParticipantRole::Manufacturer => "Manufacturer"@,
        }
    }

    pub fn as_str(&self) -> (r: &'static str)
        ensures
            r@ == self.spec_label(),
    {
        match self {
            ParticipantRole::Recycler => "Recycler",
            ParticipantRole::Collector => "Collector",
            ParticipantRole::Manufacturer => "Manufacturer",
        }
    }

    /// Recyclers and collectors gather materials.
    pub open spec fn spec_can_collect_materials(self) -> bool {
        self is Recycler || self is Collector
    }

    pub fn can_collect_materials(&self) -> (r: bool)
        ensures
            r == self.spec_can_collect_materials(),
    {
        match self {
            ParticipantRole::Manufacturer => false,
            _ => true,
        }
    }

    /// Only manufacturers manufacture (and create incentives).
    pub open spec fn spec_can_manufacture(self) -> bool {
        self is Manufacturer
    }

    pub fn can_manufacture(&self) -> (r: bool)
        ensures
            r == self.spec_can_manufacture(),
    {
        match self {
            ParticipantRole::Manufacturer => true,
            _ => false,
        }
    }

    /// Only recyclers verify submitted materials.
    pub open spec fn spec_can_process_recyclables(self) -> bool {
        self is Recycler
    }

    pub fn can_process_recyclables(&self) -> (r: bool)
        ensures
            r == self.spec_can_process_recyclables(),
    {
        match self {
            ParticipantRole::Recycler => true,
            _ => false,
        }
    }

    pub fn is_same(&self, other: &ParticipantRole) -> (r: bool)
        ensures
            r == (*self == *other),
    {
        match (self, other) {
            (ParticipantRole::Recycler, ParticipantRole::Recycler) => true,
            (ParticipantRole::Collector, ParticipantRole::Collector) => true,
            (ParticipantRole::Manufacturer, ParticipantRole::Manufacturer) => true,
            _ => false,
        }
    }
}

/// Record of a supply-chain participant.
#[derive(Clone, Debug, PartialEq, Eq)]
pub struct Participant {
    pub address: Address,
    pub role: ParticipantRole,
    /// Short display name.
    pub name: String,
    /// Latitude in microdegrees.
    pub latitude: i128,
    /// Longitude in microdegrees.
    pub longitude: i128,
    pub is_registered: bool,
    /// Cumulative grams of waste processed.
    pub total_waste_processed: u128,
    /// Cumulative reward tokens earned.
    pub total_tokens_earned: u128,
    /// Ledger timestamp at registration.
    pub registered_at: u64,
}

impl Participant {
    /// A field-by-field copy.
    pub fn duplicate(&self) -> (r: Participant)
        ensures
            r == *self,
    {
        Participant {
            address: self.address,
            role: self.role,
            name: self.name.clone(),
            latitude: self.latitude,
            longitude: self.longitude,
            is_registered: self.is_registered,
            total_waste_processed: self.total_waste_processed,
            total_tokens_earned: self.total_tokens_earned,
            registered_at: self.registered_at,
        }
    }
}

/// Version 1 waste record: a submitted material.
#[derive(Clone, Debug, PartialEq, Eq)]
pub struct Material {
    pub id: u64,
    pub waste_type: WasteType,
    /// Weight in grams.
    pub weight: u64,
    /// Current holder of the material (the submitter until it is transferred).
    pub submitter: Address,
    pub submitted_at: u64,
    pub verified: bool,
    pub description: String,
}

/// Lightest weight, in grams, that counts as a meaningful submission.
pub const MIN_WEIGHT_GRAMS: u64 = 100;

/// Reward points of a material: whole kilograms times the type's multiplier times ten.
pub open spec fn spec_reward_points(waste_type: WasteType, weight: u64) -> u64 {
    ((weight / 1000) * waste_type.spec_multiplier() * 10) as u64
}

impl Material {
    pub fn new(
        id: u64,
        waste_type: WasteType,
        weight: u64,
        submitter: Address,
        submitted_at: u64,
        description: String,
    ) -> (r: Material)
        ensures
            r == (Material { id, waste_type, weight, submitter, submitted_at, verified: false, description }),
    {
        Material { id, waste_type, weight, submitter, submitted_at, verified: false, description }
    }

    pub fn duplicate(&self) -> (r: Material)
        ensures
            r == *self,
    {
        Material {
            id: self.id,
            waste_type: self.waste_type,
            weight: self.weight,
            submitter: self.submitter,
            submitted_at: self.submitted_at,
            verified: self.verified,
            description: self.description.clone(),
        }
    }

    /// Marks the material as verified.
    pub fn verify(&mut self)
        ensures
            *final(self) == (Material { verified: true, ..*old(self) }),
    {
        self.verified = true;
    }

    /// Whether the material reaches the minimum weight.
    pub fn meets_minimum_weight(&self) -> (r: bool)
        ensures
            r == (self.weight >= MIN_WEIGHT_GRAMS),
    {
        self.weight >= MIN_WEIGHT_GRAMS
    }

    /// Reward points for this material; never overflows since whole kilograms
    /// are at most `u64::MAX / 1000`.
    pub fn calculate_reward_points(&self) -> (r: u64)
        ensures
            r == spec_reward_points(self.waste_type, self.weight),
            r == (self.weight / 1000) * self.waste_type.spec_multiplier() * 10,
    {
        let kg = self.weight / 1000;
        let m = self.waste_type.multiplier();
        assert(kg * m * 10 <= 18446744073709551615u64 / 1000 * 50) by (nonlinear_arith)
            requires
                kg <= 18446744073709551615u64 / 1000,
                m <= 5,
        ;
        kg * m * 10
    }
}

/// Version 2 waste record with location and lifecycle flags.
#[derive(Clone, Copy, Debug, PartialEq, Eq, Structural)]
pub struct Waste {
    pub waste_id: u128,
    pub waste_type: WasteType,
    /// Weight in grams.
    pub weight: u128,
    pub current_owner: Address,
    pub latitude: i128,
    pub longitude: i128,
    pub recycled_timestamp: u64,
    pub is_active: bool,
    pub is_confirmed: bool,
    pub confirmer: Address,
}

/// Record of one ownership transfer.
#[derive(Clone, Debug, PartialEq, Eq)]
pub struct WasteTransfer {
    pub waste_id: u128,
    pub from: Address,
    pub to: Address,
    pub transferred_at: u64,
    pub latitude: i128,
    pub longitude: i128,
    pub note: String,
}

impl WasteTransfer {
    pub fn duplicate(&self) -> (r: WasteTransfer)
        ensures
            r == *self,
    {
        WasteTransfer {
            waste_id: self.waste_id,
            from: self.from,
            to: self.to,
            transferred_at: self.transferred_at,
            latitude: self.latitude,
            longitude: self.longitude,
            note: self.note.clone(),
        }
    }
}

/// A manufacturer's reward program for one waste type.
#[derive(Clone, Copy, Debug, PartialEq, Eq, Structural)]
pub struct Incentive {
    pub id: u64,
    pub rewarder: Address,
    pub waste_type: WasteType,
    /// Tokens per kilogram.
    pub reward_points: u64,
    pub total_budget: u64,
    pub remaining_budget: u64,
    pub active: bool,
    pub created_at: u64,
}

/// Per-participant recycling statistics of v1 submissions.
#[derive(Clone, Copy, Debug, PartialEq, Eq, Structural)]
pub struct RecyclingStats {
    pub participant: Address,
    pub total_submissions: u64,
    pub verified_submissions: u64,
    pub total_weight: u64,
    pub total_points: u64,
    pub paper_count: u64,
    pub pet_plastic_count: u64,
    pub plastic_count: u64,
    pub metal_count: u64,
    pub glass_count: u64,
}

/// Statistics with one more submission of `m` counted (counters saturate).
pub open spec fn stats_after_submission(s: RecyclingStats, m: Material) -> RecyclingStats {
    let s1 = RecyclingStats {
        total_submissions: sat_add(s.total_submissions, 1),
        total_weight: sat_add(s.total_weight, m.weight),
        ..s
    };
    match m.waste_type {
        WasteType::Paper => RecyclingStats { paper_count: sat_add(s.paper_count, 1), ..s1 },
        WasteType::PetPlastic => RecyclingStats { pet_plastic_count: sat_add(s.pet_plastic_count, 1), ..s1 },
        WasteType::Plastic => RecyclingStats { plastic_count: sat_add(s.plastic_count, 1), ..s1 },
        WasteType::Metal => RecyclingStats { metal_count: sat_add(s.metal_count, 1), ..s1 },
        WasteType::Glass => RecyclingStats { glass_count: sat_add(s.glass_count, 1), ..s1 },
    }
}

/// Statistics with one more verification of `m` counted (counters saturate).
pub open spec fn stats_after_verification(s: RecyclingStats, m: Material) -> RecyclingStats {
    RecyclingStats {
        verified_submissions: sat_add(s.verified_submissions, 1),
        total_points: sat_add(s.total_points, spec_reward_points(m.waste_type, m.weight)),
        ..s
    }
}

/// Saturating addition on `u64`.
pub open spec fn sat_add(a: u64, b: u64) -> u64 {
    if a + b > u64::MAX { u64::MAX } else { (a + b) as u64 }
}

impl RecyclingStats {
    pub fn new(participant: Address) -> (r: RecyclingStats)
        ensures
            r == empty_stats(participant),
    {
        RecyclingStats {
            participant,
            total_submissions: 0,
            verified_submissions: 0,
            total_weight: 0,
            total_points: 0,
            paper_count: 0,
            pet_plastic_count: 0,
            plastic_count: 0,
            metal_count: 0,
            glass_count: 0,
        }
    }

    pub fn record_submission(&mut self, m: &Material)
        ensures
            *final(self) == stats_after_submission(*old(self), *m),
    {
        self.total_submissions = self.total_submissions.saturating_add(1);
        self.total_weight = self.total_weight.saturating_add(m.weight);
        match m.waste_type {
            WasteType::Paper => self.paper_count = self.paper_count.saturating_add(1),
            WasteType::PetPlastic => self.pet_plastic_count = self.pet_plastic_count.saturating_add(1),
            WasteType::Plastic => self.plastic_count = self.plastic_count.saturating_add(1),
            WasteType::Metal => self.metal_count = self.metal_count.saturating_add(1),
            WasteType::Glass => self.glass_count = self.glass_count.saturating_add(1),
        }
    }

    pub fn record_verification(&mut self, m: &Material)
        ensures
            *final(self) == stats_after_verification(*old(self), *m),
    {
        self.verified_submissions = self.verified_submissions.saturating_add(1);
        let p = m.calculate_reward_points();
        self.total_points = self.total_points.saturating_add(p);
    }
}

/// Statistics of a participant with nothing recorded.
pub open spec fn empty_stats(participant: Address) -> RecyclingStats {
    RecyclingStats {
        participant,
        total_submissions: 0,
        verified_submissions: 0,
        total_weight: 0,
        total_points: 0,
        paper_count: 0,
        pet_plastic_count: 0,
        plastic_count: 0,
        metal_count: 0,
        glass_count: 0,
    }
}

/// Shares of a reward: each collector's percentage and the owner's percentage.
#[derive(Clone, Copy, Debug, PartialEq, Eq, Structural)]
pub struct RewardConfig {
    pub collector_percentage: u32,
    pub owner_percentage: u32,
}

/// Contract-wide counters.
#[derive(Clone, Copy, Debug, PartialEq, Eq, Structural)]
pub struct GlobalMetrics {
    pub total_wastes_count: u64,
    pub total_tokens_earned: u128,
}

/// A participant together with their statistics.
#[derive(Clone, Debug, PartialEq, Eq)]
pub struct ParticipantInfo {
    pub participant: Participant,
    pub stats: RecyclingStats,
}

} // verus!
