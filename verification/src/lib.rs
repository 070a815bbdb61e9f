//! Verified core of the Scavenger recycling supply-chain contract.
pub mod contract;
pub mod errors;
pub mod events;
pub mod laws;
pub mod payout_laws;
pub mod types;
pub mod validation;

pub use contract::ScavengerContract;
pub use errors::{Error, Fault, Panic};
pub use types::{
    Address, GlobalMetrics, Incentive, Material, Participant, ParticipantInfo, ParticipantRole, RecyclingStats,
    RewardConfig, Waste, WasteTransfer, WasteType,
};
