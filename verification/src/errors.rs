//! Ways in which a call into the contract is refused.
use vstd::prelude::*;

verus! {

/// Typed error codes of the contract (the numeric code is `code()`).
#[derive(Clone, Copy, Debug, PartialEq, Eq, Structural)]
pub enum Error {
    /// (1) The contract admin has already been initialised.
    AlreadyInitialized,
    /// (2) The caller is not the contract administrator.
    Unauthorized,
    /// (3) The address is not a registered participant.
    NotRegistered,
    /// (4) The address is already registered as a participant.
    AlreadyRegistered,
    /// (5) The caller's role is not `Manufacturer`.
    NotManufacturer,
    /// (6) The caller does not own the waste item.
    NotWasteOwner,
    /// (7) No waste record exists for the given ID.
    WasteNotFound,
    /// (8) No material record exists for the given ID.
    MaterialNotFound,
    /// (9) No incentive record exists for the given ID.
    IncentiveNotFound,
    /// (10) No participant record exists for the given address.
    ParticipantNotFound,
    /// (11) An amount is zero or negative.
    InvalidAmount,
    /// (12) A waste weight is zero.
    InvalidWeight,
    /// (13) Latitude or longitude is out of range.
    InvalidCoordinates,
    /// (14) The two reward percentages sum to more than 100.
    InvalidPercentage,
    /// (15) The donor's earned balance is too low.
    InsufficientBalance,
    /// (16) No charity contract address is configured.
    CharityNotSet,
    /// (17) No token contract address is configured.
    TokenAddressNotSet,
    /// (18) The waste item is deactivated.
    WasteDeactivated,
    /// (19) The waste item is already deactivated.
    WasteAlreadyDeactivated,
    /// (20) The waste item is already confirmed.
    WasteAlreadyConfirmed,
    /// (21) The waste item is not confirmed.
    WasteNotConfirmed,
    /// (22) The owner tried to confirm their own waste item.
    SelfConfirmation,
    /// (23) The incentive is not active.
    IncentiveInactive,
    /// (24) The material is not verified.
    MaterialNotVerified,
    /// (25) The material's waste type differs from the incentive's.
    WasteTypeMismatch,
    /// (26) The calculated reward is zero.
    NoRewardAvailable,
    /// (27) The role combination is not a permitted transfer route.
    InvalidTransferRoute,
    /// (28) Two addresses that must differ are equal.
    SameAddress,
    /// (29) An arithmetic operation would overflow.
    Overflow,
    /// (30) The caller did not create the resource.
    NotCreator,
    /// (31) The incentive's budget is too small for the reward.
    InsufficientBudget,
}

impl Error {
    /// Numeric code that the host reports for the error.
    pub open spec fn spec_code(self) -> u32 {
        match self {
            Error::AlreadyInitialized => 1,
            Error::Unauthorized => 2,
            Error::NotRegistered => 3,
            Error::AlreadyRegistered => 4,
            Error::NotManufacturer => 5,
            Error::NotWasteOwner => 6,
            Error::WasteNotFound => 7,
            Error::MaterialNotFound => 8,
            Error::IncentiveNotFound => 9,
            Error::ParticipantNotFound => 10,
            Error::InvalidAmount => 11,
            Error::InvalidWeight => 12,
            Error::InvalidCoordinates => 13,
            Error::InvalidPercentage => 14,
            Error::InsufficientBalance => 15,
            Error::CharityNotSet => 16,
            Error::TokenAddressNotSet => 17,
            Error::WasteDeactivated => 18,
            Error::WasteAlreadyDeactivated => 19,
            Error::WasteAlreadyConfirmed => 20,
            Error::WasteNotConfirmed => 21,
            Error::SelfConfirmation => 22,
            Error::IncentiveInactive => 23,
            Error::MaterialNotVerified => 24,
            Error::WasteTypeMismatch => 25,
            Error::NoRewardAvailable => 26,
            Error::InvalidTransferRoute => 27,
            Error::SameAddress => 28,
            Error::Overflow => 29,
            Error::NotCreator => 30,
            Error::InsufficientBudget => 31,
        }
    }

    pub fn code(&self) -> (c: u32)
        ensures
            c == self.spec_code(),
    {
        match self {
            Error::AlreadyInitialized => 1,
            Error::Unauthorized => 2,
            Error::NotRegistered => 3,
            Error::AlreadyRegistered => 4,
            Error::NotManufacturer => 5,
            Error::NotWasteOwner => 6,
            Error::WasteNotFound => 7,
            Error::MaterialNotFound => 8,
            Error::IncentiveNotFound => 9,
            Error::ParticipantNotFound => 10,
            Error::InvalidAmount => 11,
            Error::InvalidWeight => 12,
            Error::InvalidCoordinates => 13,
            Error::InvalidPercentage => 14,
            Error::InsufficientBalance => 15,
            Error::CharityNotSet => 16,
            Error::TokenAddressNotSet => 17,
            Error::WasteDeactivated => 18,
            Error::WasteAlreadyDeactivated => 19,
            Error::WasteAlreadyConfirmed => 20,
            Error::WasteNotConfirmed => 21,
            Error::SelfConfirmation => 22,
            Error::IncentiveInactive => 23,
            Error::MaterialNotVerified => 24,
            Error::WasteTypeMismatch => 25,
            Error::NoRewardAvailable => 26,
            Error::InvalidTransferRoute => 27,
            Error::SameAddress => 28,
            Error::Overflow => 29,
            Error::NotCreator => 30,
            Error::InsufficientBudget => 31,
        }
    }
}

/// A call aborted with a message; the host reverts the whole invocation.
#[derive(Clone, Copy, Debug, PartialEq, Eq, Structural)]
pub enum Panic {
    /// "Admin already initialized"
    AdminAlreadyInitialized,
    /// "Admin not set"
    AdminNotSet,
    /// "No admin found"
    NoAdminFound,
    /// "Admin list cannot be empty"
    AdminListEmpty,
    /// "Cannot remove the last admin"
    LastAdmin,
    /// "Admin to remove not found"
    AdminToRemoveNotFound,
    /// "Unauthorized: caller is not admin"
    CallerNotAdmin,
    /// "Contract admin has not been set"
    ContractAdminNotSet,
    /// "Caller is not the contract admin"
    NotContractAdmin,
    /// "Caller is not a registered participant"
    CallerNotRegistered,
    /// "Caller is not a manufacturer"
    CallerNotManufacturer,
    /// "Waste item not found"
    WasteItemNotFound,
    /// "Caller is not the owner of this waste item"
    NotWasteOwner,
    /// "Charity address cannot be the same as admin"
    CharityIsAdmin,
    /// "Donation amount must be greater than zero"
    DonationNotPositive,
    /// "Insufficient balance"
    InsufficientBalance,
    /// "Charity contract not set"
    CharityNotSet,
    /// "Total percentages cannot exceed 100"
    PercentagesExceed100,
    /// "Reward amount must be greater than zero"
    RewardAmountNotPositive,
    /// "Recipient not registered"
    RecipientNotRegistered,
    /// "Token address not set"
    TokenAddressNotSet,
    /// "Token overflow"
    TokenOverflow,
    /// "Total tokens overflow"
    TotalTokensOverflow,
    /// "Participant already registered"
    AlreadyRegistered,
    /// "Latitude must be between -90 and +90 degrees"
    InvalidLatitude,
    /// "Longitude must be between -180 and +180 degrees"
    InvalidLongitude,
    /// "Overflow in total_waste_processed"
    WasteProcessedOverflow,
    /// "Overflow in total_tokens_earned"
    TokensEarnedOverflow,
    /// "Participant is not registered"
    ParticipantNotRegistered,
    /// "Participant not found"
    ParticipantNotFound,
    /// "Overflow in total weight"
    TotalWeightOverflow,
    /// "Overflow in total tokens"
    TotalTokensSumOverflow,
    /// "Waste weight exceeds u64 range"
    WeightExceedsU64,
    /// "Overflow in active waste total weight"
    ActiveWeightOverflow,
    /// "Incentive not found"
    IncentiveNotFound,
    /// "Incentive is not active"
    IncentiveNotActive,
    /// "Reward must be greater than zero"
    RewardNotPositive,
    /// "Total budget must be greater than zero"
    BudgetNotPositive,
    /// "Waste not found"
    WasteNotFound,
    /// "Only waste owner can transfer"
    OnlyOwnerCanTransfer,
    /// "Self-transfer is not allowed"
    SelfTransfer,
    /// "Invalid transfer: role combination not allowed"
    InvalidRoute,
    /// "Waste weight must be greater than zero"
    WeightNotPositive,
    /// "Only collectors can use this"
    OnlyCollectors,
    /// "Recipient must be manufacturer"
    RecipientNotManufacturer,
    /// "Cannot confirm deactivated waste"
    ConfirmDeactivated,
    /// "Owner cannot confirm own waste"
    OwnerConfirmation,
    /// "Waste already confirmed"
    AlreadyConfirmed,
    /// "Waste is not confirmed"
    NotConfirmed,
    /// "Waste already deactivated"
    AlreadyDeactivated,
    /// "Overflow in batch weight"
    BatchWeightOverflow,
    /// "Verifier not registered"
    VerifierNotFound,
    /// "Verifier is not registered"
    VerifierNotRegistered,
    /// "Only recyclers can verify materials"
    OnlyRecyclersVerify,
    /// "Material not found"
    MaterialNotFound,
    /// "Material not verified"
    MaterialNotVerified,
    /// "Waste type mismatch"
    WasteTypeMismatch,
    /// "No reward available"
    NoRewardAvailable,
    /// "Only incentive creator can deactivate"
    OnlyCreatorDeactivates,
    /// "Contract is already paused"
    AlreadyPaused,
    /// "Contract is not paused"
    NotPaused,
    /// "Contract is paused"
    Paused,
    /// "Material must be confirmed"
    MaterialNotConfirmed,
    /// "Only incentive creator can distribute rewards"
    OnlyCreatorDistributes,
    /// "Incentive not active"
    IncentiveInactive,
    /// "Insufficient incentive budget"
    InsufficientIncentiveBudget,
    /// "attempt to compute with overflow"
    ArithmeticOverflow,
}

impl Panic {
    /// The message the call aborts with.
    pub open spec fn spec_message(self) -> Seq<char> {
        match self {
            Panic::AdminAlreadyInitialized => "Admin already initialized"@,
            Panic::AdminNotSet => "Admin not set"@,
            Panic::NoAdminFound => "No admin found"@,
            Panic::AdminListEmpty => "Admin list cannot be empty"@,
            Panic::LastAdmin => "Cannot remove the last admin"@,
            Panic::AdminToRemoveNotFound => "Admin to remove not found"@,
            Panic::CallerNotAdmin => "Unauthorized: caller is not admin"@,
            Panic::ContractAdminNotSet => "Contract admin has not been set"@,
            Panic::NotContractAdmin => "Caller is not the contract admin"@,
            Panic::CallerNotRegistered => "Caller is not a registered participant"@,
            Panic::CallerNotManufacturer => "Caller is not a manufacturer"@,
            Panic::WasteItemNotFound => "Waste item not found"@,
            Panic::NotWasteOwner => "Caller is not the owner of this waste item"@,
            Panic::CharityIsAdmin => "Charity address cannot be the same as admin"@,
            Panic::DonationNotPositive => "Donation amount must be greater than zero"@,
            Panic::InsufficientBalance => "Insufficient balance"@,
            Panic::CharityNotSet => "Charity contract not set"@,
            Panic::PercentagesExceed100 => "Total percentages cannot exceed 100"@,
            Panic::RewardAmountNotPositive => "Reward amount must be greater than zero"@,
            Panic::RecipientNotRegistered => "Recipient not registered"@,
            Panic::TokenAddressNotSet => "Token address not set"@,
            Panic::TokenOverflow => "Token overflow"@,
            Panic::TotalTokensOverflow => "Total tokens overflow"@,
            Panic::AlreadyRegistered => "Participant already registered"@,
            Panic::InvalidLatitude => "Latitude must be between -90 and +90 degrees"@,
            Panic::InvalidLongitude => "Longitude must be between -180 and +180 degrees"@,
            Panic::WasteProcessedOverflow => "Overflow in total_waste_processed"@,
            Panic::TokensEarnedOverflow => "Overflow in total_tokens_earned"@,
            Panic::ParticipantNotRegistered => "Participant is not registered"@,
            Panic::ParticipantNotFound => "Participant not found"@,
            Panic::TotalWeightOverflow => "Overflow in total weight"@,
            Panic::TotalTokensSumOverflow => "Overflow in total tokens"@,
            Panic::WeightExceedsU64 => "Waste weight exceeds u64 range"@,
            Panic::ActiveWeightOverflow => "Overflow in active waste total weight"@,
            Panic::IncentiveNotFound => "Incentive not found"@,
            Panic::IncentiveNotActive => "Incentive is not active"@,
            Panic::RewardNotPositive => "Reward must be greater than zero"@,
            Panic::BudgetNotPositive => "Total budget must be greater than zero"@,
            Panic::WasteNotFound => "Waste not found"@,
            Panic::OnlyOwnerCanTransfer => "Only waste owner can transfer"@,
            Panic::SelfTransfer => "Self-transfer is not allowed"@,
            Panic::InvalidRoute => "Invalid transfer: role combination not allowed"@,
            Panic::WeightNotPositive => "Waste weight must be greater than zero"@,
            Panic::OnlyCollectors => "Only collectors can use this"@,
            Panic::RecipientNotManufacturer => "Recipient must be manufacturer"@,
            Panic::ConfirmDeactivated => "Cannot confirm deactivated waste"@,
            Panic::OwnerConfirmation => "Owner cannot confirm own waste"@,
            Panic::AlreadyConfirmed => "Waste already confirmed"@,
            Panic::NotConfirmed => "Waste is not confirmed"@,
            Panic::AlreadyDeactivated => "Waste already deactivated"@,
            Panic::BatchWeightOverflow => "Overflow in batch weight"@,
            Panic::VerifierNotFound => "Verifier not registered"@,
            Panic::VerifierNotRegistered => "Verifier is not registered"@,
            Panic::OnlyRecyclersVerify => "Only recyclers can verify materials"@,
            Panic::MaterialNotFound => "Material not found"@,
            Panic::MaterialNotVerified => "Material not verified"@,
            Panic::WasteTypeMismatch => "Waste type mismatch"@,
            Panic::NoRewardAvailable => "No reward available"@,
            Panic::OnlyCreatorDeactivates => "Only incentive creator can deactivate"@,
            Panic::AlreadyPaused => "Contract is already paused"@,
            Panic::NotPaused => "Contract is not paused"@,
            Panic::Paused => "Contract is paused"@,
            Panic::MaterialNotConfirmed => "Material must be confirmed"@,
            Panic::OnlyCreatorDistributes => "Only incentive creator can distribute rewards"@,
            Panic::IncentiveInactive => "Incentive not active"@,
            Panic::InsufficientIncentiveBudget => "Insufficient incentive budget"@,
            Panic::ArithmeticOverflow => "attempt to compute with overflow"@,
        }
    }

    pub fn message(&self) -> (r: &'static str)
        ensures
            r@ == self.spec_message(),
    {
        match self {
            Panic::AdminAlreadyInitialized => "Admin already initialized",
            Panic::AdminNotSet => "Admin not set",
            Panic::NoAdminFound => "No admin found",
            Panic::AdminListEmpty => "Admin list cannot be empty",
            Panic::LastAdmin => "Cannot remove the last admin",
            Panic::AdminToRemoveNotFound => "Admin to remove not found",
            Panic::CallerNotAdmin => "Unauthorized: caller is not admin",
            Panic::ContractAdminNotSet => "Contract admin has not been set",
            Panic::NotContractAdmin => "Caller is not the contract admin",
            Panic::CallerNotRegistered => "Caller is not a registered participant",
            Panic::CallerNotManufacturer => "Caller is not a manufacturer",
            Panic::WasteItemNotFound => "Waste item not found",
            Panic::NotWasteOwner => "Caller is not the owner of this waste item",
            Panic::CharityIsAdmin => "Charity address cannot be the same as admin",
            Panic::DonationNotPositive => "Donation amount must be greater than zero",
            Panic::InsufficientBalance => "Insufficient balance",
            Panic::CharityNotSet => "Charity contract not set",
            Panic::PercentagesExceed100 => "Total percentages cannot exceed 100",
            Panic::RewardAmountNotPositive => "Reward amount must be greater than zero",
            Panic::RecipientNotRegistered => "Recipient not registered",
            Panic::TokenAddressNotSet => "Token address not set",
            Panic::TokenOverflow => "Token overflow",
            Panic::TotalTokensOverflow => "Total tokens overflow",
            Panic::AlreadyRegistered => "Participant already registered",
            Panic::InvalidLatitude => "Latitude must be between -90 and +90 degrees",
            Panic::InvalidLongitude => "Longitude must be between -180 and +180 degrees",
            Panic::WasteProcessedOverflow => "Overflow in total_waste_processed",
            Panic::TokensEarnedOverflow => "Overflow in total_tokens_earned",
            Panic::ParticipantNotRegistered => "Participant is not registered",
            Panic::ParticipantNotFound => "Participant not found",
            Panic::TotalWeightOverflow => "Overflow in total weight",
            Panic::TotalTokensSumOverflow => "Overflow in total tokens",
            Panic::WeightExceedsU64 => "Waste weight exceeds u64 range",
            Panic::ActiveWeightOverflow => "Overflow in active waste total weight",
            Panic::IncentiveNotFound => "Incentive not found",
            Panic::IncentiveNotActive => "Incentive is not active",
            Panic::RewardNotPositive => "Reward must be greater than zero",
            Panic::BudgetNotPositive => "Total budget must be greater than zero",
            Panic::WasteNotFound => "Waste not found",
            Panic::OnlyOwnerCanTransfer => "Only waste owner can transfer",
            Panic::SelfTransfer => "Self-transfer is not allowed",
            Panic::InvalidRoute => "Invalid transfer: role combination not allowed",
            Panic::WeightNotPositive => "Waste weight must be greater than zero",
            Panic::OnlyCollectors => "Only collectors can use this",
            Panic::RecipientNotManufacturer => "Recipient must be manufacturer",
            Panic::ConfirmDeactivated => "Cannot confirm deactivated waste",
            Panic::OwnerConfirmation => "Owner cannot confirm own waste",
            Panic::AlreadyConfirmed => "Waste already confirmed",
            Panic::NotConfirmed => "Waste is not confirmed",
            Panic::AlreadyDeactivated => "Waste already deactivated",
            Panic::BatchWeightOverflow => "Overflow in batch weight",
            Panic::VerifierNotFound => "Verifier not registered",
            Panic::VerifierNotRegistered => "Verifier is not registered",
            Panic::OnlyRecyclersVerify => "Only recyclers can verify materials",
            Panic::MaterialNotFound => "Material not found",
            Panic::MaterialNotVerified => "Material not verified",
            Panic::WasteTypeMismatch => "Waste type mismatch",
            Panic::NoRewardAvailable => "No reward available",
            Panic::OnlyCreatorDeactivates => "Only incentive creator can deactivate",
            Panic::AlreadyPaused => "Contract is already paused",
            Panic::NotPaused => "Contract is not paused",
            Panic::Paused => "Contract is paused",
            Panic::MaterialNotConfirmed => "Material must be confirmed",
            Panic::OnlyCreatorDistributes => "Only incentive creator can distribute rewards",
            Panic::IncentiveInactive => "Incentive not active",
            Panic::InsufficientIncentiveBudget => "Insufficient incentive budget",
            Panic::ArithmeticOverflow => "attempt to compute with overflow",
        }
    }
}

/// Why a call was refused: a typed error returned to the caller, or an abort.
/// Either way the invocation leaves the contract's state as it was.
#[derive(Clone, Copy, Debug, PartialEq, Eq, Structural)]
pub enum Fault {
    Error(Error),
    Panic(Panic),
}

} // verus!
