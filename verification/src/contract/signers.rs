//! Who must authorise each entry point. The contract does not check
//! signatures itself: the caller obtains the authorisation of the address
//! named here before it invokes the entry point.
use vstd::prelude::*;
use crate::contract::{incentive_of, waste_of, ContractState, ScavengerContract};
use crate::types::Address;

verus! {

/// An entry point that needs an authorisation, with the argument that names
/// the signer (or, for the incentive updates, the incentive whose creator
/// signs). `batch_transfer_waste`, which needs one signature per item, is
/// `batch_signers`.
#[derive(Clone, Copy, Debug, PartialEq, Eq, Structural)]
pub enum Call {
    /// `initialize_admin`.
    InitializeAdmin { admin: Address },
    /// `transfer_admin`.
    TransferAdmin { current_admin: Address },
    /// `add_admin`.
    AddAdmin { current_admin: Address },
    /// `remove_admin`.
    RemoveAdmin { current_admin: Address },
    /// `set_charity_contract`.
    SetCharityContract { admin: Address },
    /// `donate_to_charity`.
    DonateToCharity { donor: Address },
    /// `set_percentages`.
    SetPercentages { admin: Address },
    /// `set_collector_percentage`.
    SetCollectorPercentage { admin: Address },
    /// `set_owner_percentage`.
    SetOwnerPercentage { admin: Address },
    /// `set_token_address`.
    SetTokenAddress { admin: Address },
    /// `reward_tokens`.
    RewardTokens { rewarder: Address },
    /// `register_participant`.
    RegisterParticipant { address: Address },
    /// `update_incentive_status`.
    UpdateIncentiveStatus { incentive_id: u64 },
    /// `update_incentive`.
    UpdateIncentive { incentive_id: u64 },
    /// `update_role`.
    UpdateRole { address: Address },
    /// `deregister_participant`.
    DeregisterParticipant { address: Address },
    /// `update_participant_location`.
    UpdateParticipantLocation { address: Address },
    /// `update_location`.
    UpdateLocation { address: Address },
    /// `transfer_waste`.
    TransferWaste { from: Address },
    /// `submit_material`.
    SubmitMaterial { submitter: Address },
    /// `submit_materials_batch`.
    SubmitMaterialsBatch { submitter: Address },
    /// `recycle_waste`.
    RecycleWaste { recycler: Address },
    /// `transfer_waste_v2`.
    TransferWasteV2 { from: Address },
    /// `transfer_collected_waste`.
    TransferCollectedWaste { collector: Address },
    /// `confirm_waste_details`.
    ConfirmWasteDetails { confirmer: Address },
    /// `reset_waste_confirmation`.
    ResetWasteConfirmation { owner: Address },
    /// `deactivate_waste`.
    DeactivateWaste { admin: Address },
    /// `verify_material`.
    VerifyMaterial { verifier: Address },
    /// `verify_materials_batch`.
    VerifyMaterialsBatch { verifier: Address },
    /// `create_incentive`.
    CreateIncentive { rewarder: Address },
    /// `claim_incentive_reward`.
    ClaimIncentiveReward { claimer: Address },
    /// `deactivate_incentive`.
    DeactivateIncentive { rewarder: Address },
    /// `pause`.
    Pause { admin: Address },
    /// `unpause`.
    Unpause { admin: Address },
    /// `distribute_rewards`.
    DistributeRewards { manufacturer: Address },
}

/// The address whose authorisation `call` requires in state `s`: the named
/// argument, or the stored creator of the incentive being updated (`None`
/// when that incentive does not exist, where the call is refused anyway).
pub open spec fn signer(s: ContractState, call: Call) -> Option<Address> {
    match call {
        Call::InitializeAdmin { admin } => Some(admin),
        Call::TransferAdmin { current_admin } => Some(current_admin),
        Call::AddAdmin { current_admin } => Some(current_admin),
        Call::RemoveAdmin { current_admin } => Some(current_admin),
        Call::SetCharityContract { admin } => Some(admin),
        Call::DonateToCharity { donor } => Some(donor),
        Call::SetPercentages { admin } => Some(admin),
        Call::SetCollectorPercentage { admin } => Some(admin),
        Call::SetOwnerPercentage { admin } => Some(admin),
        Call::SetTokenAddress { admin } => Some(admin),
        Call::RewardTokens { rewarder } => Some(rewarder),
        Call::RegisterParticipant { address } => Some(address),
        Call::UpdateIncentiveStatus { incentive_id } => match incentive_of(s, incentive_id) {
            Some(inc) => Some(inc.rewarder),
            None => None,
        },
        Call::UpdateIncentive { incentive_id } => match incentive_of(s, incentive_id) {
            Some(inc) => Some(inc.rewarder),
            None => None,
        },
        Call::UpdateRole { address } => Some(address),
        Call::DeregisterParticipant { address } => Some(address),
        Call::UpdateParticipantLocation { address } => Some(address),
        Call::UpdateLocation { address } => Some(address),
        Call::TransferWaste { from } => Some(from),
        Call::SubmitMaterial { submitter } => Some(submitter),
        Call::SubmitMaterialsBatch { submitter } => Some(submitter),
        Call::RecycleWaste { recycler } => Some(recycler),
        Call::TransferWasteV2 { from } => Some(from),
        Call::TransferCollectedWaste { collector } => Some(collector),
        Call::ConfirmWasteDetails { confirmer } => Some(confirmer),
        Call::ResetWasteConfirmation { owner } => Some(owner),
        Call::DeactivateWaste { admin } => Some(admin),
        Call::VerifyMaterial { verifier } => Some(verifier),
        Call::VerifyMaterialsBatch { verifier } => Some(verifier),
        Call::CreateIncentive { rewarder } => Some(rewarder),
        Call::ClaimIncentiveReward { claimer } => Some(claimer),
        Call::DeactivateIncentive { rewarder } => Some(rewarder),
        Call::Pause { admin } => Some(admin),
        Call::Unpause { admin } => Some(admin),
        Call::DistributeRewards { manufacturer } => Some(manufacturer),
    }
}

/// The signatures a batch transfer requires: the current holder of each
/// listed item that exists, in the order of the list.
pub open spec fn batch_signers(s: ContractState, ids: Seq<u128>) -> Seq<Address>
    decreases ids.len(),
{
    if ids.len() == 0 {
        Seq::empty()
    } else {
        match waste_of(s, ids.last()) {
            Some(w) => batch_signers(s, ids.drop_last()).push(w.current_owner),
            None => batch_signers(s, ids.drop_last()),
        }
    }
}

impl ScavengerContract {
    /// The address that must authorise `call`.
    pub fn required_signer(&self, call: Call) -> (r: Option<Address>)
        requires
            self.wf(),
        ensures
            r == signer(self@, call),
    {
        match call {
            Call::InitializeAdmin { admin } => Some(admin),
            Call::TransferAdmin { current_admin } => Some(current_admin),
            Call::AddAdmin { current_admin } => Some(current_admin),
            Call::RemoveAdmin { current_admin } => Some(current_admin),
            Call::SetCharityContract { admin } => Some(admin),
            Call::DonateToCharity { donor } => Some(donor),
            Call::SetPercentages { admin } => Some(admin),
            Call::SetCollectorPercentage { admin } => Some(admin),
            Call::SetOwnerPercentage { admin } => Some(admin),
            Call::SetTokenAddress { admin } => Some(admin),
            Call::RewardTokens { rewarder } => Some(rewarder),
            Call::RegisterParticipant { address } => Some(address),
            Call::UpdateIncentiveStatus { incentive_id } => match self.get_incentive_by_id(incentive_id) {
                Some(inc) => Some(inc.rewarder),
                None => None,
            },
            Call::UpdateIncentive { incentive_id } => match self.get_incentive_by_id(incentive_id) {
                Some(inc) => Some(inc.rewarder),
                None => None,
            },
            Call::UpdateRole { address } => Some(address),
            Call::DeregisterParticipant { address } => Some(address),
            Call::UpdateParticipantLocation { address } => Some(address),
            Call::UpdateLocation { address } => Some(address),
            Call::TransferWaste { from } => Some(from),
            Call::SubmitMaterial { submitter } => Some(submitter),
            Call::SubmitMaterialsBatch { submitter } => Some(submitter),
            Call::RecycleWaste { recycler } => Some(recycler),
            Call::TransferWasteV2 { from } => Some(from),
            Call::TransferCollectedWaste { collector } => Some(collector),
            Call::ConfirmWasteDetails { confirmer } => Some(confirmer),
            Call::ResetWasteConfirmation { owner } => Some(owner),
            Call::DeactivateWaste { admin } => Some(admin),
            Call::VerifyMaterial { verifier } => Some(verifier),
            Call::VerifyMaterialsBatch { verifier } => Some(verifier),
            Call::CreateIncentive { rewarder } => Some(rewarder),
            Call::ClaimIncentiveReward { claimer } => Some(claimer),
            Call::DeactivateIncentive { rewarder } => Some(rewarder),
            Call::Pause { admin } => Some(admin),
            Call::Unpause { admin } => Some(admin),
            Call::DistributeRewards { manufacturer } => Some(manufacturer),
        }
    }

    /// The addresses that must authorise a batch transfer of `waste_ids`.
    pub fn batch_transfer_signers(&self, waste_ids: &Vec<u128>) -> (r: Vec<Address>)
        requires
            self.wf(),
        ensures
            r@ == batch_signers(self@, waste_ids@),
    {
        let mut r: Vec<Address> = Vec::new();
        let mut i: usize = 0;
        assert(waste_ids@.take(0) =~= Seq::<u128>::empty());
        while i < waste_ids.len()
            invariant
                self.wf(),
                i <= waste_ids.len(),
                r@ == batch_signers(self@, waste_ids@.take(i as int)),
            decreases waste_ids.len() - i,
        {
            proof {
                assert(waste_ids@.take(i + 1).drop_last() =~= waste_ids@.take(i as int));
            }
            match self.get_waste_v2(waste_ids[i]) {
                Some(w) => r.push(w.current_owner),
                None => {},
            }
            i = i + 1;
        }
        assert(waste_ids@.take(waste_ids.len() as int) =~= waste_ids@);
        r
    }
}

} // verus!
