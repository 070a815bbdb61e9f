//! Administration: the admin list, charity and token addresses, reward
//! percentages and pausing.
use vstd::prelude::*;
use crate::errors::{Fault, Panic};
use crate::events::{emit_contract_paused, emit_contract_unpaused, ContractEvent};
use crate::contract::{
    check_only_admin, check_require_admin, commits, either, ContractState, ScavengerContract,
    contains_address,
};
use crate::types::{Address, RewardConfig};

verus! {

pub open spec fn initialize_admin_fault(s: ContractState) -> Option<Fault> {
    if s.admins is Some {
        Some(Fault::Panic(Panic::AdminAlreadyInitialized))
    } else {
        None
    }
}

pub open spec fn initialize_admin_after(s: ContractState, admin: Address) -> ContractState {
    ContractState { admins: Some(seq![admin]), ..s }
}

pub open spec fn admin_list_fault(s: ContractState) -> Option<Fault> {
    if s.admins is None {
        Some(Fault::Panic(Panic::AdminNotSet))
    } else {
        None
    }
}

pub open spec fn primary_admin_fault(s: ContractState) -> Option<Fault> {
    if s.admins is None {
        Some(Fault::Panic(Panic::AdminNotSet))
    } else if s.admins->0.len() == 0 {
        Some(Fault::Panic(Panic::NoAdminFound))
    } else {
        None
    }
}

pub open spec fn transfer_admin_fault(s: ContractState, current: Address, new_admins: Seq<Address>) -> Option<Fault> {
    either(
        check_require_admin(s, current),
        if new_admins.len() == 0 {
            Some(Fault::Panic(Panic::AdminListEmpty))
        } else {
            None
        },
    )
}

pub open spec fn transfer_admin_after(s: ContractState, current: Address, new_admins: Seq<Address>) -> ContractState {
    ContractState {
        admins: Some(new_admins),
        events: s.events.push(ContractEvent::AdminTransferred { previous_admin: current }),
        ..s
    }
}

pub open spec fn add_admin_after(s: ContractState, new_admin: Address) -> ContractState {
    let l = s.admins->0;
    if l.contains(new_admin) {
        s
    } else {
        ContractState { admins: Some(l.push(new_admin)), ..s }
    }
}

/// Keeps every address but `a`.
pub open spec fn is_not(a: Address) -> spec_fn(Address) -> bool {
    |x: Address| x != a
}

pub open spec fn remove_admin_fault(s: ContractState, current: Address, to_remove: Address) -> Option<Fault> {
    either(
        check_require_admin(s, current),
        if s.admins->0.len() <= 1 {
            Some(Fault::Panic(Panic::LastAdmin))
        } else if !s.admins->0.contains(to_remove) {
            Some(Fault::Panic(Panic::AdminToRemoveNotFound))
        } else {
            None
        },
    )
}

pub open spec fn remove_admin_after(s: ContractState, to_remove: Address) -> ContractState {
    ContractState { admins: Some(s.admins->0.filter(is_not(to_remove))), ..s }
}

pub open spec fn set_charity_fault(s: ContractState, admin: Address, charity: Address) -> Option<Fault> {
    either(
        check_only_admin(s, admin),
        if charity == admin {
            Some(Fault::Panic(Panic::CharityIsAdmin))
        } else {
            None
        },
    )
}

/// A proposed split is refused when its two shares add up to more than 100
/// (or overflow `u32`).
pub open spec fn split_fault(collector: u32, owner: u32) -> Option<Fault> {
    if collector + owner > u32::MAX {
        Some(Fault::Panic(Panic::ArithmeticOverflow))
    } else if collector + owner > 100 {
        Some(Fault::Panic(Panic::PercentagesExceed100))
    } else {
        None
    }
}

pub open spec fn set_percentages_fault(s: ContractState, admin: Address, collector: u32, owner: u32) -> Option<Fault> {
    either(check_only_admin(s, admin), split_fault(collector, owner))
}

pub open spec fn with_config(s: ContractState, collector: u32, owner: u32) -> ContractState {
    ContractState {
        config: RewardConfig { collector_percentage: collector, owner_percentage: owner },
        ..s
    }
}

pub open spec fn pause_fault(s: ContractState, admin: Address) -> Option<Fault> {
    either(
        check_require_admin(s, admin),
        if s.paused {
            Some(Fault::Panic(Panic::AlreadyPaused))
        } else {
            None
        },
    )
}

pub open spec fn unpause_fault(s: ContractState, admin: Address) -> Option<Fault> {
    either(
        check_require_admin(s, admin),
        if !s.paused {
            Some(Fault::Panic(Panic::NotPaused))
        } else {
            None
        },
    )
}

impl ScavengerContract {
    /// Sets the first admin; refused once an admin list exists.
    pub fn initialize_admin(&mut self, admin: Address) -> (r: Result<(), Fault>)
        requires
            old(self).wf(),
        ensures
            final(self).wf(),
            commits(old(self)@, final(self)@, r, initialize_admin_fault(old(self)@),
                initialize_admin_after(old(self)@, admin), ()),
    {
        if self.admins.is_some() {
            return Err(Fault::Panic(Panic::AdminAlreadyInitialized));
        }
        let mut l = Vec::new();
        l.push(admin);
        self.admins = Some(l);
        assert(self@ =~= initialize_admin_after(old(self)@, admin));
        Ok(())
    }

    /// The admin list.
    pub fn get_admins(&self) -> (r: Result<Vec<Address>, Fault>)
        ensures
            match admin_list_fault(self@) {
                Some(f) => r == Err::<Vec<Address>, Fault>(f),
                None => r matches Ok(l) && l@ == self@.admins->0,
            },
    {
        match &self.admins {
            None => Err(Fault::Panic(Panic::AdminNotSet)),
            Some(l) => Ok(l.clone()),
        }
    }

    /// The primary admin: the first of the list.
    pub fn get_admin(&self) -> (r: Result<Address, Fault>)
        ensures
            match primary_admin_fault(self@) {
                Some(f) => r == Err::<Address, Fault>(f),
                None => r == Ok::<Address, Fault>(self@.admins->0[0]),
            },
    {
        match &self.admins {
            None => Err(Fault::Panic(Panic::AdminNotSet)),
            Some(l) => if l.len() == 0 {
                Err(Fault::Panic(Panic::NoAdminFound))
            } else {
                Ok(l[0])
            },
        }
    }

    /// Replaces the admin list (an admin only; the new list must not be empty).
    pub fn transfer_admin(&mut self, current_admin: Address, new_admins: Vec<Address>) -> (r: Result<(), Fault>)
        requires
            old(self).wf(),
        ensures
            final(self).wf(),
            commits(old(self)@, final(self)@, r, transfer_admin_fault(old(self)@, current_admin, new_admins@),
                transfer_admin_after(old(self)@, current_admin, new_admins@), ()),
    {
        if let Some(f) = self.check_require_admin(current_admin) {
            return Err(f);
        }
        if new_admins.len() == 0 {
            return Err(Fault::Panic(Panic::AdminListEmpty));
        }
        self.admins = Some(new_admins);
        self.events.push(ContractEvent::AdminTransferred { previous_admin: current_admin });
        assert(self@ =~= transfer_admin_after(old(self)@, current_admin, new_admins@));
        Ok(())
    }

    /// Adds an admin (an admin only); adding a listed address changes nothing.
    pub fn add_admin(&mut self, current_admin: Address, new_admin: Address) -> (r: Result<(), Fault>)
        requires
            old(self).wf(),
        ensures
            final(self).wf(),
            commits(old(self)@, final(self)@, r, check_require_admin(old(self)@, current_admin),
                add_admin_after(old(self)@, new_admin), ()),
    {
        if let Some(f) = self.check_require_admin(current_admin) {
            return Err(f);
        }
        let mut l = self.admins.take().unwrap();
        if !contains_address(&l, new_admin) {
            l.push(new_admin);
        }
        self.admins = Some(l);
        assert(self@ =~= add_admin_after(old(self)@, new_admin));
        Ok(())
    }

    /// Removes an admin (an admin only); the last admin cannot be removed.
    pub fn remove_admin(&mut self, current_admin: Address, admin_to_remove: Address) -> (r: Result<(), Fault>)
        requires
            old(self).wf(),
        ensures
            final(self).wf(),
            commits(old(self)@, final(self)@, r, remove_admin_fault(old(self)@, current_admin, admin_to_remove),
                remove_admin_after(old(self)@, admin_to_remove), ()),
    {
        if let Some(f) = self.check_require_admin(current_admin) {
            return Err(f);
        }
        let l = self.admins.as_ref().unwrap();
        if l.len() <= 1 {
            return Err(Fault::Panic(Panic::LastAdmin));
        }
        let ghost pred = is_not(admin_to_remove);
        let mut kept: Vec<Address> = Vec::new();
        let mut i: usize = 0;
        while i < l.len()
            invariant
                i <= l.len(),
                kept@ == l@.take(i as int).filter(pred),
                pred == is_not(admin_to_remove),
            decreases l.len() - i,
        {
            proof {
                l@.take(i as int).lemma_filter_push(l@[i as int], pred);
                assert(l@.take(i as int).push(l@[i as int]) =~= l@.take(i + 1));
            }
            if l[i] != admin_to_remove {
                kept.push(l[i]);
            }
            i = i + 1;
        }
        assert(l@.take(l.len() as int) =~= l@);
        if kept.len() == l.len() {
            proof {
                broadcast use vstd::seq_lib::group_filter_ensures;
                if l@.contains(admin_to_remove) {
                    let j = choose|j: int| 0 <= j < l@.len() && l@[j] == admin_to_remove;
                    lemma_filter_drops(l@, pred, j);
                }
            }
            return Err(Fault::Panic(Panic::AdminToRemoveNotFound));
        }
        proof {
            if !l@.contains(admin_to_remove) {
                lemma_filter_keeps_all(l@, pred);
            }
        }
        self.admins = Some(kept);
        assert(self@ =~= remove_admin_after(old(self)@, admin_to_remove));
        Ok(())
    }

    /// Sets the charity that receives donations (an admin only; it must differ from the caller).
    pub fn set_charity_contract(&mut self, admin: Address, charity_address: Address) -> (r: Result<(), Fault>)
        requires
            old(self).wf(),
        ensures
            final(self).wf(),
            commits(old(self)@, final(self)@, r, set_charity_fault(old(self)@, admin, charity_address),
                ContractState { charity: Some(charity_address), ..old(self)@ }, ()),
    {
        if let Some(f) = self.check_only_admin(admin) {
            return Err(f);
        }
        if charity_address == admin {
            return Err(Fault::Panic(Panic::CharityIsAdmin));
        }
        self.charity = Some(charity_address);
        Ok(())
    }

    /// The charity address, if set.
    pub fn get_charity_contract(&self) -> (r: Option<Address>)
        ensures
            r == self@.charity,
    {
        self.charity
    }

    /// Sets both reward percentages (an admin only; their sum may not exceed 100).
    pub fn set_percentages(&mut self, admin: Address, collector_percentage: u32, owner_percentage: u32) -> (r: Result<(), Fault>)
        requires
            old(self).wf(),
        ensures
            final(self).wf(),
            commits(old(self)@, final(self)@, r,
                set_percentages_fault(old(self)@, admin, collector_percentage, owner_percentage),
                with_config(old(self)@, collector_percentage, owner_percentage), ()),
    {
        if let Some(f) = self.check_only_admin(admin) {
            return Err(f);
        }
        if let Some(f) = check_split(collector_percentage, owner_percentage) {
            return Err(f);
        }
        self.config = RewardConfig { collector_percentage, owner_percentage };
        Ok(())
    }

    /// The collector percentage in force (5 until changed).
    pub fn get_collector_percentage(&self) -> (r: Option<u32>)
        ensures
            r == Some(self@.config.collector_percentage),
    {
        Some(self.config.collector_percentage)
    }

    /// The owner percentage in force (50 until changed).
    pub fn get_owner_percentage(&self) -> (r: Option<u32>)
        ensures
            r == Some(self@.config.owner_percentage),
    {
        Some(self.config.owner_percentage)
    }

    /// Changes the collector percentage only (an admin only).
    pub fn set_collector_percentage(&mut self, admin: Address, new_percentage: u32) -> (r: Result<(), Fault>)
        requires
            old(self).wf(),
        ensures
            final(self).wf(),
            commits(old(self)@, final(self)@, r,
                set_percentages_fault(old(self)@, admin, new_percentage, old(self)@.config.owner_percentage),
                with_config(old(self)@, new_percentage, old(self)@.config.owner_percentage), ()),
    {
        if let Some(f) = self.check_only_admin(admin) {
            return Err(f);
        }
        let owner = self.config.owner_percentage;
        if let Some(f) = check_split(new_percentage, owner) {
            return Err(f);
        }
        self.config = RewardConfig { collector_percentage: new_percentage, owner_percentage: owner };
        Ok(())
    }

    /// Changes the owner percentage only (an admin only).
    pub fn set_owner_percentage(&mut self, admin: Address, new_percentage: u32) -> (r: Result<(), Fault>)
        requires
            old(self).wf(),
        ensures
            final(self).wf(),
            commits(old(self)@, final(self)@, r,
                set_percentages_fault(old(self)@, admin, old(self)@.config.collector_percentage, new_percentage),
                with_config(old(self)@, old(self)@.config.collector_percentage, new_percentage), ()),
    {
        if let Some(f) = self.check_only_admin(admin) {
            return Err(f);
        }
        let collector = self.config.collector_percentage;
        if let Some(f) = check_split(collector, new_percentage) {
            return Err(f);
        }
        self.config = RewardConfig { collector_percentage: collector, owner_percentage: new_percentage };
        Ok(())
    }

    /// Sets the reward token's address (an admin only).
    pub fn set_token_address(&mut self, admin: Address, token_address: Address) -> (r: Result<(), Fault>)
        requires
            old(self).wf(),
        ensures
            final(self).wf(),
            commits(old(self)@, final(self)@, r, check_require_admin(old(self)@, admin),
                ContractState { token: Some(token_address), ..old(self)@ }, ()),
    {
        if let Some(f) = self.check_require_admin(admin) {
            return Err(f);
        }
        self.token = Some(token_address);
        Ok(())
    }

    /// The reward token's address, if set.
    pub fn get_token_address(&self) -> (r: Option<Address>)
        ensures
            r == self@.token,
    {
        self.token
    }

    /// Pauses every state-changing entry point (an admin only).
    pub fn pause(&mut self, admin: Address) -> (r: Result<(), Fault>)
        requires
            old(self).wf(),
        ensures
            final(self).wf(),
            commits(old(self)@, final(self)@, r, pause_fault(old(self)@, admin),
                ContractState {
                    paused: true,
                    events: old(self)@.events.push(ContractEvent::ContractPaused { admin }),
                    ..old(self)@
                }, ()),
    {
        if let Some(f) = self.check_require_admin(admin) {
            return Err(f);
        }
        if self.paused {
            return Err(Fault::Panic(Panic::AlreadyPaused));
        }
        self.paused = true;
        emit_contract_paused(&mut self.events, &admin);
        Ok(())
    }

    /// Lifts a pause (an admin only).
    pub fn unpause(&mut self, admin: Address) -> (r: Result<(), Fault>)
        requires
            old(self).wf(),
        ensures
            final(self).wf(),
            commits(old(self)@, final(self)@, r, unpause_fault(old(self)@, admin),
                ContractState {
                    paused: false,
                    events: old(self)@.events.push(ContractEvent::ContractUnpaused { admin }),
                    ..old(self)@
                }, ()),
    {
        if let Some(f) = self.check_require_admin(admin) {
            return Err(f);
        }
        if !self.paused {
            return Err(Fault::Panic(Panic::NotPaused));
        }
        self.paused = false;
        emit_contract_unpaused(&mut self.events, &admin);
        Ok(())
    }

    /// Whether the contract is paused.
    pub fn is_paused(&self) -> (r: bool)
        ensures
            r == self@.paused,
    {
        self.paused
    }
}

/// Checks a proposed split.
pub fn check_split(collector: u32, owner: u32) -> (r: Option<Fault>)
    ensures
        r == split_fault(collector, owner),
{
    match collector.checked_add(owner) {
        None => Some(Fault::Panic(Panic::ArithmeticOverflow)),
        Some(sum) => if sum > 100 {
            Some(Fault::Panic(Panic::PercentagesExceed100))
        } else {
            None
        },
    }
}

/// Filtering out an element present at `j` shortens the sequence.
pub proof fn lemma_filter_drops(s: Seq<Address>, pred: spec_fn(Address) -> bool, j: int)
    requires
        0 <= j < s.len(),
        !pred(s[j]),
    ensures
        s.filter(pred).len() < s.len(),
    decreases s.len(),
{
    broadcast use vstd::seq_lib::group_seq_properties;
    reveal(Seq::filter);
    if j == s.len() - 1 {
        s.drop_last().lemma_filter_len(pred);
    } else {
        lemma_filter_drops(s.drop_last(), pred, j);
    }
}

/// Filtering keeps a sequence whose elements all pass.
pub proof fn lemma_filter_keeps_all(s: Seq<Address>, pred: spec_fn(Address) -> bool)
    requires
        forall|i: int| 0 <= i < s.len() ==> pred(#[trigger] s[i]),
    ensures
        s.filter(pred) == s,
    decreases s.len(),
{
    reveal(Seq::filter);
    if s.len() > 0 {
        lemma_filter_keeps_all(s.drop_last(), pred);
        assert(s.drop_last().push(s.last()) =~= s);
    }
}

} // verus!
