use std::cell::{Cell, RefCell, RefMut};
use std::marker::PhantomData;
use std::rc::Rc;

use stellar_scavngr_contract::events::ContractEvent;
use stellar_scavngr_contract::types::{
    Address, GlobalMetrics, Incentive, Material, Participant, ParticipantInfo, ParticipantRole, RecyclingStats, Waste,
    WasteTransfer, WasteType,
};
use stellar_scavngr_contract::{Error, Fault, Panic, ScavengerContract};

// ─── test ledger and client ─────────────────────────────────────────────────
//
// A ledger for the tests: the contract state, the ledger clock and a source of
// fresh addresses. The client calls the contract the way a transaction does:
// a refused call panics with its message (`try_` calls return the refusal),
// and the ledger clock is passed to the calls that record a time.

#[derive(Clone)]
struct Env(Rc<EnvState>);

struct EnvState {
    contract: RefCell<ScavengerContract>,
    timestamp: Cell<u64>,
    next_address: Cell<u64>,
}

struct LedgerInfo {
    timestamp: u64,
}

struct Ledger(Env);

impl Ledger {
    fn timestamp(&self) -> u64 {
        (self.0).0.timestamp.get()
    }

    fn set_timestamp(&self, t: u64) {
        (self.0).0.timestamp.set(t);
    }

    fn with_mut<F: FnOnce(&mut LedgerInfo)>(&self, f: F) {
        let mut li = LedgerInfo { timestamp: self.timestamp() };
        f(&mut li);
        self.set_timestamp(li.timestamp);
    }
}

impl Env {
    fn default() -> Env {
        Env(Rc::new(EnvState {
            contract: RefCell::new(ScavengerContract::new()),
            timestamp: Cell::new(0),
            next_address: Cell::new(0),
        }))
    }

    fn mock_all_auths(&self) {}

    fn register_contract(&self) -> Address {
        Address::generate(self)
    }

    fn ledger(&self) -> Ledger {
        Ledger(self.clone())
    }

    /// Events published so far, oldest first.
    fn published(&self) -> Vec<ContractEvent> {
        self.0.contract.borrow().events().clone()
    }
}

trait Generate {
    fn generate(env: &Env) -> Self;
}

impl Generate for Address {
    fn generate(env: &Env) -> Address {
        let n = env.0.next_address.get() + 1;
        env.0.next_address.set(n);
        Address(n)
    }
}

trait FromEnvStr {
    fn from_str(env: &Env, s: &str) -> Self;
}

impl FromEnvStr for String {
    fn from_str(_env: &Env, s: &str) -> String {
        s.to_string()
    }
}

/// How a refusal reads: a typed error by its code, a panic by its message.
fn describe(f: &Fault) -> String {
    match f {
        Fault::Error(e) => format!("Error(Contract, #{})", e.code()),
        Fault::Panic(p) => p.message().to_string(),
    }
}

fn done<T>(r: Result<T, Fault>) -> T {
    match r {
        Ok(v) => v,
        Err(f) => panic!("{}", describe(&f)),
    }
}

type Invoked<T> = Result<Result<T, ()>, Result<Error, Panic>>;

fn attempt<T>(r: Result<T, Fault>) -> Invoked<T> {
    match r {
        Ok(v) => Ok(Ok(v)),
        Err(Fault::Error(e)) => Err(Ok(e)),
        Err(Fault::Panic(p)) => Err(Err(p)),
    }
}

struct ScavengerContractClient<'a> {
    env: Env,
    _life: PhantomData<&'a ()>,
}

#[allow(dead_code)]
impl<'a> ScavengerContractClient<'a> {
    fn new(env: &Env, _contract_id: &Address) -> ScavengerContractClient<'a> {
        ScavengerContractClient { env: env.clone(), _life: PhantomData }
    }

    fn c(&self) -> RefMut<'_, ScavengerContract> {
        self.env.0.contract.borrow_mut()
    }

    fn now(&self) -> u64 {
        self.env.0.timestamp.get()
    }

    // admin
    fn initialize_admin(&self, admin: &Address) {
        done(self.c().initialize_admin(*admin))
    }
    fn try_initialize_admin(&self, admin: &Address) -> Invoked<()> {
        attempt(self.c().initialize_admin(*admin))
    }
    fn get_admins(&self) -> Vec<Address> {
        done(self.c().get_admins())
    }
    fn get_admin(&self) -> Address {
        done(self.c().get_admin())
    }
    fn transfer_admin(&self, current: &Address, new_admins: &Vec<Address>) {
        done(self.c().transfer_admin(*current, new_admins.clone()))
    }
    fn try_transfer_admin(&self, current: &Address, new_admins: &Vec<Address>) -> Invoked<()> {
        attempt(self.c().transfer_admin(*current, new_admins.clone()))
    }
    fn add_admin(&self, current: &Address, new_admin: &Address) {
        done(self.c().add_admin(*current, *new_admin))
    }
    fn remove_admin(&self, current: &Address, to_remove: &Address) {
        done(self.c().remove_admin(*current, *to_remove))
    }
    fn set_charity_contract(&self, admin: &Address, charity: &Address) {
        done(self.c().set_charity_contract(*admin, *charity))
    }
    fn get_charity_contract(&self) -> Option<Address> {
        self.c().get_charity_contract()
    }
    fn donate_to_charity(&self, donor: &Address, amount: &i128) {
        done(self.c().donate_to_charity(*donor, *amount))
    }
    fn try_donate_to_charity(&self, donor: &Address, amount: &i128) -> Invoked<()> {
        attempt(self.c().donate_to_charity(*donor, *amount))
    }
    fn set_percentages(&self, admin: &Address, collector: &u32, owner: &u32) {
        done(self.c().set_percentages(*admin, *collector, *owner))
    }
    fn try_set_percentages(&self, admin: &Address, collector: &u32, owner: &u32) -> Invoked<()> {
        attempt(self.c().set_percentages(*admin, *collector, *owner))
    }
    fn get_collector_percentage(&self) -> Option<u32> {
        self.c().get_collector_percentage()
    }
    fn get_owner_percentage(&self) -> Option<u32> {
        self.c().get_owner_percentage()
    }
    fn set_collector_percentage(&self, admin: &Address, p: &u32) {
        done(self.c().set_collector_percentage(*admin, *p))
    }
    fn set_owner_percentage(&self, admin: &Address, p: &u32) {
        done(self.c().set_owner_percentage(*admin, *p))
    }
    fn set_token_address(&self, admin: &Address, token: &Address) {
        done(self.c().set_token_address(*admin, *token))
    }
    fn get_token_address(&self) -> Option<Address> {
        self.c().get_token_address()
    }
    fn pause(&self, admin: &Address) {
        done(self.c().pause(*admin))
    }
    fn try_pause(&self, admin: &Address) -> Invoked<()> {
        attempt(self.c().pause(*admin))
    }
    fn unpause(&self, admin: &Address) {
        done(self.c().unpause(*admin))
    }
    fn try_unpause(&self, admin: &Address) -> Invoked<()> {
        attempt(self.c().unpause(*admin))
    }
    fn is_paused(&self) -> bool {
        self.c().is_paused()
    }

    // tokens
    fn reward_tokens(&self, rewarder: &Address, recipient: &Address, amount: &i128, waste_id: &u64) {
        done(self.c().reward_tokens(*rewarder, *recipient, *amount, *waste_id))
    }
    fn try_reward_tokens(&self, rewarder: &Address, recipient: &Address, amount: &i128, waste_id: &u64) -> Invoked<()> {
        attempt(self.c().reward_tokens(*rewarder, *recipient, *amount, *waste_id))
    }
    fn distribute_rewards(&self, waste_id: &u64, incentive_id: &u64, manufacturer: &Address) -> i128 {
        done(self.c().distribute_rewards(*waste_id, *incentive_id, *manufacturer)).0
    }
    fn try_distribute_rewards(&self, waste_id: &u64, incentive_id: &u64, manufacturer: &Address) -> Invoked<i128> {
        attempt(self.c().distribute_rewards(*waste_id, *incentive_id, *manufacturer).map(|r| r.0))
    }
    fn get_metrics(&self) -> GlobalMetrics {
        self.c().get_metrics()
    }

    // participants
    fn is_participant_registered(&self, a: &Address) -> bool {
        self.c().is_participant_registered(*a)
    }
    fn register_participant(&self, a: &Address, role: &ParticipantRole, name: &String, lat: &i128, lon: &i128) -> Participant {
        let now = self.now();
        done(self.c().register_participant(*a, *role, name.clone(), *lat, *lon, now))
    }
    fn try_register_participant(&self, a: &Address, role: &ParticipantRole, name: &String, lat: &i128, lon: &i128) -> Invoked<Participant> {
        let now = self.now();
        attempt(self.c().register_participant(*a, *role, name.clone(), *lat, *lon, now))
    }
    fn get_participant(&self, a: &Address) -> Option<Participant> {
        self.c().get_participant(*a)
    }
    fn get_participant_earnings(&self, a: &Address) -> i128 {
        self.c().get_participant_earnings(*a)
    }
    fn get_participant_info(&self, a: &Address) -> Option<ParticipantInfo> {
        self.c().get_participant_info(*a)
    }
    fn get_all_participants(&self, offset: &u32, limit: &u32) -> Vec<Address> {
        done(self.c().get_all_participants(*offset, *limit))
    }
    fn update_role(&self, a: &Address, role: &ParticipantRole) -> Participant {
        done(self.c().update_role(*a, *role))
    }
    fn try_update_role(&self, a: &Address, role: &ParticipantRole) -> Invoked<Participant> {
        attempt(self.c().update_role(*a, *role))
    }
    fn deregister_participant(&self, a: &Address) -> Participant {
        done(self.c().deregister_participant(*a))
    }
    fn update_participant_location(&self, a: &Address, lat: &i128, lon: &i128) -> Participant {
        done(self.c().update_participant_location(*a, *lat, *lon))
    }
    fn try_update_participant_location(&self, a: &Address, lat: &i128, lon: &i128) -> Invoked<Participant> {
        attempt(self.c().update_participant_location(*a, *lat, *lon))
    }
    fn update_location(&self, a: &Address, lat: &i128, lon: &i128) -> Participant {
        done(self.c().update_location(*a, *lat, *lon))
    }
    fn can_collect(&self, a: &Address) -> bool {
        self.c().can_collect(*a)
    }
    fn can_manufacture(&self, a: &Address) -> bool {
        self.c().can_manufacture(*a)
    }
    fn get_stats(&self, a: &Address) -> Option<RecyclingStats> {
        self.c().get_stats(*a)
    }
    fn get_waste_type_string(&self, t: &WasteType) -> String {
        ScavengerContract::get_waste_type_string(*t)
    }
    fn get_participant_role_string(&self, r: &ParticipantRole) -> String {
        ScavengerContract::get_participant_role_string(*r)
    }
    fn is_valid_transfer(&self, from: &Address, to: &Address) -> bool {
        self.c().is_valid_transfer(*from, *to)
    }

    // v1 materials
    fn submit_material(&self, t: &WasteType, weight: &u64, submitter: &Address, description: &String) -> Material {
        let now = self.now();
        done(self.c().submit_material(*t, *weight, *submitter, description.clone(), now))
    }
    fn try_submit_material(&self, t: &WasteType, weight: &u64, submitter: &Address, description: &String) -> Invoked<Material> {
        let now = self.now();
        attempt(self.c().submit_material(*t, *weight, *submitter, description.clone(), now))
    }
    fn submit_materials_batch(&self, items: &Vec<(WasteType, u64, String)>, submitter: &Address) -> Vec<Material> {
        let now = self.now();
        done(self.c().submit_materials_batch(items.clone(), *submitter, now))
    }
    fn verify_material(&self, id: &u64, verifier: &Address) -> Material {
        done(self.c().verify_material(*id, *verifier))
    }
    fn try_verify_material(&self, id: &u64, verifier: &Address) -> Invoked<Material> {
        attempt(self.c().verify_material(*id, *verifier))
    }
    fn verify_materials_batch(&self, ids: &Vec<u64>, verifier: &Address) -> Vec<Material> {
        done(self.c().verify_materials_batch(ids.clone(), *verifier))
    }
    fn get_waste(&self, id: &u64) -> Option<Material> {
        self.c().get_waste(*id)
    }
    fn get_material(&self, id: &u64) -> Option<Material> {
        self.c().get_material(*id)
    }
    fn get_waste_by_id(&self, id: &u64) -> Option<Material> {
        self.c().get_waste_by_id(*id)
    }
    fn waste_exists(&self, id: &u64) -> bool {
        self.c().waste_exists(*id)
    }
    fn get_wastes_batch(&self, ids: &Vec<u64>) -> Vec<Option<Material>> {
        self.c().get_wastes_batch(ids.clone())
    }
    fn get_participant_wastes(&self, a: &Address) -> Vec<u64> {
        self.c().get_participant_wastes(*a)
    }
    fn transfer_waste(&self, id: &u64, from: &Address, to: &Address, note: &String) -> Material {
        let now = self.now();
        done(self.c().transfer_waste(*id, *from, *to, note.clone(), now))
    }
    fn try_transfer_waste(&self, id: &u64, from: &Address, to: &Address, note: &String) -> Invoked<Material> {
        let now = self.now();
        attempt(self.c().transfer_waste(*id, *from, *to, note.clone(), now))
    }
    fn get_transfer_history(&self, id: &u64) -> Vec<WasteTransfer> {
        self.c().get_transfer_history(*id)
    }
    fn get_waste_transfer_history(&self, id: &u64) -> Vec<WasteTransfer> {
        self.c().get_waste_transfer_history(*id)
    }
    fn get_transfers_from(&self, a: &Address) -> Vec<(u64, Vec<WasteTransfer>)> {
        self.c().get_transfers_from(*a)
    }
    fn get_transfers_to(&self, a: &Address) -> Vec<(u64, Vec<WasteTransfer>)> {
        self.c().get_transfers_to(*a)
    }

    // v2 waste
    fn recycle_waste(&self, t: &WasteType, weight: &u128, recycler: &Address, lat: &i128, lon: &i128) -> u128 {
        let now = self.now();
        done(self.c().recycle_waste(*t, *weight, *recycler, *lat, *lon, now))
    }
    fn try_recycle_waste(&self, t: &WasteType, weight: &u128, recycler: &Address, lat: &i128, lon: &i128) -> Invoked<u128> {
        let now = self.now();
        attempt(self.c().recycle_waste(*t, *weight, *recycler, *lat, *lon, now))
    }
    fn get_waste_v2(&self, id: &u128) -> Option<Waste> {
        self.c().get_waste_v2(*id)
    }
    fn get_participant_wastes_v2(&self, a: &Address) -> Vec<u128> {
        self.c().get_participant_wastes_v2(*a)
    }
    fn get_waste_transfer_history_v2(&self, id: &u128) -> Vec<WasteTransfer> {
        self.c().get_waste_transfer_history_v2(*id)
    }
    fn transfer_waste_v2(&self, id: &u128, from: &Address, to: &Address, lat: &i128, lon: &i128) -> WasteTransfer {
        let now = self.now();
        done(self.c().transfer_waste_v2(*id, *from, *to, *lat, *lon, now))
    }
    fn try_transfer_waste_v2(&self, id: &u128, from: &Address, to: &Address, lat: &i128, lon: &i128) -> Invoked<WasteTransfer> {
        let now = self.now();
        attempt(self.c().transfer_waste_v2(*id, *from, *to, *lat, *lon, now))
    }
    fn batch_transfer_waste(&self, ids: &Vec<u128>, to: &Address, lat: &i128, lon: &i128) -> Vec<WasteTransfer> {
        let now = self.now();
        done(self.c().batch_transfer_waste(ids.clone(), *to, *lat, *lon, now))
    }
    fn try_batch_transfer_waste(&self, ids: &Vec<u128>, to: &Address, lat: &i128, lon: &i128) -> Invoked<Vec<WasteTransfer>> {
        let now = self.now();
        attempt(self.c().batch_transfer_waste(ids.clone(), *to, *lat, *lon, now))
    }
    fn transfer_collected_waste(&self, t: &WasteType, collector: &Address, manufacturer: &Address, lat: &i128, lon: &i128, notes: &String) -> u128 {
        let now = self.now();
        done(self.c().transfer_collected_waste(*t, *collector, *manufacturer, *lat, *lon, notes.clone(), now))
    }
    fn confirm_waste_details(&self, id: &u128, confirmer: &Address) -> Waste {
        done(self.c().confirm_waste_details(*id, *confirmer))
    }
    fn try_confirm_waste_details(&self, id: &u128, confirmer: &Address) -> Invoked<Waste> {
        attempt(self.c().confirm_waste_details(*id, *confirmer))
    }
    fn reset_waste_confirmation(&self, id: &u128, owner: &Address) -> Waste {
        let now = self.now();
        done(self.c().reset_waste_confirmation(*id, *owner, now))
    }
    fn try_reset_waste_confirmation(&self, id: &u128, owner: &Address) -> Invoked<Waste> {
        let now = self.now();
        attempt(self.c().reset_waste_confirmation(*id, *owner, now))
    }
    fn deactivate_waste(&self, id: &u128, admin: &Address) -> Waste {
        let now = self.now();
        done(self.c().deactivate_waste(*id, *admin, now))
    }
    fn try_deactivate_waste(&self, id: &u128, admin: &Address) -> Invoked<Waste> {
        let now = self.now();
        attempt(self.c().deactivate_waste(*id, *admin, now))
    }
    fn get_supply_chain_stats(&self) -> (u64, u64, u128) {
        done(self.c().get_supply_chain_stats())
    }

    // incentives
    fn create_incentive(&self, rewarder: &Address, t: &WasteType, points: &u64, budget: &u64) -> Incentive {
        let now = self.now();
        done(self.c().create_incentive(*rewarder, *t, *points, *budget, now))
    }
    fn try_create_incentive(&self, rewarder: &Address, t: &WasteType, points: &u64, budget: &u64) -> Invoked<Incentive> {
        let now = self.now();
        attempt(self.c().create_incentive(*rewarder, *t, *points, *budget, now))
    }
    fn get_incentive_by_id(&self, id: &u64) -> Option<Incentive> {
        self.c().get_incentive_by_id(*id)
    }
    fn incentive_exists(&self, id: &u64) -> bool {
        self.c().incentive_exists(*id)
    }
    fn update_incentive_status(&self, id: &u64, active: &bool) -> Incentive {
        done(self.c().update_incentive_status(*id, *active))
    }
    fn update_incentive(&self, id: &u64, points: &u64, budget: &u64) -> Incentive {
        done(self.c().update_incentive(*id, *points, *budget))
    }
    fn try_update_incentive(&self, id: &u64, points: &u64, budget: &u64) -> Invoked<Incentive> {
        attempt(self.c().update_incentive(*id, *points, *budget))
    }
    fn calculate_incentive_reward(&self, id: &u64, amount: &u64) -> u64 {
        done(self.c().calculate_incentive_reward(*id, *amount))
    }
    fn get_incentives_by_waste_type(&self, t: &WasteType) -> Vec<Incentive> {
        self.c().get_incentives_by_waste_type(*t)
    }
    fn get_incentives(&self, t: &WasteType) -> Vec<Incentive> {
        self.c().get_incentives(*t)
    }
    fn get_active_incentives(&self) -> Vec<Incentive> {
        self.c().get_active_incentives()
    }
    fn get_incentives_by_rewarder(&self, rewarder: &Address) -> Vec<Incentive> {
        self.c().get_incentives_by_rewarder(*rewarder)
    }
    fn get_active_mfr_incentive(&self, manufacturer: &Address, t: &WasteType) -> Option<Incentive> {
        self.c().get_active_mfr_incentive(*manufacturer, *t)
    }
    fn claim_incentive_reward(&self, id: &u64, material_id: &u64, claimer: &Address) -> i128 {
        done(self.c().claim_incentive_reward(*id, *material_id, *claimer))
    }
    fn try_claim_incentive_reward(&self, id: &u64, material_id: &u64, claimer: &Address) -> Invoked<i128> {
        attempt(self.c().claim_incentive_reward(*id, *material_id, *claimer))
    }
    fn deactivate_incentive(&self, id: &u64, rewarder: &Address) -> Incentive {
        done(self.c().deactivate_incentive(*id, *rewarder))
    }
}

// ─── tests ──────────────────────────────────────────────────────────────────

#[test]
fn test_get_incentives_by_rewarder_empty() {
    let env = Env::default();
    let contract_id = env.register_contract();
    let client = ScavengerContractClient::new(&env, &contract_id);

    let manufacturer = Address::generate(&env);
    env.mock_all_auths();

    client.register_participant(
        &manufacturer,
        &ParticipantRole::Manufacturer,
        &String::from("Mfr"),
        &100,
        &200,
    );

    let incentives = client.get_incentives_by_rewarder(&manufacturer);
    assert_eq!(incentives.len(), 0);
}

#[test]
fn test_get_incentives_by_rewarder_single() {
    let env = Env::default();
    let contract_id = env.register_contract();
    let client = ScavengerContractClient::new(&env, &contract_id);

    let manufacturer = Address::generate(&env);
    env.mock_all_auths();

    client.register_participant(
        &manufacturer,
        &ParticipantRole::Manufacturer,
        &String::from("Mfr"),
        &100,
        &200,
    );

    let incentive = client.create_incentive(&manufacturer, &WasteType::Plastic, &100, &10000);

    let incentives = client.get_incentives_by_rewarder(&manufacturer);
    assert_eq!(incentives.len(), 1);
    assert_eq!(incentives.get(0 as usize).cloned().unwrap().id, incentive.id);
    assert_eq!(incentives.get(0 as usize).cloned().unwrap().rewarder, manufacturer);
    assert_eq!(incentives.get(0 as usize).cloned().unwrap().waste_type, WasteType::Plastic);
    assert_eq!(incentives.get(0 as usize).cloned().unwrap().reward_points, 100);
    assert_eq!(incentives.get(0 as usize).cloned().unwrap().total_budget, 10000);
}

#[test]
fn test_get_incentives_by_rewarder_multiple() {
    let env = Env::default();
    let contract_id = env.register_contract();
    let client = ScavengerContractClient::new(&env, &contract_id);

    let manufacturer = Address::generate(&env);
    env.mock_all_auths();

    client.register_participant(
        &manufacturer,
        &ParticipantRole::Manufacturer,
        &String::from("Mfr"),
        &100,
        &200,
    );

    // Create multiple incentives for different waste types
    let incentive1 = client.create_incentive(&manufacturer, &WasteType::Plastic, &100, &10000);
    let incentive2 = client.create_incentive(&manufacturer, &WasteType::Metal, &150, &15000);
    let incentive3 = client.create_incentive(&manufacturer, &WasteType::Paper, &80, &8000);

    let incentives = client.get_incentives_by_rewarder(&manufacturer);
    assert_eq!(incentives.len(), 3);

    // Verify all incentives are returned
    let mut has_id1 = false;
    let mut has_id2 = false;
    let mut has_id3 = false;

    for incentive in incentives.iter().cloned() {
        if incentive.id == incentive1.id {
            has_id1 = true;
        }
        if incentive.id == incentive2.id {
            has_id2 = true;
        }
        if incentive.id == incentive3.id {
            has_id3 = true;
        }
        // Verify all belong to the same rewarder
        assert_eq!(incentive.rewarder, manufacturer);
    }

    assert!(has_id1);
    assert!(has_id2);
    assert!(has_id3);
}

#[test]
fn test_get_incentives_by_rewarder_multiple_manufacturers() {
    let env = Env::default();
    let contract_id = env.register_contract();
    let client = ScavengerContractClient::new(&env, &contract_id);

    let manufacturer1 = Address::generate(&env);
    let manufacturer2 = Address::generate(&env);
    env.mock_all_auths();

    client.register_participant(
        &manufacturer1,
        &ParticipantRole::Manufacturer,
        &String::from("Mfr1"),
        &100,
        &200,
    );
    client.register_participant(
        &manufacturer2,
        &ParticipantRole::Manufacturer,
        &String::from("Mfr2"),
        &300,
        &400,
    );

    // Create incentives for both manufacturers
    let incentive1 = client.create_incentive(&manufacturer1, &WasteType::Plastic, &100, &10000);
    let incentive2 = client.create_incentive(&manufacturer1, &WasteType::Metal, &150, &15000);
    let incentive3 = client.create_incentive(&manufacturer2, &WasteType::Plastic, &120, &12000);
    let incentive4 = client.create_incentive(&manufacturer2, &WasteType::Glass, &90, &9000);

    // Get incentives for manufacturer1
    let incentives1 = client.get_incentives_by_rewarder(&manufacturer1);
    assert_eq!(incentives1.len(), 2);
    assert!(incentives1.iter().cloned().all(|i| i.rewarder == manufacturer1));
    
    let mut has_id1 = false;
    let mut has_id2 = false;
    for incentive in incentives1.iter().cloned() {
        if incentive.id == incentive1.id {
            has_id1 = true;
        }
        if incentive.id == incentive2.id {
            has_id2 = true;
        }
    }
    assert!(has_id1);
    assert!(has_id2);

    // Get incentives for manufacturer2
    let incentives2 = client.get_incentives_by_rewarder(&manufacturer2);
    assert_eq!(incentives2.len(), 2);
    assert!(incentives2.iter().cloned().all(|i| i.rewarder == manufacturer2));
    
    let mut has_id3 = false;
    let mut has_id4 = false;
    for incentive in incentives2.iter().cloned() {
        if incentive.id == incentive3.id {
            has_id3 = true;
        }
        if incentive.id == incentive4.id {
            has_id4 = true;
        }
    }
    assert!(has_id3);
    assert!(has_id4);
}

#[test]
fn test_get_incentives_by_rewarder_includes_inactive() {
    let env = Env::default();
    let contract_id = env.register_contract();
    let client = ScavengerContractClient::new(&env, &contract_id);

    let manufacturer = Address::generate(&env);
    env.mock_all_auths();

    client.register_participant(
        &manufacturer,
        &ParticipantRole::Manufacturer,
        &String::from("Mfr"),
        &100,
        &200,
    );

    let incentive1 = client.create_incentive(&manufacturer, &WasteType::Plastic, &100, &10000);
    let incentive2 = client.create_incentive(&manufacturer, &WasteType::Metal, &150, &15000);

    // Deactivate one incentive
    client.deactivate_incentive(&incentive1.id, &manufacturer);

    let incentives = client.get_incentives_by_rewarder(&manufacturer);
    assert_eq!(incentives.len(), 2);

    // Verify both active and inactive incentives are returned
    let mut has_id1 = false;
    let mut has_id2 = false;
    for incentive in incentives.iter().cloned() {
        if incentive.id == incentive1.id {
            has_id1 = true;
        }
        if incentive.id == incentive2.id {
            has_id2 = true;
        }
    }
    assert!(has_id1);
    assert!(has_id2);

    // Verify the deactivated one is marked as inactive
    let deactivated = incentives.iter().cloned().find(|i| i.id == incentive1.id).unwrap();
    assert!(!deactivated.active);

    let active = incentives.iter().cloned().find(|i| i.id == incentive2.id).unwrap();
    assert!(active.active);
}

#[test]
fn test_get_incentives_by_rewarder_returns_full_structs() {
    let env = Env::default();
    let contract_id = env.register_contract();
    let client = ScavengerContractClient::new(&env, &contract_id);

    let manufacturer = Address::generate(&env);
    env.mock_all_auths();

    client.register_participant(
        &manufacturer,
        &ParticipantRole::Manufacturer,
        &String::from("Mfr"),
        &100,
        &200,
    );

    let created_incentive =
        client.create_incentive(&manufacturer, &WasteType::Plastic, &100, &10000);

    let incentives = client.get_incentives_by_rewarder(&manufacturer);
    assert_eq!(incentives.len(), 1);

    let returned_incentive = incentives.get(0 as usize).cloned().unwrap();

    // Verify all fields are present and correct
    assert_eq!(returned_incentive.id, created_incentive.id);
    assert_eq!(returned_incentive.rewarder, manufacturer);
    assert_eq!(returned_incentive.waste_type, WasteType::Plastic);
    assert_eq!(returned_incentive.reward_points, 100);
    assert_eq!(returned_incentive.total_budget, 10000);
    assert_eq!(returned_incentive.remaining_budget, 10000);
    assert!(returned_incentive.active);
    assert_eq!(returned_incentive.created_at, created_incentive.created_at);
}

#[test]
fn test_get_incentives_by_rewarder_unregistered_address() {
    let env = Env::default();
    let contract_id = env.register_contract();
    let client = ScavengerContractClient::new(&env, &contract_id);

    let unregistered = Address::generate(&env);
    env.mock_all_auths();

    let incentives = client.get_incentives_by_rewarder(&unregistered);
    assert_eq!(incentives.len(), 0);
}

#[test]
fn test_get_incentives_by_rewarder_after_update() {
    let env = Env::default();
    let contract_id = env.register_contract();
    let client = ScavengerContractClient::new(&env, &contract_id);

    let manufacturer = Address::generate(&env);
    env.mock_all_auths();

    client.register_participant(
        &manufacturer,
        &ParticipantRole::Manufacturer,
        &String::from("Mfr"),
        &100,
        &200,
    );

    let incentive = client.create_incentive(&manufacturer, &WasteType::Plastic, &100, &10000);

    // Update the incentive
    client.update_incentive(&incentive.id, &200, &20000);

    let incentives = client.get_incentives_by_rewarder(&manufacturer);
    assert_eq!(incentives.len(), 1);

    let updated_incentive = incentives.get(0 as usize).cloned().unwrap();
    assert_eq!(updated_incentive.reward_points, 200);
    assert_eq!(updated_incentive.total_budget, 20000);
}

#[test]
fn test_get_incentives_by_rewarder_preserves_order() {
    let env = Env::default();
    let contract_id = env.register_contract();
    let client = ScavengerContractClient::new(&env, &contract_id);

    let manufacturer = Address::generate(&env);
    env.mock_all_auths();

    client.register_participant(
        &manufacturer,
        &ParticipantRole::Manufacturer,
        &String::from("Mfr"),
        &100,
        &200,
    );

    // Create incentives in a specific order
    let incentive1 = client.create_incentive(&manufacturer, &WasteType::Plastic, &100, &10000);
    let incentive2 = client.create_incentive(&manufacturer, &WasteType::Metal, &150, &15000);
    let incentive3 = client.create_incentive(&manufacturer, &WasteType::Paper, &80, &8000);

    let incentives = client.get_incentives_by_rewarder(&manufacturer);
    assert_eq!(incentives.len(), 3);

    // Verify order is preserved (creation order)
    assert_eq!(incentives.get(0 as usize).cloned().unwrap().id, incentive1.id);
    assert_eq!(incentives.get(1 as usize).cloned().unwrap().id, incentive2.id);
    assert_eq!(incentives.get(2 as usize).cloned().unwrap().id, incentive3.id);
}

#[test]
fn test_get_incentives_by_rewarder_no_side_effects() {
    let env = Env::default();
    let contract_id = env.register_contract();
    let client = ScavengerContractClient::new(&env, &contract_id);

    let manufacturer = Address::generate(&env);
    env.mock_all_auths();

    client.register_participant(
        &manufacturer,
        &ParticipantRole::Manufacturer,
        &String::from("Mfr"),
        &100,
        &200,
    );

    let incentive = client.create_incentive(&manufacturer, &WasteType::Plastic, &100, &10000);

    // Call multiple times
    let incentives1 = client.get_incentives_by_rewarder(&manufacturer);
    let incentives2 = client.get_incentives_by_rewarder(&manufacturer);
    let incentives3 = client.get_incentives_by_rewarder(&manufacturer);

    // Verify results are consistent
    assert_eq!(incentives1.len(), 1);
    assert_eq!(incentives2.len(), 1);
    assert_eq!(incentives3.len(), 1);

    assert_eq!(incentives1.get(0 as usize).cloned().unwrap().id, incentive.id);
    assert_eq!(incentives2.get(0 as usize).cloned().unwrap().id, incentive.id);
    assert_eq!(incentives3.get(0 as usize).cloned().unwrap().id, incentive.id);

    // Verify the incentive itself is unchanged
    let retrieved_incentive = client.get_incentive_by_id(&incentive.id).unwrap();
    assert_eq!(retrieved_incentive.reward_points, 100);
    assert_eq!(retrieved_incentive.total_budget, 10000);
}

#[test]
fn test_get_incentives_by_rewarder_large_number() {
    let env = Env::default();
    let contract_id = env.register_contract();
    let client = ScavengerContractClient::new(&env, &contract_id);

    let manufacturer = Address::generate(&env);
    env.mock_all_auths();

    client.register_participant(
        &manufacturer,
        &ParticipantRole::Manufacturer,
        &String::from("Mfr"),
        &100,
        &200,
    );

    // Create 20 incentives
    for i in 0..20 {
        let waste_type = match i % 5 {
            0 => WasteType::Plastic,
            1 => WasteType::Metal,
            2 => WasteType::Paper,
            3 => WasteType::Glass,
            _ => WasteType::PetPlastic,
        };
        client.create_incentive(&manufacturer, &waste_type, &(100 + i * 10), &(10000 + i * 1000));
    }

    let incentives = client.get_incentives_by_rewarder(&manufacturer);
    assert_eq!(incentives.len(), 20);

    // Verify all belong to the manufacturer
    for incentive in incentives.iter().cloned() {
        assert_eq!(incentive.rewarder, manufacturer);
    }
}

#[test]
fn test_get_incentives_by_rewarder_with_varying_budgets() {
    let env = Env::default();
    let contract_id = env.register_contract();
    let client = ScavengerContractClient::new(&env, &contract_id);

    let manufacturer = Address::generate(&env);
    env.mock_all_auths();

    client.register_participant(
        &manufacturer,
        &ParticipantRole::Manufacturer,
        &String::from("Mfr"),
        &100,
        &200,
    );

    // Create incentives with different budgets
    client.create_incentive(&manufacturer, &WasteType::Plastic, &100, &5000);
    client.create_incentive(&manufacturer, &WasteType::Metal, &150, &15000);
    client.create_incentive(&manufacturer, &WasteType::Paper, &80, &25000);

    let incentives = client.get_incentives_by_rewarder(&manufacturer);
    assert_eq!(incentives.len(), 3);

    // Verify budgets are correctly stored
    let mut has_5000 = false;
    let mut has_15000 = false;
    let mut has_25000 = false;

    for incentive in incentives.iter().cloned() {
        if incentive.total_budget == 5000 {
            has_5000 = true;
        }
        if incentive.total_budget == 15000 {
            has_15000 = true;
        }
        if incentive.total_budget == 25000 {
            has_25000 = true;
        }
    }

    assert!(has_5000);
    assert!(has_15000);
    assert!(has_25000);
}

fn sched_setup(env: &Env) -> (ScavengerContractClient, Address, Address) {
    let contract_id = env.register_contract();
    let client = ScavengerContractClient::new(env, &contract_id);

    let admin = Address::generate(env);
    client.initialize_admin(&admin);

    let manufacturer = Address::generate(env);
    client.register_participant(
        &manufacturer,
        &ParticipantRole::Manufacturer,
        &String::from("mfr"),
        &0,
        &0,
    );

    (client, admin, manufacturer)
}

fn sched_create_incentive(client: &ScavengerContractClient, manufacturer: &Address) -> u64 {
    let incentive = client.create_incentive(manufacturer, &WasteType::Plastic, &10u64, &1000u64);
    incentive.id
}

fn budget_setup_test(env: &Env) -> (ScavengerContractClient<'_>, Address, Address, Address) {
    let contract_id = env.register_contract();
    let client = ScavengerContractClient::new(env, &contract_id);

    let admin = Address::generate(env);
    client.initialize_admin(&admin);

    let manufacturer = Address::generate(env);
    client.register_participant(
        &manufacturer,
        &ParticipantRole::Manufacturer,
        &String::from("MANUF"),
        &0,
        &0,
    );

    let collector = Address::generate(env);
    client.register_participant(
        &collector,
        &ParticipantRole::Collector,
        &String::from("COLL"),
        &0,
        &0,
    );

    let recycler = Address::generate(env);
    client.register_participant(
        &recycler,
        &ParticipantRole::Recycler,
        &String::from("RECY"),
        &0,
        &0,
    );

    (client, manufacturer, collector, recycler)
}

#[test]
fn test_exact_budget_exhaustion() {
    let env = Env::default();
    env.mock_all_auths();
    let (client, manufacturer, collector, recycler) = budget_setup_test(&env);

    // Create incentive: 100 points per kg, budget 500
    // 5kg = 500 points (EXACT BUDGET)
    let incentive = client.create_incentive(
        &manufacturer,
        &WasteType::Plastic,
        &100,
        &500,
    );

    // Submit 5kg of plastic
    let desc = String::from_str(&env, "Test");
    let material = client.submit_material(&WasteType::Plastic, &5000, &collector, &desc);
    client.verify_material(&material.id, &recycler);

    // Claim reward - should succeed and deactivate incentive
    let reward = client.claim_incentive_reward(&incentive.id, &material.id, &collector);
    assert_eq!(reward, 500);

    // Verify incentive is deactivated
    let updated_incentive = client.get_incentive_by_id(&incentive.id).unwrap();
    assert_eq!(updated_incentive.remaining_budget, 0);
    assert!(!updated_incentive.active);
}

#[test]
fn test_insufficient_budget_error() {
    let env = Env::default();
    env.mock_all_auths();
    let (client, manufacturer, collector, recycler) = budget_setup_test(&env);

    // Create incentive: 100 points per kg, budget 400
    // 5kg = 500 points (OVER BUDGET)
    let incentive = client.create_incentive(
        &manufacturer,
        &WasteType::Plastic,
        &100,
        &400,
    );

    // Submit 5kg of plastic
    let desc = String::from_str(&env, "Test");
    let material = client.submit_material(&WasteType::Plastic, &5000, &collector, &desc);
    client.verify_material(&material.id, &recycler);

    // Try to claim reward - should fail with InsufficientBudget
    let result = client.try_claim_incentive_reward(&incentive.id, &material.id, &collector);
    
    assert_eq!(
        result,
        Err(Ok(Error::InsufficientBudget))
    );

    // Verify budget remains unchanged and active
    let updated_incentive = client.get_incentive_by_id(&incentive.id).unwrap();
    assert_eq!(updated_incentive.remaining_budget, 400);
    assert!(updated_incentive.active);
}

// ---------------------------------------------------------------------------
// Helpers
// ---------------------------------------------------------------------------

fn bench_setup(env: &Env) -> (ScavengerContractClient, Address) {
    env.mock_all_auths();
    let id = env.register_contract();
    let client = ScavengerContractClient::new(env, &id);

    let admin = Address::generate(env);
    client.initialize_admin(&admin);
    client.set_percentages(&admin, &10, &40);

    (client, admin)
}

fn bench_new_participant(env: &Env, client: &ScavengerContractClient, role: ParticipantRole) -> Address {
    let addr = Address::generate(env);
    client.register_participant(&addr, &role, &String::from("p"), &0, &0);
    addr
}

/// Submit a material, optionally walk it through `depth` collectors, then
/// verify it and return the number of events `verify_material` publishes.
fn bench_measure_verify(env: &Env, client: &ScavengerContractClient, depth: usize) -> u64 {
    let recycler = bench_new_participant(env, client, ParticipantRole::Recycler);
    let submitter = bench_new_participant(env, client, ParticipantRole::Recycler);

    let material = client.submit_material(
        &WasteType::Metal,
        &2000,
        &submitter,
        &String::from_str(env, "bench"),
    );

    // Build a collector chain of `depth` hops
    let mut current_owner = submitter.clone();
    for _ in 0..depth {
        let collector = bench_new_participant(env, client, ParticipantRole::Collector);
        client.transfer_waste(
            &material.id,
            &current_owner,
            &collector,
            &String::from_str(env, "hop"),
        );
        current_owner = collector;
    }

    let events_before = env.published().len();
    client.verify_material(&material.id, &recycler);
    let events_after = env.published().len();

    (events_after - events_before) as u64
}

// ---------------------------------------------------------------------------
// Benchmark tests
// ---------------------------------------------------------------------------

#[test]
fn bench_reward_tokens_no_collectors() {
    let env = Env::default();
    let (client, _) = bench_setup(&env);
    let events = bench_measure_verify(&env, &client, 0);
    println!("[bench] depth=0  events={events}");
    // Sanity: must complete without panicking
}

#[test]
fn bench_reward_tokens_one_collector() {
    let env = Env::default();
    let (client, _) = bench_setup(&env);
    let events = bench_measure_verify(&env, &client, 1);
    println!("[bench] depth=1  events={events}");
}

/// The submitter is credited once per verification: with no collectors it
/// receives exactly the whole reward.
#[test]
fn regression_no_double_credit_to_submitter() {
    let env = Env::default();
    let (client, _) = bench_setup(&env);

    let recycler = bench_new_participant(&env, &client, ParticipantRole::Recycler);
    let submitter = bench_new_participant(&env, &client, ParticipantRole::Recycler);

    // 2 kg Metal → 100 tokens total; no collectors → submitter gets all 100
    let material = client.submit_material(
        &WasteType::Metal,
        &2000,
        &submitter,
        &String::from_str(&env, "test"),
    );
    client.verify_material(&material.id, &recycler);

    let p = client.get_participant(&submitter).unwrap();
    assert_eq!(p.total_tokens_earned, 100, "submitter should receive exactly 100 tokens");
}

/// A collector in the chain receives its share; as the final holder it also
/// receives the owner share and the remainder.
#[test]
fn regression_collector_still_rewarded() {
    let env = Env::default();
    let (client, _) = bench_setup(&env);

    let recycler = bench_new_participant(&env, &client, ParticipantRole::Recycler);
    let submitter = bench_new_participant(&env, &client, ParticipantRole::Recycler);
    let collector = bench_new_participant(&env, &client, ParticipantRole::Collector);

    let material = client.submit_material(
        &WasteType::Metal,
        &2000,
        &submitter,
        &String::from_str(&env, "test"),
    );
    client.transfer_waste(
        &material.id,
        &submitter,
        &collector,
        &String::from_str(&env, "hop"),
    );
    client.verify_material(&material.id, &recycler);

    // collector_pct=10 → 10 tokens; collector is also final owner so gets 40+50=90 more
    let cp = client.get_participant(&collector).unwrap();
    assert_eq!(cp.total_tokens_earned, 100);

    let sp = client.get_participant(&submitter).unwrap();
    assert_eq!(sp.total_tokens_earned, 0);
}

// ---------------------------------------------------------------------------
// Reward split read-back
// ---------------------------------------------------------------------------

/// Confirm that get_collector_percentage and get_owner_percentage both return
/// the values written by set_percentages (single-struct round-trip).
#[test]
fn bench_reward_config_single_read() {
    let env = Env::default();
    let (client, admin) = bench_setup(&env);

    client.set_percentages(&admin, &15, &35);

    let col = client.get_collector_percentage().unwrap();
    let own = client.get_owner_percentage().unwrap();

    assert_eq!(col, 15);
    assert_eq!(own, 35);
}

/// set_collector_percentage must not clobber owner_percentage.
#[test]
fn regression_partial_update_preserves_other_field() {
    let env = Env::default();
    let (client, admin) = bench_setup(&env);

    client.set_percentages(&admin, &10, &40);
    client.set_collector_percentage(&admin, &20);

    assert_eq!(client.get_collector_percentage().unwrap(), 20);
    assert_eq!(client.get_owner_percentage().unwrap(), 40); // must be unchanged

    client.set_owner_percentage(&admin, &30);

    assert_eq!(client.get_collector_percentage().unwrap(), 20); // must be unchanged
    assert_eq!(client.get_owner_percentage().unwrap(), 30);
}

fn carbon_setup(env: &Env) -> (ScavengerContractClient, Address, Address) {
    env.mock_all_auths();
    let contract_id = env.register_contract();
    let client = ScavengerContractClient::new(env, &contract_id);
    let admin = Address::generate(env);
    let recycler = Address::generate(env);
    let name = String::from("test");
    client.initialize_admin(&admin);
    client.register_participant(&recycler, &ParticipantRole::Recycler, &name, &0, &0);
    (client, admin, recycler)
}

fn expiry_setup(env: &Env) -> (ScavengerContractClient, Address, Address, Address, Address) {
    env.mock_all_auths();
    let contract_id = env.register_contract();
    let client = ScavengerContractClient::new(env, &contract_id);
    let admin = Address::generate(env);
    let recycler = Address::generate(env);
    let collector = Address::generate(env);
    let manufacturer = Address::generate(env);
    let name = String::from("u");
    client.initialize_admin(&admin);
    client.register_participant(&recycler, &ParticipantRole::Recycler, &name, &0, &0);
    client.register_participant(&collector, &ParticipantRole::Collector, &name, &0, &0);
    client.register_participant(&manufacturer, &ParticipantRole::Manufacturer, &name, &0, &0);
    (client, admin, recycler, collector, manufacturer)
}

fn status_setup(env: &Env) -> (ScavengerContractClient<'_>, Address) {
    let id = env.register_contract();
    let client = ScavengerContractClient::new(env, &id);
    let admin = Address::generate(env);
    client.initialize_admin(&admin);
    (client, admin)
}

fn status_register_recycler(env: &Env, client: &ScavengerContractClient<'_>) -> Address {
    let addr = Address::generate(env);
    client.register_participant(
        &addr,
        &ParticipantRole::Recycler,
        &String::from("recycler"),
        &10_000_000,
        &20_000_000,
    );
    addr
}

fn status_submit_waste(client: &ScavengerContractClient<'_>, owner: &Address) -> u128 {
    client.recycle_waste(&WasteType::Plastic, &1_000, owner, &10_000_000, &20_000_000)
}

#[test]
fn test_get_incentives_by_rewarder_all_waste_types() {
    let env = Env::default();
    let contract_id = env.register_contract();
    let client = ScavengerContractClient::new(&env, &contract_id);

    let manufacturer = Address::generate(&env);
    env.mock_all_auths();

    client.register_participant(
        &manufacturer,
        &ParticipantRole::Manufacturer,
        &String::from("Mfr"),
        &100,
        &200,
    );

    // Create incentives for all waste types
    client.create_incentive(&manufacturer, &WasteType::Plastic, &100, &10000);
    client.create_incentive(&manufacturer, &WasteType::Metal, &150, &15000);
    client.create_incentive(&manufacturer, &WasteType::Paper, &80, &8000);
    client.create_incentive(&manufacturer, &WasteType::Glass, &120, &12000);
    client.create_incentive(&manufacturer, &WasteType::PetPlastic, &90, &9000);

    let incentives = client.get_incentives_by_rewarder(&manufacturer);
    assert_eq!(incentives.len(), 5);

    // Verify all waste types are represented
    let mut has_plastic = false;
    let mut has_metal = false;
    let mut has_paper = false;
    let mut has_glass = false;
    let mut has_pet_plastic = false;

    for incentive in incentives.iter().cloned() {
        match incentive.waste_type {
            WasteType::Plastic => has_plastic = true,
            WasteType::Metal => has_metal = true,
            WasteType::Paper => has_paper = true,
            WasteType::Glass => has_glass = true,
            WasteType::PetPlastic => has_pet_plastic = true,
        }
    }

    assert!(has_plastic);
    assert!(has_metal);
    assert!(has_paper);
    assert!(has_glass);
    assert!(has_pet_plastic);
}
