//! A will from set-up to pay-out, with an asset ledger kept by the test.

use heirloom::contract::HeirloomContract;
use heirloom::effects::{Effects, Event, Transfer};
use heirloom::error::WillError;
use heirloom::identity::Identity;

fn party(name: &str) -> Identity {
    Identity::new(name.as_bytes().to_vec())
}

/// A ledger for one asset: who holds how much.
struct Ledger {
    asset: Identity,
    holdings: Vec<(Identity, i128)>,
}

impl Ledger {
    fn new(asset: Identity) -> Ledger {
        Ledger { asset, holdings: Vec::new() }
    }

    fn balance(&self, holder: &Identity) -> i128 {
        self.holdings.iter().filter(|(h, _)| h == holder).map(|(_, a)| *a).sum()
    }

    fn mint(&mut self, to: &Identity, amount: i128) {
        self.holdings.push((to.clone(), amount));
    }

    fn transfer(&mut self, transfer: &Transfer) -> bool {
        if transfer.asset != self.asset || transfer.amount < 0 {
            return false;
        }
        if self.balance(&transfer.from) < transfer.amount {
            return false;
        }
        self.holdings.push((transfer.from.clone(), -transfer.amount));
        self.holdings.push((transfer.to.clone(), transfer.amount));
        true
    }

    /// Carries out what an operation asked for and hands back the event that
    /// is published.
    fn perform(&mut self, effects: Effects) -> Result<Event, WillError> {
        let moved = match &effects.transfer {
            Some(transfer) => self.transfer(transfer),
            None => true,
        };
        effects.conclude(moved)
    }
}

struct World {
    contract: HeirloomContract,
    ledger: Ledger,
    owner: Identity,
    beneficiary: Identity,
    now: u64,
}

impl World {
    fn new() -> World {
        let owner = party("GOWNER");
        let mut ledger = Ledger::new(party("CTOKEN"));
        ledger.mint(&owner, 1000);
        World {
            contract: HeirloomContract::new(party("CWILL")),
            ledger,
            owner,
            beneficiary: party("GBENEFICIARY"),
            now: 0,
        }
    }

    fn initialize(&mut self, check_in_period: u64) {
        let effects = self
            .contract
            .initialize(
                self.owner.clone(),
                self.beneficiary.clone(),
                check_in_period,
                self.ledger.asset.clone(),
                true,
                self.now,
            )
            .unwrap();
        self.ledger.perform(effects).unwrap();
    }

    fn deposit(&mut self, amount: i128) {
        let effects = self.contract.deposit(&self.owner, amount, true).unwrap();
        self.ledger.perform(effects).unwrap();
    }

    fn held(&self) -> i128 {
        self.ledger.balance(self.contract.address())
    }

    fn get_balance(&self) -> i128 {
        self.contract.get_balance(self.held()).unwrap()
    }
}

#[test]
fn test_initialize() {
    let mut world = World::new();
    let check_in_period: u64 = 60 * 60 * 24 * 180;

    world.initialize(check_in_period);

    let (stored_owner, stored_beneficiary, stored_period, _) = world.contract.get_info().unwrap();
    assert_eq!(stored_owner, world.owner);
    assert_eq!(stored_beneficiary, world.beneficiary);
    assert_eq!(stored_period, check_in_period);
}

#[test]
fn test_deposit() {
    let mut world = World::new();
    let check_in_period: u64 = 60 * 60 * 24 * 180;

    world.initialize(check_in_period);
    world.deposit(500);

    assert_eq!(world.get_balance(), 500);
}

#[test]
fn test_check_in() {
    let mut world = World::new();
    let check_in_period: u64 = 60 * 60 * 24 * 180;

    world.initialize(check_in_period);

    let (_, _, _, initial_check_in) = world.contract.get_info().unwrap();

    world.now = world.now + 1000;

    let owner = world.owner.clone();
    let effects = world.contract.check_in(&owner, true, world.now).unwrap();
    world.ledger.perform(effects).unwrap();

    let (_, _, _, new_check_in) = world.contract.get_info().unwrap();
    assert!(new_check_in > initial_check_in);
}

#[test]
fn test_claim_success() {
    let mut world = World::new();
    let check_in_period: u64 = 60 * 60 * 24 * 180;

    world.initialize(check_in_period);
    world.deposit(500);

    world.now = world.now + check_in_period + 1;

    assert!(world.contract.can_claim(world.now).unwrap());

    let effects = world.contract.claim(&world.beneficiary, true, world.now, world.held()).unwrap();
    world.ledger.perform(effects).unwrap();

    assert_eq!(world.ledger.balance(&world.beneficiary), 500);
    assert_eq!(world.get_balance(), 0);
}

#[test]
#[should_panic(expected = "Check-in period has not passed yet")]
fn test_claim_too_early() {
    let mut world = World::new();
    let check_in_period: u64 = 60 * 60 * 24 * 180;

    world.initialize(check_in_period);
    world.deposit(500);

    // Try to claim immediately (should fail)
    match world.contract.claim(&world.beneficiary, true, world.now, world.held()) {
        Ok(effects) => {
            world.ledger.perform(effects).unwrap();
        }
        Err(refusal) => panic!("{}", refusal.message()),
    }
}

#[test]
fn claim_right_after_set_up_is_refused_and_moves_nothing() {
    let mut world = World::new();
    world.initialize(60 * 60 * 24 * 180);
    world.deposit(500);

    let refused = world.contract.claim(&world.beneficiary, true, world.now, world.held());
    assert_eq!(refused, Err(WillError::DeadlineNotReached));
    assert_eq!(world.ledger.balance(&world.beneficiary), 0);
    assert_eq!(world.get_balance(), 500);
}

#[test]
fn test_owner_withdraw() {
    let mut world = World::new();
    let check_in_period: u64 = 60 * 60 * 24 * 180;

    world.initialize(check_in_period);
    world.deposit(500);

    assert_eq!(world.get_balance(), 500);

    let effects = world.contract.owner_withdraw(&world.owner, true, world.held()).unwrap();
    world.ledger.perform(effects).unwrap();

    assert_eq!(world.ledger.balance(&world.owner), 1000);
    assert_eq!(world.get_balance(), 0);
}

#[test]
fn claim_one_second_after_the_deadline_pays_everything() {
    let mut world = World::new();
    world.initialize(15552000);
    world.deposit(500);
    world.now = world.now + 15552001;

    assert_eq!(world.contract.can_claim(world.now), Ok(true));
    let before = world.ledger.balance(&world.beneficiary);
    let effects = world.contract.claim(&world.beneficiary, true, world.now, world.held()).unwrap();
    assert_eq!(
        effects,
        Effects {
            transfer: Some(Transfer {
                asset: party("CTOKEN"),
                from: party("CWILL"),
                to: party("GBENEFICIARY"),
                amount: 500,
            }),
            event: Event::Claim { beneficiary: party("GBENEFICIARY"), amount: 500 },
        }
    );
    let published = world.ledger.perform(effects);
    assert_eq!(published, Ok(Event::Claim { beneficiary: party("GBENEFICIARY"), amount: 500 }));
    assert_eq!(world.ledger.balance(&world.beneficiary), before + 500);
    assert_eq!(world.get_balance(), 0);
}

#[test]
fn claim_at_the_deadline_itself_is_refused() {
    let mut world = World::new();
    world.initialize(15552000);
    world.deposit(500);
    world.now = world.now + 15552000;

    assert_eq!(world.contract.can_claim(world.now), Ok(false));
    let refused = world.contract.claim(&world.beneficiary, true, world.now, world.held());
    assert_eq!(refused, Err(WillError::DeadlineNotReached));
    assert_eq!(world.get_balance(), 500);
}

#[test]
fn check_in_moves_the_last_check_in_by_the_time_gone_by() {
    let mut world = World::new();
    world.now = 1_700_000_000;
    world.initialize(15552000);
    let (_, _, _, initial_check_in) = world.contract.get_info().unwrap();
    assert_eq!(initial_check_in, 1_700_000_000);

    world.now = world.now + 1000;
    let owner = world.owner.clone();
    let effects = world.contract.check_in(&owner, true, world.now).unwrap();
    assert_eq!(
        effects,
        Effects {
            transfer: None,
            event: Event::CheckIn { owner: party("GOWNER"), timestamp: 1_700_001_000 },
        }
    );

    let (_, _, _, new_check_in) = world.contract.get_info().unwrap();
    assert_eq!(new_check_in, initial_check_in + 1000);
    // The deadline has moved by the same 1000 seconds.
    assert_eq!(world.contract.can_claim(1_700_001_000 + 15552000), Ok(false));
    assert_eq!(world.contract.can_claim(1_700_001_000 + 15552001), Ok(true));
}

#[test]
fn deposit_by_a_stranger_moves_nothing() {
    let mut world = World::new();
    world.initialize(15552000);
    let stranger = party("GSTRANGER");
    world.ledger.mint(&stranger, 700);

    let refused = world.contract.deposit(&stranger, 500, true);
    assert_eq!(refused, Err(WillError::NotOwner));
    assert_eq!(world.ledger.balance(&stranger), 700);
    assert_eq!(world.get_balance(), 0);
}

#[test]
fn deposit_beyond_the_owners_means_fails_at_the_ledger() {
    let mut world = World::new();
    world.initialize(15552000);

    let effects = world.contract.deposit(&world.owner, 1001, true).unwrap();
    assert_eq!(world.ledger.perform(effects), Err(WillError::TransferFailed));
    assert_eq!(world.ledger.balance(&world.owner), 1000);
    assert_eq!(world.get_balance(), 0);
}

#[test]
fn owner_withdraws_before_and_after_the_deadline() {
    let mut world = World::new();
    world.initialize(15552000);
    world.deposit(300);

    let effects = world.contract.owner_withdraw(&world.owner, true, world.held()).unwrap();
    assert_eq!(
        world.ledger.perform(effects),
        Ok(Event::Withdraw { owner: party("GOWNER"), amount: 300 })
    );
    assert_eq!(world.ledger.balance(&world.owner), 1000);
    assert_eq!(world.get_balance(), 0);

    world.deposit(200);
    world.now = world.now + 15552001;
    assert_eq!(world.contract.can_claim(world.now), Ok(true));
    let effects = world.contract.owner_withdraw(&world.owner, true, world.held()).unwrap();
    world.ledger.perform(effects).unwrap();
    assert_eq!(world.ledger.balance(&world.owner), 1000);
    assert_eq!(world.get_balance(), 0);
}

#[test]
fn claim_may_be_repeated_after_a_new_deposit() {
    let mut world = World::new();
    world.initialize(10);
    world.deposit(400);
    world.now = 11;

    let effects = world.contract.claim(&world.beneficiary, true, world.now, world.held()).unwrap();
    world.ledger.perform(effects).unwrap();
    assert_eq!(world.ledger.balance(&world.beneficiary), 400);

    // Nothing is held: the claim is accepted, nothing moves, the event says 0.
    let effects = world.contract.claim(&world.beneficiary, true, world.now, world.held()).unwrap();
    assert_eq!(
        effects,
        Effects {
            transfer: None,
            event: Event::Claim { beneficiary: party("GBENEFICIARY"), amount: 0 },
        }
    );

    world.deposit(600);
    let effects = world.contract.claim(&world.beneficiary, true, world.now, world.held()).unwrap();
    world.ledger.perform(effects).unwrap();
    assert_eq!(world.ledger.balance(&world.beneficiary), 1000);
    assert_eq!(world.get_balance(), 0);
}
