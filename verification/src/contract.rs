//! A contract instance and its operations.

use vstd::prelude::*;
use crate::effects::{BalanceQuery, Effects, Event, Transfer};
use crate::error::WillError;
use crate::identity::Identity;
use crate::record::WillRecord;
use crate::rules::HeirloomContractView;
use crate::storage::{party_view, DataKey, Stored};

verus! {

/// One instance of the will contract.
///
/// The instance never holds assets itself: the asset ledger keeps them under
/// the instance's address. Operations that depend on the holdings are told
/// what the ledger reports, and answer with the transfer to ask for.
///
/// Each operation takes what the host has observed for the call:
/// `authorized`, whether the call carries valid proof of control over the
/// identity it names; `now`, the ledger time; `held`, the asset ledger's
/// answer to [`HeirloomContract::balance_query`].
#[derive(Debug)]
pub struct HeirloomContract {
    address: Identity,
    record: Option<WillRecord>,
}

impl View for HeirloomContract {
    type V = HeirloomContractView;

    closed spec fn view(&self) -> HeirloomContractView {
        HeirloomContractView {
            address: self.address@,
            will: match self.record {
                Some(record) => Some(record@),
                None => None,
            },
        }
    }
}

impl HeirloomContract {
    /// A freshly deployed instance at `address`, without a will.
    pub fn new(address: Identity) -> (contract: HeirloomContract)
        ensures
            contract@ == HeirloomContractView::deployed(address@),
    {
        HeirloomContract { address, record: None }
    }

    /// The identity under which the asset ledger keeps this instance's
    /// holdings.
    pub fn address(&self) -> (address: &Identity)
        ensures
            address@ == self@.address,
    {
        &self.address
    }

    /// Whether the will has been set up.
    pub fn is_initialized(&self) -> (initialized: bool)
        ensures
            initialized == self@.is_initialized(),
    {
        self.record.is_some()
    }

    /// The will, once it has been set up.
    pub fn record(&self) -> (record: Option<&WillRecord>)
        ensures
            match record {
                Some(r) => self@.will == Some(r@),
                None => self@.will is None,
            },
    {
        self.record.as_ref()
    }

    /// The will, where `caller` may act as its owner.
    fn as_owner(&self, caller: &Identity, authorized: bool) -> (admitted: Result<
        &WillRecord,
        WillError,
    >)
        ensures
            match self@.owner_refusal(caller@, authorized) {
                Some(e) => admitted == Err::<&WillRecord, WillError>(e),
                None => admitted is Ok && self@.will == Some(admitted->Ok_0@),
            },
    {
        if !authorized {
            return Err(WillError::AuthorizationFailed);
        }
        match &self.record {
            None => Err(WillError::NotInitialized),
            Some(record) => {
                if *caller != record.owner {
                    Err(WillError::NotOwner)
                } else {
                    Ok(record)
                }
            },
        }
    }

    /// The will, where `caller` may claim at time `now`.
    fn as_claimant(&self, caller: &Identity, authorized: bool, now: u64) -> (admitted: Result<
        &WillRecord,
        WillError,
    >)
        ensures
            match self@.claim_refusal(caller@, authorized, now) {
                Some(e) => admitted == Err::<&WillRecord, WillError>(e),
                None => admitted is Ok && self@.will == Some(admitted->Ok_0@),
            },
    {
        if !authorized {
            return Err(WillError::AuthorizationFailed);
        }
        match &self.record {
            None => Err(WillError::NotInitialized),
            Some(record) => {
                if *caller != record.beneficiary {
                    Err(WillError::NotBeneficiary)
                } else if !record.claimable_at(now) {
                    Err(WillError::DeadlineNotReached)
                } else {
                    Ok(record)
                }
            },
        }
    }

    /// The transfer that hands all of `held` to `to`, if anything is held.
    fn payout(&self, record: &WillRecord, to: &Identity, held: i128) -> (transfer: Option<Transfer>)
        requires
            self@.will == Some(record@),
        ensures
            match self@.payout(to@, held as int) {
                Some(t) => transfer is Some && transfer->0@ == t,
                None => transfer is None,
            },
    {
        if held > 0 {
            Some(
                Transfer {
                    asset: record.asset.clone(),
                    from: self.address.clone(),
                    to: to.clone(),
                    amount: held,
                },
            )
        } else {
            None
        }
    }

    /// Sets up the will: `owner` and `beneficiary`, the check-in period in
    /// seconds, and the asset `token` that the will is about. The owner
    /// counts as having checked in at `now`.
    ///
    /// An instance is set up once. Any later attempt fails with
    /// `AlreadyInitialized`, before `authorized` is even looked at.
    /// Otherwise `authorized` must be the host's verdict on `owner`.
    pub fn initialize(
        &mut self,
        owner: Identity,
        beneficiary: Identity,
        check_in_period: u64,
        token: Identity,
        authorized: bool,
        now: u64,
    ) -> (outcome: Result<Effects, WillError>)
        ensures
            match old(self)@.initialize(
                owner@,
                beneficiary@,
                check_in_period,
                token@,
                authorized,
                now,
            ) {
                Ok((next, effects)) => final(self)@ == next && outcome is Ok && outcome->Ok_0@
                    == effects,
                Err(e) => final(self)@ == old(self)@ && outcome == Err::<Effects, WillError>(e),
            },
    {
        if self.record.is_some() {
            return Err(WillError::AlreadyInitialized);
        }
        if !authorized {
            return Err(WillError::AuthorizationFailed);
        }
        let event = Event::Init { owner: owner.clone(), beneficiary: beneficiary.clone() };
        self.record = Some(
            WillRecord { owner, beneficiary, check_in_period, last_check_in: now, asset: token },
        );
        Ok(Effects { transfer: None, event })
    }

    /// The owner `from` places `amount` in custody.
    ///
    /// The amount is not judged here: the asset ledger decides whether
    /// `from` can pay it. The instance itself stays as it is.
    pub fn deposit(&self, from: &Identity, amount: i128, authorized: bool) -> (outcome: Result<
        Effects,
        WillError,
    >)
        ensures
            match self@.deposit(from@, amount as int, authorized) {
                Ok(effects) => outcome is Ok && outcome->Ok_0@ == effects,
                Err(e) => outcome == Err::<Effects, WillError>(e),
            },
    {
        let record = match self.as_owner(from, authorized) {
            Ok(record) => record,
            Err(e) => return Err(e),
        };
        Ok(
            Effects {
                transfer: Some(
                    Transfer {
                        asset: record.asset.clone(),
                        from: from.clone(),
                        to: self.address.clone(),
                        amount,
                    },
                ),
                event: Event::Deposit { from: from.clone(), amount },
            },
        )
    }

    /// The owner proves activity: the last check-in becomes `now`, and the
    /// deadline moves with it.
    pub fn check_in(&mut self, owner: &Identity, authorized: bool, now: u64) -> (outcome: Result<
        Effects,
        WillError,
    >)
        ensures
            match old(self)@.check_in(owner@, authorized, now) {
                Ok((next, effects)) => final(self)@ == next && outcome is Ok && outcome->Ok_0@
                    == effects,
                Err(e) => final(self)@ == old(self)@ && outcome == Err::<Effects, WillError>(e),
            },
            old(self)@.will is Some && owner@ != old(self)@.will->0.owner ==> outcome is Err
                && final(self)@ == old(self)@,
            authorized && old(self)@.will is Some && owner@ != old(self)@.will->0.owner ==> outcome
                == Err::<Effects, WillError>(WillError::NotOwner),
    {
        if let Err(e) = self.as_owner(owner, authorized) {
            return Err(e);
        }
        match &mut self.record {
            None => {},
            Some(record) => {
                record.last_check_in = now;
            },
        }
        Ok(Effects { transfer: None, event: Event::CheckIn { owner: owner.clone(), timestamp: now } })
    }

    /// The beneficiary collects everything the instance holds, once the
    /// deadline lies strictly in the past.
    ///
    /// The will stays as it is: a later claim is judged in the same way.
    pub fn claim(&self, beneficiary: &Identity, authorized: bool, now: u64, held: i128) -> (outcome:
        Result<Effects, WillError>)
        ensures
            match self@.claim(beneficiary@, authorized, now, held as int) {
                Ok(effects) => outcome is Ok && outcome->Ok_0@ == effects,
                Err(e) => outcome == Err::<Effects, WillError>(e),
            },
            self@.will is Some && now <= self@.will->0.deadline() ==> outcome is Err,
            authorized && self@.will is Some && beneficiary@ == self@.will->0.beneficiary && now
                <= self@.will->0.deadline() ==> outcome == Err::<Effects, WillError>(
                WillError::DeadlineNotReached,
            ),
    {
        let record = match self.as_claimant(beneficiary, authorized, now) {
            Ok(record) => record,
            Err(e) => return Err(e),
        };
        Ok(
            Effects {
                transfer: self.payout(record, beneficiary, held),
                event: Event::Claim { beneficiary: beneficiary.clone(), amount: held },
            },
        )
    }

    /// The owner takes back everything the instance holds. No deadline
    /// stands in the way.
    pub fn owner_withdraw(&self, owner: &Identity, authorized: bool, held: i128) -> (outcome:
        Result<Effects, WillError>)
        ensures
            match self@.owner_withdraw(owner@, authorized, held as int) {
                Ok(effects) => outcome is Ok && outcome->Ok_0@ == effects,
                Err(e) => outcome == Err::<Effects, WillError>(e),
            },
    {
        let record = match self.as_owner(owner, authorized) {
            Ok(record) => record,
            Err(e) => return Err(e),
        };
        Ok(
            Effects {
                transfer: self.payout(record, owner, held),
                event: Event::Withdraw { owner: owner.clone(), amount: held },
            },
        )
    }

    /// Owner, beneficiary, check-in period and last check-in of the will.
    pub fn get_info(&self) -> (info: Result<(Identity, Identity, u64, u64), WillError>)
        ensures
            match self@.get_info() {
                Ok((owner, beneficiary, check_in_period, last_check_in)) => {
                    &&& info is Ok
                    &&& info->Ok_0.0@ == owner
                    &&& info->Ok_0.1@ == beneficiary
                    &&& info->Ok_0.2 == check_in_period
                    &&& info->Ok_0.3 == last_check_in
                },
                Err(e) => info == Err::<(Identity, Identity, u64, u64), WillError>(e),
            },
    {
        match &self.record {
            None => Err(WillError::NotInitialized),
            Some(record) => Ok(
                (
                    record.owner.clone(),
                    record.beneficiary.clone(),
                    record.check_in_period,
                    record.last_check_in,
                ),
            ),
        }
    }

    /// What to ask the asset ledger in order to learn the holdings of the
    /// instance. Before the will is set up there is no asset to ask about.
    pub fn balance_query(&self) -> (query: Result<BalanceQuery, WillError>)
        ensures
            match self@.balance_query() {
                Ok(q) => query is Ok && query->Ok_0@ == q,
                Err(e) => query == Err::<BalanceQuery, WillError>(e),
            },
    {
        match &self.record {
            None => Err(WillError::NotInitialized),
            Some(record) => Ok(
                BalanceQuery { asset: record.asset.clone(), holder: self.address.clone() },
            ),
        }
    }

    /// The holdings of the instance: what the asset ledger reports, provided
    /// that a will names the asset to ask about.
    pub fn get_balance(&self, held: i128) -> (balance: Result<i128, WillError>)
        ensures
            match self@.get_balance(held as int) {
                Ok(amount) => balance is Ok && balance->Ok_0 == amount,
                Err(e) => balance == Err::<i128, WillError>(e),
            },
    {
        match &self.record {
            None => Err(WillError::NotInitialized),
            Some(_) => Ok(held),
        }
    }

    /// Whether the beneficiary could claim at time `now`. Anyone may ask.
    pub fn can_claim(&self, now: u64) -> (answer: Result<bool, WillError>)
        ensures
            answer == self@.can_claim(now as int),
    {
        match &self.record {
            None => Err(WillError::NotInitialized),
            Some(record) => Ok(record.claimable_at(now)),
        }
    }

    /// What the instance keeps in storage under `key`.
    pub fn stored(&self, key: DataKey) -> (entry: Option<Stored>)
        ensures
            match self@.stored(key) {
                Some(value) => entry is Some && entry->0@ == value,
                None => entry is None,
            },
    {
        match &self.record {
            None => None,
            Some(record) => Some(
                match key {
                    DataKey::Owner => Stored::Party(record.owner.clone()),
                    DataKey::Beneficiary => Stored::Party(record.beneficiary.clone()),
                    DataKey::CheckInPeriod => Stored::Seconds(record.check_in_period),
                    DataKey::LastCheckIn => Stored::Seconds(record.last_check_in),
                    DataKey::Token => Stored::Party(record.asset.clone()),
                    DataKey::IsInitialized => Stored::Flag(true),
                },
            ),
        }
    }

    /// The instance at `address` whose storage holds the given entries, one
    /// argument for each key. `None` where the storage is filled in part.
    pub fn restore(
        address: Identity,
        owner: Option<Identity>,
        beneficiary: Option<Identity>,
        check_in_period: Option<u64>,
        last_check_in: Option<u64>,
        token: Option<Identity>,
        is_initialized: Option<bool>,
    ) -> (contract: Option<HeirloomContract>)
        ensures
            match HeirloomContractView::restored(
                address@,
                party_view(owner),
                party_view(beneficiary),
                check_in_period,
                last_check_in,
                party_view(token),
                is_initialized,
            ) {
                Some(value) => contract is Some && contract->0@ == value,
                None => contract is None,
            },
    {
        match (owner, beneficiary, check_in_period, last_check_in, token, is_initialized) {
            (
                Some(owner),
                Some(beneficiary),
                Some(check_in_period),
                Some(last_check_in),
                Some(asset),
                Some(_),
            ) => Some(
                HeirloomContract {
                    address,
                    record: Some(
                        WillRecord { owner, beneficiary, check_in_period, last_check_in, asset },
                    ),
                },
            ),
            (None, None, None, None, None, None) => Some(HeirloomContract { address, record: None }),
            _ => None,
        }
    }
}

} // verus!
