//! The rules of the will, stated over mathematical values.
//!
//! Every operation of [`crate::contract::HeirloomContract`] is specified by
//! the function of the same name here.

use vstd::prelude::*;
use crate::effects::{BalanceQueryView, EffectsView, EventView, TransferView};
use crate::error::WillError;
use crate::record::WillRecordView;

verus! {

/// The mathematical value of a contract instance: the identity under which
/// the asset ledger keeps its holdings, and the will once it has been set up.
pub struct HeirloomContractView {
    pub address: Seq<u8>,
    pub will: Option<WillRecordView>,
}

impl HeirloomContractView {
    /// The instance as it is deployed: no will yet.
    pub open spec fn deployed(address: Seq<u8>) -> HeirloomContractView {
        HeirloomContractView { address, will: None }
    }

    pub open spec fn is_initialized(self) -> bool {
        self.will is Some
    }

    /// Why `caller` may not act as the owner, or `None` where it may. The
    /// host's verdict on the caller's proof of identity comes first, then
    /// the existence of the will, then the match with the owner.
    pub open spec fn owner_refusal(self, caller: Seq<u8>, authorized: bool) -> Option<WillError> {
        if !authorized {
            Some(WillError::AuthorizationFailed)
        } else if self.will is None {
            Some(WillError::NotInitialized)
        } else if caller != self.will->0.owner {
            Some(WillError::NotOwner)
        } else {
            None
        }
    }

    /// Why `caller` may not claim at time `now`, or `None` where it may.
    pub open spec fn claim_refusal(self, caller: Seq<u8>, authorized: bool, now: u64) -> Option<
        WillError,
    > {
        if !authorized {
            Some(WillError::AuthorizationFailed)
        } else if self.will is None {
            Some(WillError::NotInitialized)
        } else if caller != self.will->0.beneficiary {
            Some(WillError::NotBeneficiary)
        } else if !self.will->0.claimable_at(now as int) {
            Some(WillError::DeadlineNotReached)
        } else {
            None
        }
    }

    /// The transfer that empties the contract's holdings `held` into the
    /// hands of `to`. Nothing is moved where nothing is held.
    pub open spec fn payout(self, to: Seq<u8>, held: int) -> Option<TransferView>
        recommends
            self.will is Some,
    {
        if held > 0 {
            Some(TransferView { asset: self.will->0.asset, from: self.address, to, amount: held })
        } else {
            None
        }
    }

    /// Setting up the will. It can happen once; after that every attempt is
    /// refused, whatever it brings along.
    pub open spec fn initialize(
        self,
        owner: Seq<u8>,
        beneficiary: Seq<u8>,
        check_in_period: u64,
        asset: Seq<u8>,
        authorized: bool,
        now: u64,
    ) -> Result<(HeirloomContractView, EffectsView), WillError> {
        if self.will is Some {
            Err(WillError::AlreadyInitialized)
        } else if !authorized {
            Err(WillError::AuthorizationFailed)
        } else {
            Ok(
                (
                    HeirloomContractView {
                        will: Some(
                            WillRecordView {
                                owner,
                                beneficiary,
                                check_in_period,
                                last_check_in: now,
                                asset,
                            },
                        ),
                        ..self
                    },
                    EffectsView { transfer: None, event: EventView::Init { owner, beneficiary } },
                ),
            )
        }
    }

    /// The owner places `amount` in custody. The amount is handed to the
    /// asset ledger as it is.
    pub open spec fn deposit(self, from: Seq<u8>, amount: int, authorized: bool) -> Result<
        EffectsView,
        WillError,
    > {
        match self.owner_refusal(from, authorized) {
            Some(e) => Err(e),
            None => Ok(
                EffectsView {
                    transfer: Some(
                        TransferView {
                            asset: self.will->0.asset,
                            from,
                            to: self.address,
                            amount,
                        },
                    ),
                    event: EventView::Deposit { from, amount },
                },
            ),
        }
    }

    /// The owner proves activity at time `now`.
    pub open spec fn check_in(self, owner: Seq<u8>, authorized: bool, now: u64) -> Result<
        (HeirloomContractView, EffectsView),
        WillError,
    > {
        match self.owner_refusal(owner, authorized) {
            Some(e) => Err(e),
            None => Ok(
                (
                    HeirloomContractView { will: Some(self.will->0.checked_in_at(now)), ..self },
                    EffectsView {
                        transfer: None,
                        event: EventView::CheckIn { owner, timestamp: now },
                    },
                ),
            ),
        }
    }

    /// The beneficiary collects everything the contract holds.
    pub open spec fn claim(
        self,
        beneficiary: Seq<u8>,
        authorized: bool,
        now: u64,
        held: int,
    ) -> Result<EffectsView, WillError> {
        match self.claim_refusal(beneficiary, authorized, now) {
            Some(e) => Err(e),
            None => Ok(
                EffectsView {
                    transfer: self.payout(beneficiary, held),
                    event: EventView::Claim { beneficiary, amount: held },
                },
            ),
        }
    }

    /// The owner takes back everything the contract holds, at any time.
    pub open spec fn owner_withdraw(self, owner: Seq<u8>, authorized: bool, held: int) -> Result<
        EffectsView,
        WillError,
    > {
        match self.owner_refusal(owner, authorized) {
            Some(e) => Err(e),
            None => Ok(
                EffectsView {
                    transfer: self.payout(owner, held),
                    event: EventView::Withdraw { owner, amount: held },
                },
            ),
        }
    }

    /// Owner, beneficiary, check-in period and last check-in.
    pub open spec fn get_info(self) -> Result<(Seq<u8>, Seq<u8>, u64, u64), WillError> {
        match self.will {
            Some(will) => Ok(
                (will.owner, will.beneficiary, will.check_in_period, will.last_check_in),
            ),
            None => Err(WillError::NotInitialized),
        }
    }

    /// The question whose answer is the contract's holdings: what the
    /// contract's own address has of the asset of the will.
    pub open spec fn balance_query(self) -> Result<BalanceQueryView, WillError> {
        match self.will {
            Some(will) => Ok(BalanceQueryView { asset: will.asset, holder: self.address }),
            None => Err(WillError::NotInitialized),
        }
    }

    /// The contract's holdings, given that the asset ledger reports `held`
    /// for the contract's address in the asset of the will.
    pub open spec fn get_balance(self, held: int) -> Result<int, WillError> {
        if self.will is Some {
            Ok(held)
        } else {
            Err(WillError::NotInitialized)
        }
    }

    /// Whether the deadline has passed at time `now`.
    pub open spec fn can_claim(self, now: int) -> Result<bool, WillError> {
        match self.will {
            Some(will) => Ok(will.claimable_at(now)),
            None => Err(WillError::NotInitialized),
        }
    }
}

} // verus!
