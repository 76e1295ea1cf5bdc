//! What an accepted operation asks the host to do.

use vstd::prelude::*;
use crate::error::WillError;
use crate::identity::Identity;

verus! {

/// A request to the asset ledger: move `amount` of `asset` from `from` to `to`.
#[derive(Debug, PartialEq, Eq)]
pub struct Transfer {
    pub asset: Identity,
    pub from: Identity,
    pub to: Identity,
    pub amount: i128,
}

/// The mathematical value of a [`Transfer`].
pub struct TransferView {
    pub asset: Seq<u8>,
    pub from: Seq<u8>,
    pub to: Seq<u8>,
    pub amount: int,
}

impl View for Transfer {
    type V = TransferView;

    open spec fn view(&self) -> TransferView {
        TransferView {
            asset: self.asset@,
            from: self.from@,
            to: self.to@,
            amount: self.amount as int,
        }
    }
}

/// A question to the asset ledger: how much of `asset` does `holder` have?
#[derive(Debug, PartialEq, Eq)]
pub struct BalanceQuery {
    pub asset: Identity,
    pub holder: Identity,
}

/// The mathematical value of a [`BalanceQuery`].
pub struct BalanceQueryView {
    pub asset: Seq<u8>,
    pub holder: Seq<u8>,
}

impl View for BalanceQuery {
    type V = BalanceQueryView;

    open spec fn view(&self) -> BalanceQueryView {
        BalanceQueryView { asset: self.asset@, holder: self.holder@ }
    }
}

/// A record for the event log.
#[derive(Debug, PartialEq, Eq)]
pub enum Event {
    /// The will was set up.
    Init { owner: Identity, beneficiary: Identity },
    /// The owner placed `amount` in custody.
    Deposit { from: Identity, amount: i128 },
    /// The owner checked in at `timestamp`.
    CheckIn { owner: Identity, timestamp: u64 },
    /// The beneficiary collected `amount`.
    Claim { beneficiary: Identity, amount: i128 },
    /// The owner took back `amount`.
    Withdraw { owner: Identity, amount: i128 },
}

/// The mathematical value of an [`Event`].
pub enum EventView {
    Init { owner: Seq<u8>, beneficiary: Seq<u8> },
    Deposit { from: Seq<u8>, amount: int },
    CheckIn { owner: Seq<u8>, timestamp: u64 },
    Claim { beneficiary: Seq<u8>, amount: int },
    Withdraw { owner: Seq<u8>, amount: int },
}

impl View for Event {
    type V = EventView;

    open spec fn view(&self) -> EventView {
        match *self {
            Event::Init { owner, beneficiary } => EventView::Init {
                owner: owner@,
                beneficiary: beneficiary@,
            },
            Event::Deposit { from, amount } => EventView::Deposit {
                from: from@,
                amount: amount as int,
            },
            Event::CheckIn { owner, timestamp } => EventView::CheckIn { owner: owner@, timestamp },
            Event::Claim { beneficiary, amount } => EventView::Claim {
                beneficiary: beneficiary@,
                amount: amount as int,
            },
            Event::Withdraw { owner, amount } => EventView::Withdraw {
                owner: owner@,
                amount: amount as int,
            },
        }
    }
}

/// Everything an accepted operation asks of the host, in the order in which
/// it is to happen: first the transfer, if there is one, then the event.
#[derive(Debug, PartialEq, Eq)]
pub struct Effects {
    pub transfer: Option<Transfer>,
    pub event: Event,
}

/// The mathematical value of [`Effects`].
pub struct EffectsView {
    pub transfer: Option<TransferView>,
    pub event: EventView,
}

impl EffectsView {
    /// What becomes of these effects once the asset ledger has answered:
    /// the event goes out unless a transfer was asked for and refused.
    pub open spec fn concluded(self, transfer_succeeded: bool) -> Result<EventView, WillError> {
        if self.transfer is Some && !transfer_succeeded {
            Err(WillError::TransferFailed)
        } else {
            Ok(self.event)
        }
    }
}

impl View for Effects {
    type V = EffectsView;

    open spec fn view(&self) -> EffectsView {
        EffectsView {
            transfer: match self.transfer {
                Some(t) => Some(t@),
                None => None,
            },
            event: self.event@,
        }
    }
}

impl Effects {
    /// Closes an operation after the host has attempted the transfer.
    ///
    /// `transfer_succeeded` is the asset ledger's answer; it is not looked at
    /// where no transfer was asked for. A refused transfer fails the whole
    /// operation with `TransferFailed`, and no event is published.
    pub fn conclude(self, transfer_succeeded: bool) -> (published: Result<Event, WillError>)
        ensures
            match self@.concluded(transfer_succeeded) {
                Ok(event) => published is Ok && published->Ok_0@ == event,
                Err(e) => published == Err::<Event, WillError>(e),
            },
    {
        if self.transfer.is_some() && !transfer_succeeded {
            Err(WillError::TransferFailed)
        } else {
            Ok(self.event)
        }
    }
}

} // verus!
