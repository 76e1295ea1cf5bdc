//! The layout of a contract instance in the host's keyed storage.

use vstd::prelude::*;
use crate::identity::Identity;
use crate::record::WillRecordView;
use crate::rules::HeirloomContractView;

verus! {

/// The keys under which an instance keeps its will. A will that has been set
/// up fills all six; before that none is filled.
#[derive(Clone, Copy, Debug, PartialEq, Eq, Structural)]
pub enum DataKey {
    Owner,
    Beneficiary,
    CheckInPeriod,
    LastCheckIn,
    Token,
    IsInitialized,
}

/// A value kept under a [`DataKey`].
#[derive(Debug, PartialEq, Eq)]
pub enum Stored {
    /// An identity: under `Owner`, `Beneficiary` and `Token`.
    Party(Identity),
    /// A time or a duration in seconds: under `CheckInPeriod` and `LastCheckIn`.
    Seconds(u64),
    /// The mark under `IsInitialized`.
    Flag(bool),
}

/// The mathematical value of a [`Stored`].
pub enum StoredView {
    Party(Seq<u8>),
    Seconds(u64),
    Flag(bool),
}

impl StoredView {
    /// The identity in `entry`, if it holds one.
    pub open spec fn party(entry: Option<StoredView>) -> Option<Seq<u8>> {
        match entry {
            Some(StoredView::Party(id)) => Some(id),
            _ => None,
        }
    }

    /// The number of seconds in `entry`, if it holds one.
    pub open spec fn seconds(entry: Option<StoredView>) -> Option<u64> {
        match entry {
            Some(StoredView::Seconds(s)) => Some(s),
            _ => None,
        }
    }

    /// The mark in `entry`, if it holds one.
    pub open spec fn flag(entry: Option<StoredView>) -> Option<bool> {
        match entry {
            Some(StoredView::Flag(b)) => Some(b),
            _ => None,
        }
    }
}

impl View for Stored {
    type V = StoredView;

    open spec fn view(&self) -> StoredView {
        match *self {
            Stored::Party(id) => StoredView::Party(id@),
            Stored::Seconds(s) => StoredView::Seconds(s),
            Stored::Flag(b) => StoredView::Flag(b),
        }
    }
}

/// The mathematical value of an identity that may be absent.
pub open spec fn party_view(party: Option<Identity>) -> Option<Seq<u8>> {
    match party {
        Some(id) => Some(id@),
        None => None,
    }
}

impl HeirloomContractView {
    /// What the instance keeps under `key`.
    pub open spec fn stored(self, key: DataKey) -> Option<StoredView> {
        match self.will {
            None => None,
            Some(will) => Some(
                match key {
                    DataKey::Owner => StoredView::Party(will.owner),
                    DataKey::Beneficiary => StoredView::Party(will.beneficiary),
                    DataKey::CheckInPeriod => StoredView::Seconds(will.check_in_period),
                    DataKey::LastCheckIn => StoredView::Seconds(will.last_check_in),
                    DataKey::Token => StoredView::Party(will.asset),
                    DataKey::IsInitialized => StoredView::Flag(true),
                },
            ),
        }
    }

    /// The instance at `address` whose storage holds the given entries, one
    /// argument for each key. Storage that is filled in part belongs to no
    /// instance. Of the mark only its presence counts.
    pub open spec fn restored(
        address: Seq<u8>,
        owner: Option<Seq<u8>>,
        beneficiary: Option<Seq<u8>>,
        check_in_period: Option<u64>,
        last_check_in: Option<u64>,
        token: Option<Seq<u8>>,
        is_initialized: Option<bool>,
    ) -> Option<HeirloomContractView> {
        if owner is Some && beneficiary is Some && check_in_period is Some && last_check_in is Some
            && token is Some && is_initialized is Some {
            Some(
                HeirloomContractView {
                    address,
                    will: Some(
                        WillRecordView {
                            owner: owner->0,
                            beneficiary: beneficiary->0,
                            check_in_period: check_in_period->0,
                            last_check_in: last_check_in->0,
                            asset: token->0,
                        },
                    ),
                },
            )
        } else if owner is None && beneficiary is None && check_in_period is None
            && last_check_in is None && token is None && is_initialized is None {
            Some(HeirloomContractView::deployed(address))
        } else {
            None
        }
    }
}

} // verus!
