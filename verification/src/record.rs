//! The terms of a will and the deadline that follows from them.

use vstd::prelude::*;
use crate::identity::Identity;

verus! {

/// The terms of a will: who owns the assets, who inherits them, how often the
/// owner has to check in, when the owner last did so, and which asset the
/// will is about.
#[derive(Debug, PartialEq, Eq)]
pub struct WillRecord {
    pub owner: Identity,
    pub beneficiary: Identity,
    /// Seconds that may pass after a check-in before the beneficiary may claim.
    pub check_in_period: u64,
    /// Ledger time of the latest check-in, in seconds since the epoch.
    pub last_check_in: u64,
    pub asset: Identity,
}

/// The mathematical value of a [`WillRecord`].
pub struct WillRecordView {
    pub owner: Seq<u8>,
    pub beneficiary: Seq<u8>,
    pub check_in_period: u64,
    pub last_check_in: u64,
    pub asset: Seq<u8>,
}

impl WillRecordView {
    /// The moment up to which the owner counts as active: the last check-in
    /// plus one full period. The sum is taken over the integers, so it may
    /// lie beyond every time that the ledger can report.
    pub open spec fn deadline(self) -> int {
        self.last_check_in + self.check_in_period
    }

    /// Whether the beneficiary may claim at time `now`: only once the
    /// deadline lies strictly in the past.
    pub open spec fn claimable_at(self, now: int) -> bool {
        now > self.deadline()
    }

    /// These terms after a check-in at time `now`.
    pub open spec fn checked_in_at(self, now: u64) -> WillRecordView {
        WillRecordView { last_check_in: now, ..self }
    }
}

impl View for WillRecord {
    type V = WillRecordView;

    open spec fn view(&self) -> WillRecordView {
        WillRecordView {
            owner: self.owner@,
            beneficiary: self.beneficiary@,
            check_in_period: self.check_in_period,
            last_check_in: self.last_check_in,
            asset: self.asset@,
        }
    }
}

impl WillRecord {
    /// Whether the deadline has passed at time `now`.
    ///
    /// A deadline beyond the largest representable time is never passed:
    /// the comparison is exact, and nothing wraps around.
    pub fn claimable_at(&self, now: u64) -> (overdue: bool)
        ensures
            overdue == self@.claimable_at(now as int),
    {
        match self.last_check_in.checked_add(self.check_in_period) {
            Some(deadline) => now > deadline,
            None => false,
        }
    }
}

impl Clone for WillRecord {
    fn clone(&self) -> (copy: WillRecord)
        ensures
            copy@ == self@,
    {
        WillRecord {
            owner: self.owner.clone(),
            beneficiary: self.beneficiary.clone(),
            check_in_period: self.check_in_period,
            last_check_in: self.last_check_in,
            asset: self.asset.clone(),
        }
    }
}

} // verus!
