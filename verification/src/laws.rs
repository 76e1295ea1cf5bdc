//! What holds of the rules whatever the parties do.

use vstd::prelude::*;
use crate::effects::EffectsView;
use crate::error::WillError;
use crate::ledger::balance_after;
use crate::record::WillRecordView;
use crate::rules::HeirloomContractView;
use crate::storage::{DataKey, StoredView};

verus! {

/// A will is set up at most once: after one accepted `initialize`, every
/// further one is refused with `AlreadyInitialized`, whatever its arguments
/// and whatever the host says of the caller.
pub proof fn lemma_initialize_only_once(
    contract: HeirloomContractView,
    owner: Seq<u8>,
    beneficiary: Seq<u8>,
    check_in_period: u64,
    asset: Seq<u8>,
    authorized: bool,
    now: u64,
    owner2: Seq<u8>,
    beneficiary2: Seq<u8>,
    check_in_period2: u64,
    asset2: Seq<u8>,
    authorized2: bool,
    now2: u64,
)
    requires
        contract.initialize(owner, beneficiary, check_in_period, asset, authorized, now) is Ok,
    ensures
        contract.initialize(
            owner,
            beneficiary,
            check_in_period,
            asset,
            authorized,
            now,
        )->Ok_0.0.initialize(owner2, beneficiary2, check_in_period2, asset2, authorized2, now2)
            == Err::<(HeirloomContractView, EffectsView), WillError>(
            WillError::AlreadyInitialized,
        ),
{
}

/// Once set up, always set up: a check-in leaves the will in place and
/// changes nothing of it but the time of the last check-in. No other
/// operation touches a will that exists.
pub proof fn lemma_terms_are_fixed(
    contract: HeirloomContractView,
    owner: Seq<u8>,
    authorized: bool,
    now: u64,
)
    requires
        contract.will is Some,
        contract.check_in(owner, authorized, now) is Ok,
    ensures
        ({
            let next = contract.check_in(owner, authorized, now)->Ok_0.0;
            &&& next.address == contract.address
            &&& next.will is Some
            &&& next.will->0.owner == contract.will->0.owner
            &&& next.will->0.beneficiary == contract.will->0.beneficiary
            &&& next.will->0.check_in_period == contract.will->0.check_in_period
            &&& next.will->0.asset == contract.will->0.asset
            &&& next.will->0.last_check_in == now
        }),
{
}

/// A will can be set up exactly where there is none yet and the host
/// vouches for the owner. Right after that, `get_info` answers with the
/// owner, the beneficiary and the period that were given, and with the time
/// of the set-up as the last check-in.
pub proof fn lemma_info_after_initialize(
    contract: HeirloomContractView,
    owner: Seq<u8>,
    beneficiary: Seq<u8>,
    check_in_period: u64,
    asset: Seq<u8>,
    authorized: bool,
    now: u64,
)
    ensures
        contract.initialize(owner, beneficiary, check_in_period, asset, authorized, now) is Ok
            <==> contract.will is None && authorized,
        contract.initialize(owner, beneficiary, check_in_period, asset, authorized, now) is Ok
            ==> contract.initialize(
            owner,
            beneficiary,
            check_in_period,
            asset,
            authorized,
            now,
        )->Ok_0.0.get_info() == Ok::<(Seq<u8>, Seq<u8>, u64, u64), WillError>(
            (owner, beneficiary, check_in_period, now),
        ),
{
}

/// At the deadline itself nothing can be claimed; one second later
/// everything can.
pub proof fn lemma_claimable_strictly_after_deadline(contract: HeirloomContractView)
    requires
        contract.will is Some,
    ensures
        contract.can_claim(contract.will->0.deadline()) == Ok::<bool, WillError>(false),
        contract.can_claim(contract.will->0.deadline() + 1) == Ok::<bool, WillError>(true),
{
}

/// What can be claimed now can be claimed at every later time, as long as
/// the will stays as it is.
pub proof fn lemma_claimable_from_then_on(contract: HeirloomContractView, earlier: int, later: int)
    requires
        earlier <= later,
        contract.can_claim(earlier) == Ok::<bool, WillError>(true),
    ensures
        contract.can_claim(later) == Ok::<bool, WillError>(true),
{
}

/// A check-in puts a claim out of reach again: at the time of the check-in
/// nothing can be claimed, and nothing can until a full period has gone by.
pub proof fn lemma_check_in_resets_claim(
    contract: HeirloomContractView,
    owner: Seq<u8>,
    authorized: bool,
    now: u64,
    later: int,
)
    requires
        contract.check_in(owner, authorized, now) is Ok,
        later <= now + contract.will->0.check_in_period,
    ensures
        contract.check_in(owner, authorized, now)->Ok_0.0.can_claim(later) == Ok::<bool, WillError>(
            false,
        ),
{
}

/// With a clock that does not run backwards the deadline never moves back:
/// a check-in at or after the last one leaves the deadline where it was or
/// later.
pub proof fn lemma_deadline_never_moves_back(
    contract: HeirloomContractView,
    owner: Seq<u8>,
    authorized: bool,
    now: u64,
)
    requires
        contract.will is Some,
        contract.check_in(owner, authorized, now) is Ok,
        now >= contract.will->0.last_check_in,
    ensures
        contract.check_in(owner, authorized, now)->Ok_0.0.will->0.deadline()
            >= contract.will->0.deadline(),
        contract.check_in(owner, authorized, now)->Ok_0.0.will->0.deadline() - contract.will->0.deadline()
            == now - contract.will->0.last_check_in,
{
}

/// The owner deposits, the deadline passes, the beneficiary claims: the
/// beneficiary then has more by exactly what the contract held before the
/// claim, the contract holds nothing, and `get_balance` says so.
///
/// `balances` gives what each holder has of the asset before the deposit.
/// The beneficiary is not the contract itself, and the ledger reports no
/// debt for the contract.
pub proof fn lemma_claim_hands_over_everything(
    contract: HeirloomContractView,
    amount: int,
    now: u64,
    balances: spec_fn(Seq<u8>) -> int,
)
    requires
        contract.will is Some,
        contract.will->0.beneficiary != contract.address,
        contract.will->0.claimable_at(now as int),
        balance_after(
            balances,
            contract.deposit(contract.will->0.owner, amount, true)->Ok_0.transfer,
            contract.address,
        ) >= 0,
    ensures
        ({
            let will = contract.will->0;
            let deposit = contract.deposit(will.owner, amount, true);
            let funded = |holder: Seq<u8>| balance_after(balances, deposit->Ok_0.transfer, holder);
            let claim = contract.claim(will.beneficiary, true, now, funded(contract.address));
            let settled = |holder: Seq<u8>| balance_after(funded, claim->Ok_0.transfer, holder);
            &&& deposit is Ok
            &&& claim is Ok
            &&& will.owner != contract.address ==> funded(contract.address) == balances(
                contract.address,
            ) + amount
            &&& settled(will.beneficiary) == funded(will.beneficiary) + funded(contract.address)
            &&& settled(contract.address) == 0
            &&& contract.get_balance(settled(contract.address)) == Ok::<int, WillError>(0)
        }),
{
}

/// The owner named in the will can withdraw whenever it likes: no time
/// enters into it. The owner then has more by exactly what the contract
/// held, the contract holds nothing, and `get_balance` says so.
///
/// `balances` gives what each holder has of the asset before the
/// withdrawal. The owner is not the contract itself, and the ledger reports
/// no debt for the contract.
pub proof fn lemma_owner_withdraws_everything(
    contract: HeirloomContractView,
    balances: spec_fn(Seq<u8>) -> int,
)
    requires
        contract.will is Some,
        contract.will->0.owner != contract.address,
        balances(contract.address) >= 0,
    ensures
        ({
            let will = contract.will->0;
            let withdrawal = contract.owner_withdraw(will.owner, true, balances(contract.address));
            let settled = |holder: Seq<u8>| balance_after(balances, withdrawal->Ok_0.transfer, holder);
            &&& withdrawal is Ok
            &&& settled(will.owner) == balances(will.owner) + balances(contract.address)
            &&& settled(contract.address) == 0
            &&& contract.get_balance(settled(contract.address)) == Ok::<int, WillError>(0)
        }),
{
}

/// Assets leave the contract only through a claim by the beneficiary after
/// the deadline or through a withdrawal by the owner: a transfer that any
/// operation asks for either pays into the contract or is one of these two.
pub proof fn lemma_only_two_ways_out(
    contract: HeirloomContractView,
    caller: Seq<u8>,
    amount: int,
    authorized: bool,
    now: u64,
    held: int,
)
    requires
        contract.will is Some,
    ensures
        contract.deposit(caller, amount, authorized) matches Ok(effects) ==> effects.transfer is Some
            && effects.transfer->0.to == contract.address,
        contract.check_in(caller, authorized, now) matches Ok((_, effects))
            ==> effects.transfer is None,
        contract.claim(caller, authorized, now, held) matches Ok(effects) ==> {
            &&& authorized
            &&& caller == contract.will->0.beneficiary
            &&& now > contract.will->0.deadline()
            &&& effects.transfer matches Some(t) ==> t.from == contract.address && t.to == caller
                && t.amount == held
        },
        contract.owner_withdraw(caller, authorized, held) matches Ok(effects) ==> {
            &&& authorized
            &&& caller == contract.will->0.owner
            &&& effects.transfer matches Some(t) ==> t.from == contract.address && t.to == caller
                && t.amount == held
        },
{
}

/// What an instance keeps in storage is enough to bring it back: restoring
/// from the entries under the six keys yields the same instance.
pub proof fn lemma_restore_what_is_stored(contract: HeirloomContractView)
    ensures
        HeirloomContractView::restored(
            contract.address,
            StoredView::party(contract.stored(DataKey::Owner)),
            StoredView::party(contract.stored(DataKey::Beneficiary)),
            StoredView::seconds(contract.stored(DataKey::CheckInPeriod)),
            StoredView::seconds(contract.stored(DataKey::LastCheckIn)),
            StoredView::party(contract.stored(DataKey::Token)),
            StoredView::flag(contract.stored(DataKey::IsInitialized)),
        ) == Some(contract),
{
}

} // verus!
