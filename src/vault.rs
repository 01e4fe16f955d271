//! The vault: its state, the deposit that restarts the countdown, and the
//! payout to the last depositor once the countdown has run out.
//!
//! Known limitation: `withdraw_winner` clears the balance when it hands out the
//! payout, before the host has carried the transfer out. If that transfer
//! later fails, the recorded balance (zero) and the tokens actually held part
//! ways; nothing here rolls the balance back.

use vstd::prelude::*;
use crate::message::{directive_of, Directive, MsgInput};
use crate::tiers::{
    countdown_for_amount, is_tier_duration, tier_duration, FIFTEEN_MINUTES, ONE_DAY, ONE_HOUR,
    ONE_MONTH, THREE_DAYS, TWO_WEEKS,
};

verus! {

/// Why the vault refused an operation.
#[derive(PartialEq, Eq, Structural, Clone, Copy, Debug)]
pub enum VaultError {
    /// The transfer came from a token other than the one the vault accepts.
    WrongAsset,
    /// The countdown has run out: the prize must be claimed before new deposits.
    VaultExpired,
    /// The countdown is still running: nobody has won yet.
    VaultNotYetExpired,
    /// The balance would not fit in 128 bits.
    ArithmeticOverflow,
    /// The vault has already been set up.
    AlreadyInitialized,
}

/// A transfer that the host must carry out: `amount` of `token` to `receiver`.
pub struct Payout {
    pub receiver: String,
    pub amount: u128,
    pub token: String,
}

/// What a vault holds, as mathematical values.
pub ghost struct VaultState {
    /// When the most recent accepted deposit arrived (nanoseconds).
    pub time_last_deposit: int,
    /// How long after that deposit new deposits are still taken (nanoseconds).
    pub countdown_period: int,
    /// The account that made the most recent accepted deposit.
    pub last_depositor: Seq<char>,
    /// The tokens held, all owed to `last_depositor` once the countdown ends.
    pub balance: int,
    /// The one token that the vault accepts.
    pub token: Seq<char>,
    pub treasury: Seq<char>,
    pub owner: Seq<char>,
}

impl VaultState {
    /// The moment from which deposits are refused and the payout is due.
    pub open spec fn deadline(self) -> int {
        self.time_last_deposit + self.countdown_period
    }

    /// The countdown is still running at `now`.
    pub open spec fn is_open(self, now: int) -> bool {
        now < self.deadline()
    }

    /// The invariant that every reachable state keeps.
    pub open spec fn wf(self) -> bool {
        &&& 0 <= self.time_last_deposit <= u64::MAX
        &&& is_tier_duration(self.countdown_period)
        &&& 0 <= self.balance <= u128::MAX
    }
}

/// Why a deposit of `amount` of `asset` at `now` is refused, if it is.
pub open spec fn deposit_error(s: VaultState, asset: Seq<char>, amount: int, now: int) -> Option<
    VaultError,
> {
    if asset != s.token {
        Some(VaultError::WrongAsset)
    } else if !s.is_open(now) {
        Some(VaultError::VaultExpired)
    } else if s.balance + amount > u128::MAX {
        Some(VaultError::ArithmeticOverflow)
    } else {
        None
    }
}

/// `post` is `pre` after an accepted deposit of `amount` by `depositor` at `now`.
pub open spec fn deposited(
    pre: VaultState,
    post: VaultState,
    depositor: Seq<char>,
    amount: int,
    now: int,
) -> bool {
    post == VaultState {
        time_last_deposit: now,
        countdown_period: tier_duration(amount),
        last_depositor: depositor,
        balance: pre.balance + amount,
        ..pre
    }
}

/// The sum of a sequence of amounts.
pub open spec fn sum_amounts(amounts: Seq<u128>) -> int
    decreases amounts.len(),
{
    if amounts.len() == 0 {
        0
    } else {
        sum_amounts(amounts.drop_last()) + amounts.last()
    }
}

/// The vault.
pub struct Contract {
    time_last_deposit: u64,
    countdown_period: u64,
    accountid_last_deposit: String,
    ft_token_balance: u128,
    ft_token_id: String,
    treasury_id: String,
    owner_id: String,
}

impl View for Contract {
    type V = VaultState;

    closed spec fn view(&self) -> VaultState {
        VaultState {
            time_last_deposit: self.time_last_deposit as int,
            countdown_period: self.countdown_period as int,
            last_depositor: self.accountid_last_deposit@,
            balance: self.ft_token_balance as int,
            token: self.ft_token_id@,
            treasury: self.treasury_id@,
            owner: self.owner_id@,
        }
    }
}

impl Contract {
    /// The vault's invariant.
    pub open spec fn wf(&self) -> bool {
        self@.wf()
    }

    /// Whether the countdown is still running at `now`.
    fn is_open_at(&self, now: u64) -> (r: bool)
        ensures
            r == self@.is_open(now as int),
    {
        (now as u128) < (self.time_last_deposit as u128) + (self.countdown_period as u128)
    }

    /// Sets up a vault at time `now`, with `accountid_last_deposit` as the
    /// first candidate winner and a one-month countdown. `state_exists` tells
    /// whether a vault has been set up already, which is refused.
    pub fn new(
        state_exists: bool,
        now: u64,
        accountid_last_deposit: String,
        ft_token_id: String,
        owner_id: String,
        treasury_id: String,
    ) -> (r: Result<Contract, VaultError>)
        ensures
            state_exists ==> r == Err::<Contract, VaultError>(VaultError::AlreadyInitialized),
            !state_exists ==> r is Ok,
            r matches Ok(c) ==> c.wf() && c@ == (VaultState {
                time_last_deposit: now as int,
                countdown_period: ONE_MONTH as int,
                last_depositor: accountid_last_deposit@,
                balance: 0,
                token: ft_token_id@,
                treasury: treasury_id@,
                owner: owner_id@,
            }),
    {
        if state_exists {
            return Err(VaultError::AlreadyInitialized);
        }
        Ok(Contract {
            time_last_deposit: now,
            countdown_period: ONE_MONTH,
            accountid_last_deposit,
            ft_token_balance: 0,
            ft_token_id,
            treasury_id,
            owner_id,
        })
    }

    /// Rebuilds a vault from its stored fields. Refused (`None`) when the
    /// countdown is not one of the tier durations, which no vault can reach.
    pub fn from_parts(
        time_last_deposit: u64,
        countdown_period: u64,
        accountid_last_deposit: String,
        ft_token_balance: u128,
        ft_token_id: String,
        treasury_id: String,
        owner_id: String,
    ) -> (r: Option<Contract>)
        ensures
            r is Some <==> is_tier_duration(countdown_period as int),
            r matches Some(c) ==> c.wf() && c@ == (VaultState {
                time_last_deposit: time_last_deposit as int,
                countdown_period: countdown_period as int,
                last_depositor: accountid_last_deposit@,
                balance: ft_token_balance as int,
                token: ft_token_id@,
                treasury: treasury_id@,
                owner: owner_id@,
            }),
    {
        if countdown_period != ONE_MONTH && countdown_period != TWO_WEEKS && countdown_period
            != THREE_DAYS && countdown_period != ONE_DAY && countdown_period != ONE_HOUR
            && countdown_period != FIFTEEN_MINUTES {
            return None;
        }
        Some(
            Contract {
                time_last_deposit,
                countdown_period,
                accountid_last_deposit,
                ft_token_balance,
                ft_token_id,
                treasury_id,
                owner_id,
            },
        )
    }

    /// Takes a deposit of `amount` of `asset_id` from `depositor` at `now`.
    /// It is refused if the token is not the vault's, if the countdown has run
    /// out, or if the balance would overflow; a refused deposit changes
    /// nothing. An accepted one adds `amount` to the balance, makes
    /// `depositor` the candidate winner and restarts the countdown at `now`
    /// with the length that the tier table gives for `amount`.
    pub fn accept_deposit(&mut self, depositor: String, asset_id: String, amount: u128, now: u64) -> (r:
        Result<(), VaultError>)
        requires
            old(self).wf(),
        ensures
            final(self).wf(),
            r == (match deposit_error(old(self)@, asset_id@, amount as int, now as int) {
                Some(e) => Err(e),
                None => Ok(()),
            }),
            r is Err ==> final(self)@ == old(self)@,
            r is Ok ==> deposited(old(self)@, final(self)@, depositor@, amount as int, now as int),
    {
        if asset_id != self.ft_token_id {
            return Err(VaultError::WrongAsset);
        }
        if !self.is_open_at(now) {
            return Err(VaultError::VaultExpired);
        }
        let balance = match self.ft_token_balance.checked_add(amount) {
            Some(b) => b,
            None => {
                return Err(VaultError::ArithmeticOverflow);
            },
        };
        self.countdown_period = countdown_for_amount(amount);
        self.ft_token_balance = balance;
        self.time_last_deposit = now;
        self.accountid_last_deposit = depositor;
        Ok(())
    }

    /// Handles a notification that `amount` of the token `asset_id` was
    /// transferred to the vault by `sender_id`, with `msg` as its instruction,
    /// at `now`. Returns how much of the amount goes back to the sender: all
    /// of it when the instruction is not a deposit, none when the deposit is
    /// accepted. A refused deposit is an error and changes nothing.
    pub fn ft_on_transfer(
        &mut self,
        sender_id: String,
        asset_id: String,
        amount: u128,
        msg: &MsgInput,
        now: u64,
    ) -> (r: Result<u128, VaultError>)
        requires
            old(self).wf(),
        ensures
            final(self).wf(),
            directive_of(msg.action_to_execute@) == Directive::Unrecognized ==> r == Ok::<
                u128,
                VaultError,
            >(amount) && final(self)@ == old(self)@,
            directive_of(msg.action_to_execute@) == Directive::IncreaseDeposit ==> r == (match deposit_error(
                old(self)@,
                asset_id@,
                amount as int,
                now as int,
            ) {
                Some(e) => Err(e),
                None => Ok(0u128),
            }),
            r is Err ==> final(self)@ == old(self)@,
            directive_of(msg.action_to_execute@) == Directive::IncreaseDeposit && r is Ok ==> deposited(
                old(self)@,
                final(self)@,
                sender_id@,
                amount as int,
                now as int,
            ),
    {
        match msg.directive() {
            Directive::IncreaseDeposit => match self.accept_deposit(sender_id, asset_id, amount, now) {
                Ok(()) => Ok(0),
                Err(e) => Err(e),
            },
            Directive::Unrecognized => Ok(amount),
        }
    }

    /// Pays the whole balance to the last depositor once the countdown has run
    /// out at `now`: returns the transfer for the host to carry out and clears
    /// the balance. Anyone may call it. While the countdown runs it fails and
    /// changes nothing.
    pub fn withdraw_winner(&mut self, now: u64) -> (r: Result<Payout, VaultError>)
        requires
            old(self).wf(),
        ensures
            final(self).wf(),
            old(self)@.is_open(now as int) ==> r == Err::<Payout, VaultError>(
                VaultError::VaultNotYetExpired,
            ),
            !old(self)@.is_open(now as int) ==> r is Ok,
            r is Err ==> final(self)@ == old(self)@,
            r matches Ok(p) ==> p.receiver@ == old(self)@.last_depositor,
            r matches Ok(p) ==> p.amount == old(self)@.balance,
            r matches Ok(p) ==> p.token@ == old(self)@.token,
            r is Ok ==> final(self)@ == (VaultState { balance: 0, ..old(self)@ }),
    {
        if self.is_open_at(now) {
            return Err(VaultError::VaultNotYetExpired);
        }
        let payout = Payout {
            receiver: self.accountid_last_deposit.clone(),
            amount: self.ft_token_balance,
            token: self.ft_token_id.clone(),
        };
        self.ft_token_balance = 0;
        Ok(payout)
    }

    /// Whether `caller` is the vault's owner.
    pub fn is_the_owner(&self, caller: &String) -> (r: bool)
        ensures
            r == (caller@ == self@.owner),
    {
        *caller == self.owner_id
    }

    /// When the countdown ends, or `u64::MAX` if that moment lies beyond it.
    pub fn get_end_date(&self) -> (r: u64)
        ensures
            self@.deadline() <= u64::MAX ==> r == self@.deadline(),
            self@.deadline() > u64::MAX ==> r == u64::MAX,
    {
        self.time_last_deposit.saturating_add(self.countdown_period)
    }

    /// When the most recent accepted deposit arrived; at first, when the vault
    /// was set up.
    pub fn get_time_last_deposit(&self) -> (r: u64)
        ensures
            r == self@.time_last_deposit,
    {
        self.time_last_deposit
    }

    /// The length of the running countdown.
    pub fn get_countdown_period(&self) -> (r: u64)
        ensures
            r == self@.countdown_period,
    {
        self.countdown_period
    }

    /// The tokens held in the vault.
    pub fn get_vault_balance(&self) -> (r: u128)
        ensures
            r == self@.balance,
    {
        self.ft_token_balance
    }

    /// The account that made the most recent accepted deposit.
    pub fn get_last_depositor(&self) -> (r: String)
        ensures
            r@ == self@.last_depositor,
    {
        self.accountid_last_deposit.clone()
    }

    /// The token that the vault accepts.
    pub fn get_ft_token_id(&self) -> (r: String)
        ensures
            r@ == self@.token,
    {
        self.ft_token_id.clone()
    }

    /// The vault's owner.
    pub fn get_owner_id(&self) -> (r: String)
        ensures
            r@ == self@.owner,
    {
        self.owner_id.clone()
    }

    /// The treasury account.
    pub fn get_treasury_id(&self) -> (r: String)
        ensures
            r@ == self@.treasury,
    {
        self.treasury_id.clone()
    }
}

/// After a run of accepted deposits, the balance has grown by exactly the sum
/// of their amounts: nothing is lost and no fee is taken.
pub proof fn lemma_balance_accumulates(
    states: Seq<VaultState>,
    depositors: Seq<Seq<char>>,
    amounts: Seq<u128>,
    times: Seq<u64>,
)
    requires
        states.len() == amounts.len() + 1,
        depositors.len() == amounts.len(),
        times.len() == amounts.len(),
        forall|i: int|
            0 <= i < amounts.len() ==> #[trigger] deposited(
                states[i],
                states[i + 1],
                depositors[i],
                amounts[i] as int,
                times[i] as int,
            ),
    ensures
        states.last().balance == states[0].balance + sum_amounts(amounts),
    decreases amounts.len(),
{
    if amounts.len() > 0 {
        let n = amounts.len() - 1;
        let pre_states = states.drop_last();
        assert forall|i: int| 0 <= i < n implies #[trigger] deposited(
            pre_states[i],
            pre_states[i + 1],
            depositors.drop_last()[i],
            amounts.drop_last()[i] as int,
            times.drop_last()[i] as int,
        ) by {
            assert(deposited(states[i], states[i + 1], depositors[i], amounts[i] as int, times[i] as int));
        }
        lemma_balance_accumulates(pre_states, depositors.drop_last(), amounts.drop_last(), times.drop_last());
        assert(deposited(states[n], states[n + 1], depositors[n], amounts[n] as int, times[n] as int));
    }
}

} // verus!
