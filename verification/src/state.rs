//! The stream record kept by the Streamflow protocol and the arithmetic that
//! decides how much of a stream is unlocked at a given time.

use vstd::prelude::*;

use crate::pda::Pubkey;

verus! {

use vstd::arithmetic::div_mod::lemma_basic_div;
use vstd::arithmetic::div_mod::lemma_div_is_ordered;
use vstd::arithmetic::mul::lemma_mul_inequality;

/// Streamflow Treasury address, by default receives 0.25% of tokens deposited
pub const STRM_TREASURY: &'static str = "5SEpbdjFK5FxwTvfsGMXVQTD2v4M2c5tyRTxhdsPkgDw";
/// Streamflow Withdrawor address, this account will process withdrawals
pub const WITHDRAWOR_ADDRESS: &'static str = "wdrwhnCv4pzW8beKsbPa4S2UDZrXenjg16KJdKSpb5u";
/// Address of Fee Oracle that stores information about fees for specific partners
pub const FEE_ORACLE_ADDRESS: &'static str = "B743wFVk2pCYhV91cn287e1xY7f1vt4gdY48hhNiuQmT";

/// Size of Stream metadata
pub const METADATA_LEN: usize = 1104;

/// Address of the Streamflow protocol program on mainnet
pub const STREAMFLOW_PROGRAM_ID: &'static str = "strmRqUCoQUgGUan5YhzUZa6KqdzwX5L6FpUxfmKg5m";
/// Address of the Streamflow protocol program on devnet
pub const STREAMFLOW_DEVNET_PROGRAM_ID: &'static str = "HqDGZjaVRXJ9MGRQEw7qDc2rAr6iH1n1kAQdCZaCMfMZ";

/// Scale of a fixed-point fee percentage: a fee percentage is carried as the
/// percentage multiplied by 10,000, so this factor stands for 100%.
pub const FEE_PRECISION_FACTOR: u64 = 1_000_000;

/// The parameters of a stream, fixed when the stream is created.
#[derive(Clone, Debug)]
pub struct CreateParams {
    /// Timestamp when the tokens start vesting
    pub start_time: u64,
    /// Deposited amount of tokens
    pub net_amount_deposited: u64,
    /// Time step (period) in seconds per which the vesting/release occurs
    pub period: u64,
    /// Amount released per period. Combined with `period`, we get a release rate.
    pub amount_per_period: u64,
    /// Vesting contract "cliff" timestamp
    pub cliff: u64,
    /// Amount unlocked at the "cliff" timestamp
    pub cliff_amount: u64,
    /// Whether a stream can be canceled by a sender
    pub cancelable_by_sender: bool,
    /// Whether a stream can be canceled by a recipient
    pub cancelable_by_recipient: bool,
    /// Whether a 3rd party can initiate withdraw in the name of recipient
    pub automatic_withdrawal: bool,
    /// Whether the sender can transfer the stream
    pub transferable_by_sender: bool,
    /// Whether the recipient can transfer the stream
    pub transferable_by_recipient: bool,
    /// Whether topup is enabled
    pub can_topup: bool,
    /// The name of this stream
    pub stream_name: [u8; 64],
    /// Withdraw frequency
    pub withdraw_frequency: u64,
    /// Padding length used in the serialized form of old streams; kept for
    /// backwards compatibility and never read by the schedule arithmetic
    pub legacy_padding: u32,
    /// Whether the contract can be paused
    pub pausable: bool,
    /// Whether the contract can update release amount
    pub can_update_rate: bool,
}

/// A stream contract as the protocol keeps it: the immutable creation
/// parameters in `ix` plus the bookkeeping that changes over the stream's
/// life. Fee percentages are carried in the fixed-point scale of
/// [`FEE_PRECISION_FACTOR`] so that every field is a plain integer.
#[derive(Clone, Debug)]
pub struct Contract {
    /// Magic bytes
    pub magic: u64,
    /// Version of the program
    pub version: u8,
    /// Timestamp when stream was created
    pub created_at: u64,
    /// Amount of funds withdrawn
    pub amount_withdrawn: u64,
    /// Timestamp when stream was canceled (if canceled)
    pub canceled_at: u64,
    /// Timestamp at which stream can be safely canceled by a 3rd party
    /// (Stream is either fully vested or there isn't enough capital to
    /// keep it active)
    pub end_time: u64,
    /// Timestamp of the last withdrawal
    pub last_withdrawn_at: u64,
    /// Address of the stream initializer
    pub sender: Pubkey,
    /// Address of the stream initializer's token account
    pub sender_tokens: Pubkey,
    /// Address of the stream recipient
    pub recipient: Pubkey,
    /// Address of the stream recipient's token account
    pub recipient_tokens: Pubkey,
    /// Address of the token mint
    pub mint: Pubkey,
    /// Escrow account holding the locked tokens for recipient
    pub escrow_tokens: Pubkey,
    /// Streamflow treasury authority
    pub streamflow_treasury: Pubkey,
    /// Escrow account holding the locked tokens for Streamflow (fee account)
    pub streamflow_treasury_tokens: Pubkey,
    /// The total fee amount for streamflow
    pub streamflow_fee_total: u64,
    /// The withdrawn fee amount for streamflow
    pub streamflow_fee_withdrawn: u64,
    /// Fee percentage for Streamflow, in the scale of [`FEE_PRECISION_FACTOR`]
    pub streamflow_fee_percent: u64,
    /// Streamflow partner authority
    pub partner: Pubkey,
    /// Escrow account holding the locked tokens for Streamflow partner (fee account)
    pub partner_tokens: Pubkey,
    /// The total fee amount for the partner
    pub partner_fee_total: u64,
    /// The withdrawn fee amount for the partner
    pub partner_fee_withdrawn: u64,
    /// Fee percentage for partner, in the scale of [`FEE_PRECISION_FACTOR`]
    pub partner_fee_percent: u64,
    /// The stream instruction
    pub ix: CreateParams,
    /// Padding for `ix: CreateParams` to allow for future upgrades
    pub ix_padding: Vec<u8>,
    /// Stream is closed
    pub closed: bool,
    /// Time of the current pause. 0 signifies unpaused state
    pub current_pause_start: u64,
    /// Total time the contract was paused for
    pub pause_cumulative: u64,
    /// Timestamp of last rate change for this stream.
    /// Rate can be changed with an update instruction
    pub last_rate_change_time: u64,
    /// Accumulated unlocked tokens before last rate change (excluding cliff_amount)
    pub funds_unlocked_at_last_rate_change: u64,
}

/// The fee taken from `amount` at a fee percentage given in the fixed-point
/// scale of [`FEE_PRECISION_FACTOR`]: the whole part of
/// `amount * percentage / 100`, or 0 when no fee percentage is set.
pub open spec fn spec_fee_from_amount(amount: int, scaled_percentage: u64) -> int {
    if scaled_percentage == 0 {
        0
    } else {
        amount * scaled_percentage / (FEE_PRECISION_FACTOR as int)
    }
}

/// Calculate fee amount from a provided amount.
///
/// `scaled_percentage` is the fee percentage multiplied by 10,000, so that
/// [`FEE_PRECISION_FACTOR`] stands for 100%; a percentage that is not
/// positive is represented by 0 and yields no fee.
pub fn calculate_fee_from_amount(amount: u64, scaled_percentage: u64) -> (r: u64)
    requires
        scaled_percentage > 0 ==> amount * scaled_percentage / (FEE_PRECISION_FACTOR as int)
            <= u64::MAX,
    ensures
        r == spec_fee_from_amount(amount as int, scaled_percentage),
        scaled_percentage == 0 ==> r == 0,
        amount == 0 ==> r == 0,
{
    if scaled_percentage == 0 {
        return 0;
    }
    proof {
        assert(amount * scaled_percentage <= u64::MAX * u64::MAX) by (nonlinear_arith)
            requires
                amount <= u64::MAX,
                scaled_percentage <= u64::MAX,
        ;
    }
    let wide: u128 = (amount as u128) * (scaled_percentage as u128);
    let quotient: u128 = wide / (FEE_PRECISION_FACTOR as u128);
    quotient as u64
}

impl Contract {
    /// The timestamp the periodic schedule is anchored at: the cliff
    /// timestamp when a cliff is configured, else the plain start time.
    pub open spec fn spec_start_time(self) -> u64 {
        if self.ix.cliff > 0 {
            self.ix.cliff
        } else {
            self.ix.start_time
        }
    }

    /// Timestamp that vesting effectively starts at: the cliff timestamp when
    /// a cliff is configured, else the plain start time.
    pub fn start_time(&self) -> (r: u64)
        ensures
            r == self.spec_start_time(),
    {
        if self.ix.cliff > 0 {
            self.ix.cliff
        } else {
            self.ix.start_time
        }
    }

    /// The anchor of periodic accrual under the current rate: the later of
    /// the last rate-change checkpoint and the vesting start.
    pub open spec fn spec_effective_start_time(self) -> u64 {
        if self.last_rate_change_time > self.spec_start_time() {
            self.last_rate_change_time
        } else {
            self.spec_start_time()
        }
    }

    /// Timestamp that periodic accrual under the current rate is measured
    /// from: the later of the last rate-change checkpoint and the vesting
    /// start.
    pub fn effective_start_time(&self) -> (r: u64)
        ensures
            r == self.spec_effective_start_time(),
    {
        let start = self.start_time();
        if self.last_rate_change_time > start {
            self.last_rate_change_time
        } else {
            start
        }
    }

    /// Total paused seconds at `now`: all completed pause intervals plus the
    /// currently open one, if any.
    pub open spec fn spec_pause_time(self, now: u64) -> int {
        if self.current_pause_start > 0 {
            self.pause_cumulative + now - self.current_pause_start
        } else {
            self.pause_cumulative as int
        }
    }

    /// The inputs on which the total paused time stays within `u64`: an open
    /// pause must have begun by `now` plus the already accumulated pause
    /// time, and the sum must fit.
    pub open spec fn pause_time_in_range(self, now: u64) -> bool {
        self.current_pause_start > 0 ==> {
            &&& self.pause_cumulative + now <= u64::MAX
            &&& self.current_pause_start <= self.pause_cumulative + now
        }
    }

    /// Total time the stream has not been accruing at `now`: the completed
    /// pause intervals plus the currently open one, if any.
    pub fn pause_time(&self, now: u64) -> (r: u64)
        requires
            self.pause_time_in_range(now),
        ensures
            r == self.spec_pause_time(now),
    {
        if self.current_pause_start > 0 {
            return self.pause_cumulative + now - self.current_pause_start;
        }
        self.pause_cumulative
    }

    /// A pause that began strictly before the vesting start and is still
    /// open: under the current rate regime nothing has started vesting.
    pub open spec fn pause_blocks_vesting(self) -> bool {
        self.current_pause_start != 0 && self.current_pause_start < self.spec_start_time()
    }

    /// The periodically vested amount at `now`, excluding any cliff amount:
    /// 0 while an open pause predates the vesting start; otherwise the full
    /// periods elapsed since the effective start, net of paused time, times
    /// the per-period amount, plus the amount frozen at the last rate change.
    pub open spec fn spec_vested_available(self, now: u64) -> int {
        if self.pause_blocks_vesting() {
            0
        } else {
            let duration = now - self.spec_effective_start_time() - self.spec_pause_time(now);
            duration / (self.ix.period as int) * (self.ix.amount_per_period as int)
                + self.funds_unlocked_at_last_rate_change
        }
    }

    /// The inputs on which the vested amount is computed without leaving
    /// `u64`: unless an open pause predates the vesting start (in which case
    /// nothing is computed), the paused time must be in range, `now` must not
    /// precede the effective start plus the paused time, and the accrued
    /// amount must fit.
    pub open spec fn vested_in_range(self, now: u64) -> bool {
        !self.pause_blocks_vesting() ==> {
            let duration = now - self.spec_effective_start_time() - self.spec_pause_time(now);
            &&& self.pause_time_in_range(now)
            &&& self.spec_effective_start_time() + self.spec_pause_time(now) <= now
            &&& duration / (self.ix.period as int) * (self.ix.amount_per_period as int)
                + self.funds_unlocked_at_last_rate_change <= u64::MAX
        }
    }

    /// Amount available that is vested (excluding cliff).
    pub fn vested_available(&self, now: u64) -> (r: u64)
        requires
            self.ix.period > 0,
            self.vested_in_range(now),
        ensures
            r == self.spec_vested_available(now),
    {
        let start = self.start_time();
        // if pause started before start/cliff and is still active, no unlocks
        if self.current_pause_start < start && self.current_pause_start != 0 {
            return 0;
        }
        // available from streaming based on current rate
        let effective_stream_duration = now - self.effective_start_time() - self.pause_time(now);
        let effective_periods_passed = effective_stream_duration / self.ix.period;
        let effective_amount_available = effective_periods_passed * self.ix.amount_per_period;

        effective_amount_available + self.funds_unlocked_at_last_rate_change
    }

    /// The cliff amount available at `now`: all of `cliff_amount` once the
    /// cliff timestamp has passed, unless an open pause predates the cliff;
    /// otherwise 0.
    pub open spec fn spec_cliff_available(self, now: u64) -> u64 {
        if self.current_pause_start != 0 && self.current_pause_start < self.ix.cliff {
            0
        } else if now < self.ix.cliff {
            0
        } else {
            self.ix.cliff_amount
        }
    }

    /// Amount of the cliff unlock available at `now`. All-or-nothing: the
    /// result is either 0 or the full cliff amount, never a part of it.
    pub fn cliff_available(&self, now: u64) -> (r: u64)
        ensures
            r == self.spec_cliff_available(now),
            r == 0 || r == self.ix.cliff_amount,
    {
        if self.current_pause_start < self.ix.cliff && self.current_pause_start != 0 {
            return 0;
        }
        if now < self.ix.cliff {
            return 0;
        }
        self.ix.cliff_amount
    }

    /// A record the calculator accepts: the release period is positive
    /// (enforced when a stream is created) and no more than the deposit has
    /// been withdrawn.
    pub open spec fn wf(self) -> bool {
        &&& self.ix.period > 0
        &&& self.amount_withdrawn <= self.ix.net_amount_deposited
    }

    /// Nothing is claimable: vesting has not started, nothing was deposited,
    /// or everything was already withdrawn.
    pub open spec fn spec_nothing_claimable(self, now: u64) -> bool {
        ||| self.spec_start_time() > now
        ||| self.ix.net_amount_deposited == 0
        ||| self.ix.net_amount_deposited == self.amount_withdrawn
    }

    /// Past the computed end time with no open pause: the whole remaining
    /// balance is claimable, regardless of period arithmetic.
    pub open spec fn spec_fully_vested(self, now: u64) -> bool {
        now >= self.end_time && self.current_pause_start == 0
    }

    /// The amount claimable at `now` under the given fee percentage: 0 when
    /// nothing is claimable; the whole remaining balance once fully vested;
    /// otherwise the fee shares of the vested and cliff amounts, less what
    /// was already withdrawn.
    pub open spec fn spec_available_to_claim(self, now: u64, scaled_percentage: u64) -> int {
        if self.spec_nothing_claimable(now) {
            0
        } else if self.spec_fully_vested(now) {
            self.ix.net_amount_deposited - self.amount_withdrawn
        } else {
            spec_fee_from_amount(self.spec_vested_available(now), scaled_percentage)
                + spec_fee_from_amount(self.spec_cliff_available(now) as int, scaled_percentage)
                - self.amount_withdrawn
        }
    }

    /// The inputs on which the claimable amount is computed without leaving
    /// `u64`. Only the general branch computes: there, the vested amount must
    /// be in range, each fee share and their sum must fit, and the sum must
    /// cover what was already withdrawn.
    pub open spec fn claim_in_range(self, now: u64, scaled_percentage: u64) -> bool {
        (!self.spec_nothing_claimable(now) && !self.spec_fully_vested(now)) ==> {
            let vested_fee = spec_fee_from_amount(self.spec_vested_available(now),
                scaled_percentage);
            let cliff_fee = spec_fee_from_amount(self.spec_cliff_available(now) as int,
                scaled_percentage);
            &&& self.vested_in_range(now)
            &&& vested_fee <= u64::MAX
            &&& vested_fee + cliff_fee <= u64::MAX
            &&& self.amount_withdrawn <= vested_fee + cliff_fee
        }
    }

    /// The amount the recipient may claim at `now`, with the fee percentage
    /// (in the fixed-point scale of [`FEE_PRECISION_FACTOR`]) applied to the
    /// vested and cliff amounts separately before the already withdrawn
    /// amount is subtracted.
    pub fn available_to_claim(&self, now: u64, scaled_percentage: u64) -> (r: u64)
        requires
            self.wf(),
            self.claim_in_range(now, scaled_percentage),
        ensures
            r == self.spec_available_to_claim(now, scaled_percentage),
    {
        if self.start_time() > now
            || self.ix.net_amount_deposited == 0
            || self.ix.net_amount_deposited == self.amount_withdrawn
        {
            return 0;
        }
        if now >= self.end_time && self.current_pause_start == 0 {
            return self.ix.net_amount_deposited - self.amount_withdrawn;
        }

        let vested_available =
            calculate_fee_from_amount(self.vested_available(now), scaled_percentage);
        let cliff_available = calculate_fee_from_amount(self.cliff_available(now), scaled_percentage);
        let sum_available = vested_available + cliff_available;
        sum_available - self.amount_withdrawn
    }

    /// [`Self::vested_available`] with the range conditions tested instead
    /// of assumed: `None` exactly where the computation would leave `u64`,
    /// the vested amount otherwise.
    pub fn checked_vested_available(&self, now: u64) -> (r: Option<u64>)
        requires
            self.ix.period > 0,
        ensures
            match r {
                Some(v) => self.vested_in_range(now) && v == self.spec_vested_available(now),
                None => !self.vested_in_range(now),
            },
    {
        let start = self.start_time();
        if self.current_pause_start != 0 && self.current_pause_start < start {
            return Some(0);
        }
        if self.current_pause_start > 0 {
            let reach: u128 = self.pause_cumulative as u128 + now as u128;
            if reach > u64::MAX as u128 {
                return None;
            }
            if self.current_pause_start as u128 > reach {
                return None;
            }
        }
        let pause = self.pause_time(now);
        let effective_start = self.effective_start_time();
        if now < effective_start || now - effective_start < pause {
            return None;
        }
        let duration = now - effective_start - pause;
        let periods = duration / self.ix.period;
        proof {
            assert(periods * self.ix.amount_per_period <= u64::MAX * u64::MAX)
                by (nonlinear_arith)
                requires
                    periods <= u64::MAX,
                    self.ix.amount_per_period <= u64::MAX,
            ;
        }
        let accrued: u128 = periods as u128 * self.ix.amount_per_period as u128;
        if accrued > u64::MAX as u128 - self.funds_unlocked_at_last_rate_change as u128 {
            return None;
        }
        Some(accrued as u64 + self.funds_unlocked_at_last_rate_change)
    }

    /// [`Self::available_to_claim`] with the range conditions tested instead
    /// of assumed: `None` exactly where the computation would leave `u64`,
    /// the claimable amount otherwise.
    pub fn checked_available_to_claim(&self, now: u64, scaled_percentage: u64) -> (r: Option<
        u64,
    >)
        requires
            self.wf(),
        ensures
            match r {
                Some(v) => self.claim_in_range(now, scaled_percentage) && v
                    == self.spec_available_to_claim(now, scaled_percentage),
                None => !self.claim_in_range(now, scaled_percentage),
            },
    {
        if self.start_time() > now
            || self.ix.net_amount_deposited == 0
            || self.ix.net_amount_deposited == self.amount_withdrawn
        {
            return Some(0);
        }
        if now >= self.end_time && self.current_pause_start == 0 {
            return Some(self.ix.net_amount_deposited - self.amount_withdrawn);
        }
        let vested = match self.checked_vested_available(now) {
            Some(v) => v,
            None => {
                return None;
            },
        };
        let cliff = self.cliff_available(now);
        proof {
            assert(vested * scaled_percentage <= u64::MAX * u64::MAX) by (nonlinear_arith)
                requires
                    vested <= u64::MAX,
                    scaled_percentage <= u64::MAX,
            ;
            assert(cliff * scaled_percentage <= u64::MAX * u64::MAX) by (nonlinear_arith)
                requires
                    cliff <= u64::MAX,
                    scaled_percentage <= u64::MAX,
            ;
        }
        let vested_fee: u128 = if scaled_percentage == 0 {
            0
        } else {
            vested as u128 * scaled_percentage as u128 / (FEE_PRECISION_FACTOR as u128)
        };
        let cliff_fee: u128 = if scaled_percentage == 0 {
            0
        } else {
            cliff as u128 * scaled_percentage as u128 / (FEE_PRECISION_FACTOR as u128)
        };
        let sum_available: u128 = vested_fee + cliff_fee;
        if sum_available > u64::MAX as u128 {
            return None;
        }
        if (sum_available as u64) < self.amount_withdrawn {
            return None;
        }
        Some(sum_available as u64 - self.amount_withdrawn)
    }
}

/// Law: with the record fixed, the vested amount never decreases as time
/// advances. Across an open pause it stays frozen, the boundary case of not
/// decreasing.
pub proof fn lemma_vested_available_monotonic(c: Contract, t1: u64, t2: u64)
    requires
        c.ix.period > 0,
        t1 <= t2,
        c.vested_in_range(t1),
        c.vested_in_range(t2),
    ensures
        c.spec_vested_available(t1) <= c.spec_vested_available(t2),
{
    if !c.pause_blocks_vesting() {
        let period = c.ix.period as int;
        let rate = c.ix.amount_per_period as int;
        let d1 = t1 - c.spec_effective_start_time() - c.spec_pause_time(t1);
        let d2 = t2 - c.spec_effective_start_time() - c.spec_pause_time(t2);
        assert(d1 <= d2);
        lemma_div_is_ordered(d1, d2, period);
        lemma_mul_inequality(d1 / period, d2 / period, rate);
    }
}

/// Law: while a pause is open, the vested amount does not move: two queries
/// made during the same open pause return the same value.
pub proof fn lemma_open_pause_freezes_vesting(c: Contract, t1: u64, t2: u64)
    requires
        c.current_pause_start != 0,
        c.current_pause_start <= t1,
        t1 <= t2,
    ensures
        c.spec_vested_available(t1) == c.spec_vested_available(t2),
{
    if !c.pause_blocks_vesting() {
        assert(t1 - c.spec_effective_start_time() - c.spec_pause_time(t1)
            == t2 - c.spec_effective_start_time() - c.spec_pause_time(t2));
    }
}

/// Law: a rate change never retroactively alters already unlocked funds.
/// Until a full period has elapsed under the new rate, the vested amount is
/// exactly the amount frozen at the rate-change checkpoint.
pub proof fn lemma_rate_change_preserves_history(c: Contract, now: u64)
    requires
        c.ix.period > 0,
        !c.pause_blocks_vesting(),
        c.spec_effective_start_time() + c.spec_pause_time(now) <= now,
        now < c.spec_effective_start_time() + c.spec_pause_time(now) + c.ix.period,
    ensures
        c.spec_vested_available(now) == c.funds_unlocked_at_last_rate_change,
{
    let period = c.ix.period as int;
    let duration = now - c.spec_effective_start_time() - c.spec_pause_time(now);
    lemma_basic_div(duration, period);
}

/// Law: once past the end time with no open pause, the claimable amount is
/// the whole remaining balance, whatever the fee percentage.
pub proof fn lemma_fully_vested_claims_remainder(c: Contract, now: u64, scaled_percentage: u64)
    requires
        c.wf(),
        now >= c.end_time,
        c.current_pause_start == 0,
        c.spec_start_time() <= now,
    ensures
        c.spec_available_to_claim(now, scaled_percentage)
            == c.ix.net_amount_deposited - c.amount_withdrawn,
{
}

} // verus!
