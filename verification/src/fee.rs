//! The staged transaction-fee schedule: rescheduling, lazy activation, and
//! the per-series snapshots the minting engine takes.

use vstd::prelude::*;

use crate::types::{Contract, ContractError, TimestampSec, TokenSeriesId, TransactionFee};

verus! {

/// A block timestamp in nanoseconds, reduced to whole seconds.
pub open spec fn nanos_to_sec(timestamp: u64) -> TimestampSec {
    (timestamp / 1_000_000_000) as u32
}

/// Reduces a nanosecond timestamp to whole seconds.
pub fn to_sec(timestamp: u64) -> (r: TimestampSec)
    ensures
        r == nanos_to_sec(timestamp),
{
    #[verifier::truncate] ((timestamp / 1_000_000_000) as u32)
}

/// A staged fee is due once the clock reaches its activation time.
pub open spec fn fee_due(f: TransactionFee, now_sec: TimestampSec) -> bool {
    f.next_fee is Some && f.start_time is Some && now_sec >= f.start_time->0
}

/// The schedule after a read at `now_sec`: a due staged fee collapses into
/// the current fee and the stage clears; otherwise nothing moves.
pub open spec fn advanced_fee(f: TransactionFee, now_sec: TimestampSec) -> TransactionFee {
    if fee_due(f, now_sec) {
        TransactionFee { current_fee: f.next_fee->0, next_fee: None, start_time: None }
    } else {
        f
    }
}

/// The schedule after an immediate reschedule: the fee takes effect now and
/// any pending stage is cleared.
pub open spec fn immediate_fee(fee: u16) -> TransactionFee {
    TransactionFee { current_fee: fee, next_fee: None, start_time: None }
}

/// The schedule after staging `fee` for activation at `start_time`.
pub open spec fn staged_fee(f: TransactionFee, fee: u16, start_time: TimestampSec) -> TransactionFee {
    TransactionFee { current_fee: f.current_fee, next_fee: Some(fee), start_time: Some(start_time) }
}

/// Staging a fee leaves the effective fee unchanged before the activation
/// time, and any read at or after it returns the staged fee with the stage
/// cleared.
pub proof fn lemma_fee_staging(
    f: TransactionFee,
    fee: u16,
    start_time: TimestampSec,
    before: TimestampSec,
    at_or_after: TimestampSec,
)
    requires
        before < start_time,
        at_or_after >= start_time,
    ensures
        advanced_fee(staged_fee(f, fee, start_time), before) == staged_fee(f, fee, start_time),
        advanced_fee(staged_fee(f, fee, start_time), before).current_fee == f.current_fee,
        advanced_fee(staged_fee(f, fee, start_time), at_or_after) == immediate_fee(fee),
{
}

impl Contract {
    /// Reschedules the transaction fee. Only the contract owner may call;
    /// the fee must stay below 10000. Without a start time the change is
    /// immediate; with one, it must lie strictly in the future and is staged.
    pub fn set_transaction_fee(
        &mut self,
        caller_id: &String,
        next_fee: u16,
        start_time: Option<TimestampSec>,
        now: u64,
    ) -> (r: Result<(), ContractError>)
        requires
            old(self).wf(),
        ensures
            final(self).wf(),
            final(self).owner_id == old(self).owner_id,
            final(self).treasury_id == old(self).treasury_id,
            final(self).token_series_by_id == old(self).token_series_by_id,
            final(self).market_data_transaction_fee.transaction_fee
                == old(self).market_data_transaction_fee.transaction_fee,
            final(self).tokens == old(self).tokens,
            r is Ok <==> {
                &&& caller_id@ == old(self).owner_id@
                &&& next_fee < 10000
                &&& (start_time is Some ==> start_time->0 > nanos_to_sec(now))
            },
            r is Err ==> *final(self) == *old(self),
            caller_id@ != old(self).owner_id@ ==> r == Err::<(), ContractError>(
                ContractError::OwnerOnly,
            ),
            caller_id@ == old(self).owner_id@ && next_fee >= 10000 ==> r == Err::<
                (),
                ContractError,
            >(ContractError::FeeTooHigh),
            caller_id@ == old(self).owner_id@ && next_fee < 10000 && start_time is Some
                && start_time->0 <= nanos_to_sec(now) ==> r == Err::<(), ContractError>(
                ContractError::StartTimeNotFuture,
            ),
            r is Ok && start_time is None ==> final(self).transaction_fee == immediate_fee(
                next_fee,
            ),
            r is Ok && start_time is Some ==> final(self).transaction_fee == staged_fee(
                old(self).transaction_fee,
                next_fee,
                start_time->0,
            ),
    {
        if !caller_id.eq(&self.owner_id) {
            return Err(ContractError::OwnerOnly);
        }
        if next_fee >= 10_000 {
            return Err(ContractError::FeeTooHigh);
        }
        match start_time {
            None => {
                self.transaction_fee.current_fee = next_fee;
                self.transaction_fee.next_fee = None;
                self.transaction_fee.start_time = None;
                Ok(())
            },
            Some(t) => {
                if t <= to_sec(now) {
                    return Err(ContractError::StartTimeNotFuture);
                }
                self.transaction_fee.next_fee = Some(next_fee);
                self.transaction_fee.start_time = Some(t);
                Ok(())
            },
        }
    }

    /// The authoritative fee: collapses a due staged fee into the current
    /// one, then returns it. Every path that needs the effective fee routes
    /// through this read so staged changes activate exactly once, lazily.
    pub fn calculate_current_transaction_fee(&mut self, now: u64) -> (fee: u128)
        requires
            old(self).wf(),
        ensures
            final(self).wf(),
            final(self).owner_id == old(self).owner_id,
            final(self).treasury_id == old(self).treasury_id,
            final(self).token_series_by_id == old(self).token_series_by_id,
            final(self).market_data_transaction_fee.transaction_fee
                == old(self).market_data_transaction_fee.transaction_fee,
            final(self).tokens == old(self).tokens,
            final(self).transaction_fee == advanced_fee(
                old(self).transaction_fee,
                nanos_to_sec(now),
            ),
            fee == advanced_fee(old(self).transaction_fee, nanos_to_sec(now)).current_fee as u128,
            fee < 10000,
    {
        if self.transaction_fee.next_fee.is_some() {
            let start_time = self.transaction_fee.start_time.unwrap();
            if to_sec(now) >= start_time {
                self.transaction_fee.current_fee = self.transaction_fee.next_fee.unwrap();
                self.transaction_fee.next_fee = None;
                self.transaction_fee.start_time = None;
            }
        }
        self.transaction_fee.current_fee as u128
    }

    /// The fee that applies to a sale of the given series: its snapshot when
    /// the series exists, else the authoritative global fee (advancing it).
    pub fn calculate_market_data_transaction_fee(
        &mut self,
        token_series_id: TokenSeriesId,
        now: u64,
    ) -> (fee: u128)
        requires
            old(self).wf(),
        ensures
            final(self).wf(),
            old(self).valid_series_id(token_series_id) ==> {
                &&& *final(self) == *old(self)
                &&& fee == old(self).market_data_transaction_fee.transaction_fee@[token_series_id
                    as int - 1]
            },
            !old(self).valid_series_id(token_series_id) ==> {
                &&& final(self).transaction_fee == advanced_fee(
                    old(self).transaction_fee,
                    nanos_to_sec(now),
                )
                &&& fee == final(self).transaction_fee.current_fee as u128
                &&& final(self).owner_id == old(self).owner_id
                &&& final(self).treasury_id == old(self).treasury_id
                &&& final(self).token_series_by_id == old(self).token_series_by_id
                &&& final(self).market_data_transaction_fee.transaction_fee == old(
                    self,
                ).market_data_transaction_fee.transaction_fee
                &&& final(self).tokens == old(self).tokens
            },
            fee < 10000,
    {
        if 1 <= token_series_id && token_series_id
            <= self.market_data_transaction_fee.transaction_fee.len() as u64 {
            let idx = (token_series_id - 1) as usize;
            return self.market_data_transaction_fee.transaction_fee[idx];
        }
        self.calculate_current_transaction_fee(now)
    }

    /// The fee schedule as stored, without advancing it.
    pub fn get_transaction_fee(&self) -> (f: &TransactionFee)
        ensures
            *f == self.transaction_fee,
    {
        &self.transaction_fee
    }

    /// The snapshot fee of a series, or the stored current fee when the
    /// series is unknown; a pure read that never advances the schedule.
    pub fn get_market_data_transaction_fee(&self, token_series_id: TokenSeriesId) -> (fee: u128)
        requires
            self.wf(),
        ensures
            self.valid_series_id(token_series_id) ==> fee
                == self.market_data_transaction_fee.transaction_fee@[token_series_id as int - 1],
            !self.valid_series_id(token_series_id) ==> fee
                == self.transaction_fee.current_fee as u128,
            fee < 10000,
    {
        if 1 <= token_series_id && token_series_id
            <= self.market_data_transaction_fee.transaction_fee.len() as u64 {
            let idx = (token_series_id - 1) as usize;
            return self.market_data_transaction_fee.transaction_fee[idx];
        }
        self.transaction_fee.current_fee as u128
    }
}

} // verus!
