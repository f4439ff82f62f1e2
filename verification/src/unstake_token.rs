//! Deactivation of a stream's stake, with a payout recorded against the stream.
use vstd::prelude::*;
use crate::accounting::{
    streamed_by, unstake_limit, unstake_limit_amount, unstake_limit_fits, withdrawable,
    withdrawable_amount, withdrawable_fits,
};
use crate::codec::{
    decode_i64_exact, i64_from_le, i64_to_le, i64_to_vec, lemma_i64_exact_roundtrip, read_i64_exact,
};
use crate::error::{Abort, ClockReading, Failure, StreamError};
use crate::payment_stream::{decode_stream, PaymentStreams, StreamState};
use crate::pubkey::{same_key, Pubkey};
use crate::withdraw::streamed_and_left;

verus! {

/// The instruction argument of an unstake: the lamports to record as withdrawn.
#[derive(Clone, Copy, Debug, PartialEq, Eq, Structural)]
pub struct UnstakeAmount {
    pub amount: i64,
}

impl UnstakeAmount {
    /// Reads the argument from exactly its eight bytes.
    pub fn try_from_slice(b: &[u8]) -> (r: Option<UnstakeAmount>)
        ensures
            r == (match decode_i64_exact(b@) {
                Some(a) => Some(UnstakeAmount { amount: a }),
                None => None,
            }),
    {
        match read_i64_exact(b) {
            Some(a) => Some(UnstakeAmount { amount: a }),
            None => None,
        }
    }

    /// The eight bytes of the argument.
    pub fn try_to_vec(&self) -> (r: Vec<u8>)
        ensures
            r@ == i64_to_le(self.amount),
    {
        i64_to_vec(self.amount)
    }
}

/// What an unstake reads of its accounts.
#[derive(Clone, Copy, Debug, PartialEq, Eq)]
pub struct UnstakeAccounts {
    pub program_id: Pubkey,
    /// The owner of the writing account.
    pub writing_owner: Pubkey,
    pub sender_is_signer: bool,
    pub receiver_is_signer: bool,
}

/// An unstake that passed the checks made before the stake is deactivated.
pub struct UnstakePlan {
    /// Once the stake is deactivated: the record to store, or the error returned.
    pub after_deactivation: Result<PaymentStreams, StreamError>,
}

/// The stream after `amount` lamports were recorded as withdrawn and the stake
/// deactivated at the start of the epoch `epoch_start`.
pub open spec fn after_unstake(s: StreamState, amount: i64, epoch_start: i64) -> StreamState {
    StreamState {
        lamports_withdrawn: (s.lamports_withdrawn + amount) as i64,
        is_delegated: false,
        delegate_time: epoch_start,
        ..s
    }
}

/// What an unstake does, in the program's order. Before deactivating: one of
/// sender and receiver signs, the program owns the writing account, the stream is
/// active and the amount is within `unstake_limit`. `Ok(next)` means: deactivate the
/// stake, then `next`, which requires the amount to lie within what has streamed
/// and not been withdrawn.
pub open spec fn unstake_outcome(
    acc: UnstakeAccounts,
    stream_data: Seq<u8>,
    instruction_data: Seq<u8>,
    clock: Option<ClockReading>,
) -> Result<Result<StreamState, StreamError>, Failure> {
    if !acc.sender_is_signer && !acc.receiver_is_signer {
        Err(Failure::Error(StreamError::IncorrectProgramId))
    } else if acc.writing_owner@ != acc.program_id@ {
        Err(Failure::Error(StreamError::IncorrectProgramId))
    } else {
        match decode_stream(stream_data) {
            None => Err(Failure::Abort(Abort::MalformedStreamData)),
            Some(s) => if !s.is_active {
                Err(Failure::Error(StreamError::InvalidInstructionData))
            } else {
                match decode_i64_exact(instruction_data) {
                    None => Err(Failure::Abort(Abort::MalformedInstructionData)),
                    Some(amount) => match clock {
                        None => Err(Failure::Error(StreamError::ClockUnavailable)),
                        Some(c) => {
                            let now = c.unix_timestamp;
                            let total = withdrawable(s, now);
                            if !unstake_limit_fits(s, now) {
                                Err(Failure::Abort(Abort::ArithmeticOverflow))
                            } else if amount > unstake_limit(s, now) {
                                Err(Failure::Error(StreamError::InvalidArgument))
                            } else if !withdrawable_fits(s, now) {
                                Err(Failure::Abort(Abort::ArithmeticOverflow))
                            } else if amount > total || amount < 0 || total < 0 {
                                Ok(Err(StreamError::InsufficientFunds))
                            } else {
                                Ok(Ok(after_unstake(s, amount, c.epoch_start_timestamp)))
                            }
                        },
                    },
                }
            },
        }
    }
}

/// The plan's value, to compare with `unstake_outcome`.
pub open spec fn unstake_result_view(r: Result<UnstakePlan, Failure>) -> Result<Result<StreamState, StreamError>, Failure> {
    match r {
        Ok(p) => Ok(
            match p.after_deactivation {
                Ok(s) => Ok(s@),
                Err(e) => Err(e),
            },
        ),
        Err(f) => Err(f),
    }
}

fn unstake_steps(
    acc: &UnstakeAccounts,
    stream_data: &[u8],
    instruction_data: &[u8],
    clock: Option<ClockReading>,
) -> (r: Result<UnstakePlan, Failure>)
    ensures
        unstake_result_view(r) == unstake_outcome(*acc, stream_data@, instruction_data@, clock),
{
    if !acc.sender_is_signer && !acc.receiver_is_signer {
        return Err(Failure::Error(StreamError::IncorrectProgramId));
    }
    if !same_key(&acc.writing_owner, &acc.program_id) {
        return Err(Failure::Error(StreamError::IncorrectProgramId));
    }
    let mut s = match PaymentStreams::try_from_slice(stream_data) {
        Some(s) => s,
        None => return Err(Failure::Abort(Abort::MalformedStreamData)),
    };
    if !s.is_active {
        return Err(Failure::Error(StreamError::InvalidInstructionData));
    }
    let input = match UnstakeAmount::try_from_slice(instruction_data) {
        Some(i) => i,
        None => return Err(Failure::Abort(Abort::MalformedInstructionData)),
    };
    let c = match clock {
        Some(c) => c,
        None => return Err(Failure::Error(StreamError::ClockUnavailable)),
    };
    let now = c.unix_timestamp;
    let limit = match unstake_limit_amount(&s, now) {
        Some(t) => t,
        None => return Err(Failure::Abort(Abort::ArithmeticOverflow)),
    };
    if input.amount > limit {
        return Err(Failure::Error(StreamError::InvalidArgument));
    }
    let total = match withdrawable_amount(&s, now) {
        Some(t) => t,
        None => return Err(Failure::Abort(Abort::ArithmeticOverflow)),
    };
    if input.amount > total || input.amount < 0 || total < 0 {
        return Ok(UnstakePlan { after_deactivation: Err(StreamError::InsufficientFunds) });
    }
    let ghost before = s@;
    s.delegate_time = c.epoch_start_timestamp;
    s.is_delegated = false;
    s.lamports_withdrawn = s.lamports_withdrawn + input.amount;
    assert(s@ =~= after_unstake(before, input.amount, c.epoch_start_timestamp));
    Ok(UnstakePlan { after_deactivation: Ok(s) })
}

/// Unstake on inputs where the program does not abort.
pub fn unstake_tokens(
    acc: &UnstakeAccounts,
    stream_data: &[u8],
    instruction_data: &[u8],
    clock: Option<ClockReading>,
) -> (r: Result<UnstakePlan, StreamError>)
    requires
        !(unstake_outcome(*acc, stream_data@, instruction_data@, clock) matches Err(Failure::Abort(_))),
    ensures
        match r {
            Ok(p) => unstake_result_view(Ok(p)) == unstake_outcome(*acc, stream_data@, instruction_data@, clock),
            Err(e) => unstake_outcome(*acc, stream_data@, instruction_data@, clock) == Err::<Result<StreamState, StreamError>, Failure>(Failure::Error(e)),
        },
{
    match unstake_steps(acc, stream_data, instruction_data, clock) {
        Ok(p) => Ok(p),
        Err(Failure::Error(e)) => Err(e),
        Err(Failure::Abort(_)) => Err(StreamError::InvalidInstructionData),
    }
}

/// Unstake on any input: reports the abort where the program aborts.
pub fn try_unstake_tokens(
    acc: &UnstakeAccounts,
    stream_data: &[u8],
    instruction_data: &[u8],
    clock: Option<ClockReading>,
) -> (r: Result<UnstakePlan, Failure>)
    ensures
        unstake_result_view(r) == unstake_outcome(*acc, stream_data@, instruction_data@, clock),
{
    unstake_steps(acc, stream_data, instruction_data, clock)
}

/// An unstake that completes was signed by the sender or the receiver of an active
/// stream owned by the program; it records a non-negative amount that keeps the
/// total withdrawn within what has streamed by now, leaves the stake undelegated
/// with its delegation time at the current epoch's start, and changes nothing else.
pub proof fn law_unstake_records_only_streamed(
    acc: UnstakeAccounts,
    stream_data: Seq<u8>,
    instruction_data: Seq<u8>,
    clock: Option<ClockReading>,
)
    requires
        unstake_outcome(acc, stream_data, instruction_data, clock) matches Ok(Ok(_)),
    ensures
        ({
            let s = decode_stream(stream_data).unwrap();
            let n = unstake_outcome(acc, stream_data, instruction_data, clock).unwrap().unwrap();
            let c = clock.unwrap();
            &&& acc.sender_is_signer || acc.receiver_is_signer
            &&& acc.writing_owner@ == acc.program_id@
            &&& s.is_active
            &&& s.lamports_withdrawn <= n.lamports_withdrawn <= streamed_by(s, c.unix_timestamp)
            &&& !n.is_delegated
            &&& n.delegate_time == c.epoch_start_timestamp
            &&& n == StreamState {
                lamports_withdrawn: n.lamports_withdrawn,
                is_delegated: false,
                delegate_time: c.epoch_start_timestamp,
                ..s
            }
        }),
{
}

/// The conditions under which an unstake of `a` reaches its last check: a
/// signer, the program's account, an active stream, and `a` within the first limit,
/// `(end_time - now) * amount_second - lamports_withdrawn`, with every
/// intermediate amount an `i64`; it then compares `a` with `left`, the lamports
/// streamed by now (capped at `end_time`) and not withdrawn.
pub open spec fn unstake_reaches_balance_check(
    acc: UnstakeAccounts,
    s: StreamState,
    a: i64,
    now: i64,
) -> bool {
    let remaining = s.end_time - now;
    let scaled = remaining * s.amount_second;
    let limit = scaled - s.lamports_withdrawn;
    let until: int = if now <= s.end_time { now as int } else { s.end_time as int };
    let seconds = until - s.start_time;
    let streamed = s.amount_second * seconds;
    let left = streamed - s.lamports_withdrawn;
    &&& acc.sender_is_signer || acc.receiver_is_signer
    &&& acc.writing_owner@ == acc.program_id@
    &&& s.is_active
    &&& i64::MIN <= remaining <= i64::MAX
    &&& i64::MIN <= scaled <= i64::MAX
    &&& i64::MIN <= limit <= i64::MAX
    &&& a <= limit
    &&& i64::MIN <= seconds <= i64::MAX
    &&& i64::MIN <= streamed <= i64::MAX
    &&& i64::MIN <= left <= i64::MAX
}

/// A completed unstake records exactly the amount its eight instruction bytes
/// hold, never a negative one.
pub proof fn law_unstake_records_requested_amount(
    acc: UnstakeAccounts,
    stream_data: Seq<u8>,
    instruction_data: Seq<u8>,
    clock: Option<ClockReading>,
)
    requires
        unstake_outcome(acc, stream_data, instruction_data, clock) matches Ok(Ok(_)),
    ensures
        ({
            let s = decode_stream(stream_data).unwrap();
            let n = unstake_outcome(acc, stream_data, instruction_data, clock).unwrap().unwrap();
            let a = i64_from_le(instruction_data);
            let c = clock.unwrap();
            &&& acc.sender_is_signer || acc.receiver_is_signer
            &&& acc.writing_owner@ == acc.program_id@
            &&& s.is_active
            &&& instruction_data.len() == 8
            &&& unstake_reaches_balance_check(acc, s, a, c.unix_timestamp)
            &&& 0 <= a <= streamed_and_left(s, c.unix_timestamp)
            &&& n.lamports_withdrawn == s.lamports_withdrawn + a
            &&& !n.is_delegated
            &&& n.delegate_time == c.epoch_start_timestamp
        }),
{
}

/// The refusals an unstake gives before it deactivates the stake, in the order
/// the checks run: no signature from sender or receiver, or a writing account the
/// program does not own (incorrect program), unreadable stream bytes (abort), an
/// inactive stream (invalid instruction data), argument bytes that are not eight
/// (abort), no clock, and an amount above `(end_time - now) * amount_second -
/// lamports_withdrawn` (invalid argument).
pub proof fn law_unstake_refusals(
    acc: UnstakeAccounts,
    stream_data: Seq<u8>,
    instruction_data: Seq<u8>,
    clock: Option<ClockReading>,
)
    ensures
        ({
            let r = unstake_outcome(acc, stream_data, instruction_data, clock);
            let signed = acc.sender_is_signer || acc.receiver_is_signer;
            let ok_accounts = signed && acc.writing_owner@ == acc.program_id@;
            let s = decode_stream(stream_data).unwrap();
            let stream_ok = ok_accounts && decode_stream(stream_data) is Some && s.is_active;
            let now = clock.unwrap().unix_timestamp;
            let a = i64_from_le(instruction_data);
            let remaining = s.end_time - now;
            let scaled = remaining * s.amount_second;
            let limit = scaled - s.lamports_withdrawn;
            let fits = i64::MIN <= remaining <= i64::MAX && i64::MIN <= scaled <= i64::MAX
                && i64::MIN <= limit <= i64::MAX;
            &&& !signed ==> r == Err::<Result<StreamState, StreamError>, Failure>(Failure::Error(StreamError::IncorrectProgramId))
            &&& signed && acc.writing_owner@ != acc.program_id@
                ==> r == Err::<Result<StreamState, StreamError>, Failure>(Failure::Error(StreamError::IncorrectProgramId))
            &&& ok_accounts && decode_stream(stream_data) is None
                ==> r == Err::<Result<StreamState, StreamError>, Failure>(Failure::Abort(Abort::MalformedStreamData))
            &&& ok_accounts && decode_stream(stream_data) is Some && !s.is_active
                ==> r == Err::<Result<StreamState, StreamError>, Failure>(Failure::Error(StreamError::InvalidInstructionData))
            &&& stream_ok && instruction_data.len() != 8
                ==> r == Err::<Result<StreamState, StreamError>, Failure>(Failure::Abort(Abort::MalformedInstructionData))
            &&& stream_ok && instruction_data.len() == 8 && clock is None
                ==> r == Err::<Result<StreamState, StreamError>, Failure>(Failure::Error(StreamError::ClockUnavailable))
            &&& stream_ok && instruction_data.len() == 8 && clock is Some && !fits
                ==> r == Err::<Result<StreamState, StreamError>, Failure>(Failure::Abort(Abort::ArithmeticOverflow))
            &&& stream_ok && instruction_data.len() == 8 && clock is Some && fits && a > limit
                ==> r == Err::<Result<StreamState, StreamError>, Failure>(Failure::Error(StreamError::InvalidArgument))
        }),
{
}

/// Once an unstake of `a` reaches its last check, it deactivates the stake and
/// completes for every `a` from zero up to and including what has streamed and
/// not been withdrawn, recording `a` more as withdrawn, the stake undelegated,
/// and the delegation time at the current epoch's start; for any other `a` it
/// deactivates the stake and then fails with insufficient funds.
pub proof fn law_unstake_accepts_exactly_streamed_amounts(
    acc: UnstakeAccounts,
    stream_data: Seq<u8>,
    a: i64,
    c: ClockReading,
)
    requires
        decode_stream(stream_data) is Some,
        unstake_reaches_balance_check(acc, decode_stream(stream_data).unwrap(), a, c.unix_timestamp),
    ensures
        ({
            let s = decode_stream(stream_data).unwrap();
            let now = c.unix_timestamp;
            let until: int = if now <= s.end_time { now as int } else { s.end_time as int };
            let left = s.amount_second * (until - s.start_time) - s.lamports_withdrawn;
            unstake_outcome(acc, stream_data, i64_to_le(a), Some(c)) == if 0 <= a <= left {
                Ok::<Result<StreamState, StreamError>, Failure>(Ok(StreamState {
                    lamports_withdrawn: (s.lamports_withdrawn + a) as i64,
                    is_delegated: false,
                    delegate_time: c.epoch_start_timestamp,
                    ..s
                }))
            } else {
                Ok::<Result<StreamState, StreamError>, Failure>(Err(StreamError::InsufficientFunds))
            }
        }),
{
    lemma_i64_exact_roundtrip(a, i64_to_le(a));
    let s = decode_stream(stream_data).unwrap();
    let now = c.unix_timestamp;
    let until: int = if now <= s.end_time { now as int } else { s.end_time as int };
    let left = s.amount_second * (until - s.start_time) - s.lamports_withdrawn;
    if 0 <= a <= left {
        assert(unstake_outcome(acc, stream_data, i64_to_le(a), Some(c)).unwrap().unwrap() =~= StreamState {
            lamports_withdrawn: (s.lamports_withdrawn + a) as i64,
            is_delegated: false,
            delegate_time: c.epoch_start_timestamp,
            ..s
        });
    }
}

} // verus!
