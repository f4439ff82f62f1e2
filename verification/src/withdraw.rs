//! Withdrawal of streamed lamports by the stream's receiver.
use vstd::prelude::*;
use crate::accounting::{streamed_by, withdrawable, withdrawable_amount, withdrawable_fits};
use crate::codec::{
    decode_i64_exact, i64_from_le, i64_to_le, i64_to_vec, lemma_i64_exact_roundtrip, read_i64_exact,
};
use crate::error::{Abort, ClockReading, Failure, StreamError};
use crate::payment_stream::{
    decode_stream, encode_stream, lemma_stream_decode_encode, lemma_stream_encode_decode,
    PaymentStreams, StreamState,
};
use crate::pubkey::{same_key, Pubkey};

verus! {

/// The instruction argument of a withdrawal: the lamports to take.
#[derive(Clone, Copy, Debug, PartialEq, Eq, Structural)]
pub struct WithdrawAmount {
    pub amount: i64,
}

impl WithdrawAmount {
    /// Reads the argument from exactly its eight bytes.
    pub fn try_from_slice(b: &[u8]) -> (r: Option<WithdrawAmount>)
        ensures
            r == (match decode_i64_exact(b@) {
                Some(a) => Some(WithdrawAmount { amount: a }),
                None => None,
            }),
    {
        match read_i64_exact(b) {
            Some(a) => Some(WithdrawAmount { amount: a }),
            None => None,
        }
    }

    /// The eight bytes of the argument.
    pub fn try_to_vec(&self) -> (r: Vec<u8>)
        ensures
            r@ == i64_to_le(self.amount),
    {
        i64_to_vec(self.amount)
    }
}

/// What a withdrawal reads of its accounts.
#[derive(Clone, Copy, Debug, PartialEq, Eq)]
pub struct WithdrawAccounts {
    pub program_id: Pubkey,
    /// The owner of the writing account.
    pub writing_owner: Pubkey,
    pub receiver: Pubkey,
    pub receiver_is_signer: bool,
}

/// A withdrawal that passed every check.
pub struct WithdrawPlan {
    /// Lamports to withdraw from the stake account into the writing account and
    /// then move from the writing account to the receiver.
    pub lamports: u64,
    /// The record to store once the stake is delegated again.
    pub stream: PaymentStreams,
}

/// The stream after `amount` lamports were withdrawn and the stake delegated again.
pub open spec fn after_withdraw(s: StreamState, amount: i64) -> StreamState {
    StreamState { lamports_withdrawn: (s.lamports_withdrawn + amount) as i64, is_delegated: true, ..s }
}

/// What a withdrawal does, check by check in the program's order: the receiver
/// must sign, the program must own the writing account, the stored stream must be
/// active and pay this receiver, and the amount must lie within what has streamed
/// and not been withdrawn, on an undelegated stake whose delegation time has come.
pub open spec fn withdraw_outcome(
    acc: WithdrawAccounts,
    stream_data: Seq<u8>,
    instruction_data: Seq<u8>,
    clock: Option<ClockReading>,
) -> Result<(StreamState, u64), Failure> {
    if !acc.receiver_is_signer {
        Err(Failure::Error(StreamError::IncorrectProgramId))
    } else if acc.writing_owner@ != acc.program_id@ {
        Err(Failure::Error(StreamError::IncorrectProgramId))
    } else {
        match decode_stream(stream_data) {
            None => Err(Failure::Abort(Abort::MalformedStreamData)),
            Some(s) => if !s.is_active {
                Err(Failure::Error(StreamError::InvalidInstructionData))
            } else if s.to != acc.receiver@ {
                Err(Failure::Error(StreamError::InvalidAccountData))
            } else {
                match decode_i64_exact(instruction_data) {
                    None => Err(Failure::Abort(Abort::MalformedInstructionData)),
                    Some(amount) => match clock {
                        None => Err(Failure::Error(StreamError::ClockUnavailable)),
                        Some(c) => {
                            let now = c.unix_timestamp;
                            let total = withdrawable(s, now);
                            if !withdrawable_fits(s, now) {
                                Err(Failure::Abort(Abort::ArithmeticOverflow))
                            } else if amount > total || amount < 0 || total < 0 {
                                Err(Failure::Error(StreamError::InsufficientFunds))
                            } else if s.is_delegated {
                                Err(Failure::Error(StreamError::InsufficientFunds))
                            } else if now < s.delegate_time {
                                Err(Failure::Error(StreamError::InvalidArgument))
                            } else {
                                Ok((after_withdraw(s, amount), amount as u64))
                            }
                        },
                    },
                }
            },
        }
    }
}

/// The plan's value, to compare with `withdraw_outcome`.
pub open spec fn withdraw_result_view(r: Result<WithdrawPlan, Failure>) -> Result<(StreamState, u64), Failure> {
    match r {
        Ok(p) => Ok((p.stream@, p.lamports)),
        Err(f) => Err(f),
    }
}

fn withdraw_steps(
    acc: &WithdrawAccounts,
    stream_data: &[u8],
    instruction_data: &[u8],
    clock: Option<ClockReading>,
) -> (r: Result<WithdrawPlan, Failure>)
    ensures
        withdraw_result_view(r) == withdraw_outcome(*acc, stream_data@, instruction_data@, clock),
{
    if !acc.receiver_is_signer {
        return Err(Failure::Error(StreamError::IncorrectProgramId));
    }
    if !same_key(&acc.writing_owner, &acc.program_id) {
        return Err(Failure::Error(StreamError::IncorrectProgramId));
    }
    let mut s = match PaymentStreams::try_from_slice(stream_data) {
        Some(s) => s,
        None => return Err(Failure::Abort(Abort::MalformedStreamData)),
    };
    if !s.is_active {
        return Err(Failure::Error(StreamError::InvalidInstructionData));
    }
    if !same_key(&s.to, &acc.receiver) {
        return Err(Failure::Error(StreamError::InvalidAccountData));
    }
    let input = match WithdrawAmount::try_from_slice(instruction_data) {
        Some(i) => i,
        None => return Err(Failure::Abort(Abort::MalformedInstructionData)),
    };
    let now = match clock {
        Some(c) => c.unix_timestamp,
        None => return Err(Failure::Error(StreamError::ClockUnavailable)),
    };
    let total = match withdrawable_amount(&s, now) {
        Some(t) => t,
        None => return Err(Failure::Abort(Abort::ArithmeticOverflow)),
    };
    if input.amount > total || input.amount < 0 || total < 0 {
        return Err(Failure::Error(StreamError::InsufficientFunds));
    }
    if s.is_delegated {
        return Err(Failure::Error(StreamError::InsufficientFunds));
    }
    if now < s.delegate_time {
        return Err(Failure::Error(StreamError::InvalidArgument));
    }
    let ghost before = s@;
    s.lamports_withdrawn = s.lamports_withdrawn + input.amount;
    s.is_delegated = true;
    assert(s@ =~= after_withdraw(before, input.amount));
    Ok(WithdrawPlan { lamports: input.amount as u64, stream: s })
}

/// Withdrawal on inputs where the program does not abort.
pub fn withdraw(
    acc: &WithdrawAccounts,
    stream_data: &[u8],
    instruction_data: &[u8],
    clock: Option<ClockReading>,
) -> (r: Result<WithdrawPlan, StreamError>)
    requires
        !(withdraw_outcome(*acc, stream_data@, instruction_data@, clock) matches Err(Failure::Abort(_))),
    ensures
        match r {
            Ok(p) => withdraw_outcome(*acc, stream_data@, instruction_data@, clock) == Ok::<(StreamState, u64), Failure>((p.stream@, p.lamports)),
            Err(e) => withdraw_outcome(*acc, stream_data@, instruction_data@, clock) == Err::<(StreamState, u64), Failure>(Failure::Error(e)),
        },
{
    match withdraw_steps(acc, stream_data, instruction_data, clock) {
        Ok(p) => Ok(p),
        Err(Failure::Error(e)) => Err(e),
        Err(Failure::Abort(_)) => Err(StreamError::InvalidInstructionData),
    }
}

/// Withdrawal on any input: reports the abort where the program aborts.
pub fn try_withdraw(
    acc: &WithdrawAccounts,
    stream_data: &[u8],
    instruction_data: &[u8],
    clock: Option<ClockReading>,
) -> (r: Result<WithdrawPlan, Failure>)
    ensures
        withdraw_result_view(r) == withdraw_outcome(*acc, stream_data@, instruction_data@, clock),
{
    withdraw_steps(acc, stream_data, instruction_data, clock)
}

/// The writing account's balance after paying out `amount` lamports; the abort
/// where the program's subtraction overflows.
pub fn debit_lamports(balance: u64, amount: u64) -> (r: Result<u64, Abort>)
    ensures
        r == (if amount <= balance {
            Ok::<u64, Abort>((balance - amount) as u64)
        } else {
            Err(Abort::ArithmeticOverflow)
        }),
{
    if amount <= balance {
        Ok(balance - amount)
    } else {
        Err(Abort::ArithmeticOverflow)
    }
}

/// The receiver's balance after being paid `amount` lamports; the abort where the
/// program's addition overflows.
pub fn credit_lamports(balance: u64, amount: u64) -> (r: Result<u64, Abort>)
    ensures
        r == (if balance + amount <= u64::MAX {
            Ok::<u64, Abort>((balance + amount) as u64)
        } else {
            Err(Abort::ArithmeticOverflow)
        }),
{
    if amount <= u64::MAX - balance {
        Ok(balance + amount)
    } else {
        Err(Abort::ArithmeticOverflow)
    }
}

/// A withdrawal succeeds only for the signing receiver of an active stream owned
/// by the program, whose stake is not delegated and whose delegation time has
/// come; it pays out a non-negative amount, adds exactly that amount to the
/// recorded withdrawals, keeps the total withdrawn within what has streamed by
/// now, marks the stake delegated and leaves every other field as it was.
pub proof fn law_withdraw_pays_only_streamed(
    acc: WithdrawAccounts,
    stream_data: Seq<u8>,
    instruction_data: Seq<u8>,
    clock: Option<ClockReading>,
)
    requires
        withdraw_outcome(acc, stream_data, instruction_data, clock) is Ok,
    ensures
        ({
            let s = decode_stream(stream_data).unwrap();
            let (n, lamports) = withdraw_outcome(acc, stream_data, instruction_data, clock).unwrap();
            let now = clock.unwrap().unix_timestamp;
            &&& acc.receiver_is_signer
            &&& acc.writing_owner@ == acc.program_id@
            &&& s.to == acc.receiver@
            &&& s.is_active
            &&& !s.is_delegated
            &&& s.delegate_time <= now
            &&& n.lamports_withdrawn == s.lamports_withdrawn + lamports
            &&& s.lamports_withdrawn <= n.lamports_withdrawn <= streamed_by(s, now)
            &&& n.is_delegated
            &&& n == StreamState { lamports_withdrawn: n.lamports_withdrawn, is_delegated: true, ..s }
        }),
{
}

/// Lamports streamed from `start_time` until `now` (stopping at `end_time`) and
/// not yet withdrawn, written out.
pub open spec fn streamed_and_left(s: StreamState, now: i64) -> int {
    let until: int = if now <= s.end_time { now as int } else { s.end_time as int };
    s.amount_second * (until - s.start_time) - s.lamports_withdrawn
}

/// A completed withdrawal was asked for by the signing receiver of an active,
/// undelegated stream owned by the program, whose delegation time has come; it
/// pays exactly the amount its eight instruction bytes hold, which lies between
/// zero and what has streamed by now and not been withdrawn, and adds exactly
/// that amount to the recorded withdrawals.
pub proof fn law_withdraw_pays_requested_amount(
    acc: WithdrawAccounts,
    stream_data: Seq<u8>,
    instruction_data: Seq<u8>,
    clock: Option<ClockReading>,
)
    requires
        withdraw_outcome(acc, stream_data, instruction_data, clock) is Ok,
    ensures
        ({
            let s = decode_stream(stream_data).unwrap();
            let now = clock.unwrap().unix_timestamp;
            let (n, lamports) = withdraw_outcome(acc, stream_data, instruction_data, clock).unwrap();
            let a = i64_from_le(instruction_data);
            &&& acc.receiver_is_signer
            &&& acc.writing_owner@ == acc.program_id@
            &&& s.is_active && !s.is_delegated && s.to == acc.receiver@
            &&& s.delegate_time <= now
            &&& instruction_data.len() == 8
            &&& 0 <= a <= streamed_and_left(s, now)
            &&& lamports as int == a
            &&& n.lamports_withdrawn == s.lamports_withdrawn + a
        }),
{
}

/// The refusals of a withdrawal, in the order the checks run: a missing receiver
/// signature or a writing account the program does not own (incorrect program),
/// unreadable stream bytes (abort), an inactive stream (invalid instruction data),
/// another receiver (invalid account data), argument bytes that are not eight
/// (abort), no clock, an amount outside zero to what has streamed and not been
/// withdrawn (insufficient funds), a delegated stake (insufficient funds), and a
/// delegation time still to come (invalid argument).
pub proof fn law_withdraw_refusals(
    acc: WithdrawAccounts,
    stream_data: Seq<u8>,
    instruction_data: Seq<u8>,
    clock: Option<ClockReading>,
)
    ensures
        ({
            let r = withdraw_outcome(acc, stream_data, instruction_data, clock);
            let ok_accounts = acc.receiver_is_signer && acc.writing_owner@ == acc.program_id@;
            let s = decode_stream(stream_data).unwrap();
            let stream_ok = ok_accounts && decode_stream(stream_data) is Some && s.is_active
                && s.to == acc.receiver@;
            let now = clock.unwrap().unix_timestamp;
            let a = i64_from_le(instruction_data);
            let until: int = if now <= s.end_time { now as int } else { s.end_time as int };
            let seconds = until - s.start_time;
            let streamed = s.amount_second * seconds;
            let left = streamed - s.lamports_withdrawn;
            let fits = i64::MIN <= seconds <= i64::MAX && i64::MIN <= streamed <= i64::MAX
                && i64::MIN <= left <= i64::MAX;
            let amount_ok = stream_ok && instruction_data.len() == 8 && clock is Some && fits;
            &&& !acc.receiver_is_signer ==> r == Err::<(StreamState, u64), Failure>(Failure::Error(StreamError::IncorrectProgramId))
            &&& acc.receiver_is_signer && acc.writing_owner@ != acc.program_id@
                ==> r == Err::<(StreamState, u64), Failure>(Failure::Error(StreamError::IncorrectProgramId))
            &&& ok_accounts && decode_stream(stream_data) is None
                ==> r == Err::<(StreamState, u64), Failure>(Failure::Abort(Abort::MalformedStreamData))
            &&& ok_accounts && decode_stream(stream_data) is Some && !s.is_active
                ==> r == Err::<(StreamState, u64), Failure>(Failure::Error(StreamError::InvalidInstructionData))
            &&& ok_accounts && decode_stream(stream_data) is Some && s.is_active && s.to != acc.receiver@
                ==> r == Err::<(StreamState, u64), Failure>(Failure::Error(StreamError::InvalidAccountData))
            &&& stream_ok && instruction_data.len() != 8
                ==> r == Err::<(StreamState, u64), Failure>(Failure::Abort(Abort::MalformedInstructionData))
            &&& stream_ok && instruction_data.len() == 8 && clock is None
                ==> r == Err::<(StreamState, u64), Failure>(Failure::Error(StreamError::ClockUnavailable))
            &&& stream_ok && instruction_data.len() == 8 && clock is Some && !fits
                ==> r == Err::<(StreamState, u64), Failure>(Failure::Abort(Abort::ArithmeticOverflow))
            &&& amount_ok && (a > left || a < 0 || left < 0)
                ==> r == Err::<(StreamState, u64), Failure>(Failure::Error(StreamError::InsufficientFunds))
            &&& amount_ok && 0 <= a <= left && s.is_delegated
                ==> r == Err::<(StreamState, u64), Failure>(Failure::Error(StreamError::InsufficientFunds))
            &&& amount_ok && 0 <= a <= left && !s.is_delegated && now < s.delegate_time
                ==> r == Err::<(StreamState, u64), Failure>(Failure::Error(StreamError::InvalidArgument))
        }),
{
}

/// Every amount between zero and what has streamed by now and not been
/// withdrawn is paid out in full, when the signing receiver asks for it on an
/// active, undelegated stream owned by the program whose delegation time has come.
pub proof fn law_withdraw_accepts_streamed_amounts(
    acc: WithdrawAccounts,
    stream_data: Seq<u8>,
    a: i64,
    c: ClockReading,
)
    requires
        acc.receiver_is_signer,
        acc.writing_owner@ == acc.program_id@,
        decode_stream(stream_data) is Some,
        ({
            let s = decode_stream(stream_data).unwrap();
            let now = c.unix_timestamp;
            let until: int = if now <= s.end_time { now as int } else { s.end_time as int };
            let seconds = until - s.start_time;
            let streamed = s.amount_second * seconds;
            let left = streamed - s.lamports_withdrawn;
            &&& s.is_active
            &&& s.to == acc.receiver@
            &&& !s.is_delegated
            &&& s.delegate_time <= now
            &&& i64::MIN <= seconds <= i64::MAX
            &&& i64::MIN <= streamed <= i64::MAX
            &&& i64::MIN <= left <= i64::MAX
            &&& 0 <= a <= left
        }),
    ensures
        ({
            let s = decode_stream(stream_data).unwrap();
            withdraw_outcome(acc, stream_data, i64_to_le(a), Some(c)) == Ok::<(StreamState, u64), Failure>((
                StreamState { lamports_withdrawn: (s.lamports_withdrawn + a) as i64, is_delegated: true, ..s },
                a as u64,
            ))
        }),
{
    lemma_i64_exact_roundtrip(a, i64_to_le(a));
    let s = decode_stream(stream_data).unwrap();
    assert(withdraw_outcome(acc, stream_data, i64_to_le(a), Some(c)).unwrap().0
        =~= StreamState { lamports_withdrawn: (s.lamports_withdrawn + a) as i64, is_delegated: true, ..s });
}

/// A stream whose stake is delegated admits no withdrawal.
proof fn lemma_delegated_refuses_withdraw(
    acc: WithdrawAccounts,
    stream_data: Seq<u8>,
    instruction_data: Seq<u8>,
    clock: Option<ClockReading>,
)
    requires
        decode_stream(stream_data) matches Some(s) && s.is_delegated,
    ensures
        !(withdraw_outcome(acc, stream_data, instruction_data, clock) is Ok),
{
}

/// The record a withdrawal stores reads back as a stream whose stake is delegated,
/// so a second withdrawal on it is refused until the stake is unstaked.
pub proof fn law_no_second_withdraw_before_unstake(
    acc: WithdrawAccounts,
    stream_data: Seq<u8>,
    instruction_data: Seq<u8>,
    clock: Option<ClockReading>,
    acc2: WithdrawAccounts,
    instruction_data2: Seq<u8>,
    clock2: Option<ClockReading>,
)
    requires
        withdraw_outcome(acc, stream_data, instruction_data, clock) is Ok,
    ensures
        !(withdraw_outcome(
            acc2,
            encode_stream(withdraw_outcome(acc, stream_data, instruction_data, clock).unwrap().0),
            instruction_data2,
            clock2,
        ) is Ok),
{
    lemma_stream_decode_encode(stream_data);
    let n = withdraw_outcome(acc, stream_data, instruction_data, clock).unwrap().0;
    assert(n.storable());
    assert(n.is_delegated);
    lemma_stream_encode_decode(n);
    lemma_delegated_refuses_withdraw(acc2, encode_stream(n), instruction_data2, clock2);
}

} // verus!
