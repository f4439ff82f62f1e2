//! Opening of a stream by its sender.
use vstd::prelude::*;
use crate::accounting::fits_i64;
use crate::error::{Abort, ClockReading, Failure, StreamError};
use crate::payment_stream::{decode_stream, PaymentStreams, StreamState};
use crate::pubkey::{same_key, Pubkey};

verus! {

/// What opening a stream reads of its accounts.
#[derive(Clone, Copy, Debug, PartialEq, Eq)]
pub struct CreateAccounts {
    pub program_id: Pubkey,
    /// The owner of the writing account.
    pub writing_owner: Pubkey,
    pub sender: Pubkey,
    pub sender_is_signer: bool,
    pub receiver: Pubkey,
    pub stake: Pubkey,
    /// The writing account's balance.
    pub writing_lamports: u64,
    /// The stake account's balance.
    pub stake_lamports: u64,
}

/// The stream as stored once opened: the requested stream, delegated to the
/// given stake account, active, with nothing withdrawn.
pub open spec fn opened(s: StreamState, stake: Seq<u8>) -> StreamState {
    StreamState {
        is_delegated: true,
        stake_account: stake,
        lamports_withdrawn: 0,
        is_active: true,
        ..s
    }
}

/// What opening a stream does, in the program's order: the sender signs, the
/// program owns the writing account, sender and receiver differ, the requested
/// stream starts no earlier than now, has a non-negative rate, ends after it
/// starts and names this sender or this receiver; and the two accounts hold at
/// least the whole streamed amount plus the rent-exempt minimum.
pub open spec fn create_outcome(
    acc: CreateAccounts,
    instruction_data: Seq<u8>,
    clock: Option<ClockReading>,
    rent: Option<u64>,
) -> Result<StreamState, Failure> {
    if !acc.sender_is_signer {
        Err(Failure::Error(StreamError::IncorrectProgramId))
    } else if acc.writing_owner@ != acc.program_id@ {
        Err(Failure::Error(StreamError::IncorrectProgramId))
    } else if acc.sender@ == acc.receiver@ {
        Err(Failure::Error(StreamError::InvalidInstructionData))
    } else {
        match decode_stream(instruction_data) {
            None => Err(Failure::Abort(Abort::MalformedInstructionData)),
            Some(s) => match clock {
                None => Err(Failure::Error(StreamError::ClockUnavailable)),
                Some(c) => if s.start_time < c.unix_timestamp {
                    Err(Failure::Error(StreamError::InvalidInstructionData))
                } else if s.amount_second < 0 {
                    Err(Failure::Error(StreamError::InvalidInstructionData))
                } else if s.start_time >= s.end_time {
                    Err(Failure::Error(StreamError::InvalidInstructionData))
                } else if s.from != acc.sender@ && s.to != acc.receiver@ {
                    Err(Failure::Error(StreamError::InvalidInstructionData))
                } else {
                    match rent {
                        None => Err(Failure::Error(StreamError::RentUnavailable)),
                        Some(r) => {
                            let total = (s.end_time - s.start_time) * s.amount_second;
                            let held = acc.writing_lamports + acc.stake_lamports;
                            if !fits_i64(s.end_time - s.start_time) || !fits_i64(total) {
                                Err(Failure::Abort(Abort::ArithmeticOverflow))
                            } else if held > u64::MAX || total + r > u64::MAX {
                                Err(Failure::Abort(Abort::ArithmeticOverflow))
                            } else if held < total + r {
                                Err(Failure::Error(StreamError::InvalidAccountData))
                            } else {
                                Ok(opened(s, acc.stake@))
                            }
                        },
                    }
                },
            },
        }
    }
}

/// The result's value, to compare with `create_outcome`.
pub open spec fn create_result_view(r: Result<PaymentStreams, Failure>) -> Result<StreamState, Failure> {
    match r {
        Ok(s) => Ok(s@),
        Err(f) => Err(f),
    }
}

fn create_steps(
    acc: &CreateAccounts,
    instruction_data: &[u8],
    clock: Option<ClockReading>,
    rent: Option<u64>,
) -> (r: Result<PaymentStreams, Failure>)
    ensures
        create_result_view(r) == create_outcome(*acc, instruction_data@, clock, rent),
{
    if !acc.sender_is_signer {
        return Err(Failure::Error(StreamError::IncorrectProgramId));
    }
    if !same_key(&acc.writing_owner, &acc.program_id) {
        return Err(Failure::Error(StreamError::IncorrectProgramId));
    }
    if same_key(&acc.sender, &acc.receiver) {
        return Err(Failure::Error(StreamError::InvalidInstructionData));
    }
    let mut s = match PaymentStreams::try_from_slice(instruction_data) {
        Some(s) => s,
        None => return Err(Failure::Abort(Abort::MalformedInstructionData)),
    };
    let now = match clock {
        Some(c) => c.unix_timestamp,
        None => return Err(Failure::Error(StreamError::ClockUnavailable)),
    };
    if s.start_time < now {
        return Err(Failure::Error(StreamError::InvalidInstructionData));
    }
    if s.amount_second < 0 {
        return Err(Failure::Error(StreamError::InvalidInstructionData));
    }
    if s.start_time >= s.end_time {
        return Err(Failure::Error(StreamError::InvalidInstructionData));
    }
    if !same_key(&s.from, &acc.sender) && !same_key(&s.to, &acc.receiver) {
        return Err(Failure::Error(StreamError::InvalidInstructionData));
    }
    let rent_exemption = match rent {
        Some(r) => r,
        None => return Err(Failure::Error(StreamError::RentUnavailable)),
    };
    let duration = match s.end_time.checked_sub(s.start_time) {
        Some(d) => d,
        None => return Err(Failure::Abort(Abort::ArithmeticOverflow)),
    };
    let total = match duration.checked_mul(s.amount_second) {
        Some(t) => t as u64,
        None => return Err(Failure::Abort(Abort::ArithmeticOverflow)),
    };
    let held = match acc.writing_lamports.checked_add(acc.stake_lamports) {
        Some(h) => h,
        None => return Err(Failure::Abort(Abort::ArithmeticOverflow)),
    };
    let needed = match total.checked_add(rent_exemption) {
        Some(n) => n,
        None => return Err(Failure::Abort(Abort::ArithmeticOverflow)),
    };
    if held < needed {
        return Err(Failure::Error(StreamError::InvalidAccountData));
    }
    let ghost requested = s@;
    s.is_delegated = true;
    s.stake_account = acc.stake;
    s.lamports_withdrawn = 0;
    s.is_active = true;
    assert(s@ =~= opened(requested, acc.stake@));
    Ok(s)
}

/// Opening a stream on inputs where the program does not abort.
pub fn create_stream(
    acc: &CreateAccounts,
    instruction_data: &[u8],
    clock: Option<ClockReading>,
    rent: Option<u64>,
) -> (r: Result<PaymentStreams, StreamError>)
    requires
        !(create_outcome(*acc, instruction_data@, clock, rent) matches Err(Failure::Abort(_))),
    ensures
        match r {
            Ok(s) => create_outcome(*acc, instruction_data@, clock, rent) == Ok::<StreamState, Failure>(s@),
            Err(e) => create_outcome(*acc, instruction_data@, clock, rent) == Err::<StreamState, Failure>(Failure::Error(e)),
        },
{
    match create_steps(acc, instruction_data, clock, rent) {
        Ok(s) => Ok(s),
        Err(Failure::Error(e)) => Err(e),
        Err(Failure::Abort(_)) => Err(StreamError::InvalidInstructionData),
    }
}

/// Opening a stream on any input: reports the abort where the program aborts.
pub fn try_create_stream(
    acc: &CreateAccounts,
    instruction_data: &[u8],
    clock: Option<ClockReading>,
    rent: Option<u64>,
) -> (r: Result<PaymentStreams, Failure>)
    ensures
        create_result_view(r) == create_outcome(*acc, instruction_data@, clock, rent),
{
    create_steps(acc, instruction_data, clock, rent)
}

/// A stream that is opened was requested by its signing sender for a different
/// receiver, starts no earlier than now and ends after it starts, streams at a
/// non-negative rate, and is funded for its whole amount plus rent; it is stored
/// active, delegated to the given stake account, with nothing withdrawn.
pub proof fn law_create_opens_funded_stream(
    acc: CreateAccounts,
    instruction_data: Seq<u8>,
    clock: Option<ClockReading>,
    rent: Option<u64>,
)
    requires
        create_outcome(acc, instruction_data, clock, rent) is Ok,
    ensures
        ({
            let s = decode_stream(instruction_data).unwrap();
            let n = create_outcome(acc, instruction_data, clock, rent).unwrap();
            &&& acc.sender_is_signer
            &&& acc.writing_owner@ == acc.program_id@
            &&& acc.sender@ != acc.receiver@
            &&& clock.unwrap().unix_timestamp <= n.start_time < n.end_time
            &&& n.amount_second >= 0
            &&& n.from == acc.sender@ || n.to == acc.receiver@
            &&& acc.writing_lamports + acc.stake_lamports >= (n.end_time - n.start_time) * n.amount_second + rent.unwrap()
            &&& n.is_active
            &&& n.is_delegated
            &&& n.lamports_withdrawn == 0
            &&& n.stake_account == acc.stake@
            &&& n == opened(s, acc.stake@)
        }),
{
}

/// A stream is opened, exactly as requested but active, delegated to the given
/// stake account and with nothing withdrawn, whenever the signing sender asks for
/// it on a writing account the program owns, for a different receiver, starting
/// no earlier than now and ending after it starts, at a non-negative rate, naming
/// this sender or this receiver, with both sysvars readable, and with the two
/// accounts holding at least the whole streamed amount plus the rent-exempt
/// minimum (all amounts within their machine ranges).
pub proof fn law_create_accepts_funded_requests(
    acc: CreateAccounts,
    instruction_data: Seq<u8>,
    c: ClockReading,
    rent: u64,
)
    requires
        acc.sender_is_signer,
        acc.writing_owner@ == acc.program_id@,
        acc.sender@ != acc.receiver@,
        decode_stream(instruction_data) is Some,
        ({
            let s = decode_stream(instruction_data).unwrap();
            let duration = s.end_time - s.start_time;
            let total = duration * s.amount_second;
            let held = acc.writing_lamports + acc.stake_lamports;
            &&& c.unix_timestamp <= s.start_time < s.end_time
            &&& s.amount_second >= 0
            &&& s.from == acc.sender@ || s.to == acc.receiver@
            &&& duration <= i64::MAX && total <= i64::MAX
            &&& held <= u64::MAX && total + rent <= u64::MAX
            &&& held >= total + rent
        }),
    ensures
        ({
            let s = decode_stream(instruction_data).unwrap();
            create_outcome(acc, instruction_data, Some(c), Some(rent)) == Ok::<StreamState, Failure>(StreamState {
                is_delegated: true,
                stake_account: acc.stake@,
                lamports_withdrawn: 0,
                is_active: true,
                ..s
            })
        }),
{
    let s = decode_stream(instruction_data).unwrap();
    vstd::arithmetic::mul::lemma_mul_nonnegative(s.end_time - s.start_time, s.amount_second as int);
    assert(create_outcome(acc, instruction_data, Some(c), Some(rent)).unwrap() =~= StreamState {
        is_delegated: true,
        stake_account: acc.stake@,
        lamports_withdrawn: 0,
        is_active: true,
        ..s
    });
}

/// The refusals of opening a stream, in the order the checks run: no sender
/// signature or a writing account the program does not own (incorrect program),
/// the same sender and receiver (invalid instruction data), unreadable request
/// bytes (abort), no clock, a start before now, a negative rate, an end not after
/// the start, or neither this sender nor this receiver named (invalid instruction
/// data), no rent sysvar, and funds below the streamed total plus rent (invalid
/// account data).
pub proof fn law_create_refusals(
    acc: CreateAccounts,
    instruction_data: Seq<u8>,
    clock: Option<ClockReading>,
    rent: Option<u64>,
)
    ensures
        ({
            let r = create_outcome(acc, instruction_data, clock, rent);
            let ok_accounts = acc.sender_is_signer && acc.writing_owner@ == acc.program_id@;
            let parties = ok_accounts && acc.sender@ != acc.receiver@;
            let s = decode_stream(instruction_data).unwrap();
            let read = parties && decode_stream(instruction_data) is Some && clock is Some;
            let now = clock.unwrap().unix_timestamp;
            let valid = read && now <= s.start_time && s.amount_second >= 0 && s.start_time < s.end_time
                && (s.from == acc.sender@ || s.to == acc.receiver@);
            let duration = s.end_time - s.start_time;
            let total = duration * s.amount_second;
            let held = acc.writing_lamports + acc.stake_lamports;
            let fits = duration <= i64::MAX && total <= i64::MAX && held <= u64::MAX
                && total + rent.unwrap() <= u64::MAX;
            &&& !acc.sender_is_signer ==> r == Err::<StreamState, Failure>(Failure::Error(StreamError::IncorrectProgramId))
            &&& acc.sender_is_signer && acc.writing_owner@ != acc.program_id@
                ==> r == Err::<StreamState, Failure>(Failure::Error(StreamError::IncorrectProgramId))
            &&& ok_accounts && acc.sender@ == acc.receiver@
                ==> r == Err::<StreamState, Failure>(Failure::Error(StreamError::InvalidInstructionData))
            &&& parties && decode_stream(instruction_data) is None
                ==> r == Err::<StreamState, Failure>(Failure::Abort(Abort::MalformedInstructionData))
            &&& parties && decode_stream(instruction_data) is Some && clock is None
                ==> r == Err::<StreamState, Failure>(Failure::Error(StreamError::ClockUnavailable))
            &&& read && s.start_time < now
                ==> r == Err::<StreamState, Failure>(Failure::Error(StreamError::InvalidInstructionData))
            &&& read && now <= s.start_time && s.amount_second < 0
                ==> r == Err::<StreamState, Failure>(Failure::Error(StreamError::InvalidInstructionData))
            &&& read && now <= s.start_time && s.amount_second >= 0 && s.start_time >= s.end_time
                ==> r == Err::<StreamState, Failure>(Failure::Error(StreamError::InvalidInstructionData))
            &&& read && now <= s.start_time && s.amount_second >= 0 && s.start_time < s.end_time
                && s.from != acc.sender@ && s.to != acc.receiver@
                ==> r == Err::<StreamState, Failure>(Failure::Error(StreamError::InvalidInstructionData))
            &&& valid && rent is None
                ==> r == Err::<StreamState, Failure>(Failure::Error(StreamError::RentUnavailable))
            &&& valid && rent is Some && fits && held < total + rent.unwrap()
                ==> r == Err::<StreamState, Failure>(Failure::Error(StreamError::InvalidAccountData))
        }),
{
}

} // verus!
