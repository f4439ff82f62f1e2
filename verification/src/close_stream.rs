//! Closing of a stream by its sender.
use vstd::prelude::*;
use crate::accounting::{
    fits_i64, streamed_by, total_streamed, total_streamed_amount, total_streamed_fits,
    withdrawable, withdrawable_amount, withdrawable_fits,
};
use crate::error::{Abort, ClockReading, Failure, StreamError};
use crate::payment_stream::{decode_stream, PaymentStreams, StreamState};
use crate::pubkey::{same_key, Pubkey};

verus! {

/// The instruction argument of a close: the receiver's share of the stake's
/// yield, in percent.
#[derive(Clone, Copy, Debug, PartialEq, Eq, Structural)]
pub struct ReciverRewardPercentage {
    pub percentage: u8,
}

/// The percentage held by exactly one byte.
pub open spec fn decode_percentage(b: Seq<u8>) -> Option<u8> {
    if b.len() == 1 {
        Some(b[0])
    } else {
        None
    }
}

impl ReciverRewardPercentage {
    /// Reads the argument from exactly its one byte.
    pub fn try_from_slice(b: &[u8]) -> (r: Option<ReciverRewardPercentage>)
        ensures
            r == (match decode_percentage(b@) {
                Some(p) => Some(ReciverRewardPercentage { percentage: p }),
                None => None,
            }),
    {
        if b.len() == 1 {
            Some(ReciverRewardPercentage { percentage: b[0] })
        } else {
            None
        }
    }

    /// The one byte of the argument.
    pub fn try_to_vec(&self) -> (r: Vec<u8>)
        ensures
            r@ == seq![self.percentage],
    {
        let mut v: Vec<u8> = Vec::new();
        v.push(self.percentage);
        assert(v@ =~= seq![self.percentage]);
        v
    }
}

/// What a close reads of its accounts.
#[derive(Clone, Copy, Debug, PartialEq, Eq)]
pub struct CloseAccounts {
    pub program_id: Pubkey,
    /// The owner of the administrator account.
    pub administrator_owner: Pubkey,
    /// The owner of the writing account.
    pub writing_owner: Pubkey,
    pub sender: Pubkey,
    pub sender_is_signer: bool,
    pub receiver: Pubkey,
    /// The writing account's balance.
    pub writing_lamports: u64,
}

/// A close that passed every check.
pub struct ClosePlan {
    /// Amount of the transfer from the writing account to the receiver that the
    /// program builds (it does not submit it).
    pub receiver_lamports: u64,
    /// Amount of the transfer from the writing account to the sender that the
    /// program builds (it does not submit it).
    pub sender_lamports: u64,
    /// The record to store.
    pub stream: PaymentStreams,
}

/// The stream after closing, with `withdrawn` lamports recorded as withdrawn.
pub open spec fn after_close(s: StreamState, withdrawn: i64) -> StreamState {
    StreamState { lamports_withdrawn: withdrawn, is_active: false, ..s }
}

/// The receiver's share of the yield as a whole number: 1 at 100 percent and 0
/// below, which is the program's `(percentage / 100)` truncated to an integer.
pub open spec fn reward_factor(percentage: u8) -> i64 {
    (percentage / 100) as i64
}

/// The amounts of a close, computed once the stream and the sysvars are read:
/// the stream's unwithdrawn amount up to now (zero before it starts), the
/// account's yield beyond the streamed total and the rent, and from these the two
/// transfer amounts and the final record. `Err` marks an overflow.
pub open spec fn close_amounts(s: StreamState, percentage: u8, now: i64, rent: u64, balance: u64) -> Result<(StreamState, u64, u64), Abort> {
    let started = now > s.start_time;
    let rent_taken = rent as i64;
    if started && !withdrawable_fits(s, now) {
        Err(Abort::ArithmeticOverflow)
    } else if balance > i64::MAX {
        Err(Abort::ArithmeticOverflow)
    } else if !total_streamed_fits(s) {
        Err(Abort::ArithmeticOverflow)
    } else {
        let streamed: int = if started { withdrawable(s, now) } else { 0 };
        let total = total_streamed(s);
        let yield_less_total = balance - total;
        let yield_earned = yield_less_total - rent_taken;
        let factor = reward_factor(percentage);
        let reward_receiver = yield_earned * factor;
        let reward_sender = yield_earned - factor;
        let to_receiver = streamed + reward_receiver;
        let sender_a = rent_taken + total;
        let sender_b = sender_a - streamed;
        let to_sender = sender_b + reward_sender;
        let withdrawn = s.lamports_withdrawn + streamed;
        if !fits_i64(yield_less_total) || !fits_i64(yield_earned) || !fits_i64(reward_sender)
            || !fits_i64(to_receiver) || !fits_i64(sender_a) || !fits_i64(sender_b)
            || !fits_i64(to_sender) || !fits_i64(withdrawn) {
            Err(Abort::ArithmeticOverflow)
        } else {
            Ok(
                (
                    after_close(s, withdrawn as i64),
                    (to_receiver as i64) as u64,
                    (to_sender as i64) as u64,
                ),
            )
        }
    }
}

/// What a close does, in the program's order: the sender signs, the program owns
/// the writing account or the administrator account, the stored stream pays from
/// this sender to this receiver and is active, and the percentage is at most 100;
/// then the amounts of `close_amounts`.
pub open spec fn close_outcome(
    acc: CloseAccounts,
    stream_data: Seq<u8>,
    instruction_data: Seq<u8>,
    clock: Option<ClockReading>,
    rent: Option<u64>,
) -> Result<(StreamState, u64, u64), Failure> {
    if !acc.sender_is_signer {
        Err(Failure::Error(StreamError::IncorrectProgramId))
    } else if acc.writing_owner@ != acc.program_id@ && acc.administrator_owner@ != acc.program_id@ {
        Err(Failure::Error(StreamError::IncorrectProgramId))
    } else {
        match decode_stream(stream_data) {
            None => Err(Failure::Abort(Abort::MalformedStreamData)),
            Some(s) => if s.to != acc.receiver@ {
                Err(Failure::Error(StreamError::InvalidAccountData))
            } else if s.from != acc.sender@ {
                Err(Failure::Error(StreamError::InvalidAccountData))
            } else if !s.is_active {
                Err(Failure::Error(StreamError::InvalidInstructionData))
            } else {
                match decode_percentage(instruction_data) {
                    None => Err(Failure::Abort(Abort::MalformedInstructionData)),
                    Some(p) => if p > 100 {
                        Err(Failure::Error(StreamError::InvalidInstructionData))
                    } else {
                        match clock {
                            None => Err(Failure::Error(StreamError::ClockUnavailable)),
                            Some(c) => if c.unix_timestamp > s.start_time && !withdrawable_fits(
                                s,
                                c.unix_timestamp,
                            ) {
                                Err(Failure::Abort(Abort::ArithmeticOverflow))
                            } else {
                                match rent {
                                    None => Err(Failure::Error(StreamError::RentUnavailable)),
                                    Some(r) => match close_amounts(
                                        s,
                                        p,
                                        c.unix_timestamp,
                                        r,
                                        acc.writing_lamports,
                                    ) {
                                        Ok(x) => Ok(x),
                                        Err(a) => Err(Failure::Abort(a)),
                                    },
                                }
                            },
                        }
                    },
                }
            },
        }
    }
}

/// The plan's value, to compare with `close_outcome`.
pub open spec fn close_result_view(r: Result<ClosePlan, Failure>) -> Result<(StreamState, u64, u64), Failure> {
    match r {
        Ok(p) => Ok((p.stream@, p.receiver_lamports, p.sender_lamports)),
        Err(f) => Err(f),
    }
}

fn close_amounts_exec(mut s: PaymentStreams, percentage: u8, now: i64, rent: u64, balance: u64) -> (r: Result<ClosePlan, Abort>)
    requires
        percentage <= 100,
    ensures
        match r {
            Ok(p) => close_amounts(s@, percentage, now, rent, balance) == Ok::<(StreamState, u64, u64), Abort>((p.stream@, p.receiver_lamports, p.sender_lamports)),
            Err(a) => close_amounts(s@, percentage, now, rent, balance) == Err::<(StreamState, u64, u64), Abort>(a),
        },
{
    let ghost s0 = s@;
    let started = now > s.start_time;
    let streamed: i64 = if started {
        match withdrawable_amount(&s, now) {
            Some(x) => x,
            None => return Err(Abort::ArithmeticOverflow),
        }
    } else {
        0
    };
    let rent_taken = rent as i64;
    if balance > 0x7fff_ffff_ffff_ffffu64 {
        return Err(Abort::ArithmeticOverflow);
    }
    let balance = balance as i64;
    let total = match total_streamed_amount(&s) {
        Some(t) => t,
        None => return Err(Abort::ArithmeticOverflow),
    };
    let yield_less_total = match balance.checked_sub(total) {
        Some(x) => x,
        None => return Err(Abort::ArithmeticOverflow),
    };
    let yield_earned = match yield_less_total.checked_sub(rent_taken) {
        Some(x) => x,
        None => return Err(Abort::ArithmeticOverflow),
    };
    let factor: i64 = (percentage / 100) as i64;
    assert(factor == 0 || factor == 1);
    let reward_receiver: i64 = if factor == 0 {
        0
    } else {
        yield_earned
    };
    assert(reward_receiver == yield_earned * factor) by (nonlinear_arith)
        requires
            factor == 0 || factor == 1,
            reward_receiver == (if factor == 0 { 0 } else { yield_earned }),
    ;
    let reward_sender = match yield_earned.checked_sub(factor) {
        Some(x) => x,
        None => return Err(Abort::ArithmeticOverflow),
    };
    let to_receiver = match streamed.checked_add(reward_receiver) {
        Some(x) => x,
        None => return Err(Abort::ArithmeticOverflow),
    };
    let sender_a = match rent_taken.checked_add(total) {
        Some(x) => x,
        None => return Err(Abort::ArithmeticOverflow),
    };
    let sender_b = match sender_a.checked_sub(streamed) {
        Some(x) => x,
        None => return Err(Abort::ArithmeticOverflow),
    };
    let to_sender = match sender_b.checked_add(reward_sender) {
        Some(x) => x,
        None => return Err(Abort::ArithmeticOverflow),
    };
    let withdrawn = match s.lamports_withdrawn.checked_add(streamed) {
        Some(x) => x,
        None => return Err(Abort::ArithmeticOverflow),
    };
    s.lamports_withdrawn = withdrawn;
    s.is_active = false;
    assert(s@ =~= after_close(s0, withdrawn));
    Ok(ClosePlan { receiver_lamports: to_receiver as u64, sender_lamports: to_sender as u64, stream: s })
}

fn close_steps(
    acc: &CloseAccounts,
    stream_data: &[u8],
    instruction_data: &[u8],
    clock: Option<ClockReading>,
    rent: Option<u64>,
) -> (r: Result<ClosePlan, Failure>)
    ensures
        close_result_view(r) == close_outcome(*acc, stream_data@, instruction_data@, clock, rent),
{
    if !acc.sender_is_signer {
        return Err(Failure::Error(StreamError::IncorrectProgramId));
    }
    if !same_key(&acc.writing_owner, &acc.program_id) && !same_key(&acc.administrator_owner, &acc.program_id) {
        return Err(Failure::Error(StreamError::IncorrectProgramId));
    }
    let s = match PaymentStreams::try_from_slice(stream_data) {
        Some(s) => s,
        None => return Err(Failure::Abort(Abort::MalformedStreamData)),
    };
    if !same_key(&s.to, &acc.receiver) {
        return Err(Failure::Error(StreamError::InvalidAccountData));
    }
    if !same_key(&s.from, &acc.sender) {
        return Err(Failure::Error(StreamError::InvalidAccountData));
    }
    if !s.is_active {
        return Err(Failure::Error(StreamError::InvalidInstructionData));
    }
    let input = match ReciverRewardPercentage::try_from_slice(instruction_data) {
        Some(i) => i,
        None => return Err(Failure::Abort(Abort::MalformedInstructionData)),
    };
    if input.percentage > 100 {
        return Err(Failure::Error(StreamError::InvalidInstructionData));
    }
    let now = match clock {
        Some(c) => c.unix_timestamp,
        None => return Err(Failure::Error(StreamError::ClockUnavailable)),
    };
    if now > s.start_time {
        if withdrawable_amount(&s, now).is_none() {
            return Err(Failure::Abort(Abort::ArithmeticOverflow));
        }
    }
    let r = match rent {
        Some(r) => r,
        None => return Err(Failure::Error(StreamError::RentUnavailable)),
    };
    match close_amounts_exec(s, input.percentage, now, r, acc.writing_lamports) {
        Ok(p) => Ok(p),
        Err(a) => Err(Failure::Abort(a)),
    }
}

/// Close on inputs where the program does not abort.
pub fn close_stream(
    acc: &CloseAccounts,
    stream_data: &[u8],
    instruction_data: &[u8],
    clock: Option<ClockReading>,
    rent: Option<u64>,
) -> (r: Result<ClosePlan, StreamError>)
    requires
        !(close_outcome(*acc, stream_data@, instruction_data@, clock, rent) matches Err(Failure::Abort(_))),
    ensures
        match r {
            Ok(p) => close_outcome(*acc, stream_data@, instruction_data@, clock, rent) == Ok::<(StreamState, u64, u64), Failure>((p.stream@, p.receiver_lamports, p.sender_lamports)),
            Err(e) => close_outcome(*acc, stream_data@, instruction_data@, clock, rent) == Err::<(StreamState, u64, u64), Failure>(Failure::Error(e)),
        },
{
    match close_steps(acc, stream_data, instruction_data, clock, rent) {
        Ok(p) => Ok(p),
        Err(Failure::Error(e)) => Err(e),
        Err(Failure::Abort(_)) => Err(StreamError::InvalidInstructionData),
    }
}

/// Close on any input: reports the abort where the program aborts.
pub fn try_close_stream(
    acc: &CloseAccounts,
    stream_data: &[u8],
    instruction_data: &[u8],
    clock: Option<ClockReading>,
    rent: Option<u64>,
) -> (r: Result<ClosePlan, Failure>)
    ensures
        close_result_view(r) == close_outcome(*acc, stream_data@, instruction_data@, clock, rent),
{
    close_steps(acc, stream_data, instruction_data, clock, rent)
}

/// A close that completes was signed by the stream's sender, names its receiver,
/// and finds it active; it leaves the stream inactive with everything streamed up
/// to now recorded as withdrawn (nothing more before the start), and changes
/// nothing else.
pub proof fn law_close_settles_stream(
    acc: CloseAccounts,
    stream_data: Seq<u8>,
    instruction_data: Seq<u8>,
    clock: Option<ClockReading>,
    rent: Option<u64>,
)
    requires
        close_outcome(acc, stream_data, instruction_data, clock, rent) is Ok,
    ensures
        ({
            let s = decode_stream(stream_data).unwrap();
            let n = close_outcome(acc, stream_data, instruction_data, clock, rent).unwrap().0;
            let now = clock.unwrap().unix_timestamp;
            &&& acc.sender_is_signer
            &&& s.from == acc.sender@
            &&& s.to == acc.receiver@
            &&& s.is_active
            &&& !n.is_active
            &&& n.lamports_withdrawn == (if now > s.start_time {
                streamed_by(s, now)
            } else {
                s.lamports_withdrawn as int
            })
            &&& n == StreamState { lamports_withdrawn: n.lamports_withdrawn, is_active: false, ..s }
        }),
{
}

/// The amounts of a close, written out with mathematical integers: what has
/// streamed and not been withdrawn (zero before the start), the stream's total,
/// the yield (balance less total less rent), the receiver's share factor
/// `p / 100` rounded down, the two transfer amounts, and the new withdrawn total.
pub open spec fn close_figures(s: StreamState, p: u8, now: i64, rent: u64, balance: u64) -> (int, int, int, int, int, int, int) {
    let rent_taken = rent as i64;
    let until: int = if now <= s.end_time { now as int } else { s.end_time as int };
    let streamed: int = if now > s.start_time {
        s.amount_second * (until - s.start_time) - s.lamports_withdrawn
    } else {
        0
    };
    let total = s.amount_second * (s.end_time - s.start_time);
    let yield_earned = balance - total - rent_taken;
    let share = (p as int) / 100;
    let to_receiver = streamed + yield_earned * share;
    let to_sender = rent_taken + total - streamed + (yield_earned - share);
    (streamed, total, yield_earned, share, to_receiver, to_sender, s.lamports_withdrawn + streamed)
}

/// A completed close was signed by the stream's sender, names its receiver, finds
/// the stream active, and reads its percentage `p` from exactly one instruction
/// byte, at most 100. It settles with two transfers. The receiver's is what has
/// streamed by now (capped at `end_time`) and not been withdrawn, nothing before
/// the start, plus the yield (the writing account's balance less the stream's
/// total and the rent) times `p / 100` rounded down: no share of the yield below
/// 100 percent. The sender's is the rent plus the total less the receiver's
/// streamed amount, plus the yield less `p / 100` rounded down. Both are taken as
/// unsigned 64-bit values in two's complement. The stream is stored inactive with
/// the streamed amount added to its withdrawals.
pub proof fn law_close_transfers(
    acc: CloseAccounts,
    stream_data: Seq<u8>,
    instruction_data: Seq<u8>,
    clock: Option<ClockReading>,
    rent: Option<u64>,
)
    requires
        close_outcome(acc, stream_data, instruction_data, clock, rent) is Ok,
    ensures
        ({
            let s = decode_stream(stream_data).unwrap();
            let p = instruction_data[0];
            let now = clock.unwrap().unix_timestamp;
            let (n, to_receiver, to_sender) = close_outcome(acc, stream_data, instruction_data, clock, rent).unwrap();
            let (streamed, total, yield_earned, share, r, x, w) = close_figures(s, p, now, rent.unwrap(), acc.writing_lamports);
            &&& acc.sender_is_signer
            &&& s.from == acc.sender@ && s.to == acc.receiver@ && s.is_active
            &&& instruction_data.len() == 1
            &&& p <= 100
            &&& to_receiver == (r as i64) as u64
            &&& to_sender == (x as i64) as u64
            &&& (p < 100 ==> to_receiver == (streamed as i64) as u64)
            &&& (p == 100 ==> to_receiver == ((streamed + yield_earned) as i64) as u64)
            &&& n.lamports_withdrawn == w
            &&& !n.is_active
        }),
{
    let s = decode_stream(stream_data).unwrap();
    let p = instruction_data[0];
    let share = (p as int) / 100;
    let (streamed, total, yield_earned, sh, r, x, w) = close_figures(s, p, clock.unwrap().unix_timestamp, rent.unwrap(), acc.writing_lamports);
    assert(reward_factor(p) == share);
    assert(share == 0 || share == 1);
    assert(yield_earned * share == (if share == 0 { 0 } else { yield_earned })) by (nonlinear_arith)
        requires
            share == 0 || share == 1,
    ;
}

/// A close completes whenever the signing sender closes the active stream they
/// pay to the named receiver, on a writing or administrator account the program
/// owns, with one argument byte of at most 100, both sysvars readable, a balance
/// that is an `i64`, and every intermediate amount an `i64`.
pub proof fn law_close_completes(
    acc: CloseAccounts,
    stream_data: Seq<u8>,
    p: u8,
    c: ClockReading,
    rent: u64,
)
    requires
        acc.sender_is_signer,
        acc.writing_owner@ == acc.program_id@ || acc.administrator_owner@ == acc.program_id@,
        decode_stream(stream_data) is Some,
        p <= 100,
        acc.writing_lamports <= i64::MAX,
        ({
            let s = decode_stream(stream_data).unwrap();
            let now = c.unix_timestamp;
            let rent_taken = rent as i64;
            let until: int = if now <= s.end_time { now as int } else { s.end_time as int };
            let seconds = until - s.start_time;
            let (streamed, total, yield_earned, share, r, x, w) = close_figures(s, p, now, rent, acc.writing_lamports);
            let fits = |v: int| i64::MIN <= v <= i64::MAX;
            &&& s.is_active && s.to == acc.receiver@ && s.from == acc.sender@
            &&& now > s.start_time ==> fits(seconds) && fits(s.amount_second * seconds) && fits(streamed)
            &&& fits(s.end_time - s.start_time) && fits(total)
            &&& fits(acc.writing_lamports - total) && fits(yield_earned) && fits(yield_earned - share)
            &&& fits(r) && fits(rent_taken + total) && fits(rent_taken + total - streamed) && fits(x)
            &&& fits(w)
        }),
    ensures
        close_outcome(acc, stream_data, seq![p], Some(c), Some(rent)) is Ok,
{
    let s = decode_stream(stream_data).unwrap();
    let share = (p as int) / 100;
    let (streamed, total, yield_earned, sh, r, x, w) = close_figures(s, p, c.unix_timestamp, rent, acc.writing_lamports);
    assert(reward_factor(p) == share);
    assert(share == 0 || share == 1);
    assert(yield_earned * share == (if share == 0 { 0 } else { yield_earned })) by (nonlinear_arith)
        requires
            share == 0 || share == 1,
    ;
    assert(decode_percentage(seq![p]) == Some(p));
}

/// The refusals of a close, in the order the checks run: no sender signature, or
/// neither the writing nor the administrator account owned by the program
/// (incorrect program), unreadable stream bytes (abort), another receiver or
/// another sender (invalid account data), an inactive stream (invalid instruction
/// data), argument bytes that are not one (abort), a percentage above 100 (invalid
/// instruction data), and no clock.
pub proof fn law_close_refusals(
    acc: CloseAccounts,
    stream_data: Seq<u8>,
    instruction_data: Seq<u8>,
    clock: Option<ClockReading>,
    rent: Option<u64>,
)
    ensures
        ({
            let r = close_outcome(acc, stream_data, instruction_data, clock, rent);
            let owned = acc.writing_owner@ == acc.program_id@ || acc.administrator_owner@ == acc.program_id@;
            let ok_accounts = acc.sender_is_signer && owned;
            let s = decode_stream(stream_data).unwrap();
            let read = ok_accounts && decode_stream(stream_data) is Some;
            let stream_ok = read && s.to == acc.receiver@ && s.from == acc.sender@ && s.is_active;
            &&& !acc.sender_is_signer ==> r == Err::<(StreamState, u64, u64), Failure>(Failure::Error(StreamError::IncorrectProgramId))
            &&& acc.sender_is_signer && !owned
                ==> r == Err::<(StreamState, u64, u64), Failure>(Failure::Error(StreamError::IncorrectProgramId))
            &&& ok_accounts && decode_stream(stream_data) is None
                ==> r == Err::<(StreamState, u64, u64), Failure>(Failure::Abort(Abort::MalformedStreamData))
            &&& read && s.to != acc.receiver@
                ==> r == Err::<(StreamState, u64, u64), Failure>(Failure::Error(StreamError::InvalidAccountData))
            &&& read && s.to == acc.receiver@ && s.from != acc.sender@
                ==> r == Err::<(StreamState, u64, u64), Failure>(Failure::Error(StreamError::InvalidAccountData))
            &&& read && s.to == acc.receiver@ && s.from == acc.sender@ && !s.is_active
                ==> r == Err::<(StreamState, u64, u64), Failure>(Failure::Error(StreamError::InvalidInstructionData))
            &&& stream_ok && instruction_data.len() != 1
                ==> r == Err::<(StreamState, u64, u64), Failure>(Failure::Abort(Abort::MalformedInstructionData))
            &&& stream_ok && instruction_data.len() == 1 && instruction_data[0] > 100
                ==> r == Err::<(StreamState, u64, u64), Failure>(Failure::Error(StreamError::InvalidInstructionData))
            &&& stream_ok && instruction_data.len() == 1 && instruction_data[0] <= 100 && clock is None
                ==> r == Err::<(StreamState, u64, u64), Failure>(Failure::Error(StreamError::ClockUnavailable))
        }),
{
}

} // verus!
