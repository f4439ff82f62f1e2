//! Properties that hold across the instructions.
use vstd::prelude::*;
use crate::accounting::{elapsed, streamed_by, total_streamed};
use crate::close_stream::{close_outcome, CloseAccounts};
use crate::create_stream::{create_outcome, CreateAccounts};
use crate::error::ClockReading;
use crate::payment_stream::{
    decode_stream, encode_stream, lemma_stream_decode_encode, lemma_stream_encode_decode,
    StreamState,
};
use crate::unstake_token::{unstake_outcome, UnstakeAccounts};
use crate::withdraw::{withdraw_outcome, WithdrawAccounts};

verus! {

/// The accounting invariant of a stream: a non-negative rate over a non-empty
/// period, and a recorded withdrawal between zero and the stream's total.
pub open spec fn well_accounted(s: StreamState) -> bool {
    &&& s.amount_second >= 0
    &&& s.start_time < s.end_time
    &&& 0 <= s.lamports_withdrawn <= total_streamed(s)
}

/// For a non-negative rate, what has streamed by any time lies between zero and
/// the total, once the stream has started.
proof fn lemma_streamed_within_total(s: StreamState, now: i64)
    requires
        s.amount_second >= 0,
        s.start_time < s.end_time,
    ensures
        streamed_by(s, now) <= total_streamed(s),
        now > s.start_time ==> 0 <= streamed_by(s, now),
{
    assert(elapsed(s, now) <= s.end_time - s.start_time);
    vstd::arithmetic::mul::lemma_mul_inequality(
        elapsed(s, now),
        s.end_time - s.start_time,
        s.amount_second as int,
    );
    vstd::arithmetic::mul::lemma_mul_is_commutative(s.amount_second as int, elapsed(s, now));
    vstd::arithmetic::mul::lemma_mul_is_commutative(
        s.amount_second as int,
        s.end_time - s.start_time,
    );
    if now > s.start_time {
        vstd::arithmetic::mul::lemma_mul_nonnegative(s.amount_second as int, elapsed(s, now));
    }
}

/// Every stream that is opened is well accounted.
pub proof fn law_create_establishes_accounting(
    acc: CreateAccounts,
    instruction_data: Seq<u8>,
    clock: Option<ClockReading>,
    rent: Option<u64>,
)
    requires
        create_outcome(acc, instruction_data, clock, rent) is Ok,
    ensures
        well_accounted(create_outcome(acc, instruction_data, clock, rent).unwrap()),
{
    let n = create_outcome(acc, instruction_data, clock, rent).unwrap();
    vstd::arithmetic::mul::lemma_mul_nonnegative(n.amount_second as int, n.end_time - n.start_time);
    vstd::arithmetic::mul::lemma_mul_is_commutative(n.amount_second as int, n.end_time - n.start_time);
}

/// A withdrawal from a well-accounted stream leaves it well accounted.
pub proof fn law_withdraw_keeps_accounting(
    acc: WithdrawAccounts,
    stream_data: Seq<u8>,
    instruction_data: Seq<u8>,
    clock: Option<ClockReading>,
)
    requires
        withdraw_outcome(acc, stream_data, instruction_data, clock) is Ok,
        well_accounted(decode_stream(stream_data).unwrap()),
    ensures
        well_accounted(withdraw_outcome(acc, stream_data, instruction_data, clock).unwrap().0),
{
    let s = decode_stream(stream_data).unwrap();
    lemma_streamed_within_total(s, clock.unwrap().unix_timestamp);
}

/// An unstake on a well-accounted stream leaves it well accounted.
pub proof fn law_unstake_keeps_accounting(
    acc: UnstakeAccounts,
    stream_data: Seq<u8>,
    instruction_data: Seq<u8>,
    clock: Option<ClockReading>,
)
    requires
        unstake_outcome(acc, stream_data, instruction_data, clock) matches Ok(Ok(_)),
        well_accounted(decode_stream(stream_data).unwrap()),
    ensures
        well_accounted(unstake_outcome(acc, stream_data, instruction_data, clock).unwrap().unwrap()),
{
    let s = decode_stream(stream_data).unwrap();
    lemma_streamed_within_total(s, clock.unwrap().unix_timestamp);
}

/// Closing a well-accounted stream leaves it well accounted.
pub proof fn law_close_keeps_accounting(
    acc: CloseAccounts,
    stream_data: Seq<u8>,
    instruction_data: Seq<u8>,
    clock: Option<ClockReading>,
    rent: Option<u64>,
)
    requires
        close_outcome(acc, stream_data, instruction_data, clock, rent) is Ok,
        well_accounted(decode_stream(stream_data).unwrap()),
    ensures
        well_accounted(close_outcome(acc, stream_data, instruction_data, clock, rent).unwrap().0),
{
    let s = decode_stream(stream_data).unwrap();
    lemma_streamed_within_total(s, clock.unwrap().unix_timestamp);
}

/// An inactive stream admits no withdrawal, unstake or close.
proof fn lemma_inactive_refuses(
    stream_data: Seq<u8>,
    wacc: WithdrawAccounts,
    uacc: UnstakeAccounts,
    cacc: CloseAccounts,
    instruction_data: Seq<u8>,
    clock: Option<ClockReading>,
    rent: Option<u64>,
)
    requires
        decode_stream(stream_data) matches Some(s) && !s.is_active,
    ensures
        !(withdraw_outcome(wacc, stream_data, instruction_data, clock) is Ok),
        !(unstake_outcome(uacc, stream_data, instruction_data, clock) is Ok),
        !(close_outcome(cacc, stream_data, instruction_data, clock, rent) is Ok),
{
}

/// Once closed, a stream stays closed: the record a close stores admits no
/// further withdrawal, unstake or close.
pub proof fn law_closed_stream_stays_closed(
    acc: CloseAccounts,
    stream_data: Seq<u8>,
    instruction_data: Seq<u8>,
    clock: Option<ClockReading>,
    rent: Option<u64>,
    wacc: WithdrawAccounts,
    uacc: UnstakeAccounts,
    cacc: CloseAccounts,
    instruction_data2: Seq<u8>,
    clock2: Option<ClockReading>,
    rent2: Option<u64>,
)
    requires
        close_outcome(acc, stream_data, instruction_data, clock, rent) is Ok,
    ensures
        ({
            let stored = encode_stream(close_outcome(acc, stream_data, instruction_data, clock, rent).unwrap().0);
            &&& !(withdraw_outcome(wacc, stored, instruction_data2, clock2) is Ok)
            &&& !(unstake_outcome(uacc, stored, instruction_data2, clock2) is Ok)
            &&& !(close_outcome(cacc, stored, instruction_data2, clock2, rent2) is Ok)
        }),
{
    lemma_stream_decode_encode(stream_data);
    let n = close_outcome(acc, stream_data, instruction_data, clock, rent).unwrap().0;
    assert(n.storable());
    lemma_stream_encode_decode(n);
    lemma_inactive_refuses(encode_stream(n), wacc, uacc, cacc, instruction_data2, clock2, rent2);
}

/// The record every instruction stores reads back, at the next instruction, as
/// the stream it stored.
pub proof fn law_stored_records_read_back(
    cacc: CreateAccounts,
    wacc: WithdrawAccounts,
    uacc: UnstakeAccounts,
    xacc: CloseAccounts,
    stream_data: Seq<u8>,
    instruction_data: Seq<u8>,
    clock: Option<ClockReading>,
    rent: Option<u64>,
)
    ensures
        create_outcome(cacc, instruction_data, clock, rent) matches Ok(n)
            ==> decode_stream(encode_stream(n)) == Some(n),
        withdraw_outcome(wacc, stream_data, instruction_data, clock) matches Ok((n, _))
            ==> decode_stream(encode_stream(n)) == Some(n),
        unstake_outcome(uacc, stream_data, instruction_data, clock) matches Ok(Ok(n))
            ==> decode_stream(encode_stream(n)) == Some(n),
        close_outcome(xacc, stream_data, instruction_data, clock, rent) matches Ok((n, _, _))
            ==> decode_stream(encode_stream(n)) == Some(n),
{
    if decode_stream(instruction_data) is Some {
        lemma_stream_decode_encode(instruction_data);
    }
    if decode_stream(stream_data) is Some {
        lemma_stream_decode_encode(stream_data);
    }
    if let Ok(n) = create_outcome(cacc, instruction_data, clock, rent) {
        assert(cacc.stake@.len() == 32);
        lemma_stream_encode_decode(n);
    }
    if let Ok((n, _)) = withdraw_outcome(wacc, stream_data, instruction_data, clock) {
        lemma_stream_encode_decode(n);
    }
    if let Ok(Ok(n)) = unstake_outcome(uacc, stream_data, instruction_data, clock) {
        lemma_stream_encode_decode(n);
    }
    if let Ok((n, _, _)) = close_outcome(xacc, stream_data, instruction_data, clock, rent) {
        lemma_stream_encode_decode(n);
    }
}

} // verus!
