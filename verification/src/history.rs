//! Runs of instructions on one stream account, and what a withdrawal needs
//! to have happened before it.
use vstd::prelude::*;
use crate::close_stream::{close_outcome, CloseAccounts};
use crate::create_stream::{create_outcome, CreateAccounts};
use crate::error::ClockReading;
use crate::laws::law_stored_records_read_back;
use crate::payment_stream::{decode_stream, encode_stream, StreamState};
use crate::unstake_token::{unstake_outcome, UnstakeAccounts};
use crate::withdraw::{withdraw_outcome, WithdrawAccounts};

verus! {

/// One instruction on the stream account, with everything it reads besides the
/// account's data.
#[allow(inconsistent_fields)]
pub enum Step {
    Create { acc: CreateAccounts, instruction_data: Seq<u8>, clock: Option<ClockReading>, rent: Option<u64> },
    Withdraw { acc: WithdrawAccounts, instruction_data: Seq<u8>, clock: Option<ClockReading> },
    Unstake { acc: UnstakeAccounts, instruction_data: Seq<u8>, clock: Option<ClockReading> },
    Close { acc: CloseAccounts, instruction_data: Seq<u8>, clock: Option<ClockReading>, rent: Option<u64> },
}

/// The record the step stores when it completes on an account holding `stored`;
/// `None` when it fails, which leaves the account as it was.
#[verifier::opaque]
pub open spec fn step_result(stored: Seq<u8>, step: Step) -> Option<StreamState> {
    match step {
        Step::Create { acc, instruction_data, clock, rent } => match create_outcome(acc, instruction_data, clock, rent) {
            Ok(n) => Some(n),
            Err(_) => None,
        },
        Step::Withdraw { acc, instruction_data, clock } => match withdraw_outcome(acc, stored, instruction_data, clock) {
            Ok((n, _)) => Some(n),
            Err(_) => None,
        },
        Step::Unstake { acc, instruction_data, clock } => match unstake_outcome(acc, stored, instruction_data, clock) {
            Ok(Ok(n)) => Some(n),
            _ => None,
        },
        Step::Close { acc, instruction_data, clock, rent } => match close_outcome(acc, stored, instruction_data, clock, rent) {
            Ok((n, _, _)) => Some(n),
            Err(_) => None,
        },
    }
}

/// The account's data after the step.
pub open spec fn after_step(stored: Seq<u8>, step: Step) -> Seq<u8> {
    match step_result(stored, step) {
        Some(n) => encode_stream(n),
        None => stored,
    }
}

/// The account's data after the first `i` steps, starting from `initial`.
pub open spec fn stored_after(initial: Seq<u8>, steps: Seq<Step>, i: int) -> Seq<u8>
    decreases i,
{
    if i <= 0 {
        initial
    } else {
        after_step(stored_after(initial, steps, i - 1), steps[i - 1])
    }
}

/// Step `i` completes.
pub open spec fn completes(initial: Seq<u8>, steps: Seq<Step>, i: int) -> bool {
    step_result(stored_after(initial, steps, i), steps[i]) is Some
}

/// Step `i` is a create or a withdrawal that completes: both leave the stake delegated.
pub open spec fn delegates(initial: Seq<u8>, steps: Seq<Step>, i: int) -> bool {
    &&& completes(initial, steps, i)
    &&& (steps[i] is Create || steps[i] is Withdraw)
}

/// Step `i` is an unstake that completes.
pub open spec fn undelegates(initial: Seq<u8>, steps: Seq<Step>, i: int) -> bool {
    &&& completes(initial, steps, i)
    &&& steps[i] is Unstake
}

/// The clock a step reads.
pub open spec fn step_clock(step: Step) -> Option<ClockReading> {
    match step {
        Step::Create { clock, .. } => clock,
        Step::Withdraw { clock, .. } => clock,
        Step::Unstake { clock, .. } => clock,
        Step::Close { clock, .. } => clock,
    }
}

/// Step `j` is an unstake that completes and no create or withdrawal completes
/// after it and before step `k`.
pub open spec fn last_undelegation_before(initial: Seq<u8>, steps: Seq<Step>, j: int, k: int) -> bool {
    &&& undelegates(initial, steps, j)
    &&& forall|i: int| j < i < k ==> !#[trigger] delegates(initial, steps, i)
}

/// What the record after `i` steps says about delegation: either the stake is
/// delegated, or an earlier unstake cleared it, nothing delegated it since, and
/// the record keeps the delegation time that unstake set.
spec fn delegation_explained(initial: Seq<u8>, steps: Seq<Step>, i: int, s: StreamState) -> bool {
    ||| s.is_delegated
    ||| exists|j: int|
        #![trigger undelegates(initial, steps, j)]
        0 < j < i && last_undelegation_before(initial, steps, j, i)
            && s.delegate_time == step_clock(steps[j]).unwrap().epoch_start_timestamp
}

/// What each kind of step does to the stake's delegation in the record it stores:
/// a completed create or withdrawal stores it delegated, a completed unstake stores
/// it undelegated with the delegation time at the current epoch's start, a
/// completed close keeps both as they were, and a withdrawal completes only on an
/// undelegated stake whose delegation time has come. Every stored record reads back.
pub proof fn law_step_delegation(stored: Seq<u8>, step: Step)
    ensures
        step_result(stored, step) matches Some(n) ==> {
            &&& decode_stream(encode_stream(n)) == Some(n)
            &&& (step is Create || step is Withdraw) ==> n.is_delegated
            &&& step is Unstake ==> !n.is_delegated && n.delegate_time
                == step_clock(step).unwrap().epoch_start_timestamp
            &&& step is Close ==> (decode_stream(stored) matches Some(s) && n.is_delegated
                == s.is_delegated && n.delegate_time == s.delegate_time)
            &&& step is Withdraw ==> (decode_stream(stored) matches Some(s) && !s.is_delegated
                && step_clock(step).unwrap().unix_timestamp >= s.delegate_time)
        },
{
    reveal(step_result);
    match step {
        Step::Create { acc, instruction_data, clock, rent } => {
            law_stored_records_read_back(acc, arbitrary(), arbitrary(), arbitrary(), stored, instruction_data, clock, rent);
        },
        Step::Withdraw { acc, instruction_data, clock } => {
            law_stored_records_read_back(arbitrary(), acc, arbitrary(), arbitrary(), stored, instruction_data, clock, arbitrary());
        },
        Step::Unstake { acc, instruction_data, clock } => {
            law_stored_records_read_back(arbitrary(), arbitrary(), acc, arbitrary(), stored, instruction_data, clock, arbitrary());
        },
        Step::Close { acc, instruction_data, clock, rent } => {
            law_stored_records_read_back(arbitrary(), arbitrary(), arbitrary(), acc, stored, instruction_data, clock, rent);
        },
    }
}

/// After a run that starts with a completed create, the account holds a stream
/// whose delegation is explained by the run.
proof fn lemma_delegation_explained(initial: Seq<u8>, steps: Seq<Step>, i: int)
    requires
        1 <= i <= steps.len(),
        steps[0] is Create,
        completes(initial, steps, 0),
    ensures
        decode_stream(stored_after(initial, steps, i)) matches Some(s)
            && delegation_explained(initial, steps, i, s),
    decreases i,
{
    let prev = stored_after(initial, steps, i - 1);
    let step = steps[i - 1];
    law_step_delegation(prev, step);
    assert(stored_after(initial, steps, i) == after_step(prev, step));
    if i == 1 {
        return;
    }
    lemma_delegation_explained(initial, steps, i - 1);
    let s = decode_stream(prev).unwrap();
    if step_result(prev, step) is None || step is Close {
        assert(!delegates(initial, steps, i - 1));
        if !s.is_delegated {
            let j = choose|j: int|
                #![trigger undelegates(initial, steps, j)]
                0 < j < i - 1 && last_undelegation_before(initial, steps, j, i - 1)
                    && s.delegate_time == step_clock(steps[j]).unwrap().epoch_start_timestamp;
            assert(last_undelegation_before(initial, steps, j, i));
        }
    } else if step is Unstake {
        assert(undelegates(initial, steps, i - 1));
        assert(last_undelegation_before(initial, steps, i - 1, i));
    }
}

/// In any run on one stream account that opens the stream with a completed
/// create, a withdrawal completes only if an unstake completed after the latest
/// completed create or withdrawal before it, and the withdrawal's clock has
/// reached the start of the epoch in which that unstake ran.
pub proof fn law_withdraw_needs_prior_unstake(initial: Seq<u8>, steps: Seq<Step>, k: int)
    requires
        0 < k < steps.len(),
        steps[0] is Create,
        completes(initial, steps, 0),
        steps[k] is Withdraw,
        completes(initial, steps, k),
    ensures
        exists|j: int|
            #![trigger undelegates(initial, steps, j)]
            0 < j < k && last_undelegation_before(initial, steps, j, k)
                && step_clock(steps[k]).unwrap().unix_timestamp
                >= step_clock(steps[j]).unwrap().epoch_start_timestamp,
{
    lemma_delegation_explained(initial, steps, k);
    law_step_delegation(stored_after(initial, steps, k), steps[k]);
    let s = decode_stream(stored_after(initial, steps, k)).unwrap();
    assert(!s.is_delegated);
    assert(step_clock(steps[k]).unwrap().unix_timestamp >= s.delegate_time);
}

} // verus!
