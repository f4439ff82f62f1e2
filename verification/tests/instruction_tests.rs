use payment_streams::{
    close_stream, create_stream, credit_lamports, debit_lamports, instruction_for_tag,
    try_close_stream, try_create_stream, try_unstake_tokens, try_withdraw, unstake_tokens,
    withdraw, Abort, ClockReading, CloseAccounts, CreateAccounts, Failure, PaymentStreams, Pubkey,
    ReciverRewardPercentage, StreamError, StreamInstruction, UnstakeAccounts, UnstakeAmount,
    WithdrawAccounts, WithdrawAmount,
};

fn key(b: u8) -> Pubkey {
    Pubkey([b; 32])
}

const PROGRAM: u8 = 9;
const SENDER: u8 = 1;
const RECEIVER: u8 = 2;
const STAKE: u8 = 3;
const VOTE: u8 = 4;

fn stream() -> PaymentStreams {
    PaymentStreams {
        end_time: 2_000,
        start_time: 1_000,
        amount_second: 7,
        to: key(RECEIVER),
        from: key(SENDER),
        lamports_withdrawn: 350,
        is_active: true,
        is_delegated: false,
        stake_account: key(STAKE),
        delegate_time: -5,
        vote_right_to: key(VOTE),
        seed: b"seed".to_vec(),
    }
}

fn bytes(s: &PaymentStreams) -> Vec<u8> {
    s.try_to_vec().unwrap()
}

fn clock(now: i64) -> Option<ClockReading> {
    Some(ClockReading { unix_timestamp: now, epoch_start_timestamp: 900 })
}

fn amount(a: i64) -> Vec<u8> {
    WithdrawAmount { amount: a }.try_to_vec()
}

fn withdraw_accounts() -> WithdrawAccounts {
    WithdrawAccounts {
        program_id: key(PROGRAM),
        writing_owner: key(PROGRAM),
        receiver: key(RECEIVER),
        receiver_is_signer: true,
    }
}

fn withdraw_error(r: Result<payment_streams::WithdrawPlan, Failure>) -> Failure {
    match r {
        Ok(_) => panic!("withdrawal was expected to fail"),
        Err(f) => f,
    }
}

#[test]
fn withdraw_pays_within_streamed_amount() {
    let plan = try_withdraw(&withdraw_accounts(), &bytes(&stream()), &amount(300), clock(1_100)).unwrap();
    assert_eq!(plan.lamports, 300);
    let mut expected = stream();
    expected.lamports_withdrawn = 650;
    expected.is_delegated = true;
    assert_eq!(plan.stream, expected);
}

#[test]
fn withdraw_of_everything_streamed_succeeds() {
    let plan = withdraw(&withdraw_accounts(), &bytes(&stream()), &amount(350), clock(1_100)).ok().unwrap();
    assert_eq!(plan.lamports, 350);
    assert_eq!(plan.stream.lamports_withdrawn, 700);
}

#[test]
fn withdraw_caps_streaming_at_end_time() {
    let plan = try_withdraw(&withdraw_accounts(), &bytes(&stream()), &amount(6_650), clock(5_000)).unwrap();
    assert_eq!(plan.stream.lamports_withdrawn, 7_000);
    let r = try_withdraw(&withdraw_accounts(), &bytes(&stream()), &amount(6_651), clock(5_000));
    assert_eq!(withdraw_error(r), Failure::Error(StreamError::InsufficientFunds));
}

#[test]
fn withdraw_errors_in_program_order() {
    let data = bytes(&stream());
    let mut acc = withdraw_accounts();
    acc.receiver_is_signer = false;
    assert_eq!(withdraw_error(try_withdraw(&acc, &data, &amount(1), clock(1_100))), Failure::Error(StreamError::IncorrectProgramId));

    let mut acc = withdraw_accounts();
    acc.writing_owner = key(8);
    assert_eq!(withdraw_error(try_withdraw(&acc, &data, &amount(1), clock(1_100))), Failure::Error(StreamError::IncorrectProgramId));

    assert_eq!(withdraw_error(try_withdraw(&withdraw_accounts(), &data[1..], &amount(1), clock(1_100))), Failure::Abort(Abort::MalformedStreamData));

    let mut inactive = stream();
    inactive.is_active = false;
    assert_eq!(withdraw_error(try_withdraw(&withdraw_accounts(), &bytes(&inactive), &amount(1), clock(1_100))), Failure::Error(StreamError::InvalidInstructionData));

    let mut acc = withdraw_accounts();
    acc.receiver = key(5);
    assert_eq!(withdraw_error(try_withdraw(&acc, &data, &amount(1), clock(1_100))), Failure::Error(StreamError::InvalidAccountData));

    assert_eq!(withdraw_error(try_withdraw(&withdraw_accounts(), &data, &[1, 2, 3], clock(1_100))), Failure::Abort(Abort::MalformedInstructionData));

    assert_eq!(withdraw_error(try_withdraw(&withdraw_accounts(), &data, &amount(1), None)), Failure::Error(StreamError::ClockUnavailable));

    assert_eq!(withdraw_error(try_withdraw(&withdraw_accounts(), &data, &amount(351), clock(1_100))), Failure::Error(StreamError::InsufficientFunds));
    assert_eq!(withdraw_error(try_withdraw(&withdraw_accounts(), &data, &amount(-1), clock(1_100))), Failure::Error(StreamError::InsufficientFunds));
    // before the start nothing has streamed, so the balance is negative
    assert_eq!(withdraw_error(try_withdraw(&withdraw_accounts(), &data, &amount(0), clock(900))), Failure::Error(StreamError::InsufficientFunds));

    let mut delegated = stream();
    delegated.is_delegated = true;
    assert_eq!(withdraw_error(try_withdraw(&withdraw_accounts(), &bytes(&delegated), &amount(1), clock(1_100))), Failure::Error(StreamError::InsufficientFunds));

    let mut waiting = stream();
    waiting.delegate_time = 1_200;
    assert_eq!(withdraw_error(try_withdraw(&withdraw_accounts(), &bytes(&waiting), &amount(1), clock(1_100))), Failure::Error(StreamError::InvalidArgument));
}

#[test]
fn withdraw_aborts_on_overflow() {
    let mut huge = stream();
    huge.amount_second = i64::MAX;
    let r = try_withdraw(&withdraw_accounts(), &bytes(&huge), &amount(1), clock(1_100));
    assert_eq!(withdraw_error(r), Failure::Abort(Abort::ArithmeticOverflow));
}

#[test]
fn withdraw_without_abort_reports_errors() {
    let mut acc = withdraw_accounts();
    acc.receiver_is_signer = false;
    assert_eq!(withdraw(&acc, &bytes(&stream()), &amount(1), clock(1_100)).err(), Some(StreamError::IncorrectProgramId));
}

#[test]
fn second_withdraw_is_refused_until_unstaked() {
    let plan = try_withdraw(&withdraw_accounts(), &bytes(&stream()), &amount(100), clock(1_100)).unwrap();
    let stored = bytes(&plan.stream);
    let r = try_withdraw(&withdraw_accounts(), &stored, &amount(1), clock(1_500));
    assert_eq!(withdraw_error(r), Failure::Error(StreamError::InsufficientFunds));
    // an unstake clears the delegation and the next withdrawal goes through
    let unstake = try_unstake_tokens(&unstake_accounts(), &stored, &UnstakeAmount { amount: 0 }.try_to_vec(), clock(1_500)).unwrap();
    let restored = bytes(&unstake.after_deactivation.unwrap());
    let again = try_withdraw(&withdraw_accounts(), &restored, &amount(10), clock(1_500)).unwrap();
    assert_eq!(again.stream.lamports_withdrawn, 460);
}

#[test]
fn lamports_move_between_balances() {
    assert_eq!(debit_lamports(500, 300), Ok(200));
    assert_eq!(debit_lamports(500, 500), Ok(0));
    assert_eq!(debit_lamports(500, 501), Err(Abort::ArithmeticOverflow));
    assert_eq!(credit_lamports(20, 300), Ok(320));
    assert_eq!(credit_lamports(u64::MAX - 10, 10), Ok(u64::MAX));
    assert_eq!(credit_lamports(u64::MAX - 10, 11), Err(Abort::ArithmeticOverflow));
}

fn unstake_accounts() -> UnstakeAccounts {
    UnstakeAccounts {
        program_id: key(PROGRAM),
        writing_owner: key(PROGRAM),
        sender_is_signer: false,
        receiver_is_signer: true,
    }
}

fn unstake_amount(a: i64) -> Vec<u8> {
    UnstakeAmount { amount: a }.try_to_vec()
}

#[test]
fn unstake_records_amount_and_clears_delegation() {
    let mut delegated = stream();
    delegated.is_delegated = true;
    let plan = try_unstake_tokens(&unstake_accounts(), &bytes(&delegated), &unstake_amount(300), clock(1_100)).unwrap();
    let mut expected = stream();
    expected.lamports_withdrawn = 650;
    expected.is_delegated = false;
    expected.delegate_time = 900;
    assert_eq!(plan.after_deactivation, Ok(expected));
}

#[test]
fn unstake_checks_limit_before_and_balance_after_deactivation() {
    let data = bytes(&stream());
    // limit before deactivating: (2000 - 1100) * 7 - 350 = 5950
    let r = try_unstake_tokens(&unstake_accounts(), &data, &unstake_amount(5_951), clock(1_100));
    assert_eq!(r.err(), Some(Failure::Error(StreamError::InvalidArgument)));
    // within the limit but beyond what has streamed: deactivate, then fail
    let plan = try_unstake_tokens(&unstake_accounts(), &data, &unstake_amount(351), clock(1_100)).unwrap();
    assert_eq!(plan.after_deactivation, Err(StreamError::InsufficientFunds));
    let plan = try_unstake_tokens(&unstake_accounts(), &data, &unstake_amount(-1), clock(1_100)).unwrap();
    assert_eq!(plan.after_deactivation, Err(StreamError::InsufficientFunds));
}

#[test]
fn unstake_errors_in_program_order() {
    let data = bytes(&stream());
    let mut acc = unstake_accounts();
    acc.receiver_is_signer = false;
    assert_eq!(try_unstake_tokens(&acc, &data, &unstake_amount(1), clock(1_100)).err(), Some(Failure::Error(StreamError::IncorrectProgramId)));
    acc.sender_is_signer = true;
    assert!(try_unstake_tokens(&acc, &data, &unstake_amount(1), clock(1_100)).is_ok());

    let mut acc = unstake_accounts();
    acc.writing_owner = key(7);
    assert_eq!(try_unstake_tokens(&acc, &data, &unstake_amount(1), clock(1_100)).err(), Some(Failure::Error(StreamError::IncorrectProgramId)));

    assert_eq!(try_unstake_tokens(&unstake_accounts(), &[0u8; 10], &unstake_amount(1), clock(1_100)).err(), Some(Failure::Abort(Abort::MalformedStreamData)));

    let mut inactive = stream();
    inactive.is_active = false;
    assert_eq!(try_unstake_tokens(&unstake_accounts(), &bytes(&inactive), &unstake_amount(1), clock(1_100)).err(), Some(Failure::Error(StreamError::InvalidInstructionData)));

    assert_eq!(try_unstake_tokens(&unstake_accounts(), &data, &[0u8; 9], clock(1_100)).err(), Some(Failure::Abort(Abort::MalformedInstructionData)));
    assert_eq!(try_unstake_tokens(&unstake_accounts(), &data, &unstake_amount(1), None).err(), Some(Failure::Error(StreamError::ClockUnavailable)));

    let mut huge = stream();
    huge.amount_second = i64::MAX;
    assert_eq!(try_unstake_tokens(&unstake_accounts(), &bytes(&huge), &unstake_amount(1), clock(1_100)).err(), Some(Failure::Abort(Abort::ArithmeticOverflow)));

    assert_eq!(unstake_tokens(&unstake_accounts(), &data, &unstake_amount(5_951), clock(1_100)).err(), Some(StreamError::InvalidArgument));
}

fn close_accounts(balance: u64) -> CloseAccounts {
    CloseAccounts {
        program_id: key(PROGRAM),
        administrator_owner: key(8),
        writing_owner: key(PROGRAM),
        sender: key(SENDER),
        sender_is_signer: true,
        receiver: key(RECEIVER),
        writing_lamports: balance,
    }
}

fn percent(p: u8) -> Vec<u8> {
    ReciverRewardPercentage { percentage: p }.try_to_vec()
}

#[test]
fn close_settles_streamed_amount() {
    let plan = try_close_stream(&close_accounts(10_000), &bytes(&stream()), &percent(50), clock(1_100), Some(1_000)).unwrap();
    // streamed and not withdrawn: 7 * 100 - 350 = 350; yield: 10000 - 7000 - 1000 = 2000
    assert_eq!(plan.receiver_lamports, 350);
    assert_eq!(plan.sender_lamports, 1_000 + 7_000 - 350 + 2_000);
    let mut expected = stream();
    expected.lamports_withdrawn = 700;
    expected.is_active = false;
    assert_eq!(plan.stream, expected);
}

#[test]
fn close_at_full_percentage_shares_the_yield() {
    let plan = close_stream(&close_accounts(10_000), &bytes(&stream()), &percent(100), clock(1_100), Some(1_000)).ok().unwrap();
    assert_eq!(plan.receiver_lamports, 350 + 2_000);
    assert_eq!(plan.sender_lamports, 1_000 + 7_000 - 350 + 1_999);
}

#[test]
fn close_before_start_streams_nothing() {
    let plan = try_close_stream(&close_accounts(10_000), &bytes(&stream()), &percent(0), clock(900), Some(1_000)).unwrap();
    assert_eq!(plan.receiver_lamports, 0);
    assert_eq!(plan.sender_lamports, 10_000);
    assert_eq!(plan.stream.lamports_withdrawn, 350);
    assert!(!plan.stream.is_active);
}

#[test]
fn close_transfer_amounts_wrap_when_negative() {
    let plan = try_close_stream(&close_accounts(5_000), &bytes(&stream()), &percent(100), clock(1_100), Some(1_000)).unwrap();
    // yield: 5000 - 7000 - 1000 = -3000
    assert_eq!(plan.receiver_lamports, (350i64 - 3_000) as u64);
    assert_eq!(plan.sender_lamports, 1_000 + 7_000 - 350 - 3_001);
}

#[test]
fn close_errors_in_program_order() {
    let data = bytes(&stream());
    let mut acc = close_accounts(10_000);
    acc.sender_is_signer = false;
    assert_eq!(try_close_stream(&acc, &data, &percent(10), clock(1_100), Some(1_000)).err(), Some(Failure::Error(StreamError::IncorrectProgramId)));

    let mut acc = close_accounts(10_000);
    acc.writing_owner = key(7);
    assert_eq!(try_close_stream(&acc, &data, &percent(10), clock(1_100), Some(1_000)).err(), Some(Failure::Error(StreamError::IncorrectProgramId)));
    acc.administrator_owner = key(PROGRAM);
    assert!(try_close_stream(&acc, &data, &percent(10), clock(1_100), Some(1_000)).is_ok());

    assert_eq!(try_close_stream(&close_accounts(10_000), &data[..50], &percent(10), clock(1_100), Some(1_000)).err(), Some(Failure::Abort(Abort::MalformedStreamData)));

    let mut acc = close_accounts(10_000);
    acc.receiver = key(6);
    assert_eq!(try_close_stream(&acc, &data, &percent(10), clock(1_100), Some(1_000)).err(), Some(Failure::Error(StreamError::InvalidAccountData)));
    let mut acc = close_accounts(10_000);
    acc.sender = key(6);
    assert_eq!(try_close_stream(&acc, &data, &percent(10), clock(1_100), Some(1_000)).err(), Some(Failure::Error(StreamError::InvalidAccountData)));

    let mut inactive = stream();
    inactive.is_active = false;
    assert_eq!(try_close_stream(&close_accounts(10_000), &bytes(&inactive), &percent(10), clock(1_100), Some(1_000)).err(), Some(Failure::Error(StreamError::InvalidInstructionData)));

    assert_eq!(try_close_stream(&close_accounts(10_000), &data, &[], clock(1_100), Some(1_000)).err(), Some(Failure::Abort(Abort::MalformedInstructionData)));
    assert_eq!(try_close_stream(&close_accounts(10_000), &data, &percent(101), clock(1_100), Some(1_000)).err(), Some(Failure::Error(StreamError::InvalidInstructionData)));
    assert_eq!(try_close_stream(&close_accounts(10_000), &data, &percent(10), None, Some(1_000)).err(), Some(Failure::Error(StreamError::ClockUnavailable)));
    assert_eq!(try_close_stream(&close_accounts(10_000), &data, &percent(10), clock(1_100), None).err(), Some(Failure::Error(StreamError::RentUnavailable)));
    assert_eq!(try_close_stream(&close_accounts(u64::MAX), &data, &percent(10), clock(1_100), Some(1_000)).err(), Some(Failure::Abort(Abort::ArithmeticOverflow)));
    assert_eq!(close_stream(&close_accounts(10_000), &data, &percent(101), clock(1_100), Some(1_000)).err(), Some(StreamError::InvalidInstructionData));
}

#[test]
fn closed_stream_stays_closed() {
    let plan = try_close_stream(&close_accounts(10_000), &bytes(&stream()), &percent(50), clock(1_100), Some(1_000)).unwrap();
    let stored = bytes(&plan.stream);
    assert_eq!(try_withdraw(&withdraw_accounts(), &stored, &amount(1), clock(1_200)).err(), Some(Failure::Error(StreamError::InvalidInstructionData)));
    assert_eq!(try_unstake_tokens(&unstake_accounts(), &stored, &unstake_amount(1), clock(1_200)).err(), Some(Failure::Error(StreamError::InvalidInstructionData)));
    assert_eq!(try_close_stream(&close_accounts(10_000), &stored, &percent(50), clock(1_200), Some(1_000)).err(), Some(Failure::Error(StreamError::InvalidInstructionData)));
}

fn create_accounts(writing: u64, stake: u64) -> CreateAccounts {
    CreateAccounts {
        program_id: key(PROGRAM),
        writing_owner: key(PROGRAM),
        sender: key(SENDER),
        sender_is_signer: true,
        receiver: key(RECEIVER),
        stake: key(STAKE),
        writing_lamports: writing,
        stake_lamports: stake,
    }
}

fn request() -> PaymentStreams {
    let mut s = stream();
    s.lamports_withdrawn = 123;
    s.is_active = false;
    s.stake_account = key(0);
    s
}

#[test]
fn create_opens_funded_stream() {
    let s = try_create_stream(&create_accounts(3_000, 5_000), &bytes(&request()), clock(900), Some(500)).unwrap();
    let mut expected = request();
    expected.lamports_withdrawn = 0;
    expected.is_active = true;
    expected.is_delegated = true;
    expected.stake_account = key(STAKE);
    assert_eq!(s, expected);
    // funds exactly cover the streamed total plus rent: 7 * 1000 + 500
    assert!(create_stream(&create_accounts(7_000, 500), &bytes(&request()), clock(1_000), Some(500)).is_ok());
}

#[test]
fn create_errors_in_program_order() {
    let data = bytes(&request());
    let mut acc = create_accounts(3_000, 5_000);
    acc.sender_is_signer = false;
    assert_eq!(try_create_stream(&acc, &data, clock(900), Some(500)).err(), Some(Failure::Error(StreamError::IncorrectProgramId)));
    let mut acc = create_accounts(3_000, 5_000);
    acc.writing_owner = key(7);
    assert_eq!(try_create_stream(&acc, &data, clock(900), Some(500)).err(), Some(Failure::Error(StreamError::IncorrectProgramId)));
    let mut acc = create_accounts(3_000, 5_000);
    acc.receiver = key(SENDER);
    assert_eq!(try_create_stream(&acc, &data, clock(900), Some(500)).err(), Some(Failure::Error(StreamError::InvalidInstructionData)));
    assert_eq!(try_create_stream(&create_accounts(3_000, 5_000), &data[..173], clock(900), Some(500)).err(), Some(Failure::Abort(Abort::MalformedInstructionData)));
    assert_eq!(try_create_stream(&create_accounts(3_000, 5_000), &data, None, Some(500)).err(), Some(Failure::Error(StreamError::ClockUnavailable)));
    assert_eq!(try_create_stream(&create_accounts(3_000, 5_000), &data, clock(1_001), Some(500)).err(), Some(Failure::Error(StreamError::InvalidInstructionData)));

    let mut negative = request();
    negative.amount_second = -1;
    assert_eq!(try_create_stream(&create_accounts(3_000, 5_000), &bytes(&negative), clock(900), Some(500)).err(), Some(Failure::Error(StreamError::InvalidInstructionData)));
    let mut empty = request();
    empty.end_time = 1_000;
    assert_eq!(try_create_stream(&create_accounts(3_000, 5_000), &bytes(&empty), clock(900), Some(500)).err(), Some(Failure::Error(StreamError::InvalidInstructionData)));
    let mut strangers = request();
    strangers.from = key(5);
    strangers.to = key(6);
    assert_eq!(try_create_stream(&create_accounts(3_000, 5_000), &bytes(&strangers), clock(900), Some(500)).err(), Some(Failure::Error(StreamError::InvalidInstructionData)));
    let mut half = request();
    half.to = key(6);
    assert!(try_create_stream(&create_accounts(3_000, 5_000), &bytes(&half), clock(900), Some(500)).is_ok());

    assert_eq!(try_create_stream(&create_accounts(3_000, 5_000), &data, clock(900), None).err(), Some(Failure::Error(StreamError::RentUnavailable)));
    assert_eq!(try_create_stream(&create_accounts(3_000, 4_499), &data, clock(900), Some(500)).err(), Some(Failure::Error(StreamError::InvalidAccountData)));
    assert_eq!(try_create_stream(&create_accounts(u64::MAX, 1), &data, clock(900), Some(500)).err(), Some(Failure::Abort(Abort::ArithmeticOverflow)));
    assert_eq!(create_stream(&create_accounts(3_000, 4_499), &data, clock(900), Some(500)).err(), Some(StreamError::InvalidAccountData));
}

#[test]
fn created_stream_is_withdrawable_once_unstaked() {
    let s = try_create_stream(&create_accounts(3_000, 5_000), &bytes(&request()), clock(900), Some(500)).unwrap();
    let stored = bytes(&s);
    assert_eq!(try_withdraw(&withdraw_accounts(), &stored, &amount(1), clock(1_100)).err(), Some(Failure::Error(StreamError::InsufficientFunds)));
    let plan = try_unstake_tokens(&unstake_accounts(), &stored, &unstake_amount(0), clock(1_100)).unwrap();
    let stored = bytes(&plan.after_deactivation.unwrap());
    let w = try_withdraw(&withdraw_accounts(), &stored, &amount(700), clock(1_100)).unwrap();
    assert_eq!(w.lamports, 700);
}

#[test]
fn instruction_tags_select_instructions() {
    assert_eq!(instruction_for_tag(1), Ok(StreamInstruction::CreateStream));
    assert_eq!(instruction_for_tag(2), Ok(StreamInstruction::UnstakeTokens));
    assert_eq!(instruction_for_tag(3), Ok(StreamInstruction::Withdraw));
    assert_eq!(instruction_for_tag(4), Ok(StreamInstruction::CloseStream));
    assert_eq!(instruction_for_tag(0), Err(StreamError::InvalidInstructionData));
    assert_eq!(instruction_for_tag(5), Err(StreamError::InvalidInstructionData));
}

#[test]
fn withdrawal_waits_for_the_unstake_epoch() {
    let s = try_create_stream(&create_accounts(3_000, 5_000), &bytes(&request()), clock(900), Some(500)).unwrap();
    let later_epoch = Some(ClockReading { unix_timestamp: 1_100, epoch_start_timestamp: 1_150 });
    let plan = try_unstake_tokens(&unstake_accounts(), &bytes(&s), &unstake_amount(0), later_epoch).unwrap();
    let stored = bytes(&plan.after_deactivation.unwrap());
    assert_eq!(try_withdraw(&withdraw_accounts(), &stored, &amount(10), clock(1_100)).err(), Some(Failure::Error(StreamError::InvalidArgument)));
    let w = try_withdraw(&withdraw_accounts(), &stored, &amount(10), clock(1_150)).unwrap();
    let again = bytes(&w.stream);
    assert_eq!(try_withdraw(&withdraw_accounts(), &again, &amount(10), clock(1_200)).err(), Some(Failure::Error(StreamError::InsufficientFunds)));
}
