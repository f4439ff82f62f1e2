use payment_streams::{PaymentStreams, Pubkey, ReciverRewardPercentage, UnstakeAmount, WithdrawAmount};

fn key(b: u8) -> Pubkey {
    Pubkey([b; 32])
}

fn sample_stream() -> PaymentStreams {
    PaymentStreams {
        end_time: 2_000,
        start_time: 1_000,
        amount_second: 7,
        to: key(2),
        from: key(1),
        lamports_withdrawn: 350,
        is_active: true,
        is_delegated: false,
        stake_account: key(3),
        delegate_time: -5,
        vote_right_to: key(4),
        seed: b"stream-seed".to_vec(),
    }
}

fn borsh_layout(s: &PaymentStreams) -> Vec<u8> {
    let tuple = (
        s.end_time,
        s.start_time,
        s.amount_second,
        s.to.0,
        s.from.0,
        s.lamports_withdrawn,
        s.is_active,
        s.is_delegated,
        s.stake_account.0,
        s.delegate_time,
        s.vote_right_to.0,
        String::from_utf8(s.seed.clone()).unwrap(),
    );
    borsh::to_vec(&tuple).unwrap()
}

#[test]
fn test_sanity() {}

#[test]
fn stream_encoding_is_the_borsh_layout() {
    let s = sample_stream();
    let bytes = s.try_to_vec().unwrap();
    assert_eq!(bytes, borsh_layout(&s));
    assert_eq!(bytes.len(), 170 + 4 + 11);
}

#[test]
fn stream_encoding_reads_back() {
    let s = sample_stream();
    let bytes = s.try_to_vec().unwrap();
    assert_eq!(PaymentStreams::try_from_slice(&bytes), Some(s));
}

#[test]
fn stream_decoding_reads_borsh_bytes() {
    let s = sample_stream();
    let bytes = borsh_layout(&s);
    let decoded = PaymentStreams::try_from_slice(&bytes).unwrap();
    assert_eq!(decoded.end_time, 2_000);
    assert_eq!(decoded.delegate_time, -5);
    assert_eq!(decoded.vote_right_to, key(4));
    assert_eq!(decoded.seed, b"stream-seed".to_vec());
}

#[test]
fn stream_decoding_rejects_trailing_bytes() {
    let mut bytes = sample_stream().try_to_vec().unwrap();
    bytes.push(0);
    assert_eq!(PaymentStreams::try_from_slice(&bytes), None);
}

#[test]
fn stream_decoding_rejects_short_data() {
    let bytes = sample_stream().try_to_vec().unwrap();
    assert_eq!(PaymentStreams::try_from_slice(&bytes[..bytes.len() - 1]), None);
    assert_eq!(PaymentStreams::try_from_slice(&bytes[..100]), None);
    assert_eq!(PaymentStreams::try_from_slice(&[]), None);
}

#[test]
fn stream_decoding_rejects_bad_flag_bytes() {
    let mut bytes = sample_stream().try_to_vec().unwrap();
    bytes[96] = 2;
    assert_eq!(PaymentStreams::try_from_slice(&bytes), None);
    let mut bytes = sample_stream().try_to_vec().unwrap();
    bytes[97] = 7;
    assert_eq!(PaymentStreams::try_from_slice(&bytes), None);
}

#[test]
fn stream_decoding_rejects_invalid_utf8_seed() {
    let mut s = sample_stream();
    s.seed = vec![0xff, 0xfe];
    let bytes = s.try_to_vec().unwrap();
    assert_eq!(PaymentStreams::try_from_slice(&bytes), None);
}

#[test]
fn stream_with_empty_seed_reads_back() {
    let mut s = sample_stream();
    s.seed = Vec::new();
    let bytes = s.try_to_vec().unwrap();
    assert_eq!(bytes.len(), 174);
    assert_eq!(PaymentStreams::try_from_slice(&bytes), Some(s));
}

#[test]
fn amount_arguments_are_eight_bytes_little_endian() {
    let w = WithdrawAmount { amount: -2 };
    let bytes = w.try_to_vec();
    assert_eq!(bytes, borsh::to_vec(&-2i64).unwrap());
    assert_eq!(WithdrawAmount::try_from_slice(&bytes), Some(w));
    assert_eq!(WithdrawAmount::try_from_slice(&[1, 0, 0, 0, 0, 0, 0]), None);
    let u = UnstakeAmount { amount: 0x0102_0304_0506_0708 };
    assert_eq!(u.try_to_vec(), vec![8, 7, 6, 5, 4, 3, 2, 1]);
    assert_eq!(UnstakeAmount::try_from_slice(&[8, 7, 6, 5, 4, 3, 2, 1]), Some(u));
    assert_eq!(UnstakeAmount::try_from_slice(&[8, 7, 6, 5, 4, 3, 2, 1, 0]), None);
}

#[test]
fn percentage_argument_is_one_byte() {
    let p = ReciverRewardPercentage { percentage: 40 };
    assert_eq!(p.try_to_vec(), vec![40]);
    assert_eq!(ReciverRewardPercentage::try_from_slice(&[40]), Some(p));
    assert_eq!(ReciverRewardPercentage::try_from_slice(&[]), None);
    assert_eq!(ReciverRewardPercentage::try_from_slice(&[40, 0]), None);
}
