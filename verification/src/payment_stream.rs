//! The stream record kept in the program's writing account, and its byte format.
use vstd::prelude::*;
use crate::codec::{
    bool_to_byte, check_utf8, i64_from_le, i64_to_le, lemma_i64_decode_encode, lemma_i64_encode_decode,
    lemma_u32_decode_encode, lemma_u32_encode_decode, push_i64, push_u32, read_i64, read_u32,
    u32_from_le, u32_to_le,
};
use crate::pubkey::{Pubkey, key_at};

verus! {

/// One payment stream: `amount_second` lamports per second flow from `from`
/// to `to` between `start_time` and `end_time`, backed by a delegated stake account.
#[derive(Clone, Debug, PartialEq, Eq)]
pub struct PaymentStreams {
    pub end_time: i64,
    pub start_time: i64,
    pub amount_second: i64,
    pub to: Pubkey,
    pub from: Pubkey,
    pub lamports_withdrawn: i64,
    pub is_active: bool,
    pub is_delegated: bool,
    pub stake_account: Pubkey,
    pub delegate_time: i64,
    pub vote_right_to: Pubkey,
    /// UTF-8 bytes of the seed that signs for the writing account.
    pub seed: Vec<u8>,
}

/// The mathematical value of a [`PaymentStreams`].
#[verifier::ext_equal]
pub struct StreamState {
    pub end_time: i64,
    pub start_time: i64,
    pub amount_second: i64,
    pub to: Seq<u8>,
    pub from: Seq<u8>,
    pub lamports_withdrawn: i64,
    pub is_active: bool,
    pub is_delegated: bool,
    pub stake_account: Seq<u8>,
    pub delegate_time: i64,
    pub vote_right_to: Seq<u8>,
    pub seed: Seq<u8>,
}

impl View for PaymentStreams {
    type V = StreamState;

    open spec fn view(&self) -> StreamState {
        StreamState {
            end_time: self.end_time,
            start_time: self.start_time,
            amount_second: self.amount_second,
            to: self.to@,
            from: self.from@,
            lamports_withdrawn: self.lamports_withdrawn,
            is_active: self.is_active,
            is_delegated: self.is_delegated,
            stake_account: self.stake_account@,
            delegate_time: self.delegate_time,
            vote_right_to: self.vote_right_to@,
            seed: self.seed@,
        }
    }
}

/// Length of the part of a stream record that precedes the seed's length prefix.
pub const STREAM_FIXED_LEN: usize = 170;

impl StreamState {
    /// Every address is 32 bytes long, as it is in any value of [`PaymentStreams`].
    pub open spec fn keys_sized(self) -> bool {
        &&& self.to.len() == 32
        &&& self.from.len() == 32
        &&& self.stake_account.len() == 32
        &&& self.vote_right_to.len() == 32
    }

    /// The record can be written and read back: addresses are 32 bytes, the seed's
    /// length fits its 4-byte prefix and the seed is UTF-8.
    pub open spec fn storable(self) -> bool {
        &&& self.keys_sized()
        &&& self.seed.len() <= u32::MAX
        &&& vstd::utf8::valid_utf8(self.seed)
    }
}

/// The stored bytes of a stream: the fields in declaration order, integers
/// little-endian, booleans as one byte, addresses as their 32 bytes, and the seed
/// as a 4-byte length followed by its bytes.
#[verifier::opaque]
pub open spec fn encode_stream(s: StreamState) -> Seq<u8> {
    i64_to_le(s.end_time) + i64_to_le(s.start_time) + i64_to_le(s.amount_second) + s.to + s.from
        + i64_to_le(s.lamports_withdrawn) + seq![bool_to_byte(s.is_active)] + seq![
        bool_to_byte(s.is_delegated),
    ] + s.stake_account + i64_to_le(s.delegate_time) + s.vote_right_to + u32_to_le(
        s.seed.len() as u32,
    ) + s.seed
}

/// The stream that `b` holds, if `b` is exactly one stored stream: both flag bytes
/// are 0 or 1, the seed fills the rest of `b` and is UTF-8.
#[verifier::opaque]
pub open spec fn decode_stream(b: Seq<u8>) -> Option<StreamState> {
    if b.len() < STREAM_FIXED_LEN + 4 {
        None
    } else {
        let n = u32_from_le(b.subrange(170, 174));
        let seed = b.subrange(174, b.len() as int);
        if b[96] > 1 || b[97] > 1 || b.len() - 174 != n || !vstd::utf8::valid_utf8(seed) {
            None
        } else {
            Some(
                StreamState {
                    end_time: i64_from_le(b.subrange(0, 8)),
                    start_time: i64_from_le(b.subrange(8, 16)),
                    amount_second: i64_from_le(b.subrange(16, 24)),
                    to: b.subrange(24, 56),
                    from: b.subrange(56, 88),
                    lamports_withdrawn: i64_from_le(b.subrange(88, 96)),
                    is_active: b[96] == 1,
                    is_delegated: b[97] == 1,
                    stake_account: b.subrange(98, 130),
                    delegate_time: i64_from_le(b.subrange(130, 138)),
                    vote_right_to: b.subrange(138, 170),
                    seed,
                },
            )
        }
    }
}

/// Writing a storable stream and reading it back gives the same stream.
pub proof fn lemma_stream_encode_decode(s: StreamState)
    requires
        s.storable(),
    ensures
        decode_stream(encode_stream(s)) == Some(s),
{
    reveal(encode_stream);
    reveal(decode_stream);
    let b = encode_stream(s);
    lemma_i64_encode_decode(s.end_time);
    lemma_i64_encode_decode(s.start_time);
    lemma_i64_encode_decode(s.amount_second);
    lemma_i64_encode_decode(s.lamports_withdrawn);
    lemma_i64_encode_decode(s.delegate_time);
    lemma_u32_encode_decode(s.seed.len() as u32);
    assert(b.len() == 174 + s.seed.len());
    assert(b.subrange(0, 8) =~= i64_to_le(s.end_time));
    assert(b.subrange(8, 16) =~= i64_to_le(s.start_time));
    assert(b.subrange(16, 24) =~= i64_to_le(s.amount_second));
    assert(b.subrange(24, 56) =~= s.to);
    assert(b.subrange(56, 88) =~= s.from);
    assert(b.subrange(88, 96) =~= i64_to_le(s.lamports_withdrawn));
    assert(b[96] == bool_to_byte(s.is_active));
    assert(b[97] == bool_to_byte(s.is_delegated));
    assert(b.subrange(98, 130) =~= s.stake_account);
    assert(b.subrange(130, 138) =~= i64_to_le(s.delegate_time));
    assert(b.subrange(138, 170) =~= s.vote_right_to);
    assert(b.subrange(170, 174) =~= u32_to_le(s.seed.len() as u32));
    assert(b.subrange(174, b.len() as int) =~= s.seed);
    assert(decode_stream(b).unwrap() =~= s);
}

/// Bytes that read as a stream are exactly that stream's encoding, and the
/// stream read is storable.
pub proof fn lemma_stream_decode_encode(b: Seq<u8>)
    requires
        decode_stream(b) is Some,
    ensures
        encode_stream(decode_stream(b).unwrap()) == b,
        decode_stream(b).unwrap().storable(),
{
    reveal(encode_stream);
    reveal(decode_stream);
    let s = decode_stream(b).unwrap();
    lemma_i64_decode_encode(b.subrange(0, 8));
    lemma_i64_decode_encode(b.subrange(8, 16));
    lemma_i64_decode_encode(b.subrange(16, 24));
    lemma_i64_decode_encode(b.subrange(88, 96));
    lemma_i64_decode_encode(b.subrange(130, 138));
    lemma_u32_decode_encode(b.subrange(170, 174));
    assert(s.seed.len() as u32 == u32_from_le(b.subrange(170, 174)));
    assert(seq![bool_to_byte(s.is_active)] =~= b.subrange(96, 97));
    assert(seq![bool_to_byte(s.is_delegated)] =~= b.subrange(97, 98));
    assert(encode_stream(s) =~= b);
}

/// The stored bytes of a stream are its fields in declaration order: the five
/// integers as eight little-endian bytes each, every address as its 32 bytes in
/// order, each flag as one byte 1 or 0, and the seed as its length in four
/// little-endian bytes followed by its bytes.
pub proof fn law_stream_layout(s: StreamState)
    requires
        s.keys_sized(),
    ensures
        ({
            let b = encode_stream(s);
            &&& b.len() == 174 + s.seed.len()
            &&& b.subrange(0, 8) == i64_to_le(s.end_time)
            &&& b.subrange(8, 16) == i64_to_le(s.start_time)
            &&& b.subrange(16, 24) == i64_to_le(s.amount_second)
            &&& b.subrange(24, 56) == s.to
            &&& b.subrange(56, 88) == s.from
            &&& b.subrange(88, 96) == i64_to_le(s.lamports_withdrawn)
            &&& b[96] == (if s.is_active { 1u8 } else { 0u8 })
            &&& b[97] == (if s.is_delegated { 1u8 } else { 0u8 })
            &&& b.subrange(98, 130) == s.stake_account
            &&& b.subrange(130, 138) == i64_to_le(s.delegate_time)
            &&& b.subrange(138, 170) == s.vote_right_to
            &&& b.subrange(170, 174) == u32_to_le(s.seed.len() as u32)
            &&& b.subrange(174, b.len() as int) == s.seed
        }),
{
    reveal(encode_stream);
    let b = encode_stream(s);
    lemma_i64_encode_decode(s.end_time);
    lemma_u32_encode_decode(s.seed.len() as u32);
    assert(b.len() == 174 + s.seed.len());
    assert(b.subrange(0, 8) =~= i64_to_le(s.end_time));
    assert(b.subrange(8, 16) =~= i64_to_le(s.start_time));
    assert(b.subrange(16, 24) =~= i64_to_le(s.amount_second));
    assert(b.subrange(24, 56) =~= s.to);
    assert(b.subrange(56, 88) =~= s.from);
    assert(b.subrange(88, 96) =~= i64_to_le(s.lamports_withdrawn));
    assert(b.subrange(98, 130) =~= s.stake_account);
    assert(b.subrange(130, 138) =~= i64_to_le(s.delegate_time));
    assert(b.subrange(138, 170) =~= s.vote_right_to);
    assert(b.subrange(170, 174) =~= u32_to_le(s.seed.len() as u32));
    assert(b.subrange(174, b.len() as int) =~= s.seed);
}

/// Reading bytes as a stream takes each field from its place in the layout: the
/// integers from their little-endian bytes, every address from its 32 bytes in
/// order, each flag from a byte that must be 0 or 1, and the seed from the rest
/// of the bytes, whose count the four-byte length gives and which must be UTF-8.
pub proof fn law_stream_read_layout(b: Seq<u8>)
    requires
        decode_stream(b) is Some,
    ensures
        ({
            let s = decode_stream(b).unwrap();
            &&& b.len() >= 174
            &&& s.end_time == i64_from_le(b.subrange(0, 8))
            &&& s.start_time == i64_from_le(b.subrange(8, 16))
            &&& s.amount_second == i64_from_le(b.subrange(16, 24))
            &&& s.to == b.subrange(24, 56)
            &&& s.from == b.subrange(56, 88)
            &&& s.lamports_withdrawn == i64_from_le(b.subrange(88, 96))
            &&& b[96] <= 1 && s.is_active == (b[96] == 1)
            &&& b[97] <= 1 && s.is_delegated == (b[97] == 1)
            &&& s.stake_account == b.subrange(98, 130)
            &&& s.delegate_time == i64_from_le(b.subrange(130, 138))
            &&& s.vote_right_to == b.subrange(138, 170)
            &&& s.seed == b.subrange(174, b.len() as int)
            &&& s.seed.len() == u32_from_le(b.subrange(170, 174))
            &&& vstd::utf8::valid_utf8(s.seed)
        }),
{
    reveal(decode_stream);
}

impl PaymentStreams {
    /// Reads a stream from bytes that hold exactly one stored stream.
    pub fn try_from_slice(b: &[u8]) -> (r: Option<PaymentStreams>)
        ensures
            match r {
                Some(s) => decode_stream(b@) == Some(s@),
                None => decode_stream(b@) is None,
            },
    {
        reveal(decode_stream);
        if b.len() < STREAM_FIXED_LEN + 4 {
            return None;
        }
        let n = read_u32(b, 170);
        if b[96] > 1 || b[97] > 1 || b.len() - 174 != n as usize {
            return None;
        }
        let mut seed: Vec<u8> = Vec::new();
        let mut i: usize = 174;
        while i < b.len()
            invariant
                174 <= i <= b.len(),
                seed@ =~= b@.subrange(174, i as int),
            decreases b.len() - i,
        {
            seed.push(b[i]);
            i = i + 1;
        }
        if !check_utf8(seed.as_slice()) {
            return None;
        }
        let s = PaymentStreams {
            end_time: read_i64(b, 0),
            start_time: read_i64(b, 8),
            amount_second: read_i64(b, 16),
            to: key_at(b, 24),
            from: key_at(b, 56),
            lamports_withdrawn: read_i64(b, 88),
            is_active: b[96] == 1,
            is_delegated: b[97] == 1,
            stake_account: key_at(b, 98),
            delegate_time: read_i64(b, 130),
            vote_right_to: key_at(b, 138),
            seed,
        };
        assert(decode_stream(b@).unwrap() =~= s@);
        Some(s)
    }

    /// The stored bytes of this stream; `None` when the seed is too long for its
    /// 4-byte length prefix.
    pub fn try_to_vec(&self) -> (r: Option<Vec<u8>>)
        ensures
            match r {
                Some(v) => self@.seed.len() <= u32::MAX && v@ == encode_stream(self@),
                None => self@.seed.len() > u32::MAX,
            },
    {
        reveal(encode_stream);
        if self.seed.len() > 0xffff_ffffusize {
            return None;
        }
        let mut out: Vec<u8> = Vec::new();
        push_i64(&mut out, self.end_time);
        push_i64(&mut out, self.start_time);
        push_i64(&mut out, self.amount_second);
        push_key(&mut out, &self.to);
        push_key(&mut out, &self.from);
        push_i64(&mut out, self.lamports_withdrawn);
        out.push(if self.is_active { 1u8 } else { 0u8 });
        out.push(if self.is_delegated { 1u8 } else { 0u8 });
        push_key(&mut out, &self.stake_account);
        push_i64(&mut out, self.delegate_time);
        push_key(&mut out, &self.vote_right_to);
        push_u32(&mut out, self.seed.len() as u32);
        let mut i: usize = 0;
        while i < self.seed.len()
            invariant
                0 <= i <= self.seed@.len(),
                out@ =~= encode_stream(self@).subrange(0, 174 + i),
            decreases self.seed.len() - i,
        {
            proof {
                reveal(encode_stream);
            }
            out.push(self.seed[i]);
            i = i + 1;
        }
        assert(out@ =~= encode_stream(self@));
        Some(out)
    }
}

/// Appends the 32 bytes of an address.
fn push_key(out: &mut Vec<u8>, k: &Pubkey)
    ensures
        final(out)@ == old(out)@ + k@,
{
    let mut i: usize = 0;
    while i < 32
        invariant
            0 <= i <= 32,
            k@.len() == 32,
            out@ =~= old(out)@ + k@.subrange(0, i as int),
        decreases 32 - i,
    {
        out.push(k.0[i]);
        i = i + 1;
    }
    assert(out@ =~= old(out)@ + k@);
}

} // verus!
