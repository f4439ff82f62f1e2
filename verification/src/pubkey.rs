use vstd::prelude::*;

verus! {

/// A 32-byte account address, held as its raw bytes.
#[derive(Clone, Copy, Debug, PartialEq, Eq)]
pub struct Pubkey(pub [u8; 32]);

impl View for Pubkey {
    type V = Seq<u8>;

    open spec fn view(&self) -> Seq<u8> {
        self.0@
    }
}

/// Byte-wise comparison of two addresses.
pub fn same_key(a: &Pubkey, b: &Pubkey) -> (r: bool)
    ensures
        r == (a@ == b@),
{
    let mut i: usize = 0;
    while i < 32
        invariant
            0 <= i <= 32,
            a@.len() == 32,
            b@.len() == 32,
            forall|j: int| 0 <= j < i ==> a@[j] == b@[j],
        decreases 32 - i,
    {
        if a.0[i] != b.0[i] {
            return false;
        }
        i = i + 1;
    }
    assert(a@ =~= b@);
    true
}

/// Copies the 32 bytes at `off` into an address.
pub fn key_at(b: &[u8], off: usize) -> (r: Pubkey)
    requires
        off + 32 <= b.len(),
    ensures
        r@ == b@.subrange(off as int, off + 32),
{
    let mut arr = [0u8; 32];
    let mut i: usize = 0;
    while i < 32
        invariant
            0 <= i <= 32,
            off + 32 <= b.len(),
            arr@.len() == 32,
            forall|j: int| 0 <= j < i ==> arr@[j] == b@[off + j],
        decreases 32 - i,
    {
        arr[i] = b[off + i];
        i = i + 1;
    }
    let r = Pubkey(arr);
    assert(r@ =~= b@.subrange(off as int, off + 32));
    r
}

} // verus!
