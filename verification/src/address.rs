//! Ledger addresses and fixed-width byte fields.

use vstd::prelude::*;

verus! {

/// Number of bytes of an address.
pub const ADDRESS_LEN: usize = 32;

/// A 32-byte ledger address. Its model is the sequence of its bytes.
#[derive(Clone, Copy, Debug)]
pub struct Address {
    pub bytes: [u8; 32],
}

impl View for Address {
    type V = Seq<u8>;

    open spec fn view(&self) -> Seq<u8> {
        self.bytes@
    }
}

/// The array whose bytes are `s`; meaningful when `s` has `N` elements.
pub closed spec fn array_of<const N: usize>(s: Seq<u8>) -> [u8; N] {
    choose|a: [u8; N]| a@ == s
}

/// The address whose bytes are `s`; meaningful when `s` has 32 elements.
pub open spec fn address_of(s: Seq<u8>) -> Address {
    Address { bytes: array_of::<32>(s) }
}

/// An array is determined by its bytes.
pub proof fn lemma_array_of<const N: usize>(a: [u8; N])
    ensures
        array_of::<N>(a@) == a,
{
    let b = array_of::<N>(a@);
    assert(b@ == a@);
    assert(b =~= a);
}

/// An address is determined by its bytes.
pub proof fn lemma_address_of(a: Address)
    ensures
        address_of(a@) == a,
        a@.len() == 32,
{
    lemma_array_of::<32>(a.bytes);
}

/// An array that agrees with `s` on its first `k` bytes.
proof fn lemma_array_with_prefix<const N: usize>(s: Seq<u8>, k: nat) -> (a: [u8; N])
    requires
        s.len() == N,
        k <= N,
    ensures
        a@.len() == N,
        forall|j: int| 0 <= j < k ==> a@[j] == s[j],
    decreases k,
{
    if k == 0 {
        vstd::array::spec_array_fill_for_copy_type::<u8, N>(0u8)
    } else {
        let shorter = lemma_array_with_prefix::<N>(s, (k - 1) as nat);
        vstd::array::spec_array_update(shorter, k - 1, s[k - 1])
    }
}

/// Every sequence of `N` bytes is the content of an array.
pub proof fn lemma_array_of_seq<const N: usize>(s: Seq<u8>)
    requires
        s.len() == N,
    ensures
        array_of::<N>(s)@ == s,
{
    let a = lemma_array_with_prefix::<N>(s, N as nat);
    assert(a@ =~= s);
}

/// Every sequence of 32 bytes is the content of an address.
pub proof fn lemma_address_of_seq(s: Seq<u8>)
    requires
        s.len() == 32,
    ensures
        address_of(s)@ == s,
{
    lemma_array_of_seq::<32>(s);
}

/// Copies `N` bytes of `data`, starting at `start`, into an array.
pub fn read_array<const N: usize>(data: &[u8], start: usize) -> (out: [u8; N])
    requires
        start + N <= data@.len(),
    ensures
        out@ == data@.subrange(start as int, start + N),
        out == array_of::<N>(data@.subrange(start as int, start + N)),
{
    let len = data.len();
    let mut out: [u8; N] = [0u8; N];
    let mut i: usize = 0;
    while i < N
        invariant
            i <= N,
            start + N <= len == data@.len(),
            out@.len() == N,
            forall|j: int| 0 <= j < i ==> out@[j] == data@[start + j],
        decreases N - i,
    {
        out[i] = data[start + i];
        i += 1;
    }
    assert(out@ =~= data@.subrange(start as int, start + N));
    proof {
        lemma_array_of::<N>(out);
    }
    out
}

/// Appends the bytes of `src` to `dst`.
pub fn append_bytes(dst: &mut Vec<u8>, src: &[u8])
    ensures
        final(dst)@ == old(dst)@ + src@,
{
    let mut i: usize = 0;
    while i < src.len()
        invariant
            i <= src@.len(),
            dst@ == old(dst)@ + src@.subrange(0, i as int),
        decreases src@.len() - i,
    {
        dst.push(src[i]);
        i += 1;
        assert(dst@ =~= old(dst)@ + src@.subrange(0, i as int));
    }
    assert(src@.subrange(0, src@.len() as int) =~= src@);
}

impl Address {
    /// The address with the given bytes.
    pub fn new(bytes: [u8; 32]) -> (a: Address)
        ensures
            a@ == bytes@,
            a.bytes == bytes,
    {
        Address { bytes }
    }

    /// The address stored in `data` at `start`.
    pub fn read(data: &[u8], start: usize) -> (a: Address)
        requires
            start + 32 <= data@.len(),
        ensures
            a@ == data@.subrange(start as int, start + 32),
            a == address_of(data@.subrange(start as int, start + 32)),
    {
        Address { bytes: read_array::<32>(data, start) }
    }

    /// Whether two addresses are the same.
    pub fn same(&self, other: &Address) -> (b: bool)
        ensures
            b == (*self == *other),
            b == (self@ == other@),
    {
        let mut i: usize = 0;
        while i < 32
            invariant
                i <= 32,
                forall|j: int| 0 <= j < i ==> self.bytes@[j] == other.bytes@[j],
            decreases 32 - i,
        {
            if self.bytes[i] != other.bytes[i] {
                return false;
            }
            i += 1;
        }
        assert(self.bytes =~= other.bytes);
        true
    }

    /// The bytes of the address, as an owned vector.
    pub fn to_vec(&self) -> (v: Vec<u8>)
        ensures
            v@ == self@,
    {
        let mut v: Vec<u8> = Vec::new();
        append_bytes(&mut v, self.bytes.as_slice());
        v
    }
}

} // verus!
