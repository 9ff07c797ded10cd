//! Hashing of byte strings with MuseAir (seed 0).
use vstd::prelude::*;

verus! {

/// The 64-bit MuseAir hash of `bytes` with seed 0.
pub uninterp spec fn museair_hash(bytes: Seq<u8>) -> u64;

/// `museair::hash(bytes, 0)`: the 64-bit MuseAir hash of the bytes with
/// seed 0, a function of the bytes alone (the crate's incremental hasher
/// gives the same value for the same bytes written in pieces).
#[verifier::external_body]
pub(crate) fn hash64(bytes: &[u8]) -> (r: u64)
    ensures
        r == museair_hash(bytes@),
{
    museair::hash(bytes, 0)
}

/// The `count` lowest bytes of `n`, least significant first.
pub open spec fn le_digits(n: nat, count: nat) -> Seq<u8>
    decreases count,
{
    if count == 0 {
        Seq::empty()
    } else {
        seq![(n % 256) as u8] + le_digits(n / 256, (count - 1) as nat)
    }
}

/// The bytes of `n` in little-endian order (as `usize::to_le_bytes` gives them).
pub open spec fn usize_le(n: usize) -> Seq<u8> {
    le_digits(n as nat, (usize::BITS / 8) as nat)
}

/// Appends the bytes of `n` in little-endian order.
pub fn push_le_bytes(out: &mut Vec<u8>, n: usize)
    ensures
        final(out)@ == old(out)@ + usize_le(n),
{
    let count: u32 = usize::BITS / 8;
    let mut x: usize = n;
    let mut k: u32 = 0;
    let ghost start = out@;
    assert(le_digits(n as nat, count as nat) == le_digits(x as nat, (count - k) as nat));
    while k < count
        invariant
            k <= count,
            count == usize::BITS / 8,
            out@ + le_digits(x as nat, (count - k) as nat) == start + le_digits(n as nat, count as nat),
        decreases count - k,
    {
        let ghost before = out@;
        let ghost rest = le_digits(x as nat, (count - k) as nat);
        assert(rest == seq![(x % 256) as u8] + le_digits((x / 256) as nat, (count - k - 1) as nat));
        out.push((x % 256) as u8);
        x = x / 256;
        k = k + 1;
        assert(before + rest =~= out@ + le_digits(x as nat, (count - k) as nat));
    }
    assert(out@ + Seq::<u8>::empty() =~= out@);
}

} // verus!
