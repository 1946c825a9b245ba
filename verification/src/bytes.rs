use vstd::prelude::*;

verus! {

/// A sequence of `len` zero bytes.
pub open spec fn zeros(len: nat) -> Seq<u8> {
    Seq::new(len, |i: int| 0u8)
}

/// Allocates `len` zero bytes.
pub fn zeroed(len: usize) -> (bytes: Vec<u8>)
    ensures
        bytes@ == zeros(len as nat),
{
    let mut bytes: Vec<u8> = Vec::with_capacity(len);
    let mut i: usize = 0;
    while i < len
        invariant
            i <= len,
            bytes@ == zeros(i as nat),
        decreases len - i,
    {
        bytes.push(0);
        i += 1;
        proof {
            assert(bytes@ =~= zeros(i as nat));
        }
    }
    bytes
}

/// Copies a byte slice into a new vector.
pub fn copy_bytes(src: &[u8]) -> (bytes: Vec<u8>)
    ensures
        bytes@ == src@,
{
    let mut bytes: Vec<u8> = Vec::with_capacity(src.len());
    let mut i: usize = 0;
    while i < src.len()
        invariant
            i <= src@.len(),
            bytes@ == src@.take(i as int),
        decreases src@.len() - i,
    {
        bytes.push(src[i]);
        i += 1;
        proof {
            assert(bytes@ =~= src@.take(i as int));
        }
    }
    proof {
        assert(src@.take(src@.len() as int) =~= src@);
    }
    bytes
}

/// Overwrites every byte of `dst` with the byte at the same index of `src`.
pub fn copy_into(dst: &mut Vec<u8>, src: &[u8])
    requires
        old(dst)@.len() == src@.len(),
    ensures
        final(dst)@ == src@,
{
    let mut i: usize = 0;
    while i < src.len()
        invariant
            i <= src@.len(),
            dst@.len() == src@.len(),
            forall|j: int| 0 <= j < i ==> dst@[j] == src@[j],
        decreases src@.len() - i,
    {
        dst.set(i, src[i]);
        i += 1;
    }
    proof {
        assert(dst@ =~= src@);
    }
}

/// One 8 KiB RAM bank, cleared.
pub fn zero_bank() -> (bank: [u8; 0x2000])
    ensures
        bank@ == zeros(0x2000),
{
    let bank = [0u8; 0x2000];
    assert(bank@ =~= zeros(0x2000));
    bank
}

/// Overwrites every byte of an 8 KiB bank with the byte at the same index of `src`.
pub fn copy_into_bank(dst: &mut [u8; 0x2000], src: &[u8])
    requires
        src@.len() == 0x2000,
    ensures
        final(dst)@ == src@,
{
    let mut i: usize = 0;
    while i < 0x2000
        invariant
            i <= 0x2000,
            src@.len() == 0x2000,
            forall|j: int| 0 <= j < i ==> dst@[j] == src@[j],
        decreases 0x2000 - i,
    {
        dst[i] = src[i];
        i += 1;
    }
    assert(dst@ =~= src@);
}

/// Masking with a run of low bits keeps `x` modulo the next power of two,
/// so the result is at most the mask.
pub proof fn lemma_u8_low_mask(x: u8, mask: u8)
    requires
        mask == 1 || mask == 3 || mask == 7 || mask == 15 || mask == 31 || mask == 63 || mask == 127,
    ensures
        x & mask == x as int % (mask + 1),
        x & mask <= mask,
{
    vstd::arithmetic::power2::lemma2_to64();
    let n: nat = if mask == 1 {
        1
    } else if mask == 3 {
        2
    } else if mask == 7 {
        3
    } else if mask == 15 {
        4
    } else if mask == 31 {
        5
    } else if mask == 63 {
        6
    } else {
        7
    };
    vstd::bits::lemma_u8_low_bits_mask_is_mod(x, n);
    assert(vstd::bits::low_bits_mask(n) == mask);
}

} // verus!
