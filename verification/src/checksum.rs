//! The one-byte checksum that closes every packet.

use vstd::prelude::*;

verus! {

/// The sum of all bytes of `data`, as a mathematical integer.
pub open spec fn byte_sum(data: Seq<u8>) -> nat
    decreases data.len(),
{
    if data.len() == 0 {
        0
    } else {
        byte_sum(data.drop_last()) + data.last() as nat
    }
}

/// The checksum of `data`: 255 minus the byte sum taken modulo 256.
pub open spec fn checksum_of(data: Seq<u8>) -> u8 {
    (255 - byte_sum(data) % 256) as u8
}

/// The byte sum and the checksum of the same bytes add up to 255 modulo 256:
/// a checksum that was appended verifies against the bytes it was made from.
pub proof fn lemma_checksum_complements_sum(data: Seq<u8>)
    ensures
        checksum_of(data) == 255 - byte_sum(data) % 256,
        (byte_sum(data) + checksum_of(data)) % 256 == 255,
{
}

/// The byte sum of two runs of bytes, one after the other, is the sum of
/// their byte sums.
pub proof fn lemma_byte_sum_concat(a: Seq<u8>, b: Seq<u8>)
    ensures
        byte_sum(a + b) == byte_sum(a) + byte_sum(b),
    decreases b.len(),
{
    if b.len() == 0 {
        assert(a + b =~= a);
    } else {
        lemma_byte_sum_concat(a, b.drop_last());
        assert((a + b).drop_last() =~= a + b.drop_last());
    }
}

/// Bytes that are followed by their checksum sum up to 255 modulo 256, which
/// is how a receiver may verify them.
pub proof fn lemma_checked_bytes_sum_to_255(data: Seq<u8>)
    ensures
        byte_sum(data.push(checksum_of(data))) % 256 == 255,
{
    let checksum = checksum_of(data);
    assert(data.push(checksum) =~= data + seq![checksum]);
    lemma_byte_sum_concat(data, seq![checksum]);
    assert(seq![checksum].drop_last() =~= Seq::<u8>::empty());
    assert(byte_sum(seq![checksum]) == checksum as nat) by {
        reveal_with_fuel(byte_sum, 2);
    }
}

/// Computes the checksum of `data`.
pub fn calculate_checksum(data: &[u8]) -> (checksum: u8)
    ensures
        checksum == checksum_of(data@),
{
    let mut sum: u8 = 0;
    let mut i: usize = 0;
    while i < data.len()
        invariant
            i <= data@.len(),
            sum as nat == byte_sum(data@.subrange(0, i as int)) % 256,
        decreases data@.len() - i,
    {
        proof {
            let next = data@.subrange(0, i + 1);
            assert(next.drop_last() =~= data@.subrange(0, i as int));
            assert(next.last() == data@[i as int]);
        }
        sum = sum.wrapping_add(data[i]);
        i += 1;
    }
    proof {
        assert(data@.subrange(0, i as int) =~= data@);
    }
    255 - sum
}

} // verus!
