//! Layout of the 32-byte scratch buffer: a constant tag in the prefix region,
//! zero padding up to byte 24, and the iteration counter encoded as 8
//! little-endian bytes in the counter region, bytes [24, 32).

use vstd::bytes::lemma_auto_spec_u64_to_from_le_bytes;
use vstd::bytes::spec_u64_to_le_bytes;
use vstd::bytes::u64_to_le_bytes;
use vstd::prelude::*;

verus! {

/// Total size of the scratch buffer, in bytes.
pub const BUFFER_SIZE: usize = 32;

/// Size of the trailing counter region, in bytes.
pub const COUNTER_SIZE: usize = 8;

/// Largest tag that leaves room for the counter region.
pub const MAX_TAG_LEN: usize = 24;

/// A sequence of `n` zero bytes.
pub open spec fn zero_bytes(n: nat) -> Seq<u8> {
    Seq::new(n, |i: int| 0u8)
}

/// The first 24 bytes of the buffer: the tag, then zero padding.
pub open spec fn prefix_region(tag: Seq<u8>) -> Seq<u8>
    recommends
        tag.len() <= MAX_TAG_LEN,
{
    tag + zero_bytes((MAX_TAG_LEN - tag.len()) as nat)
}

/// The whole buffer as it stands while iteration `counter` is hashed: the
/// tag, zero padding up to byte 24, and the counter in little-endian order.
pub open spec fn buffer_bytes(tag: Seq<u8>, counter: u64) -> Seq<u8>
    recommends
        tag.len() <= MAX_TAG_LEN,
{
    prefix_region(tag) + spec_u64_to_le_bytes(counter)
}

/// Buffer layout: for a tag of length at most 24 the buffer is exactly 32
/// bytes, with the tag in [0, P), zeros in [P, 24), and the little-endian
/// encoding of the counter in [24, 32).
pub proof fn lemma_buffer_layout(tag: Seq<u8>, counter: u64)
    requires
        tag.len() <= MAX_TAG_LEN,
    ensures
        buffer_bytes(tag, counter).len() == BUFFER_SIZE,
        forall|i: int| 0 <= i < tag.len() ==> buffer_bytes(tag, counter)[i] == tag[i],
        forall|i: int|
            tag.len() <= i < MAX_TAG_LEN ==> buffer_bytes(tag, counter)[i] == 0u8,
        buffer_bytes(tag, counter).subrange(MAX_TAG_LEN as int, BUFFER_SIZE as int)
            == spec_u64_to_le_bytes(counter),
{
    lemma_auto_spec_u64_to_from_le_bytes();
    assert(buffer_bytes(tag, counter).subrange(MAX_TAG_LEN as int, BUFFER_SIZE as int)
        =~= spec_u64_to_le_bytes(counter));
}

/// Allocate the buffer once: the tag in [0, P), every remaining byte zero
/// (the counter region stays zero until the first per-iteration update).
pub fn init_buffer(tag: &Vec<u8>) -> (buf: Vec<u8>)
    requires
        tag@.len() <= MAX_TAG_LEN,
    ensures
        buf@.len() == BUFFER_SIZE,
        buf@ == tag@ + zero_bytes((BUFFER_SIZE - tag@.len()) as nat),
        buf@.subrange(0, MAX_TAG_LEN as int) == prefix_region(tag@),
{
    let mut buf: Vec<u8> = Vec::new();
    let tag_len = tag.len();
    let mut i: usize = 0;
    while i < tag_len
        invariant
            i <= tag_len,
            tag_len == tag@.len() <= MAX_TAG_LEN,
            buf@ == tag@.subrange(0, i as int),
        decreases tag_len - i,
    {
        buf.push(tag[i]);
        assert(buf@ =~= tag@.subrange(0, i + 1));
        i = i + 1;
    }
    while buf.len() < BUFFER_SIZE
        invariant
            tag@.len() <= buf@.len() <= BUFFER_SIZE,
            buf@ == tag@ + zero_bytes((buf@.len() - tag@.len()) as nat),
        decreases BUFFER_SIZE - buf@.len(),
    {
        buf.push(0u8);
        assert(buf@ =~= tag@ + zero_bytes((buf@.len() - tag@.len()) as nat));
    }
    assert(buf@.subrange(0, MAX_TAG_LEN as int) =~= prefix_region(tag@));
    buf
}

/// Overwrite the counter region, bytes [24, 32), with `counter` in
/// little-endian order; the prefix region is untouched.
pub fn write_counter(buf: &mut Vec<u8>, counter: u64)
    requires
        old(buf)@.len() == BUFFER_SIZE,
    ensures
        final(buf)@.len() == BUFFER_SIZE,
        final(buf)@ == old(buf)@.subrange(0, MAX_TAG_LEN as int)
            + spec_u64_to_le_bytes(counter),
{
    proof {
        lemma_auto_spec_u64_to_from_le_bytes();
    }
    let counter_bytes = u64_to_le_bytes(counter);
    let mut j: usize = 0;
    while j < COUNTER_SIZE
        invariant
            j <= COUNTER_SIZE,
            counter_bytes@ == spec_u64_to_le_bytes(counter),
            counter_bytes@.len() == COUNTER_SIZE,
            buf@.len() == BUFFER_SIZE,
            buf@.subrange(0, MAX_TAG_LEN as int) == old(buf)@.subrange(0, MAX_TAG_LEN as int),
            buf@.subrange(MAX_TAG_LEN as int, MAX_TAG_LEN + j as int)
                == counter_bytes@.subrange(0, j as int),
        decreases COUNTER_SIZE - j,
    {
        buf.set(MAX_TAG_LEN + j, counter_bytes[j]);
        assert(buf@.subrange(0, MAX_TAG_LEN as int)
            =~= old(buf)@.subrange(0, MAX_TAG_LEN as int));
        assert(buf@.subrange(MAX_TAG_LEN as int, MAX_TAG_LEN + (j + 1) as int)
            =~= counter_bytes@.subrange(0, j + 1));
        j = j + 1;
    }
    proof {
        let cb = spec_u64_to_le_bytes(counter);
        assert(counter_bytes@.subrange(0, COUNTER_SIZE as int) =~= cb);
        assert forall|k: int| 0 <= k < BUFFER_SIZE implies buf@[k] == (old(buf)@.subrange(
            0,
            MAX_TAG_LEN as int,
        ) + cb)[k] by {
            if k < MAX_TAG_LEN {
                assert(buf@.subrange(0, MAX_TAG_LEN as int)[k] == old(buf)@.subrange(
                    0,
                    MAX_TAG_LEN as int,
                )[k]);
            } else {
                assert(buf@.subrange(MAX_TAG_LEN as int, MAX_TAG_LEN + COUNTER_SIZE as int)[k
                    - MAX_TAG_LEN] == cb[k - MAX_TAG_LEN]);
            }
        }
        assert(buf@ =~= old(buf)@.subrange(0, MAX_TAG_LEN as int) + cb);
    }
}

} // verus!
