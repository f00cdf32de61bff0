//! The CPU-bound hashing workload: a tag-owning value whose `run` method
//! executes the tight hash loop, feeding the scratch buffer to a SHA-256
//! accumulator once per iteration, counters strictly increasing from 0.

use crate::buffer::BUFFER_SIZE;
use crate::buffer::MAX_TAG_LEN;
use crate::buffer::buffer_bytes;
use crate::buffer::init_buffer;
use crate::buffer::lemma_buffer_layout;
use crate::buffer::prefix_region;
use crate::buffer::write_counter;
use crate::hashing::Sha256Accumulator;
use crate::hashing::absorbed_bytes;
use crate::hashing::sha256_of;
use vstd::prelude::*;

verus! {

/// Every byte fed to the accumulator over `n` iterations: the buffer states
/// for counters 0, 1, ..., n - 1, concatenated in increasing counter order.
pub open spec fn hash_stream(tag: Seq<u8>, n: int) -> Seq<u8>
    decreases n,
{
    if n <= 0 {
        Seq::empty()
    } else {
        hash_stream(tag, n - 1) + buffer_bytes(tag, (n - 1) as u64)
    }
}

/// The digest the workload reports for a tag and an iteration count.
pub open spec fn digest_spec(tag: Seq<u8>, iterations: u64) -> Seq<u8> {
    sha256_of(hash_stream(tag, iterations as int))
}

/// The constant identifying tag written into the buffer's prefix region.
pub open spec fn benchmark_tag() -> Seq<u8> {
    seq![
        99u8, 112u8, 117u8, 45u8, 104u8, 97u8, 115u8, 104u8, 45u8, 98u8, 101u8, 110u8, 99u8,
        104u8, 109u8, 97u8, 114u8, 107u8,
    ]
}

/// The constant tag as a vector: the bytes of `"cpu-hash-benchmark"`.
pub fn benchmark_tag_vec() -> (tag: Vec<u8>)
    ensures
        tag@ == benchmark_tag(),
{
    let tag: Vec<u8> = vec![
        99u8, 112u8, 117u8, 45u8, 104u8, 97u8, 115u8, 104u8, 45u8, 98u8, 101u8, 110u8, 99u8,
        104u8, 109u8, 97u8, 114u8, 107u8,
    ];
    assert(tag@ =~= benchmark_tag());
    tag
}

/// The hashing workload for one tag. The tag never exceeds the prefix
/// capacity of 24 bytes: a longer tag is rejected at construction.
pub struct Workload {
    tag: Vec<u8>,
}

impl View for Workload {
    type V = Seq<u8>;

    /// A workload is characterised by its tag.
    closed spec fn view(&self) -> Seq<u8> {
        self.tag@
    }
}

#[verifier::type_invariant]
spec fn workload_tag_fits(w: &Workload) -> bool {
    w.tag@.len() <= MAX_TAG_LEN
}

impl Workload {
    /// Build the workload for `tag`, rejecting a tag longer than the prefix
    /// capacity before any hashing can begin.
    pub fn new(tag: Vec<u8>) -> (result: Option<Workload>)
        ensures
            result is Some <==> tag@.len() <= MAX_TAG_LEN,
            (match result {
                Some(w) => w@ == tag@,
                None => true,
            }),
    {
        if tag.len() <= MAX_TAG_LEN {
            Some(Workload { tag })
        } else {
            None
        }
    }

    /// The workload with the constant benchmark tag.
    pub fn standard() -> (w: Workload)
        ensures
            w@ == benchmark_tag(),
    {
        match Workload::new(benchmark_tag_vec()) {
            Some(w) => w,
            None => vstd::pervasive::unreached(),
        }
    }

    /// The scratch buffer as the hash loop feeds it for iteration `counter`.
    pub fn buffer_for(&self, counter: u64) -> (buf: Vec<u8>)
        ensures
            buf@ == buffer_bytes(self@, counter),
    {
        proof {
            use_type_invariant(self);
        }
        let mut buf = init_buffer(&self.tag);
        write_counter(&mut buf, counter);
        buf
    }

    /// Execute exactly `iterations` update operations against a fresh
    /// accumulator, feeding the buffer state for counter i at iteration i,
    /// i strictly increasing over [0, iterations), and return the digest.
    pub fn run(&self, iterations: u64) -> (digest: Vec<u8>)
        ensures
            digest@ == digest_spec(self@, iterations),
            digest@.len() == 32,
    {
        proof {
            use_type_invariant(self);
        }
        let mut buf = init_buffer(&self.tag);
        let mut acc = Sha256Accumulator::new();
        let mut i: u64 = 0;
        while i < iterations
            invariant
                i <= iterations,
                self.tag@.len() <= MAX_TAG_LEN,
                buf@.len() == BUFFER_SIZE,
                buf@.subrange(0, MAX_TAG_LEN as int) == prefix_region(self.tag@),
                absorbed_bytes(acc) == hash_stream(self.tag@, i as int),
            decreases iterations - i,
        {
            write_counter(&mut buf, i);
            assert(buf@ =~= buffer_bytes(self.tag@, i));
            assert(buf@.subrange(0, MAX_TAG_LEN as int) =~= prefix_region(self.tag@));
            acc.update(buf.as_slice());
            assert(absorbed_bytes(acc) == hash_stream(self.tag@, i + 1));
            i = i + 1;
        }
        acc.finalize()
    }
}

/// Determinism: the reported digest is a function of the tag and the
/// iteration count alone; equal inputs name equal digests.
pub proof fn lemma_digest_deterministic(tag1: Seq<u8>, tag2: Seq<u8>, n1: u64, n2: u64)
    requires
        tag1 == tag2,
        n1 == n2,
    ensures
        digest_spec(tag1, n1) == digest_spec(tag2, n2),
{
}

/// The stream over `n` iterations is exactly 32 bytes per iteration.
pub proof fn lemma_hash_stream_len(tag: Seq<u8>, n: int)
    requires
        tag.len() <= MAX_TAG_LEN,
        0 <= n,
    ensures
        hash_stream(tag, n).len() == 32 * n,
    decreases n,
{
    if n > 0 {
        lemma_hash_stream_len(tag, n - 1);
        lemma_buffer_layout(tag, (n - 1) as u64);
    }
}

/// Raising the iteration count by one appends a new counter encoding, so the
/// byte stream fed to the accumulator changes for every starting count.
pub proof fn lemma_stream_iteration_sensitive(tag: Seq<u8>, n: u64)
    requires
        tag.len() <= MAX_TAG_LEN,
        n < u64::MAX,
    ensures
        hash_stream(tag, n as int) != hash_stream(tag, n + 1),
{
    lemma_hash_stream_len(tag, n as int);
    lemma_hash_stream_len(tag, n + 1);
}

/// Zero iterations: the reported digest is that of an accumulator that
/// absorbed nothing.
pub proof fn lemma_zero_iterations(tag: Seq<u8>)
    ensures
        digest_spec(tag, 0) == sha256_of(Seq::<u8>::empty()),
{
}

} // verus!
