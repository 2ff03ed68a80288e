//! Synthesis of the deterministic payload that a probe writes.
//!
//! The payload starts as a zeroed seed buffer of `chunk_size` bytes; after
//! it, one byte is appended for each of the `total_size - 1` growth steps.
//! Every 1024th appended byte is a newline, all others are the letter `a`.
//! The final length is therefore `chunk_size + total_size - 1`, not
//! `total_size`: the seed is reused as the start of the grown buffer.

use vstd::prelude::*;

verus! {

/// The byte appended at (1-based) growth step `i`: a newline at every
/// 1024th step, the letter `a` at every other step.
pub open spec fn appended_byte(i: int) -> u8 {
    if i % 1024 == 0 {
        10u8
    } else {
        97u8
    }
}

/// The whole payload for a probe with the given sizes: `chunk_size`
/// zeroed seed bytes followed by `total_size - 1` appended bytes.
pub open spec fn payload_bytes(total_size: int, chunk_size: int) -> Seq<u8> {
    Seq::new(
        (chunk_size + total_size - 1) as nat,
        |j: int|
            if j < chunk_size {
                0u8
            } else {
                appended_byte(j - chunk_size + 1)
            },
    )
}

/// Builds the payload for a probe.  Both sizes must be positive: a probe
/// with no target size is rejected up front rather than producing an
/// empty or seed-only payload.
pub fn synthesize_payload(total_size: usize, chunk_size: usize) -> (r: Vec<u8>)
    requires
        1 <= total_size,
        1 <= chunk_size,
        chunk_size + total_size - 1 <= usize::MAX,
    ensures
        r@ == payload_bytes(total_size as int, chunk_size as int),
        r@.len() == chunk_size + total_size - 1,
{
    let mut buf: Vec<u8> = Vec::new();
    let mut j: usize = 0;
    while j < chunk_size
        invariant
            j <= chunk_size,
            buf@.len() == j,
            forall|k: int| 0 <= k < j ==> buf@[k] == 0u8,
        decreases chunk_size - j,
    {
        buf.push(0u8);
        j = j + 1;
    }
    let mut i: usize = 1;
    while i < total_size
        invariant
            1 <= i <= total_size,
            1 <= chunk_size,
            chunk_size + total_size - 1 <= usize::MAX,
            buf@.len() == chunk_size + i - 1,
            forall|k: int| 0 <= k < chunk_size ==> buf@[k] == 0u8,
            forall|k: int|
                chunk_size <= k < buf@.len() ==> buf@[k] == appended_byte(k - chunk_size + 1),
        decreases total_size - i,
    {
        if i % 1024 == 0 {
            buf.push(10u8);
        } else {
            buf.push(97u8);
        }
        i = i + 1;
    }
    proof {
        assert(buf@ =~= payload_bytes(total_size as int, chunk_size as int));
    }
    buf
}

/// The payload's length is always `chunk_size + total_size - 1`.
pub proof fn lemma_payload_len(total_size: int, chunk_size: int)
    requires
        1 <= total_size,
        1 <= chunk_size,
    ensures
        payload_bytes(total_size, chunk_size).len() == chunk_size + total_size - 1,
{
}

/// Among the appended bytes, every 1024th is a newline and all the
/// others are the letter `a`.  Growth step `i` lands at payload index
/// `chunk_size + i - 1`.
pub proof fn lemma_appended_pattern(total_size: int, chunk_size: int, i: int)
    requires
        1 <= total_size,
        1 <= chunk_size,
        1 <= i < total_size,
    ensures
        payload_bytes(total_size, chunk_size)[chunk_size + i - 1] == (if i % 1024 == 0 {
            10u8
        } else {
            97u8
        }),
{
}

/// Every payload byte is one of zero, newline or the letter `a`, and in
/// particular ASCII.  A byte sequence of ASCII bytes is valid text whose
/// decoding is the identity, so a faithful write followed by a faithful
/// text read hands the payload back byte for byte.
pub proof fn lemma_payload_is_text(total_size: int, chunk_size: int, j: int)
    requires
        1 <= total_size,
        1 <= chunk_size,
        0 <= j < payload_bytes(total_size, chunk_size).len(),
    ensures
        payload_bytes(total_size, chunk_size)[j] == 0u8 || payload_bytes(total_size, chunk_size)[j]
            == 10u8 || payload_bytes(total_size, chunk_size)[j] == 97u8,
        payload_bytes(total_size, chunk_size)[j] < 128,
{
}

} // verus!
