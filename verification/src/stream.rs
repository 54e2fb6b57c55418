//! The raw side of the live stream: a chunk of bytes holds 32-bit samples,
//! least significant byte first.

use vstd::prelude::*;

verus! {

/// The number of bytes that one sample takes in the stream.
pub const BYTES_PER_SAMPLE: u32 = 4;

/// The 32-bit word that the four bytes from index `at` spell, least
/// significant byte first.
pub open spec fn word_le(bytes: Seq<u8>, at: int) -> u32 {
    (bytes[at] + bytes[at + 1] * 0x100 + bytes[at + 2] * 0x1_0000 + bytes[at + 3]
        * 0x100_0000) as u32
}

/// The first `count` words of `bytes`.
pub open spec fn words_le(bytes: Seq<u8>, count: nat) -> Seq<u32> {
    Seq::new(count, |i: int| word_le(bytes, 4 * i))
}

/// The number of whole samples in a chunk of `chunk_size` bytes.
pub fn sample_count(chunk_size: u32) -> (count: u32)
    ensures
        count == chunk_size / 4,
{
    chunk_size / BYTES_PER_SAMPLE
}

/// The first `count` samples of a chunk, each as the bit pattern of its
/// 32-bit float.
pub fn decode_samples(data: &[u8], count: usize) -> (samples: Vec<u32>)
    requires
        count * 4 <= data@.len(),
    ensures
        samples@ == words_le(data@, count as nat),
{
    let len: usize = data.len();
    let mut samples: Vec<u32> = Vec::new();
    let mut n: usize = 0;
    while n < count
        invariant
            n <= count,
            count * 4 <= data@.len() == len,
            samples@ == words_le(data@, n as nat),
        decreases count - n,
    {
        let start: usize = n * 4;
        let word: u32 = data[start] as u32 + data[start + 1] as u32 * 0x100 + data[start
            + 2] as u32 * 0x1_0000 + data[start + 3] as u32 * 0x100_0000;
        samples.push(word);
        n += 1;
        assert(samples@ =~= words_le(data@, n as nat));
    }
    samples
}

} // verus!
