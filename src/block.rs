//! Decoding of raw byte blocks: interleaved I/Q pairs from the tuner, and
//! big-endian 32-bit words from saved baseband recordings.

use vstd::prelude::*;
use crate::consts::{BUF_BYTES, BUF_SAMPLES, IQ_TABLE_LEN};

verus! {

/// Why a byte block could not be decoded.
#[derive(Clone, Copy, Debug, PartialEq, Eq, Structural)]
pub enum BlockError {
    /// The block does not hold exactly one configured block of samples.
    WrongLength,
    /// The block does not hold a whole number of 32-bit words.
    PartialWord,
}

/// Position in the I/Q lookup table of the sample whose I byte is `i` and
/// whose Q byte is `q`: the I byte, which the tuner sends first, is the low
/// half of the index.
pub open spec fn iq_index(i: u8, q: u8) -> int {
    i + 256 * q
}

/// The lookup-table index of the `k`-th I/Q pair of a byte sequence.
pub open spec fn pair_index(b: Seq<u8>, k: int) -> int {
    iq_index(b[2 * k], b[2 * k + 1])
}

/// The big-endian 32-bit word made of four bytes.
pub open spec fn be_word(b0: u8, b1: u8, b2: u8, b3: u8) -> int {
    b0 * 0x100_0000 + b1 * 0x1_0000 + b2 * 0x100 + b3
}

/// The `k`-th big-endian 32-bit word of a byte sequence.
pub open spec fn word_at(b: Seq<u8>, k: int) -> int {
    be_word(b[4 * k], b[4 * k + 1], b[4 * k + 2], b[4 * k + 3])
}

/// Decode one raw block into `out`, mapping each I/Q byte pair through the
/// lookup table `table`, in order. A block that does not hold exactly
/// `BUF_BYTES` bytes is refused and `out` is left as it was.
pub fn decode_block<T: Copy>(bytes: &[u8], table: &[T], out: &mut Vec<T>) -> (r: Result<
    (),
    BlockError,
>)
    requires
        table@.len() == IQ_TABLE_LEN,
        old(out)@.len() == BUF_SAMPLES,
    ensures
        r is Ok <==> bytes@.len() == BUF_BYTES,
        r is Err ==> r == Err::<(), BlockError>(BlockError::WrongLength) && final(out)@ == old(
            out,
        )@,
        final(out)@.len() == BUF_SAMPLES,
        r is Ok ==> forall|k: int|
            0 <= k < BUF_SAMPLES ==> #[trigger] final(out)@[k] == table@[pair_index(bytes@, k)],
{
    if bytes.len() != BUF_BYTES {
        return Err(BlockError::WrongLength);
    }
    let mut k: usize = 0;
    while k < BUF_SAMPLES
        invariant
            bytes@.len() == BUF_BYTES,
            table@.len() == IQ_TABLE_LEN,
            out@.len() == BUF_SAMPLES,
            k <= BUF_SAMPLES,
            forall|j: int| 0 <= j < k ==> #[trigger] out@[j] == table@[pair_index(bytes@, j)],
        decreases BUF_SAMPLES - k,
    {
        let i: usize = bytes[2 * k] as usize;
        let q: usize = bytes[2 * k + 1] as usize;
        let x = table[i + 256 * q];
        out.set(k, x);
        k = k + 1;
    }
    Ok(())
}

/// Decode a chunk of a saved recording into big-endian 32-bit words, in
/// order. A chunk that does not hold a whole number of words is refused.
pub fn be_words(bytes: &[u8]) -> (r: Result<Vec<u32>, BlockError>)
    ensures
        bytes@.len() % 4 != 0 ==> r == Err::<Vec<u32>, BlockError>(BlockError::PartialWord),
        bytes@.len() % 4 == 0 ==> r is Ok,
        r matches Ok(v) ==> {
            &&& 4 * v@.len() == bytes@.len()
            &&& forall|k: int| 0 <= k < v@.len() ==> #[trigger] v@[k] as int == word_at(bytes@, k)
        },
{
    if bytes.len() % 4 != 0 {
        return Err(BlockError::PartialWord);
    }
    let n: usize = bytes.len() / 4;
    let mut out: Vec<u32> = Vec::with_capacity(n);
    let mut k: usize = 0;
    while k < n
        invariant
            n == bytes@.len() / 4,
            bytes@.len() % 4 == 0,
            bytes@.len() <= usize::MAX,
            k <= n,
            out@.len() == k,
            forall|j: int| 0 <= j < k ==> #[trigger] out@[j] as int == word_at(bytes@, j),
        decreases n - k,
    {
        assert(4 * k + 3 < bytes@.len()) by (nonlinear_arith)
            requires
                k < n,
                n == bytes@.len() / 4,
        ;
        let base: usize = 4 * k;
        let b0: u32 = bytes[base] as u32;
        let b1: u32 = bytes[base + 1] as u32;
        let b2: u32 = bytes[base + 2] as u32;
        let b3: u32 = bytes[base + 3] as u32;
        let w: u32 = b0 * 0x100_0000 + b1 * 0x1_0000 + b2 * 0x100 + b3;
        out.push(w);
        k = k + 1;
    }
    Ok(out)
}

} // verus!
