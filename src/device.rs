use vstd::prelude::*;

use crate::codec::{be_bytes_u64, u64_from_le, u64_from_le_at, u64_to_be};

verus! {

// A sandboxed device takes a request as eight 64-bit words, each made of eight
// frame bytes in little-endian order, and hands its response back word by word,
// each word giving eight frame bytes in big-endian order.
/// Words in one frame.
pub const FRAME_WORDS: usize = 8;

/// Errors at the device boundary.
#[derive(Copy, Clone, Debug, PartialEq, Eq, Structural)]
pub enum DeviceError {
    /// The device answered with no words: it failed the request.
    NoResponse,
}

/// Word `i` of a frame.
pub open spec fn frame_word(f: Seq<u8>, i: int) -> u64 {
    u64_from_le(f.subrange(8 * i, 8 * i + 8))
}

/// Packs a 64-byte frame into eight words.
pub fn pack64(frame: &[u8; 64]) -> (r: [u64; 8])
    ensures
        forall|i: int| 0 <= i < 8 ==> #[trigger] r@[i] == frame_word(frame@, i),
{
    let mut r = [0u64; 8];
    let mut i: usize = 0;
    while i < FRAME_WORDS
        invariant
            i <= 8,
            r@.len() == 8,
            forall|j: int| 0 <= j < i ==> #[trigger] r@[j] == frame_word(frame@, j),
        decreases 8 - i,
    {
        r[i] = u64_from_le_at(frame, 8 * i);
        i = i + 1;
    }
    r
}

/// The frame made of the first eight of `words` (zeros where fewer came).
pub open spec fn words_frame(words: Seq<u64>) -> Seq<u8> {
    Seq::new(
        64,
        |i: int|
            if i / 8 < words.len() {
                be_bytes_u64(words[i / 8])[i % 8]
            } else {
                0u8
            },
    )
}

/// Reassembles a response from the words a device handed back; no word at all
/// means the device failed.
pub fn frame_from_words(words: &[u64]) -> (r: Result<[u8; 64], DeviceError>)
    ensures
        words@.len() == 0 <==> r is Err,
        r matches Ok(f) ==> f@ == words_frame(words@),
{
    let n = words.len();
    if n == 0 {
        return Err(DeviceError::NoResponse);
    }
    let mut r = [0u8; 64];
    let mut w: usize = 0;
    while w < n && w < FRAME_WORDS
        invariant
            w <= 8,
            w <= n,
            n == words@.len(),
            r@.len() == 64,
            forall|i: int|
                0 <= i < 64 ==> #[trigger] r@[i] == (if i / 8 < w {
                    be_bytes_u64(words@[i / 8])[i % 8]
                } else {
                    0u8
                }),
        decreases 8 - w,
    {
        let b = u64_to_be(words[w]);
        let mut k: usize = 0;
        while k < 8
            invariant
                w < 8,
                w < n,
                n == words@.len(),
                k <= 8,
                r@.len() == 64,
                b@ == be_bytes_u64(words@[w as int]),
                forall|i: int|
                    0 <= i < 64 ==> #[trigger] r@[i] == (if i / 8 < w || (i / 8 == w && i % 8 < k) {
                        be_bytes_u64(words@[i / 8])[i % 8]
                    } else {
                        0u8
                    }),
            decreases 8 - k,
        {
            r[8 * w + k] = b[k];
            k = k + 1;
        }
        w = w + 1;
    }
    assert(r@ =~= words_frame(words@));
    Ok(r)
}

} // verus!
