//! The measure subroutine: scans the words of `[r0, r1)` for one that differs
//! from the pattern in `r2`, leaves its address in `r0`, or `0` where none
//! does, and stops on `bkpt`.
//!
//! ```armasm
//! cmp   r0, r1
//! bcs.n #0xc
//! ldr   r3, [r0, #0]
//! cmp   r3, r2
//! bne.n #8
//! adds  r0, r0, #4
//! b.n   #-8
//! movs  r0, #0
//! bkpt  0x0000
//! bkpt  0x0000 (padding)
//! ```
use vstd::prelude::*;

use crate::canary::{first_touched_from, word_byte, CANARY_U8};

verus! {

/// The Thumb encoding of the measure subroutine.
pub open spec fn code() -> Seq<u8> {
    seq![
        0x88u8, 0x42, 0x04, 0xd2, 0x03, 0x68, 0x93, 0x42, 0x02, 0xd1,
        0x00, 0x1d, 0xf8, 0xe7, 0x00, 0x20, 0x00, 0xbe, 0x00, 0xbe,
    ]
}

/// The machine code, ready to be written to target memory.
pub fn subroutine() -> (r: Vec<u8>)
    ensures
        r@ == code(),
{
    let r = vec![
        0x88u8, 0x42, 0x04, 0xd2, 0x03, 0x68, 0x93, 0x42, 0x02, 0xd1,
        0x00, 0x1d, 0xf8, 0xe7, 0x00, 0x20, 0x00, 0xbe, 0x00, 0xbe,
    ];
    assert(r@ == code());
    r
}

/// Size of the subroutine in bytes.
pub fn size() -> (r: u32)
    ensures
        r == code().len(),
        r == 20,
{
    20
}

/// The lowest touched byte of the window that the subroutine will occupy,
/// read through the probe from `low_addr` before the subroutine is placed there.
pub fn touched_in_window(low_addr: u32, window: &[u8]) -> (r: Option<u32>)
    requires
        low_addr + window@.len() <= u32::MAX,
    ensures
        r == (match first_touched_from(window@, 0) {
            Some(k) => Some((low_addr + k) as u32),
            None => None,
        }),
{
    let mut i: usize = 0;
    while i < window.len()
        invariant
            0 <= i <= window@.len(),
            low_addr + window@.len() <= u32::MAX,
            first_touched_from(window@, 0) == first_touched_from(window@, i as int),
        decreases window@.len() - i,
    {
        if window[i] != CANARY_U8 {
            return Some(low_addr + i as u32);
        }
        i += 1;
    }
    None
}

/// The lowest touched byte after the subroutine ran: `word_addr` is what it
/// left in `r0` and `word` the little-endian word read at that address.
/// `None` where the subroutine found every word untouched.
pub fn touched_in_word(word_addr: u32, word: u32) -> (r: Option<u32>)
    requires
        word_addr != 0 ==> word != 0xAAAA_AAAAu32,
        word_addr + 3 <= u32::MAX,
    ensures
        word_addr == 0 ==> r is None,
        word_addr != 0 ==> r == Some((word_addr + first_touched_byte(word)) as u32),
{
    if word_addr == 0 {
        return None;
    }
    let mut j: u32 = 0;
    while j < 4
        invariant
            0 <= j <= 4,
            word != 0xAAAA_AAAAu32,
            word_addr != 0,
            word_addr + 3 <= u32::MAX,
            forall|k: int| 0 <= k < j ==> word_byte(word, k) == 0xAA,
        decreases 4 - j,
    {
        let b = (word >> (8 * j)) & 0xff;
        if b != 0xAA {
            return Some(word_addr + j);
        }
        j += 1;
    }
    proof {
        lemma_word_all_canary(word);
    }
    None
}

/// The index of the lowest byte of `word` (little-endian) that differs from the pattern.
pub open spec fn first_touched_byte(word: u32) -> int {
    if word_byte(word, 0) != 0xAA {
        0
    } else if word_byte(word, 1) != 0xAA {
        1
    } else if word_byte(word, 2) != 0xAA {
        2
    } else {
        3
    }
}

proof fn lemma_word_all_canary(word: u32)
    requires
        word_byte(word, 0) == 0xAAu32,
        word_byte(word, 1) == 0xAAu32,
        word_byte(word, 2) == 0xAAu32,
        word_byte(word, 3) == 0xAAu32,
    ensures
        word == 0xAAAA_AAAAu32,
{
    assert(((word >> 0u32) & 0xffu32) == 0xAAu32 && ((word >> 8u32) & 0xffu32) == 0xAAu32 && ((
    word >> 16u32) & 0xffu32) == 0xAAu32 && ((word >> 24u32) & 0xffu32) == 0xAAu32 ==> word
        == 0xAAAA_AAAAu32) by (bit_vector);
}

} // verus!
