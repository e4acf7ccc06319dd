//! The paint subroutine: `while r0 <= r1 { *r0 = r2; r0 += 4 }; bkpt`.
//!
//! ```armasm
//! cmp   r0, r1
//! bhi.n #6
//! stmia r0!, {r2}
//! b.n   #-6
//! bkpt  0x0000
//! bkpt  0x0000 (padding)
//! ```
use vstd::prelude::*;

verus! {

/// The Thumb encoding of the paint subroutine.
pub open spec fn code() -> Seq<u8> {
    seq![0x88u8, 0x42, 0x01, 0xd8, 0x04, 0xc0, 0xfb, 0xe7, 0x00, 0xbe, 0x00, 0xbe]
}

/// The machine code, ready to be written to target memory.
pub fn subroutine() -> (r: Vec<u8>)
    ensures
        r@ == code(),
{
    let r = vec![0x88u8, 0x42, 0x01, 0xd8, 0x04, 0xc0, 0xfb, 0xe7, 0x00, 0xbe, 0x00, 0xbe];
    assert(r@ == code());
    r
}

/// Size of the subroutine in bytes.
pub fn size() -> (r: u32)
    ensures
        r == code().len(),
        r == 12,
{
    12
}

} // verus!
