//! Packing of a membership grid into an RGBA color buffer.
//!
//! A member pixel gets one fixed color, a non-member pixel the other; each
//! pixel contributes exactly four bytes, in grid order, with a fixed alpha.

use vstd::prelude::*;

verus! {

/// The four bytes written for one pixel: the fixed member color for a
/// member, the fixed background color otherwise.
pub open spec fn pixel_bytes(member: bool) -> Seq<u8> {
    if member {
        seq![0x5eu8, 0x48u8, 0xe8u8, 0xffu8]
    } else {
        seq![0x00u8, 0x00u8, 0x00u8, 0xffu8]
    }
}

/// Packs a width*height membership grid, in row-major order, into an RGBA
/// byte buffer of exactly 4 bytes per pixel, each quartet one of the two
/// fixed palette colors.
pub fn render(cells: &Vec<bool>, width: usize, height: usize) -> (buf: Vec<u8>)
    requires
        cells@.len() == width * height,
    ensures
        buf@.len() == 4 * cells@.len(),
        forall|j: int|
            0 <= j < cells@.len() ==> buf@.subrange(4 * j, 4 * j + 4) == pixel_bytes(cells@[j]),
{
    let n: usize = cells.len();
    let mut buf: Vec<u8> = Vec::new();
    let mut i: usize = 0;
    while i < n
        invariant
            n == cells@.len(),
            i <= n,
            buf@.len() == 4 * i,
            forall|j: int|
                0 <= j < i ==> buf@.subrange(4 * j, 4 * j + 4) == pixel_bytes(cells@[j]),
        decreases n - i,
    {
        let ghost prev = buf@;
        if cells[i] {
            buf.push(0x5e);
            buf.push(0x48);
            buf.push(0xe8);
            buf.push(0xff);
        } else {
            buf.push(0x00);
            buf.push(0x00);
            buf.push(0x00);
            buf.push(0xff);
        }
        proof {
            assert(buf@ =~= prev + pixel_bytes(cells@[i as int]));
            assert forall|j: int| 0 <= j < i + 1 implies buf@.subrange(4 * j, 4 * j + 4)
                == pixel_bytes(cells@[j]) by {
                if j < i {
                    assert(buf@.subrange(4 * j, 4 * j + 4) =~= prev.subrange(4 * j, 4 * j + 4));
                } else {
                    assert(buf@.subrange(4 * j, 4 * j + 4) =~= pixel_bytes(cells@[j]));
                }
            }
        }
        i = i + 1;
    }
    buf
}

} // verus!
