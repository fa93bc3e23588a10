//! The packed pixel format of the frame buffer.

use vstd::prelude::*;

verus! {

/// The packed value of one pixel: a zero byte, then red, green and blue,
/// from the highest byte to the lowest.
pub open spec fn packed(r: u8, g: u8, b: u8) -> u32 {
    (r as u32 * 0x1_0000 + g as u32 * 0x100 + b as u32) as u32
}

/// Packs one pixel.
pub fn pack_rgb(r: u8, g: u8, b: u8) -> (v: u32)
    ensures
        v == packed(r, g, b),
{
    let v: u32 = ((r as u32) << 16) | ((g as u32) << 8) | (b as u32);
    assert(((r as u32) << 16) | ((g as u32) << 8) | (b as u32) == (r as u32 * 0x1_0000 + g as u32
        * 0x100 + b as u32) as u32) by (bit_vector);
    v
}

/// The three low bytes of a packed pixel are its red, green and blue, in
/// that order, and its high byte is zero.
pub proof fn lemma_packed_bytes(r: u8, g: u8, b: u8)
    ensures
        packed(r, g, b) >> 24 == 0,
        (packed(r, g, b) >> 16) & 0xff == r,
        (packed(r, g, b) >> 8) & 0xff == g,
        packed(r, g, b) & 0xff == b,
        packed(r, g, b) / 0x100_0000 == 0,
        (packed(r, g, b) / 0x1_0000) % 0x100 == r,
        (packed(r, g, b) / 0x100) % 0x100 == g,
        packed(r, g, b) % 0x100 == b,
{
    let p: u32 = packed(r, g, b);
    assert(p == (r as u32 * 0x1_0000 + g as u32 * 0x100 + b as u32) as u32);
    assert(p >> 24 == 0 && (p >> 16) & 0xff == r && (p >> 8) & 0xff == g && p & 0xff == b
        && p / 0x100_0000 == 0 && (p / 0x1_0000) % 0x100 == r && (p / 0x100) % 0x100 == g && p
        % 0x100 == b) by (bit_vector)
        requires
            p == (r as u32 * 0x1_0000 + g as u32 * 0x100 + b as u32) as u32,
    ;
}

/// What `repack` leaves at place `i` of the buffer: the packed triplet where
/// the bytes hold a whole triplet for that place, the earlier value where
/// they do not.
pub open spec fn repacked_at(pixels: Seq<u8>, before: Seq<u32>, i: int) -> u32 {
    if 3 * i + 2 < pixels.len() {
        packed(pixels[3 * i], pixels[3 * i + 1], pixels[3 * i + 2])
    } else {
        before[i]
    }
}

/// Writes the pixels of an interleaved red, green, blue byte sequence into
/// the buffer, in place and in order, one packed value for each triplet.
/// The buffer keeps its length; places beyond the last triplet keep their
/// values. A trailing part of a triplet may only stand where the buffer
/// ends before it.
pub fn repack(pixels: &[u8], buffer: &mut Vec<u32>)
    requires
        pixels@.len() % 3 == 0 || old(buffer)@.len() <= pixels@.len() / 3,
    ensures
        final(buffer)@.len() == old(buffer)@.len(),
        forall|i: int|
            0 <= i < old(buffer)@.len() ==> #[trigger] final(buffer)@[i] == repacked_at(
                pixels@,
                old(buffer)@,
                i,
            ),
{
    let count: usize = pixels.len() / 3;
    let n: usize = if count < buffer.len() {
        count
    } else {
        buffer.len()
    };
    let mut i: usize = 0;
    while i < n
        invariant
            0 <= i <= n,
            n <= pixels@.len() / 3,
            pixels@.len() <= usize::MAX,
            n <= buffer@.len(),
            n == pixels@.len() / 3 || n == buffer@.len(),
            buffer@.len() == old(buffer)@.len(),
            forall|j: int| 0 <= j < i ==> #[trigger] buffer@[j] == repacked_at(pixels@, old(buffer)@, j),
            forall|j: int| i <= j < buffer@.len() ==> #[trigger] buffer@[j] == old(buffer)@[j],
        decreases n - i,
    {
        assert(3 * i + 2 < pixels@.len());
        let v: u32 = pack_rgb(pixels[3 * i], pixels[3 * i + 1], pixels[3 * i + 2]);
        buffer.set(i, v);
        i = i + 1;
    }
}

} // verus!
