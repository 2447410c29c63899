//! The built-in font and the pixel layout handed to a renderer.

use vstd::prelude::*;

verus! {

/// Glyphs for the hexadecimal digits `0` to `F`, five bytes each.
pub const FONT_SET: [u8; 80] = [
    0xF0, 0x90, 0x90, 0x90, 0xF0, // 0
    0x20, 0x60, 0x20, 0x20, 0x70, // 1
    0xF0, 0x10, 0xF0, 0x80, 0xF0, // 2
    0xF0, 0x10, 0xF0, 0x10, 0xF0, // 3
    0x90, 0x90, 0xF0, 0x10, 0x10, // 4
    0xF0, 0x80, 0xF0, 0x10, 0xF0, // 5
    0xF0, 0x80, 0xF0, 0x90, 0xF0, // 6
    0xF0, 0x10, 0x20, 0x40, 0x40, // 7
    0xF0, 0x90, 0xF0, 0x90, 0xF0, // 8
    0xF0, 0x90, 0xF0, 0x10, 0xF0, // 9
    0xF0, 0x90, 0xF0, 0x90, 0x90, // A
    0xE0, 0x90, 0xE0, 0x90, 0xE0, // B
    0xF0, 0x80, 0x80, 0x80, 0xF0, // C
    0xE0, 0x90, 0x90, 0x90, 0xE0, // D
    0xF0, 0x80, 0xF0, 0x80, 0xF0, // E
    0xF0, 0x80, 0xF0, 0x80, 0x80, // F
];

/// The framebuffer as a renderer's texture wants it: four bytes per pixel,
/// row by row. The first byte of each pixel is always `0xFF`; the other
/// three are `0xFF` where the pixel is on and `0` where it is off.
pub open spec fn rgba_of(vram: Seq<bool>) -> Seq<u8> {
    Seq::new(
        4 * vram.len(),
        |b: int|
            if b % 4 == 0 || vram[b / 4] {
                0xFFu8
            } else {
                0u8
            },
    )
}

/// Lays the framebuffer out as texture bytes.
pub fn rgba_frame(vram: &[bool; 2048]) -> (frame: Vec<u8>)
    ensures
        frame@ == rgba_of(vram@),
{
    let mut frame: Vec<u8> = Vec::with_capacity(8192);
    for p in 0..2048usize
        invariant
            frame@.len() == 4 * p,
            forall|b: int| 0 <= b < 4 * p ==> frame@[b] == rgba_of(vram@)[b],
    {
        let shade: u8 = if vram[p] { 0xFF } else { 0 };
        frame.push(0xFF);
        frame.push(shade);
        frame.push(shade);
        frame.push(shade);
    }
    assert(frame@ =~= rgba_of(vram@));
    frame
}

} // verus!
