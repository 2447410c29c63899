//! The memory image: 4096 byte cells, addresses `0x000..=0xFFF`.

use vstd::prelude::*;
use crate::display::FONT_SET;
use crate::error::Chip8Error;

verus! {

/// Number of addressable cells.
pub const RAM_SIZE: usize = 4096;

/// The memory image. Its model is the sequence of its 4096 bytes.
pub struct Ram {
    pub mem: [u8; RAM_SIZE],
}

impl View for Ram {
    type V = Seq<u8>;

    open spec fn view(&self) -> Seq<u8> {
        self.mem@
    }
}

/// Memory after the font has been written over its first eighty cells.
pub open spec fn with_font(mem: Seq<u8>) -> Seq<u8> {
    Seq::new(mem.len(), |a: int| if 0 <= a < 80 { FONT_SET@[a] } else { mem[a] })
}

/// The 16-bit word whose high byte is at `at` and whose low byte follows.
pub open spec fn word_at(mem: Seq<u8>, at: int) -> u16 {
    (mem[at] * 256 + mem[at + 1]) as u16
}

impl Ram {
    /// A memory image with every cell zero.
    pub fn new() -> (ram: Self)
        ensures
            ram@.len() == RAM_SIZE,
            forall|a: int| 0 <= a < RAM_SIZE ==> ram@[a] == 0,
    {
        Self { mem: [0; RAM_SIZE] }
    }

    /// Writes the font glyphs to addresses `0x000..=0x04F` and leaves every
    /// other cell as it was.
    pub fn load_font_set(&mut self)
        ensures
            final(self)@ == with_font(old(self)@),
    {
        for i in 0..80usize
            invariant
                self@.len() == RAM_SIZE,
                forall|a: int| 0 <= a < i ==> self@[a] == FONT_SET@[a],
                forall|a: int| i <= a < RAM_SIZE ==> self@[a] == old(self)@[a],
        {
            self.mem[i] = FONT_SET[i];
        }
    }

    /// Reads the 16-bit word at `at`, high byte first. Fails where the two
    /// bytes do not both lie within memory.
    pub fn read_word(&self, at: usize) -> (r: Result<u16, Chip8Error>)
        ensures
            at + 1 >= self@.len() ==> r == Err::<u16, Chip8Error>(Chip8Error::MemoryOutOfRange),
            at + 1 < self@.len() ==> r == Ok::<u16, Chip8Error>(word_at(self@, at as int)),
    {
        if at >= RAM_SIZE - 1 {
            return Err(Chip8Error::MemoryOutOfRange);
        }
        let hi: u8 = self.mem[at];
        let lo: u8 = self.mem[at + 1];
        assert((hi as u16) << 8 | (lo as u16) == hi as u16 * 256 + lo as u16) by (bit_vector);
        Ok((hi as u16) << 8 | (lo as u16))
    }
}

} // verus!
