//! The cartridge: a program image and its place in memory.

use vstd::prelude::*;
use crate::error::Chip8Error;
use crate::ram::{Ram, RAM_SIZE};
use crate::ROM_START;

verus! {

/// The largest program image that fits between the start of the program
/// area and the end of memory.
pub const MAX_ROM_SIZE: usize = RAM_SIZE - ROM_START;

/// Memory with the program image `rom` from the start of the program area
/// on, and every other cell as it was.
pub open spec fn with_program(mem: Seq<u8>, rom: Seq<u8>) -> Seq<u8> {
    Seq::new(
        mem.len(),
        |a: int|
            if ROM_START <= a < ROM_START + rom.len() {
                rom[a - ROM_START]
            } else {
                mem[a]
            },
    )
}

/// A program image. Its model is the sequence of the image's bytes.
pub struct Cartridge {
    rom: Vec<u8>,
}

impl View for Cartridge {
    type V = Seq<u8>;

    closed spec fn view(&self) -> Seq<u8> {
        self.rom@
    }
}

impl Cartridge {
    /// A cartridge with an empty image.
    pub fn new() -> (cartridge: Self)
        ensures
            cartridge@ == Seq::<u8>::empty(),
    {
        Self { rom: Vec::new() }
    }

    /// The program image.
    pub fn rom(&self) -> (rom: &Vec<u8>)
        ensures
            rom@ == self@,
    {
        &self.rom
    }

    /// Takes `rom` as the program image and copies it into memory, byte 0
    /// of the image to the start of the program area. An image that does not
    /// fit into memory is refused, and cartridge and memory stay as they
    /// were.
    pub fn load_rom(&mut self, ram: &mut Ram, rom: Vec<u8>) -> (r: Result<(), Chip8Error>)
        ensures
            rom@.len() > MAX_ROM_SIZE ==> r == Err::<(), Chip8Error>(Chip8Error::MemoryOutOfRange)
                && final(self)@ == old(self)@ && final(ram)@ == old(ram)@,
            rom@.len() <= MAX_ROM_SIZE ==> r is Ok && final(self)@ == rom@ && final(ram)@
                == with_program(old(ram)@, rom@),
    {
        if rom.len() > MAX_ROM_SIZE {
            return Err(Chip8Error::MemoryOutOfRange);
        }
        self.rom = rom;
        for i in 0..self.rom.len()
            invariant
                self.rom@.len() <= MAX_ROM_SIZE,
                forall|a: int| 0 <= a < i ==> ram@[ROM_START + a] == self.rom@[a],
                forall|a: int|
                    0 <= a < RAM_SIZE && !(ROM_START <= a < ROM_START + i) ==> ram@[a] == old(
                        ram,
                    )@[a],
        {
            ram.mem[ROM_START + i] = self.rom[i];
        }
        assert(ram@ =~= with_program(old(ram)@, self.rom@));
        Ok(())
    }
}

} // verus!
