//! The instruction table: every 16-bit word is either one of the
//! instructions below or a decode failure.

use vstd::prelude::*;
use vstd::arithmetic::div_mod::lemma_fundamental_div_mod_converse;

verus! {

/// A decoded instruction. `x` and `y` name registers (`0..=15`), `kk` is an
/// 8-bit immediate, `addr` a 12-bit address and `n` a 4-bit row count.
#[derive(Clone, Copy, Debug, PartialEq, Eq, Structural)]
pub enum Instruction {
    /// `00E0`: switch every pixel off.
    ClearScreen,
    /// `00EE`: return from a subroutine.
    Return,
    /// `1nnn`: jump to `addr`.
    Jump { addr: u16 },
    /// `2nnn`: call the subroutine at `addr`.
    Call { addr: u16 },
    /// `3xkk`: skip the next instruction if `Vx == kk`.
    SkipEqImm { x: usize, kk: u8 },
    /// `4xkk`: skip the next instruction if `Vx != kk`.
    SkipNeImm { x: usize, kk: u8 },
    /// `5xy0`: skip the next instruction if `Vx == Vy`.
    SkipEqReg { x: usize, y: usize },
    /// `6xkk`: `Vx = kk`.
    LoadImm { x: usize, kk: u8 },
    /// `7xkk`: `Vx = Vx + kk`, wrapping, flag untouched.
    AddImm { x: usize, kk: u8 },
    /// `8xy0`: `Vx = Vy`.
    Move { x: usize, y: usize },
    /// `8xy1`: `Vx = Vx | Vy`.
    Or { x: usize, y: usize },
    /// `8xy2`: `Vx = Vx & Vy`.
    And { x: usize, y: usize },
    /// `8xy3`: `Vx = Vx ^ Vy`.
    Xor { x: usize, y: usize },
    /// `8xy4`: `Vx = Vx + Vy`, wrapping, with the carry in the flag register.
    AddReg { x: usize, y: usize },
    /// `8xy5`: `Vx = Vx - Vy`, wrapping, with "no borrow" in the flag register.
    SubReg { x: usize, y: usize },
    /// `8xy6`: `Vx = Vx >> 1`, with the bit shifted out in the flag register.
    ShiftRight { x: usize },
    /// `8xyE`: `Vx = Vx << 1`, with the bit shifted out in the flag register.
    ShiftLeft { x: usize },
    /// `9xy0`: skip the next instruction if `Vx != Vy`.
    SkipNeReg { x: usize, y: usize },
    /// `Annn`: `I = addr`.
    LoadIndex { addr: u16 },
    /// `Dxyn`: draw the `n`-row sprite at `I` at column `Vx`, row `Vy`.
    Draw { x: usize, y: usize, n: usize },
    /// `Ex9E`: skip the next instruction if the key numbered `Vx` is held.
    SkipKeyDown { x: usize },
    /// `ExA1`: skip the next instruction if the key numbered `Vx` is not held.
    SkipKeyUp { x: usize },
    /// `Fx07`: `Vx = timer`.
    ReadTimer { x: usize },
    /// `Fx0A`: wait for a key and put its number in `Vx`.
    WaitKey { x: usize },
    /// `Fx15`: `timer = Vx`.
    SetTimer { x: usize },
    /// `Fx1E`: `I = I + Vx`.
    AddIndex { x: usize },
    /// `Fx33`: store the three decimal digits of `Vx` at `I`, `I+1`, `I+2`.
    StoreBcd { x: usize },
    /// `Fx55`: store `V0..=Vx` at `I..=I+x`.
    StoreRegs { x: usize },
    /// `Fx65`: load `V0..=Vx` from `I..=I+x`.
    LoadRegs { x: usize },
}

impl Instruction {
    /// Every register index and the row count of a decoded instruction fit
    /// in four bits, every address in twelve.
    pub open spec fn wf(self) -> bool {
        match self {
            Instruction::ClearScreen | Instruction::Return => true,
            Instruction::Jump { addr } | Instruction::Call { addr } | Instruction::LoadIndex {
                addr,
            } => addr < 0x1000,
            Instruction::SkipEqImm { x, .. }
            | Instruction::SkipNeImm { x, .. }
            | Instruction::LoadImm { x, .. }
            | Instruction::AddImm { x, .. }
            | Instruction::ShiftRight { x }
            | Instruction::ShiftLeft { x }
            | Instruction::SkipKeyDown { x }
            | Instruction::SkipKeyUp { x }
            | Instruction::ReadTimer { x }
            | Instruction::WaitKey { x }
            | Instruction::SetTimer { x }
            | Instruction::AddIndex { x }
            | Instruction::StoreBcd { x }
            | Instruction::StoreRegs { x }
            | Instruction::LoadRegs { x } => x < 16,
            Instruction::SkipEqReg { x, y }
            | Instruction::Move { x, y }
            | Instruction::Or { x, y }
            | Instruction::And { x, y }
            | Instruction::Xor { x, y }
            | Instruction::AddReg { x, y }
            | Instruction::SubReg { x, y }
            | Instruction::SkipNeReg { x, y } => x < 16 && y < 16,
            Instruction::Draw { x, y, n } => x < 16 && y < 16 && n < 16,
        }
    }
}

/// The instruction that a word encodes, or `None` where the word matches no
/// entry of the table. With the word written as the hexadecimal digits
/// `a x y n`, `kk` is its low byte and `addr` its low twelve bits.
#[verifier::opaque]
pub open spec fn decode(opcode: u16) -> Option<Instruction> {
    let a = opcode as int / 0x1000;
    let x = ((opcode as int / 0x100) % 16) as usize;
    let y = ((opcode as int / 0x10) % 16) as usize;
    let n = (opcode as int % 16) as usize;
    let kk = (opcode as int % 0x100) as u8;
    let addr = (opcode as int % 0x1000) as u16;
    if opcode == 0x00E0 {
        Some(Instruction::ClearScreen)
    } else if opcode == 0x00EE {
        Some(Instruction::Return)
    } else if a == 0x1 {
        Some(Instruction::Jump { addr })
    } else if a == 0x2 {
        Some(Instruction::Call { addr })
    } else if a == 0x3 {
        Some(Instruction::SkipEqImm { x, kk })
    } else if a == 0x4 {
        Some(Instruction::SkipNeImm { x, kk })
    } else if a == 0x5 && n == 0x0 {
        Some(Instruction::SkipEqReg { x, y })
    } else if a == 0x6 {
        Some(Instruction::LoadImm { x, kk })
    } else if a == 0x7 {
        Some(Instruction::AddImm { x, kk })
    } else if a == 0x8 && n == 0x0 {
        Some(Instruction::Move { x, y })
    } else if a == 0x8 && n == 0x1 {
        Some(Instruction::Or { x, y })
    } else if a == 0x8 && n == 0x2 {
        Some(Instruction::And { x, y })
    } else if a == 0x8 && n == 0x3 {
        Some(Instruction::Xor { x, y })
    } else if a == 0x8 && n == 0x4 {
        Some(Instruction::AddReg { x, y })
    } else if a == 0x8 && n == 0x5 {
        Some(Instruction::SubReg { x, y })
    } else if a == 0x8 && n == 0x6 {
        Some(Instruction::ShiftRight { x })
    } else if a == 0x8 && n == 0xE {
        Some(Instruction::ShiftLeft { x })
    } else if a == 0x9 && n == 0x0 {
        Some(Instruction::SkipNeReg { x, y })
    } else if a == 0xA {
        Some(Instruction::LoadIndex { addr })
    } else if a == 0xD {
        Some(Instruction::Draw { x, y, n })
    } else if a == 0xE && kk == 0x9E {
        Some(Instruction::SkipKeyDown { x })
    } else if a == 0xE && kk == 0xA1 {
        Some(Instruction::SkipKeyUp { x })
    } else if a == 0xF && kk == 0x07 {
        Some(Instruction::ReadTimer { x })
    } else if a == 0xF && kk == 0x0A {
        Some(Instruction::WaitKey { x })
    } else if a == 0xF && kk == 0x15 {
        Some(Instruction::SetTimer { x })
    } else if a == 0xF && kk == 0x1E {
        Some(Instruction::AddIndex { x })
    } else if a == 0xF && kk == 0x33 {
        Some(Instruction::StoreBcd { x })
    } else if a == 0xF && kk == 0x55 {
        Some(Instruction::StoreRegs { x })
    } else if a == 0xF && kk == 0x65 {
        Some(Instruction::LoadRegs { x })
    } else {
        None
    }
}

/// Whatever word is decoded, the instruction's register indices and row
/// count fit in four bits and its address in twelve.
pub proof fn lemma_decode_wf(opcode: u16)
    ensures
        decode(opcode) matches Some(ins) ==> ins.wf(),
{
    reveal(decode);
}

/// The word whose four hexadecimal digits are `a`, `x`, `y` and `n`.
pub open spec fn word_of(a: int, x: int, y: int, n: int) -> u16 {
    (0x1000 * a + 0x100 * x + 0x10 * y + n) as u16
}

/// A word made of four digits has those digits: each is found again by
/// division and remainder, as `decode` does.
pub proof fn lemma_word_digits(a: int, x: int, y: int, n: int)
    requires
        0 <= a < 16,
        0 <= x < 16,
        0 <= y < 16,
        0 <= n < 16,
    ensures
        word_of(a, x, y, n) == 0x1000 * a + 0x100 * x + 0x10 * y + n,
        word_of(a, x, y, n) as int / 0x1000 == a,
        (word_of(a, x, y, n) as int / 0x100) % 16 == x,
        (word_of(a, x, y, n) as int / 0x10) % 16 == y,
        word_of(a, x, y, n) as int % 16 == n,
        word_of(a, x, y, n) as int % 0x100 == 0x10 * y + n,
        word_of(a, x, y, n) as int % 0x1000 == 0x100 * x + 0x10 * y + n,
{
    let w = 0x1000 * a + 0x100 * x + 0x10 * y + n;
    lemma_fundamental_div_mod_converse(w, 0x1000, a, 0x100 * x + 0x10 * y + n);
    lemma_fundamental_div_mod_converse(w, 0x100, 0x10 * a + x, 0x10 * y + n);
    lemma_fundamental_div_mod_converse(0x10 * a + x, 16, a, x);
    lemma_fundamental_div_mod_converse(w, 0x10, 0x100 * a + 0x10 * x + y, n);
    lemma_fundamental_div_mod_converse(0x100 * a + 0x10 * x + y, 16, 0x10 * a + x, y);
}

/// The word made of the leading digit `a`, the register digit `x` and the
/// low byte `kk`.
pub open spec fn word_with_byte(a: int, x: int, kk: u8) -> u16 {
    word_of(a, x, kk as int / 16, kk as int % 16)
}

/// The word made of the leading digit `a` and the twelve-bit address `addr`.
pub open spec fn word_with_addr(a: int, addr: u16) -> u16 {
    word_of(a, addr as int / 0x100, (addr as int / 0x10) % 16, addr as int % 16)
}

/// A word that encodes the instruction. The two shifts leave the third
/// digit open; it is written as zero here.
pub open spec fn encode(ins: Instruction) -> u16 {
    match ins {
        Instruction::ClearScreen => 0x00E0,
        Instruction::Return => 0x00EE,
        Instruction::Jump { addr } => word_with_addr(0x1, addr),
        Instruction::Call { addr } => word_with_addr(0x2, addr),
        Instruction::SkipEqImm { x, kk } => word_with_byte(0x3, x as int, kk),
        Instruction::SkipNeImm { x, kk } => word_with_byte(0x4, x as int, kk),
        Instruction::SkipEqReg { x, y } => word_of(0x5, x as int, y as int, 0x0),
        Instruction::LoadImm { x, kk } => word_with_byte(0x6, x as int, kk),
        Instruction::AddImm { x, kk } => word_with_byte(0x7, x as int, kk),
        Instruction::Move { x, y } => word_of(0x8, x as int, y as int, 0x0),
        Instruction::Or { x, y } => word_of(0x8, x as int, y as int, 0x1),
        Instruction::And { x, y } => word_of(0x8, x as int, y as int, 0x2),
        Instruction::Xor { x, y } => word_of(0x8, x as int, y as int, 0x3),
        Instruction::AddReg { x, y } => word_of(0x8, x as int, y as int, 0x4),
        Instruction::SubReg { x, y } => word_of(0x8, x as int, y as int, 0x5),
        Instruction::ShiftRight { x } => word_of(0x8, x as int, 0x0, 0x6),
        Instruction::ShiftLeft { x } => word_of(0x8, x as int, 0x0, 0xE),
        Instruction::SkipNeReg { x, y } => word_of(0x9, x as int, y as int, 0x0),
        Instruction::LoadIndex { addr } => word_with_addr(0xA, addr),
        Instruction::Draw { x, y, n } => word_of(0xD, x as int, y as int, n as int),
        Instruction::SkipKeyDown { x } => word_with_byte(0xE, x as int, 0x9E),
        Instruction::SkipKeyUp { x } => word_with_byte(0xE, x as int, 0xA1),
        Instruction::ReadTimer { x } => word_with_byte(0xF, x as int, 0x07),
        Instruction::WaitKey { x } => word_with_byte(0xF, x as int, 0x0A),
        Instruction::SetTimer { x } => word_with_byte(0xF, x as int, 0x15),
        Instruction::AddIndex { x } => word_with_byte(0xF, x as int, 0x1E),
        Instruction::StoreBcd { x } => word_with_byte(0xF, x as int, 0x33),
        Instruction::StoreRegs { x } => word_with_byte(0xF, x as int, 0x55),
        Instruction::LoadRegs { x } => word_with_byte(0xF, x as int, 0x65),
    }
}

/// A word with a low byte has that byte, and the digits before it.
pub proof fn lemma_word_with_byte(a: int, x: int, kk: u8)
    requires
        0 <= a < 16,
        0 <= x < 16,
    ensures
        word_with_byte(a, x, kk) == 0x1000 * a + 0x100 * x + kk,
        word_with_byte(a, x, kk) as int / 0x1000 == a,
        (word_with_byte(a, x, kk) as int / 0x100) % 16 == x,
        (word_with_byte(a, x, kk) as int / 0x10) % 16 == kk as int / 16,
        word_with_byte(a, x, kk) as int % 16 == kk as int % 16,
        word_with_byte(a, x, kk) as int % 0x100 == kk,
{
    lemma_word_digits(a, x, kk as int / 16, kk as int % 16);
}

/// A word with an address has that address, and the digit before it.
pub proof fn lemma_word_with_addr(a: int, addr: u16)
    requires
        0 <= a < 16,
        addr < 0x1000,
    ensures
        word_with_addr(a, addr) == 0x1000 * a + addr,
        word_with_addr(a, addr) as int / 0x1000 == a,
        word_with_addr(a, addr) as int % 0x1000 == addr,
        word_with_addr(a, addr) as int % 16 == addr as int % 16,
        word_with_addr(a, addr) as int % 0x100 == addr as int % 0x100,
{
    let x = addr as int / 0x100;
    let y = (addr as int / 0x10) % 16;
    let n = addr as int % 16;
    lemma_fundamental_div_mod_converse(addr as int / 0x10, 16, x, y);
    lemma_word_digits(a, x, y, n);
    lemma_fundamental_div_mod_converse(addr as int, 0x100, x, 0x10 * y + n);
}

/// Decoding undoes encoding: every well-formed instruction is what its
/// word decodes to.
pub proof fn lemma_decode_encode(ins: Instruction)
    requires
        ins.wf(),
    ensures
        decode(encode(ins)) == Some(ins),
{
    reveal(decode);
    match ins {
        Instruction::ClearScreen | Instruction::Return => {},
        Instruction::Jump { addr } => lemma_word_with_addr(0x1, addr),
        Instruction::Call { addr } => lemma_word_with_addr(0x2, addr),
        Instruction::SkipEqImm { x, kk } => lemma_word_with_byte(0x3, x as int, kk),
        Instruction::SkipNeImm { x, kk } => lemma_word_with_byte(0x4, x as int, kk),
        Instruction::SkipEqReg { x, y } => lemma_word_digits(0x5, x as int, y as int, 0x0),
        Instruction::LoadImm { x, kk } => lemma_word_with_byte(0x6, x as int, kk),
        Instruction::AddImm { x, kk } => lemma_word_with_byte(0x7, x as int, kk),
        Instruction::Move { x, y } => lemma_word_digits(0x8, x as int, y as int, 0x0),
        Instruction::Or { x, y } => lemma_word_digits(0x8, x as int, y as int, 0x1),
        Instruction::And { x, y } => lemma_word_digits(0x8, x as int, y as int, 0x2),
        Instruction::Xor { x, y } => lemma_word_digits(0x8, x as int, y as int, 0x3),
        Instruction::AddReg { x, y } => lemma_word_digits(0x8, x as int, y as int, 0x4),
        Instruction::SubReg { x, y } => lemma_word_digits(0x8, x as int, y as int, 0x5),
        Instruction::ShiftRight { x } => lemma_word_digits(0x8, x as int, 0x0, 0x6),
        Instruction::ShiftLeft { x } => lemma_word_digits(0x8, x as int, 0x0, 0xE),
        Instruction::SkipNeReg { x, y } => lemma_word_digits(0x9, x as int, y as int, 0x0),
        Instruction::LoadIndex { addr } => lemma_word_with_addr(0xA, addr),
        Instruction::Draw { x, y, n } => lemma_word_digits(0xD, x as int, y as int, n as int),
        Instruction::SkipKeyDown { x } => lemma_word_with_byte(0xE, x as int, 0x9E),
        Instruction::SkipKeyUp { x } => lemma_word_with_byte(0xE, x as int, 0xA1),
        Instruction::ReadTimer { x } => lemma_word_with_byte(0xF, x as int, 0x07),
        Instruction::WaitKey { x } => lemma_word_with_byte(0xF, x as int, 0x0A),
        Instruction::SetTimer { x } => lemma_word_with_byte(0xF, x as int, 0x15),
        Instruction::AddIndex { x } => lemma_word_with_byte(0xF, x as int, 0x1E),
        Instruction::StoreBcd { x } => lemma_word_with_byte(0xF, x as int, 0x33),
        Instruction::StoreRegs { x } => lemma_word_with_byte(0xF, x as int, 0x55),
        Instruction::LoadRegs { x } => lemma_word_with_byte(0xF, x as int, 0x65),
    }
}

/// The four hexadecimal digits of an instruction word, its low byte and its
/// low twelve bits.
fn split(opcode: u16) -> (parts: ((u8, usize, usize, usize), u8, u16))
    ensures
        parts.0.0 == opcode as int / 0x1000,
        parts.0.1 == (opcode as int / 0x100) % 16,
        parts.0.2 == (opcode as int / 0x10) % 16,
        parts.0.3 == opcode as int % 16,
        parts.1 == opcode as int % 0x100,
        parts.2 == opcode as int % 0x1000,
{
    let a: u16 = (opcode & 0xF000) >> 12;
    let x: u16 = (opcode & 0x0F00) >> 8;
    let y: u16 = (opcode & 0x00F0) >> 4;
    let n: u16 = opcode & 0x000F;
    let kk: u16 = opcode & 0x00FF;
    let addr: u16 = opcode & 0x0FFF;
    assert((opcode & 0xF000) >> 12 == opcode / 0x1000) by (bit_vector);
    assert((opcode & 0x0F00) >> 8 == (opcode / 0x100) % 16) by (bit_vector);
    assert((opcode & 0x00F0) >> 4 == (opcode / 0x10) % 16) by (bit_vector);
    assert(opcode & 0x000F == opcode % 16) by (bit_vector);
    assert(opcode & 0x00FF == opcode % 0x100) by (bit_vector);
    assert(opcode & 0x0FFF == opcode % 0x1000) by (bit_vector);
    ((a as u8, x as usize, y as usize, n as usize), kk as u8, addr)
}

/// Decodes an instruction word by its four digits.
pub fn decode_opcode(opcode: u16) -> (ins: Option<Instruction>)
    ensures
        ins == decode(opcode),
        ins matches Some(i) ==> i.wf(),
{
    reveal(decode);
    let (digits, kk, addr) = split(opcode);
    let (_, x, y, n) = digits;
    match digits {
        (0x0, 0x0, 0xE, 0x0) => Some(Instruction::ClearScreen),
        (0x0, 0x0, 0xE, 0xE) => Some(Instruction::Return),
        (0x1, _, _, _) => Some(Instruction::Jump { addr }),
        (0x2, _, _, _) => Some(Instruction::Call { addr }),
        (0x3, _, _, _) => Some(Instruction::SkipEqImm { x, kk }),
        (0x4, _, _, _) => Some(Instruction::SkipNeImm { x, kk }),
        (0x5, _, _, 0x0) => Some(Instruction::SkipEqReg { x, y }),
        (0x6, _, _, _) => Some(Instruction::LoadImm { x, kk }),
        (0x7, _, _, _) => Some(Instruction::AddImm { x, kk }),
        (0x8, _, _, 0x0) => Some(Instruction::Move { x, y }),
        (0x8, _, _, 0x1) => Some(Instruction::Or { x, y }),
        (0x8, _, _, 0x2) => Some(Instruction::And { x, y }),
        (0x8, _, _, 0x3) => Some(Instruction::Xor { x, y }),
        (0x8, _, _, 0x4) => Some(Instruction::AddReg { x, y }),
        (0x8, _, _, 0x5) => Some(Instruction::SubReg { x, y }),
        (0x8, _, _, 0x6) => Some(Instruction::ShiftRight { x }),
        (0x8, _, _, 0xE) => Some(Instruction::ShiftLeft { x }),
        (0x9, _, _, 0x0) => Some(Instruction::SkipNeReg { x, y }),
        (0xA, _, _, _) => Some(Instruction::LoadIndex { addr }),
        (0xD, _, _, _) => Some(Instruction::Draw { x, y, n }),
        (0xE, _, 0x9, 0xE) => Some(Instruction::SkipKeyDown { x }),
        (0xE, _, 0xA, 0x1) => Some(Instruction::SkipKeyUp { x }),
        (0xF, _, 0x0, 0x7) => Some(Instruction::ReadTimer { x }),
        (0xF, _, 0x0, 0xA) => Some(Instruction::WaitKey { x }),
        (0xF, _, 0x1, 0x5) => Some(Instruction::SetTimer { x }),
        (0xF, _, 0x1, 0xE) => Some(Instruction::AddIndex { x }),
        (0xF, _, 0x3, 0x3) => Some(Instruction::StoreBcd { x }),
        (0xF, _, 0x5, 0x5) => Some(Instruction::StoreRegs { x }),
        (0xF, _, 0x6, 0x5) => Some(Instruction::LoadRegs { x }),
        _ => None,
    }
}

} // verus!
