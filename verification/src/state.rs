//! The mathematical model of the processor: its state as plain values and
//! each instruction as a function from state to state.

use vstd::prelude::*;
use crate::error::Chip8Error;
use crate::instruction::{decode, Instruction};
use crate::ram::word_at;
use crate::sprite::{collides, drawn, sprite_at};
use crate::ROM_START;

verus! {

/// Number of general registers; register `0xF` doubles as the flag.
pub const NUM_REGS: usize = 16;

/// Index of the flag register.
pub const FLAG: usize = 0xF;

/// Capacity of the call stack.
pub const STACK_DEPTH: usize = 16;

/// Number of pixels of the framebuffer, stored row by row.
pub const VRAM_SIZE: usize = 2048;

/// The processor's state. `stack` holds the live return addresses, oldest
/// first; `vram[row * 64 + col]` says whether the pixel is on.
#[verifier::ext_equal]
pub struct CpuState {
    pub pc: u16,
    pub i: u16,
    pub v: Seq<u8>,
    pub stack: Seq<u16>,
    pub vram: Seq<bool>,
    pub dt: u8,
}

/// What an instruction leaves behind: the next processor state and memory,
/// or the fatal condition that stopped it.
pub type Outcome = Result<(CpuState, Seq<u8>), Chip8Error>;

/// `n` reduced to sixteen bits.
pub open spec fn wrap16(n: int) -> u16 {
    (n % 0x10000) as u16
}

/// `n` reduced to eight bits.
pub open spec fn wrap8(n: int) -> u8 {
    (n % 0x100) as u8
}

/// The flag value that stands for a condition.
pub open spec fn flag_of(b: bool) -> u8 {
    if b {
        1
    } else {
        0
    }
}

/// The lowest held key at or above `from`, if one is held.
pub open spec fn first_held_from(keypad: Seq<bool>, from: int) -> Option<int>
    decreases keypad.len() - from,
{
    if from < 0 || from >= keypad.len() {
        None
    } else if keypad[from] {
        Some(from)
    } else {
        first_held_from(keypad, from + 1)
    }
}

/// The lowest held key, if one is held.
pub open spec fn first_held(keypad: Seq<bool>) -> Option<int> {
    first_held_from(keypad, 0)
}

/// Whether the key numbered `key` counts as held: the summary flag is set,
/// the number names one of the sixteen keys, and that key is down.
pub open spec fn key_down(key_pressed: bool, keypad: Seq<bool>, key: u8) -> bool {
    key_pressed && key < 16 && keypad[key as int]
}

/// Whether the key numbered `key` counts as released: nothing is pressed at
/// all, or the number names one of the sixteen keys and that key is up.
pub open spec fn key_up(key_pressed: bool, keypad: Seq<bool>, key: u8) -> bool {
    !key_pressed || (key < 16 && !keypad[key as int])
}

impl CpuState {
    /// Sixteen registers, at most sixteen return addresses, 64 x 32 pixels.
    pub open spec fn wf(self) -> bool {
        &&& self.v.len() == NUM_REGS
        &&& self.stack.len() <= STACK_DEPTH
        &&& self.vram.len() == VRAM_SIZE
    }

    /// The state at power-on: everything zero, the program counter at the
    /// start of the program area.
    pub open spec fn initial() -> CpuState {
        CpuState {
            pc: ROM_START as u16,
            i: 0,
            v: Seq::new(NUM_REGS as nat, |k: int| 0u8),
            stack: Seq::empty(),
            vram: Seq::new(VRAM_SIZE as nat, |p: int| false),
            dt: 0,
        }
    }

    /// The program counter moved one instruction forward.
    pub open spec fn advance(self) -> CpuState {
        CpuState { pc: wrap16(self.pc + 2), ..self }
    }

    /// The program counter moved one instruction back.
    pub open spec fn rewind(self) -> CpuState {
        CpuState { pc: wrap16(self.pc - 2), ..self }
    }

    /// The program counter set to `addr`.
    pub open spec fn jump(self, addr: u16) -> CpuState {
        CpuState { pc: addr, ..self }
    }

    /// The next instruction skipped if `cond` holds.
    pub open spec fn skip_if(self, cond: bool) -> CpuState {
        if cond {
            self.advance()
        } else {
            self
        }
    }

    /// Register `x` set to `val`.
    pub open spec fn set_reg(self, x: int, val: u8) -> CpuState {
        CpuState { v: self.v.update(x, val), ..self }
    }

    /// The flag register set for `flag`, then register `x` set to `val`: where
    /// `x` is the flag register itself, `val` is what stays.
    pub open spec fn set_flagged(self, x: int, val: u8, flag: bool) -> CpuState {
        self.set_reg(FLAG as int, flag_of(flag)).set_reg(x, val)
    }

    /// The index register set to `addr`.
    pub open spec fn set_index(self, addr: u16) -> CpuState {
        CpuState { i: addr, ..self }
    }

    /// The timer set to `val`.
    pub open spec fn set_timer(self, val: u8) -> CpuState {
        CpuState { dt: val, ..self }
    }

    /// The timer one lower, unless it is already zero.
    pub open spec fn count_down(self) -> CpuState {
        CpuState {
            dt: if self.dt > 0 {
                (self.dt - 1) as u8
            } else {
                0
            },
            ..self
        }
    }

    /// Every pixel off.
    pub open spec fn clear(self) -> CpuState {
        CpuState { vram: Seq::new(self.vram.len(), |p: int| false), ..self }
    }

    /// The program counter pushed as a return address, then set to `addr`.
    pub open spec fn call(self, addr: u16) -> CpuState {
        CpuState { stack: self.stack.push(self.pc), pc: addr, ..self }
    }

    /// The newest return address popped into the program counter.
    pub open spec fn ret(self) -> CpuState {
        CpuState { pc: self.stack.last(), stack: self.stack.drop_last(), ..self }
    }

    /// `Vx = Vx + Vy` with the carry as flag.
    pub open spec fn add_reg(self, x: int, y: int) -> CpuState {
        let sum = self.v[x] + self.v[y];
        self.set_flagged(x, wrap8(sum), sum > 255)
    }

    /// `Vx = Vx - Vy` with "no borrow" as flag.
    pub open spec fn sub_reg(self, x: int, y: int) -> CpuState {
        self.set_flagged(x, wrap8(self.v[x] - self.v[y]), self.v[x] >= self.v[y])
    }

    /// `Vx` halved, with its lowest bit as flag.
    pub open spec fn shift_right(self, x: int) -> CpuState {
        self.set_flagged(x, (self.v[x] / 2) as u8, self.v[x] % 2 == 1)
    }

    /// `Vx` doubled in eight bits, with its highest bit as flag.
    pub open spec fn shift_left(self, x: int) -> CpuState {
        self.set_flagged(x, wrap8(self.v[x] * 2), self.v[x] >= 128)
    }

    /// The sprite whose rows are `sprite` toggled into the framebuffer at
    /// column `Vx`, row `Vy`, with the collision as flag.
    pub open spec fn draw(self, sprite: Seq<u8>, x: int, y: int) -> CpuState {
        let vx = self.v[x];
        let vy = self.v[y];
        CpuState {
            vram: drawn(self.vram, sprite, vx, vy),
            v: self.v.update(FLAG as int, flag_of(collides(self.vram, sprite, vx, vy))),
            ..self
        }
    }

    /// The key wait: with no key pressed the instruction is run again, else
    /// the lowest held key goes to `Vx`.
    pub open spec fn wait_key(self, key_pressed: bool, keypad: Seq<bool>, x: int) -> CpuState {
        if !key_pressed {
            self.rewind()
        } else {
            match first_held(keypad) {
                Some(k) => self.set_reg(x, k as u8),
                None => self,
            }
        }
    }

    /// Registers `0..=x` replaced by the bytes at `I..=I+x`.
    pub open spec fn load_regs(self, mem: Seq<u8>, x: int) -> CpuState {
        CpuState {
            v: Seq::new(
                self.v.len(),
                |k: int|
                    if k <= x {
                        mem[self.i + k]
                    } else {
                        self.v[k]
                    },
            ),
            ..self
        }
    }
}

/// Memory with the hundreds, tens and ones digit of `val` at `at`, `at + 1`
/// and `at + 2`.
pub open spec fn with_bcd(mem: Seq<u8>, at: int, val: u8) -> Seq<u8> {
    mem.update(at, (val / 100) as u8).update(at + 1, ((val / 10) % 10) as u8).update(
        at + 2,
        (val % 10) as u8,
    )
}

/// Memory with registers `0..=x` at `at..=at+x`.
pub open spec fn with_regs(mem: Seq<u8>, at: int, v: Seq<u8>, x: int) -> Seq<u8> {
    Seq::new(
        mem.len(),
        |a: int|
            if at <= a <= at + x {
                v[a - at]
            } else {
                mem[a]
            },
    )
}

/// What one instruction does to the processor and to memory. The program
/// counter of `s` already points past the instruction.
pub open spec fn perform(
    s: CpuState,
    mem: Seq<u8>,
    key_pressed: bool,
    keypad: Seq<bool>,
    ins: Instruction,
) -> Outcome {
    match ins {
        Instruction::ClearScreen => Ok((s.clear(), mem)),
        Instruction::Return => if s.stack.len() == 0 {
            Err(Chip8Error::StackUnderflow)
        } else {
            Ok((s.ret(), mem))
        },
        Instruction::Jump { addr } => Ok((s.jump(addr), mem)),
        Instruction::Call { addr } => if s.stack.len() >= STACK_DEPTH {
            Err(Chip8Error::StackOverflow)
        } else {
            Ok((s.call(addr), mem))
        },
        Instruction::SkipEqImm { x, kk } => Ok((s.skip_if(s.v[x as int] == kk), mem)),
        Instruction::SkipNeImm { x, kk } => Ok((s.skip_if(s.v[x as int] != kk), mem)),
        Instruction::SkipEqReg { x, y } => Ok((s.skip_if(s.v[x as int] == s.v[y as int]), mem)),
        Instruction::LoadImm { x, kk } => Ok((s.set_reg(x as int, kk), mem)),
        Instruction::AddImm { x, kk } => Ok((s.set_reg(x as int, wrap8(s.v[x as int] + kk)), mem)),
        Instruction::Move { x, y } => Ok((s.set_reg(x as int, s.v[y as int]), mem)),
        Instruction::Or { x, y } => Ok((s.set_reg(x as int, s.v[x as int] | s.v[y as int]), mem)),
        Instruction::And { x, y } => Ok((s.set_reg(x as int, s.v[x as int] & s.v[y as int]), mem)),
        Instruction::Xor { x, y } => Ok((s.set_reg(x as int, s.v[x as int] ^ s.v[y as int]), mem)),
        Instruction::AddReg { x, y } => Ok((s.add_reg(x as int, y as int), mem)),
        Instruction::SubReg { x, y } => Ok((s.sub_reg(x as int, y as int), mem)),
        Instruction::ShiftRight { x } => Ok((s.shift_right(x as int), mem)),
        Instruction::ShiftLeft { x } => Ok((s.shift_left(x as int), mem)),
        Instruction::SkipNeReg { x, y } => Ok((s.skip_if(s.v[x as int] != s.v[y as int]), mem)),
        Instruction::LoadIndex { addr } => Ok((s.set_index(addr), mem)),
        Instruction::Draw { x, y, n } => if n > 0 && s.i + n > mem.len() {
            Err(Chip8Error::MemoryOutOfRange)
        } else {
            Ok((s.draw(sprite_at(mem, s.i as int, n as int), x as int, y as int), mem))
        },
        Instruction::SkipKeyDown { x } => Ok(
            (s.skip_if(key_down(key_pressed, keypad, s.v[x as int])), mem),
        ),
        Instruction::SkipKeyUp { x } => Ok(
            (s.skip_if(key_up(key_pressed, keypad, s.v[x as int])), mem),
        ),
        Instruction::ReadTimer { x } => Ok((s.set_reg(x as int, s.dt), mem)),
        Instruction::WaitKey { x } => Ok((s.wait_key(key_pressed, keypad, x as int), mem)),
        Instruction::SetTimer { x } => Ok((s.set_timer(s.v[x as int]), mem)),
        Instruction::AddIndex { x } => Ok((s.set_index(wrap16(s.i + s.v[x as int])), mem)),
        Instruction::StoreBcd { x } => if s.i + 2 >= mem.len() {
            Err(Chip8Error::MemoryOutOfRange)
        } else {
            Ok((s, with_bcd(mem, s.i as int, s.v[x as int])))
        },
        Instruction::StoreRegs { x } => if s.i + x >= mem.len() {
            Err(Chip8Error::MemoryOutOfRange)
        } else {
            Ok((s, with_regs(mem, s.i as int, s.v, x as int)))
        },
        Instruction::LoadRegs { x } => if s.i + x >= mem.len() {
            Err(Chip8Error::MemoryOutOfRange)
        } else {
            Ok((s.load_regs(mem, x as int), mem))
        },
    }
}

/// What the instruction word `opcode` does: a decode failure, or what the
/// decoded instruction does.
pub open spec fn execute(
    s: CpuState,
    mem: Seq<u8>,
    key_pressed: bool,
    keypad: Seq<bool>,
    opcode: u16,
) -> Outcome {
    match decode(opcode) {
        None => Err(Chip8Error::UnknownOpcode(opcode)),
        Some(ins) => perform(s, mem, key_pressed, keypad, ins),
    }
}

/// One whole step: fetch the word at the program counter, move the counter
/// past it, run the instruction, then count the timer down once. The timer
/// counts down on every completed step, a blocked key wait included.
pub open spec fn step(s: CpuState, mem: Seq<u8>, key_pressed: bool, keypad: Seq<bool>) -> Outcome {
    if s.pc + 1 >= mem.len() {
        Err(Chip8Error::MemoryOutOfRange)
    } else {
        match execute(s.advance(), mem, key_pressed, keypad, word_at(mem, s.pc as int)) {
            Ok((t, m)) => Ok((t.count_down(), m)),
            Err(e) => Err(e),
        }
    }
}

} // verus!
