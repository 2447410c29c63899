//! The processor: registers, call stack, framebuffer and timer, and the
//! instructions that change them.

use vstd::prelude::*;
use crate::error::Chip8Error;
use crate::instruction::{decode_opcode, Instruction};
use crate::ram::{word_at, Ram, RAM_SIZE};
use crate::ROM_START;
use crate::sprite::{draw_sprite, sprite_at};
use crate::state::{
    execute, first_held, first_held_from, key_down, key_up, perform, step, with_bcd, with_regs,
    wrap16, wrap8, CpuState, FLAG, NUM_REGS, STACK_DEPTH, VRAM_SIZE,
};

verus! {

/// Distance between two instructions in memory.
pub const OPCODE_INTERVAL: u16 = 2;

/// Where the program counter goes.
#[derive(Clone, Copy)]
pub enum ProgramCounter {
    /// One instruction forward.
    Next,
    /// One instruction back.
    Prev,
    /// To the given address.
    Jump(u16),
}

/// The processor. Its model is a [`CpuState`]; the call stack of the model
/// holds the entries below the stack pointer.
pub struct Cpu {
    pc: u16,
    sp: usize,
    i: u16,
    v: [u8; NUM_REGS],
    stack: [u16; STACK_DEPTH],
    /// The framebuffer, row by row: `vram[row * 64 + col]`.
    pub vram: [bool; VRAM_SIZE],
    dt: u8,
}

impl View for Cpu {
    type V = CpuState;

    closed spec fn view(&self) -> CpuState {
        CpuState {
            pc: self.pc,
            i: self.i,
            v: self.v@,
            stack: Seq::new(self.sp as nat, |k: int| self.stack@[k]),
            vram: self.vram@,
            dt: self.dt,
        }
    }
}

impl Cpu {
    /// The call stack holds at most sixteen return addresses.
    pub open spec fn wf(&self) -> bool {
        self@.wf()
    }

    /// A processor at power-on.
    pub fn new() -> (cpu: Self)
        ensures
            cpu.wf(),
            cpu@ == CpuState::initial(),
    {
        let cpu = Self {
            pc: ROM_START as u16,
            sp: 0,
            i: 0,
            v: [0; NUM_REGS],
            stack: [0; STACK_DEPTH],
            vram: [false; VRAM_SIZE],
            dt: 0,
        };
        assert(cpu@ =~= CpuState::initial());
        cpu
    }

    /// The program counter.
    pub fn pc(&self) -> (pc: u16)
        ensures
            pc == self@.pc,
    {
        self.pc
    }

    /// The number of return addresses on the call stack.
    pub fn sp(&self) -> (sp: usize)
        ensures
            sp == self@.stack.len(),
    {
        self.sp
    }

    /// The index register.
    pub fn i(&self) -> (i: u16)
        ensures
            i == self@.i,
    {
        self.i
    }

    /// The timer.
    pub fn dt(&self) -> (dt: u8)
        ensures
            dt == self@.dt,
    {
        self.dt
    }

    /// The return address `depth` places above the bottom of the call stack.
    pub fn stack_at(&self, depth: usize) -> (addr: u16)
        requires
            self.wf(),
            depth < self@.stack.len(),
        ensures
            addr == self@.stack[depth as int],
    {
        self.stack[depth]
    }

    /// The framebuffer, for a renderer to read.
    pub fn framebuffer(&self) -> (vram: &[bool; VRAM_SIZE])
        ensures
            vram@ == self@.vram,
    {
        &self.vram
    }

    /// Moves the program counter. It is a 16-bit register: moving it past
    /// either end wraps around.
    pub fn set_pc(&mut self, addr: ProgramCounter)
        ensures
            final(self)@ == match addr {
                ProgramCounter::Next => old(self)@.advance(),
                ProgramCounter::Prev => old(self)@.rewind(),
                ProgramCounter::Jump(a) => old(self)@.jump(a),
            },
    {
        self.pc = match addr {
            ProgramCounter::Next => self.pc.wrapping_add(OPCODE_INTERVAL),
            ProgramCounter::Prev => self.pc.wrapping_sub(OPCODE_INTERVAL),
            ProgramCounter::Jump(a) => a,
        };
    }

    /// Sets the index register.
    pub fn set_i(&mut self, addr: u16)
        ensures
            final(self)@ == old(self)@.set_index(addr),
    {
        self.i = addr;
    }

    /// Reads register `addr`.
    pub fn read_v(&self, addr: usize) -> (data: u8)
        requires
            addr < NUM_REGS,
        ensures
            data == self@.v[addr as int],
    {
        self.v[addr]
    }

    /// Writes register `addr`.
    pub fn write_v(&mut self, addr: usize, data: u8)
        requires
            addr < NUM_REGS,
        ensures
            final(self)@ == old(self)@.set_reg(addr as int, data),
    {
        self.v[addr] = data;
    }

    /// Reads the instruction word at the program counter, high byte first,
    /// and moves the counter past it. Fails, changing nothing, where the
    /// word does not lie within memory.
    pub fn fetch_opcode(&mut self, ram: &Ram) -> (r: Result<u16, Chip8Error>)
        ensures
            old(self)@.pc + 1 >= ram@.len() ==> r == Err::<u16, Chip8Error>(
                Chip8Error::MemoryOutOfRange,
            ) && final(self)@ == old(self)@,
            old(self)@.pc + 1 < ram@.len() ==> r == Ok::<u16, Chip8Error>(
                word_at(ram@, old(self)@.pc as int),
            ) && final(self)@ == old(self)@.advance(),
    {
        let opcode = match ram.read_word(self.pc as usize) {
            Ok(opcode) => opcode,
            Err(e) => {
                return Err(e);
            },
        };
        self.set_pc(ProgramCounter::Next);
        Ok(opcode)
    }

    /// `00E0`: switches every pixel off.
    pub fn opcode_00e0(&mut self)
        ensures
            final(self)@ == old(self)@.clear(),
    {
        for p in 0..VRAM_SIZE
            invariant
                self.pc == old(self).pc,
                self.sp == old(self).sp,
                self.i == old(self).i,
                self.v == old(self).v,
                self.stack == old(self).stack,
                self.dt == old(self).dt,
                forall|q: int| 0 <= q < p ==> !self.vram@[q],
        {
            self.vram[p] = false;
        }
    }

    /// `00EE`: pops the newest return address into the program counter.
    /// Fails, changing nothing, where the call stack is empty.
    pub fn opcode_00ee(&mut self) -> (r: Result<(), Chip8Error>)
        requires
            old(self).wf(),
        ensures
            old(self)@.stack.len() == 0 ==> r == Err::<(), Chip8Error>(Chip8Error::StackUnderflow)
                && final(self)@ == old(self)@,
            old(self)@.stack.len() > 0 ==> r is Ok && final(self)@ == old(self)@.ret(),
    {
        if self.sp == 0 {
            return Err(Chip8Error::StackUnderflow);
        }
        self.sp -= 1;
        self.pc = self.stack[self.sp];
        self.stack[self.sp] = 0;
        Ok(())
    }

    /// `1nnn`: jumps to `nnn`.
    pub fn opcode_1nnn(&mut self, nnn: u16)
        ensures
            final(self)@ == old(self)@.jump(nnn),
    {
        self.set_pc(ProgramCounter::Jump(nnn));
    }

    /// `2nnn`: pushes the program counter and jumps to `nnn`. Fails,
    /// changing nothing, where the call stack is full.
    pub fn opcode_2nnn(&mut self, nnn: u16) -> (r: Result<(), Chip8Error>)
        ensures
            old(self)@.stack.len() >= STACK_DEPTH ==> r == Err::<(), Chip8Error>(
                Chip8Error::StackOverflow,
            ) && final(self)@ == old(self)@,
            old(self)@.stack.len() < STACK_DEPTH ==> r is Ok && final(self)@ == old(self)@.call(
                nnn,
            ),
    {
        if self.sp >= STACK_DEPTH {
            return Err(Chip8Error::StackOverflow);
        }
        self.stack[self.sp] = self.pc;
        self.sp += 1;
        self.pc = nnn;
        Ok(())
    }

    /// `3xkk`: skips the next instruction if `Vx == kk`.
    pub fn opcode_3xkk(&mut self, x: usize, kk: u8)
        requires
            x < NUM_REGS,
        ensures
            final(self)@ == old(self)@.skip_if(old(self)@.v[x as int] == kk),
    {
        if self.read_v(x) == kk {
            self.set_pc(ProgramCounter::Next);
        }
    }

    /// `4xkk`: skips the next instruction if `Vx != kk`.
    pub fn opcode_4xkk(&mut self, x: usize, kk: u8)
        requires
            x < NUM_REGS,
        ensures
            final(self)@ == old(self)@.skip_if(old(self)@.v[x as int] != kk),
    {
        if self.read_v(x) != kk {
            self.set_pc(ProgramCounter::Next);
        }
    }

    /// `5xy0`: skips the next instruction if `Vx == Vy`.
    pub fn opcode_5xy0(&mut self, x: usize, y: usize)
        requires
            x < NUM_REGS,
            y < NUM_REGS,
        ensures
            final(self)@ == old(self)@.skip_if(old(self)@.v[x as int] == old(self)@.v[y as int]),
    {
        if self.read_v(x) == self.read_v(y) {
            self.set_pc(ProgramCounter::Next);
        }
    }

    /// `6xkk`: `Vx = kk`.
    pub fn opcode_6xkk(&mut self, x: usize, kk: u8)
        requires
            x < NUM_REGS,
        ensures
            final(self)@ == old(self)@.set_reg(x as int, kk),
    {
        self.write_v(x, kk);
    }

    /// `7xkk`: `Vx = Vx + kk` in eight bits; the flag register is not
    /// touched.
    pub fn opcode_7xkk(&mut self, x: usize, kk: u8)
        requires
            x < NUM_REGS,
        ensures
            final(self)@ == old(self)@.set_reg(x as int, wrap8(old(self)@.v[x as int] + kk)),
    {
        self.write_v(x, self.read_v(x).wrapping_add(kk));
    }

    /// `8xy0`: `Vx = Vy`.
    pub fn opcode_8xy0(&mut self, x: usize, y: usize)
        requires
            x < NUM_REGS,
            y < NUM_REGS,
        ensures
            final(self)@ == old(self)@.set_reg(x as int, old(self)@.v[y as int]),
    {
        self.write_v(x, self.read_v(y));
    }

    /// `8xy1`: `Vx = Vx | Vy`.
    pub fn opcode_8xy1(&mut self, x: usize, y: usize)
        requires
            x < NUM_REGS,
            y < NUM_REGS,
        ensures
            final(self)@ == old(self)@.set_reg(
                x as int,
                old(self)@.v[x as int] | old(self)@.v[y as int],
            ),
    {
        self.write_v(x, self.read_v(x) | self.read_v(y));
    }

    /// `8xy2`: `Vx = Vx & Vy`.
    pub fn opcode_8xy2(&mut self, x: usize, y: usize)
        requires
            x < NUM_REGS,
            y < NUM_REGS,
        ensures
            final(self)@ == old(self)@.set_reg(
                x as int,
                old(self)@.v[x as int] & old(self)@.v[y as int],
            ),
    {
        self.write_v(x, self.read_v(x) & self.read_v(y));
    }

    /// `8xy3`: `Vx = Vx ^ Vy`.
    pub fn opcode_8xy3(&mut self, x: usize, y: usize)
        requires
            x < NUM_REGS,
            y < NUM_REGS,
        ensures
            final(self)@ == old(self)@.set_reg(
                x as int,
                old(self)@.v[x as int] ^ old(self)@.v[y as int],
            ),
    {
        self.write_v(x, self.read_v(x) ^ self.read_v(y));
    }

    /// `8xy4`: `Vx = Vx + Vy` in eight bits. The flag register is set to 1
    /// if the sum exceeds 255 and to 0 otherwise; the flag is written first,
    /// so with `x == 0xF` the sum is what stays in the flag register.
    pub fn opcode_8xy4(&mut self, x: usize, y: usize)
        requires
            x < NUM_REGS,
            y < NUM_REGS,
        ensures
            final(self)@ == old(self)@.add_reg(x as int, y as int),
    {
        let a = self.read_v(x);
        let b = self.read_v(y);
        let carry: u8 = if a as u16 + b as u16 > 255 { 1 } else { 0 };
        self.write_v(FLAG, carry);
        self.write_v(x, a.wrapping_add(b));
    }

    /// `8xy5`: `Vx = Vx - Vy` in eight bits. The flag register is set to 1
    /// if `Vx >= Vy` (no borrow) and to 0 otherwise; the flag is written
    /// first.
    pub fn opcode_8xy5(&mut self, x: usize, y: usize)
        requires
            x < NUM_REGS,
            y < NUM_REGS,
        ensures
            final(self)@ == old(self)@.sub_reg(x as int, y as int),
    {
        let a = self.read_v(x);
        let b = self.read_v(y);
        let no_borrow: u8 = if a >= b { 1 } else { 0 };
        self.write_v(FLAG, no_borrow);
        self.write_v(x, a.wrapping_sub(b));
    }

    /// `8xy6`: `Vx = Vx >> 1`. The flag register receives the bit shifted
    /// out; the flag is written first.
    pub fn opcode_8xy6(&mut self, x: usize)
        requires
            x < NUM_REGS,
        ensures
            final(self)@ == old(self)@.shift_right(x as int),
    {
        let a = self.read_v(x);
        assert(a & 1 == a % 2 && a >> 1 == a / 2) by (bit_vector);
        self.write_v(FLAG, a & 1);
        self.write_v(x, a >> 1);
    }

    /// `8xyE`: `Vx = Vx << 1` in eight bits. The flag register receives the
    /// bit shifted out; the flag is written first.
    pub fn opcode_8xye(&mut self, x: usize)
        requires
            x < NUM_REGS,
        ensures
            final(self)@ == old(self)@.shift_left(x as int),
    {
        let a = self.read_v(x);
        assert(a >> 7 == (if a >= 128 { 1u8 } else { 0u8 }) && a << 1 == (a * 2) % 256)
            by (bit_vector);
        self.write_v(FLAG, a >> 7);
        self.write_v(x, a << 1);
    }

    /// `9xy0`: skips the next instruction if `Vx != Vy`.
    pub fn opcode_9xy0(&mut self, x: usize, y: usize)
        requires
            x < NUM_REGS,
            y < NUM_REGS,
        ensures
            final(self)@ == old(self)@.skip_if(old(self)@.v[x as int] != old(self)@.v[y as int]),
    {
        if self.read_v(x) != self.read_v(y) {
            self.set_pc(ProgramCounter::Next);
        }
    }

    /// `Annn`: `I = nnn`.
    pub fn opcode_annn(&mut self, nnn: u16)
        ensures
            final(self)@ == old(self)@.set_index(nnn),
    {
        self.set_i(nnn);
    }

    /// `Dxyn`: toggles the `n`-row sprite at `I` into the framebuffer at
    /// column `Vx`, row `Vy`, wrapping at the edges, and sets the flag
    /// register to 1 if any pixel went from on to off, else to 0. Fails,
    /// changing nothing, where the sprite does not lie within memory.
    pub fn opcode_dxyn(&mut self, ram: &Ram, x: usize, y: usize, n: usize) -> (r: Result<
        (),
        Chip8Error,
    >)
        requires
            x < NUM_REGS,
            y < NUM_REGS,
            n < 16,
        ensures
            n > 0 && old(self)@.i + n > ram@.len() ==> r == Err::<(), Chip8Error>(
                Chip8Error::MemoryOutOfRange,
            ) && final(self)@ == old(self)@,
            !(n > 0 && old(self)@.i + n > ram@.len()) ==> r is Ok && final(self)@ == old(
                self,
            )@.draw(sprite_at(ram@, old(self)@.i as int, n as int), x as int, y as int),
    {
        let at = self.i as usize;
        if n > 0 && at + n > RAM_SIZE {
            return Err(Chip8Error::MemoryOutOfRange);
        }
        let at = if n == 0 { 0 } else { at };
        assert(sprite_at(ram@, at as int, n as int) =~= sprite_at(ram@, self.i as int, n as int));
        let hit = draw_sprite(&mut self.vram, &ram.mem, at, n, self.v[x], self.v[y]);
        self.v[FLAG] = if hit { 1 } else { 0 };
        Ok(())
    }

    /// `Ex9E`: skips the next instruction if the key numbered `Vx` is held:
    /// the summary flag is set, `Vx` is below 16 and that key is down.
    pub fn opcode_ex9e(&mut self, key_pressed: &bool, keypad: &[bool; 16], x: usize)
        requires
            x < NUM_REGS,
        ensures
            final(self)@ == old(self)@.skip_if(
                key_down(*key_pressed, keypad@, old(self)@.v[x as int]),
            ),
    {
        if *key_pressed {
            let key = self.read_v(x) as usize;
            if key < 16 && keypad[key] {
                self.set_pc(ProgramCounter::Next);
            }
        }
    }

    /// `ExA1`: skips the next instruction if the key numbered `Vx` is not
    /// held: the summary flag is clear, or `Vx` is below 16 and that key is
    /// up.
    pub fn opcode_exa1(&mut self, key_pressed: &bool, keypad: &[bool; 16], x: usize)
        requires
            x < NUM_REGS,
        ensures
            final(self)@ == old(self)@.skip_if(
                key_up(*key_pressed, keypad@, old(self)@.v[x as int]),
            ),
    {
        if !*key_pressed {
            self.set_pc(ProgramCounter::Next);
        } else {
            let key = self.read_v(x) as usize;
            if key < 16 && !keypad[key] {
                self.set_pc(ProgramCounter::Next);
            }
        }
    }

    /// `Fx07`: `Vx = timer`.
    pub fn opcode_fx07(&mut self, x: usize)
        requires
            x < NUM_REGS,
        ensures
            final(self)@ == old(self)@.set_reg(x as int, old(self)@.dt),
    {
        self.write_v(x, self.dt);
    }

    /// `Fx0A`: waits for a key. With the summary flag clear the program
    /// counter moves back onto this instruction, so that the next step runs
    /// it again; otherwise the number of the lowest held key goes to `Vx`.
    pub fn opcode_fx0a(&mut self, key_pressed: &bool, keypad: &[bool; 16], x: usize)
        requires
            x < NUM_REGS,
        ensures
            final(self)@ == old(self)@.wait_key(*key_pressed, keypad@, x as int),
    {
        if !*key_pressed {
            self.set_pc(ProgramCounter::Prev);
        } else {
            let mut key: usize = 0;
            while key < 16
                invariant
                    key <= 16,
                    x < NUM_REGS,
                    *key_pressed,
                    self@ == old(self)@,
                    first_held(keypad@) == first_held_from(keypad@, key as int),
                decreases 16 - key,
            {
                if keypad[key] {
                    assert(first_held_from(keypad@, key as int) == Some(key as int));
                    self.write_v(x, key as u8);
                    return ;
                }
                assert(first_held_from(keypad@, key as int) == first_held_from(keypad@, key + 1));
                key += 1;
            }
        }
    }

    /// `Fx15`: `timer = Vx`.
    pub fn opcode_fx15(&mut self, x: usize)
        requires
            x < NUM_REGS,
        ensures
            final(self)@ == old(self)@.set_timer(old(self)@.v[x as int]),
    {
        self.dt = self.read_v(x);
    }

    /// `Fx1E`: `I = I + Vx` in sixteen bits; the flag register is not
    /// touched.
    pub fn opcode_fx1e(&mut self, x: usize)
        requires
            x < NUM_REGS,
        ensures
            final(self)@ == old(self)@.set_index(wrap16(old(self)@.i + old(self)@.v[x as int])),
    {
        self.set_i(self.i.wrapping_add(self.read_v(x) as u16));
    }

    /// `Fx33`: stores the hundreds, tens and ones digit of `Vx` at `I`,
    /// `I + 1` and `I + 2`. Fails, changing nothing, where those cells do
    /// not lie within memory.
    pub fn opcode_fx33(&self, ram: &mut Ram, x: usize) -> (r: Result<(), Chip8Error>)
        requires
            x < NUM_REGS,
        ensures
            self@.i + 2 >= old(ram)@.len() ==> r == Err::<(), Chip8Error>(
                Chip8Error::MemoryOutOfRange,
            ) && final(ram)@ == old(ram)@,
            self@.i + 2 < old(ram)@.len() ==> r is Ok && final(ram)@ == with_bcd(
                old(ram)@,
                self@.i as int,
                self@.v[x as int],
            ),
    {
        let at = self.i as usize;
        if at + 2 >= RAM_SIZE {
            return Err(Chip8Error::MemoryOutOfRange);
        }
        let val = self.read_v(x);
        ram.mem[at] = val / 100;
        ram.mem[at + 1] = (val / 10) % 10;
        ram.mem[at + 2] = val % 10;
        Ok(())
    }

    /// `Fx55`: stores `V0..=Vx` at `I..=I+x` and leaves every other cell,
    /// and `I`, as they were. Fails, changing nothing, where those cells do
    /// not lie within memory.
    pub fn opcode_fx55(&self, ram: &mut Ram, x: usize) -> (r: Result<(), Chip8Error>)
        requires
            x < NUM_REGS,
        ensures
            self@.i + x >= old(ram)@.len() ==> r == Err::<(), Chip8Error>(
                Chip8Error::MemoryOutOfRange,
            ) && final(ram)@ == old(ram)@,
            self@.i + x < old(ram)@.len() ==> r is Ok && final(ram)@ == with_regs(
                old(ram)@,
                self@.i as int,
                self@.v,
                x as int,
            ),
    {
        let at = self.i as usize;
        if at + x >= RAM_SIZE {
            return Err(Chip8Error::MemoryOutOfRange);
        }
        for vreg in 0..(x + 1)
            invariant
                x < NUM_REGS,
                at == self.i,
                at + x < RAM_SIZE,
                forall|a: int|
                    0 <= a < RAM_SIZE && !(at <= a < at + vreg) ==> ram@[a] == old(ram)@[a],
                forall|k: int| 0 <= k < vreg ==> ram@[at + k] == self.v@[k],
        {
            ram.mem[at + vreg] = self.read_v(vreg);
        }
        assert(ram@ =~= with_regs(old(ram)@, self@.i as int, self@.v, x as int));
        Ok(())
    }

    /// `Fx65`: loads `V0..=Vx` from `I..=I+x` and leaves every other
    /// register, and `I`, as they were. Fails, changing nothing, where those
    /// cells do not lie within memory.
    pub fn opcode_fx65(&mut self, ram: &Ram, x: usize) -> (r: Result<(), Chip8Error>)
        requires
            x < NUM_REGS,
        ensures
            old(self)@.i + x >= ram@.len() ==> r == Err::<(), Chip8Error>(
                Chip8Error::MemoryOutOfRange,
            ) && final(self)@ == old(self)@,
            old(self)@.i + x < ram@.len() ==> r is Ok && final(self)@ == old(self)@.load_regs(
                ram@,
                x as int,
            ),
    {
        let at = self.i as usize;
        if at + x >= RAM_SIZE {
            return Err(Chip8Error::MemoryOutOfRange);
        }
        for vreg in 0..(x + 1)
            invariant
                x < NUM_REGS,
                at == self.i,
                at + x < RAM_SIZE,
                self.pc == old(self).pc,
                self.sp == old(self).sp,
                self.i == old(self).i,
                self.stack == old(self).stack,
                self.vram == old(self).vram,
                self.dt == old(self).dt,
                forall|k: int| vreg <= k < NUM_REGS ==> self.v@[k] == old(self).v@[k],
                forall|k: int| 0 <= k < vreg ==> self.v@[k] == ram@[at + k],
        {
            self.v[vreg] = ram.mem[at + vreg];
        }
        assert(self@ =~= old(self)@.load_regs(ram@, x as int));
        Ok(())
    }

    /// Runs one decoded instruction; the program counter already points
    /// past it. Either the instruction takes effect as a whole, or a fatal
    /// condition is reported and nothing changes.
    pub fn execute_instruction(
        &mut self,
        ram: &mut Ram,
        key_pressed: &bool,
        keypad: &[bool; 16],
        ins: Instruction,
    ) -> (r: Result<(), Chip8Error>)
        requires
            old(self).wf(),
            ins.wf(),
        ensures
            final(self).wf(),
            match perform(old(self)@, old(ram)@, *key_pressed, keypad@, ins) {
                Ok((s, m)) => r is Ok && final(self)@ == s && final(ram)@ == m,
                Err(e) => r == Err::<(), Chip8Error>(e) && final(self)@ == old(self)@ && final(ram)@
                    == old(ram)@,
            },
    {
        match ins {
            Instruction::ClearScreen => {
                self.opcode_00e0();
                Ok(())
            },
            Instruction::Return => self.opcode_00ee(),
            Instruction::Jump { addr } => {
                self.opcode_1nnn(addr);
                Ok(())
            },
            Instruction::Call { addr } => self.opcode_2nnn(addr),
            Instruction::SkipEqImm { x, kk } => {
                self.opcode_3xkk(x, kk);
                Ok(())
            },
            Instruction::SkipNeImm { x, kk } => {
                self.opcode_4xkk(x, kk);
                Ok(())
            },
            Instruction::SkipEqReg { x, y } => {
                self.opcode_5xy0(x, y);
                Ok(())
            },
            Instruction::LoadImm { x, kk } => {
                self.opcode_6xkk(x, kk);
                Ok(())
            },
            Instruction::AddImm { x, kk } => {
                self.opcode_7xkk(x, kk);
                Ok(())
            },
            Instruction::Move { x, y } => {
                self.opcode_8xy0(x, y);
                Ok(())
            },
            Instruction::Or { x, y } => {
                self.opcode_8xy1(x, y);
                Ok(())
            },
            Instruction::And { x, y } => {
                self.opcode_8xy2(x, y);
                Ok(())
            },
            Instruction::Xor { x, y } => {
                self.opcode_8xy3(x, y);
                Ok(())
            },
            Instruction::AddReg { x, y } => {
                self.opcode_8xy4(x, y);
                Ok(())
            },
            Instruction::SubReg { x, y } => {
                self.opcode_8xy5(x, y);
                Ok(())
            },
            Instruction::ShiftRight { x } => {
                self.opcode_8xy6(x);
                Ok(())
            },
            Instruction::ShiftLeft { x } => {
                self.opcode_8xye(x);
                Ok(())
            },
            Instruction::SkipNeReg { x, y } => {
                self.opcode_9xy0(x, y);
                Ok(())
            },
            Instruction::LoadIndex { addr } => {
                self.opcode_annn(addr);
                Ok(())
            },
            Instruction::Draw { x, y, n } => self.opcode_dxyn(ram, x, y, n),
            Instruction::SkipKeyDown { x } => {
                self.opcode_ex9e(key_pressed, keypad, x);
                Ok(())
            },
            Instruction::SkipKeyUp { x } => {
                self.opcode_exa1(key_pressed, keypad, x);
                Ok(())
            },
            Instruction::ReadTimer { x } => {
                self.opcode_fx07(x);
                Ok(())
            },
            Instruction::WaitKey { x } => {
                self.opcode_fx0a(key_pressed, keypad, x);
                Ok(())
            },
            Instruction::SetTimer { x } => {
                self.opcode_fx15(x);
                Ok(())
            },
            Instruction::AddIndex { x } => {
                self.opcode_fx1e(x);
                Ok(())
            },
            Instruction::StoreBcd { x } => self.opcode_fx33(ram, x),
            Instruction::StoreRegs { x } => self.opcode_fx55(ram, x),
            Instruction::LoadRegs { x } => self.opcode_fx65(ram, x),
        }
    }

    /// Decodes and runs the instruction word `current_opcode`; the program
    /// counter already points past it. A word that matches no entry of the
    /// instruction table is reported as such. On any failure nothing
    /// changes.
    pub fn execute_opcode(
        &mut self,
        ram: &mut Ram,
        key_pressed: &bool,
        keypad: &[bool; 16],
        current_opcode: &u16,
    ) -> (r: Result<(), Chip8Error>)
        requires
            old(self).wf(),
        ensures
            final(self).wf(),
            match execute(old(self)@, old(ram)@, *key_pressed, keypad@, *current_opcode) {
                Ok((s, m)) => r is Ok && final(self)@ == s && final(ram)@ == m,
                Err(e) => r == Err::<(), Chip8Error>(e) && final(self)@ == old(self)@ && final(ram)@
                    == old(ram)@,
            },
    {
        match decode_opcode(*current_opcode) {
            Some(ins) => self.execute_instruction(ram, key_pressed, keypad, ins),
            None => Err(Chip8Error::UnknownOpcode(*current_opcode)),
        }
    }

    /// One step of the machine: fetches the instruction word at the program
    /// counter, runs it, then counts the timer down by one unless it is
    /// zero. On any failure the step is undone as a whole: processor and
    /// memory are as they were before it.
    pub fn tick(&mut self, ram: &mut Ram, key_pressed: &bool, keypad: &[bool; 16]) -> (r: Result<
        (),
        Chip8Error,
    >)
        requires
            old(self).wf(),
        ensures
            final(self).wf(),
            match step(old(self)@, old(ram)@, *key_pressed, keypad@) {
                Ok((s, m)) => r is Ok && final(self)@ == s && final(ram)@ == m,
                Err(e) => r == Err::<(), Chip8Error>(e) && final(self)@ == old(self)@ && final(ram)@
                    == old(ram)@,
            },
    {
        let start = self.pc;
        let current_opcode = match self.fetch_opcode(ram) {
            Ok(opcode) => opcode,
            Err(e) => {
                return Err(e);
            },
        };
        match self.execute_opcode(ram, key_pressed, keypad, &current_opcode) {
            Ok(()) => {
                if self.dt > 0 {
                    self.dt -= 1;
                }
                Ok(())
            },
            Err(e) => {
                self.pc = start;
                Err(e)
            },
        }
    }
}

} // verus!
