//! Laws of the instruction set, proved over the model of the machine.

use vstd::prelude::*;
use crate::error::Chip8Error;
use crate::ram::word_at;
use crate::instruction::{decode, encode, lemma_decode_encode, lemma_decode_wf, Instruction};
use crate::sprite::{
    collides, drawn, lemma_offsets_target, lemma_target_offsets, sprite_bit, sprite_lit, target,
};
use crate::state::{
    execute, first_held, first_held_from, flag_of, key_down, key_up, perform, step, CpuState,
    FLAG,
};

verus! {

/// Running the word that encodes an instruction is running the
/// instruction.
pub proof fn lemma_execute_encoded(
    s: CpuState,
    mem: Seq<u8>,
    key_pressed: bool,
    keypad: Seq<bool>,
    ins: Instruction,
)
    requires
        ins.wf(),
    ensures
        execute(s, mem, key_pressed, keypad, encode(ins)) == perform(
            s,
            mem,
            key_pressed,
            keypad,
            ins,
        ),
{
    lemma_decode_encode(ins);
}

/// Loading an immediate and then reading the register gives the immediate,
/// for every register and every state; nothing else but that register
/// changes.
pub proof fn lemma_load_then_read(
    s: CpuState,
    mem: Seq<u8>,
    key_pressed: bool,
    keypad: Seq<bool>,
    x: usize,
    kk: u8,
)
    requires
        s.wf(),
        x < 16,
    ensures
        execute(s, mem, key_pressed, keypad, encode(Instruction::LoadImm { x, kk })) == Ok::<
            (CpuState, Seq<u8>),
            Chip8Error,
        >((s.set_reg(x as int, kk), mem)),
        s.set_reg(x as int, kk).v[x as int] == kk,
        forall|r: int| 0 <= r < 16 && r != x ==> s.set_reg(x as int, kk).v[r] == s.v[r],
{
    lemma_decode_encode(Instruction::LoadImm { x, kk });
}

/// Adding with carry stores the sum modulo 256 in `Vx`, whatever the
/// registers. Unless `Vx` is the flag register itself, the flag register
/// then holds 1 if the sum exceeds 255 and 0 if it does not.
pub proof fn lemma_add_with_carry(
    s: CpuState,
    mem: Seq<u8>,
    key_pressed: bool,
    keypad: Seq<bool>,
    x: usize,
    y: usize,
)
    requires
        s.wf(),
        x < 16,
        y < 16,
    ensures
        execute(s, mem, key_pressed, keypad, encode(Instruction::AddReg { x, y })) == Ok::<
            (CpuState, Seq<u8>),
            Chip8Error,
        >((s.add_reg(x as int, y as int), mem)),
        s.add_reg(x as int, y as int).v[x as int] == (s.v[x as int] + s.v[y as int]) % 256,
        x != FLAG ==> s.add_reg(x as int, y as int).v[FLAG as int] == flag_of(
            s.v[x as int] + s.v[y as int] > 255,
        ),
{
    lemma_decode_encode(Instruction::AddReg { x, y });
}

/// Subtracting with borrow stores the difference modulo 256 in `Vx`,
/// whatever the registers. Unless `Vx` is the flag register itself, the flag
/// register then holds 1 if `Vx >= Vy` and 0 if it is not.
pub proof fn lemma_sub_with_borrow(
    s: CpuState,
    mem: Seq<u8>,
    key_pressed: bool,
    keypad: Seq<bool>,
    x: usize,
    y: usize,
)
    requires
        s.wf(),
        x < 16,
        y < 16,
    ensures
        execute(s, mem, key_pressed, keypad, encode(Instruction::SubReg { x, y })) == Ok::<
            (CpuState, Seq<u8>),
            Chip8Error,
        >((s.sub_reg(x as int, y as int), mem)),
        s.sub_reg(x as int, y as int).v[x as int] == (s.v[x as int] - s.v[y as int]) % 256,
        x != FLAG ==> s.sub_reg(x as int, y as int).v[FLAG as int] == flag_of(
            s.v[x as int] >= s.v[y as int],
        ),
{
    lemma_decode_encode(Instruction::SubReg { x, y });
}

/// Drawing a sprite twice at the same place gives back the framebuffer as
/// it was.
pub proof fn lemma_draw_twice_restores(vram: Seq<bool>, sprite: Seq<u8>, vx: u8, vy: u8)
    ensures
        drawn(drawn(vram, sprite, vx, vy), sprite, vx, vy) == vram,
{
    assert(drawn(drawn(vram, sprite, vx, vy), sprite, vx, vy) =~= vram);
}

/// The second of two equal draws reports a collision exactly where the
/// sprite has a set bit over a pixel that was off before the first draw:
/// the first draw switched that pixel on, and the second switches it off
/// again. So the second draw reports none if and only if every set bit of
/// the sprite lay over a pixel that was already on.
pub proof fn lemma_second_draw_collision(vram: Seq<bool>, sprite: Seq<u8>, vx: u8, vy: u8)
    ensures
        collides(drawn(vram, sprite, vx, vy), sprite, vx, vy) <==> exists|p: int|
            0 <= p < vram.len() && !vram[p] && #[trigger] sprite_lit(sprite, vx, vy, p),
        (forall|p: int| 0 <= p < vram.len() && #[trigger] sprite_lit(sprite, vx, vy, p) ==> vram[p])
            ==> !collides(drawn(vram, sprite, vx, vy), sprite, vx, vy),
{
    let once = drawn(vram, sprite, vx, vy);
    if collides(once, sprite, vx, vy) {
        let w = choose|p: int|
            0 <= p < once.len() && once[p] && #[trigger] sprite_lit(sprite, vx, vy, p);
        assert(!vram[w] && sprite_lit(sprite, vx, vy, w));
    }
    if exists|p: int| 0 <= p < vram.len() && !vram[p] && #[trigger] sprite_lit(sprite, vx, vy, p) {
        let w = choose|p: int|
            0 <= p < vram.len() && !vram[p] && #[trigger] sprite_lit(sprite, vx, vy, p);
        assert(once[w] && sprite_lit(sprite, vx, vy, w));
    }
}

/// Two equal draw instructions in a row leave the framebuffer as it was,
/// provided neither coordinate register is the flag register, which the
/// first draw overwrites.
pub proof fn lemma_draw_instruction_twice(s: CpuState, sprite: Seq<u8>, x: int, y: int)
    requires
        s.wf(),
        0 <= x < 15,
        0 <= y < 15,
    ensures
        s.draw(sprite, x, y).draw(sprite, x, y).vram == s.vram,
{
    lemma_draw_twice_restores(s.vram, sprite, s.v[x], s.v[y]);
}

/// Where a draw puts each bit: the bit in row `row`, column `col` of the
/// sprite lands on the pixel in column `(vx + col) % 64` of row
/// `(vy + row) % 32`, which changes if and only if the bit is set. A sprite
/// that reaches past the right or the lower edge goes on at the left or at
/// the top.
pub proof fn lemma_draw_wraps(vram: Seq<bool>, sprite: Seq<u8>, vx: u8, vy: u8, row: int, col: int)
    requires
        vram.len() == 2048,
        sprite.len() <= 32,
        0 <= row < sprite.len(),
        0 <= col < 8,
    ensures
        target(vx, vy, row, col) == ((vy + row) % 32) * 64 + (vx + col) % 64,
        0 <= target(vx, vy, row, col) < 2048,
        drawn(vram, sprite, vx, vy)[target(vx, vy, row, col)] == (vram[target(vx, vy, row, col)]
            != sprite_bit(sprite[row], col)),
{
    lemma_target_offsets(vx, vy, row, col);
}

/// A pixel that lies under no bit of the sprite is left alone.
pub proof fn lemma_draw_leaves_rest(vram: Seq<bool>, sprite: Seq<u8>, vx: u8, vy: u8, p: int)
    requires
        vram.len() == 2048,
        0 <= p < 2048,
        forall|row: int, col: int|
            0 <= row < sprite.len() && 0 <= col < 8 ==> p != #[trigger] target(vx, vy, row, col),
    ensures
        drawn(vram, sprite, vx, vy)[p] == vram[p],
{
    lemma_offsets_target(vx, vy, p);
    if sprite_lit(sprite, vx, vy, p) {
        assert(p == target(vx, vy, (p / 64 - vy) % 32, (p % 64 - vx) % 64));
    }
}

/// A call followed at once by a return gives back the state before the
/// call: the program counter points again at the instruction after the
/// call, and the stack is as deep as it was.
pub proof fn lemma_call_then_return(
    s: CpuState,
    mem: Seq<u8>,
    key_pressed: bool,
    keypad: Seq<bool>,
    addr: u16,
)
    requires
        s.wf(),
        s.stack.len() < 16,
    ensures
        perform(s, mem, key_pressed, keypad, Instruction::Call { addr }) == Ok::<
            (CpuState, Seq<u8>),
            Chip8Error,
        >((s.call(addr), mem)),
        perform(s.call(addr), mem, key_pressed, keypad, Instruction::Return) == Ok::<
            (CpuState, Seq<u8>),
            Chip8Error,
        >((s, mem)),
{
    assert(s.call(addr).ret() =~= s);
}

/// The same through whole steps: with a call to `addr` at the program
/// counter and a return at `addr`, two steps leave the program counter
/// two bytes on, at the instruction that follows the call.
pub proof fn lemma_call_return_steps(
    s: CpuState,
    mem: Seq<u8>,
    key_pressed: bool,
    keypad: Seq<bool>,
    addr: u16,
)
    requires
        s.wf(),
        mem.len() == 4096,
        s.stack.len() < 16,
        s.pc + 1 < 4096,
        addr + 1 < 4096,
        decode(word_at(mem, s.pc as int)) == Some(Instruction::Call { addr }),
        decode(word_at(mem, addr as int)) == Some(Instruction::Return),
    ensures
        step(s, mem, key_pressed, keypad) == Ok::<(CpuState, Seq<u8>), Chip8Error>(
            (s.advance().call(addr).count_down(), mem),
        ),
        step(s.advance().call(addr).count_down(), mem, key_pressed, keypad) == Ok::<
            (CpuState, Seq<u8>),
            Chip8Error,
        >((s.advance().count_down().count_down(), mem)),
        s.advance().count_down().count_down().pc == s.pc + 2,
        s.advance().count_down().count_down().stack == s.stack,
{
    let called = s.advance().call(addr).count_down();
    assert(called.advance().ret().count_down() =~= s.advance().count_down().count_down());
}

/// A successful instruction leaves the state well-formed: sixteen
/// registers, at most sixteen return addresses, 2048 pixels, and a memory
/// of the same size.
pub proof fn lemma_perform_keeps_wf(
    s: CpuState,
    mem: Seq<u8>,
    key_pressed: bool,
    keypad: Seq<bool>,
    ins: Instruction,
)
    requires
        s.wf(),
        ins.wf(),
    ensures
        perform(s, mem, key_pressed, keypad, ins) matches Ok((t, m)) ==> t.wf() && m.len()
            == mem.len(),
{
}

/// A successful step leaves the state well-formed and memory as large as
/// it was.
pub proof fn lemma_step_keeps_wf(s: CpuState, mem: Seq<u8>, key_pressed: bool, keypad: Seq<bool>)
    requires
        s.wf(),
    ensures
        step(s, mem, key_pressed, keypad) matches Ok((t, m)) ==> t.wf() && m.len() == mem.len(),
{
    if s.pc + 1 < mem.len() {
        let opcode = word_at(mem, s.pc as int);
        lemma_decode_wf(opcode);
        match decode(opcode) {
            Some(ins) => lemma_perform_keeps_wf(s.advance(), mem, key_pressed, keypad, ins),
            None => {},
        }
    }
}

/// Memory is written by the two store instructions and by nothing else.
pub proof fn lemma_only_stores_write_memory(
    s: CpuState,
    mem: Seq<u8>,
    key_pressed: bool,
    keypad: Seq<bool>,
    ins: Instruction,
)
    requires
        !(ins is StoreBcd),
        !(ins is StoreRegs),
    ensures
        perform(s, mem, key_pressed, keypad, ins) matches Ok((t, m)) ==> m == mem,
{
}

/// The timer goes down by exactly one on every step that succeeds, and
/// stays at zero once there, unless the instruction of that step sets it.
pub proof fn lemma_timer_counts_down(
    s: CpuState,
    mem: Seq<u8>,
    key_pressed: bool,
    keypad: Seq<bool>,
)
    requires
        s.wf(),
        s.pc + 1 < mem.len(),
        !(decode(word_at(mem, s.pc as int)) matches Some(Instruction::SetTimer { .. })),
    ensures
        step(s, mem, key_pressed, keypad) matches Ok((t, m)) ==> t.dt == if s.dt > 0 {
            s.dt - 1
        } else {
            0
        },
{
}

/// A key wait with no key pressed leaves the program counter on the wait
/// itself, so that the next step runs it again; only the timer moves.
pub proof fn lemma_wait_key_blocks(s: CpuState, mem: Seq<u8>, keypad: Seq<bool>, x: usize)
    requires
        s.wf(),
        s.pc + 1 < mem.len(),
        decode(word_at(mem, s.pc as int)) == Some(Instruction::WaitKey { x }),
    ensures
        step(s, mem, false, keypad) == Ok::<(CpuState, Seq<u8>), Chip8Error>(
            (s.count_down(), mem),
        ),
{
    assert(s.advance().rewind().count_down() =~= s.count_down());
}

/// With a summary flag that agrees with the keys, the two key skips go by
/// the key alone: for a key number below 16, the one skips exactly if that
/// key is held and the other exactly if it is not; and a key wait that is
/// let through finds a key.
pub proof fn lemma_keys_with_true_summary(key_pressed: bool, keypad: Seq<bool>, key: u8)
    requires
        keypad.len() == 16,
        key_pressed <==> exists|k: int| 0 <= k < 16 && keypad[k],
    ensures
        key < 16 ==> key_down(key_pressed, keypad, key) == keypad[key as int],
        key < 16 ==> key_up(key_pressed, keypad, key) == !keypad[key as int],
        key >= 16 ==> !key_down(key_pressed, keypad, key),
        key_pressed ==> first_held(keypad) is Some,
{
    lemma_first_held(keypad);
}

/// What the lowest held key is: a held key with no held key below it, or
/// none where no key is held.
pub proof fn lemma_first_held(keypad: Seq<bool>)
    ensures
        match first_held(keypad) {
            Some(k) => 0 <= k < keypad.len() && keypad[k] && forall|j: int|
                0 <= j < k ==> !keypad[j],
            None => forall|j: int| 0 <= j < keypad.len() ==> !keypad[j],
        },
{
    lemma_first_held_from(keypad, 0);
}

/// The same for the lowest held key at or above `from`.
pub proof fn lemma_first_held_from(keypad: Seq<bool>, from: int)
    requires
        0 <= from,
    ensures
        match first_held_from(keypad, from) {
            Some(k) => from <= k < keypad.len() && keypad[k] && forall|j: int|
                from <= j < k ==> !keypad[j],
            None => forall|j: int| from <= j < keypad.len() ==> !keypad[j],
        },
    decreases keypad.len() - from,
{
    if from < keypad.len() && !keypad[from] {
        lemma_first_held_from(keypad, from + 1);
    }
}

} // verus!
