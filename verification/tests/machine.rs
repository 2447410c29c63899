use chip8::cartridge::{Cartridge, MAX_ROM_SIZE};
use chip8::cpu::{Cpu, ProgramCounter};
use chip8::display::FONT_SET;
use chip8::error::Chip8Error;
use chip8::instruction::{decode_opcode, Instruction};
use chip8::ram::{Ram, RAM_SIZE};
use chip8::{CHIP8_HEIGHT, CHIP8_WIDTH, ROM_START};

const IDLE: [bool; 16] = [false; 16];

fn load(ram: &mut Ram, at: usize, program: &[u8]) {
    for (k, byte) in program.iter().enumerate() {
        ram.mem[at + k] = *byte;
    }
}

#[test]
fn three_step_program_adds_registers() {
    let mut cpu = Cpu::new();
    let mut ram = Ram::new();
    load(&mut ram, 0x200, &[0x60, 0x0A, 0x61, 0x05, 0x80, 0x14]);
    for _ in 0..3 {
        assert_eq!(cpu.tick(&mut ram, &false, &IDLE), Ok(()));
    }
    assert_eq!(cpu.read_v(0), 0x0F);
    assert_eq!(cpu.read_v(0xF), 0);
    assert_eq!(cpu.read_v(1), 0x05);
    assert_eq!(cpu.pc(), 0x206);
}

#[test]
fn fetch_combines_bytes_big_endian_and_advances() {
    let mut cpu = Cpu::new();
    let mut ram = Ram::new();
    load(&mut ram, 0x200, &[0x12, 0x34]);
    assert_eq!(cpu.fetch_opcode(&ram), Ok(0x1234));
    assert_eq!(cpu.pc(), 0x202);
}

#[test]
fn fetch_at_last_word_of_memory() {
    let mut cpu = Cpu::new();
    let mut ram = Ram::new();
    load(&mut ram, 0xFFE, &[0xAB, 0xCD]);
    cpu.set_pc(ProgramCounter::Jump(0xFFE));
    assert_eq!(cpu.fetch_opcode(&ram), Ok(0xABCD));
    assert_eq!(cpu.pc(), 0x1000);
}

#[test]
fn fetch_outside_memory_fails() {
    let ram = Ram::new();
    for pc in [0xFFFu16, 0x1000, 0x1002, 0xFFFF] {
        let mut cpu = Cpu::new();
        cpu.set_pc(ProgramCounter::Jump(pc));
        assert_eq!(cpu.fetch_opcode(&ram), Err(Chip8Error::MemoryOutOfRange));
        assert_eq!(cpu.pc(), pc);
    }
}

#[test]
fn tick_that_runs_off_memory_fails() {
    let mut cpu = Cpu::new();
    let mut ram = Ram::new();
    load(&mut ram, 0xFFE, &[0x3A, 0x00]);
    cpu.set_pc(ProgramCounter::Jump(0xFFE));
    assert_eq!(cpu.tick(&mut ram, &false, &IDLE), Ok(()));
    assert_eq!(cpu.pc(), 0x1002);
    assert_eq!(cpu.tick(&mut ram, &false, &IDLE), Err(Chip8Error::MemoryOutOfRange));
    assert_eq!(cpu.pc(), 0x1002);
}

#[test]
fn failed_tick_is_undone() {
    let mut cpu = Cpu::new();
    let mut ram = Ram::new();
    load(&mut ram, 0x200, &[0x6A, 0x07, 0xFA, 0x15, 0xFF, 0xFF]);
    assert_eq!(cpu.tick(&mut ram, &false, &IDLE), Ok(()));
    assert_eq!(cpu.tick(&mut ram, &false, &IDLE), Ok(()));
    assert_eq!(cpu.dt(), 6);
    let memory = ram.mem;
    assert_eq!(cpu.tick(&mut ram, &false, &IDLE), Err(Chip8Error::UnknownOpcode(0xFFFF)));
    assert_eq!(cpu.pc(), 0x204);
    assert_eq!(cpu.dt(), 6);
    assert_eq!(cpu.read_v(0xA), 7);
    assert_eq!(ram.mem, memory);
    assert_eq!(cpu.tick(&mut ram, &false, &IDLE), Err(Chip8Error::UnknownOpcode(0xFFFF)));
}

#[test]
fn failed_return_in_tick_is_undone() {
    let mut cpu = Cpu::new();
    let mut ram = Ram::new();
    load(&mut ram, 0x200, &[0x00, 0xEE]);
    assert_eq!(cpu.tick(&mut ram, &false, &IDLE), Err(Chip8Error::StackUnderflow));
    assert_eq!(cpu.pc(), 0x200);
    assert_eq!(cpu.sp(), 0);
}

#[test]
fn timer_counts_down_once_per_tick_and_stops_at_zero() {
    let mut cpu = Cpu::new();
    let mut ram = Ram::new();
    load(&mut ram, 0x200, &[0x63, 0x03, 0xF3, 0x15, 0x12, 0x04]);
    assert_eq!(cpu.tick(&mut ram, &false, &IDLE), Ok(()));
    assert_eq!(cpu.dt(), 0);
    assert_eq!(cpu.tick(&mut ram, &false, &IDLE), Ok(()));
    assert_eq!(cpu.dt(), 2);
    assert_eq!(cpu.tick(&mut ram, &false, &IDLE), Ok(()));
    assert_eq!(cpu.dt(), 1);
    assert_eq!(cpu.tick(&mut ram, &false, &IDLE), Ok(()));
    assert_eq!(cpu.dt(), 0);
    assert_eq!(cpu.tick(&mut ram, &false, &IDLE), Ok(()));
    assert_eq!(cpu.dt(), 0);
    assert_eq!(cpu.pc(), 0x204);
}

#[test]
fn timer_read_sees_value_before_this_ticks_countdown() {
    let mut cpu = Cpu::new();
    let mut ram = Ram::new();
    load(&mut ram, 0x200, &[0x63, 0x0A, 0xF3, 0x15, 0xF4, 0x07]);
    for _ in 0..3 {
        assert_eq!(cpu.tick(&mut ram, &false, &IDLE), Ok(()));
    }
    assert_eq!(cpu.read_v(4), 9);
    assert_eq!(cpu.dt(), 8);
}

#[test]
fn key_wait_blocks_until_a_key_is_pressed() {
    let mut cpu = Cpu::new();
    let mut ram = Ram::new();
    load(&mut ram, 0x200, &[0x65, 0x09, 0xF5, 0x15, 0xF2, 0x0A, 0x62, 0xFF]);
    assert_eq!(cpu.tick(&mut ram, &false, &IDLE), Ok(()));
    assert_eq!(cpu.tick(&mut ram, &false, &IDLE), Ok(()));
    assert_eq!(cpu.dt(), 8);
    for blocked in 1..=3u8 {
        assert_eq!(cpu.tick(&mut ram, &false, &IDLE), Ok(()));
        assert_eq!(cpu.pc(), 0x204);
        assert_eq!(cpu.read_v(2), 0);
        assert_eq!(cpu.dt(), 8 - blocked);
    }
    let mut keys = [false; 16];
    keys[0xB] = true;
    keys[0xD] = true;
    assert_eq!(cpu.tick(&mut ram, &true, &keys), Ok(()));
    assert_eq!(cpu.pc(), 0x206);
    assert_eq!(cpu.read_v(2), 0xB);
    assert_eq!(cpu.dt(), 4);
}

#[test]
fn key_wait_takes_key_zero() {
    let mut cpu = Cpu::new();
    cpu.write_v(7, 0x55);
    let mut keys = [false; 16];
    keys[0] = true;
    keys[1] = true;
    cpu.opcode_fx0a(&true, &keys, 7);
    assert_eq!(cpu.read_v(7), 0);
    assert_eq!(cpu.pc(), 0x200);
}

#[test]
fn key_wait_with_flag_but_no_key_goes_on_unchanged() {
    let mut cpu = Cpu::new();
    cpu.write_v(7, 0x55);
    cpu.opcode_fx0a(&true, &IDLE, 7);
    assert_eq!(cpu.read_v(7), 0x55);
    assert_eq!(cpu.pc(), 0x200);
}

#[test]
fn key_wait_without_flag_moves_back_one_instruction() {
    let mut cpu = Cpu::new();
    let mut keys = [false; 16];
    keys[3] = true;
    cpu.opcode_fx0a(&false, &keys, 7);
    assert_eq!(cpu.read_v(7), 0);
    assert_eq!(cpu.pc(), 0x1FE);
}

#[test]
fn skip_if_key_held() {
    let mut ram = Ram::new();
    let mut keys = [false; 16];
    keys[0xA] = true;
    let mut cpu = Cpu::new();
    cpu.write_v(1, 0xA);
    assert_eq!(cpu.execute_opcode(&mut ram, &true, &keys, &0xE19E), Ok(()));
    assert_eq!(cpu.pc(), 0x202);
    cpu.write_v(1, 0xB);
    assert_eq!(cpu.execute_opcode(&mut ram, &true, &keys, &0xE19E), Ok(()));
    assert_eq!(cpu.pc(), 0x202);
    cpu.write_v(1, 0xA);
    assert_eq!(cpu.execute_opcode(&mut ram, &false, &keys, &0xE19E), Ok(()));
    assert_eq!(cpu.pc(), 0x202);
    cpu.write_v(1, 0x1A);
    assert_eq!(cpu.execute_opcode(&mut ram, &true, &keys, &0xE19E), Ok(()));
    assert_eq!(cpu.pc(), 0x202);
}

#[test]
fn skip_if_key_not_held() {
    let mut ram = Ram::new();
    let mut keys = [false; 16];
    keys[0xA] = true;
    let mut cpu = Cpu::new();
    cpu.write_v(1, 0xB);
    assert_eq!(cpu.execute_opcode(&mut ram, &true, &keys, &0xE1A1), Ok(()));
    assert_eq!(cpu.pc(), 0x202);
    cpu.write_v(1, 0xA);
    assert_eq!(cpu.execute_opcode(&mut ram, &true, &keys, &0xE1A1), Ok(()));
    assert_eq!(cpu.pc(), 0x202);
    assert_eq!(cpu.execute_opcode(&mut ram, &false, &keys, &0xE1A1), Ok(()));
    assert_eq!(cpu.pc(), 0x204);
    cpu.write_v(1, 0x20);
    assert_eq!(cpu.execute_opcode(&mut ram, &true, &keys, &0xE1A1), Ok(()));
    assert_eq!(cpu.pc(), 0x204);
    assert_eq!(cpu.execute_opcode(&mut ram, &false, &keys, &0xE1A1), Ok(()));
    assert_eq!(cpu.pc(), 0x206);
}

#[test]
fn decode_known_words() {
    assert_eq!(decode_opcode(0x00E0), Some(Instruction::ClearScreen));
    assert_eq!(decode_opcode(0x00EE), Some(Instruction::Return));
    assert_eq!(decode_opcode(0x1FFF), Some(Instruction::Jump { addr: 0xFFF }));
    assert_eq!(decode_opcode(0x2ABC), Some(Instruction::Call { addr: 0xABC }));
    assert_eq!(decode_opcode(0x3A12), Some(Instruction::SkipEqImm { x: 0xA, kk: 0x12 }));
    assert_eq!(decode_opcode(0x4B34), Some(Instruction::SkipNeImm { x: 0xB, kk: 0x34 }));
    assert_eq!(decode_opcode(0x5CD0), Some(Instruction::SkipEqReg { x: 0xC, y: 0xD }));
    assert_eq!(decode_opcode(0x6E56), Some(Instruction::LoadImm { x: 0xE, kk: 0x56 }));
    assert_eq!(decode_opcode(0x7F78), Some(Instruction::AddImm { x: 0xF, kk: 0x78 }));
    assert_eq!(decode_opcode(0x8120), Some(Instruction::Move { x: 1, y: 2 }));
    assert_eq!(decode_opcode(0x8121), Some(Instruction::Or { x: 1, y: 2 }));
    assert_eq!(decode_opcode(0x8122), Some(Instruction::And { x: 1, y: 2 }));
    assert_eq!(decode_opcode(0x8123), Some(Instruction::Xor { x: 1, y: 2 }));
    assert_eq!(decode_opcode(0x8124), Some(Instruction::AddReg { x: 1, y: 2 }));
    assert_eq!(decode_opcode(0x8125), Some(Instruction::SubReg { x: 1, y: 2 }));
    assert_eq!(decode_opcode(0x8126), Some(Instruction::ShiftRight { x: 1 }));
    assert_eq!(decode_opcode(0x812E), Some(Instruction::ShiftLeft { x: 1 }));
    assert_eq!(decode_opcode(0x9340), Some(Instruction::SkipNeReg { x: 3, y: 4 }));
    assert_eq!(decode_opcode(0xA123), Some(Instruction::LoadIndex { addr: 0x123 }));
    assert_eq!(decode_opcode(0xD12F), Some(Instruction::Draw { x: 1, y: 2, n: 15 }));
    assert_eq!(decode_opcode(0xE59E), Some(Instruction::SkipKeyDown { x: 5 }));
    assert_eq!(decode_opcode(0xE5A1), Some(Instruction::SkipKeyUp { x: 5 }));
    assert_eq!(decode_opcode(0xF607), Some(Instruction::ReadTimer { x: 6 }));
    assert_eq!(decode_opcode(0xF60A), Some(Instruction::WaitKey { x: 6 }));
    assert_eq!(decode_opcode(0xF615), Some(Instruction::SetTimer { x: 6 }));
    assert_eq!(decode_opcode(0xF61E), Some(Instruction::AddIndex { x: 6 }));
    assert_eq!(decode_opcode(0xF633), Some(Instruction::StoreBcd { x: 6 }));
    assert_eq!(decode_opcode(0xF655), Some(Instruction::StoreRegs { x: 6 }));
    assert_eq!(decode_opcode(0xF665), Some(Instruction::LoadRegs { x: 6 }));
}

#[test]
fn decode_counts_the_whole_table() {
    let known = (0..=0xFFFFu16).filter(|w| decode_opcode(*w).is_some()).count();
    let expected = 2 + 8 * 4096 + 2 * 256 + 8 * 256 + 2 * 16 + 7 * 16;
    assert_eq!(known, expected);
}

#[test]
fn execute_instruction_runs_decoded_form() {
    let mut cpu = Cpu::new();
    let mut ram = Ram::new();
    let ins = Instruction::LoadImm { x: 3, kk: 0x77 };
    assert_eq!(cpu.execute_instruction(&mut ram, &false, &IDLE, ins), Ok(()));
    assert_eq!(cpu.read_v(3), 0x77);
    assert_eq!(
        cpu.execute_instruction(&mut ram, &false, &IDLE, Instruction::Return),
        Err(Chip8Error::StackUnderflow)
    );
}

#[test]
fn new_ram_is_zeroed() {
    let ram = Ram::new();
    assert_eq!(ram.mem.len(), 4096);
    assert_eq!(RAM_SIZE, 4096);
    assert!(ram.mem.iter().all(|b| *b == 0));
}

#[test]
fn font_is_loaded_into_first_eighty_bytes() {
    let mut ram = Ram::new();
    for a in 0..4096usize {
        ram.mem[a] = 0x5A;
    }
    ram.load_font_set();
    assert_eq!(&ram.mem[0..80], &FONT_SET[..]);
    assert!(ram.mem[80..].iter().all(|b| *b == 0x5A));
}

#[test]
fn cartridge_loads_rom_at_program_start() {
    let mut ram = Ram::new();
    ram.load_font_set();
    let mut cartridge = Cartridge::new();
    assert!(cartridge.rom().is_empty());
    let rom = vec![0x60, 0x0A, 0x12, 0x00, 0xFF];
    assert_eq!(cartridge.load_rom(&mut ram, rom.clone()), Ok(()));
    assert_eq!(cartridge.rom(), &rom);
    assert_eq!(&ram.mem[0x200..0x205], &rom[..]);
    assert_eq!(&ram.mem[0..80], &FONT_SET[..]);
    assert!(ram.mem[80..0x200].iter().all(|b| *b == 0));
    assert!(ram.mem[0x205..].iter().all(|b| *b == 0));
    assert_eq!(ROM_START, 0x200);
}

#[test]
fn cartridge_fills_memory_to_the_last_cell() {
    let mut ram = Ram::new();
    let mut cartridge = Cartridge::new();
    assert_eq!(MAX_ROM_SIZE, 3584);
    let rom: Vec<u8> = (0..MAX_ROM_SIZE).map(|k| (k % 251) as u8 + 1).collect();
    assert_eq!(cartridge.load_rom(&mut ram, rom.clone()), Ok(()));
    assert_eq!(&ram.mem[0x200..], &rom[..]);
    assert_eq!(ram.mem[0xFFF], ((MAX_ROM_SIZE - 1) % 251) as u8 + 1);
}

#[test]
fn cartridge_refuses_oversized_rom() {
    let mut ram = Ram::new();
    let mut cartridge = Cartridge::new();
    assert_eq!(cartridge.load_rom(&mut ram, vec![1, 2, 3]), Ok(()));
    let memory = ram.mem;
    let rom = vec![0xAA; MAX_ROM_SIZE + 1];
    assert_eq!(cartridge.load_rom(&mut ram, rom), Err(Chip8Error::MemoryOutOfRange));
    assert_eq!(ram.mem, memory);
    assert_eq!(cartridge.rom(), &vec![1, 2, 3]);
}

#[test]
fn loaded_program_runs() {
    let mut cpu = Cpu::new();
    let mut ram = Ram::new();
    let mut cartridge = Cartridge::new();
    ram.load_font_set();
    let rom = vec![0xA0, 0x05, 0x60, 0x3E, 0x61, 0x1E, 0xD0, 0x15, 0x12, 0x08];
    assert_eq!(cartridge.load_rom(&mut ram, rom), Ok(()));
    for _ in 0..20 {
        assert_eq!(cpu.tick(&mut ram, &false, &IDLE), Ok(()));
    }
    assert_eq!(cpu.pc(), 0x208);
    assert_eq!(cpu.i(), 5);
    let lit: Vec<usize> = (0..2048).filter(|p| cpu.vram[*p]).collect();
    assert_eq!(lit, vec![
        0, 64, 2 * 64, 2 * 64 + 1, 2 * 64 + 63, 30 * 64, 31 * 64, 31 * 64 + 63,
    ]);
    assert_eq!(cpu.read_v(0xF), 0);
    assert_eq!((CHIP8_WIDTH, CHIP8_HEIGHT), (64, 32));
}

#[test]
fn read_word_is_big_endian_and_bounded() {
    let mut ram = Ram::new();
    load(&mut ram, 0x000, &[0x12, 0x34, 0x56]);
    load(&mut ram, 0xFFE, &[0xFE, 0xDC]);
    assert_eq!(ram.read_word(0), Ok(0x1234));
    assert_eq!(ram.read_word(1), Ok(0x3456));
    assert_eq!(ram.read_word(0xFFE), Ok(0xFEDC));
    assert_eq!(ram.read_word(0xFFF), Err(Chip8Error::MemoryOutOfRange));
    assert_eq!(ram.read_word(0x1000), Err(Chip8Error::MemoryOutOfRange));
    assert_eq!(ram.read_word(usize::MAX), Err(Chip8Error::MemoryOutOfRange));
}

#[test]
fn only_the_store_instructions_write_memory() {
    let mut cpu = Cpu::new();
    let mut ram = Ram::new();
    ram.load_font_set();
    load(&mut ram, 0x300, &[0xFF, 0x81, 0xFF]);
    let memory = ram.mem;
    let mut keys = [false; 16];
    keys[2] = true;
    for opcode in [
        0x6A12u16, 0x7A01, 0x8BA0, 0x8BA1, 0x8BA2, 0x8BA3, 0x8BA4, 0x8BA5, 0x8B06, 0x8B0E,
        0xA300, 0xDAB3, 0x00E0, 0x2400, 0x00EE, 0x1200, 0x3A13, 0x4A13, 0x5AB0, 0x9AB0, 0xEA9E,
        0xEAA1, 0xFA07, 0xFA0A, 0xFA15, 0xFA1E, 0xF265,
    ] {
        assert_eq!(cpu.execute_opcode(&mut ram, &true, &keys, &opcode), Ok(()));
        assert_eq!(ram.mem, memory);
    }
    assert_eq!(cpu.execute_opcode(&mut ram, &true, &keys, &0xFA33), Ok(()));
    assert_ne!(ram.mem, memory);
}
