#![allow(non_snake_case)]
use cerboy::cpu::{
    next, CPUState, FLAGS, FL_C, FL_H, FL_INT_JOYPAD, FL_INT_SERIAL, FL_INT_STAT, FL_INT_TIMER,
    FL_INT_VBLANK, FL_N, FL_Z, REG_A, REG_B, REG_C, REG_D, REG_E, REG_H, REG_L,
};
use cerboy::dispatch::execute;
use cerboy::guard::{cycles, execute_fits, next_fits};
use cerboy::listing::disassemble_at;
use cerboy::memory::{Cartridge, Memory, IE, IF};

const START: u16 = 0xC000;

/// A machine about to run `program`.
fn machine(program: &[u8]) -> (CPUState, Memory) {
    let mut mem = Memory::new();
    for (i, b) in program.iter().enumerate() {
        mem.write(START + i as u16, *b);
    }
    let cpu = CPUState {
        pc: START,
        sp: 0xDFF0,
        ..CPUState::new()
    };
    (cpu, mem)
}

/// Runs `n` steps.
fn run(cpu: CPUState, mem: &mut Memory, n: usize) -> CPUState {
    let mut cpu = cpu;
    for _ in 0..n {
        assert!(next_fits(&cpu, mem));
        cpu = next(cpu, mem).unwrap();
    }
    cpu
}

/// Runs a whole program of `n` instructions.
fn program(bytes: &[u8], n: usize) -> (CPUState, Memory) {
    let (cpu, mut mem) = machine(bytes);
    let cpu = run(cpu, &mut mem, n);
    (cpu, mem)
}

#[test]
fn undefined_opcodes_are_errors() {
    for op in [
        0xD3u8, 0xDB, 0xDD, 0xE3, 0xE4, 0xEB, 0xEC, 0xED, 0xF4, 0xFC, 0xFD,
    ] {
        let (cpu, mut mem) = machine(&[op]);
        let before = mem.data;
        assert!(next_fits(&cpu, &mem));
        let error = next(cpu, &mut mem).unwrap_err();
        assert_eq!(error.op, op);
        assert_eq!(error.mnm, "INVALID");
        assert_eq!(
            error.to_string(),
            format!("unknown instruction 0x{:X} (INVALID)", op)
        );
        assert!(mem.data == before);
    }
}

#[test]
fn every_other_opcode_runs() {
    let undefined = [
        0xD3u8, 0xDB, 0xDD, 0xE3, 0xE4, 0xEB, 0xEC, 0xED, 0xF4, 0xFC, 0xFD,
    ];
    for op in 0..=255u8 {
        if undefined.contains(&op) {
            continue;
        }
        let (cpu, mut mem) = machine(&[op, 0x02, 0xC1]);
        assert!(execute_fits(&cpu, &mem, op));
        let expected = cycles(&cpu, &mem, op);
        let after = next(cpu, &mut mem).unwrap();
        assert_eq!(after.tsc, cpu.tsc + expected, "cycles of {:02X}", op);
        assert_eq!(after.inst_count, cpu.inst_count + 1);
        assert_eq!(after.reg[FLAGS] & 0x0F, 0, "flags of {:02X}", op);
        assert_eq!(expected % 4, 0);
        assert_eq!(expected == 0, op == 0x10);
    }
}

#[test]
fn every_prefixed_opcode_takes_its_cycles() {
    for op in 0..=255u8 {
        let (cpu, mut mem) = machine(&[0xCB, op]);
        let after = next(cpu, &mut mem).unwrap();
        let expected = if op & 7 != 6 {
            8
        } else if op & 0xC0 == 0x40 {
            12
        } else {
            16
        };
        assert_eq!(after.tsc, expected, "cycles of CB {:02X}", op);
        assert_eq!(after.pc, START + 2);
    }
}

#[test]
fn conditional_instructions_take_less_time_when_not_taken() {
    // Z is set and C is set at the start
    let (cpu, mut mem) = machine(&[0x20, 0x05]);
    assert_eq!(run(cpu, &mut mem, 1).tsc, 8);
    let (cpu, mut mem) = machine(&[0x28, 0x05]);
    let after = run(cpu, &mut mem, 1);
    assert_eq!((after.tsc, after.pc), (12, START + 7));
    let (cpu, mut mem) = machine(&[0xC2, 0x34, 0x12]);
    assert_eq!(run(cpu, &mut mem, 1).tsc, 12);
    let (cpu, mut mem) = machine(&[0xDA, 0x34, 0x12]);
    let after = run(cpu, &mut mem, 1);
    assert_eq!((after.tsc, after.pc), (16, 0x1234));
    let (cpu, mut mem) = machine(&[0xC4, 0x34, 0x12]);
    assert_eq!(run(cpu, &mut mem, 1).tsc, 12);
    let (cpu, mut mem) = machine(&[0xCC, 0x34, 0x12]);
    let after = run(cpu, &mut mem, 1);
    assert_eq!((after.tsc, after.pc), (24, 0x1234));
    let (cpu, mut mem) = machine(&[0xD0]);
    assert_eq!(run(cpu, &mut mem, 1).tsc, 8);
    let (cpu, mut mem) = machine(&[0xC8]);
    assert_eq!(run(cpu, &mut mem, 1).tsc, 20);
}

#[test]
fn program_counter_has_to_stay_in_range() {
    let mut mem = Memory::new();
    let cpu = CPUState {
        pc: 0xFFFF,
        ..CPUState::new()
    };
    mem[0xFFFF] = 0x00;
    assert!(!next_fits(&cpu, &mem));
    // the jump itself has no use for the address behind it
    let cpu = CPUState { pc: 0xFFFE, ..cpu };
    mem[0xFFFE] = 0xE9;
    assert!(next_fits(&cpu, &mem));
    assert_eq!(next(cpu, &mut mem).unwrap().pc, 0x014D);
    mem[0xFFFE] = 0xC9;
    assert!(!next_fits(&CPUState { sp: 0xFFFE, ..cpu }, &mem));
    assert!(next_fits(&CPUState { sp: 0xFFFD, ..cpu }, &mem));
    mem[0xFFFE] = 0xC5;
    assert!(!next_fits(&CPUState { sp: 1, ..cpu }, &mem));
    assert!(next_fits(&CPUState { sp: 2, ..cpu }, &mem));
}

#[test]
fn counters_have_to_stay_in_range() {
    let (cpu, mem) = machine(&[0x00]);
    assert!(!next_fits(
        &CPUState {
            tsc: u64::MAX - 3,
            ..cpu
        },
        &mem
    ));
    assert!(next_fits(
        &CPUState {
            tsc: u64::MAX - 4,
            ..cpu
        },
        &mem
    ));
    assert!(!next_fits(
        &CPUState {
            inst_count: u64::MAX,
            ..cpu
        },
        &mem
    ));
}

#[test]
fn decimal_adjustment_gives_decimal_sums() {
    for a in 0..100u32 {
        for b in 0..100u32 {
            let bcd = |n: u32| ((n / 10 % 10) << 4 | n % 10) as u8;
            let (cpu, mem) = program(&[0x3E, bcd(a), 0xC6, bcd(b), 0x27], 3);
            assert_eq!(cpu.reg[REG_A], bcd(a + b));
            assert_eq!(cpu.carry(), a + b >= 100);
            assert_eq!(cpu.zero(), (a + b) % 100 == 0);
            assert_eq!(cpu.reg[FLAGS] & (FL_H | FL_N), 0);
            assert_eq!(mem.read(START), 0x3E);
        }
    }
}

#[test]
fn decimal_adjustment_gives_decimal_differences() {
    for a in 0..100u32 {
        for b in [0u32, 1, 9, 10, 19, 42, 55, 90, 99] {
            let bcd = |n: u32| ((n / 10 % 10) << 4 | n % 10) as u8;
            let (cpu, _) = program(&[0x3E, bcd(a), 0xD6, bcd(b), 0x27], 3);
            assert_eq!(cpu.reg[REG_A], bcd((100 + a - b) % 100));
            assert_eq!(cpu.carry(), a < b);
            assert!(cpu.subtract());
        }
    }
}

#[test]
fn logic_on_the_accumulator() {
    let (cpu, _) = program(&[0x3E, 0x5A, 0xE6, 0x3F], 2);
    assert_eq!((cpu.reg[REG_A], cpu.reg[FLAGS]), (0x1A, FL_H));
    let (cpu, _) = program(&[0x3E, 0x5A, 0xF6, 0x03], 2);
    assert_eq!((cpu.reg[REG_A], cpu.reg[FLAGS]), (0x5B, 0));
    let (cpu, _) = program(&[0x3E, 0x5A, 0xEE, 0xFF], 2);
    assert_eq!((cpu.reg[REG_A], cpu.reg[FLAGS]), (0xA5, 0));
    let (cpu, _) = program(&[0x3E, 0x5A, 0xAF], 2);
    assert_eq!((cpu.reg[REG_A], cpu.reg[FLAGS]), (0x00, FL_Z));
    let (cpu, _) = program(&[0x3E, 0x5A, 0x2F], 2);
    assert_eq!(
        (cpu.reg[REG_A], cpu.reg[FLAGS]),
        (0xA5, FL_Z | FL_N | FL_H | FL_C)
    );
    let (cpu, _) = program(&[0x3E, 0x5A, 0x2F, 0x2F], 3);
    assert_eq!(cpu.reg[REG_A], 0x5A);
}

#[test]
fn sums_with_carry() {
    // the carry is set at the start
    let (cpu, _) = program(&[0x3E, 0x0F, 0xCE, 0x00], 2);
    assert_eq!((cpu.reg[REG_A], cpu.reg[FLAGS]), (0x10, FL_H));
    let (cpu, _) = program(&[0x3E, 0x10, 0xDE, 0x10], 2);
    assert_eq!(
        (cpu.reg[REG_A], cpu.reg[FLAGS]),
        (0xFF, FL_N | FL_H | FL_C)
    );
}

#[test]
fn a_subtraction_takes_back_an_addition() {
    for (a, v) in [(0u8, 0u8), (1, 255), (0x0F, 1), (200, 100), (255, 255)] {
        let (cpu, _) = program(&[0x3E, a, 0xC6, v, 0xD6, v], 3);
        assert_eq!(cpu.reg[REG_A], a);
        let (cpu, _) = program(&[0x3E, a, 0xD6, v, 0xC6, v], 3);
        assert_eq!(cpu.reg[REG_A], a);
    }
}

#[test]
fn a_comparison_keeps_the_accumulator() {
    let (cpu, _) = program(&[0x3E, 0x40, 0xFE, 0x41], 2);
    assert_eq!((cpu.reg[REG_A], cpu.reg[FLAGS]), (0x40, FL_N | FL_H | FL_C));
    let (cpu, _) = program(&[0x3E, 0x40, 0xFE, 0x40], 2);
    assert_eq!((cpu.reg[REG_A], cpu.reg[FLAGS]), (0x40, FL_N | FL_Z));
}

#[test]
fn rotations_take_each_other_back() {
    for v in [0x00u8, 0x01, 0x80, 0x5A, 0xFF] {
        // RLC B, RRC B
        let (cpu, _) = program(&[0x06, v, 0xCB, 0x00, 0xCB, 0x08], 3);
        assert_eq!(cpu.reg[REG_B], v);
        // RL B, RR B with the carry set
        let (cpu, _) = program(&[0x06, v, 0x37, 0xCB, 0x10, 0xCB, 0x18], 4);
        assert_eq!(cpu.reg[REG_B], v);
        assert!(cpu.carry());
        // SWAP B twice
        let (cpu, _) = program(&[0x06, v, 0xCB, 0x30, 0xCB, 0x30], 3);
        assert_eq!(cpu.reg[REG_B], v);
    }
}

#[test]
fn shifts_are_arithmetic() {
    let (cpu, _) = program(&[0x06, 0x81, 0xCB, 0x20], 2);
    assert_eq!((cpu.reg[REG_B], cpu.reg[FLAGS]), (0x02, FL_C));
    let (cpu, _) = program(&[0x06, 0x81, 0xCB, 0x28], 2);
    assert_eq!((cpu.reg[REG_B], cpu.reg[FLAGS]), (0xC0, FL_C));
    let (cpu, _) = program(&[0x06, 0x81, 0xCB, 0x38], 2);
    assert_eq!((cpu.reg[REG_B], cpu.reg[FLAGS]), (0x40, FL_C));
    let (cpu, _) = program(&[0x06, 0xF1, 0xCB, 0x30], 2);
    assert_eq!((cpu.reg[REG_B], cpu.reg[FLAGS]), (0x1F, 0));
}

#[test]
fn rotations_of_memory() {
    // LD HL, C100; LD (HL), n; RLC (HL)
    let (cpu, mem) = program(&[0x21, 0x00, 0xC1, 0x36, 0x81, 0xCB, 0x06], 3);
    assert_eq!((mem.read(0xC100), cpu.reg[FLAGS]), (0x03, FL_C));
    let (cpu, mem) = program(&[0x21, 0x00, 0xC1, 0x36, 0x81, 0xCB, 0x0E], 3);
    assert_eq!((mem.read(0xC100), cpu.reg[FLAGS]), (0xC0, FL_C));
    // the carry is set at the start
    let (cpu, mem) = program(&[0x21, 0x00, 0xC1, 0x36, 0x80, 0xCB, 0x16], 3);
    assert_eq!((mem.read(0xC100), cpu.reg[FLAGS]), (0x01, FL_C));
    let (cpu, mem) = program(&[0x21, 0x00, 0xC1, 0x36, 0x01, 0xCB, 0x3E], 3);
    assert_eq!((mem.read(0xC100), cpu.reg[FLAGS]), (0x00, FL_Z | FL_C));
}

#[test]
fn single_bits() {
    for n in 0..8u8 {
        // LD B, 0; SET n, B; RES n, B
        let set = 0xC0 | n << 3;
        let res = 0x80 | n << 3;
        let (cpu, _) = program(&[0x06, 0x00, 0xCB, set], 2);
        assert_eq!(cpu.reg[REG_B], 1 << n);
        let (cpu, _) = program(&[0x06, 0xFF, 0xCB, res], 2);
        assert_eq!(cpu.reg[REG_B], !(1 << n));
        // the same on memory
        let (_, mem) = program(&[0x21, 0x00, 0xC1, 0x36, 0x00, 0xCB, set | 6], 3);
        assert_eq!(mem.read(0xC100), 1 << n);
        let (_, mem) = program(&[0x21, 0x00, 0xC1, 0x36, 0xFF, 0xCB, res | 6], 3);
        assert_eq!(mem.read(0xC100), !(1 << n));
        // BIT n, (HL)
        let bit = 0x40 | n << 3;
        let (cpu, _) = program(&[0x21, 0x00, 0xC1, 0x36, 1 << n, 0xCB, bit | 6], 3);
        assert_eq!(cpu.reg[FLAGS], FL_H | FL_C);
        let (cpu, _) = program(&[0x21, 0x00, 0xC1, 0x36, !(1 << n), 0xCB, bit | 6], 3);
        assert_eq!(cpu.reg[FLAGS], FL_Z | FL_H | FL_C);
        // BIT n, B clears the zero flag for a set bit and for a clear bit
        let (cpu, _) = program(&[0x06, 1 << n, 0xCB, bit], 2);
        assert_eq!(cpu.reg[FLAGS], FL_H | FL_C);
        let (cpu, _) = program(&[0x06, !(1 << n), 0xCB, bit], 2);
        assert_eq!(cpu.reg[FLAGS], FL_H | FL_C);
    }
}

#[test]
fn loads_between_all_registers() {
    // LD r, r for every pair of registers
    for y in [0usize, 1, 2, 3, 4, 5, 7] {
        for z in [0usize, 1, 2, 3, 4, 5, 7] {
            let (mut cpu, mut mem) = machine(&[0x40 | (y as u8) << 3 | z as u8]);
            cpu.reg = [0x10, 0x11, 0x12, 0x13, 0x14, 0x15, 0x00, 0x17];
            let after = run(cpu, &mut mem, 1);
            let mut expected = cpu.reg;
            expected[y] = cpu.reg[z];
            assert_eq!(after.reg, expected);
        }
    }
}

#[test]
fn loads_through_hl() {
    let (cpu, _) = program(&[0x21, 0x00, 0xC1, 0x36, 0x99, 0x46, 0x4E, 0x56, 0x5E], 6);
    assert_eq!(&cpu.reg[REG_B..=REG_E], &[0x99, 0x99, 0x99, 0x99]);
    let (_, mem) = program(&[0x21, 0x00, 0xC1, 0x3E, 0x42, 0x77], 3);
    assert_eq!(mem.read(0xC100), 0x42);
    // LD (HL+), A; LD (HL-), A; LD A, (HL+)
    let (cpu, mem) = program(&[0x21, 0xFF, 0xC1, 0x3E, 0x42, 0x22, 0x32, 0x2A], 5);
    assert_eq!((mem.read(0xC1FF), mem.read(0xC200)), (0x42, 0x42));
    assert_eq!((cpu.reg[REG_H], cpu.reg[REG_L]), (0xC2, 0x00));
}

#[test]
fn word_arithmetic() {
    // LD SP, nn; ADD SP, n
    let (cpu, _) = program(&[0x31, 0xF8, 0xFF, 0xE8, 0x08], 2);
    assert_eq!((cpu.sp, cpu.reg[FLAGS]), (0x0000, FL_H | FL_C));
    let (cpu, _) = program(&[0x31, 0x00, 0xC1, 0xE8, 0xFF], 2);
    assert_eq!((cpu.sp, cpu.reg[FLAGS]), (0xC0FF, 0));
    // LD HL, SP + n
    let (cpu, _) = program(&[0x31, 0x0F, 0xC1, 0xF8, 0x01], 2);
    assert_eq!((cpu.HL(), cpu.reg[FLAGS]), (0xC110, FL_H));
    // ADD HL, BC
    let (cpu, _) = program(&[0x21, 0xFF, 0x0F, 0x01, 0x01, 0x00, 0x09], 3);
    assert_eq!((cpu.HL(), cpu.reg[FLAGS]), (0x1000, FL_Z | FL_H));
    let (cpu, _) = program(&[0x21, 0x00, 0x80, 0x29], 2);
    assert_eq!((cpu.HL(), cpu.reg[FLAGS]), (0x0000, FL_Z | FL_C));
    // INC rr, DEC rr
    let (cpu, _) = program(&[0x01, 0xFF, 0xFF, 0x03], 2);
    assert_eq!(cpu.BC(), 0);
    let (cpu, _) = program(&[0x01, 0xFF, 0xFF, 0x03, 0x0B], 3);
    assert_eq!(cpu.BC(), 0xFFFF);
    let (cpu, _) = program(&[0x11, 0x00, 0x00, 0x1B], 2);
    assert_eq!(cpu.DE(), 0xFFFF);
    // LD (nn), SP
    let (_, mem) = program(&[0x31, 0x34, 0x12, 0x08, 0x00, 0xC1], 2);
    assert_eq!((mem.read(0xC100), mem.read(0xC101)), (0x34, 0x12));
}

#[test]
fn a_return_goes_on_behind_the_call() {
    let (cpu, mut mem) = machine(&[0xCD, 0x00, 0xC1]);
    mem.write(0xC100, 0xC9);
    let called = run(cpu, &mut mem, 1);
    assert_eq!((called.pc, called.sp, called.tsc), (0xC100, cpu.sp - 2, 24));
    let back = run(called, &mut mem, 1);
    assert_eq!((back.pc, back.sp, back.tsc), (START + 3, cpu.sp, 40));
    assert_eq!(back.reg, cpu.reg);
}

#[test]
fn a_pop_takes_back_a_push() {
    for (push, pop) in [(0xC5u8, 0xC1u8), (0xD5, 0xD1), (0xE5, 0xE1), (0xF5, 0xF1)] {
        let (mut cpu, mut mem) = machine(&[push, pop]);
        cpu.reg = [0x10, 0x11, 0x12, 0x13, 0x14, 0x15, 0xA0, 0x17];
        let after = run(cpu, &mut mem, 2);
        assert_eq!((after.reg, after.sp), (cpu.reg, cpu.sp));
    }
    // the low nibble of the flags cannot be popped
    let (cpu, _) = program(&[0x01, 0xFF, 0x12, 0xC5, 0xF1], 3);
    assert_eq!((cpu.reg[REG_A], cpu.reg[FLAGS]), (0x12, 0xF0));
    // what was pushed last comes off first
    let (cpu, _) = program(
        &[0x01, 0x22, 0x11, 0xC5, 0x01, 0x44, 0x33, 0xC5, 0xD1, 0xE1],
        6,
    );
    assert_eq!((cpu.DE(), cpu.HL()), (0x3344, 0x1122));
}

#[test]
fn interrupts_are_served_in_order() {
    let lines = [
        (FL_INT_VBLANK, 0x40u16),
        (FL_INT_STAT, 0x48),
        (FL_INT_TIMER, 0x50),
        (FL_INT_SERIAL, 0x58),
        (FL_INT_JOYPAD, 0x60),
    ];
    for (i, (flag, vector)) in lines.iter().enumerate() {
        let (cpu, mut mem) = machine(&[0x00]);
        let cpu = CPUState {
            ime: true,
            halt: true,
            inst_count: 10,
            ..cpu
        };
        // everything from this line on is requested
        let requested = 0x1F << i & 0x1F;
        mem.write(IE, 0x1F);
        mem.write(IF, requested);
        let after = run(cpu, &mut mem, 1);
        assert_eq!(after.pc, *vector);
        assert_eq!(after.tsc, 20);
        assert_eq!(after.sp, cpu.sp - 2);
        assert_eq!(mem.read(IF), requested & !flag);
        assert_eq!(after.ime, i != 4);
        assert!(!after.halt);
        assert_eq!(mem.read(cpu.sp), (START >> 8) as u8);
        assert_eq!(mem.read(cpu.sp - 1), START as u8);
    }
}

#[test]
fn disabled_interrupts_are_not_served() {
    let (cpu, mut mem) = machine(&[0x00, 0x00]);
    mem.write(IE, 0x01);
    mem.write(IF, 0x01);
    assert_eq!(run(cpu, &mut mem, 1).pc, START + 1);
    let cpu = CPUState {
        ime: true,
        inst_count: 10,
        ..cpu
    };
    mem.write(IE, 0x02);
    assert_eq!(run(cpu, &mut mem, 1).pc, START + 1);
    mem.write(IE, 0x01);
    assert_eq!(run(cpu, &mut mem, 1).pc, 0x40);
}

#[test]
fn enabling_takes_effect_after_one_more_instruction() {
    // EI; NOP; NOP
    let (cpu, mut mem) = machine(&[0xFB, 0x00, 0x00]);
    mem.write(IE, 0x04);
    mem.write(IF, 0x04);
    let cpu = run(cpu, &mut mem, 1);
    assert!(cpu.ime);
    assert_eq!(cpu.pc, START + 1);
    let cpu = run(cpu, &mut mem, 1);
    assert_eq!(cpu.pc, START + 2);
    let cpu = run(cpu, &mut mem, 1);
    assert_eq!(cpu.pc, 0x50);
}

#[test]
fn enabling_and_disabling_lets_nothing_through() {
    // EI; DI; NOP; NOP
    let (cpu, mut mem) = machine(&[0xFB, 0xF3, 0x00, 0x00]);
    mem.write(IE, 0x04);
    mem.write(IF, 0x04);
    let cpu = run(cpu, &mut mem, 4);
    assert_eq!(cpu.pc, START + 4);
    assert!(!cpu.ime);
}

#[test]
fn a_return_from_an_interrupt_enables_interrupts() {
    let (cpu, mut mem) = machine(&[0x00, 0x00]);
    mem.write(0x50, 0xD9);
    mem.write(IE, 0x04);
    mem.write(IF, 0x04);
    let cpu = CPUState {
        ime: true,
        inst_count: 10,
        ..cpu
    };
    let served = run(cpu, &mut mem, 1);
    assert_eq!(served.pc, 0x50);
    assert!(!served.ime);
    let back = run(served, &mut mem, 1);
    assert_eq!((back.pc, back.sp), (START, cpu.sp));
    assert!(back.ime);
}

#[test]
fn a_halt_lasts_until_an_interrupt_is_wanted() {
    let (cpu, mut mem) = machine(&[0x76, 0x04]);
    let halted = run(cpu, &mut mem, 1);
    assert!(halted.halt);
    assert_eq!((halted.pc, halted.tsc), (START + 1, 4));
    let waited = run(halted, &mut mem, 3);
    assert!(waited.halt);
    assert_eq!((waited.pc, waited.tsc), (START + 1, 16));
    // a request that is not enabled does not count
    mem.write(IF, 0x01);
    assert!(run(waited, &mut mem, 1).halt);
    // one that is enabled ends the halt, though interrupts are disabled
    mem.write(IE, 0x01);
    let woken = run(waited, &mut mem, 1);
    assert!(!woken.halt);
    assert_eq!((woken.pc, woken.reg[REG_B]), (START + 2, 0x01));
}

#[test]
fn stop_skips_a_byte_and_takes_no_time() {
    let (cpu, _) = program(&[0x10, 0x00], 1);
    assert_eq!((cpu.pc, cpu.tsc), (START + 2, 0));
}

#[test]
fn a_jump_can_lead_backwards() {
    let (cpu, _) = program(&[0x18, 0xFE], 1);
    assert_eq!((cpu.pc, cpu.tsc), (START, 12));
}

#[test]
fn execution_without_a_fetch() {
    let (cpu, mut mem) = machine(&[]);
    let after = execute(cpu, &mut mem, 0x0C);
    assert_eq!(after.reg[REG_C], cpu.reg[REG_C] + 1);
    assert_eq!(after.inst_count, cpu.inst_count);
    let after = execute(cpu, &mut mem, 0x15);
    assert_eq!(after.reg[REG_D], 0xFF);
}

#[test]
fn a_listing_follows_the_program() {
    // LD HL, nn; LD A, n; SWAP A; AND n; LD (HL+), A; NOP
    let bytes = [
        0x21, 0x00, 0xC1, 0x3E, 0x5A, 0xCB, 0x37, 0xE6, 0x0F, 0x22, 0x00,
    ];
    let cart = Cartridge::new(bytes.to_vec());
    let (mut cpu, mut mem) = machine(&bytes);
    let mut i = 0;
    for _ in 0..6 {
        let (_, after) = disassemble_at(&cart, i).unwrap();
        cpu = run(cpu, &mut mem, 1);
        assert_eq!(cpu.pc, START + after as u16);
        i = after;
    }
    assert_eq!(i, bytes.len());
    assert_eq!(mem.read(0xC100), 0x05);
}
