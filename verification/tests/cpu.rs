use steampunk::cpu::{flags, opcodes, Cpu, MachineInspector};
use steampunk::memory::{Memory, SimpleRam};

/// A RAM holding `program` at `start`, with the reset vector pointing there.
fn ram_with_program_at(start: u16, program: &[u8]) -> SimpleRam {
    let mut ram = SimpleRam::new();
    for (i, byte) in program.iter().enumerate() {
        ram.bytes[(start as usize + i) & 0xFFFF] = *byte;
    }
    ram.bytes[0xFFFC] = start as u8;
    ram.bytes[0xFFFD] = (start >> 8) as u8;
    ram
}


fn reset_and_start<M: Memory>(cpu: &mut Cpu<M>) {
    cpu.reset();
    cpu.ticks(8).unwrap();
}

fn program_cpu(program: &[u8]) -> Cpu<SimpleRam> {
    let memory = Box::new(SimpleRam::with_test_program(program));
    let mut cpu = Cpu::new(memory);
    reset_and_start(&mut cpu);
    return cpu;
}

#[test]
fn cpu_it_resets() {
    // We test resetting the CPU by providing a memory image with two
    // separate programs. The first starts, as usually, at 0xF000, and it
    // will store a value of 1 at 0x0000.
    let mut program = vec![
        opcodes::LDX_IMM,
        1,
        opcodes::STX_ZP,
        0,
        opcodes::TXS,
        opcodes::PHP,
    ];
    // The next one will start exactly 0x101 bytes later, at 0xF101. This is
    // because we want to change both bytes of the program's address. We
    // resize the memory so that it contains zeros until 0xF101.
    program.resize(0x101, 0);
    // Finally, the second program. It stores 2 at 0x0000.
    program.extend_from_slice(&[opcodes::LDX_IMM, 2, opcodes::STX_ZP, 0]);

    let mut cpu = program_cpu(&program);
    reset_and_start(&mut cpu);
    cpu.ticks(10).unwrap();
    assert_eq!(cpu.memory().bytes[0], 1, "the first program wasn't executed");
    assert_eq!(
        cpu.memory().bytes[0x101] & (flags::UNUSED | flags::I),
        flags::UNUSED | flags::I,
        "I and UNUSED flags are not set by default"
    );

    cpu.memory().bytes[0xFFFC] = 0x01;
    cpu.memory().bytes[0xFFFD] = 0xF1;
    reset_and_start(&mut cpu);
    cpu.ticks(5).unwrap();
    assert_eq!(cpu.memory().bytes[0], 2, "the second program wasn't executed");
}

#[test]
fn cpu_lda_sta() {
    let mut cpu = program_cpu(&[
        opcodes::LDA_IMM,
        65,
        opcodes::STA_ZP,
        4,
        opcodes::LDA_IMM,
        73,
        opcodes::STA_ZP,
        4,
        opcodes::LDA_IMM,
        12,
        opcodes::STA_ZP,
        5,
    ]);
    cpu.ticks(5).unwrap();
    assert_eq!(cpu.memory().bytes[4..6], [65, 0]);
    cpu.ticks(5).unwrap();
    assert_eq!(cpu.memory().bytes[4..6], [73, 0]);
    cpu.ticks(5).unwrap();
    assert_eq!(cpu.memory().bytes[4..6], [73, 12]);
}

#[test]
fn cpu_ldx_stx() {
    let mut cpu = program_cpu(&[
        opcodes::LDX_IMM,
        65,
        opcodes::STX_ZP,
        4,
        opcodes::LDX_IMM,
        73,
        opcodes::STX_ZP,
        4,
        opcodes::LDX_IMM,
        12,
        opcodes::STX_ZP,
        5,
    ]);
    cpu.ticks(5).unwrap();
    assert_eq!(cpu.memory().bytes[4..6], [65, 0]);
    cpu.ticks(5).unwrap();
    assert_eq!(cpu.memory().bytes[4..6], [73, 0]);
    cpu.ticks(5).unwrap();
    assert_eq!(cpu.memory().bytes[4..6], [73, 12]);
}

#[test]
fn cpu_ldy_sty() {
    let mut cpu = program_cpu(&[
        opcodes::LDY_IMM,
        65,
        opcodes::STY_ZP,
        4,
        opcodes::LDY_IMM,
        73,
        opcodes::STY_ZP,
        4,
        opcodes::LDY_IMM,
        12,
        opcodes::STY_ZP,
        5,
    ]);
    cpu.ticks(5).unwrap();
    assert_eq!(cpu.memory().bytes[4..6], [65, 0]);
    cpu.ticks(5).unwrap();
    assert_eq!(cpu.memory().bytes[4..6], [73, 0]);
    cpu.ticks(5).unwrap();
    assert_eq!(cpu.memory().bytes[4..6], [73, 12]);
}

#[test]
fn cpu_multiple_registers() {
    let mut cpu = program_cpu(&[
        opcodes::LDA_IMM,
        10,
        opcodes::LDX_IMM,
        20,
        opcodes::STA_ZP,
        0,
        opcodes::STX_ZP,
        1,
    ]);
    cpu.ticks(10).unwrap();
    assert_eq!(cpu.memory().bytes[0..2], [10, 20]);
}

#[test]
fn loading_storing_addressing_modes() {
    let mut cpu = program_cpu(&[
        opcodes::LDX_IMM,
        5,
        opcodes::LDA_IMM,
        42,
        opcodes::LDY_IMM,
        100,
        opcodes::STA_ZP_X,
        0xF8,
        opcodes::STY_ZP_X,
        0xFE,
        opcodes::INX,
        opcodes::JMP_ABS,
        0x06,
        0xF0,
    ]);
    cpu.ticks(6 + 5 * 13).unwrap();
    assert_eq!(cpu.memory().bytes[0xFC..0x100], [0, 42, 42, 42]);
    assert_eq!(
        cpu.memory().bytes[0x00..0x09],
        [42, 42, 0, 100, 100, 100, 100, 100, 0]
    );
}

#[test]
fn cpu_inc_dec() {
    let mut cpu = program_cpu(&[
        opcodes::INC_ZP,
        10,
        opcodes::INC_ZP,
        10,
        opcodes::DEC_ZP,
        11,
        opcodes::DEC_ZP,
        11,
    ]);
    cpu.ticks(20).unwrap();
    assert_eq!(cpu.memory().bytes[10..=11], [2, -2 as i8 as u8]);
}

#[test]
fn cpu_inx_dex() {
    let mut cpu = program_cpu(&[
        opcodes::LDX_IMM,
        0xFE,
        opcodes::INX,
        opcodes::STX_ZP,
        5,
        opcodes::INX,
        opcodes::STX_ZP,
        6,
        opcodes::INX,
        opcodes::STX_ZP,
        7,
        opcodes::DEX,
        opcodes::STX_ZP,
        8,
        opcodes::DEX,
        opcodes::STX_ZP,
        9,
    ]);
    cpu.ticks(27).unwrap();
    assert_eq!(cpu.memory().bytes[5..10], [0xFF, 0x00, 0x01, 0x00, 0xFF]);
}

#[test]
fn cpu_iny_dey() {
    let mut cpu = program_cpu(&[
        opcodes::LDY_IMM,
        0xFE,
        opcodes::INY,
        opcodes::STY_ZP,
        5,
        opcodes::INY,
        opcodes::STY_ZP,
        6,
        opcodes::INY,
        opcodes::STY_ZP,
        7,
        opcodes::DEY,
        opcodes::STY_ZP,
        8,
        opcodes::DEY,
        opcodes::STY_ZP,
        9,
    ]);
    cpu.ticks(27).unwrap();
    assert_eq!(cpu.memory().bytes[5..10], [0xFF, 0x00, 0x01, 0x00, 0xFF]);
}

#[test]
fn cpu_cmp() {
    let mut cpu = program_cpu(&[
        opcodes::LDA_IMM,
        7,
        // ----
        opcodes::CMP_IMM,
        6,
        opcodes::BEQ,
        37,
        opcodes::BCC,
        35,
        opcodes::BMI,
        33,
        opcodes::STA_ZP,
        30,
        // ----
        opcodes::CMP_IMM,
        7,
        opcodes::BNE,
        27,
        opcodes::BCC,
        25,
        opcodes::BMI,
        23,
        opcodes::STA_ZP,
        31,
        // ----
        opcodes::CMP_IMM,
        8,
        opcodes::BEQ,
        17,
        opcodes::BCS,
        15,
        opcodes::BPL,
        13,
        opcodes::STA_ZP,
        32,
        // ----
        opcodes::CMP_IMM,
        -7i8 as u8,
        opcodes::BEQ,
        7,
        opcodes::BCS,
        5,
        opcodes::BMI,
        3,
        opcodes::STA_ZP,
        33,
        opcodes::HLT1, // This makes sure that we don't use too many cycles.
        // If the test fails, just loop and wait.
        opcodes::JMP_ABS,
        0x2B,
        0xF0,
    ]);
    cpu.ticks(2 + 4 * 11).unwrap();
    assert_eq!(cpu.memory().bytes[30..=33], [7, 7, 7, 7]);
}

#[test]
fn cpu_cpx_cpy() {
    let mut cpu = program_cpu(&[
        opcodes::LDX_IMM,
        0xFF,
        opcodes::TXS,
        opcodes::LDY_IMM,
        10,
        opcodes::CPX_IMM,
        6,
        opcodes::PHP,
        opcodes::CPY_IMM,
        25,
        opcodes::PHP,
    ]);
    cpu.ticks(16).unwrap();
    let mask = flags::C | flags::Z | flags::N;
    assert_eq!(cpu.memory().bytes[0x1FF] & mask, flags::N | flags::C);
    assert_eq!(cpu.memory().bytes[0x1FE] & mask, flags::N);
}

#[test]
fn cpu_adc_sbc() {
    let mut cpu = program_cpu(&[
        opcodes::LDX_IMM,
        0xFE,
        opcodes::TXS,
        opcodes::PLP,
        opcodes::LDA_IMM,
        0x45,
        opcodes::ADC_IMM,
        0x2A,
        opcodes::PHA,
        opcodes::PHP,
        opcodes::ADC_IMM,
        0x20,
        opcodes::PHA,
        opcodes::PHP,
        opcodes::ADC_IMM,
        0xAC,
        opcodes::PHA,
        opcodes::PHP,
        opcodes::ADC_IMM,
        0x01,
        opcodes::PHA,
        opcodes::PHP,
        opcodes::SBC_IMM,
        0x45,
        opcodes::PHA,
        opcodes::PHP,
        opcodes::SBC_IMM,
        0x7F,
        opcodes::PHA,
        opcodes::PHP,
        opcodes::SBC_IMM,
        0xBF,
        opcodes::PHA,
        opcodes::PHP,
    ]);
    cpu.ticks(10 + 7 * 8).unwrap();

    let reversed_stack: Vec<u8> = cpu.memory().bytes[0x1F2..=0x1FF]
        .iter()
        .copied()
        .rev()
        .collect();
    assert_eq!(
        reversed_stack,
        [
            0x6F,
            flags::UNUSED,
            0x8F,
            flags::UNUSED | flags::V | flags::N,
            0x3B,
            flags::UNUSED | flags::C | flags::V,
            0x3D,
            flags::UNUSED,
            0xF7,
            flags::UNUSED | flags::N,
            0x77,
            flags::UNUSED | flags::C | flags::V,
            0xB8,
            flags::UNUSED | flags::V | flags::N,
        ]
    );
}

#[test]
fn cpu_tya() {
    let mut cpu =
        program_cpu(&[opcodes::LDY_IMM, 15, opcodes::TYA, opcodes::STA_ZP, 0x01]);
    cpu.ticks(7).unwrap();
    assert_eq!(cpu.memory().bytes[0x01], 15);
}

#[test]
fn cpu_tax() {
    let mut cpu =
        program_cpu(&[opcodes::LDA_IMM, 13, opcodes::TAX, opcodes::STX_ZP, 0x01]);
    cpu.ticks(7).unwrap();
    assert_eq!(cpu.memory().bytes[0x01], 13);
}

#[test]
fn cpu_txa() {
    let mut cpu =
        program_cpu(&[opcodes::LDX_IMM, 43, opcodes::TXA, opcodes::STA_ZP, 0x01]);
    cpu.ticks(7).unwrap();
    assert_eq!(cpu.memory().bytes[0x01], 43);
}

#[test]
fn cpu_flag_manipulation() {
    let mut cpu = program_cpu(&[
        // Load 0 to flags and initialize SP.
        opcodes::LDX_IMM,
        0xFE,
        opcodes::TXS,
        opcodes::PLP,
        // Set I and Z.
        opcodes::SEI,
        opcodes::SEC,
        opcodes::LDA_IMM,
        0,
        opcodes::PHP,
        // Clear Z, set N.
        opcodes::LDX_IMM,
        0xFF,
        opcodes::PHP,
        // Clear I, Z, and N.
        opcodes::CLI,
        opcodes::LDY_IMM,
        0x01,
        opcodes::PHP,
        opcodes::CLC,
        opcodes::PHP,
    ]);
    cpu.ticks(34).unwrap();
    assert_eq!(
        cpu.memory().bytes[0x1FC..0x200],
        [
            flags::UNUSED,
            flags::C | flags::UNUSED,
            flags::C | flags::I | flags::N | flags::UNUSED,
            flags::C | flags::I | flags::Z | flags::UNUSED,
        ]
    );
}

#[test]
fn cpu_bne() {
    let mut cpu = program_cpu(&[
        opcodes::LDX_IMM,
        5,
        opcodes::LDA_IMM,
        5,
        opcodes::STA_ZP_X,
        9,
        opcodes::DEX,
        opcodes::BNE,
        (-5i8) as u8,
        opcodes::STX_ZP,
        12,
    ]);
    cpu.ticks(4 + 4 * 9 + 8 + 3).unwrap();
    assert_eq!(cpu.memory().bytes[9..16], [0, 5, 5, 0, 5, 5, 0]);
}

#[test]
fn cpu_branching_across_pages_adds_one_cpu_cycle() {
    let memory = Box::new(ram_with_program_at(
        0xF0FB,
        &[
            opcodes::LDA_IMM,
            10,
            opcodes::BNE,
            1,
            opcodes::HLT1,
            opcodes::STA_ZP,
            20,
        ],
    ));
    let mut cpu = Cpu::new(memory);
    reset_and_start(&mut cpu);
    cpu.ticks(8).unwrap();
    assert_ne!(cpu.memory().bytes[20], 10);
    cpu.ticks(1).unwrap();
    assert_eq!(cpu.memory().bytes[20], 10);
}

#[test]
fn cpu_jmp() {
    let mut cpu = program_cpu(&[
        opcodes::LDX_IMM,
        1,
        opcodes::STX_ZP,
        9,
        opcodes::INX,
        opcodes::JMP_ABS,
        0x02,
        0xf0,
    ]);
    cpu.ticks(13).unwrap();
    assert_eq!(cpu.memory().bytes[9], 2);
    cpu.ticks(8).unwrap();
    assert_eq!(cpu.memory().bytes[9], 3);
}

#[test]
fn cpu_subroutines_and_stack() {
    let mut cpu = program_cpu(&[
        // Main program. Call subroutine A to store 6 at 25. Then call
        // subroutine B to store 7 at 28 and 6 at 26. Finally, store the 10
        // loaded to A in the beginning at 30. Duration: 25 cycles.
        opcodes::LDX_IMM,
        0xFF,
        opcodes::TXS,
        opcodes::LDA_IMM,
        10,
        opcodes::LDX_IMM,
        5,
        opcodes::JSR,
        0x11,
        0xF0,
        opcodes::INX,
        opcodes::JSR,
        0x19,
        0xF0,
        opcodes::STA_ZP,
        30,
        opcodes::HLT1,
        // Subroutine A: store 6 at 20+X. Address: $F011. Duration: 19
        // cycles.
        opcodes::PHA,
        opcodes::LDA_IMM,
        6,
        opcodes::STA_ZP_X,
        20,
        opcodes::PLA,
        opcodes::RTS,
        opcodes::HLT1,
        // Subroutine B: store 6 at 20+X and 7 at 22+X. Address: $F019.
        // Duration: 25 cycles.
        opcodes::PHA,
        opcodes::LDA_IMM,
        7,
        opcodes::JSR,
        0x11,
        0xF0,
        opcodes::STA_ZP_X,
        22,
        opcodes::PLA,
        opcodes::RTS,
        opcodes::HLT1,
    ]);
    cpu.ticks(25 + 19 + 25 + 19).unwrap();
    assert_eq!(cpu.memory().bytes[24..32], [0, 6, 6, 0, 7, 0, 10, 0]);
}

#[test]
fn cpu_stack_wrapping() {
    let mut cpu = program_cpu(&[
        opcodes::LDX_IMM,
        1,
        opcodes::TXS,
        // ----
        opcodes::TXA,
        opcodes::PHA,
        opcodes::TSX,
        opcodes::TXA,
        opcodes::PHA,
        opcodes::TSX,
        opcodes::TXA,
        opcodes::PHA,
        opcodes::TSX,
        // ----
        opcodes::TXA,
        opcodes::PLA,
        opcodes::PLA,
        opcodes::PLA,
        opcodes::STA_ZP,
        5,
    ]);
    cpu.ticks(4 + 3 * 7 + 17).unwrap();
    assert_eq!(cpu.memory().bytes[0x1FF], 0xFF);
    assert_eq!(cpu.memory().bytes[0x100..0x102], [0, 1]);
    assert_eq!(cpu.memory().bytes[5], 1);
}

#[test]
fn cpu_stack_wrapping_with_subroutines() {
    let mut cpu = program_cpu(&[
        opcodes::LDX_IMM,
        0x00,
        opcodes::TXS,
        opcodes::JSR,
        0x09,
        0xF0,
        opcodes::STA_ZP,
        20,
        opcodes::HLT1,
        // Subroutine. Address: $F009.
        opcodes::LDA_IMM,
        34,
        opcodes::RTS,
    ]);
    cpu.ticks(21).unwrap();
    assert_eq!(cpu.memory().bytes[20], 34);
}

#[test]
fn cpu_pc_wrapping() {
    let mut memory = Box::new(ram_with_program_at(
        0xFFF9,
        &[
            opcodes::JMP_ABS,
            0xFE,
            0xFF,
            0, // reset vector, will be filled
            0, // reset vector, will be filled
            opcodes::LDA_IMM,
            10,
        ],
    ));
    memory.bytes[0..2].copy_from_slice(&[opcodes::STA_ZP, 20]);
    let mut cpu = Cpu::new(memory);
    reset_and_start(&mut cpu);
    cpu.ticks(8).unwrap();
    assert_eq!(cpu.memory().bytes[20], 10);
}

#[test]
fn cpu_pc_wrapping_during_branch() {
    let mut memory = Box::new(ram_with_program_at(
        0xFFF8,
        &[
            opcodes::LDA_IMM,
            10,
            // Jump by 4 bytes: 0xFFFC + 0x06 mod 0x10000 = 0x02
            opcodes::BNE,
            6,
            0, // reset vector, will be filled
            0, // reset vector, will be filled
        ],
    ));
    memory.bytes[2..4].copy_from_slice(&[opcodes::STA_ZP, 20]);
    let mut cpu = Cpu::new(memory);
    reset_and_start(&mut cpu);
    cpu.ticks(9).unwrap();
    assert_eq!(cpu.memory().bytes[20], 10);
}

/// The bytes pushed on the stack, from the first pushed to the last.
fn reversed_stack(cpu: &mut Cpu<SimpleRam>) -> Vec<u8> {
    let sp = cpu.reg_sp() as usize;
    cpu.memory().bytes[(0x100 + sp + 1)..=0x1FF].iter().copied().rev().collect()
}

#[test]
fn tests_it_resets() {
    // We test resetting the CPU by providing a memory image with two
    // separate programs. The first starts, as usually, at 0xF000, and it
    // will store a value of 1 at 0x0000.
    let mut program = vec![
        opcodes::LDX_IMM,
        1,
        opcodes::STX_ZP,
        0,
        opcodes::TXS,
        opcodes::PHP,
    ];
    // The next one will start exactly 0x101 bytes later, at 0xF101. This is
    // because we want to change both bytes of the program's address. We
    // resize the memory so that it contains zeros until 0xF101.
    program.resize(0x101, 0);
    // Finally, the second program. It stores 2 at 0x0000.
    program.extend_from_slice(&[opcodes::LDX_IMM, 2, opcodes::STX_ZP, 0]);

    let mut cpu = program_cpu(&program);
    reset_and_start(&mut cpu);
    cpu.ticks(10).unwrap();
    assert_eq!(cpu.memory().bytes[0], 1, "the first program wasn't executed");
    assert_eq!(
        cpu.memory().bytes[0x101] & (flags::UNUSED | flags::I),
        flags::UNUSED | flags::I,
        "I and UNUSED flags are not set by default"
    );

    cpu.memory().bytes[0xFFFC] = 0x01;
    cpu.memory().bytes[0xFFFD] = 0xF1;
    reset_and_start(&mut cpu);
    cpu.ticks(5).unwrap();
    assert_eq!(cpu.memory().bytes[0], 2, "the second program wasn't executed");
}

#[test]
fn tests_multiple_registers() {
    let mut cpu = program_cpu(&[
        0xA9, 0x0A, // F000: lda #10
        0xA2, 0x14, // F002: ldx #20
        0x85, 0x00, // F004: sta 0
        0x86, 0x01, // F006: stx 1
    ]);
    cpu.ticks(10).unwrap();
    assert_eq!(cpu.memory().bytes[0..2], [10, 20]);
}

#[test]
fn tests_cmp() {
    let mut program = vec![
        0xA9, 0x07, // F000: lda #7
        0xC9, 0x06, // F002: cmp #6
        0xF0, 0x25, // F004: beq fail
        0x90, 0x23, // F006: bcc fail
        0x30, 0x21, // F008: bmi fail
        0x85, 0x1E, // F00A: sta 30
        0xC9, 0x07, // F00C: cmp #7
        0xD0, 0x1B, // F00E: bne fail
        0x90, 0x19, // F010: bcc fail
        0x30, 0x17, // F012: bmi fail
        0x85, 0x1F, // F014: sta 31
        0xC9, 0x08, // F016: cmp #8
        0xF0, 0x11, // F018: beq fail
        0xB0, 0x0F, // F01A: bcs fail
        0x10, 0x0D, // F01C: bpl fail
        0x85, 0x20, // F01E: sta 32
        0xC9, 0xF9, // F020: cmp #0xF9
        0xF0, 0x07, // F022: beq fail
        0xB0, 0x05, // F024: bcs fail
        0x30, 0x03, // F026: bmi fail
        0x85, 0x21, // F028: sta 33
        0xEA, // F02A: nop
        0x4C, 0x2B, 0xF0, // F02B: jmp fail
    ];
    // Deliberately inject HLT1 instead of NOP to make sure we never reach that
    // place and test timing.
    let len = program.len();
    program[len - 4] = opcodes::HLT1;
    let mut cpu = program_cpu(&program);
    cpu.ticks(2 + 4 * 11).unwrap();
    assert_eq!(cpu.memory().bytes[30..=33], [7, 7, 7, 7]);
}

#[test]
fn tests_cpx_cpy() {
    let mut cpu = program_cpu(&[
        0xA2, 0xFF, // F000: ldx #0xFF
        0x9A, // F002: txs
        0xA0, 0x0A, // F003: ldy #10
        0xE0, 0x06, // F005: cpx #6
        0x08, // F007: php
        0xC0, 0x19, // F008: cpy #25
        0x08, // F00A: php
    ]);
    cpu.ticks(16).unwrap();
    let mask = flags::C | flags::Z | flags::N;
    assert_eq!(cpu.memory().bytes[0x1FF] & mask, flags::N | flags::C);
    assert_eq!(cpu.memory().bytes[0x1FE] & mask, flags::N);
}

#[test]
fn tests_adc_sbc() {
    let mut cpu = program_cpu(&[
        0xA2, 0xFE, // F000: ldx #0xFE
        0x9A, // F002: txs
        0x28, // F003: plp
        0xA9, 0x45, // F004: lda #0x45
        0x69, 0x2A, // F006: adc #0x2A
        0x48, // F008: pha
        0x08, // F009: php
        0x69, 0x20, // F00A: adc #0x20
        0x48, // F00C: pha
        0x08, // F00D: php
        0x69, 0xAC, // F00E: adc #0xAC
        0x48, // F010: pha
        0x08, // F011: php
        0x69, 0x01, // F012: adc #0x01
        0x48, // F014: pha
        0x08, // F015: php
        0xE9, 0x45, // F016: sbc #0x45
        0x48, // F018: pha
        0x08, // F019: php
        0xE9, 0x7F, // F01A: sbc #0x7F
        0x48, // F01C: pha
        0x08, // F01D: php
        0xE9, 0xBF, // F01E: sbc #0xBF
        0x48, // F020: pha
        0x08, // F021: php
    ]);
    cpu.ticks(10 + 7 * 8).unwrap();

    assert_eq!(
        reversed_stack(&mut cpu),
        [
            0x6F,
            flags::UNUSED,
            0x8F,
            flags::UNUSED | flags::V | flags::N,
            0x3B,
            flags::UNUSED | flags::C | flags::V,
            0x3D,
            flags::UNUSED,
            0xF7,
            flags::UNUSED | flags::N,
            0x77,
            flags::UNUSED | flags::C | flags::V,
            0xB8,
            flags::UNUSED | flags::V | flags::N,
        ]
    );
}

#[test]
fn tests_inc_dec() {
    let mut cpu = program_cpu(&[
        0xE6, 0x0A, // F000: inc 10
        0xE6, 0x0A, // F002: inc 10
        0xC6, 0x0B, // F004: dec 11
        0xC6, 0x0B, // F006: dec 11
    ]);
    cpu.ticks(20).unwrap();
    assert_eq!(cpu.memory().bytes[10..=11], [2, -2 as i8 as u8]);
}

#[test]
fn tests_inx_dex() {
    let mut cpu = program_cpu(&[
        0xA2, 0xFE, // F000: ldx #0xFE
        0xE8, // F002: inx
        0x86, 0x05, // F003: stx 5
        0xE8, // F005: inx
        0x86, 0x06, // F006: stx 6
        0xE8, // F008: inx
        0x86, 0x07, // F009: stx 7
        0xCA, // F00B: dex
        0x86, 0x08, // F00C: stx 8
        0xCA, // F00E: dex
        0x86, 0x09, // F00F: stx 9
    ]);
    cpu.ticks(27).unwrap();
    assert_eq!(cpu.memory().bytes[5..10], [0xFF, 0x00, 0x01, 0x00, 0xFF]);
}

#[test]
fn tests_iny_dey() {
    let mut cpu = program_cpu(&[
        0xA0, 0xFE, // F000: ldy #0xFE
        0xC8, // F002: iny
        0x84, 0x05, // F003: sty 5
        0xC8, // F005: iny
        0x84, 0x06, // F006: sty 6
        0xC8, // F008: iny
        0x84, 0x07, // F009: sty 7
        0x88, // F00B: dey
        0x84, 0x08, // F00C: sty 8
        0x88, // F00E: dey
        0x84, 0x09, // F00F: sty 9
    ]);
    cpu.ticks(27).unwrap();
    assert_eq!(cpu.memory().bytes[5..10], [0xFF, 0x00, 0x01, 0x00, 0xFF]);
}

#[test]
fn tests_tya() {
    let mut cpu = program_cpu(&[
        0xA0, 0x0F, // F000: ldy #15
        0x98, // F002: tya
        0x85, 0x01, // F003: sta 1
    ]);
    cpu.ticks(7).unwrap();
    assert_eq!(cpu.memory().bytes[0x01], 15);
}

#[test]
fn tests_tax() {
    let mut cpu = program_cpu(&[
        0xA9, 0x0D, // F000: lda #13
        0xAA, // F002: tax
        0x86, 0x01, // F003: stx 0x01
    ]);
    cpu.ticks(7).unwrap();
    assert_eq!(cpu.memory().bytes[0x01], 13);
}

#[test]
fn tests_txa() {
    let mut cpu = program_cpu(&[
        0xA2, 0x2B, // F000: ldx #43
        0x8A, // F002: txa
        0x85, 0x01, // F003: sta 0x01
    ]);
    cpu.ticks(7).unwrap();
    assert_eq!(cpu.memory().bytes[0x01], 43);
}

#[test]
fn tests_flag_manipulation() {
    let mut cpu = program_cpu(&[
        0xA2, 0xFE, // F000: ldx #0xFE
        0x9A, // F002: txs
        0x28, // F003: plp
        0x78, // F004: sei
        0x38, // F005: sec
        0xA9, 0x00, // F006: lda #0
        0x08, // F008: php
        0xA2, 0xFF, // F009: ldx #0xFF
        0x08, // F00B: php
        0x58, // F00C: cli
        0xA0, 0x01, // F00D: ldy #0x01
        0x08, // F00F: php
        0x18, // F010: clc
        0x08, // F011: php
    ]);
    cpu.ticks(34).unwrap();
    assert_eq!(
        cpu.memory().bytes[0x1FC..0x200],
        [
            flags::UNUSED,
            flags::C | flags::UNUSED,
            flags::C | flags::I | flags::N | flags::UNUSED,
            flags::C | flags::I | flags::Z | flags::UNUSED,
        ]
    );
}

#[test]
fn tests_bne() {
    let mut cpu = program_cpu(&[
        0xA2, 0x05, // F000: ldx #5
        0xA9, 0x05, // F002: lda #5
        0x95, 0x09, // F004: sta 9,x
        0xCA, // F006: dex
        0xD0, 0xFB, // F007: bne loop
        0x86, 0x0C, // F009: stx 12
    ]);
    cpu.ticks(4 + 4 * 9 + 8 + 3).unwrap();
    assert_eq!(cpu.memory().bytes[9..16], [0, 5, 5, 0, 5, 5, 0]);
}

#[test]
fn tests_branching_across_pages_adds_one_cpu_cycle() {
    let memory = Box::new(ram_with_program_at(
        0xF0FB,
        &[
            opcodes::LDA_IMM,
            10,
            opcodes::BNE,
            1,
            opcodes::HLT1,
            opcodes::STA_ZP,
            20,
        ],
    ));
    let mut cpu = Cpu::new(memory);
    reset_and_start(&mut cpu);
    cpu.ticks(8).unwrap();
    assert_ne!(cpu.memory().bytes[20], 10);
    cpu.ticks(1).unwrap();
    assert_eq!(cpu.memory().bytes[20], 10);
}

#[test]
fn tests_jmp() {
    let mut cpu = program_cpu(&[
        0xA2, 0x01, // F000: ldx #1
        0x86, 0x09, // F002: stx 9
        0xE8, // F004: inx
        0x4C, 0x02, 0xF0, // F005: jmp loop
    ]);

    cpu.ticks(13).unwrap();
    assert_eq!(cpu.memory().bytes[9], 2);
    cpu.ticks(8).unwrap();
    assert_eq!(cpu.memory().bytes[9], 3);
}

#[test]
fn tests_stack_wrapping() {
    let mut cpu = program_cpu(&[
        0xA2, 0x01, // F000: ldx #1
        0x9A, // F002: txs
        0x8A, // F003: txa
        0x48, // F004: pha
        0xBA, // F005: tsx
        0x8A, // F006: txa
        0x48, // F007: pha
        0xBA, // F008: tsx
        0x8A, // F009: txa
        0x48, // F00A: pha
        0xBA, // F00B: tsx
        0x8A, // F00C: txa
        0x68, // F00D: pla
        0x68, // F00E: pla
        0x68, // F00F: pla
        0x85, 0x05, // F010: sta 5
    ]);
    cpu.ticks(4 + 3 * 7 + 17).unwrap();
    assert_eq!(cpu.memory().bytes[0x1FF], 0xFF);
    assert_eq!(cpu.memory().bytes[0x100..0x102], [0, 1]);
    assert_eq!(cpu.memory().bytes[5], 1);
}

#[test]
fn tests_pc_wrapping() {
    let mut memory = Box::new(ram_with_program_at(
        0xFFF9,
        &[
            opcodes::JMP_ABS,
            0xFE,
            0xFF,
            0, // reset vector, will be filled
            0, // reset vector, will be filled
            opcodes::LDA_IMM,
            10,
        ],
    ));
    memory.bytes[0..2].copy_from_slice(&[opcodes::STA_ZP, 20]);
    let mut cpu = Cpu::new(memory);
    reset_and_start(&mut cpu);
    cpu.ticks(8).unwrap();
    assert_eq!(cpu.memory().bytes[20], 10);
}

#[test]
fn tests_pc_wrapping_during_branch() {
    let mut memory = Box::new(ram_with_program_at(
        0xFFF8,
        &[
            opcodes::LDA_IMM,
            10,
            // Jump by 4 bytes: 0xFFFC + 0x06 mod 0x10000 = 0x02
            opcodes::BNE,
            6,
            0, // reset vector, will be filled
            0, // reset vector, will be filled
        ],
    ));
    memory.bytes[2..4].copy_from_slice(&[opcodes::STA_ZP, 20]);
    let mut cpu = Cpu::new(memory);
    reset_and_start(&mut cpu);
    cpu.ticks(9).unwrap();
    assert_eq!(cpu.memory().bytes[20], 10);
}
