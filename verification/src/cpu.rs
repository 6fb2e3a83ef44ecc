pub mod bcd;
pub mod flags;
pub mod opcodes;

use crate::memory::{Memory, ReadError, ReadResult, WriteError};
use crate::random::random_u8;
use crate::text::push_char;
use vstd::prelude::*;

verus! {

/// Where the CPU is within the current instruction (or the reset sequence).
#[derive(Debug, Clone, Copy, PartialEq, Eq, Structural)]
pub enum SequenceState {
    /// The reset sequence, with the number of the current cycle.
    Reset(u32),
    /// Ready to fetch the next opcode.
    Ready,
    /// Executing an opcode; the number is the cycle within the instruction.
    Opcode(u8, u32),
}

/// An opcode that the CPU does not implement.
#[derive(Debug, Clone, Copy, PartialEq, Eq, Structural)]
pub struct UnknownOpcodeError {
    pub opcode: u8,
    pub address: u16,
}

/// An opcode that halts the processor.
#[derive(Debug, Clone, Copy, PartialEq, Eq, Structural)]
pub struct CpuHaltedError {
    pub opcode: u8,
    pub address: u16,
}

/// Why a CPU cycle failed.
#[derive(Debug, Clone, Copy, PartialEq, Eq, Structural)]
pub enum CpuError {
    ReadError(ReadError),
    WriteError(WriteError),
    UnknownOpcode(UnknownOpcodeError),
    Halted(CpuHaltedError),
}

pub type TickResult = Result<(), CpuError>;

/// The registers and the internal state of the CPU.
pub struct CpuState {
    pub pc: u16,
    pub a: u8,
    pub x: u8,
    pub y: u8,
    pub sp: u8,
    pub flags: u8,
    pub seq: SequenceState,
    pub adl: u8,
    pub bal: u8,
    pub tmp: u8,
}

/// The effect of one CPU cycle: the state it leads to, the memory write it
/// performs (if any), the state it leaves behind when that write fails, and
/// its result when the write (if any) succeeds.
pub struct Step {
    pub next: CpuState,
    pub write: Option<(u16, u8)>,
    pub failed: CpuState,
    pub result: TickResult,
}

// ---------------------------------------------------------------------------
// Arithmetic of the model.

/// `x + d`, wrapped to 16 bits.
pub open spec fn add16(x: u16, d: int) -> u16 {
    ((x + d) % 0x10000) as u16
}

/// `x + d`, wrapped to 8 bits.
pub open spec fn add8(x: u8, d: int) -> u8 {
    ((x + d) % 0x100) as u8
}

/// The two's complement value of a byte.
pub open spec fn signed(x: u8) -> int {
    if x >= 0x80 {
        x - 0x100
    } else {
        x as int
    }
}

/// An integer wrapped to the signed 8-bit range.
pub open spec fn wrap_signed(x: int) -> int {
    if x < -128 {
        x + 256
    } else if x > 127 {
        x - 256
    } else {
        x
    }
}

/// The address of the stack slot that `sp` points to (page 1).
pub open spec fn stack_address(sp: u8) -> u16 {
    (0x100 + sp) as u16
}

/// The status register after the N and Z flags are set to describe `value`.
pub open spec fn nz(flags: u8, value: u8) -> u8 {
    (flags & !(flags::Z | flags::N)) | (if value == 0 {
        flags::Z
    } else {
        0
    }) | (if value & 0x80 != 0 {
        flags::N
    } else {
        0
    })
}

pub open spec fn carry_in(flags: u8) -> int {
    if flags & flags::C != 0 {
        1
    } else {
        0
    }
}

/// ADC in binary mode. The carry is set when the unsigned sum exceeds 0xFF.
/// The overflow flag is set when the signed sum `a + value` leaves the signed
/// byte range, or when adding the carry to its wrapped value does.
pub open spec fn adc_spec(s: CpuState, value: u8) -> CpuState {
    let c = carry_in(s.flags);
    let sum = s.a + value + c;
    let result = (sum % 256) as u8;
    let s1 = signed(s.a) + signed(value);
    let overflow = s1 < -128 || s1 > 127 || (c == 1 && wrap_signed(s1) + 1 > 127);
    let f = nz(s.flags, result);
    CpuState {
        a: result,
        flags: (f & !(flags::C | flags::V)) | (if sum > 255 {
            flags::C
        } else {
            0
        }) | (if overflow {
            flags::V
        } else {
            0
        }),
        ..s
    }
}

/// SBC in binary mode. The carry is cleared when the unsigned difference
/// borrows. The overflow flag is set when the signed difference `a - value`
/// leaves the signed byte range, or when subtracting the borrow from its
/// wrapped value does.
pub open spec fn sbc_spec(s: CpuState, value: u8) -> CpuState {
    let b = 1 - carry_in(s.flags);
    let diff = s.a - value - b;
    let result = (diff % 256) as u8;
    let s1 = signed(s.a) - signed(value);
    let overflow = s1 < -128 || s1 > 127 || (b == 1 && wrap_signed(s1) - 1 < -128);
    let f = nz(s.flags, result);
    CpuState {
        a: result,
        flags: (f & !(flags::C | flags::V)) | (if diff < 0 {
            0
        } else {
            flags::C
        }) | (if overflow {
            flags::V
        } else {
            0
        }),
        ..s
    }
}

/// CMP, CPX, CPY: N and Z describe `register - value`; C is set when there is
/// no borrow.
pub open spec fn compare_spec(s: CpuState, register: u8, value: u8) -> CpuState {
    let f = nz(s.flags, add8(register, -value));
    CpuState {
        flags: (f & !flags::C) | (if register < value {
            0
        } else {
            flags::C
        }),
        ..s
    }
}

/// The effect of an instruction with an immediate operand `value`.
pub open spec fn immediate_op(op: u8, s: CpuState, value: u8) -> CpuState {
    if op == opcodes::LDA_IMM {
        CpuState { a: value, flags: nz(s.flags, value), ..s }
    } else if op == opcodes::LDX_IMM {
        CpuState { x: value, flags: nz(s.flags, value), ..s }
    } else if op == opcodes::LDY_IMM {
        CpuState { y: value, flags: nz(s.flags, value), ..s }
    } else if op == opcodes::CMP_IMM {
        compare_spec(s, s.a, value)
    } else if op == opcodes::CPX_IMM {
        compare_spec(s, s.x, value)
    } else if op == opcodes::CPY_IMM {
        compare_spec(s, s.y, value)
    } else if op == opcodes::ADC_IMM {
        adc_spec(s, value)
    } else {
        sbc_spec(s, value)
    }
}

pub open spec fn is_immediate_op(op: u8) -> bool {
    op == opcodes::LDA_IMM || op == opcodes::LDX_IMM || op == opcodes::LDY_IMM || op
        == opcodes::CMP_IMM || op == opcodes::CPX_IMM || op == opcodes::CPY_IMM || op
        == opcodes::ADC_IMM || op == opcodes::SBC_IMM
}

/// The effect of a single-byte instruction that works on registers only.
pub open spec fn implied_op(op: u8, s: CpuState) -> CpuState {
    if op == opcodes::INX {
        let v = add8(s.x, 1);
        CpuState { x: v, flags: nz(s.flags, v), ..s }
    } else if op == opcodes::INY {
        let v = add8(s.y, 1);
        CpuState { y: v, flags: nz(s.flags, v), ..s }
    } else if op == opcodes::DEX {
        let v = add8(s.x, -1);
        CpuState { x: v, flags: nz(s.flags, v), ..s }
    } else if op == opcodes::DEY {
        let v = add8(s.y, -1);
        CpuState { y: v, flags: nz(s.flags, v), ..s }
    } else if op == opcodes::TYA {
        CpuState { a: s.y, flags: nz(s.flags, s.y), ..s }
    } else if op == opcodes::TAX {
        CpuState { x: s.a, flags: nz(s.flags, s.a), ..s }
    } else if op == opcodes::TXA {
        CpuState { a: s.x, flags: nz(s.flags, s.x), ..s }
    } else if op == opcodes::TXS {
        CpuState { sp: s.x, ..s }
    } else if op == opcodes::TSX {
        CpuState { x: s.sp, flags: nz(s.flags, s.sp), ..s }
    } else if op == opcodes::SEI {
        CpuState { flags: s.flags | flags::I, ..s }
    } else if op == opcodes::CLI {
        CpuState { flags: s.flags & !flags::I, ..s }
    } else if op == opcodes::CLD {
        CpuState { flags: s.flags & !flags::D, ..s }
    } else if op == opcodes::CLC {
        CpuState { flags: s.flags & !flags::C, ..s }
    } else {
        CpuState { flags: s.flags | flags::C, ..s }
    }
}

pub open spec fn is_implied_op(op: u8) -> bool {
    op == opcodes::INX || op == opcodes::INY || op == opcodes::DEX || op == opcodes::DEY || op
        == opcodes::TYA || op == opcodes::TAX || op == opcodes::TXA || op == opcodes::TXS || op
        == opcodes::TSX || op == opcodes::SEI || op == opcodes::CLI || op == opcodes::CLD || op
        == opcodes::CLC || op == opcodes::SEC
}

/// The flag tested by a branch opcode, and the value that makes it branch.
pub open spec fn branch_condition(op: u8) -> (u8, u8) {
    if op == opcodes::BEQ {
        (flags::Z, flags::Z)
    } else if op == opcodes::BNE {
        (flags::Z, 0)
    } else if op == opcodes::BCC {
        (flags::C, 0)
    } else if op == opcodes::BCS {
        (flags::C, flags::C)
    } else if op == opcodes::BPL {
        (flags::N, 0)
    } else {
        (flags::N, flags::N)
    }
}

pub open spec fn is_branch_op(op: u8) -> bool {
    op == opcodes::BEQ || op == opcodes::BNE || op == opcodes::BCC || op == opcodes::BCS || op
        == opcodes::BPL || op == opcodes::BMI
}

// ---------------------------------------------------------------------------
// Steps of the model.

pub open spec fn quiet(next: CpuState, result: TickResult) -> Step {
    Step { next, write: None, failed: next, result }
}

pub open spec fn read_failed(s: CpuState, e: ReadError) -> Step {
    quiet(s, Err(CpuError::ReadError(e)))
}

pub open spec fn writing(next: CpuState, failed: CpuState, address: u16, value: u8) -> Step {
    Step { next, write: Some((address, value)), failed, result: Ok(()) }
}

pub open spec fn ready(s: CpuState) -> CpuState {
    CpuState { seq: SequenceState::Ready, ..s }
}

/// Reads the byte at PC and advances PC; on a read error nothing changes.
pub open spec fn consumed<M: Memory>(s: CpuState, mem: M) -> CpuState {
    match mem.read_spec(s.pc) {
        Ok(_) => CpuState { pc: add16(s.pc, 1), ..s },
        Err(_) => s,
    }
}

/// Fetching an opcode.
pub open spec fn fetch_step<M: Memory>(s: CpuState, mem: M) -> Step {
    match mem.read_spec(s.pc) {
        Ok(op) => quiet(
            CpuState { pc: add16(s.pc, 1), seq: SequenceState::Opcode(op, 0), ..s },
            Ok(()),
        ),
        Err(e) => read_failed(s, e),
    }
}

/// The last cycle of an instruction with an immediate operand.
pub open spec fn immediate_step<M: Memory>(s: CpuState, mem: M, op: u8) -> Step {
    match mem.read_spec(s.pc) {
        Ok(v) => quiet(ready(immediate_op(op, CpuState { pc: add16(s.pc, 1), ..s }, v)), Ok(())),
        Err(e) => read_failed(s, e),
    }
}

/// STA, STX, STY with zero-page addressing, storing `value`.
pub open spec fn store_zero_page_step<M: Memory>(
    s: CpuState,
    mem: M,
    sub: u32,
    value: u8,
) -> Step {
    if sub == 1 {
        match mem.read_spec(s.pc) {
            Ok(adl) => quiet(CpuState { pc: add16(s.pc, 1), adl, ..s }, Ok(())),
            Err(e) => read_failed(s, e),
        }
    } else {
        writing(ready(s), s, s.adl as u16, value)
    }
}

/// STA, STY with zero-page,X addressing, storing `value`.
pub open spec fn store_zero_page_x_step<M: Memory>(
    s: CpuState,
    mem: M,
    sub: u32,
    value: u8,
) -> Step {
    if sub == 1 {
        match mem.read_spec(s.pc) {
            Ok(bal) => quiet(CpuState { pc: add16(s.pc, 1), bal, ..s }, Ok(())),
            Err(e) => read_failed(s, e),
        }
    } else if sub == 2 {
        quiet(s, Ok(()))
    } else {
        writing(ready(s), s, add8(s.bal, s.x as int) as u16, value)
    }
}

/// INC and DEC with zero-page addressing.
pub open spec fn modify_zero_page_step<M: Memory>(
    s: CpuState,
    mem: M,
    sub: u32,
    increment: bool,
) -> Step {
    if sub == 1 {
        match mem.read_spec(s.pc) {
            Ok(adl) => quiet(CpuState { pc: add16(s.pc, 1), adl, ..s }, Ok(())),
            Err(e) => read_failed(s, e),
        }
    } else if sub == 2 {
        match mem.read_spec(s.adl as u16) {
            Ok(tmp) => quiet(CpuState { tmp, ..s }, Ok(())),
            Err(e) => read_failed(s, e),
        }
    } else if sub == 3 {
        writing(s, s, s.adl as u16, s.tmp)
    } else {
        let result = if increment {
            add8(s.tmp, 1)
        } else {
            add8(s.tmp, -1)
        };
        let t = CpuState { flags: nz(s.flags, result), ..s };
        writing(ready(t), t, s.adl as u16, result)
    }
}

/// A single-byte instruction that works on registers only.
pub open spec fn implied_step(s: CpuState, op: u8) -> Step {
    quiet(ready(implied_op(op, s)), Ok(()))
}

/// PHA, PHP: pushing `value`.
pub open spec fn push_step(s: CpuState, sub: u32, value: u8) -> Step {
    if sub == 1 {
        quiet(s, Ok(()))
    } else {
        writing(ready(CpuState { sp: add8(s.sp, -1), ..s }), s, stack_address(s.sp), value)
    }
}

/// PLA, PLP.
pub open spec fn pull_step<M: Memory>(s: CpuState, mem: M, sub: u32, op: u8) -> Step {
    if sub == 1 {
        quiet(s, Ok(()))
    } else if sub == 2 {
        quiet(CpuState { sp: add8(s.sp, 1), ..s }, Ok(()))
    } else {
        match mem.read_spec(stack_address(s.sp)) {
            Ok(v) => quiet(
                ready(
                    if op == opcodes::PLP {
                        CpuState { flags: v | flags::UNUSED, ..s }
                    } else {
                        CpuState { a: v, flags: nz(s.flags, v), ..s }
                    },
                ),
                Ok(()),
            ),
            Err(e) => read_failed(s, e),
        }
    }
}

/// The program counter after a branch by the offset held in `adl`.
pub open spec fn branch_target(s: CpuState) -> u16 {
    add16(s.pc, signed(s.adl))
}

/// Conditional branches: two cycles if not taken, three if taken within the
/// same page, four if taken to another page.
pub open spec fn branch_step<M: Memory>(s: CpuState, mem: M, sub: u32, op: u8) -> Step {
    let (flag, value) = branch_condition(op);
    if sub == 1 {
        match mem.read_spec(s.pc) {
            Ok(adl) => {
                let t = CpuState { pc: add16(s.pc, 1), adl, ..s };
                quiet(
                    if s.flags & flag != value {
                        ready(t)
                    } else {
                        t
                    },
                    Ok(()),
                )
            },
            Err(e) => read_failed(s, e),
        }
    } else if sub == 2 {
        let new_pc = branch_target(s);
        let t = CpuState { pc: new_pc, ..s };
        quiet(
            if new_pc / 256 == s.pc / 256 {
                ready(t)
            } else {
                t
            },
            Ok(()),
        )
    } else {
        quiet(ready(s), Ok(()))
    }
}

/// JMP absolute.
pub open spec fn jmp_step<M: Memory>(s: CpuState, mem: M, sub: u32) -> Step {
    if sub == 1 {
        match mem.read_spec(s.pc) {
            Ok(adl) => quiet(CpuState { pc: add16(s.pc, 1), adl, ..s }, Ok(())),
            Err(e) => read_failed(s, e),
        }
    } else {
        match mem.read_spec(s.pc) {
            Ok(adh) => quiet(ready(CpuState { pc: (s.adl + 256 * adh) as u16, ..s }), Ok(())),
            Err(e) => read_failed(s, e),
        }
    }
}

/// JSR: pushes the address of the last byte of the instruction, high byte
/// first, then jumps.
pub open spec fn jsr_step<M: Memory>(s: CpuState, mem: M, sub: u32) -> Step {
    if sub == 1 {
        match mem.read_spec(s.pc) {
            Ok(adl) => quiet(CpuState { pc: add16(s.pc, 1), adl, ..s }, Ok(())),
            Err(e) => read_failed(s, e),
        }
    } else if sub == 2 {
        quiet(s, Ok(()))
    } else if sub == 3 {
        writing(
            CpuState { sp: add8(s.sp, -1), ..s },
            s,
            stack_address(s.sp),
            (s.pc / 256) as u8,
        )
    } else if sub == 4 {
        writing(
            CpuState { sp: add8(s.sp, -1), ..s },
            s,
            stack_address(s.sp),
            (s.pc % 256) as u8,
        )
    } else {
        match mem.read_spec(s.pc) {
            Ok(adh) => quiet(ready(CpuState { pc: (s.adl + 256 * adh) as u16, ..s }), Ok(())),
            Err(e) => read_failed(s, e),
        }
    }
}

/// RTS: pulls the return address, low byte first, and skips the byte it
/// points to.
pub open spec fn rts_step<M: Memory>(s: CpuState, mem: M, sub: u32) -> Step {
    if sub == 1 {
        quiet(consumed(s, mem), Ok(()))
    } else if sub == 2 {
        quiet(CpuState { sp: add8(s.sp, 1), ..s }, Ok(()))
    } else if sub == 3 {
        match mem.read_spec(stack_address(s.sp)) {
            Ok(v) => quiet(
                CpuState { pc: (256 * (s.pc / 256) + v) as u16, sp: add8(s.sp, 1), ..s },
                Ok(()),
            ),
            Err(e) => read_failed(s, e),
        }
    } else if sub == 4 {
        match mem.read_spec(stack_address(s.sp)) {
            Ok(v) => quiet(CpuState { pc: (s.pc % 256 + 256 * v) as u16, ..s }, Ok(())),
            Err(e) => read_failed(s, e),
        }
    } else {
        quiet(ready(consumed(s, mem)), Ok(()))
    }
}

/// One cycle of an instruction, before the cycle counter advances.
pub open spec fn opcode_step<M: Memory>(s: CpuState, mem: M, op: u8, sub: u32) -> Step {
    if is_immediate_op(op) {
        immediate_step(s, mem, op)
    } else if op == opcodes::STA_ZP {
        store_zero_page_step(s, mem, sub, s.a)
    } else if op == opcodes::STA_ZP_X {
        store_zero_page_x_step(s, mem, sub, s.a)
    } else if op == opcodes::STX_ZP {
        store_zero_page_step(s, mem, sub, s.x)
    } else if op == opcodes::STY_ZP {
        store_zero_page_step(s, mem, sub, s.y)
    } else if op == opcodes::STY_ZP_X {
        store_zero_page_x_step(s, mem, sub, s.y)
    } else if op == opcodes::INC_ZP {
        modify_zero_page_step(s, mem, sub, true)
    } else if op == opcodes::DEC_ZP {
        modify_zero_page_step(s, mem, sub, false)
    } else if is_implied_op(op) {
        implied_step(s, op)
    } else if op == opcodes::PHP {
        push_step(s, sub, s.flags)
    } else if op == opcodes::PHA {
        push_step(s, sub, s.a)
    } else if op == opcodes::PLP || op == opcodes::PLA {
        pull_step(s, mem, sub, op)
    } else if is_branch_op(op) {
        branch_step(s, mem, sub, op)
    } else if op == opcodes::JMP_ABS {
        jmp_step(s, mem, sub)
    } else if op == opcodes::JSR {
        jsr_step(s, mem, sub)
    } else if op == opcodes::RTS {
        rts_step(s, mem, sub)
    } else if op == opcodes::HLT1 {
        quiet(
            s,
            Err(CpuError::Halted(CpuHaltedError { opcode: op, address: add16(s.pc, -1) })),
        )
    } else {
        quiet(
            s,
            Err(CpuError::UnknownOpcode(UnknownOpcodeError { opcode: op, address: add16(s.pc, -1) })),
        )
    }
}

/// One cycle of the reset sequence: six idle cycles, then the reset vector at
/// 0xFFFC-0xFFFD is loaded into PC.
pub open spec fn reset_step<M: Memory>(s: CpuState, mem: M, n: u32) -> Step {
    if n == 0 {
        quiet(CpuState { flags: s.flags | (flags::UNUSED | flags::I), ..s }, Ok(()))
    } else if n <= 5 {
        quiet(s, Ok(()))
    } else if n == 6 {
        match mem.read_spec(0xFFFC) {
            Ok(v) => quiet(CpuState { pc: v as u16, ..s }, Ok(())),
            Err(e) => read_failed(s, e),
        }
    } else {
        match mem.read_spec(0xFFFD) {
            Ok(v) => quiet(ready(CpuState { pc: (s.pc + 256 * v) as u16, ..s }), Ok(())),
            Err(e) => read_failed(s, e),
        }
    }
}

/// Moves on to the next cycle of the instruction or of the reset sequence.
pub open spec fn advance(s: CpuState) -> CpuState {
    match s.seq {
        SequenceState::Opcode(op, sub) => CpuState {
            seq: SequenceState::Opcode(op, (sub + 1) as u32),
            ..s
        },
        SequenceState::Reset(n) => CpuState { seq: SequenceState::Reset((n + 1) as u32), ..s },
        SequenceState::Ready => s,
    }
}

/// One CPU cycle, before the cycle counter advances.
pub open spec fn raw_step<M: Memory>(s: CpuState, mem: M) -> Step {
    match s.seq {
        SequenceState::Ready => fetch_step(s, mem),
        SequenceState::Opcode(op, sub) => opcode_step(s, mem, op, sub),
        SequenceState::Reset(n) => reset_step(s, mem, n),
    }
}

/// One CPU cycle.
pub open spec fn tick_spec<M: Memory>(s: CpuState, mem: M) -> Step {
    let st = raw_step(s, mem);
    if st.result is Ok {
        Step { next: advance(st.next), ..st }
    } else {
        st
    }
}

/// Whether a cycle that was to take `step` from `(s, mem)` ended in
/// `(s2, mem2)` with result `r`. A failing write leaves the `failed` state
/// behind and reports the write error; otherwise the cycle ends in `next`.
pub open spec fn performed<M: Memory>(
    mem: M,
    step: Step,
    s2: CpuState,
    mem2: M,
    r: TickResult,
) -> bool {
    match step.write {
        None => mem2 == mem && s2 == step.next && r == step.result,
        Some((address, value)) => mem.after_write(address, value, mem2) && match mem.write_spec(
            address,
            value,
        ) {
            Ok(_) => s2 == step.next && r == step.result,
            Err(e) => s2 == step.failed && r == Err::<(), CpuError>(CpuError::WriteError(e)),
        },
    }
}

/// The cycle counters stay within the sequences they count, and the last
/// cycle of the reset sequence finds only the low byte of the reset vector in
/// PC.
/// Whether one cycle took the CPU from `(s, mem)` to `(s2, mem2)` with
/// result `r`.
pub open spec fn ticked<M: Memory>(s: CpuState, mem: M, s2: CpuState, mem2: M, r: TickResult) -> bool {
    performed(mem, tick_spec(s, mem), s2, mem2, r)
}

/// Whether `n` successful cycles take the CPU from `(s, mem)` to
/// `(s2, mem2)`.
pub open spec fn runs<M: Memory>(s: CpuState, mem: M, n: nat, s2: CpuState, mem2: M) -> bool
    decreases n,
{
    if n == 0 {
        s2 == s && mem2 == mem
    } else {
        exists|s1: CpuState, mem1: M|
            runs(s, mem, (n - 1) as nat, s1, mem1) && #[trigger] ticked(s1, mem1, s2, mem2, Ok(()))
    }
}

pub open spec fn state_wf(s: CpuState) -> bool {
    match s.seq {
        SequenceState::Reset(n) => n <= 7 && (n == 7 ==> s.pc < 256),
        SequenceState::Opcode(_, sub) => 1 <= sub <= 5,
        SequenceState::Ready => true,
    }
}

/// The first `k` cycles of a reset sequence, for `k` up to 7: memory is
/// left alone, the registers but PC and the status flags are kept, and from
/// the seventh cycle on PC holds the low byte of the reset vector.
proof fn lemma_reset_prefix<M: Memory>(s: CpuState, mem: M, k: nat, s2: CpuState, mem2: M, lo: u8)
    requires
        s.seq == SequenceState::Reset(0),
        mem.read_spec(0xFFFC) == Ok::<u8, ReadError>(lo),
        k <= 7,
        runs(s, mem, k, s2, mem2),
    ensures
        mem2 == mem,
        s2.seq == SequenceState::Reset(k as u32),
        s2.a == s.a && s2.x == s.x && s2.y == s.y && s2.sp == s.sp,
        k >= 1 ==> s2.flags == s.flags | (flags::UNUSED | flags::I),
        k >= 7 ==> s2.pc == lo as u16,
    decreases k,
{
    if k > 0 {
        let (s1, mem1): (CpuState, M) = choose|s1: CpuState, mem1: M|
            runs(s, mem, (k - 1) as nat, s1, mem1) && #[trigger] ticked(s1, mem1, s2, mem2, Ok(()));
        lemma_reset_prefix(s, mem, (k - 1) as nat, s1, mem1, lo);
    }
}

/// Reset law: eight successful cycles after a reset load the reset vector at
/// 0xFFFC-0xFFFD into PC and leave the CPU ready for the first instruction,
/// with interrupts disabled and memory untouched.
pub proof fn lemma_reset_loads_vector<M: Memory>(
    s: CpuState,
    mem: M,
    s2: CpuState,
    mem2: M,
    lo: u8,
    hi: u8,
)
    requires
        s.seq == SequenceState::Reset(0),
        mem.read_spec(0xFFFC) == Ok::<u8, ReadError>(lo),
        mem.read_spec(0xFFFD) == Ok::<u8, ReadError>(hi),
        runs(s, mem, 8, s2, mem2),
    ensures
        mem2 == mem,
        s2.seq == SequenceState::Ready,
        s2.pc == lo + 256 * hi,
        s2.flags == s.flags | (flags::UNUSED | flags::I),
        s2.a == s.a && s2.x == s.x && s2.y == s.y && s2.sp == s.sp,
{
    let (s1, mem1): (CpuState, M) = choose|s1: CpuState, mem1: M|
        runs(s, mem, 7, s1, mem1) && #[trigger] ticked(s1, mem1, s2, mem2, Ok(()));
    lemma_reset_prefix(s, mem, 7, s1, mem1, lo);
    assert(lo + 256 * hi < 0x10000);
}

// ---------------------------------------------------------------------------
// The executable CPU.

/// Whether the CPU implements an opcode (HLT1 halts it; any other opcode is
/// unknown).
pub open spec fn implemented_opcode(op: u8) -> bool {
    is_immediate_op(op) || op == opcodes::STA_ZP || op == opcodes::STA_ZP_X || op == opcodes::STX_ZP
        || op == opcodes::STY_ZP || op == opcodes::STY_ZP_X || op == opcodes::INC_ZP || op
        == opcodes::DEC_ZP || is_implied_op(op) || op == opcodes::PHP || op == opcodes::PHA || op
        == opcodes::PLP || op == opcodes::PLA || is_branch_op(op) || op == opcodes::JMP_ABS || op
        == opcodes::JSR || op == opcodes::RTS
}

/// The error that executing an opcode the CPU cannot run, fetched from
/// `address`, reports.
pub open spec fn stop_error(op: u8, address: u16) -> CpuError {
    if op == opcodes::HLT1 {
        CpuError::Halted(CpuHaltedError { opcode: op, address })
    } else {
        CpuError::UnknownOpcode(UnknownOpcodeError { opcode: op, address })
    }
}

/// Halting law: when the CPU, ready for an instruction at `s.pc`, fetches
/// HLT1 or an opcode it does not implement, the fetch succeeds and moves PC
/// past the opcode; from then on every cycle fails with the halt (or
/// unknown-opcode) error that names the opcode and its address, and changes
/// neither the registers nor the memory, until the CPU is reset.
pub proof fn lemma_stop_is_sticky<M: Memory>(s: CpuState, mem: M, s2: CpuState, mem2: M, r: TickResult)
    requires
        s.seq == SequenceState::Ready,
        mem.read_spec(s.pc) is Ok,
        !implemented_opcode(mem.read_spec(s.pc)->Ok_0),
    ensures
        ({
            let op = mem.read_spec(s.pc)->Ok_0;
            let fetched = CpuState { pc: add16(s.pc, 1), seq: SequenceState::Opcode(op, 1), ..s };
            &&& ticked(s, mem, fetched, mem, Ok(()))
            &&& ticked(fetched, mem, s2, mem2, r) ==> s2 == fetched && mem2 == mem && r == Err::<
                (),
                CpuError,
            >(stop_error(op, s.pc))
        }),
{
    assert(add16(add16(s.pc, 1), -1) == s.pc) by {
        if s.pc == 0xFFFF {
            assert(add16(s.pc, 1) == 0);
        } else {
            assert(add16(s.pc, 1) == s.pc + 1);
        }
    }
}

/// A cycle-level emulation of the MOS 6502 CPU.
pub struct Cpu<M: Memory> {
    memory: Box<M>,
    // Registers.
    reg_pc: u16,
    reg_a: u8,
    reg_x: u8,
    reg_y: u8,
    reg_sp: u8,
    flags: u8,
    // Other internal state.
    /// Number of cycle within execution of the current instruction.
    sequence_state: SequenceState,
    adl: u8,
    bal: u8,
    tmp_data: u8,
}

impl<M: Memory> Cpu<M> {
    /// The registers and the internal state.
    pub closed spec fn state(&self) -> CpuState {
        CpuState {
            pc: self.reg_pc,
            a: self.reg_a,
            x: self.reg_x,
            y: self.reg_y,
            sp: self.reg_sp,
            flags: self.flags,
            seq: self.sequence_state,
            adl: self.adl,
            bal: self.bal,
            tmp: self.tmp_data,
        }
    }

    /// The memory that the CPU owns.
    pub closed spec fn mem(&self) -> M {
        *self.memory
    }

    pub open spec fn wf(&self) -> bool {
        state_wf(self.state())
    }

    /// Creates a new `Cpu` that owns given `memory`. The newly created `Cpu` is
    /// not yet ready for executing programs; it first needs to be reset using
    /// the [`reset`](#method.reset) method. The registers hold random values.
    pub fn new(memory: Box<M>) -> (cpu: Self)
        ensures
            cpu.wf(),
            cpu.mem() == *memory,
            cpu.state().seq == SequenceState::Reset(0),
    {
        Cpu {
            memory: memory,
            reg_pc: random_u8() as u16 | (random_u8() as u16) << 8,
            reg_a: random_u8(),
            reg_x: random_u8(),
            reg_y: random_u8(),
            reg_sp: random_u8(),
            flags: random_u8(),
            sequence_state: SequenceState::Reset(0),
            adl: random_u8(),
            bal: random_u8(),
            tmp_data: random_u8(),
        }
    }

    pub fn memory(&mut self) -> (r: &mut M)
        ensures
            *r == old(self).mem(),
            final(self).mem() == *final(r),
            final(self).state() == old(self).state(),
    {
        &mut self.memory
    }

    /// Start the CPU reset sequence. It will last for the next 8 cycles. During
    /// initialization, the CPU reads an address from 0xFFFC and stores it in
    /// the `PC` register. The subsequent [`tick`](#method.tick) will
    /// effectively resume program from this address.
    pub fn reset(&mut self)
        ensures
            final(self).wf(),
            final(self).mem() == old(self).mem(),
            final(self).state() == (CpuState { seq: SequenceState::Reset(0), ..old(self).state() }),
    {
        self.sequence_state = SequenceState::Reset(0);
    }

    /// Makes the CPU start an instruction at `address` on its next cycle,
    /// abandoning whatever it was doing.
    pub fn jump_to(&mut self, address: u16)
        ensures
            final(self).wf(),
            final(self).mem() == old(self).mem(),
            final(self).state() == (CpuState {
                pc: address,
                seq: SequenceState::Ready,
                ..old(self).state()
            }),
    {
        self.reg_pc = address;
        self.sequence_state = SequenceState::Ready;
    }
}


// ---------------------------------------------------------------------------
// Facts about the bit twiddling of the executable code.

proof fn lemma_signed_byte(x: u8)
    ensures
        (x as i8) as i16 as int == signed(x),
{
    assert((x >= 0x80 ==> (x as i8) as i16 == (x as i16) - 256) && (x < 0x80 ==> (x as i8) as i16
        == x as i16)) by (bit_vector);
}

proof fn lemma_word(lo: u8, hi: u8)
    ensures
        (lo as u16) | ((hi as u16) << 8) == (lo + 256 * hi) as u16,
        (lo + 256 * hi) < 0x10000,
{
    assert((lo as u16) | ((hi as u16) << 8) == (lo as u16) + 256 * (hi as u16)) by (bit_vector);
}

proof fn lemma_replace_low_byte(pc: u16, v: u8)
    ensures
        (pc & 0xFF00) | (v as u16) == (256 * (pc / 256) + v) as u16,
{
    crate::bits::lemma_byte_replacement(pc, v);
}

proof fn lemma_replace_high_byte(pc: u16, v: u8)
    ensures
        (pc & 0xFF) | ((v as u16) << 8) == (pc % 256 + 256 * v) as u16,
{
    crate::bits::lemma_byte_replacement(pc, v);
}

proof fn lemma_split_word(pc: u16)
    ensures
        (pc >> 8) as u8 == (pc / 256) as u8,
        pc as u8 == (pc % 256) as u8,
{
    crate::bits::lemma_word_truncation(pc);
}

proof fn lemma_same_page(a: u16, b: u16)
    ensures
        ((a & 0xFF00) == (b & 0xFF00)) == (a / 256 == b / 256),
{
    assert(((a & 0xFF00) == (b & 0xFF00)) == (a / 256 == b / 256)) by (bit_vector);
}

proof fn lemma_branch_offset(pc: u16, adl: u8)
    ensures
        vstd::wrapping::u16_specs::wrapping_add(pc, adl as i8 as u16) == add16(pc, signed(adl)),
{
    assert((adl >= 0x80 ==> (adl as i8 as u16) == (adl as u16) + 0xFF00) && (adl < 0x80 ==> (adl
        as i8 as u16) == adl as u16)) by (bit_vector);
}

impl<M: Memory> Cpu<M> {
    /// Reads the byte at PC and advances PC. On a read error, nothing changes.
    fn consume_byte(&mut self) -> (r: ReadResult)
        ensures
            r == old(self).mem().read_spec(old(self).state().pc),
            final(self).mem() == old(self).mem(),
            final(self).state() == consumed(old(self).state(), old(self).mem()),
    {
        match self.memory.read(self.reg_pc) {
            Ok(result) => {
                self.reg_pc = self.reg_pc.wrapping_add(1);
                Ok(result)
            },
            Err(e) => Err(e),
        }
    }

    /// Performs a "phantom read", a side effect that usually doesn't matter,
    /// but may matter to some devices that react to reading its pins. Because
    /// we don't use the result value, we don't even care if it was a read
    /// error.
    fn phantom_read(&self, address: u16) {
        let _ = self.memory.read(address);
    }

    fn set_reg_a(&mut self, value: u8)
        ensures
            final(self).mem() == old(self).mem(),
            final(self).state() == (CpuState {
                a: value,
                flags: nz(old(self).state().flags, value),
                ..old(self).state()
            }),
    {
        self.reg_a = value;
        self.update_flags_nz(value);
    }

    fn set_reg_x(&mut self, value: u8)
        ensures
            final(self).mem() == old(self).mem(),
            final(self).state() == (CpuState {
                x: value,
                flags: nz(old(self).state().flags, value),
                ..old(self).state()
            }),
    {
        self.reg_x = value;
        self.update_flags_nz(value);
    }

    fn set_reg_y(&mut self, value: u8)
        ensures
            final(self).mem() == old(self).mem(),
            final(self).state() == (CpuState {
                y: value,
                flags: nz(old(self).state().flags, value),
                ..old(self).state()
            }),
    {
        self.reg_y = value;
        self.update_flags_nz(value);
    }

    /// Updates the N and Z flags to reflect the given value.
    fn update_flags_nz(&mut self, value: u8)
        ensures
            final(self).mem() == old(self).mem(),
            final(self).state() == (CpuState {
                flags: nz(old(self).state().flags, value),
                ..old(self).state()
            }),
    {
        let flag_z = if value == 0 {
            flags::Z
        } else {
            0
        };
        let flag_n = if value & 0b1000_0000 != 0 {
            flags::N
        } else {
            0
        };
        self.flags = (self.flags & !(flags::Z | flags::N)) | flag_z | flag_n;
    }

    fn stack_pointer(&self) -> (r: u16)
        ensures
            r == stack_address(self.state().sp),
    {
        let sp = self.reg_sp;
        assert(0x100u16 | (sp as u16) == 0x100u16 + (sp as u16)) by (bit_vector);
        0x100 | self.reg_sp as u16
    }

    fn add_with_carry(&mut self, value: u8)
        ensures
            final(self).mem() == old(self).mem(),
            final(self).state() == adc_spec(old(self).state(), value),
    {
        proof {
            lemma_signed_byte(self.reg_a);
            lemma_signed_byte(value);
        }
        let carry: u16 = if self.flags & flags::C != 0 {
            1
        } else {
            0
        };
        let unsigned_sum: u16 = self.reg_a as u16 + value as u16 + carry;
        let unsigned_overflow = unsigned_sum > 255;
        let signed_sum: i16 = self.reg_a as i8 as i16 + value as i8 as i16;
        let wrapped: i16 = if signed_sum < -128 {
            signed_sum + 256
        } else if signed_sum > 127 {
            signed_sum - 256
        } else {
            signed_sum
        };
        let signed_overflow = signed_sum < -128 || signed_sum > 127 || (carry == 1 && wrapped + 1
            > 127);
        self.set_reg_a((unsigned_sum % 256) as u8);
        self.flags = (self.flags & !(flags::C | flags::V)) | (if unsigned_overflow {
            flags::C
        } else {
            0
        }) | (if signed_overflow {
            flags::V
        } else {
            0
        });
    }

    #[verifier::spinoff_prover]
    #[verifier::rlimit(30)]
    fn subtract_with_borrow(&mut self, value: u8)
        ensures
            final(self).mem() == old(self).mem(),
            final(self).state() == sbc_spec(old(self).state(), value),
    {
        proof {
            lemma_signed_byte(self.reg_a);
            lemma_signed_byte(value);
        }
        let borrow: i16 = if self.flags & flags::C == 0 {
            1
        } else {
            0
        };
        let unsigned_diff: i16 = self.reg_a as i16 - value as i16 - borrow;
        let signed_diff: i16 = self.reg_a as i8 as i16 - value as i8 as i16;
        let wrapped: i16 = if signed_diff < -128 {
            signed_diff + 256
        } else if signed_diff > 127 {
            signed_diff - 256
        } else {
            signed_diff
        };
        let signed_overflow = signed_diff < -128 || signed_diff > 127 || (borrow == 1 && wrapped
            - 1 < -128);
        self.set_reg_a(((unsigned_diff + 256) % 256) as u8);
        self.flags = (self.flags & !(flags::C | flags::V)) | (if unsigned_diff < 0 {
            0
        } else {
            flags::C
        }) | (if signed_overflow {
            flags::V
        } else {
            0
        });
    }

    fn compare(&mut self, register: u8, value: u8)
        ensures
            final(self).mem() == old(self).mem(),
            final(self).state() == compare_spec(old(self).state(), register, value),
    {
        let difference = register.wrapping_sub(value);
        let borrow = register < value;
        self.update_flags_nz(difference);
        self.flags = self.flags & !flags::C | if borrow {
            0
        } else {
            flags::C
        };
    }

    fn tick_fetch(&mut self) -> (r: TickResult)
        ensures
            performed(
                old(self).mem(),
                fetch_step(old(self).state(), old(self).mem()),
                final(self).state(),
                final(self).mem(),
                r,
            ),
    {
        match self.consume_byte() {
            Ok(opcode) => {
                self.sequence_state = SequenceState::Opcode(opcode, 0);
                Ok(())
            },
            Err(e) => Err(CpuError::ReadError(e)),
        }
    }

    fn tick_load_immediate(&mut self, op: u8) -> (r: TickResult)
        requires
            is_immediate_op(op),
        ensures
            performed(
                old(self).mem(),
                immediate_step(old(self).state(), old(self).mem(), op),
                final(self).state(),
                final(self).mem(),
                r,
            ),
    {
        let value = match self.consume_byte() {
            Ok(value) => value,
            Err(e) => {
                return Err(CpuError::ReadError(e));
            },
        };
        match op {
            opcodes::LDA_IMM => self.set_reg_a(value),
            opcodes::LDX_IMM => self.set_reg_x(value),
            opcodes::LDY_IMM => self.set_reg_y(value),
            opcodes::CMP_IMM => self.compare(self.reg_a, value),
            opcodes::CPX_IMM => self.compare(self.reg_x, value),
            opcodes::CPY_IMM => self.compare(self.reg_y, value),
            opcodes::ADC_IMM => self.add_with_carry(value),
            _ => self.subtract_with_borrow(value),
        }
        self.sequence_state = SequenceState::Ready;
        Ok(())
    }

    fn tick_store_zero_page(&mut self, sub: u32, value: u8) -> (r: TickResult)
        ensures
            performed(
                old(self).mem(),
                store_zero_page_step(old(self).state(), old(self).mem(), sub, value),
                final(self).state(),
                final(self).mem(),
                r,
            ),
    {
        if sub == 1 {
            match self.consume_byte() {
                Ok(adl) => {
                    self.adl = adl;
                    Ok(())
                },
                Err(e) => Err(CpuError::ReadError(e)),
            }
        } else {
            match self.memory.write(self.adl as u16, value) {
                Ok(_) => {
                    self.sequence_state = SequenceState::Ready;
                    Ok(())
                },
                Err(e) => Err(CpuError::WriteError(e)),
            }
        }
    }

    fn tick_store_zero_page_x(&mut self, sub: u32, value: u8) -> (r: TickResult)
        ensures
            performed(
                old(self).mem(),
                store_zero_page_x_step(old(self).state(), old(self).mem(), sub, value),
                final(self).state(),
                final(self).mem(),
                r,
            ),
    {
        if sub == 1 {
            match self.consume_byte() {
                Ok(bal) => {
                    self.bal = bal;
                    Ok(())
                },
                Err(e) => Err(CpuError::ReadError(e)),
            }
        } else if sub == 2 {
            self.phantom_read(self.bal as u16);
            Ok(())
        } else {
            match self.memory.write((self.bal.wrapping_add(self.reg_x)) as u16, value) {
                Ok(_) => {
                    self.sequence_state = SequenceState::Ready;
                    Ok(())
                },
                Err(e) => Err(CpuError::WriteError(e)),
            }
        }
    }

    fn tick_simple_internal_operation(&mut self, op: u8) -> (r: TickResult)
        requires
            is_implied_op(op),
        ensures
            performed(
                old(self).mem(),
                implied_step(old(self).state(), op),
                final(self).state(),
                final(self).mem(),
                r,
            ),
    {
        self.phantom_read(self.reg_pc);
        match op {
            opcodes::INX => self.set_reg_x(self.reg_x.wrapping_add(1)),
            opcodes::INY => self.set_reg_y(self.reg_y.wrapping_add(1)),
            opcodes::DEX => self.set_reg_x(self.reg_x.wrapping_sub(1)),
            opcodes::DEY => self.set_reg_y(self.reg_y.wrapping_sub(1)),
            opcodes::TYA => self.set_reg_a(self.reg_y),
            opcodes::TAX => self.set_reg_x(self.reg_a),
            opcodes::TXA => self.set_reg_a(self.reg_x),
            opcodes::TXS => self.reg_sp = self.reg_x,
            opcodes::TSX => self.set_reg_x(self.reg_sp),
            opcodes::SEI => self.flags = self.flags | flags::I,
            opcodes::CLI => self.flags = self.flags & !flags::I,
            opcodes::CLD => self.flags = self.flags & !flags::D,
            opcodes::CLC => self.flags = self.flags & !flags::C,
            _ => self.flags = self.flags | flags::C,
        }
        self.sequence_state = SequenceState::Ready;
        Ok(())
    }

    fn tick_load_modify_store_zero_page(&mut self, sub: u32, increment: bool) -> (r:
        TickResult)
        ensures
            performed(
                old(self).mem(),
                modify_zero_page_step(old(self).state(), old(self).mem(), sub, increment),
                final(self).state(),
                final(self).mem(),
                r,
            ),
    {
        if sub == 1 {
            match self.consume_byte() {
                Ok(adl) => {
                    self.adl = adl;
                    Ok(())
                },
                Err(e) => Err(CpuError::ReadError(e)),
            }
        } else if sub == 2 {
            match self.memory.read(self.adl as u16) {
                Ok(data) => {
                    self.tmp_data = data;
                    Ok(())
                },
                Err(e) => Err(CpuError::ReadError(e)),
            }
        } else if sub == 3 {
            // A rare case of a "phantom write". Since we write the same
            // data, it doesn't really matter (that much), but we need to
            // simulate it anyway.
            match self.memory.write(self.adl as u16, self.tmp_data) {
                Ok(_) => Ok(()),
                Err(e) => Err(CpuError::WriteError(e)),
            }
        } else {
            let result = if increment {
                self.tmp_data.wrapping_add(1)
            } else {
                self.tmp_data.wrapping_sub(1)
            };
            self.update_flags_nz(result);
            match self.memory.write(self.adl as u16, result) {
                Ok(_) => {
                    self.sequence_state = SequenceState::Ready;
                    Ok(())
                },
                Err(e) => Err(CpuError::WriteError(e)),
            }
        }
    }

    fn tick_push(&mut self, sub: u32, value: u8) -> (r: TickResult)
        ensures
            performed(
                old(self).mem(),
                push_step(old(self).state(), sub, value),
                final(self).state(),
                final(self).mem(),
                r,
            ),
    {
        if sub == 1 {
            self.phantom_read(self.reg_pc);
            Ok(())
        } else {
            match self.memory.write(self.stack_pointer(), value) {
                Ok(_) => {
                    self.reg_sp = self.reg_sp.wrapping_sub(1);
                    self.sequence_state = SequenceState::Ready;
                    Ok(())
                },
                Err(e) => Err(CpuError::WriteError(e)),
            }
        }
    }

    fn tick_pull(&mut self, sub: u32, op: u8) -> (r: TickResult)
        ensures
            performed(
                old(self).mem(),
                pull_step(old(self).state(), old(self).mem(), sub, op),
                final(self).state(),
                final(self).mem(),
                r,
            ),
    {
        if sub == 1 {
            self.phantom_read(self.reg_pc);
            Ok(())
        } else if sub == 2 {
            self.phantom_read(self.stack_pointer());
            self.reg_sp = self.reg_sp.wrapping_add(1);
            Ok(())
        } else {
            match self.memory.read(self.stack_pointer()) {
                Ok(value) => {
                    if op == opcodes::PLP {
                        self.flags = value | flags::UNUSED;
                    } else {
                        self.set_reg_a(value);
                    }
                    self.sequence_state = SequenceState::Ready;
                    Ok(())
                },
                Err(e) => Err(CpuError::ReadError(e)),
            }
        }
    }

    fn tick_branch_if_flag(&mut self, sub: u32, flag: u8, value: u8) -> (r: TickResult)
        requires
            exists|op: u8| is_branch_op(op) && branch_condition(op) == (flag, value),
        ensures
            forall|op: u8|
                is_branch_op(op) && branch_condition(op) == (flag, value) ==> performed(
                    old(self).mem(),
                    #[trigger] branch_step(old(self).state(), old(self).mem(), sub, op),
                    final(self).state(),
                    final(self).mem(),
                    r,
                ),
    {
        if sub == 1 {
            match self.consume_byte() {
                Ok(adl) => {
                    self.adl = adl;
                    if self.flags & flag != value {
                        // Condition not met; don't branch.
                        self.sequence_state = SequenceState::Ready;
                    }
                    Ok(())
                },
                Err(e) => Err(CpuError::ReadError(e)),
            }
        } else if sub == 2 {
            proof {
                lemma_branch_offset(self.reg_pc, self.adl);
            }
            let new_pc = self.reg_pc.wrapping_add(self.adl as i8 as u16);
            proof {
                lemma_same_page(new_pc, self.reg_pc);
            }
            if new_pc & 0xFF00 == self.reg_pc & 0xFF00 {
                // No page boundary crossed. Do a phantom read of the
                // computed address and skip the next cycle.
                self.phantom_read(self.reg_pc);
                self.sequence_state = SequenceState::Ready;
            } else {
                // Page boundary crossed. Do a phantom read of a partially
                // computed address and continue to the next cycle.
                self.phantom_read((new_pc & 0x00FF) | (self.reg_pc & 0xFF00));
            }
            self.reg_pc = new_pc;
            Ok(())
        } else {
            self.phantom_read(self.reg_pc);
            self.sequence_state = SequenceState::Ready;
            Ok(())
        }
    }

    fn tick_jmp(&mut self, sub: u32) -> (r: TickResult)
        ensures
            performed(
                old(self).mem(),
                jmp_step(old(self).state(), old(self).mem(), sub),
                final(self).state(),
                final(self).mem(),
                r,
            ),
    {
        if sub == 1 {
            match self.consume_byte() {
                Ok(adl) => {
                    self.adl = adl;
                    Ok(())
                },
                Err(e) => Err(CpuError::ReadError(e)),
            }
        } else {
            match self.memory.read(self.reg_pc) {
                Ok(adh) => {
                    proof {
                        lemma_word(self.adl, adh);
                    }
                    self.reg_pc = (self.adl as u16) | ((adh as u16) << 8);
                    self.sequence_state = SequenceState::Ready;
                    Ok(())
                },
                Err(e) => Err(CpuError::ReadError(e)),
            }
        }
    }

    fn tick_jsr(&mut self, sub: u32) -> (r: TickResult)
        ensures
            performed(
                old(self).mem(),
                jsr_step(old(self).state(), old(self).mem(), sub),
                final(self).state(),
                final(self).mem(),
                r,
            ),
    {
        proof {
            lemma_split_word(self.reg_pc);
        }
        if sub == 1 {
            match self.consume_byte() {
                Ok(adl) => {
                    self.adl = adl;
                    Ok(())
                },
                Err(e) => Err(CpuError::ReadError(e)),
            }
        } else if sub == 2 {
            self.phantom_read(self.stack_pointer());
            Ok(())
        } else if sub == 3 {
            match self.memory.write(self.stack_pointer(), (self.reg_pc >> 8) as u8) {
                Ok(_) => {
                    self.reg_sp = self.reg_sp.wrapping_sub(1);
                    Ok(())
                },
                Err(e) => Err(CpuError::WriteError(e)),
            }
        } else if sub == 4 {
            match self.memory.write(self.stack_pointer(), self.reg_pc as u8) {
                Ok(_) => {
                    self.reg_sp = self.reg_sp.wrapping_sub(1);
                    Ok(())
                },
                Err(e) => Err(CpuError::WriteError(e)),
            }
        } else {
            match self.memory.read(self.reg_pc) {
                Ok(adh) => {
                    proof {
                        lemma_word(self.adl, adh);
                    }
                    self.reg_pc = (self.adl as u16) | ((adh as u16) << 8);
                    self.sequence_state = SequenceState::Ready;
                    Ok(())
                },
                Err(e) => Err(CpuError::ReadError(e)),
            }
        }
    }

    fn tick_rts(&mut self, sub: u32) -> (r: TickResult)
        ensures
            performed(
                old(self).mem(),
                rts_step(old(self).state(), old(self).mem(), sub),
                final(self).state(),
                final(self).mem(),
                r,
            ),
    {
        if sub == 1 {
            let _ = self.consume_byte();
            Ok(())
        } else if sub == 2 {
            self.phantom_read(self.stack_pointer());
            self.reg_sp = self.reg_sp.wrapping_add(1);
            Ok(())
        } else if sub == 3 {
            match self.memory.read(self.stack_pointer()) {
                Ok(low) => {
                    proof {
                        lemma_replace_low_byte(self.reg_pc, low);
                    }
                    self.reg_pc = self.reg_pc & 0xFF00 | low as u16;
                    self.reg_sp = self.reg_sp.wrapping_add(1);
                    Ok(())
                },
                Err(e) => Err(CpuError::ReadError(e)),
            }
        } else if sub == 4 {
            match self.memory.read(self.stack_pointer()) {
                Ok(high) => {
                    proof {
                        lemma_replace_high_byte(self.reg_pc, high);
                    }
                    self.reg_pc = self.reg_pc & 0xFF | ((high as u16) << 8);
                    Ok(())
                },
                Err(e) => Err(CpuError::ReadError(e)),
            }
        } else {
            let _ = self.consume_byte();
            self.sequence_state = SequenceState::Ready;
            Ok(())
        }
    }

    fn tick_reset(&mut self, n: u32) -> (r: TickResult)
        requires
            n <= 7,
            n == 7 ==> old(self).state().pc < 256,
        ensures
            performed(
                old(self).mem(),
                reset_step(old(self).state(), old(self).mem(), n),
                final(self).state(),
                final(self).mem(),
                r,
            ),
    {
        if n == 0 {
            self.flags = self.flags | (flags::UNUSED | flags::I);
            Ok(())
        } else if n <= 5 {
            Ok(())
        } else if n == 6 {
            match self.memory.read(0xFFFC) {
                Ok(low) => {
                    self.reg_pc = low as u16;
                    Ok(())
                },
                Err(e) => Err(CpuError::ReadError(e)),
            }
        } else {
            match self.memory.read(0xFFFD) {
                Ok(high) => {
                    let pc = self.reg_pc;
                    assert(pc < 256 ==> pc | ((high as u16) << 8) == pc + 256 * (high as u16))
                        by (bit_vector);
                    self.reg_pc = self.reg_pc | ((high as u16) << 8);
                    self.sequence_state = SequenceState::Ready;
                    Ok(())
                },
                Err(e) => Err(CpuError::ReadError(e)),
            }
        }
    }

    #[verifier::rlimit(60)]
    #[verifier::spinoff_prover]
    fn tick_opcode(&mut self, op: u8, sub: u32) -> (r: TickResult)
        ensures
            performed(
                old(self).mem(),
                opcode_step(old(self).state(), old(self).mem(), op, sub),
                final(self).state(),
                final(self).mem(),
                r,
            ),
    {
        match op {
            opcodes::LDA_IMM | opcodes::LDX_IMM | opcodes::LDY_IMM | opcodes::CMP_IMM
            | opcodes::CPX_IMM | opcodes::CPY_IMM | opcodes::ADC_IMM | opcodes::SBC_IMM => {
                self.tick_load_immediate(op)
            },
            opcodes::STA_ZP => self.tick_store_zero_page(sub, self.reg_a),
            opcodes::STA_ZP_X => self.tick_store_zero_page_x(sub, self.reg_a),
            opcodes::STX_ZP => self.tick_store_zero_page(sub, self.reg_x),
            opcodes::STY_ZP => self.tick_store_zero_page(sub, self.reg_y),
            opcodes::STY_ZP_X => self.tick_store_zero_page_x(sub, self.reg_y),
            opcodes::INC_ZP => self.tick_load_modify_store_zero_page(sub, true),
            opcodes::DEC_ZP => self.tick_load_modify_store_zero_page(sub, false),
            opcodes::INX | opcodes::INY | opcodes::DEX | opcodes::DEY | opcodes::TYA
            | opcodes::TAX | opcodes::TXA | opcodes::TXS | opcodes::TSX | opcodes::SEI
            | opcodes::CLI | opcodes::CLD | opcodes::CLC | opcodes::SEC => {
                self.tick_simple_internal_operation(op)
            },
            opcodes::PHP => self.tick_push(sub, self.flags),
            opcodes::PHA => self.tick_push(sub, self.reg_a),
            opcodes::PLP | opcodes::PLA => self.tick_pull(sub, op),
            opcodes::BEQ => self.tick_branch_if_flag(sub, flags::Z, flags::Z),
            opcodes::BNE => self.tick_branch_if_flag(sub, flags::Z, 0),
            opcodes::BCC => self.tick_branch_if_flag(sub, flags::C, 0),
            opcodes::BCS => self.tick_branch_if_flag(sub, flags::C, flags::C),
            opcodes::BPL => self.tick_branch_if_flag(sub, flags::N, 0),
            opcodes::BMI => self.tick_branch_if_flag(sub, flags::N, flags::N),
            opcodes::JMP_ABS => self.tick_jmp(sub),
            opcodes::JSR => self.tick_jsr(sub),
            opcodes::RTS => self.tick_rts(sub),
            // Unofficial opcodes
            opcodes::HLT1 => Err(
                CpuError::Halted(
                    CpuHaltedError { opcode: opcodes::HLT1, address: self.reg_pc.wrapping_sub(1) },
                ),
            ),
            // Oh no, we don't support it! (Yet.)
            _ => Err(
                CpuError::UnknownOpcode(
                    UnknownOpcodeError { opcode: op, address: self.reg_pc.wrapping_sub(1) },
                ),
            ),
        }
    }

    /// Performs a single CPU cycle.
    pub fn tick(&mut self) -> (r: TickResult)
        requires
            old(self).wf(),
        ensures
            final(self).wf(),
            performed(
                old(self).mem(),
                tick_spec(old(self).state(), old(self).mem()),
                final(self).state(),
                final(self).mem(),
                r,
            ),
    {
        let result = match self.sequence_state {
            // Fetching the opcode.
            SequenceState::Ready => self.tick_fetch(),
            SequenceState::Opcode(op, sub) => self.tick_opcode(op, sub),
            // Reset sequence. First 6 cycles are idle, the initialization
            // procedure starts after that.
            SequenceState::Reset(n) => self.tick_reset(n),
        };
        if result.is_err() {
            return result;
        }
        // Now move on to the next subcycle.
        match self.sequence_state {
            SequenceState::Opcode(opcode, subcycle) => {
                self.sequence_state = SequenceState::Opcode(opcode, subcycle + 1)
            },
            SequenceState::Reset(subcycle) => {
                self.sequence_state = SequenceState::Reset(subcycle + 1)
            },
            _ => {},
        };
        Ok(())
    }

    /// Performs `n_ticks` CPU cycles, stopping at the first one that fails.
    pub fn ticks(&mut self, n_ticks: u32) -> (r: TickResult)
        requires
            old(self).wf(),
        ensures
            final(self).wf(),
            r is Ok ==> runs(
                old(self).state(),
                old(self).mem(),
                n_ticks as nat,
                final(self).state(),
                final(self).mem(),
            ),
            r is Err ==> exists|k: nat, s1: CpuState, mem1: M|
                #![trigger runs(old(self).state(), old(self).mem(), k, s1, mem1)]
                k < n_ticks && runs(old(self).state(), old(self).mem(), k, s1, mem1) && ticked(
                    s1,
                    mem1,
                    final(self).state(),
                    final(self).mem(),
                    r,
                ),
    {
        let mut i: u32 = 0;
        while i < n_ticks
            invariant
                self.wf(),
                i <= n_ticks,
                runs(old(self).state(), old(self).mem(), i as nat, self.state(), self.mem()),
            decreases n_ticks - i,
        {
            let ghost s1 = self.state();
            let ghost mem1 = self.mem();
            let result = self.tick();
            if result.is_err() {
                assert(runs(old(self).state(), old(self).mem(), i as nat, s1, mem1));
                return result;
            }
            assert(ticked(s1, mem1, self.state(), self.mem(), Ok(())));
            i = i + 1;
        }
        Ok(())
    }
}

/// Renders the status register as eight characters, from N (bit 7) down to
/// C (bit 0): `*` for a set bit and `.` for a clear one.
pub fn flags_to_string(flags: u8) -> (s: String)
    ensures
        s@.len() == 8,
        forall|i: int|
            0 <= i < 8 ==> #[trigger] s@[i] == if flags & (0x80u8 >> (i as u8)) != 0 {
                '*'
            } else {
                '.'
            },
{
    let mut s = String::new();
    let mut i: u8 = 0;
    while i < 8
        invariant
            0 <= i <= 8,
            s@.len() == i,
            forall|j: int|
                0 <= j < i ==> #[trigger] s@[j] == if flags & (0x80u8 >> (j as u8)) != 0 {
                    '*'
                } else {
                    '.'
                },
        decreases 8 - i,
    {
        let ch = if flags & (0x80u8 >> i) != 0 {
            '*'
        } else {
            '.'
        };
        push_char(&mut s, ch);
        i = i + 1;
    }
    s
}

// ---------------------------------------------------------------------------
// Inspection.

/// What a debugger sees of a machine: its CPU registers and the memory as
/// the CPU sees it, read without side effects.
pub struct InspectedState {
    pub pc: u16,
    pub a: u8,
    pub x: u8,
    pub y: u8,
    pub sp: u8,
    pub flags: u8,
    /// Whether the CPU is about to fetch the opcode of the next instruction.
    pub at_instruction_start: bool,
}

/// A machine whose state can be inspected.
pub trait MachineInspector {
    /// The registers as they are now.
    spec fn inspected(&self) -> InspectedState;

    /// The byte at `address`.
    spec fn inspected_memory(&self, address: u16) -> u8;

    fn reg_pc(&self) -> (r: u16)
        ensures
            r == self.inspected().pc,
    ;

    fn reg_a(&self) -> (r: u8)
        ensures
            r == self.inspected().a,
    ;

    fn reg_x(&self) -> (r: u8)
        ensures
            r == self.inspected().x,
    ;

    fn reg_y(&self) -> (r: u8)
        ensures
            r == self.inspected().y,
    ;

    fn reg_sp(&self) -> (r: u8)
        ensures
            r == self.inspected().sp,
    ;

    fn flags(&self) -> (r: u8)
        ensures
            r == self.inspected().flags,
    ;

    fn at_instruction_start(&self) -> (r: bool)
        ensures
            r == self.inspected().at_instruction_start,
    ;

    fn inspect_memory(&self, address: u16) -> (r: u8)
        ensures
            r == self.inspected_memory(address),
    ;
}

impl<M: Memory> MachineInspector for Cpu<M> {
    open spec fn inspected(&self) -> InspectedState {
        InspectedState {
            pc: self.state().pc,
            a: self.state().a,
            x: self.state().x,
            y: self.state().y,
            sp: self.state().sp,
            flags: self.state().flags,
            at_instruction_start: self.state().seq == SequenceState::Ready,
        }
    }

    /// A location that cannot be read shows as 0.
    open spec fn inspected_memory(&self, address: u16) -> u8 {
        match self.mem().read_spec(address) {
            Ok(value) => value,
            Err(_) => 0,
        }
    }

    fn reg_pc(&self) -> (r: u16) {
        self.reg_pc
    }

    fn reg_a(&self) -> (r: u8) {
        self.reg_a
    }

    fn reg_x(&self) -> (r: u8) {
        self.reg_x
    }

    fn reg_y(&self) -> (r: u8) {
        self.reg_y
    }

    fn reg_sp(&self) -> (r: u8) {
        self.reg_sp
    }

    fn flags(&self) -> (r: u8) {
        self.flags
    }

    fn at_instruction_start(&self) -> (r: bool) {
        match self.sequence_state {
            SequenceState::Ready => true,
            _ => false,
        }
    }

    fn inspect_memory(&self, address: u16) -> (r: u8) {
        match self.memory.read(address) {
            Ok(value) => value,
            Err(_) => 0,
        }
    }
}

} // verus!
