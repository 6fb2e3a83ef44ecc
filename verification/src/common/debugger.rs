//! A debugger for 6502-based machines. Uses Debug Adapter Protocol internally
//! to communicate with a debugger UI: it answers the requests of the client
//! and tells it when the machine stops.
pub mod dap_types;
pub mod disasm;
pub mod protocol;
pub mod run_control;

use crate::common::debugger::dap_types::{
    Breakpoint, Capabilities, DisassembleArguments, DisassembleResponse, DisassembledInstruction,
    Event, InstructionBreakpoint, Message, MessageEnvelope, ReadMemoryArguments, ReadMemoryResponse,
    Request, Response, ResponseEnvelope, Scope, ScopePresentationHint, ScopesArguments,
    ScopesResponse, SetInstructionBreakpointsArguments, SetInstructionBreakpointsResponse,
    StackFrame, StackTraceResponse, StoppedEvent, Thread, ThreadsResponse, Variable,
    VariablesArguments, VariablesResponse,
};
use crate::common::debugger::disasm::{
    address_text, disassemble, disassembly_address, disassembly_step, hex2, hex4, seek_backward_spec,
    seek_forward_spec, seek_instruction, shows_instruction,
};
use crate::common::debugger::run_control::{
    core_wf, running_as, stack_trace_spec, stopped_for, DebuggerCore, DebuggerCoreView, RunMode,
    StopReason,
};
use crate::common::test_utils::{as_single_hex_digit, hex_digit};
use crate::cpu::MachineInspector;
use crate::text::push_char;
use vstd::prelude::*;

verus! {

/// Default margin for disassembling code. Whenever a disassembly request comes
/// in, we adjust the instruction offset by this number to make sure that we get
/// enough "runway" to lock into a stable sequence of instructions (as opposed to
/// disassembling the preceding instruction's argument as opcode). We then simply
/// discard this amount of instructions before serving the result.
pub const DISASSEMBLY_MARGIN: usize = 20;

pub const REGISTERS_VARIABLES_REFERENCE: i64 = 1;
pub const MEMORY_VARIABLES_REFERENCE: i64 = 2;

// ---------------------------------------------------------------------------
// Text.

/// A byte as the debugger shows a value: "$" and two hexadecimal digits.
pub open spec fn byte_value_text(value: u8) -> Seq<char> {
    seq!['$'] + hex2(value)
}

/// A word as the debugger shows a value: "$" and four hexadecimal digits.
pub open spec fn word_value_text(value: u16) -> Seq<char> {
    seq!['$'] + hex4(value)
}

fn push_chars(s: &mut String, chars: &[char])
    ensures
        final(s)@ == old(s)@ + chars@,
{
    let mut i: usize = 0;
    while i < chars.len()
        invariant
            i <= chars@.len(),
            s@ == old(s)@ + chars@.take(i as int),
        decreases chars.len() - i,
    {
        push_char(s, chars[i]);
        assert(chars@.take(i + 1) =~= chars@.take(i as int).push(chars@[i as int]));
        i = i + 1;
    }
    assert(chars@.take(chars@.len() as int) =~= chars@);
}

fn text_of(chars: &[char]) -> (r: String)
    ensures
        r@ == chars@,
{
    let mut s = String::new();
    push_chars(&mut s, chars);
    s
}

fn format_byte(val: u8) -> (r: String)
    ensures
        r@ == byte_value_text(val),
{
    let mut s = String::new();
    push_char(&mut s, '$');
    push_char(&mut s, as_single_hex_digit(val / 16));
    push_char(&mut s, as_single_hex_digit(val % 16));
    assert(s@ =~= byte_value_text(val));
    s
}

fn push_word_digits(s: &mut String, val: u16)
    ensures
        final(s)@ == old(s)@ + hex4(val),
{
    let hi = (val / 256) as u8;
    let lo = (val % 256) as u8;
    push_char(s, as_single_hex_digit(hi / 16));
    push_char(s, as_single_hex_digit(hi % 16));
    push_char(s, as_single_hex_digit(lo / 16));
    push_char(s, as_single_hex_digit(lo % 16));
    assert(final(s)@ =~= old(s)@ + hex4(val));
}

fn format_word(val: u16) -> (r: String)
    ensures
        r@ == word_value_text(val),
{
    let mut s = String::new();
    push_char(&mut s, '$');
    push_word_digits(&mut s, val);
    s
}

fn format_address(val: u16) -> (r: String)
    ensures
        r@ == address_text(val),
{
    let mut s = String::new();
    push_char(&mut s, '0');
    push_char(&mut s, 'x');
    push_word_digits(&mut s, val);
    assert(s@ =~= address_text(val));
    s
}

/// Whether `v` shows a register named `name` with the value `value`.
pub open spec fn shows_register(v: Variable, name: Seq<char>, value: Seq<char>) -> bool {
    &&& v.name@ == name
    &&& v.value@ == value
    &&& v.variables_reference == 0
    &&& v.memory_reference is None
}

fn byte_variable(name: &[char], value: u8) -> (r: Variable)
    ensures
        shows_register(r, name@, byte_value_text(value)),
{
    Variable {
        name: text_of(name),
        value: format_byte(value),
        variables_reference: 0,
        memory_reference: None,
    }
}

// ---------------------------------------------------------------------------
// Memory references: "0x" and a number in hexadecimal, as `i64::from_str_radix`
// reads it.

pub open spec fn hex_char_value(c: char) -> Option<nat> {
    if '0' <= c <= '9' {
        Some((c as nat - '0' as nat) as nat)
    } else if 'a' <= c <= 'f' {
        Some((c as nat - 'a' as nat + 10) as nat)
    } else if 'A' <= c <= 'F' {
        Some((c as nat - 'A' as nat + 10) as nat)
    } else {
        None
    }
}

/// The value of hexadecimal digits.
pub open spec fn hex_digits_value(s: Seq<char>) -> Option<nat>
    decreases s.len(),
{
    if s.len() == 0 {
        Some(0)
    } else {
        match (hex_digits_value(s.drop_last()), hex_char_value(s.last())) {
            (Some(v), Some(d)) => Some(v * 16 + d),
            _ => None,
        }
    }
}

/// A signed hexadecimal number: an optional sign, at least one digit, and a
/// value that fits in an `i64`.
pub open spec fn hex_i64_value(s: Seq<char>) -> Option<i64> {
    if s.len() == 0 {
        None
    } else {
        let negative = s[0] == '-';
        let digits = if s[0] == '-' || s[0] == '+' {
            s.drop_first()
        } else {
            s
        };
        if digits.len() == 0 {
            None
        } else {
            match hex_digits_value(digits) {
                None => None,
                Some(m) => {
                    let v = if negative {
                        -m
                    } else {
                        m as int
                    };
                    if i64::MIN <= v <= i64::MAX {
                        Some(v as i64)
                    } else {
                        None
                    }
                },
            }
        }
    }
}

/// The address that a memory or instruction reference gives.
pub open spec fn reference_value(s: Seq<char>) -> Option<i64> {
    if s.len() >= 2 && s[0] == '0' && s[1] == 'x' {
        hex_i64_value(s.skip(2))
    } else {
        None
    }
}

proof fn lemma_hex_digits_grow(s: Seq<char>, k: nat)
    requires
        k <= s.len(),
        hex_digits_value(s) is Some,
    ensures
        hex_digits_value(s.take(k as int)) is Some,
        hex_digits_value(s.take(k as int))->0 <= hex_digits_value(s)->0,
    decreases s.len() - k,
{
    if k < s.len() {
        assert(s.take(k as int) =~= s.drop_last().take(k as int));
        lemma_hex_digits_grow(s.drop_last(), k);
    } else {
        assert(s.take(k as int) =~= s);
    }
}

fn parse_reference(s: &str) -> (r: Option<i64>)
    ensures
        r == reference_value(s@),
{
    let n = s.unicode_len();
    if n < 2 || s.get_char(0) != '0' || s.get_char(1) != 'x' {
        return None;
    }
    let ghost body = s@.skip(2);
    let mut i: usize = 2;
    if n == 2 {
        return None;
    }
    let first = s.get_char(2);
    proof {
        assert(body[0] == first);
    }
    let negative = first == '-';
    if first == '-' || first == '+' {
        i = 3;
    }
    let start = i;
    let ghost digits = s@.skip(start as int);
    proof {
        if start == 3 {
            assert(digits =~= body.drop_first());
        } else {
            assert(digits =~= body);
        }
    }
    if start == n {
        return None;
    }
    let limit: u128 = 0x8000_0000_0000_0000;
    let mut magnitude: u128 = 0;
    proof {
        assert(s@.subrange(start as int, start as int) =~= Seq::<char>::empty());
    }
    while i < n
        invariant
            start <= i <= n,
            n == s@.len(),
            start < n,
            digits == s@.skip(start as int),
            s@.len() >= 2 && s@[0] == '0' && s@[1] == 'x',
            body == s@.skip(2),
            body.len() > 0,
            negative == (body[0] == '-'),
            digits == (if body[0] == '-' || body[0] == '+' {
                body.drop_first()
            } else {
                body
            }),
            limit == 0x8000_0000_0000_0000u128,
            magnitude <= limit,
            hex_digits_value(s@.subrange(start as int, i as int)) == Some(magnitude as nat),
        decreases n - i,
    {
        let c = s.get_char(i);
        let ghost prefix = s@.subrange(start as int, i + 1);
        proof {
            assert(prefix.drop_last() =~= s@.subrange(start as int, i as int));
            assert(prefix.last() == c);
            assert(digits.take(i - start + 1) =~= prefix);
        }
        let d: u128 = if '0' <= c && c <= '9' {
            let v = (c as u32 - '0' as u32) as u128;
            assert(v <= 9);
            v
        } else if 'a' <= c && c <= 'f' {
            let v = (c as u32 - 'a' as u32 + 10) as u128;
            assert(v <= 15);
            v
        } else if 'A' <= c && c <= 'F' {
            let v = (c as u32 - 'A' as u32 + 10) as u128;
            assert(v <= 15);
            v
        } else {
            proof {
                if hex_digits_value(digits) is Some {
                    lemma_hex_digits_grow(digits, (i - start + 1) as nat);
                }
            }
            return None;
        };
        magnitude = magnitude * 16 + d;
        if magnitude > limit {
            proof {
                if hex_digits_value(digits) is Some {
                    lemma_hex_digits_grow(digits, (i - start + 1) as nat);
                }
            }
            return None;
        }
        i = i + 1;
    }
    proof {
        assert(s@.subrange(start as int, n as int) =~= digits);
    }
    if negative {
        if magnitude == limit {
            Some(i64::MIN)
        } else {
            Some(-(magnitude as i64))
        }
    } else if magnitude == limit {
        None
    } else {
        Some(magnitude as i64)
    }
}

// ---------------------------------------------------------------------------
// Base64.

/// The character of the standard base64 alphabet for a number below 64.
pub open spec fn base64_char(n: nat) -> char {
    if n < 26 {
        ('A' as nat + n) as char
    } else if n < 52 {
        ('a' as nat + (n - 26)) as char
    } else if n < 62 {
        ('0' as nat + (n - 52)) as char
    } else if n == 62 {
        '+'
    } else {
        '/'
    }
}

/// Standard base64 with padding: every three bytes become four characters
/// of six bits each, and a last group of one or two bytes is padded with `=`.
pub open spec fn base64_text(bytes: Seq<u8>) -> Seq<char>
    decreases bytes.len(),
{
    if bytes.len() == 0 {
        Seq::empty()
    } else if bytes.len() == 1 {
        seq![base64_char(bytes[0] as nat / 4), base64_char((bytes[0] as nat % 4) * 16), '=', '=']
    } else if bytes.len() == 2 {
        seq![
            base64_char(bytes[0] as nat / 4),
            base64_char((bytes[0] as nat % 4) * 16 + bytes[1] as nat / 16),
            base64_char((bytes[1] as nat % 16) * 4),
            '=',
        ]
    } else {
        seq![
            base64_char(bytes[0] as nat / 4),
            base64_char((bytes[0] as nat % 4) * 16 + bytes[1] as nat / 16),
            base64_char((bytes[1] as nat % 16) * 4 + bytes[2] as nat / 64),
            base64_char(bytes[2] as nat % 64),
        ] + base64_text(bytes.skip(3))
    }
}

/// Encodes bytes with `base64::encode`, which the crate documents as the
/// standard base64 alphabet with padding (RFC 4648).
#[verifier::external_body]
fn base64_encode(bytes: &[u8]) -> (r: String)
    ensures
        r@ == base64_text(bytes@),
{
    base64::encode(bytes)
}

// ---------------------------------------------------------------------------
// Hexadecimal numbers of any width, as `format!("{:04X}")` writes them.

/// The hexadecimal digits of `v`, at least `width` of them.
pub open spec fn hex_padded(v: nat, width: nat) -> Seq<char>
    decreases v + width,
{
    if v < 16 && width <= 1 {
        seq![hex_digit(v as u8)]
    } else {
        hex_padded(v / 16, if width > 0 {
            (width - 1) as nat
        } else {
            0
        }).push(hex_digit((v % 16) as u8))
    }
}

fn push_hex_padded(s: &mut String, v: u64, width: u64)
    ensures
        final(s)@ == old(s)@ + hex_padded(v as nat, width as nat),
    decreases v + width,
{
    if v < 16 && width <= 1 {
        push_char(s, as_single_hex_digit(v as u8));
        assert(final(s)@ =~= old(s)@ + hex_padded(v as nat, width as nat));
    } else {
        let w = if width > 0 {
            width - 1
        } else {
            0
        };
        push_hex_padded(s, v / 16, w);
        push_char(s, as_single_hex_digit((v % 16) as u8));
        assert(final(s)@ =~= old(s)@ + hex_padded(v as nat, width as nat));
    }
}

/// A signed address as the debugger writes it: "0x" and the hexadecimal
/// digits of its two's complement, at least four of them.
pub open spec fn signed_address_text(address: i64) -> Seq<char> {
    seq!['0', 'x'] + hex_padded(address as u64 as nat, 4)
}

// ---------------------------------------------------------------------------
// Answering requests.

/// The chars of a fixed text.
pub open spec fn main_thread_name() -> Seq<char> {
    seq!['m', 'a', 'i', 'n', ' ', 't', 'h', 'r', 'e', 'a', 'd']
}

pub open spec fn registers_scope_name() -> Seq<char> {
    seq!['R', 'e', 'g', 'i', 's', 't', 'e', 'r', 's']
}

pub open spec fn memory_scope_name() -> Seq<char> {
    seq!['M', 'e', 'm', 'o', 'r', 'y']
}

/// The address that an instruction breakpoint names: its reference plus its
/// offset, truncated to 16 bits.
pub open spec fn breakpoint_address(b: InstructionBreakpoint) -> u16 {
    (reference_value(b.instruction_reference@)->0 + match b.offset {
        Some(o) => o as int,
        None => 0,
    }) as u16
}

/// Whether an instruction breakpoint can be read: its reference is valid and
/// the offset keeps it within an `i64`.
pub open spec fn breakpoint_readable(b: InstructionBreakpoint) -> bool {
    &&& reference_value(b.instruction_reference@) is Some
    &&& i64::MIN <= reference_value(b.instruction_reference@)->0 + match b.offset {
        Some(o) => o as int,
        None => 0,
    } <= i64::MAX
}

/// The start of a memory region that a request names.
pub open spec fn region_start(reference: Seq<char>, offset: Option<i64>) -> int {
    reference_value(reference)->0 + match offset {
        Some(o) => o as int,
        None => 0,
    }
}

/// The instruction offset of a disassembly request, moved back by the
/// margin.
pub open spec fn disassembly_offset(args: DisassembleArguments) -> int {
    (match args.instruction_offset {
        Some(o) => o as int,
        None => 0,
    }) - DISASSEMBLY_MARGIN
}

/// The bytes from `start` up to (not including) `end`, addresses taken
/// modulo 64K.
pub open spec fn memory_dump<I: MachineInspector>(inspector: &I, start: int, end: int) -> Seq<u8> {
    Seq::new(
        if end > start {
            (end - start) as nat
        } else {
            0
        },
        |k: int| inspector.inspected_memory((start + k) as u16),
    )
}

/// The requests that can be answered: references are valid hexadecimal
/// addresses, sums stay within `i64`, counts are not negative, a backward
/// disassembly fits in memory, and stepping out has a frame to leave.
pub open spec fn request_supported(request: Request, core: DebuggerCoreView) -> bool {
    match request {
        Request::SetInstructionBreakpoints(args) => forall|i: int|
            0 <= i < args.breakpoints@.len() ==> breakpoint_readable(#[trigger] args.breakpoints@[i]),
        Request::Disassemble(args) => {
            &&& reference_value(args.memory_reference@) is Some
            &&& i64::MIN <= region_start(args.memory_reference@, args.offset) <= i64::MAX
            &&& i64::MIN <= disassembly_offset(args)
            &&& disassembly_offset(args) < 0 ==> 3 * (-disassembly_offset(args)) + 3 <= usize::MAX && 3 * (
            -disassembly_offset(args)) + 3 <= i64::MAX
            &&& 0 <= args.instruction_count <= usize::MAX
        },
        Request::ReadMemory(args) => {
            &&& reference_value(args.memory_reference@) is Some
            &&& i64::MIN <= region_start(args.memory_reference@, args.offset) <= i64::MAX
            &&& i64::MIN <= region_start(args.memory_reference@, args.offset) + args.count <= i64::MAX
        },
        Request::StepOut {  } => core.stack_frames.len() > 0,
        _ => true,
    }
}

/// Whether `frame` shows the stack frame `f` under the id `id`.
pub open spec fn shows_frame(frame: StackFrame, f: crate::common::debugger::run_control::StackFrame, id: int) -> bool {
    &&& frame.id == id
    &&& frame.name@ == word_value_text(f.entry)
    &&& frame.instruction_pointer_reference@ == address_text(f.pc)
    &&& frame.line == 0
    &&& frame.column == 0
}

/// Whether `scope` is the scope of the registers.
pub open spec fn is_registers_scope(scope: Scope) -> bool {
    &&& scope.name@ == registers_scope_name()
    &&& scope.presentation_hint == Some(ScopePresentationHint::Registers)
    &&& scope.variables_reference == REGISTERS_VARIABLES_REFERENCE
    &&& !scope.expensive
}

/// Whether `vars` are the registers of the machine.
pub open spec fn shows_registers(vars: Seq<Variable>, m: crate::cpu::InspectedState) -> bool {
    &&& vars.len() == 6
    &&& shows_register(vars[0], seq!['A'], byte_value_text(m.a))
    &&& shows_register(vars[1], seq!['X'], byte_value_text(m.x))
    &&& shows_register(vars[2], seq!['Y'], byte_value_text(m.y))
    &&& shows_register(vars[3], seq!['S', 'P'], byte_value_text(m.sp))
    &&& shows_register(vars[4], seq!['P', 'C'], word_value_text(m.pc))
    &&& shows_register(vars[5], seq!['F', 'L', 'A', 'G', 'S'], byte_value_text(m.flags))
}

/// Whether `vars` is the single variable that stands for the memory.
pub open spec fn shows_memory_variable(vars: Seq<Variable>) -> bool {
    &&& vars.len() == 1
    &&& vars[0].name@ == memory_scope_name()
    &&& vars[0].value@ == seq!['$', '0', '0', '0', '0']
    &&& vars[0].variables_reference == 0
    &&& vars[0].memory_reference matches Some(r) && r@ == seq!['0', 'x', '0', '0', '0', '0']
}

/// The response to `request`, given the debugger core and the machine as they
/// are before it.
pub open spec fn answers<I: MachineInspector>(
    request: Request,
    core: DebuggerCoreView,
    inspector: &I,
    response: Response,
) -> bool {
    match request {
        Request::Initialize(_) => response == Response::Initialize(
            Capabilities {
                supports_disassemble_request: true,
                supports_instruction_breakpoints: true,
                supports_read_memory_request: true,
            },
        ),
        Request::SetExceptionBreakpoints {  } => response == Response::SetExceptionBreakpoints,
        Request::SetInstructionBreakpoints(args) => response matches Response::SetInstructionBreakpoints(
            r,
        ) && r.breakpoints@.len() == args.breakpoints@.len() && forall|i: int|
            0 <= i < r.breakpoints@.len() ==> (#[trigger] r.breakpoints@[i]).verified
                && r.breakpoints@[i].instruction_reference@ == address_text(
                breakpoint_address(args.breakpoints@[i]),
            ),
        Request::Attach {  } => response == Response::Attach,
        Request::Threads => response matches Response::Threads(t) && t.threads@.len() == 1
            && t.threads@[0].id == 1 && t.threads@[0].name@ == main_thread_name(),
        Request::StackTrace {  } => {
            let frames = stack_trace_spec(core.stack_frames, inspector.inspected().pc);
            response matches Response::StackTrace(st) && st.total_frames == frames.len()
                && st.stack_frames@.len() == frames.len() && forall|i: int|
                0 <= i < frames.len() ==> shows_frame(
                    #[trigger] st.stack_frames@[i],
                    frames[i],
                    frames.len() - i,
                )
        },
        Request::Scopes(args) => response matches Response::Scopes(sc) && if args.frame_id
            == core.stack_frames.len() {
            sc.scopes@.len() == 1 && is_registers_scope(sc.scopes@[0])
        } else {
            sc.scopes@.len() == 0
        },
        Request::Variables(args) => response matches Response::Variables(v) && if args.variables_reference
            == REGISTERS_VARIABLES_REFERENCE {
            shows_registers(v.variables@, inspector.inspected())
        } else if args.variables_reference == MEMORY_VARIABLES_REFERENCE {
            shows_memory_variable(v.variables@)
        } else {
            v.variables@.len() == 0
        },
        Request::Disassemble(args) => {
            let origin = region_start(args.memory_reference@, args.offset) as u16;
            let offset = disassembly_offset(args);
            let start = if offset >= 0 {
                seek_forward_spec(inspector, origin, offset as nat)
            } else {
                seek_backward_spec(inspector, origin, (-offset) as nat)
            };
            response matches Response::Disassemble(d) && d.instructions@.len()
                == args.instruction_count && forall|j: int|
                0 <= j < d.instructions@.len() ==> shows_instruction(
                    #[trigger] d.instructions@[j],
                    disassembly_address(inspector, origin, start, (DISASSEMBLY_MARGIN + j) as nat),
                    disassembly_step(
                        inspector,
                        origin,
                        disassembly_address(inspector, origin, start, (DISASSEMBLY_MARGIN + j) as nat),
                    ).0,
                )
        },
        Request::ReadMemory(args) => {
            let start = region_start(args.memory_reference@, args.offset);
            let end = if start + args.count < 0x10000 {
                start + args.count
            } else {
                0x10000
            };
            response matches Response::ReadMemory(m) && m.address@ == signed_address_text(
                start as i64,
            ) && m.data@ == base64_text(memory_dump(inspector, start, end)) && m.unreadable_bytes == 0
        },
        Request::Continue {  } => response == Response::Continue {  },
        Request::Pause {  } => response == Response::Pause,
        Request::Next {  } => response == Response::Next,
        Request::StepIn {  } => response == Response::StepIn,
        Request::StepOut {  } => response == Response::StepOut,
        Request::Disconnect(_) => response == Response::Disconnect,
    }
}

/// What a request does to the debugger core.
pub open spec fn core_after<I: MachineInspector>(request: Request, core: DebuggerCoreView, inspector: &I) -> DebuggerCoreView {
    match request {
        Request::SetInstructionBreakpoints(args) => DebuggerCoreView {
            instruction_breakpoints: args.breakpoints@.map_values(
                |b: InstructionBreakpoint| breakpoint_address(b),
            ),
            ..core
        },
        Request::Continue {  } => running_as(core, RunMode::Running),
        Request::Pause {  } => stopped_for(core, StopReason::Pause),
        Request::Next {  } => running_as(
            core,
            if inspector.inspected_memory(inspector.inspected().pc) == crate::cpu::opcodes::JSR {
                RunMode::SteppingOut { target_stack_depth: core.stack_frames.len() as usize }
            } else {
                RunMode::SteppingIn
            },
        ),
        Request::StepIn {  } => running_as(core, RunMode::SteppingIn),
        Request::StepOut {  } => running_as(
            core,
            RunMode::SteppingOut { target_stack_depth: (core.stack_frames.len() - 1) as usize },
        ),
        Request::Disconnect(_) => running_as(core, RunMode::Running),
        _ => core,
    }
}

/// The event that follows the response to a request, if any.
pub open spec fn event_after(request: Request) -> Option<Event> {
    match request {
        Request::Initialize(_) => Some(Event::Initialized),
        Request::Attach {  } => Some(
            Event::Stopped(
                StoppedEvent { reason: StopReason::Entry, thread_id: 1, all_threads_stopped: true },
            ),
        ),
        Request::Pause {  } => Some(
            Event::Stopped(
                StoppedEvent { reason: StopReason::Pause, thread_id: 1, all_threads_stopped: true },
            ),
        ),
        _ => None,
    }
}

/// A debugger for 6502-based machines: it answers the requests of a debugger
/// client and tells it when the machine stops. The messages it produces are
/// for the caller to send.
pub struct Debugger {
    sequence_number: i64,
    core: DebuggerCore,
}

pub struct DebuggerView {
    /// The sequence number of the last message produced.
    pub sequence_number: i64,
    pub core: DebuggerCoreView,
}

impl View for Debugger {
    type V = DebuggerView;

    closed spec fn view(&self) -> DebuggerView {
        DebuggerView { sequence_number: self.sequence_number, core: self.core@ }
    }
}

/// What handling a message leads to: the messages to send, in order, and
/// whether the connection is to be closed after them.
pub struct Outcome {
    pub messages: Vec<MessageEnvelope>,
    pub disconnect: bool,
}

impl Debugger {
    pub fn new() -> (r: Self)
        ensures
            core_wf(r@.core),
            r@.sequence_number == 0,
            r@.core == crate::common::debugger::run_control::initial_core(),
    {
        Debugger { sequence_number: 0, core: DebuggerCore::new() }
    }

    pub fn stopped(&self) -> (r: bool)
        ensures
            r == (self@.core.run_mode == RunMode::Stopped),
    {
        self.core.stopped()
    }

    /// Whether `request` can be answered (see `request_supported`), so that
    /// a caller can check it before `process_request`.
    pub fn request_is_supported(&self, request: &Request) -> (r: bool)
        ensures
            r == request_supported(*request, self@.core),
    {
        match request {
            Request::SetInstructionBreakpoints(args) => {
                let ghost supported = request_supported(*request, self@.core);
                assert(supported == forall|j: int|
                    0 <= j < args.breakpoints@.len() ==> breakpoint_readable(#[trigger] args.breakpoints@[j]));
                let mut i: usize = 0;
                while i < args.breakpoints.len()
                    invariant
                        supported == forall|j: int|
                            0 <= j < args.breakpoints@.len() ==> breakpoint_readable(
                                #[trigger] args.breakpoints@[j],
                            ),
                        supported == request_supported(*request, self@.core),
                        i <= args.breakpoints@.len(),
                        forall|j: int| 0 <= j < i ==> breakpoint_readable(#[trigger] args.breakpoints@[j]),
                    decreases args.breakpoints@.len() - i,
                {
                    let b = &args.breakpoints[i];
                    match parse_reference(b.instruction_reference.as_str()) {
                        None => {
                            assert(!breakpoint_readable(args.breakpoints@[i as int]));
                            return false;
                        },
                        Some(v) => {
                            let sum: i128 = v as i128 + match b.offset {
                                Some(o) => o as i128,
                                None => 0,
                            };
                            if sum < i64::MIN as i128 || sum > i64::MAX as i128 {
                                assert(!breakpoint_readable(args.breakpoints@[i as int]));
                                return false;
                            }
                        },
                    }
                    i = i + 1;
                }
                true
            },
            Request::Disassemble(args) => {
                let v = match parse_reference(args.memory_reference.as_str()) {
                    None => return false,
                    Some(v) => v,
                };
                let start: i128 = v as i128 + match args.offset {
                    Some(o) => o as i128,
                    None => 0,
                };
                if start < i64::MIN as i128 || start > i64::MAX as i128 {
                    return false;
                }
                let offset: i128 = match args.instruction_offset {
                    Some(o) => o as i128,
                    None => 0,
                } - DISASSEMBLY_MARGIN as i128;
                if offset < i64::MIN as i128 {
                    return false;
                }
                if offset < 0 {
                    let span: i128 = 3 * (-offset) + 3;
                    if span > usize::MAX as i128 || span > i64::MAX as i128 {
                        return false;
                    }
                }
                0 <= args.instruction_count && args.instruction_count as i128 <= usize::MAX as i128
            },
            Request::ReadMemory(args) => {
                let v = match parse_reference(args.memory_reference.as_str()) {
                    None => return false,
                    Some(v) => v,
                };
                let start: i128 = v as i128 + match args.offset {
                    Some(o) => o as i128,
                    None => 0,
                };
                if start < i64::MIN as i128 || start > i64::MAX as i128 {
                    return false;
                }
                let end: i128 = start + args.count as i128;
                i64::MIN as i128 <= end && end <= i64::MAX as i128
            },
            Request::StepOut {  } => self.core.stack_depth() > 0,
            _ => true,
        }
    }

    fn next_sequence_number(&mut self) -> (r: i64)
        requires
            old(self)@.sequence_number < i64::MAX,
        ensures
            r == old(self)@.sequence_number + 1,
            final(self)@ == (DebuggerView { sequence_number: r, ..old(self)@ }),
    {
        self.sequence_number = self.sequence_number + 1;
        self.sequence_number
    }

    fn event_message(&mut self, event: Event) -> (r: MessageEnvelope)
        requires
            old(self)@.sequence_number < i64::MAX,
        ensures
            r == (MessageEnvelope { seq: (old(self)@.sequence_number + 1) as i64, message: Message::Event(event) }),
            final(self)@ == (DebuggerView { sequence_number: (old(self)@.sequence_number + 1) as i64, ..old(self)@ }),
    {
        let seq = self.next_sequence_number();
        MessageEnvelope { seq, message: Message::Event(event) }
    }

    /// Looks at the machine (see [`DebuggerCore::update`]); when the machine
    /// has just stopped, gives the event that says so.
    pub fn update<I: MachineInspector>(&mut self, inspector: &I) -> (r: Option<MessageEnvelope>)
        requires
            core_wf(old(self)@.core),
            old(self)@.sequence_number < i64::MAX,
        ensures
            core_wf(final(self)@.core),
            ({
                let core = crate::common::debugger::run_control::update_spec(
                    old(self)@.core,
                    inspector.inspected(),
                    inspector.inspected_memory(inspector.inspected().pc),
                );
                &&& final(self)@.core == DebuggerCoreView { last_stop_reason: None, ..core }
                &&& match core.last_stop_reason {
                    Some(reason) => r == Some(
                        MessageEnvelope {
                            seq: (old(self)@.sequence_number + 1) as i64,
                            message: Message::Event(
                                Event::Stopped(
                                    StoppedEvent { thread_id: 1, reason, all_threads_stopped: true },
                                ),
                            ),
                        },
                    ) && final(self)@.sequence_number == old(self)@.sequence_number + 1,
                    None => r is None && final(self)@.sequence_number == old(self)@.sequence_number,
                }
            }),
    {
        proof {
            crate::common::debugger::run_control::lemma_update_keeps_frames_bounded(
                self@.core,
                inspector.inspected(),
                inspector.inspected_memory(inspector.inspected().pc),
            );
        }
        self.core.update(inspector);
        match self.core.last_stop_reason() {
            Some(reason) => Some(
                self.event_message(
                    Event::Stopped(StoppedEvent { thread_id: 1, reason, all_threads_stopped: true }),
                ),
            ),
            None => None,
        }
    }

    fn set_instruction_breakpoints<I: MachineInspector>(
        &mut self,
        args: SetInstructionBreakpointsArguments,
        inspector: &I,
    ) -> (r: Response)
        requires
            forall|i: int|
                0 <= i < args.breakpoints@.len() ==> breakpoint_readable(#[trigger] args.breakpoints@[i]),
        ensures
            answers(Request::SetInstructionBreakpoints(args), old(self)@.core, inspector, r),
            final(self)@ == (DebuggerView {
                core: core_after(Request::SetInstructionBreakpoints(args), old(self)@.core, inspector),
                ..old(self)@
            }),
    {
        let mut addresses: Vec<u16> = Vec::new();
        let mut breakpoints: Vec<Breakpoint> = Vec::new();
        let mut i: usize = 0;
        while i < args.breakpoints.len()
            invariant
                i <= args.breakpoints@.len(),
                forall|j: int|
                    0 <= j < args.breakpoints@.len() ==> breakpoint_readable(#[trigger] args.breakpoints@[j]),
                addresses@ == args.breakpoints@.take(i as int).map_values(
                    |b: InstructionBreakpoint| breakpoint_address(b),
                ),
                breakpoints@.len() == i,
                forall|j: int|
                    0 <= j < i ==> (#[trigger] breakpoints@[j]).verified
                        && breakpoints@[j].instruction_reference@ == address_text(
                        breakpoint_address(args.breakpoints@[j]),
                    ),
                self@ == old(self)@,
            decreases args.breakpoints.len() - i,
        {
            let b = &args.breakpoints[i];
            proof {
                assert(breakpoint_readable(args.breakpoints@[i as int]));
            }
            let reference = match parse_reference(b.instruction_reference.as_str()) {
                Some(v) => v,
                None => 0,
            };
            let offset: i64 = match b.offset {
                Some(o) => o,
                None => 0,
            };
            let address = (reference + offset) as u16;
            addresses.push(address);
            breakpoints.push(Breakpoint { verified: true, instruction_reference: format_address(address) });
            proof {
                assert(args.breakpoints@.take(i + 1).map_values(|b: InstructionBreakpoint| breakpoint_address(b))
                    =~= args.breakpoints@.take(i as int).map_values(
                    |b: InstructionBreakpoint| breakpoint_address(b),
                ).push(address));
            }
            i = i + 1;
        }
        proof {
            assert(args.breakpoints@.take(args.breakpoints@.len() as int) =~= args.breakpoints@);
        }
        self.core.set_instruction_breakpoints(addresses);
        Response::SetInstructionBreakpoints(SetInstructionBreakpointsResponse { breakpoints })
    }

    fn threads<I: MachineInspector>(&self, inspector: &I) -> (r: Response)
        ensures
            answers(Request::Threads, self@.core, inspector, r),
    {
        let mut threads: Vec<Thread> = Vec::new();
        threads.push(
            Thread { id: 1, name: text_of(&['m', 'a', 'i', 'n', ' ', 't', 'h', 'r', 'e', 'a', 'd']) },
        );
        Response::Threads(ThreadsResponse { threads })
    }

    fn stack_trace<I: MachineInspector>(&self, inspector: &I) -> (r: Response)
        requires
            core_wf(self@.core),
        ensures
            answers(Request::StackTrace {  }, self@.core, inspector, r),
    {
        let stack_trace = self.core.stack_trace(inspector);
        let num_frames = stack_trace.len();

        let mut stack_frames: Vec<StackFrame> = Vec::new();
        let mut i: usize = 0;
        while i < num_frames
            invariant
                i <= num_frames == stack_trace@.len(),
                num_frames <= 256,
                stack_trace@ == stack_trace_spec(self@.core.stack_frames, inspector.inspected().pc),
                stack_frames@.len() == i,
                forall|j: int|
                    0 <= j < i ==> shows_frame(#[trigger] stack_frames@[j], stack_trace@[j], num_frames - j),
            decreases num_frames - i,
        {
            let frame = stack_trace[i];
            stack_frames.push(
                StackFrame {
                    id: (num_frames - i) as i64,
                    name: format_word(frame.entry),
                    instruction_pointer_reference: format_address(frame.pc),
                    line: 0,
                    column: 0,
                },
            );
            i = i + 1;
        }
        Response::StackTrace(StackTraceResponse { stack_frames, total_frames: num_frames as i64 })
    }

    fn scopes<I: MachineInspector>(&self, args: ScopesArguments, inspector: &I) -> (r: Response)
        requires
            core_wf(self@.core),
        ensures
            answers(Request::Scopes(args), self@.core, inspector, r),
    {
        let mut scopes: Vec<Scope> = Vec::new();
        let depth = self.core.stack_depth();
        if args.frame_id == depth as i64 {
            scopes.push(
                Scope {
                    name: text_of(&['R', 'e', 'g', 'i', 's', 't', 'e', 'r', 's']),
                    presentation_hint: Some(ScopePresentationHint::Registers),
                    variables_reference: REGISTERS_VARIABLES_REFERENCE,
                    expensive: false,
                },
            );
        }
        Response::Scopes(ScopesResponse { scopes })
    }

    fn variables<I: MachineInspector>(&self, inspector: &I, args: VariablesArguments) -> (r: Response)
        ensures
            answers(Request::Variables(args), self@.core, inspector, r),
    {
        let mut variables: Vec<Variable> = Vec::new();
        if args.variables_reference == REGISTERS_VARIABLES_REFERENCE {
            variables.push(byte_variable(&['A'], inspector.reg_a()));
            variables.push(byte_variable(&['X'], inspector.reg_x()));
            variables.push(byte_variable(&['Y'], inspector.reg_y()));
            variables.push(byte_variable(&['S', 'P'], inspector.reg_sp()));
            variables.push(
                Variable {
                    name: text_of(&['P', 'C']),
                    value: format_word(inspector.reg_pc()),
                    variables_reference: 0,
                    memory_reference: None,
                },
            );
            variables.push(byte_variable(&['F', 'L', 'A', 'G', 'S'], inspector.flags()));
            proof {
                assert(variables@[0].name@ =~= seq!['A']);
                assert(variables@[1].name@ =~= seq!['X']);
                assert(variables@[2].name@ =~= seq!['Y']);
                assert(variables@[3].name@ =~= seq!['S', 'P']);
                assert(variables@[4].name@ =~= seq!['P', 'C']);
                assert(variables@[5].name@ =~= seq!['F', 'L', 'A', 'G', 'S']);
            }
        } else if args.variables_reference == MEMORY_VARIABLES_REFERENCE {
            variables.push(
                Variable {
                    name: text_of(&['M', 'e', 'm', 'o', 'r', 'y']),
                    value: text_of(&['$', '0', '0', '0', '0']),
                    variables_reference: 0,
                    memory_reference: Some(text_of(&['0', 'x', '0', '0', '0', '0'])),
                },
            );
            proof {
                assert(variables@[0].name@ =~= memory_scope_name());
                assert(variables@[0].value@ =~= seq!['$', '0', '0', '0', '0']);
                assert(variables@[0].memory_reference->0@ =~= seq!['0', 'x', '0', '0', '0', '0']);
            }
        }
        Response::Variables(VariablesResponse { variables })
    }

    fn disassemble<I: MachineInspector>(&self, inspector: &I, args: DisassembleArguments) -> (r: Response)
        requires
            request_supported(Request::Disassemble(args), self@.core),
        ensures
            answers(Request::Disassemble(args), self@.core, inspector, r),
    {
        let mem_reference = match parse_reference(args.memory_reference.as_str()) {
            Some(v) => v,
            None => 0,
        };
        let offset: i64 = match args.offset {
            Some(o) => o,
            None => 0,
        };
        let origin = (mem_reference + offset) as u16;
        let instruction_offset: i64 = match args.instruction_offset {
            Some(o) => o,
            None => 0,
        };
        let disassembly_start = seek_instruction(
            inspector,
            origin,
            instruction_offset - DISASSEMBLY_MARGIN as i64,
        );
        let instructions = disassemble(
            inspector,
            origin,
            disassembly_start,
            DISASSEMBLY_MARGIN,
            args.instruction_count as usize,
        );
        Response::Disassemble(DisassembleResponse { instructions })
    }

    fn read_memory<I: MachineInspector>(&self, inspector: &I, args: ReadMemoryArguments) -> (r: Response)
        requires
            request_supported(Request::ReadMemory(args), self@.core),
        ensures
            answers(Request::ReadMemory(args), self@.core, inspector, r),
    {
        let reference = match parse_reference(args.memory_reference.as_str()) {
            Some(v) => v,
            None => 0,
        };
        let offset: i64 = match args.offset {
            Some(o) => o,
            None => 0,
        };
        let start_address = reference + offset;
        let end_address = if start_address + args.count < 0x10000 {
            start_address + args.count
        } else {
            0x10000
        };
        let mut mem_dump: Vec<u8> = Vec::new();
        let mut address = start_address;
        while address < end_address
            invariant
                start_address <= address <= end_address || (address == start_address && end_address
                    <= start_address),
                end_address <= 0x10000,
                address < end_address ==> start_address <= address,
                mem_dump@ =~= memory_dump(inspector, start_address as int, address as int),
            decreases end_address - address,
        {
            mem_dump.push(inspector.inspect_memory(address as u16));
            proof {
                assert(memory_dump(inspector, start_address as int, address + 1) =~= memory_dump(
                    inspector,
                    start_address as int,
                    address as int,
                ).push(inspector.inspected_memory(address as u16)));
            }
            address = address + 1;
        }
        proof {
            assert(mem_dump@ =~= memory_dump(inspector, start_address as int, end_address as int));
        }
        let data = base64_encode(mem_dump.as_slice());
        let mut text = String::new();
        push_char(&mut text, '0');
        push_char(&mut text, 'x');
        push_hex_padded(&mut text, start_address as u64, 4);
        proof {
            assert(text@ =~= signed_address_text(start_address));
        }
        Response::ReadMemory(ReadMemoryResponse { address: text, data, unreadable_bytes: 0 })
    }

    /// Answers a request from the debugger client: the response, the event
    /// that follows it for some requests, and the effect on the run control.
    pub fn process_request<I: MachineInspector>(
        &mut self,
        request_seq: i64,
        request: Request,
        inspector: &I,
    ) -> (r: Outcome)
        requires
            core_wf(old(self)@.core),
            request_supported(request, old(self)@.core),
            old(self)@.sequence_number + 2 <= i64::MAX,
        ensures
            core_wf(final(self)@.core),
            final(self)@.core == core_after(request, old(self)@.core, inspector),
            r.disconnect == (request is Disconnect),
            r.messages@.len() == if event_after(request) is Some {
                2int
            } else {
                1int
            },
            final(self)@.sequence_number == old(self)@.sequence_number + r.messages@.len(),
            r.messages@[0].seq == old(self)@.sequence_number + 1,
            r.messages@[0].message matches Message::Response(envelope) && envelope.request_seq
                == request_seq && envelope.success && answers(
                request,
                old(self)@.core,
                inspector,
                envelope.response,
            ),
            event_after(request) matches Some(e) ==> r.messages@[1] == (MessageEnvelope {
                seq: (old(self)@.sequence_number + 2) as i64,
                message: Message::Event(e),
            }),
    {
        let ghost before = self@;
        let (response, event, disconnect): (Response, Option<Event>, bool) = match request {
            Request::Initialize(_) => (
                Response::Initialize(
                    Capabilities {
                        supports_disassemble_request: true,
                        supports_instruction_breakpoints: true,
                        supports_read_memory_request: true,
                    },
                ),
                Some(Event::Initialized),
                false,
            ),
            Request::SetExceptionBreakpoints {  } => (Response::SetExceptionBreakpoints, None, false),
            Request::SetInstructionBreakpoints(args) => (
                self.set_instruction_breakpoints(args, inspector),
                None,
                false,
            ),
            Request::Attach {  } => (
                Response::Attach,
                Some(
                    Event::Stopped(
                        StoppedEvent {
                            reason: StopReason::Entry,
                            thread_id: 1,
                            all_threads_stopped: true,
                        },
                    ),
                ),
                false,
            ),
            Request::Threads => (self.threads(inspector), None, false),
            Request::StackTrace {  } => (self.stack_trace(inspector), None, false),
            Request::Scopes(args) => (self.scopes(args, inspector), None, false),
            Request::Variables(args) => (self.variables(inspector, args), None, false),
            Request::Disassemble(args) => (self.disassemble(inspector, args), None, false),
            Request::ReadMemory(args) => (self.read_memory(inspector, args), None, false),
            Request::Continue {  } => {
                self.core.resume();
                (Response::Continue {  }, None, false)
            },
            Request::Pause {  } => {
                self.core.pause();
                (
                    Response::Pause,
                    Some(
                        Event::Stopped(
                            StoppedEvent {
                                reason: StopReason::Pause,
                                thread_id: 1,
                                all_threads_stopped: true,
                            },
                        ),
                    ),
                    false,
                )
            },
            Request::Next {  } => {
                self.core.step_over(inspector);
                (Response::Next, None, false)
            },
            Request::StepIn {  } => {
                self.core.step_into();
                (Response::StepIn, None, false)
            },
            Request::StepOut {  } => {
                self.core.step_out();
                (Response::StepOut, None, false)
            },
            Request::Disconnect(_) => {
                self.core.resume();
                (Response::Disconnect, None, true)
            },
        };
        let seq = self.next_sequence_number();
        let mut messages: Vec<MessageEnvelope> = Vec::new();
        messages.push(
            MessageEnvelope {
                seq,
                message: Message::Response(ResponseEnvelope { request_seq, success: true, response }),
            },
        );
        match event {
            Some(e) => {
                let message = self.event_message(e);
                messages.push(message);
            },
            None => {},
        }
        Outcome { messages, disconnect }
    }

    /// Handles a message from the debugger client: requests are answered,
    /// anything else is ignored.
    pub fn process_message<I: MachineInspector>(&mut self, envelope: MessageEnvelope, inspector: &I) -> (r: Outcome)
        requires
            core_wf(old(self)@.core),
            envelope.message matches Message::Request(request) ==> request_supported(
                request,
                old(self)@.core,
            ),
            old(self)@.sequence_number + 2 <= i64::MAX,
        ensures
            core_wf(final(self)@.core),
            envelope.message matches Message::Request(request) ==> {
                &&& final(self)@.core == core_after(request, old(self)@.core, inspector)
                &&& r.disconnect == (request is Disconnect)
                &&& r.messages@.len() >= 1
                &&& r.messages@[0].message matches Message::Response(response) && response.request_seq
                    == envelope.seq && answers(request, old(self)@.core, inspector, response.response)
            },
            !(envelope.message is Request) ==> final(self)@ == old(self)@ && r.messages@.len() == 0
                && !r.disconnect,
    {
        match envelope.message {
            Message::Request(request) => self.process_request(envelope.seq, request, inspector),
            _ => Outcome { messages: Vec::new(), disconnect: false },
        }
    }
}

/// Query law: requests other than those that control running (continue,
/// pause, the steps and disconnecting) leave the run mode, a stop reason not
/// yet reported and the recorded stack frames as they were.
pub proof fn lemma_queries_leave_run_mode<I: MachineInspector>(
    request: Request,
    core: DebuggerCoreView,
    inspector: &I,
)
    requires
        !(request is Continue || request is Pause || request is Next || request is StepIn
            || request is StepOut || request is Disconnect),
    ensures
        core_after(request, core, inspector).run_mode == core.run_mode,
        core_after(request, core, inspector).last_stop_reason == core.last_stop_reason,
        core_after(request, core, inspector).stack_frames == core.stack_frames,
{
}

} // verus!
