//! Data types of the Debug Adapter Protocol: the messages that a debugger
//! client and this debugger exchange. Only the types and fields that the
//! debugger uses are here.
use crate::common::debugger::run_control::StopReason;
use vstd::prelude::*;

verus! {

#[derive(Debug, PartialEq)]
pub struct MessageEnvelope {
    pub seq: i64,
    pub message: Message,
}

#[derive(Debug, PartialEq)]
pub enum Message {
    Request(Request),
    Response(ResponseEnvelope),
    Event(Event),
}

#[derive(Debug, PartialEq)]
pub enum Request {
    Initialize(InitializeArguments),
    SetExceptionBreakpoints {},
    SetInstructionBreakpoints(SetInstructionBreakpointsArguments),
    Attach {},
    Threads,
    StackTrace {},
    Scopes(ScopesArguments),
    Variables(VariablesArguments),
    Disassemble(DisassembleArguments),
    ReadMemory(ReadMemoryArguments),

    Continue {},
    Pause {},
    Next {},
    StepIn {},
    StepOut {},

    Disconnect(Option<DisconnectArguments>),
}

#[derive(Debug, PartialEq)]
pub struct InitializeArguments {
    pub client_name: Option<String>,
}

#[derive(Debug, PartialEq)]
pub struct SetInstructionBreakpointsArguments {
    pub breakpoints: Vec<InstructionBreakpoint>,
}

#[derive(Debug, PartialEq)]
pub struct ScopesArguments {
    pub frame_id: i64,
}

#[derive(Debug, PartialEq)]
pub struct VariablesArguments {
    pub variables_reference: i64,
}

#[derive(Debug, PartialEq)]
pub struct DisassembleArguments {
    /// Base address of the disassembled memory region. Note (you won't read
    /// this in the protocol spec!): this address needs to observe the same
    /// conventions as [`DisassembledInstruction::address`].
    pub memory_reference: String,

    /// Offset (in bytes), relative to the [`memory_reference`].
    pub offset: Option<i64>,

    /// Offset (in number of instructions), relative to [`memory_reference`]` + `[`offset`].
    pub instruction_offset: Option<i64>,

    pub instruction_count: i64,
}

#[derive(Debug, PartialEq)]
pub struct ReadMemoryArguments {
    pub memory_reference: String,
    pub offset: Option<i64>,
    pub count: i64,
}

#[derive(Debug, PartialEq)]
pub struct ResponseEnvelope {
    pub request_seq: i64,
    pub success: bool,
    pub response: Response,
}

#[derive(Debug, PartialEq)]
pub enum Response {
    Initialize(Capabilities),
    SetExceptionBreakpoints,
    SetInstructionBreakpoints(SetInstructionBreakpointsResponse),
    Attach,
    Threads(ThreadsResponse),
    StackTrace(StackTraceResponse),
    Scopes(ScopesResponse),
    Variables(VariablesResponse),
    Disassemble(DisassembleResponse),
    ReadMemory(ReadMemoryResponse),

    Continue {},
    Pause,
    Next,
    StepIn,
    StepOut,

    Disconnect,
}

#[derive(Debug, PartialEq)]
pub struct Capabilities {
    pub supports_disassemble_request: bool,
    pub supports_instruction_breakpoints: bool,
    pub supports_read_memory_request: bool,
}

#[derive(Debug, PartialEq)]
pub struct SetInstructionBreakpointsResponse {
    pub breakpoints: Vec<Breakpoint>,
}

#[derive(Debug, PartialEq)]
pub struct ThreadsResponse {
    pub threads: Vec<Thread>,
}

#[derive(Debug, PartialEq)]
pub struct StackTraceResponse {
    pub stack_frames: Vec<StackFrame>,
    pub total_frames: i64,
}

#[derive(Debug, PartialEq)]
pub struct ScopesResponse {
    pub scopes: Vec<Scope>,
}

#[derive(Debug, PartialEq)]
pub struct Scope {
    pub name: String,
    pub presentation_hint: Option<ScopePresentationHint>,
    pub variables_reference: i64,
    pub expensive: bool,
}

#[derive(Debug, PartialEq)]
pub enum ScopePresentationHint {
    Registers,
}

#[derive(Debug, PartialEq)]
pub struct VariablesResponse {
    pub variables: Vec<Variable>,
}

#[derive(Debug, PartialEq)]
pub struct DisassembleResponse {
    pub instructions: Vec<DisassembledInstruction>,
}

#[derive(Debug, PartialEq)]
pub struct ReadMemoryResponse {
    pub address: String,
    pub data: String,
    pub unreadable_bytes: i64,
}

#[derive(Debug, PartialEq)]
pub struct DisassembledInstruction {
    /// The instruction address; if it's preceded by "0x", it's treated as
    /// hexadecimal.
    pub address: String,
    pub instruction_bytes: String,
    pub instruction: String,
}

#[derive(Debug, PartialEq)]
pub struct Variable {
    pub name: String,
    pub value: String,
    pub variables_reference: i64,
    pub memory_reference: Option<String>,
}

#[derive(Debug, PartialEq)]
pub enum Event {
    Initialized,
    Stopped(StoppedEvent),
}

#[derive(Debug, PartialEq)]
pub struct StoppedEvent {
    pub reason: StopReason,
    pub thread_id: i64,
    pub all_threads_stopped: bool,
}

#[derive(Debug, PartialEq)]
pub struct StackFrame {
    pub id: i64,
    pub name: String,
    pub line: i64,
    pub column: i64,
    pub instruction_pointer_reference: String,
}

#[derive(Debug, PartialEq)]
pub struct Thread {
    pub id: i64,
    pub name: String,
}

#[derive(Debug, PartialEq)]
pub struct InstructionBreakpoint {
    pub instruction_reference: String,
    pub offset: Option<i64>,
}

#[derive(Debug, PartialEq)]
pub struct Breakpoint {
    pub verified: bool,
    pub instruction_reference: String,
}

/// This empty struct is here only because `Serde` doesn't allow us to use an
/// unit enum in place where the content (`arguments`) _can_ appear, but is
/// optional. That's why [`Request::Disconnect`] is parametrized by
/// `Option<`[`DisconnectArguments`]`>`.
#[derive(Debug, PartialEq)]
pub struct DisconnectArguments {}

} // verus!
