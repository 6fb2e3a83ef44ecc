use std::collections::VecDeque;
use steampunk::common::debugger::dap_types::{
    Capabilities, DisassembleArguments, DisassembleResponse, DisassembledInstruction, Event,
    InitializeArguments, Message, MessageEnvelope, ReadMemoryArguments, ReadMemoryResponse,
    Request, Response, ResponseEnvelope, SetInstructionBreakpointsArguments,
    SetInstructionBreakpointsResponse, StoppedEvent, Thread, ThreadsResponse,
};
use steampunk::common::debugger::run_control::StopReason;
use steampunk::common::debugger::Debugger;
use steampunk::cpu::{Cpu, MachineInspector};
use steampunk::memory::SimpleRam;

/// A debugger session driven by a queue of incoming messages, collecting what
/// the debugger sends back.
struct Session {
    debugger: Debugger,
    incoming: VecDeque<MessageEnvelope>,
    outgoing: VecDeque<MessageEnvelope>,
    disconnected: bool,
}

impl Session {
    fn new() -> Session {
        Session {
            debugger: Debugger::new(),
            incoming: VecDeque::new(),
            outgoing: VecDeque::new(),
            disconnected: false,
        }
    }

    fn push_incoming(&mut self, envelope: MessageEnvelope) {
        self.incoming.push_back(envelope);
    }

    fn push_request(&mut self, request: Request) {
        self.incoming.push_back(MessageEnvelope { seq: 0, message: Message::Request(request) });
    }

    fn process_messages(&mut self, cpu: &Cpu<SimpleRam>) {
        while let Some(envelope) = self.incoming.pop_front() {
            let outcome = self.debugger.process_message(envelope, cpu);
            self.outgoing.extend(outcome.messages);
            self.disconnected |= outcome.disconnect;
        }
    }

    fn update(&mut self, cpu: &Cpu<SimpleRam>) {
        if let Some(message) = self.debugger.update(cpu) {
            self.outgoing.push_back(message);
        }
    }

    fn pop_outgoing(&mut self) -> Option<MessageEnvelope> {
        self.outgoing.pop_front()
    }

    fn pop_response(&mut self) -> Response {
        match self.pop_outgoing() {
            Some(MessageEnvelope {
                message: Message::Response(ResponseEnvelope { response, .. }), ..
            }) => response,
            other => panic!("Expected a response, got {:?}", other),
        }
    }

    fn assert_responded_with(&mut self, expected_response: Response) {
        let response = self.pop_response();
        assert_eq!(response, expected_response);
    }

    fn assert_emitted(&mut self, expected_event: Event) {
        match self.pop_outgoing() {
            Some(MessageEnvelope { message: Message::Event(event), .. }) => {
                assert_eq!(event, expected_event)
            }
            other => panic!("Expected event {:?}, got {:?}", expected_event, other),
        }
    }

    fn purge_messages(&mut self) {
        self.outgoing.clear();
    }

    fn tick_while_running(&mut self, cpu: &mut Cpu<SimpleRam>) {
        // Limit to 1000 ticks; no test runs that long.
        for _ in 0..1000 {
            if self.debugger.stopped() {
                return;
            }
            cpu.tick().unwrap();
            self.update(cpu);
        }
        panic!("CPU still running at PC={:04X}", cpu.reg_pc());
    }


}

fn session_cpu(program: &[u8]) -> Cpu<SimpleRam> {
    let mut cpu = Cpu::new(Box::new(SimpleRam::with_test_program(program)));
    cpu.reset();
    cpu.ticks(8).unwrap();
    cpu
}

fn stopped(reason: StopReason) -> Event {
    Event::Stopped(StoppedEvent { thread_id: 1, reason, all_threads_stopped: true })
}


fn instruction(address: &str, bytes: &str, text: &str) -> DisassembledInstruction {
    DisassembledInstruction {
        address: address.to_string(),
        instruction_bytes: bytes.to_string(),
        instruction: text.to_string(),
    }
}

#[test]
fn uses_sequence_numbers() {
    let inspector = session_cpu(&[]);
    let mut session = Session::new();
    session.push_incoming(MessageEnvelope {
        seq: 5,
        message: Message::Request(Request::Initialize(InitializeArguments {
            client_name: Some("Visual Studio Code".into()),
        })),
    });
    session.push_incoming(MessageEnvelope { seq: 8, message: Message::Request(Request::Threads) });
    session.push_incoming(MessageEnvelope { seq: 9, message: Message::Request(Request::Threads) });

    session.process_messages(&inspector);

    let first = session.pop_outgoing().unwrap();
    assert_eq!(first.seq, 1);
    assert!(matches!(
        first.message,
        Message::Response(ResponseEnvelope { request_seq: 5, .. })
    ));
    assert_eq!(session.pop_outgoing().unwrap().seq, 2);
    let third = session.pop_outgoing().unwrap();
    assert_eq!(third.seq, 3);
    assert!(matches!(
        third.message,
        Message::Response(ResponseEnvelope { request_seq: 8, .. })
    ));
    let fourth = session.pop_outgoing().unwrap();
    assert_eq!(fourth.seq, 4);
    assert!(matches!(
        fourth.message,
        Message::Response(ResponseEnvelope { request_seq: 9, .. })
    ));
    assert_eq!(session.pop_outgoing(), None);
}

#[test]
fn initialization_sequence() {
    let inspector = session_cpu(&[]);
    let mut session = Session::new();
    session.push_request(Request::Initialize(InitializeArguments {
        client_name: Some("Visual Studio Code".into()),
    }));
    session.push_request(Request::Attach {});
    session.push_request(Request::SetExceptionBreakpoints {});
    session.push_request(Request::SetInstructionBreakpoints(SetInstructionBreakpointsArguments {
        breakpoints: vec![],
    }));
    session.push_request(Request::Threads {});

    session.process_messages(&inspector);

    session.assert_responded_with(Response::Initialize(Capabilities {
        supports_disassemble_request: true,
        supports_instruction_breakpoints: true,
        supports_read_memory_request: true,
    }));
    session.assert_emitted(Event::Initialized);
    session.assert_responded_with(Response::Attach);
    session.assert_emitted(stopped(StopReason::Entry));
    session.assert_responded_with(Response::SetExceptionBreakpoints);
    session.assert_responded_with(Response::SetInstructionBreakpoints(
        SetInstructionBreakpointsResponse { breakpoints: vec![] },
    ));
    session.assert_responded_with(Response::Threads(ThreadsResponse {
        threads: vec![Thread { id: 1, name: "main thread".into() }],
    }));
    assert_eq!(session.pop_outgoing(), None);
}

#[test]
fn disassembly() {
    // lda $45; sta $EA
    let cpu = session_cpu(&[0xA5, 0x45, 0x85, 0xEA]);
    let mut session = Session::new();
    session.update(&cpu);

    session.push_request(Request::Disassemble(DisassembleArguments {
        memory_reference: "0xF000".to_string(),
        offset: Some(0),
        instruction_offset: Some(0),
        instruction_count: 2,
    }));
    session.push_request(Request::Disassemble(DisassembleArguments {
        memory_reference: "0xF002".to_string(),
        offset: None,
        instruction_offset: None,
        instruction_count: 1,
    }));
    session.process_messages(&cpu);

    session.assert_responded_with(Response::Disassemble(DisassembleResponse {
        instructions: vec![
            instruction("0xF000", "A5 45", "LDA $45"),
            instruction("0xF002", "85 EA", "STA $EA"),
        ],
    }));
    session.assert_responded_with(Response::Disassemble(DisassembleResponse {
        instructions: vec![instruction("0xF002", "85 EA", "STA $EA")],
    }));
    assert_eq!(session.pop_outgoing(), None);
}

#[test]
fn disassembly_ambiguous() {
    // lda $45; sta $EA; sta $AE
    let cpu = session_cpu(&[0xA5, 0x45, 0x85, 0xEA, 0x85, 0xAE]);
    let mut session = Session::new();
    session.update(&cpu);

    session.push_request(Request::Disassemble(DisassembleArguments {
        memory_reference: "0xF002".to_string(),
        offset: Some(1),
        instruction_offset: Some(-2),
        instruction_count: 4,
    }));
    session.push_request(Request::Disassemble(DisassembleArguments {
        memory_reference: "0xF004".to_string(),
        offset: Some(0),
        instruction_offset: Some(-1),
        instruction_count: 2,
    }));
    session.process_messages(&cpu);

    session.assert_responded_with(Response::Disassemble(DisassembleResponse {
        instructions: vec![
            instruction("0xF000", "A5 45", "LDA $45"),
            instruction("0xF002", "85", ""),
            instruction("0xF003", "EA", "NOP"),
            instruction("0xF004", "85 AE", "STA $AE"),
        ],
    }));
    session.assert_responded_with(Response::Disassemble(DisassembleResponse {
        instructions: vec![
            instruction("0xF002", "85 EA", "STA $EA"),
            instruction("0xF004", "85 AE", "STA $AE"),
        ],
    }));
    assert_eq!(session.pop_outgoing(), None);
}

#[test]
fn read_memory() {
    let cpu = session_cpu(&[0x8B, 0xAD, 0xF0, 0x0D]);
    let mut session = Session::new();
    session.update(&cpu);

    session.push_request(Request::ReadMemory(ReadMemoryArguments {
        memory_reference: "0xF000".to_string(),
        offset: None,
        count: 4,
    }));
    session.push_request(Request::ReadMemory(ReadMemoryArguments {
        memory_reference: "0xF001".to_string(),
        offset: None,
        count: 2,
    }));
    session.process_messages(&cpu);

    session.assert_responded_with(Response::ReadMemory(ReadMemoryResponse {
        address: "0xF000".to_string(),
        data: "i63wDQ==".to_string(),
        unreadable_bytes: 0,
    }));
    session.assert_responded_with(Response::ReadMemory(ReadMemoryResponse {
        address: "0xF001".to_string(),
        data: "rfA=".to_string(),
        unreadable_bytes: 0,
    }));
    assert_eq!(session.pop_outgoing(), None);
}

#[test]
fn read_memory_with_offset() {
    let cpu = session_cpu(&[0x8B, 0xAD, 0xF0, 0x0D]);
    let mut session = Session::new();
    session.update(&cpu);

    session.push_request(Request::ReadMemory(ReadMemoryArguments {
        memory_reference: "0xF003".to_string(),
        offset: Some(-2),
        count: 2,
    }));
    session.process_messages(&cpu);

    session.assert_responded_with(Response::ReadMemory(ReadMemoryResponse {
        address: "0xF001".to_string(),
        data: "rfA=".to_string(),
        unreadable_bytes: 0,
    }));
    assert_eq!(session.pop_outgoing(), None);
}

#[test]
fn read_memory_truncates_after_last_bytes() {
    let mut cpu = session_cpu(&[]);
    cpu.memory().bytes[0xFFFE..=0xFFFF].copy_from_slice(&[0xF0, 0x0D]);
    let mut session = Session::new();
    session.update(&cpu);

    session.push_request(Request::ReadMemory(ReadMemoryArguments {
        memory_reference: "0xFFFE".to_string(),
        offset: Some(0),
        count: 10,
    }));
    session.process_messages(&cpu);

    session.assert_responded_with(Response::ReadMemory(ReadMemoryResponse {
        address: "0xFFFE".to_string(),
        data: "8A0=".to_string(),
        unreadable_bytes: 0,
    }));
    assert_eq!(session.pop_outgoing(), None);
}

#[test]
fn continue_and_pause() {
    let inspector = session_cpu(&[]);
    let mut session = Session::new();
    session.push_request(Request::Continue {});
    assert!(session.debugger.stopped());

    session.process_messages(&inspector);

    session.assert_responded_with(Response::Continue {});
    assert!(!session.debugger.stopped());

    session.push_request(Request::Pause {});
    session.process_messages(&inspector);

    session.assert_responded_with(Response::Pause);
    session.assert_emitted(stopped(StopReason::Pause));
    assert!(session.debugger.stopped());
    assert_eq!(session.pop_outgoing(), None);
}

#[test]
fn next() {
    // jsr subroutine; nop; subroutine: rts
    let mut cpu = session_cpu(&[0x20, 0x04, 0xF0, 0xEA, 0x60]);
    let mut session = Session::new();
    session.push_request(Request::Next {});
    session.update(&cpu);

    session.process_messages(&cpu);

    session.purge_messages();
    session.tick_while_running(&mut cpu);
    assert_eq!(cpu.reg_pc(), 0xF003);
    session.assert_emitted(stopped(StopReason::Step));
    assert_eq!(session.pop_outgoing(), None);
}

#[test]
fn disconnects() {
    let inspector = session_cpu(&[]);
    let mut session = Session::new();
    session.push_request(Request::Disconnect(None));
    session.process_messages(&inspector);

    session.assert_responded_with(Response::Disconnect);
    assert!(session.disconnected);
    assert!(!session.debugger.stopped());
}
