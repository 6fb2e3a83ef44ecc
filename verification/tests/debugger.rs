use steampunk::common::debugger::dap_types::{
    DisassembleArguments, DisassembledInstruction, Event, InstructionBreakpoint, Message,
    MessageEnvelope, ReadMemoryArguments, Request, Response, ScopesArguments,
    SetInstructionBreakpointsArguments, StoppedEvent, VariablesArguments,
};
use steampunk::common::debugger::disasm::{disassemble, seek_instruction, MemoryStream};
use steampunk::common::debugger::protocol::{
    raw_messages, read_headers, send_raw_message, ProtocolError,
};
use steampunk::common::debugger::run_control::{DebuggerCore, StackFrame, StopReason};
use steampunk::common::debugger::Debugger;
use steampunk::cpu::opcodes;
use steampunk::cpu::{Cpu, MachineInspector};
use steampunk::memory::SimpleRam;
use steampunk::stream::{ByteReader, ByteWriter, IoErrorKind, StreamEnd};

fn reader(text: &str) -> ByteReader {
    ByteReader::from_bytes(text.as_bytes())
}

#[test]
fn no_commands() {
    let mut input = reader("");
    assert!(raw_messages(&mut input).is_empty());
}

#[test]
fn one_command() {
    let mut input = reader("Content-Length: 3\r\n\r\nfoo");
    assert_eq!(raw_messages(&mut input), vec![Ok(b"foo".to_vec())]);
}

#[test]
fn many_commands() {
    let mut input = reader(
        "Content-Length: 20\r\n\
        \r\n\
        01234567890123456789\
        Content-Length: 8\r\n\
        \r\n\
        abcdefgh\
        Content-Length: 7\r\n\
        \r\n\
        A\r\n\
        B\r\n\
        C",
    );
    assert_eq!(
        raw_messages(&mut input),
        vec![
            Ok(b"01234567890123456789".to_vec()),
            Ok(b"abcdefgh".to_vec()),
            Ok(b"A\r\nB\r\nC".to_vec()),
        ]
    );
}

#[test]
fn unsupported_headers() {
    let mut input = reader(
        "Content-Length: 3\r\n\
        User-agent: teapot\r\n\
        \r\n\
        foo\
        Another-Dummy-Header: dummy\r\n\
        Content-Length: 4\r\n\
        \r\n\
        asdf",
    );
    assert_eq!(raw_messages(&mut input), vec![Ok(b"foo".to_vec()), Ok(b"asdf".to_vec())]);
}

#[test]
fn unexpected_eof() {
    let mut input = reader("Content-Length: 56\r\n\r\nFoo");
    let actual = raw_messages(&mut input);
    assert!(matches!(&actual[0], Err(ProtocolError::IoError(IoErrorKind::UnexpectedEof))));
}

#[test]
fn no_content_length_header() {
    let mut input = reader("Foo: bar\r\n\r\n");
    let actual = raw_messages(&mut input);
    assert_eq!(actual.len(), 1);
    assert!(matches!(&actual[0], Err(ProtocolError::NoContentLengthHeader)));

    let mut input = reader("\r\n"); // No headers at all
    let actual = raw_messages(&mut input);
    assert_eq!(actual.len(), 1);
    assert!(matches!(&actual[0], Err(ProtocolError::NoContentLengthHeader)));
}

#[test]
fn connection_reset_while_reading_headers() {
    let mut input = ByteReader::new(
        b"Content-Len".to_vec(),
        StreamEnd::Error(IoErrorKind::ConnectionReset),
    );
    let actual = raw_messages(&mut input);
    assert!(matches!(&actual[0], Err(ProtocolError::IoError(IoErrorKind::ConnectionReset))));
}

#[test]
fn connection_reset_while_reading_body() {
    let mut input = ByteReader::new(
        b"Content-Length: 10\r\n\r\nFoo".to_vec(),
        StreamEnd::Error(IoErrorKind::ConnectionReset),
    );
    let actual = raw_messages(&mut input);
    assert!(matches!(&actual[0], Err(ProtocolError::IoError(IoErrorKind::ConnectionReset))));
}

#[test]
fn content_length_not_a_number() {
    let mut input = reader("Content-Length: dummy\r\n\r\n");
    assert!(matches!(&raw_messages(&mut input)[0], Err(ProtocolError::HeaderParseError(_))));
}

#[test]
fn content_length_negative() {
    let mut input = reader("Content-Length: -123\r\n\r\n");
    assert!(matches!(&raw_messages(&mut input)[0], Err(ProtocolError::HeaderParseError(_))));
}

#[test]
fn content_length_empty() {
    let mut input = reader("Content-Length: \r\n\r\n");
    assert!(matches!(&raw_messages(&mut input)[0], Err(ProtocolError::HeaderParseError(_))));
}

#[test]
fn headers_give_the_length() {
    let mut input = reader("Content-Length:+12\nX: y\n\nrest");
    assert_eq!(read_headers(&mut input), Ok(Some(12)));
    let mut input = reader("");
    assert_eq!(read_headers(&mut input), Ok(None));
}

#[test]
fn sends_messages() {
    let raw_message = "foo".as_bytes().to_owned();
    let mut output = ByteWriter::new();
    send_raw_message(raw_message, &mut output).unwrap();

    assert_eq!(output.written(), "Content-Length: 3\r\n\r\nfoo".as_bytes());
}

#[test]
fn error_when_sending_headers() {
    let mut output = ByteWriter::failing_after(0, IoErrorKind::ConnectionReset);
    let result = send_raw_message(vec![1, 2, 3], &mut output);

    assert!(matches!(
        result,
        Err(ProtocolError::IoError(IoErrorKind::ConnectionReset))
    ));
}

#[test]
fn error_when_sending_message_body() {
    // The connection breaks as soon as the header is through.
    let header = "Content-Length: 3\r\n\r\n".as_bytes();
    let mut output = ByteWriter::failing_after(header.len(), IoErrorKind::ConnectionReset);
    let result = send_raw_message(vec![0xFF, 2, 3], &mut output);

    assert!(matches!(
        result,
        Err(ProtocolError::IoError(IoErrorKind::ConnectionReset))
    ));
    assert_eq!(output.written(), header);
}

#[test]
fn sending_stops_where_the_connection_breaks() {
    let mut output = ByteWriter::failing_after(20, IoErrorKind::BrokenPipe);
    let result = send_raw_message(vec![7, 8], &mut output);

    assert_eq!(result, Err(ProtocolError::IoError(IoErrorKind::BrokenPipe)));
    assert_eq!(output.written(), "Content-Length: 2\r\n\r".as_bytes());
    assert_eq!(
        send_raw_message(vec![], &mut output),
        Err(ProtocolError::IoError(IoErrorKind::BrokenPipe))
    );
}

#[test]
fn sending_fits_exactly() {
    let mut output = ByteWriter::failing_after(22, IoErrorKind::BrokenPipe);
    assert_eq!(send_raw_message(vec![9], &mut output), Ok(()));
    assert_eq!(output.written(), "Content-Length: 1\r\n\r\n\x09".as_bytes());
}

#[test]
fn sent_messages_read_back() {
    let mut output = ByteWriter::new();
    send_raw_message(b"first".to_vec(), &mut output).unwrap();
    send_raw_message(vec![0u8; 1234], &mut output).unwrap();
    send_raw_message(vec![], &mut output).unwrap();
    let mut input = ByteReader::from_bytes(output.written());
    assert_eq!(
        raw_messages(&mut input),
        vec![Ok(b"first".to_vec()), Ok(vec![0u8; 1234]), Ok(vec![])]
    );
}

fn debugged_cpu_with_program(program: &[u8]) -> Cpu<SimpleRam> {
    let mut cpu = Cpu::new(Box::new(SimpleRam::with_test_program(program)));
    cpu.reset();
    cpu.ticks(8).unwrap();
    cpu
}

fn disassembled(address: &str, instruction_bytes: &str, instruction: &str) -> DisassembledInstruction {
    DisassembledInstruction {
        address: address.to_string(),
        instruction_bytes: instruction_bytes.to_string(),
        instruction: instruction.to_string(),
    }
}

#[test]
fn seek_at_origin() {
    let cpu = debugged_cpu_with_program(&[]);
    assert_eq!(seek_instruction(&cpu, 0x483A, 0), 0x483A);
    assert_eq!(seek_instruction(&cpu, 0xA384, 0), 0xA384);
}

#[test]
fn seek_forward() {
    // inx; lda #$2B; sta $1234
    let cpu = debugged_cpu_with_program(&[0xE8, 0xA9, 0x2B, 0x8D, 0x34, 0x12]);
    assert_eq!(seek_instruction(&cpu, 0xF000, 1), 0xF001);
    assert_eq!(seek_instruction(&cpu, 0xF000, 2), 0xF003);
    assert_eq!(seek_instruction(&cpu, 0xF000, 3), 0xF006);
}

#[test]
fn seek_forward_unknown_instruction() {
    // lda #111; (unknown); lda #222; (unknown)
    let cpu = debugged_cpu_with_program(&[0xA9, 111, 0x02, 0xA9, 222, 0x02]);
    assert_eq!(seek_instruction(&cpu, 0xF000, 2), 0xF003);
    assert_eq!(seek_instruction(&cpu, 0xF000, 4), 0xF006);
}

#[test]
fn seek_backward() {
    let cpu = debugged_cpu_with_program(&[0xE8, 0xA9, 0x2B, 0x8D, 0x34, 0x12]);
    assert_eq!(seek_instruction(&cpu, 0xF006, -1), 0xF003);
    assert_eq!(seek_instruction(&cpu, 0xF006, -2), 0xF001);
    assert_eq!(seek_instruction(&cpu, 0xF006, -3), 0xF000);
}

#[test]
fn seek_backward_ambiguous() {
    // inx; lda $EA; lda $EA; lda $EAEA (0xEA == NOP)
    let cpu = debugged_cpu_with_program(&[0xE8, 0xA5, 0xEA, 0xA5, 0xEA, 0xAD, 0xEA, 0xEA]);
    // Interpret 1 instruction as NOP
    assert_eq!(seek_instruction(&cpu, 0xF005, -1), 0xF004);
    // Interpret 2 instructions as NOP, LDA $EA
    assert_eq!(seek_instruction(&cpu, 0xF005, -2), 0xF002);
    // Interpret 3 instructions as INX, LDA $EA, LDA $EA
    assert_eq!(seek_instruction(&cpu, 0xF005, -3), 0xF000);
    // Interpret 3 instructions as NOP, LDA $EA, LDA $EAEA
    assert_eq!(seek_instruction(&cpu, 0xF008, -3), 0xF002);
}

#[test]
fn seek_backward_unknown_instruction() {
    // nop; (unknown 0x2B); stx $2B2B
    let cpu = debugged_cpu_with_program(&[0xEA, 0x2B, 0x8E, 0x2B, 0x2B]);
    // 0xF001 is preferred to 0xF003, since it has 1 unknown instruction less.
    assert_eq!(seek_instruction(&cpu, 0xF005, -2), 0xF001);
}

#[test]
fn seek_backward_impossible_1() {
    // nop; stx $2B: there's no way to land on 0xF003, so the stx instruction
    // is taken as data.
    let cpu = debugged_cpu_with_program(&[0xEA, 0x86, 0x2B]);
    assert_eq!(seek_instruction(&cpu, 0xF002, -2), 0xF000);
}

#[test]
fn seek_backward_impossible_2() {
    let cpu = debugged_cpu_with_program(&[0xEA, 0x8E, 0x2B, 0x2B]);
    assert_eq!(seek_instruction(&cpu, 0xF003, -3), 0xF000);
}

#[test]
fn seek_backward_with_wrapping() {
    let mut cpu = debugged_cpu_with_program(&[]);
    cpu.memory().bytes[0xFFFF] = 0xEA;
    assert_eq!(seek_instruction(&cpu, 0x0000, -1), 0xFFFF);

    let mut cpu = debugged_cpu_with_program(&[]);
    // LDA $12
    cpu.memory().bytes[0xFFFF] = 0xA5;
    cpu.memory().bytes[0x0000] = 0x12;
    assert_eq!(seek_instruction(&cpu, 0x0001, -1), 0xFFFF);
}

#[test]
fn disassemble_no_offset() {
    // lda $45; loop: ldx #4; sta $BEEF,x; dex; bne loop
    let cpu = debugged_cpu_with_program(&[0xA5, 0x45, 0xA2, 0x04, 0x9D, 0xEF, 0xBE, 0xCA, 0xD0, 0xF8]);
    assert_eq!(disassemble(&cpu, 0xF000, 0xF000, 0, 0), vec![]);
    assert_eq!(
        disassemble(&cpu, 0xF000, 0xF000, 0, 5),
        vec![
            disassembled("0xF000", "A5 45", "LDA $45"),
            disassembled("0xF002", "A2 04", "LDX #$04"),
            disassembled("0xF004", "9D EF BE", "STA $BEEF,X"),
            disassembled("0xF007", "CA", "DEX"),
            disassembled("0xF008", "D0 F8", "BNE -8"),
        ]
    );
    assert_eq!(
        disassemble(&cpu, 0xF002, 0xF002, 0, 2),
        vec![
            disassembled("0xF002", "A2 04", "LDX #$04"),
            disassembled("0xF004", "9D EF BE", "STA $BEEF,X"),
        ]
    );
}

#[test]
fn disassemble_unknown_instruction() {
    let cpu = debugged_cpu_with_program(&[0xEA, 0x67, 0xEA]);
    assert_eq!(
        disassemble(&cpu, 0xF000, 0xF000, 0, 3),
        vec![
            disassembled("0xF000", "EA", "NOP"),
            disassembled("0xF001", "67", ""),
            disassembled("0xF002", "EA", "NOP"),
        ]
    );
}

#[test]
fn disassemble_with_offset() {
    // lda $45; sta $EA; sta $AE
    let cpu = debugged_cpu_with_program(&[0xA5, 0x45, 0x85, 0xEA, 0x85, 0xAE]);
    assert_eq!(
        disassemble(&cpu, 0xF002, 0xF000, 0, 3),
        vec![
            disassembled("0xF000", "A5 45", "LDA $45"),
            disassembled("0xF002", "85 EA", "STA $EA"),
            disassembled("0xF004", "85 AE", "STA $AE"),
        ]
    );
    assert_eq!(
        disassemble(&cpu, 0xF003, 0xF000, 0, 4),
        vec![
            disassembled("0xF000", "A5 45", "LDA $45"),
            disassembled("0xF002", "85", ""),
            disassembled("0xF003", "EA", "NOP"),
            disassembled("0xF004", "85 AE", "STA $AE"),
        ]
    );
}

#[test]
fn disassemble_with_margin() {
    // ldx $45; inx; stx $46
    let cpu = debugged_cpu_with_program(&[0xA6, 0x45, 0xE8, 0x86, 0x46]);
    assert_eq!(
        disassemble(&cpu, 0xF003, 0xF000, 1, 2),
        vec![disassembled("0xF002", "E8", "INX"), disassembled("0xF003", "86 46", "STX $46")]
    );
}

#[test]
fn disassemble_addressing_modes() {
    let cpu = debugged_cpu_with_program(&[
        0x0A, 0x6C, 0x34, 0x12, 0xB6, 0x10, 0xA1, 0x20, 0xB1, 0x30, 0xB9, 0x00, 0x40, 0x00,
    ]);
    assert_eq!(
        disassemble(&cpu, 0xF000, 0xF000, 0, 7),
        vec![
            disassembled("0xF000", "0A", "ASL A"),
            disassembled("0xF001", "6C 34 12", "JMP ($1234)"),
            disassembled("0xF004", "B6 10", "LDX $10,Y"),
            disassembled("0xF006", "A1 20", "LDA ($20,X)"),
            disassembled("0xF008", "B1 30", "LDA ($30),Y"),
            disassembled("0xF00A", "B9 00 40", "LDA $4000,Y"),
            disassembled("0xF00D", "00", "BRK"),
        ]
    );
}

#[test]
fn disassemble_jumping_through_origin_with_address_wrapping() {
    let mut cpu = debugged_cpu_with_program(&[]);
    // STA $EA
    cpu.memory().bytes[0xFFFE] = 0x85;
    cpu.memory().bytes[0xFFFF] = 0xEA;
    assert_eq!(disassemble(&cpu, 0xFFFF, 0xFFFE, 0, 1), vec![disassembled("0xFFFE", "85", "")]);

    let mut cpu = debugged_cpu_with_program(&[]);
    cpu.memory().bytes[0xFFFF] = 0x85;
    cpu.memory().bytes[0x0000] = 0xEA;
    assert_eq!(disassemble(&cpu, 0x0000, 0xFFFF, 0, 1), vec![disassembled("0xFFFF", "85", "")]);
}

fn tick_while_running(dc: &mut DebuggerCore, cpu: &mut Cpu<SimpleRam>) {
    // Limit to 1000 ticks; the tests don't run for that long, and this way
    // infinite loops are avoided.
    for _ in 0..1000 {
        if dc.stopped() {
            return;
        }
        cpu.tick().unwrap();
        dc.update(cpu);
    }
    panic!("CPU still running at PC={:04X}", cpu.reg_pc());
}

#[test]
fn runs_and_pauses() {
    let mut cpu = debugged_cpu_with_program(&[opcodes::INX, opcodes::INX]);
    let mut dc = DebuggerCore::new();
    dc.update(&cpu);
    assert!(dc.stopped());

    dc.resume();
    assert!(!dc.stopped());
    for _ in 0..4 {
        cpu.tick().unwrap();
        dc.update(&cpu);
        assert!(!dc.stopped());
    }
    dc.pause();
    assert!(dc.stopped());
}

#[test]
fn last_stop_reason() {
    let mut dc = DebuggerCore::new();
    assert_eq!(dc.last_stop_reason(), None);
    assert_eq!(dc.last_stop_reason(), None);

    dc.resume();
    assert_eq!(dc.last_stop_reason(), None);
    assert_eq!(dc.last_stop_reason(), None);

    dc.pause();
    assert_eq!(dc.last_stop_reason(), Some(StopReason::Pause));
    assert_eq!(dc.last_stop_reason(), None);

    dc.pause();
    dc.resume();
    assert_eq!(dc.last_stop_reason(), None);

    dc.pause();
    dc.step_into();
    assert_eq!(dc.last_stop_reason(), None);
}

/// lda #1; sta 1; jsr subroutine; loop: inx; jmp loop; subroutine: inx; rts
fn program_with_subroutine() -> Vec<u8> {
    vec![
        opcodes::LDA_IMM,
        1,
        opcodes::STA_ZP,
        1,
        opcodes::JSR,
        0x0B,
        0xF0,
        opcodes::INX,
        opcodes::JMP_ABS,
        0x07,
        0xF0,
        opcodes::INX,
        opcodes::RTS,
    ]
}

#[test]
fn step_into() {
    let mut cpu = debugged_cpu_with_program(&program_with_subroutine());
    let mut dc = DebuggerCore::new();
    dc.update(&cpu);
    assert_eq!(cpu.reg_pc(), 0xF000);

    dc.step_into();
    assert!(!dc.stopped());
    assert_eq!(dc.last_stop_reason(), None);

    tick_while_running(&mut dc, &mut cpu);
    assert_eq!(cpu.reg_pc(), 0xF002);
    assert_eq!(dc.last_stop_reason(), Some(StopReason::Step));

    dc.step_into();
    tick_while_running(&mut dc, &mut cpu);
    assert_eq!(cpu.reg_pc(), 0xF004);

    dc.step_into();
    tick_while_running(&mut dc, &mut cpu);
    assert_eq!(cpu.reg_pc(), 0xF00B);

    dc.step_into();
    tick_while_running(&mut dc, &mut cpu);
    assert_eq!(cpu.reg_pc(), 0xF00C);

    dc.step_into();
    tick_while_running(&mut dc, &mut cpu);
    assert_eq!(cpu.reg_pc(), 0xF007);
}

#[test]
fn step_over() {
    let mut cpu = debugged_cpu_with_program(&program_with_subroutine());
    let mut dc = DebuggerCore::new();
    dc.update(&cpu);

    dc.step_over(&cpu);
    tick_while_running(&mut dc, &mut cpu);
    assert_eq!(cpu.reg_pc(), 0xF002);
    assert_eq!(dc.last_stop_reason(), Some(StopReason::Step));

    dc.step_over(&cpu);
    tick_while_running(&mut dc, &mut cpu);
    assert_eq!(cpu.reg_pc(), 0xF004);

    dc.step_over(&cpu);
    tick_while_running(&mut dc, &mut cpu);
    assert_eq!(cpu.reg_pc(), 0xF007);
}

#[test]
fn step_out() {
    // jsr subroutine; loop: jmp loop; subroutine: inx; inx; rts
    let mut cpu = debugged_cpu_with_program(&[
        opcodes::JSR,
        0x06,
        0xF0,
        opcodes::JMP_ABS,
        0x03,
        0xF0,
        opcodes::INX,
        opcodes::INX,
        opcodes::RTS,
    ]);
    let mut dc = DebuggerCore::new();
    dc.update(&cpu);
    dc.step_into();
    tick_while_running(&mut dc, &mut cpu);
    assert_eq!(cpu.reg_pc(), 0xF006);

    dc.step_out();
    tick_while_running(&mut dc, &mut cpu);
    assert_eq!(cpu.reg_pc(), 0xF003);
}

#[test]
fn instruction_breakpoints() {
    // inx; inx; inx; inx; loop: jmp loop
    let mut cpu = debugged_cpu_with_program(&[
        opcodes::INX,
        opcodes::INX,
        opcodes::INX,
        opcodes::INX,
        opcodes::JMP_ABS,
        0x04,
        0xF0,
    ]);
    let mut dc = DebuggerCore::new();
    dc.update(&cpu);
    dc.set_instruction_breakpoints(vec![0xF002]);
    dc.resume();

    tick_while_running(&mut dc, &mut cpu);
    assert_eq!(cpu.reg_pc(), 0xF002);
    assert_eq!(dc.last_stop_reason(), Some(StopReason::Breakpoint));
}

#[test]
fn stack_frames_only_top() {
    // inx; inx; jsr sub1; loop: jmp loop; sub1: jsr sub2; rts; sub2: rts
    let mut cpu = debugged_cpu_with_program(&[
        opcodes::INX,
        opcodes::INX,
        opcodes::JSR,
        0x08,
        0xF0,
        opcodes::JMP_ABS,
        0x05,
        0xF0,
        opcodes::JSR,
        0x0C,
        0xF0,
        opcodes::RTS,
        opcodes::RTS,
    ]);
    let mut dc = DebuggerCore::new();
    dc.update(&cpu);
    assert_eq!(dc.stack_trace(&cpu), vec![StackFrame { entry: 0xF000, pc: 0xF000 }]);

    dc.step_into();
    tick_while_running(&mut dc, &mut cpu);
    assert_eq!(dc.stack_trace(&cpu), vec![StackFrame { entry: 0xF000, pc: 0xF001 }]);

    dc.step_into();
    tick_while_running(&mut dc, &mut cpu);
    assert_eq!(dc.stack_trace(&cpu), vec![StackFrame { entry: 0xF000, pc: 0xF002 }]);

    dc.step_into();
    tick_while_running(&mut dc, &mut cpu);
    assert_eq!(
        dc.stack_trace(&cpu),
        vec![StackFrame { entry: 0xF008, pc: 0xF008 }, StackFrame { entry: 0xF000, pc: 0xF002 }]
    );
}

fn request(debugger: &mut Debugger, cpu: &Cpu<SimpleRam>, seq: i64, request: Request) -> Vec<MessageEnvelope> {
    debugger
        .process_message(MessageEnvelope { seq, message: Message::Request(request) }, cpu)
        .messages
}

fn response_of(messages: &[MessageEnvelope]) -> &Response {
    match &messages[0].message {
        Message::Response(envelope) => &envelope.response,
        _ => panic!("not a response"),
    }
}

#[test]
fn debugger_answers_requests() {
    let cpu = debugged_cpu_with_program(&[opcodes::LDA_IMM, 0xBE, opcodes::INX]);
    let mut debugger = Debugger::new();
    debugger.update(&cpu);

    let messages = request(&mut debugger, &cpu, 1, Request::Attach {});
    assert_eq!(messages.len(), 2);
    assert_eq!(messages[0].seq, 1);
    assert_eq!(
        messages[1],
        MessageEnvelope {
            seq: 2,
            message: Message::Event(Event::Stopped(StoppedEvent {
                reason: StopReason::Entry,
                thread_id: 1,
                all_threads_stopped: true,
            })),
        }
    );

    let messages = request(
        &mut debugger,
        &cpu,
        2,
        Request::SetInstructionBreakpoints(SetInstructionBreakpointsArguments {
            breakpoints: vec![
                InstructionBreakpoint { instruction_reference: "0xAB12".to_string(), offset: None },
                InstructionBreakpoint {
                    instruction_reference: "0x12AB".to_string(),
                    offset: Some(-12),
                },
            ],
        }),
    );
    match response_of(&messages) {
        Response::SetInstructionBreakpoints(r) => {
            assert_eq!(r.breakpoints.len(), 2);
            assert_eq!(r.breakpoints[0].instruction_reference, "0xAB12");
            assert_eq!(r.breakpoints[1].instruction_reference, "0x129F");
        }
        other => panic!("unexpected response {:?}", other),
    }

    let messages = request(&mut debugger, &cpu, 3, Request::Variables(VariablesArguments { variables_reference: 1 }));
    match response_of(&messages) {
        Response::Variables(v) => {
            assert_eq!(v.variables.len(), 6);
            assert_eq!(v.variables[4].name, "PC");
            assert_eq!(v.variables[4].value, "$F000");
        }
        other => panic!("unexpected response {:?}", other),
    }

    let messages = request(&mut debugger, &cpu, 4, Request::Scopes(ScopesArguments { frame_id: 1 }));
    match response_of(&messages) {
        Response::Scopes(s) => {
            assert_eq!(s.scopes.len(), 1);
            assert_eq!(s.scopes[0].name, "Registers");
        }
        other => panic!("unexpected response {:?}", other),
    }

    let messages = request(
        &mut debugger,
        &cpu,
        5,
        Request::ReadMemory(ReadMemoryArguments {
            memory_reference: "0xF000".to_string(),
            offset: Some(0),
            count: 3,
        }),
    );
    match response_of(&messages) {
        Response::ReadMemory(m) => {
            assert_eq!(m.address, "0xF000");
            assert_eq!(m.data, "qb7o");
        }
        other => panic!("unexpected response {:?}", other),
    }

    let messages = request(
        &mut debugger,
        &cpu,
        6,
        Request::Disassemble(DisassembleArguments {
            memory_reference: "0xF000".to_string(),
            offset: None,
            instruction_offset: Some(0),
            instruction_count: 2,
        }),
    );
    match response_of(&messages) {
        Response::Disassemble(d) => {
            assert_eq!(d.instructions.len(), 2);
            assert_eq!(d.instructions[0].instruction, "LDA #$BE");
            assert_eq!(d.instructions[1].instruction, "INX");
        }
        other => panic!("unexpected response {:?}", other),
    }

    let outcome = debugger.process_message(
        MessageEnvelope { seq: 7, message: Message::Request(Request::Disconnect(None)) },
        &cpu,
    );
    assert!(outcome.disconnect);
    assert_eq!(*response_of(&outcome.messages), Response::Disconnect);
    assert!(!debugger.stopped());
}

#[test]
fn memory_stream_reading_bytes() {
    let cpu = debugged_cpu_with_program(&[0x54, 0x45]);
    let mut ms = MemoryStream::new(&cpu, 0xF000);
    assert_eq!(ms.read_byte(), 0x54);
    assert_eq!(ms.read_byte(), 0x45);
}

#[test]
fn memory_stream_reading_words() {
    let cpu = debugged_cpu_with_program(&[0x6A, 0xC9, 0x12, 0x67]);
    let mut ms = MemoryStream::new(&cpu, 0xF000);
    assert_eq!(ms.read_word(), 0xC96A);
    assert_eq!(ms.read_word(), 0x6712);
}

#[test]
fn memory_stream_address_wrapping() {
    let mut cpu = debugged_cpu_with_program(&[]);
    cpu.memory().bytes[0xFFFE..=0xFFFF].copy_from_slice(&[0x01, 0x02]);
    cpu.memory().bytes[0x0000..=0x0002].copy_from_slice(&[0x03, 0x04, 0x05]);

    let mut ms = MemoryStream::new(&cpu, 0xFFFF);
    assert_eq!(ms.read_byte(), 0x02);
    assert_eq!(ms.read_byte(), 0x03);

    let mut ms = MemoryStream::new(&cpu, 0xFFFE);
    assert_eq!(ms.read_word(), 0x0201);
    assert_eq!(ms.read_word(), 0x0403);

    let mut ms = MemoryStream::new(&cpu, 0xFFFF);
    assert_eq!(ms.read_word(), 0x0302);
    assert_eq!(ms.read_word(), 0x0504);
}

#[test]
fn step_over_multiple() {
    let mut cpu = debugged_cpu_with_program(&[
        0x20, 0x09, 0xF0, // 0xF000: jsr subroutine
        0x20, 0x09, 0xF0, // 0xF003: jsr subroutine
        0x4C, 0x06, 0xF0, // 0xF006: loop: jmp loop
        0x60, // 0xF009: subroutine: rts
    ]);
    let mut dc = DebuggerCore::new();
    dc.update(&cpu);

    dc.step_over(&cpu);
    tick_while_running(&mut dc, &mut cpu);
    assert_eq!(cpu.reg_pc(), 0xF003);
    dc.step_over(&cpu);
    tick_while_running(&mut dc, &mut cpu);
    assert_eq!(cpu.reg_pc(), 0xF006);
}

#[test]
fn step_over_recursive() {
    let mut cpu = debugged_cpu_with_program(&[
        0xA2, 0x06, // 0xF000: ldx #6
        0xA0, 0x00, // 0xF002: ldy #0
        0x20, 0x0A, 0xF0, // 0xF004: jsr subroutine
        0x4C, 0x07, 0xF0, // 0xF007: loop: jmp loop
        0xCA, // 0xF00A: subroutine: dex
        0xF0, 0x03, // 0xF00B: beq skip
        0x20, 0x0A, 0xF0, // 0xF00D: jsr subroutine
        0xC8, // 0xF010: skip: iny
        0x60, // 0xF011: rts
    ]);
    let mut dc = DebuggerCore::new();
    dc.update(&cpu);

    dc.step_over(&cpu);
    tick_while_running(&mut dc, &mut cpu);
    dc.step_over(&cpu);
    tick_while_running(&mut dc, &mut cpu);
    dc.step_into();
    tick_while_running(&mut dc, &mut cpu);
    assert_eq!(cpu.reg_pc(), 0xF00A);
    dc.step_over(&cpu);
    tick_while_running(&mut dc, &mut cpu);
    dc.step_over(&cpu);
    tick_while_running(&mut dc, &mut cpu);
    dc.step_over(&cpu);
    tick_while_running(&mut dc, &mut cpu);
    assert_eq!(cpu.reg_pc(), 0xF010);
    assert_eq!(cpu.reg_y(), 5);
}

#[test]
fn step_out_with_stack_operations() {
    let mut cpu = debugged_cpu_with_program(&[
        0x20, 0x06, 0xF0, // 0xF000: jsr subroutine
        0x4C, 0x03, 0xF0, // 0xF003: loop: jmp loop
        0x48, // 0xF006: subroutine: pha
        0x68, // 0xF007: pla
        0x60, // 0xF008: rts
    ]);
    let mut dc = DebuggerCore::new();
    dc.update(&cpu);

    dc.step_into();
    tick_while_running(&mut dc, &mut cpu);
    dc.step_into();
    tick_while_running(&mut dc, &mut cpu);
    assert_eq!(cpu.reg_pc(), 0xF007);
    dc.step_out();
    tick_while_running(&mut dc, &mut cpu);
    assert_eq!(cpu.reg_pc(), 0xF003);
}
