use steampunk::address_space::{map_address, AddressSpace, MemoryArea};
use steampunk::atari::{Joystick, JoystickInput, Switch as AtariSwitch, SwitchPosition as AtariPosition};
use steampunk::cpu::bcd::{bcd_add, bcd_sub};
use steampunk::cpu::opcodes;
use steampunk::cpu::{flags_to_string, Cpu, MachineInspector};
use steampunk::delay_buffer::DelayBuffer;
use steampunk::memory::{Memory, SimpleRam};
use steampunk::riot::registers;
use steampunk::riot::{Riot, Switch, SwitchPosition};
use steampunk::test_utils::decode_video_outputs;
use steampunk::tia::{Port as TiaPort, Tia, VideoOutput};

#[test]
fn adding() {
    assert_eq!(bcd_add(0, 0, false), (0, false));
    assert_eq!(bcd_add(2, 2, false), (4, false));
    assert_eq!(bcd_add(3, 4, true), (8, false));
    assert_eq!(bcd_add(0x07, 0x09, false), (0x16, false));
    assert_eq!(bcd_add(0x07, 0x02, true), (0x10, false));
    assert_eq!(bcd_add(0x12, 0x46, false), (0x58, false));
    assert_eq!(bcd_add(0x54, 0x28, false), (0x82, false));
    assert_eq!(bcd_add(0x78, 0x61, false), (0x39, true));
    assert_eq!(bcd_add(0x67, 0x86, false), (0x53, true));
    assert_eq!(bcd_add(0x99, 0x99, true), (0x99, true));
}

#[test]
fn subtracting() {
    assert_eq!(bcd_sub(0, 0, false), (0, false));
    assert_eq!(bcd_sub(5, 2, false), (3, false));
    assert_eq!(bcd_sub(9, 3, true), (5, false));
    assert_eq!(bcd_sub(0x57, 0x08, false), (0x49, false));
    assert_eq!(bcd_sub(0x12, 0x02, true), (0x09, false));
    assert_eq!(bcd_sub(0x75, 0x41, false), (0x34, false));
    assert_eq!(bcd_sub(0x54, 0x26, false), (0x28, false));
    assert_eq!(bcd_sub(0x27, 0x82, false), (0x45, true));
    assert_eq!(bcd_sub(0x13, 0x97, false), (0x16, true));
    assert_eq!(bcd_sub(0x42, 0x84, true), (0x57, true));
}

#[test]
fn bcd_add_then_sub_gives_back() {
    let (sum, carry) = bcd_add(0x38, 0x45, false);
    assert_eq!((sum, carry), (0x83, false));
    assert_eq!(bcd_sub(sum, 0x45, false), (0x38, false));
}

#[test]
fn shift() {
    let mut buffer: DelayBuffer<i32> = DelayBuffer::new(3);
    buffer.shift(4);
    buffer.shift(5);
    buffer.shift(6);
    assert_eq!(buffer.shift(7), 4);
    assert_eq!(buffer.shift(8), 5);
    assert_eq!(buffer.shift(9), 6);
    assert_eq!(buffer.shift(10), 7);
    assert_eq!(buffer.shift(11), 8);
}

#[test]
fn peek() {
    let mut buffer: DelayBuffer<i32> = DelayBuffer::new(2);
    buffer.shift(4);
    buffer.shift(5);
    assert_eq!(*buffer.peek(), 4);

    buffer.shift(6);
    assert_eq!(*buffer.peek(), 5);
}

#[test]
fn zero_delay() {
    let mut buffer: DelayBuffer<i32> = DelayBuffer::new(0);
    assert_eq!(buffer.shift(3), 3);
    assert_eq!(buffer.shift(8), 8);
    assert_eq!(*buffer.peek(), 8);
}

#[test]
fn delay_buffer_starts_with_defaults() {
    let mut buffer: DelayBuffer<i32> = DelayBuffer::new(2);
    assert_eq!(*buffer.peek(), 0);
    assert_eq!(buffer.shift(1), 0);
    assert_eq!(buffer.shift(2), 0);
    assert_eq!(buffer.shift(3), 1);
}

#[test]
fn creating_empty_simple_ram() {
    let ram = SimpleRam::with_test_program(&[]);
    assert_eq!(ram.bytes[..0xFFFC], [0u8; 0xFFFC][..]);
}

#[test]
fn simple_ram_with_test_program() {
    let ram = SimpleRam::with_test_program(&[10, 56, 72, 255]);
    // Bytes until 0xF000 (exclusively) are zeroed.
    assert_eq!(ram.bytes[..0xF000], [0u8; 0xF000][..]);
    // Next, there is the program.
    assert_eq!(ram.bytes[0xF000..0xF004], [10, 56, 72, 255][..]);
    // The rest, until 0xFFFC, is also zeroed.
    assert_eq!(ram.bytes[0xF004..0xFFFC], [0u8; 0xFFFC - 0xF004][..]);
}

#[test]
fn simple_ram_with_test_program_sets_reset_address() {
    let ram = SimpleRam::with_test_program(&[0xFF; 0x1000]);
    assert_eq!(ram.bytes[0xFFFC..0xFFFE], [0x00, 0xF0]); // 0xF000
}

#[test]
fn simple_ram_reads_back_writes() {
    let mut ram = SimpleRam::new();
    ram.write(0x1234, 0x56).unwrap();
    assert_eq!(ram.read(0x1234).unwrap(), 0x56);
    assert_eq!(ram.raw_read(0x1233, 0x1235), &[0x00, 0x56][..]);
    let ram = SimpleRam::initialized_with(0xAB);
    assert_eq!(ram.read(0x4321).unwrap(), 0xAB);
}

fn cpu_with_program(program: &[u8]) -> Cpu<SimpleRam> {
    let mut cpu = Cpu::new(Box::new(SimpleRam::with_test_program(program)));
    cpu.reset();
    cpu.ticks(8).unwrap();
    cpu
}

#[test]
fn reset_loads_the_reset_vector() {
    let cpu = cpu_with_program(&[opcodes::LDA_IMM, 0x42]);
    assert_eq!(cpu.reg_pc(), 0xF000);
    assert!(cpu.at_instruction_start());
}

#[test]
fn loads_and_transfers_registers() {
    let mut cpu = cpu_with_program(&[opcodes::LDA_IMM, 0x42, opcodes::TAX, opcodes::LDY_IMM, 0x07]);
    cpu.ticks(2).unwrap();
    assert_eq!(cpu.reg_a(), 0x42);
    cpu.ticks(2).unwrap();
    assert_eq!(cpu.reg_x(), 0x42);
    cpu.ticks(2).unwrap();
    assert_eq!(cpu.reg_y(), 0x07);
    assert_eq!(cpu.reg_pc(), 0xF005);
}

#[test]
fn stores_to_memory() {
    let mut cpu = cpu_with_program(&[opcodes::LDA_IMM, 0x99, opcodes::STA_ZP, 0x10]);
    cpu.ticks(5).unwrap();
    assert_eq!(cpu.inspect_memory(0x0010), 0x99);
    assert_eq!(cpu.memory().read(0x0010).unwrap(), 0x99);
}

#[test]
fn adds_the_carry_in() {
    let mut cpu =
        cpu_with_program(&[opcodes::SEC, opcodes::LDA_IMM, 0x19, opcodes::ADC_IMM, 0x03]);
    cpu.ticks(6).unwrap();
    assert_eq!(cpu.reg_a(), 0x1D);
}

#[test]
fn calls_and_returns() {
    let mut cpu = cpu_with_program(&[
        opcodes::JSR,
        0x06,
        0xF0,
        opcodes::LDX_IMM,
        0x01,
        0x00,
        opcodes::RTS,
    ]);
    cpu.ticks(6).unwrap();
    assert_eq!(cpu.reg_pc(), 0xF006);
    cpu.ticks(6).unwrap();
    assert_eq!(cpu.reg_pc(), 0xF003);
    cpu.ticks(2).unwrap();
    assert_eq!(cpu.reg_x(), 0x01);
}

#[test]
fn unknown_opcode_fails() {
    let mut cpu = cpu_with_program(&[0xFF]);
    assert!(cpu.tick().is_ok());
    assert!(cpu.tick().is_err());
}

#[test]
fn formats_flags() {
    assert_eq!(flags_to_string(0b1010_0101), "*.*..*.*");
    assert_eq!(flags_to_string(0), "........");
}

const UNUSED: u8 = 0b0011_0100;
const ALL_UP: u8 = 0xFF;

#[test]
fn flipping_switches() {
    let mut riot = Riot::new();

    assert_eq!(riot.switch_position(Switch::TvType), SwitchPosition::Up);
    assert_eq!(riot.switch_position(Switch::LeftDifficulty), SwitchPosition::Up);
    assert_eq!(riot.switch_position(Switch::RightDifficulty), SwitchPosition::Up);
    assert_eq!(riot.switch_position(Switch::GameSelect), SwitchPosition::Up);
    assert_eq!(riot.switch_position(Switch::GameReset), SwitchPosition::Up);
    assert_eq!(riot.read(registers::SWCHB).unwrap(), ALL_UP);

    riot.flip_switch(Switch::TvType, SwitchPosition::Down);
    assert_eq!(riot.switch_position(Switch::TvType), SwitchPosition::Down);
    assert_eq!(riot.read(registers::SWCHB).unwrap(), !Switch::TvType.mask());
    riot.flip_switch(Switch::TvType, SwitchPosition::Up);
    assert_eq!(riot.switch_position(Switch::TvType), SwitchPosition::Up);
    assert_eq!(riot.read(registers::SWCHB).unwrap(), ALL_UP);

    riot.flip_switch(Switch::LeftDifficulty, SwitchPosition::Down);
    riot.flip_switch(Switch::RightDifficulty, SwitchPosition::Down);
    riot.flip_switch(Switch::GameSelect, SwitchPosition::Down);
    riot.flip_switch(Switch::GameReset, SwitchPosition::Down);
    assert_eq!(riot.switch_position(Switch::TvType), SwitchPosition::Up);
    assert_eq!(riot.switch_position(Switch::LeftDifficulty), SwitchPosition::Down);
    assert_eq!(riot.switch_position(Switch::RightDifficulty), SwitchPosition::Down);
    assert_eq!(riot.switch_position(Switch::GameSelect), SwitchPosition::Down);
    assert_eq!(riot.switch_position(Switch::GameReset), SwitchPosition::Down);
    assert_eq!(riot.read(registers::SWCHB).unwrap(), UNUSED | Switch::TvType.mask());

    riot.flip_switch(Switch::RightDifficulty, SwitchPosition::Up);
    riot.flip_switch(Switch::GameSelect, SwitchPosition::Up);
    assert_eq!(riot.switch_position(Switch::RightDifficulty), SwitchPosition::Up);
    assert_eq!(riot.switch_position(Switch::GameSelect), SwitchPosition::Up);
    assert_eq!(
        riot.read(registers::SWCHB).unwrap(),
        UNUSED | Switch::TvType.mask() | Switch::RightDifficulty.mask() | Switch::GameSelect.mask(),
    );
}

#[test]
fn old_riot_timer_counts_down() {
    let mut riot = Riot::new();
    riot.write(registers::TIM8T, 0x02).unwrap();
    let mut values = Vec::new();
    for _ in 0..17 {
        riot.tick();
        values.push(riot.read(registers::INTIM).unwrap());
    }
    let mut expected = vec![1u8; 8];
    expected.extend(vec![0u8; 8]);
    expected.push(0xFF);
    assert_eq!(values, expected);
}

#[test]
fn joystick_single_buttons() {
    let mut joystick = Joystick::new();
    assert_eq!(joystick.port_values(), (0b1111, true));
    joystick.set_state(JoystickInput::Up, true);
    assert_eq!(joystick.port_values(), (0b1110, true));
    joystick.set_state(JoystickInput::Up, false);
    joystick.set_state(JoystickInput::Down, true);
    assert_eq!(joystick.port_values(), (0b1101, true));
    joystick.set_state(JoystickInput::Down, false);
    joystick.set_state(JoystickInput::Left, true);
    assert_eq!(joystick.port_values(), (0b1011, true));
    joystick.set_state(JoystickInput::Left, false);
    joystick.set_state(JoystickInput::Right, true);
    assert_eq!(joystick.port_values(), (0b0111, true));
    joystick.set_state(JoystickInput::Right, false);
    assert_eq!(joystick.port_values(), (0b1111, true));
    joystick.set_state(JoystickInput::Fire, true);
    assert_eq!(joystick.port_values(), (0b1111, false));
    joystick.set_state(JoystickInput::Fire, false);
    assert_eq!(joystick.port_values(), (0b1111, true));
}

#[test]
fn joystick_button_combinations() {
    let mut joystick = Joystick::new();
    joystick.set_state(JoystickInput::Up, true);
    joystick.set_state(JoystickInput::Left, true);
    assert_eq!(joystick.port_values(), (0b1010, true));
    joystick.set_state(JoystickInput::Up, false);
    joystick.set_state(JoystickInput::Left, false);
    joystick.set_state(JoystickInput::Right, true);
    joystick.set_state(JoystickInput::Down, true);
    assert_eq!(joystick.port_values(), (0b0101, true));
}

#[test]
fn joystick_forbidden_combinations() {
    let mut joystick = Joystick::new();
    joystick.set_state(JoystickInput::Up, true);
    joystick.set_state(JoystickInput::Left, true);
    joystick.set_state(JoystickInput::Down, true);
    assert_eq!(joystick.port_values(), (0b1001, true));
    joystick.set_state(JoystickInput::Right, true);
    assert_eq!(joystick.port_values(), (0b0101, true));
    joystick.set_state(JoystickInput::Up, true);
    assert_eq!(joystick.port_values(), (0b0110, true));
    joystick.set_state(JoystickInput::Left, true);
    assert_eq!(joystick.port_values(), (0b1010, true));
}

#[test]
fn atari_switch_port_values() {
    assert_eq!(AtariSwitch::TvType.port_value_when(AtariPosition::Up), 0b0000_1000);
    assert_eq!(AtariSwitch::TvType.port_value_when(AtariPosition::Down), 0);
}

fn scan_video(tia: &mut Tia, n: usize) -> Vec<VideoOutput> {
    (0..n).map(|_| tia.tick().video).collect()
}

#[test]
fn old_tia_draws_scanlines() {
    let mut tia = Tia::new();
    tia.write(0x09, 0x02).unwrap(); // COLUBK
    let line = scan_video(&mut tia, 228);
    let mut expected = decode_video_outputs(
        "................||||||||||||||||....................................",
    );
    expected.extend(vec![VideoOutput::pixel(0x02); 160]);
    assert_eq!(line, expected);
}

#[test]
fn old_tia_ticks_cpu_every_three_cycles() {
    let mut tia = Tia::new();
    let ticks: Vec<bool> = (0..6).map(|_| tia.tick().cpu_tick).collect();
    assert_eq!(ticks, vec![true, false, false, true, false, false]);
}

#[test]
fn old_tia_freezes_cpu_until_wsync() {
    let mut tia = Tia::new();
    tia.tick();
    tia.write(0x02, 0).unwrap(); // WSYNC
    for _ in 1..228 {
        assert!(!tia.tick().cpu_tick);
    }
    assert!(tia.tick().cpu_tick);
}

#[test]
fn old_tia_input_ports() {
    let mut tia = Tia::new();
    assert_eq!(tia.read(0x0C).unwrap(), 0x80);
    tia.set_port(TiaPort::Input4, false);
    assert_eq!(tia.read(0x0C).unwrap(), 0x00);
    tia.set_port(TiaPort::Input4, true);
    assert_eq!(tia.read(0x0C).unwrap(), 0x80);
    // With latching on, a low pin keeps the register low.
    tia.write(0x01, 0b0100_0000).unwrap(); // VBLANK
    tia.set_port(TiaPort::Input5, false);
    tia.set_port(TiaPort::Input5, true);
    assert_eq!(tia.read(0x0D).unwrap(), 0x00);
    tia.write(0x01, 0).unwrap();
    assert_eq!(tia.read(0x0D).unwrap(), 0x80);
}

#[test]
fn old_tia_rejects_second_initialization() {
    let mut tia = Tia::new();
    assert!(tia.write(0x2C, 0).is_ok()); // CXCLR
    assert!(tia.write(0x2C, 0).is_err());
    assert!(tia.write(0x04, 1).is_err()); // NUSIZ0 with a value
}

#[test]
fn old_address_space_reads_and_writes() {
    let mut address_space = AddressSpace {
        tia: SimpleRam::new(),
        ram: SimpleRam::new(),
        rom: SimpleRam::new(),
    };
    address_space.write(0, 8).unwrap(); // Start of TIA
    address_space.write(0x7f, 5).unwrap(); // End of TIA
    address_space.write(0x80, 81).unwrap(); // Start of RAM
    address_space.write(0xff, 45).unwrap(); // End of RAM
    address_space.write(0xf000, 15).unwrap(); // Start of ROM
    address_space.write(0xffff, 25).unwrap(); // End of ROM

    assert_eq!(address_space.tia.read(0).unwrap(), 8);
    assert_eq!(address_space.tia.read(0x7f).unwrap(), 5);
    assert_eq!(address_space.read(0).unwrap(), 8);
    assert_eq!(address_space.read(0x7f).unwrap(), 5);

    assert_eq!(address_space.ram.read(0x80).unwrap(), 81);
    assert_eq!(address_space.ram.read(0xff).unwrap(), 45);
    assert_eq!(address_space.read(0x80).unwrap(), 81);
    assert_eq!(address_space.read(0xff).unwrap(), 45);

    assert_eq!(address_space.rom.read(0xf000).unwrap(), 15);
    assert_eq!(address_space.rom.read(0xffff).unwrap(), 25);
    assert_eq!(address_space.read(0xf000).unwrap(), 15);
    assert_eq!(address_space.read(0xffff).unwrap(), 25);
}

#[test]
fn old_address_space_address_mapping() {
    let mut address_space = AddressSpace {
        tia: SimpleRam::initialized_with(1),
        ram: SimpleRam::initialized_with(2),
        rom: SimpleRam::initialized_with(4),
    };

    assert_eq!(address_space.read(0x8F45).unwrap(), 1);
    assert_eq!(address_space.read(0x6CD3).unwrap(), 2);
    assert_eq!(address_space.read(0x56A2).unwrap(), 4);
    // The RIOT is not mapped yet.
    assert!(address_space.read(0x2ABC).is_err());
    assert!(address_space.write(0x2ABC, 1).is_err());
    assert_eq!(map_address(0x2ABC), MemoryArea::Riot);

    address_space.write(0xA33F, 11).unwrap();
    address_space.write(0xC59A, 12).unwrap();
    address_space.write(0x3A58, 14).unwrap();

    assert_eq!(address_space.tia.bytes[0xA33F], 11);
    assert_eq!(address_space.ram.bytes[0xC59A], 12);
    assert_eq!(address_space.rom.bytes[0x3A58], 14);
}

#[test]
fn switch_positions_flip() {
    assert_eq!(!AtariPosition::Up, AtariPosition::Down);
    assert_eq!(!AtariPosition::Down, AtariPosition::Up);
    assert_eq!(!!AtariPosition::Up, AtariPosition::Up);
}
