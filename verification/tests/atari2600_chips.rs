use steampunk::atari2600::memory::{new_rom, AtariRam, RomSizeError};
use steampunk::atari2600::riot::flags;
use steampunk::atari2600::riot::registers;
use steampunk::atari2600::riot::{canonical_read_address, canonical_write_address, Port, Riot};
use steampunk::atari2600::test_utils::{decode_video_outputs, encode_audio, encode_video_outputs};
use steampunk::atari2600::tia::VideoOutput;
use steampunk::memory::Memory;
use steampunk::riot::registers as old_registers;
use steampunk::riot::{Port as OldPort, Riot as OldRiot};

#[test]
fn atari_ram_read_write() {
    let mut ram = AtariRam::new();
    ram.write(0x00AB, 123).unwrap();
    ram.write(0x00AC, 234).unwrap();
    assert_eq!(ram.read(0x00AB).unwrap(), 123);
    assert_eq!(ram.read(0x00AC).unwrap(), 234);
}

#[test]
fn atari_ram_mirroring() {
    let mut ram = AtariRam::new();
    ram.write(0x0080, 1).unwrap();
    assert_eq!(ram.read(0x0080).unwrap(), 1);
    assert_eq!(ram.read(0x2880).unwrap(), 1);
    assert_eq!(ram.read(0xCD80).unwrap(), 1);
}

#[test]
fn rom_sizes() {
    assert!(new_rom(&[0u8; 0x1000]).is_ok());
    assert!(new_rom(&[0u8; 0x800]).is_ok());
    assert_eq!(new_rom(&[0u8; 0x900]).err(), Some(RomSizeError { size: 0x900 }));
}

#[test]
fn timer_underflow() {
    let mut riot = Riot::new();
    riot.write(registers::TIM64T, 0x01).unwrap();
    for _ in 0..64 {
        riot.tick();
    }
    assert_eq!(riot.read(registers::TIMINT).unwrap(), 0);
    riot.tick();

    // After the underflow, the timer interrupt flag is set, but INTIM is not
    // read yet, as it would immediately stop the fast countdown.
    assert_eq!(riot.read(registers::TIMINT).unwrap(), flags::TIMINT_TIMER);
    riot.tick();
    riot.tick();
    riot.tick();
    assert_eq!(riot.read(registers::TIMINT).unwrap(), flags::TIMINT_TIMER);
    riot.tick();
    assert_eq!(riot.read(registers::INTIM).unwrap(), 0xFB);

    // After reading INTIM, the timer goes back to the regular mode of
    // operation.
    assert_eq!(riot.read(registers::TIMINT).unwrap(), 0);
    riot.tick();
    riot.tick();
    riot.tick();
    assert_eq!(riot.read(registers::INTIM).unwrap(), 0xFB);

    // Underflow after underflow
    riot.write(registers::TIM64T, 0x01).unwrap();
    for _ in 0..(64 + 256 + 6) {
        riot.tick();
    }
    assert_eq!(riot.read(registers::INTIM).unwrap(), 0xFA);
}

#[test]
fn timer_reset() {
    let mut riot = Riot::new();
    riot.write(registers::TIM64T, 0x01).unwrap();
    for _ in 0..(64 + 2) {
        riot.tick();
    }
    riot.write(registers::TIM64T, 0x04).unwrap();
    riot.tick();
    riot.tick();
    riot.tick();
    assert_eq!(riot.read(registers::INTIM).unwrap(), 0x03);
}

#[test]
fn t1024t_counts_down() {
    let mut riot = Riot::new();
    riot.write(registers::T1024T, 0x02).unwrap();
    let mut values = Vec::new();
    for _ in 0..2049 {
        riot.tick();
        values.push(riot.read(registers::INTIM).unwrap());
    }
    let mut expected = vec![1u8; 1024];
    expected.extend(vec![0u8; 1024]);
    expected.push(0xFF);
    assert_eq!(values, expected);
}

#[test]
fn riot_input_ports() {
    let mut riot = Riot::new();
    riot.set_port(Port::PA, 0x12);
    assert_eq!(riot.read(registers::SWCHA).unwrap(), 0x12);
    riot.set_port(Port::PA, 0x34);
    assert_eq!(riot.read(registers::SWCHA).unwrap(), 0x34);
    riot.set_port(Port::PB, 0x56);
    assert_eq!(riot.read(registers::SWCHB).unwrap(), 0x56);
    riot.set_port(Port::PB, 0x78);
    assert_eq!(riot.read(registers::SWCHB).unwrap(), 0x78);

    let mut riot = OldRiot::new();
    riot.set_port(OldPort::PA, 0x12);
    assert_eq!(riot.read(old_registers::SWCHA).unwrap(), 0x12);
    riot.set_port(OldPort::PA, 0x34);
    assert_eq!(riot.read(old_registers::SWCHA).unwrap(), 0x34);
    riot.set_port(OldPort::PB, 0x56);
    assert_eq!(riot.read(old_registers::SWCHB).unwrap(), 0x56);
    riot.set_port(OldPort::PB, 0x78);
    assert_eq!(riot.read(old_registers::SWCHB).unwrap(), 0x78);
}

#[test]
fn input_port_b_direction() {
    let mut riot = Riot::new();

    // Reading from the bits set as output returns the register value instead
    // of port input.
    riot.set_port(Port::PB, 0b1100_1100);
    riot.write(registers::SWBCNT, 0b1111_0000).unwrap();
    riot.write(registers::SWCHB, 0b0101_0101).unwrap();
    assert_eq!(riot.read(registers::SWCHB).unwrap(), 0b0101_1100);

    // Data in the output register is kept and returned for bits that were
    // inputs when it was written.
    riot.write(registers::SWBCNT, 0b0000_1111).unwrap();
    assert_eq!(riot.read(registers::SWCHB).unwrap(), 0b1100_0101);
}

#[test]
fn input_port_a_direction() {
    let mut riot = Riot::new();

    // Output bits return the register value, but only where the pin is not
    // grounded. Grounded pins always return 0.
    riot.set_port(Port::PA, 0b1100_1100);
    riot.write(registers::SWACNT, 0b1111_0000).unwrap();
    riot.write(registers::SWCHA, 0b0101_0101).unwrap();
    assert_eq!(riot.read(registers::SWCHA).unwrap(), 0b0100_1100);

    riot.write(registers::SWACNT, 0b0000_1111).unwrap();
    assert_eq!(riot.read(registers::SWCHA).unwrap(), 0b1100_0100);
}

#[test]
fn pa7_edge_detection() {
    let mut riot = Riot::new();
    riot.set_port(Port::PA, 0);
    assert_eq!(riot.read(registers::TIMINT).unwrap(), 0);

    riot.write(registers::PA7_POS, 0).unwrap();
    riot.set_port(Port::PA, 1 << 7);
    assert_eq!(riot.read(registers::TIMINT).unwrap(), flags::TIMINT_PA7);
    riot.set_port(Port::PA, 0);
    assert_eq!(riot.read(registers::TIMINT).unwrap(), 0);
    riot.set_port(Port::PA, !(1 << 7));
    assert_eq!(riot.read(registers::TIMINT).unwrap(), 0);
    riot.set_port(Port::PA, 0);
    assert_eq!(riot.read(registers::TIMINT).unwrap(), 0);

    riot.write(registers::PA7_NEG, 0).unwrap();
    riot.set_port(Port::PA, 1 << 7);
    assert_eq!(riot.read(registers::TIMINT).unwrap(), 0);
    riot.set_port(Port::PA, 0);
    assert_eq!(riot.read(registers::TIMINT).unwrap(), flags::TIMINT_PA7);
    riot.set_port(Port::PA, !(1 << 7));
    assert_eq!(riot.read(registers::TIMINT).unwrap(), 0);
    riot.set_port(Port::PA, 0);
    assert_eq!(riot.read(registers::TIMINT).unwrap(), 0);
}

#[test]
fn riot_address_mirroring() {
    assert_eq!(canonical_read_address(0xEDF8), registers::SWCHA);
    assert_eq!(canonical_read_address(0xA553), registers::SWBCNT);
    assert_eq!(canonical_read_address(0xEDFF), registers::TIMINT);

    assert_eq!(canonical_write_address(0xEDFA), registers::SWCHB);
    assert_eq!(canonical_write_address(0xA559), registers::SWACNT);
    assert_eq!(canonical_write_address(0xEDFF), registers::T1024T);
    assert_eq!(canonical_write_address(0xEDEF), registers::PA7_POS);
}

#[test]
fn encodes_video_outputs() {
    assert_eq!(encode_video_outputs(&[]), "");
    assert_eq!(
        encode_video_outputs(&[
            VideoOutput::blank(),
            VideoOutput::blank().with_hsync(),
            VideoOutput::blank().with_vsync(),
            VideoOutput::blank().with_hsync().with_vsync(),
            VideoOutput::pixel(0x00),
            VideoOutput::pixel(0x02),
            VideoOutput::pixel(0x04),
            VideoOutput::pixel(0x06),
            VideoOutput::pixel(0x08),
            VideoOutput::pixel(0x0A),
            VideoOutput::pixel(0x0C),
            VideoOutput::pixel(0x0E),
            VideoOutput::pixel(0xA0),
            VideoOutput::pixel(0x00).with_vsync(),
        ]),
        ".|-+02468ACE?=",
    );
}

#[test]
fn encodes_audio() {
    assert_eq!(encode_audio(&[]), "");
    assert_eq!(encode_audio(&[0x0, 0x9, 0x8, 0xA, 0xF, 0xC, 0xE, 0x10]), "098AFCE?");
}

#[test]
fn decodes_video_outputs() {
    assert_eq!(decode_video_outputs(""), vec![]);
    assert_eq!(
        decode_video_outputs(".|-+02468ACE="),
        vec![
            VideoOutput::blank(),
            VideoOutput::blank().with_hsync(),
            VideoOutput::blank().with_vsync(),
            VideoOutput::blank().with_hsync().with_vsync(),
            VideoOutput::pixel(0x00),
            VideoOutput::pixel(0x02),
            VideoOutput::pixel(0x04),
            VideoOutput::pixel(0x06),
            VideoOutput::pixel(0x08),
            VideoOutput::pixel(0x0A),
            VideoOutput::pixel(0x0C),
            VideoOutput::pixel(0x0E),
            VideoOutput::pixel(0x00).with_vsync(),
        ]
    );
}

#[test]
fn video_notation_round_trip() {
    let signal = "..||--++0246=8ACE";
    assert_eq!(encode_video_outputs(&decode_video_outputs(signal)), signal);
}

