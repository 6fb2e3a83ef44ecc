use steampunk::atari2600::address_space::{AddressSpace, Device};
use steampunk::atari2600::memory::{new_rom, AtariRam};
use steampunk::atari2600::riot::Riot;
use steampunk::atari2600::tia::Tia;
use steampunk::memory::Ram;

#[test]
fn address_space_reads_and_writes() {
    let mut address_space = AddressSpace {
        tia: Ram::new(16),
        ram: Ram::new(16),
        riot: Ram::new(16),
        rom: Ram::new(16),
    };
    address_space.write(0, 8).unwrap(); // Start of TIA
    address_space.write(0x7F, 5).unwrap(); // End of TIA
    address_space.write(0x80, 81).unwrap(); // Start of RAM
    address_space.write(0xFF, 45).unwrap(); // End of RAM
    address_space.write(0x280, 67).unwrap(); // Start of RIOT
    address_space.write(0x29F, 68).unwrap(); // End of RIOT

    // The ROM area can't be written through the address space.
    address_space.write(0xF000, 99).unwrap();
    assert_eq!(address_space.rom.inspect(0xF000).unwrap(), 0);
    address_space.rom.write(0xF000, 15).unwrap(); // Start of ROM
    address_space.rom.write(0xFFFF, 25).unwrap(); // End of ROM

    assert_eq!(address_space.tia.read(0).unwrap(), 8);
    assert_eq!(address_space.tia.read(0x7F).unwrap(), 5);
    assert_eq!(address_space.read(0).unwrap(), 8);
    assert_eq!(address_space.read(0x7F).unwrap(), 5);

    assert_eq!(address_space.ram.read(0x80).unwrap(), 81);
    assert_eq!(address_space.ram.read(0xFF).unwrap(), 45);
    assert_eq!(address_space.read(0x80).unwrap(), 81);
    assert_eq!(address_space.read(0xFF).unwrap(), 45);

    assert_eq!(address_space.riot.read(0x280).unwrap(), 67);
    assert_eq!(address_space.riot.read(0x29F).unwrap(), 68);
    assert_eq!(address_space.read(0x280).unwrap(), 67);
    assert_eq!(address_space.read(0x29F).unwrap(), 68);

    assert_eq!(address_space.rom.read(0xF000).unwrap(), 15);
    assert_eq!(address_space.rom.read(0xFFFF).unwrap(), 25);
    assert_eq!(address_space.read(0xF000).unwrap(), 15);
    assert_eq!(address_space.read(0xFFFF).unwrap(), 25);
}

#[test]
fn address_space_address_mapping() {
    let mut address_space = AddressSpace {
        tia: Ram::initialized_with(1, 16),
        ram: Ram::initialized_with(2, 16),
        riot: Ram::initialized_with(3, 16),
        rom: Ram::initialized_with(4, 16),
    };

    assert_eq!(address_space.read(0x8F45).unwrap(), 1);
    assert_eq!(address_space.read(0x6CD3).unwrap(), 2);
    assert_eq!(address_space.read(0x2ABC).unwrap(), 3);
    assert_eq!(address_space.read(0x56A2).unwrap(), 4);

    address_space.write(0xA33F, 11).unwrap();
    address_space.write(0xC59A, 12).unwrap();
    address_space.write(0x86AB, 13).unwrap();

    assert_eq!(address_space.tia.inspect(0xA33F).unwrap(), 11);
    assert_eq!(address_space.ram.inspect(0xC59A).unwrap(), 12);
    assert_eq!(address_space.riot.inspect(0x86AB).unwrap(), 13);
}

#[test]
fn address_space_with_atari_chips() {
    let mut address_space = AddressSpace {
        tia: Tia::new(),
        ram: AtariRam::new(),
        riot: Riot::new(),
        rom: new_rom(&[0xEA; 4096]).unwrap(),
    };
    address_space.write(0x0080, 0x42).unwrap(); // RAM
    assert_eq!(address_space.read(0x0180).unwrap(), 0x42); // mirrored RAM
    assert_eq!(address_space.read(0xF123).unwrap(), 0xEA); // ROM
    address_space.write(0x0281, 0xFF).unwrap(); // SWACNT
    assert_eq!(address_space.inspect(0x0281).unwrap(), 0xFF);
    assert!(address_space.write(0x1000, 1).is_ok()); // ROM writes are ignored
    assert_eq!(address_space.read(0x1000).unwrap(), 0xEA);
}
