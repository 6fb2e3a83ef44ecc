# steampunk

A cycle-level emulation library for 6502-based machines, written in Verus:
the functions of the library carry contracts that Verus proves, and the few
calls into outside crates stand behind small trusted wrappers.

- `src/cpu.rs`, `src/cpu/`: the 6502 CPU, one clock cycle at a time, and BCD
  arithmetic.
- `src/memory.rs`, `src/address_space.rs`, `src/tia.rs`, `src/riot.rs`,
  `src/atari.rs`, `src/frame_renderer.rs`: a simpler model of the Atari 2600 —
  memories, the TIA video chip, the RIOT, console switches and joysticks, and
  the TV display.
- `src/atari2600/`: the Atari 2600 bus, RAM and ROM, RIOT, and the TIA with its
  sprites and audio generators, and the host keys that drive the console.
- `src/c64/`: the Commodore 64 address spaces, CIA with its ports and timers,
  datasette and TAP files, keyboard matrix, SID stub, VIC-II and its display.
- `src/common/`: colors, host keys, and a debugger that speaks the Debug
  Adapter Protocol (message framing, disassembly, run control).
- `src/stream.rs`: byte sources and sinks that may fail, as the message
  framing reads and writes them.
- `tests/`: tests of the library.
- `app/`: a command-line front end that runs 6502 test images and reads TAP
  files.
