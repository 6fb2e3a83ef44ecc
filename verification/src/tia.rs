//! The first TIA emulation: video signal timing, the playfield, two players
//! with horizontal motion, and the input ports. Sound is not emulated.
pub mod flags;
pub mod registers;

use crate::memory::{ReadError, ReadResult, WriteError, WriteResult};
use vstd::prelude::*;

verus! {

#[derive(Debug, Copy, Clone, PartialEq, Eq, Structural)]
pub enum Port {
    Input4,
    Input5,
}

/// The index of an input port in the port tables.
pub open spec fn port_index(port: Port) -> int {
    match port {
        Port::Input4 => 0,
        Port::Input5 => 1,
    }
}

// Some constants that describe the scanline geometry.
pub const HSYNC_START: u32 = 16;
/// 1 cycle after the end of HSYNC, to make it easy to construct a range.
pub const HSYNC_END: u32 = 32;
pub const HBLANK_WIDTH: u32 = 68;
pub const HBLANK_EXTENDED_WIDTH: u32 = 76;
pub const FRAME_WIDTH: u32 = 160;
pub const LAST_COLUMN: u32 = 227;
pub const TOTAL_WIDTH: u32 = 228;

/// TIA video output. The TIA chip actually produces a composite sync signal,
/// but it doesn't make sense to encode it only to decode it downstream in the
/// emulation process.
#[derive(PartialEq, Eq, Copy, Clone, Debug, Structural)]
pub struct VideoOutput {
    /// If set to `true`, the vertical synchronization signal is being emitted.
    pub vsync: bool,
    /// If set to `true`, the horizontal synchronization signal is being emitted.
    pub hsync: bool,
    /// If outside horizontal and vertical blanking area, this field contains a
    /// currently emitted pixel. Bits 7-4 denote color, bits 3-1 are the
    /// luminance. Bit 0 is unused.
    pub pixel: Option<u8>,
}

impl VideoOutput {
    /// Creates a new `VideoOutput` with a given pixel color and no sync
    /// signals.
    pub fn pixel(pixel: u8) -> (r: Self)
        ensures
            r == (VideoOutput { vsync: false, hsync: false, pixel: Some(pixel) }),
    {
        VideoOutput { vsync: false, hsync: false, pixel: Some(pixel) }
    }

    /// Creates a new blank `VideoOutput` that doesn't contain any signals or
    /// pixel color.
    pub fn blank() -> (r: Self)
        ensures
            r == (VideoOutput { vsync: false, hsync: false, pixel: None }),
    {
        VideoOutput { vsync: false, hsync: false, pixel: None }
    }

    /// Sets the HSYNC flag on an existing `VideoOutput` instance.
    pub fn with_hsync(self) -> (r: Self)
        ensures
            r == (VideoOutput { hsync: true, ..self }),
    {
        let mut out = self;
        out.hsync = true;
        out
    }

    /// Sets the VSYNC flag on an existing `VideoOutput` instance.
    pub fn with_vsync(self) -> (r: Self)
        ensures
            r == (VideoOutput { vsync: true, ..self }),
    {
        let mut out = self;
        out.vsync = true;
        out
    }
}

/// TIA output structure. It indicates how a single TIA clock tick influences
/// other parts of the system.
#[derive(PartialEq, Eq, Copy, Clone, Debug, Structural)]
pub struct TiaOutput {
    pub video: VideoOutput,
    /// If `true`, TIA allows CPU to perform a tick. Otherwise, the CPU is put on
    /// hold.
    pub cpu_tick: bool,
    /// If `true`, TIA tells RIOT to perform a tick.
    pub riot_tick: bool,
}

/// Represents player graphics state: the pixel counter and bitmap. Also
/// handles RESPx register strobing.
#[derive(Debug, Copy, Clone, PartialEq, Eq, Structural)]
pub struct PlayerGraphics {
    pub counter: u32,
    pub bitmap: u8,
    /// Current bitmap pixel mask.
    pub mask: u8,
    /// Counts down until position reset happens to emulate TIA latching
    /// delays.
    pub reset_countdown: i32,
    pub hmove_offset: i8,
}

/// A clock tick of a player: the pixel under the mask, the mask moving on,
/// the position counter running over 160 pixels (and restarting when a
/// pending reset counts down), and the bitmap starting over at pixel 1.
pub open spec fn player_tick_spec(p: PlayerGraphics) -> (PlayerGraphics, bool) {
    let counted = ((p.counter + 1) % 160) as u32;
    let (counter, reset_countdown) = if p.reset_countdown > 0 {
        let left = (p.reset_countdown - 1) as i32;
        (if left == 0 {
            0u32
        } else {
            counted
        }, left)
    } else {
        (counted, p.reset_countdown)
    };
    (
        PlayerGraphics {
            counter,
            reset_countdown,
            mask: if counter == 1 {
                0b1000_0000u8
            } else {
                p.mask >> 1u8
            },
            ..p
        },
        p.bitmap & p.mask != 0,
    )
}

/// An extra tick from horizontal motion, for a player whose offset reaches
/// the motion counter.
pub open spec fn player_hmove_spec(p: PlayerGraphics, hmove_counter: i8) -> PlayerGraphics {
    if p.hmove_offset >= hmove_counter {
        player_tick_spec(p).0
    } else {
        p
    }
}

/// A consistent player: its counter is within the line, and a reset is at
/// most six ticks away.
pub open spec fn player_wf(p: PlayerGraphics) -> bool {
    p.counter < 160 && 0 <= p.reset_countdown <= 6
}

impl PlayerGraphics {
    fn new() -> (r: Self)
        ensures
            r == (PlayerGraphics { counter: 0, bitmap: 0, mask: 0, reset_countdown: 0, hmove_offset: 0 }),
    {
        PlayerGraphics { counter: 0, bitmap: 0b0000_0000, mask: 0b0000_0000, reset_countdown: 0, hmove_offset: 0 }
    }

    /// Performs a clock tick and returns `true` if a player pixel should be
    /// drawn, or `false` otherwise.
    fn tick(&mut self) -> (r: bool)
        requires
            player_wf(*old(self)),
        ensures
            (*final(self), r) == player_tick_spec(*old(self)),
            player_wf(*final(self)),
    {
        let result = self.bitmap & self.mask != 0;
        self.mask = self.mask >> 1u8;
        self.counter = (self.counter + 1) % 160;
        if self.reset_countdown > 0 {
            self.reset_countdown = self.reset_countdown - 1;
            if self.reset_countdown == 0 {
                self.counter = 0;
            }
        }
        if self.counter == 1 {
            self.mask = 0b1000_0000;
        }
        result
    }

    fn hmove_tick(&mut self, hmove_counter: i8)
        requires
            player_wf(*old(self)),
        ensures
            *final(self) == player_hmove_spec(*old(self), hmove_counter),
            player_wf(*final(self)),
    {
        if self.hmove_offset >= hmove_counter {
            self.tick();
        }
    }

    /// Resets player position. Called when RESPx register gets strobed.
    fn reset_player_position(&mut self)
        ensures
            *final(self) == (PlayerGraphics { reset_countdown: 6, ..*old(self) }),
    {
        self.reset_countdown = 6;
    }
}

/// TIA is responsible for generating the video signal, sound (not yet
/// implemented) and for synchronizing CPU with the screen's electron beam.
#[derive(Debug)]
pub struct Tia {
    // *** REGISTERS ***
    /// If bit 1 (`flags::VSYNC_ON`) is set, TIA emits a VSYNC signal.
    reg_vsync: u8,
    /// If bit 1 (`flags::VBLANK_ON`) is set, TIA doesn't emit pixels. Bit 6
    /// (`flags::VBLANK_INPUT_LATCH`) enables latches on input ports 4 and 5.
    reg_vblank: u8,
    /// Color and luminance of player 0.
    reg_colup0: u8,
    /// Color and luminance of player 1.
    reg_colup1: u8,
    /// Color and luminance of playfield.
    reg_colupf: u8,
    /// Color and luminance of background.
    reg_colubk: u8,
    /// Playfield control register. Responsible for reflecting playfield,
    /// playfield score mode, playfield priority, and ball size.
    reg_ctrlpf: u8,
    /// Playfield register 0 (leftmost 4 bits, mirrored).
    reg_pf0: u8,
    /// Playfield register 1 (middle 8 bits).
    reg_pf1: u8,
    /// Playfield register 2 (rightmost 8 bits, mirrored).
    reg_pf2: u8,
    /// Input port registers.
    reg_inpt: [u8; 2],
    /// Each frame has 228 cycles, including 160 cycles that actually emit
    /// pixels.
    column_counter: u32,
    /// Indicates whether a horizontal blank signal is being generated.
    hblank_on: bool,
    /// Indicates whether a horizontal sync signal is being generated.
    hsync_on: bool,
    /// Holds CPU ticks until we reach the end of a scanline.
    wait_for_sync: bool,
    /// Temporarily stores a playfield register bit.
    playfield_bit_latch_1: bool,
    /// Temporarily stores a playfield register bit.
    playfield_bit_latch_2: bool,
    /// Latches the HMOVE signal until end of the scanline.
    hmove_latch: bool,
    /// Counts from 7 down to -8 while additional clock ticks are sent to the
    /// player graphics objects.
    hmove_counter: i8,
    player0: PlayerGraphics,
    player1: PlayerGraphics,
    /// "Raw" values on the input port pins. They don't necessarily directly
    /// reflect `reg_inpt`, since they are not latched.
    input_ports: [bool; 2],
    /// Registers that are not emulated take one initialization to 0.
    initialized_registers: [bool; 0x100],
}

/// The registers and internal state of the chip.
pub struct TiaView {
    pub reg_vsync: u8,
    pub reg_vblank: u8,
    pub reg_colup0: u8,
    pub reg_colup1: u8,
    pub reg_colupf: u8,
    pub reg_colubk: u8,
    pub reg_ctrlpf: u8,
    pub reg_pf0: u8,
    pub reg_pf1: u8,
    pub reg_pf2: u8,
    pub reg_inpt: Seq<u8>,
    pub column_counter: u32,
    pub hblank_on: bool,
    pub hsync_on: bool,
    pub wait_for_sync: bool,
    pub playfield_bit_latch_1: bool,
    pub playfield_bit_latch_2: bool,
    pub hmove_latch: bool,
    pub hmove_counter: i8,
    pub player0: PlayerGraphics,
    pub player1: PlayerGraphics,
    pub input_ports: Seq<bool>,
    pub initialized_registers: Seq<bool>,
}

impl View for Tia {
    type V = TiaView;

    closed spec fn view(&self) -> TiaView {
        TiaView {
            reg_vsync: self.reg_vsync,
            reg_vblank: self.reg_vblank,
            reg_colup0: self.reg_colup0,
            reg_colup1: self.reg_colup1,
            reg_colupf: self.reg_colupf,
            reg_colubk: self.reg_colubk,
            reg_ctrlpf: self.reg_ctrlpf,
            reg_pf0: self.reg_pf0,
            reg_pf1: self.reg_pf1,
            reg_pf2: self.reg_pf2,
            reg_inpt: self.reg_inpt@,
            column_counter: self.column_counter,
            hblank_on: self.hblank_on,
            hsync_on: self.hsync_on,
            wait_for_sync: self.wait_for_sync,
            playfield_bit_latch_1: self.playfield_bit_latch_1,
            playfield_bit_latch_2: self.playfield_bit_latch_2,
            hmove_latch: self.hmove_latch,
            hmove_counter: self.hmove_counter,
            player0: self.player0,
            player1: self.player1,
            input_ports: self.input_ports@,
            initialized_registers: self.initialized_registers@,
        }
    }
}

/// A consistent chip: the beam is within the line, and the players are
/// consistent.
pub open spec fn tia_wf(t: TiaView) -> bool {
    &&& t.column_counter < TOTAL_WIDTH
    &&& -8 <= t.hmove_counter <= 7
    &&& player_wf(t.player0)
    &&& player_wf(t.player1)
    &&& t.reg_inpt.len() == 2
    &&& t.input_ports.len() == 2
    &&& t.initialized_registers.len() == 0x100
}

/// A player at power-on: no bitmap, no pixel mask, at position 0, with no
/// reset pending and no motion.
pub open spec fn new_player() -> PlayerGraphics {
    PlayerGraphics { counter: 0, bitmap: 0, mask: 0, reset_countdown: 0, hmove_offset: 0 }
}

/// A chip at power-on: every register cleared but the input ports, which
/// read high; the beam at column 0 with no blanking, sync or motion going on;
/// the playfield latches empty; fresh players; no unemulated register written
/// yet.
pub open spec fn new_tia_view() -> TiaView {
    TiaView {
        reg_vsync: 0,
        reg_vblank: 0,
        reg_colup0: 0,
        reg_colup1: 0,
        reg_colupf: 0,
        reg_colubk: 0,
        reg_ctrlpf: 0,
        reg_pf0: 0,
        reg_pf1: 0,
        reg_pf2: 0,
        reg_inpt: seq![flags::INPUT_HIGH, flags::INPUT_HIGH],
        column_counter: 0,
        hblank_on: false,
        hsync_on: false,
        wait_for_sync: false,
        playfield_bit_latch_1: false,
        playfield_bit_latch_2: false,
        hmove_latch: false,
        hmove_counter: 0,
        player0: new_player(),
        player1: new_player(),
        input_ports: seq![true, true],
        initialized_registers: Seq::new(0x100, |i: int| false),
    }
}

/// Whether bit `index` (0 to 19, left to right) of the playfield is set:
/// PF0 bits 4 to 7, then PF1 bits 7 down to 0, then PF2 bits 0 to 7.
pub open spec fn playfield_bit_spec(pf0: u8, pf1: u8, pf2: u8, index: int) -> bool {
    if 0 <= index <= 3 {
        pf0 & (0b0001_0000u8 << index as u8) != 0
    } else if 4 <= index <= 11 {
        pf1 & (0b1000_0000u8 >> (index - 4) as u8) != 0
    } else if 12 <= index <= 19 {
        pf2 & (0b0000_0001u8 << (index - 12) as u8) != 0
    } else {
        false
    }
}

/// The playfield bit to latch at `column`: playfield pixels are four times
/// wider than others, latching starts one of them before the pixels do, and
/// the right half repeats or reflects the left one.
pub open spec fn playfield_index_spec(column: u32, ctrlpf: u8) -> int {
    let x = column / 4 - (HBLANK_WIDTH / 4 - 1);
    if x < 20 {
        x
    } else if ctrlpf & flags::CTRLPF_REFLECT == 0 {
        x - 20
    } else {
        39 - x
    }
}

/// The horizontal timing signals at the start of a column.
pub open spec fn column_signals(t: TiaView) -> TiaView {
    let c = t.column_counter;
    if c == 0 {
        TiaView { hblank_on: true, wait_for_sync: false, ..t }
    } else if c == HSYNC_START {
        TiaView { hsync_on: true, ..t }
    } else if c == HSYNC_END {
        TiaView { hsync_on: false, ..t }
    } else if c == HBLANK_WIDTH {
        if !t.hmove_latch {
            TiaView { hblank_on: false, ..t }
        } else {
            t
        }
    } else if c == HBLANK_EXTENDED_WIDTH {
        if t.hmove_latch {
            TiaView { hblank_on: false, ..t }
        } else {
            t
        }
    } else if c == LAST_COLUMN {
        TiaView { hmove_latch: false, ..t }
    } else {
        t
    }
}

/// The playfield latches move on every fourth column.
pub open spec fn playfield_latched(t: TiaView) -> TiaView {
    if t.column_counter % 4 == 0 {
        TiaView {
            playfield_bit_latch_2: t.playfield_bit_latch_1,
            playfield_bit_latch_1: playfield_bit_spec(
                t.reg_pf0,
                t.reg_pf1,
                t.reg_pf2,
                playfield_index_spec(t.column_counter, t.reg_ctrlpf),
            ),
            ..t
        }
    } else {
        t
    }
}

/// During horizontal motion, every fourth column gives the players an extra
/// tick, while the motion counter counts down to -8.
pub open spec fn hmoved(t: TiaView) -> TiaView {
    if t.hmove_latch && t.hmove_counter > -8 && t.column_counter % 4 == 0 {
        TiaView {
            player0: player_hmove_spec(t.player0, t.hmove_counter),
            player1: player_hmove_spec(t.player1, t.hmove_counter),
            hmove_counter: (t.hmove_counter - 1) as i8,
            ..t
        }
    } else {
        t
    }
}

/// The pixel of a cycle: none in the horizontal blank, where the players do
/// not move; otherwise the players tick, and under a vertical blank there is
/// no pixel either; player 0 wins over player 1, which wins over the
/// playfield.
pub open spec fn pixel_spec(t: TiaView, playfield_color: u8) -> (TiaView, Option<u8>) {
    if t.hblank_on {
        (t, None)
    } else {
        let (p0, p0_bit) = player_tick_spec(t.player0);
        let (p1, p1_bit) = player_tick_spec(t.player1);
        (
            TiaView { player0: p0, player1: p1, ..t },
            if t.reg_vblank & flags::VBLANK_ON != 0 {
                None
            } else {
                Some(
                    if p0_bit {
                        t.reg_colup0
                    } else if p1_bit {
                        t.reg_colup1
                    } else {
                        playfield_color
                    },
                )
            },
        )
    }
}

/// One TIA clock cycle: the timing signals, the playfield, horizontal
/// motion, then the pixel (players outside the horizontal blank tick even
/// under a vertical blank; player 0 wins over player 1, which wins over the
/// playfield). The CPU and the RIOT tick on every third column, the CPU only
/// when it is not waiting for the end of the line.
pub open spec fn tia_tick_spec(t: TiaView) -> (TiaView, TiaOutput) {
    let signalled = column_signals(t);
    let latched = playfield_latched(signalled);
    let playfield_color = if latched.playfield_bit_latch_2 {
        latched.reg_colupf
    } else {
        latched.reg_colubk
    };
    let moved = hmoved(latched);
    let (drawn, pixel) = pixel_spec(moved, playfield_color);
    (
        TiaView { column_counter: ((drawn.column_counter + 1) % (TOTAL_WIDTH as int)) as u32, ..drawn },
        TiaOutput {
            video: VideoOutput {
                hsync: drawn.hsync_on,
                vsync: drawn.reg_vsync & flags::VSYNC_ON != 0,
                pixel,
            },
            riot_tick: drawn.column_counter % 3 == 0,
            cpu_tick: !drawn.wait_for_sync && drawn.column_counter % 3 == 0,
        },
    )
}

/// The value that an input port register takes: high while the pin is high,
/// except that with latching on, a low pin keeps it low until latching is off.
pub open spec fn port_register_spec(t: TiaView, i: int) -> u8 {
    if t.input_ports[i] && (t.reg_vblank & flags::VBLANK_INPUT_LATCH == 0 || t.reg_inpt[i] != 0) {
        flags::INPUT_HIGH
    } else {
        0
    }
}

/// The registers that writing supports, by their address within the mirror.
pub open spec fn supported_write_register(register: u16) -> bool {
    register == registers::VSYNC || register == registers::VBLANK || register == registers::WSYNC
        || register == registers::RSYNC || register == registers::COLUP0 || register
        == registers::COLUP1 || register == registers::COLUPF || register == registers::COLUBK
        || register == registers::CTRLPF || register == registers::PF0 || register == registers::PF1
        || register == registers::PF2 || register == registers::RESP0 || register
        == registers::RESP1 || register == registers::AUDC0 || register == registers::AUDC1
        || register == registers::AUDV0 || register == registers::AUDV1 || register
        == registers::AUDF0 || register == registers::AUDF1 || register == registers::GRP0
        || register == registers::GRP1 || register == registers::HMP0 || register
        == registers::HMP1 || register == registers::HMOVE
}

/// What writing a register does; the address is mirrored every 64 bytes.
/// Audio registers are ignored; registers that are not emulated take one
/// initialization to 0.
pub open spec fn tia_write_spec(t: TiaView, address: u16, value: u8) -> (TiaView, WriteResult) {
    let register = address & 0b0011_1111;
    if register == registers::VSYNC {
        (TiaView { reg_vsync: value, ..t }, Ok(()))
    } else if register == registers::VBLANK {
        let t1 = TiaView { reg_vblank: value, ..t };
        let t2 = TiaView { reg_inpt: t1.reg_inpt.update(0, port_register_spec(t1, 0)), ..t1 };
        (TiaView { reg_inpt: t2.reg_inpt.update(1, port_register_spec(t2, 1)), ..t2 }, Ok(()))
    } else if register == registers::WSYNC {
        (TiaView { wait_for_sync: true, ..t }, Ok(()))
    } else if register == registers::RSYNC {
        (TiaView { column_counter: (TOTAL_WIDTH - 3) as u32, ..t }, Ok(()))
    } else if register == registers::COLUP0 {
        (TiaView { reg_colup0: value, ..t }, Ok(()))
    } else if register == registers::COLUP1 {
        (TiaView { reg_colup1: value, ..t }, Ok(()))
    } else if register == registers::COLUPF {
        (TiaView { reg_colupf: value, ..t }, Ok(()))
    } else if register == registers::COLUBK {
        (TiaView { reg_colubk: value, ..t }, Ok(()))
    } else if register == registers::CTRLPF {
        (TiaView { reg_ctrlpf: value, ..t }, Ok(()))
    } else if register == registers::PF0 {
        (TiaView { reg_pf0: value, ..t }, Ok(()))
    } else if register == registers::PF1 {
        (TiaView { reg_pf1: value, ..t }, Ok(()))
    } else if register == registers::PF2 {
        (TiaView { reg_pf2: value, ..t }, Ok(()))
    } else if register == registers::RESP0 {
        (TiaView { player0: PlayerGraphics { reset_countdown: 6, ..t.player0 }, ..t }, Ok(()))
    } else if register == registers::RESP1 {
        (TiaView { player1: PlayerGraphics { reset_countdown: 6, ..t.player1 }, ..t }, Ok(()))
    } else if register == registers::AUDC0 || register == registers::AUDC1 || register
        == registers::AUDV0 || register == registers::AUDV1 || register == registers::AUDF0
        || register == registers::AUDF1 {
        (t, Ok(()))
    } else if register == registers::GRP0 {
        (TiaView { player0: PlayerGraphics { bitmap: value, ..t.player0 }, ..t }, Ok(()))
    } else if register == registers::GRP1 {
        (TiaView { player1: PlayerGraphics { bitmap: value, ..t.player1 }, ..t }, Ok(()))
    } else if register == registers::HMP0 {
        (
            TiaView { player0: PlayerGraphics { hmove_offset: (value as i8) >> 4u8, ..t.player0 }, ..t },
            Ok(()),
        )
    } else if register == registers::HMP1 {
        (
            TiaView { player1: PlayerGraphics { hmove_offset: (value as i8) >> 4u8, ..t.player1 }, ..t },
            Ok(()),
        )
    } else if register == registers::HMOVE {
        (TiaView { hmove_latch: true, hmove_counter: 7, ..t }, Ok(()))
    } else if t.initialized_registers[address as int] || value != 0 {
        (t, Err(WriteError { address, value }))
    } else {
        (TiaView { initialized_registers: t.initialized_registers.update(address as int, true), ..t }, Ok(()))
    }
}

/// What reading a register gives: only the input ports can be read.
pub open spec fn tia_read_spec(t: TiaView, address: u16) -> ReadResult {
    if address == registers::INPT4 {
        Ok(t.reg_inpt[0])
    } else if address == registers::INPT5 {
        Ok(t.reg_inpt[1])
    } else {
        Err(ReadError { address })
    }
}

impl Tia {
    pub fn new() -> (r: Tia)
        ensures
            tia_wf(r@),
            r@ == new_tia_view(),
    {
        let r = Tia {
            reg_vsync: 0,
            reg_vblank: 0,
            reg_colup0: 0,
            reg_colup1: 0,
            reg_colupf: 0,
            reg_colubk: 0,
            reg_ctrlpf: 0,
            reg_pf0: 0,
            reg_pf1: 0,
            reg_pf2: 0,
            reg_inpt: [flags::INPUT_HIGH, flags::INPUT_HIGH],
            column_counter: 0,
            hsync_on: false,
            hblank_on: false,
            wait_for_sync: false,
            playfield_bit_latch_1: false,
            playfield_bit_latch_2: false,
            hmove_latch: false,
            hmove_counter: 0,
            player0: PlayerGraphics::new(),
            player1: PlayerGraphics::new(),
            input_ports: [true, true],
            initialized_registers: [false; 0x100],
        };
        assert(r.reg_inpt@ == seq![flags::INPUT_HIGH, flags::INPUT_HIGH]);
        assert(r.input_ports@ == seq![true, true]);
        assert(r.initialized_registers@ =~= Seq::new(0x100, |i: int| false));
        r
    }

    fn playfield_bit_at(&self, playfield_bit_index: i32) -> (r: bool)
        ensures
            r == playfield_bit_spec(self.reg_pf0, self.reg_pf1, self.reg_pf2, playfield_bit_index as int),
    {
        if 0 <= playfield_bit_index && playfield_bit_index <= 3 {
            self.reg_pf0 & (0b0001_0000u8 << playfield_bit_index as u8) != 0
        } else if 4 <= playfield_bit_index && playfield_bit_index <= 11 {
            self.reg_pf1 & (0b1000_0000u8 >> (playfield_bit_index - 4) as u8) != 0
        } else if 12 <= playfield_bit_index && playfield_bit_index <= 19 {
            self.reg_pf2 & (0b0000_0001u8 << (playfield_bit_index - 12) as u8) != 0
        } else {
            false
        }
    }

    /// Returns a playfield pixel bit index from a [0, 20) range that should
    /// be latched in the playfield bit latch during current cycle. The
    /// resulting value can be directly used to access the playfield
    /// registers, because it takes into consideration playfield reflection.
    fn playfiled_bit_index_to_latch(&self) -> (r: i32)
        requires
            self.column_counter < TOTAL_WIDTH,
        ensures
            r == playfield_index_spec(self.column_counter, self.reg_ctrlpf),
    {
        // Playfield has 4 times lower resolution than other stuff.
        let hsync_counter = self.column_counter as i32 / 4;
        // We start latching one hsync clock cycle before the actual pixels
        // start.
        let playfield_start = HBLANK_WIDTH as i32 / 4 - 1;
        let x = hsync_counter - playfield_start;
        if x < 20 {
            x
        } else if self.reg_ctrlpf & flags::CTRLPF_REFLECT == 0 {
            x - 20
        } else {
            39 - x
        }
    }

    fn playfield_tick(&mut self) -> (r: u8)
        requires
            tia_wf(old(self)@),
        ensures
            final(self)@ == playfield_latched(old(self)@),
            tia_wf(final(self)@),
            r == if final(self)@.playfield_bit_latch_2 {
                final(self)@.reg_colupf
            } else {
                final(self)@.reg_colubk
            },
    {
        if self.column_counter % 4 == 0 {
            self.playfield_bit_latch_2 = self.playfield_bit_latch_1;
            let index = self.playfiled_bit_index_to_latch();
            self.playfield_bit_latch_1 = self.playfield_bit_at(index);
        }
        if self.playfield_bit_latch_2 {
            self.reg_colupf
        } else {
            self.reg_colubk
        }
    }

    fn column_signals_tick(&mut self)
        requires
            tia_wf(old(self)@),
        ensures
            final(self)@ == column_signals(old(self)@),
            tia_wf(final(self)@),
    {
        let c = self.column_counter;
        if c == 0 {
            self.hblank_on = true;
            self.wait_for_sync = false;
        } else if c == HSYNC_START {
            self.hsync_on = true;
        } else if c == HSYNC_END {
            self.hsync_on = false;
        } else if c == HBLANK_WIDTH {
            if !self.hmove_latch {
                self.hblank_on = false;
            }
        } else if c == HBLANK_EXTENDED_WIDTH {
            if self.hmove_latch {
                self.hblank_on = false;
            }
        } else if c == LAST_COLUMN {
            self.hmove_latch = false;
        }
    }

    fn hmove_tick(&mut self)
        requires
            tia_wf(old(self)@),
        ensures
            final(self)@ == hmoved(old(self)@),
            tia_wf(final(self)@),
    {
        if self.hmove_latch && self.hmove_counter > -8 && self.column_counter % 4 == 0 {
            self.player0.hmove_tick(self.hmove_counter);
            self.player1.hmove_tick(self.hmove_counter);
            self.hmove_counter = self.hmove_counter - 1;
        }
    }

    fn pixel_tick(&mut self, playfield_color: u8) -> (r: Option<u8>)
        requires
            tia_wf(old(self)@),
        ensures
            (final(self)@, r) == pixel_spec(old(self)@, playfield_color),
            tia_wf(final(self)@),
    {
        if self.hblank_on {
            None
        } else {
            // Even if these bits can ultimately remain unused, we still need to
            // perform a tick if we are outside the horizontal blank.
            let p0_bit = self.player0.tick();
            let p1_bit = self.player1.tick();
            if self.reg_vblank & flags::VBLANK_ON != 0 {
                None
            } else {
                Some(
                    if p0_bit {
                        self.reg_colup0
                    } else if p1_bit {
                        self.reg_colup1
                    } else {
                        playfield_color
                    },
                )
            }
        }
    }

    /// Processes a single TIA clock cycle. Returns a TIA output structure. A
    /// single cycle is the time needed to render a single pixel.
    pub fn tick(&mut self) -> (r: TiaOutput)
        requires
            tia_wf(old(self)@),
        ensures
            (final(self)@, r) == tia_tick_spec(old(self)@),
            tia_wf(final(self)@),
    {
        self.column_signals_tick();
        let playfield_color = self.playfield_tick();
        self.hmove_tick();
        let pixel = self.pixel_tick(playfield_color);
        let output = TiaOutput {
            video: VideoOutput {
                hsync: self.hsync_on,
                vsync: self.reg_vsync & flags::VSYNC_ON != 0,
                pixel,
            },
            riot_tick: self.column_counter % 3 == 0,
            cpu_tick: !self.wait_for_sync && self.column_counter % 3 == 0,
        };
        self.column_counter = (self.column_counter + 1) % TOTAL_WIDTH;
        output
    }

    pub fn set_port(&mut self, port: Port, value: bool)
        requires
            tia_wf(old(self)@),
        ensures
            tia_wf(final(self)@),
            final(self)@ == ({
                let t = TiaView {
                    input_ports: old(self)@.input_ports.update(port_index(port), value),
                    ..old(self)@
                };
                TiaView { reg_inpt: t.reg_inpt.update(port_index(port), port_register_spec(t, port_index(port))), ..t }
            }),
    {
        let i: usize = match port {
            Port::Input4 => 0,
            Port::Input5 => 1,
        };
        self.input_ports[i] = value;
        self.update_port_register(i);
    }

    fn update_port_register(&mut self, i: usize)
        requires
            i < 2,
            tia_wf(old(self)@),
        ensures
            tia_wf(final(self)@),
            final(self)@ == (TiaView {
                reg_inpt: old(self)@.reg_inpt.update(i as int, port_register_spec(old(self)@, i as int)),
                ..old(self)@
            }),
    {
        let port_value = self.input_ports[i];
        let reg_previous = self.reg_inpt[i] != 0;
        let latch = self.reg_vblank & flags::VBLANK_INPUT_LATCH != 0;
        let reg_next = port_value && (!latch || reg_previous);
        self.reg_inpt[i] = if reg_next {
            flags::INPUT_HIGH
        } else {
            0
        };
    }

    pub fn read(&self, address: u16) -> (r: ReadResult)
        requires
            tia_wf(self@),
        ensures
            r == tia_read_spec(self@, address),
    {
        if address == registers::INPT4 {
            Ok(self.reg_inpt[0])
        } else if address == registers::INPT5 {
            Ok(self.reg_inpt[1])
        } else {
            Err(ReadError { address })
        }
    }

    #[verifier::rlimit(50)]
    pub fn write(&mut self, address: u16, value: u8) -> (r: WriteResult)
        requires
            tia_wf(old(self)@),
            address < 0x100 || supported_write_register(address & 0b0011_1111),
        ensures
            (final(self)@, r) == tia_write_spec(old(self)@, address, value),
            tia_wf(final(self)@),
    {
        let register = address & 0b0011_1111;
        if register == registers::VSYNC {
            self.reg_vsync = value;
        } else if register == registers::VBLANK {
            self.reg_vblank = value;
            self.update_port_register(0);
            self.update_port_register(1);
        } else if register == registers::WSYNC {
            self.wait_for_sync = true;
        } else if register == registers::RSYNC {
            self.column_counter = TOTAL_WIDTH - 3;
        } else if register == registers::COLUP0 {
            self.reg_colup0 = value;
        } else if register == registers::COLUP1 {
            self.reg_colup1 = value;
        } else if register == registers::COLUPF {
            self.reg_colupf = value;
        } else if register == registers::COLUBK {
            self.reg_colubk = value;
        } else if register == registers::CTRLPF {
            self.reg_ctrlpf = value;
        } else if register == registers::PF0 {
            self.reg_pf0 = value;
        } else if register == registers::PF1 {
            self.reg_pf1 = value;
        } else if register == registers::PF2 {
            self.reg_pf2 = value;
        } else if register == registers::RESP0 {
            self.player0.reset_player_position();
        } else if register == registers::RESP1 {
            self.player1.reset_player_position();
        } else if register == registers::AUDC0 || register == registers::AUDC1 || register
            == registers::AUDV0 || register == registers::AUDV1 || register == registers::AUDF0
            || register == registers::AUDF1 {
            // Audio is not emulated.
        } else if register == registers::GRP0 {
            self.player0.bitmap = value;
        } else if register == registers::GRP1 {
            self.player1.bitmap = value;
        } else if register == registers::HMP0 {
            self.player0.hmove_offset = (value as i8) >> 4u8;
        } else if register == registers::HMP1 {
            self.player1.hmove_offset = (value as i8) >> 4u8;
        } else if register == registers::HMOVE {
            // There is an additional delay here, but it requires emulating
            // the H-phase-1 signal.
            self.hmove_latch = true;
            self.hmove_counter = 7;
        } else {
            if self.initialized_registers[address as usize] || value != 0 {
                return Err(WriteError { address, value });
            }
            self.initialized_registers[address as usize] = true;
        }
        Ok(())
    }
}

/// Synchronization law: while the CPU waits for the end of the line, the TIA
/// does not let it tick, until the line starts over.
pub proof fn lemma_wsync_holds_cpu(t: TiaView)
    requires
        tia_wf(t),
        t.wait_for_sync,
        t.column_counter != 0,
    ensures
        !tia_tick_spec(t).1.cpu_tick,
        tia_tick_spec(t).0.wait_for_sync,
{
}

/// Beam law: every cycle moves to the next column, wrapping at the end of
/// the line.
pub proof fn lemma_column_advances(t: TiaView)
    requires
        tia_wf(t),
    ensures
        tia_tick_spec(t).0.column_counter == (t.column_counter + 1) % (TOTAL_WIDTH as int),
        tia_wf(tia_tick_spec(t).0),
{
}

} // verus!
