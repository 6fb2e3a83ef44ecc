pub mod audio_generator;
pub mod flags;
pub mod registers;
pub mod sprite;

use self::audio_generator::{audio_tick_spec, sample, AudioGenerator, AudioGeneratorView};
use self::sprite::{
    hmove_tick_spec, missile_reset_delay_for_player, reset_position_spec, set_reg_nusiz,
    sprite_tick_spec, Sprite, SpriteView,
};
use crate::delay_buffer::{shift_spec, DelayBuffer};
use crate::memory::{ReadError, ReadResult, WriteError, WriteResult};
use vstd::prelude::*;

verus! {

#[derive(Debug, Copy, Clone, PartialEq, Eq, Structural)]
pub enum Port {
    Input4,
    Input5,
}

/// The index of an input port in the port tables.
pub open spec fn port_index(port: Port) -> int {
    match port {
        Port::Input4 => 0,
        Port::Input5 => 1,
    }
}

// Some constants that describe the scanline geometry.
pub const HSYNC_START: u32 = 16;
/// 1 cycle after the end of HSYNC, to make it easy to construct a range.
pub const HSYNC_END: u32 = 32;
pub const HBLANK_WIDTH: u32 = 68;
pub const HBLANK_EXTENDED_WIDTH: u32 = 76;
pub const FRAME_WIDTH: u32 = 160;
pub const LAST_COLUMN: u32 = 227;
pub const TOTAL_WIDTH: u32 = 228;

/// TIA video output. The TIA chip actually produces a composite sync signal,
/// but it doesn't make sense to encode it only to decode it downstream in the
/// emulation process.
#[derive(PartialEq, Eq, Copy, Clone, Debug, Structural)]
pub struct VideoOutput {
    /// If set to `true`, the vertical synchronization signal is being emitted.
    pub vsync: bool,
    /// If set to `true`, the horizontal synchronization signal is being emitted.
    pub hsync: bool,
    /// If outside horizontal and vertical blanking area, this field contains a
    /// currently emitted pixel. Bits 7-4 denote color, bits 3-1 are the
    /// luminance. Bit 0 is unused.
    pub pixel: Option<u8>,
}

impl VideoOutput {
    /// Creates a new `VideoOutput` instance that contains pixel with a given
    /// color. See [`pixel`](#structfield.pixel) for details.
    pub fn pixel(pixel: u8) -> (r: Self)
        ensures
            r == (VideoOutput { vsync: false, hsync: false, pixel: Some(pixel) }),
    {
        VideoOutput { vsync: false, hsync: false, pixel: Some(pixel) }
    }

    /// Creates a new blank `VideoOutput` that doesn't contain any signals or
    /// pixel color.
    pub fn blank() -> (r: Self)
        ensures
            r == (VideoOutput { vsync: false, hsync: false, pixel: None }),
    {
        VideoOutput { vsync: false, hsync: false, pixel: None }
    }

    /// Sets the HSYNC flag on an existing `VideoOutput` instance.
    pub fn with_hsync(self) -> (r: Self)
        ensures
            r == (VideoOutput { hsync: true, ..self }),
    {
        let mut out = self;
        out.hsync = true;
        out
    }

    /// Sets the VSYNC flag on an existing `VideoOutput` instance.
    pub fn with_vsync(self) -> (r: Self)
        ensures
            r == (VideoOutput { vsync: true, ..self }),
    {
        let mut out = self;
        out.vsync = true;
        out
    }
}

/// Audio samples of both channels, each from a [0, 15] range.
#[derive(PartialEq, Eq, Copy, Clone, Debug, Structural)]
pub struct AudioOutput {
    pub au0: u8,
    pub au1: u8,
}

/// TIA output structure. It indicates how a single TIA clock tick influences
/// other parts of the system.
pub struct TiaOutput {
    pub video: VideoOutput,
    pub audio: Option<AudioOutput>,
    /// If `true`, TIA allows CPU to perform a tick. Otherwise, the CPU is put on
    /// hold.
    pub cpu_tick: bool,
    /// If `true`, TIA tells RIOT to perform a tick.
    pub riot_tick: bool,
}

/// What a TIA holds.
pub struct TiaView {
    pub reg_vsync: u8,
    pub reg_vblank: u8,
    pub reg_colup0: u8,
    pub reg_colup1: u8,
    pub reg_colupf: u8,
    pub reg_colubk: u8,
    pub reg_ctrlpf: u8,
    pub reg_pf0: u8,
    pub reg_pf1: u8,
    pub reg_pf2: u8,
    pub reg_resmp0: u8,
    pub reg_resmp1: u8,
    pub reg_cxm0p: u8,
    pub reg_cxm1p: u8,
    pub reg_cxp0fb: u8,
    pub reg_cxp1fb: u8,
    pub reg_cxm0fb: u8,
    pub reg_cxm1fb: u8,
    pub reg_cxblpf: u8,
    pub reg_cxppmm: u8,
    pub reg_inpt: Seq<u8>,
    pub column_counter: u32,
    pub hblank_on: bool,
    pub hsync_on: bool,
    pub wait_for_sync: bool,
    pub playfield_buffer: Seq<bool>,
    pub hmove_latch: bool,
    pub hmove_counter: i8,
    pub player0: SpriteView,
    pub player1: SpriteView,
    pub missile0: SpriteView,
    pub missile1: SpriteView,
    pub input_ports: Seq<bool>,
    pub initialized_registers: Seq<bool>,
    pub audio0: AudioGeneratorView,
    pub audio1: AudioGeneratorView,
}

/// TIA is responsible for generating the video signal and sound, and for
/// synchronizing CPU with the screen's electron beam.
#[derive(Debug)]
pub struct Tia {
    // *** REGISTERS ***
    /// If bit 1 (`flags::VSYNC_ON`) is set, TIA emits a VSYNC signal.
    reg_vsync: u8,
    /// If bit 1 (`flags::VBLANK_ON`) is set, TIA doesn't emit pixels. Bit 6
    /// (`flags::VBLANK_INPUT_LATCH`) enables latches on input ports 4 and 5.
    reg_vblank: u8,
    /// Color and luminance of player 0.
    reg_colup0: u8,
    /// Color and luminance of player 1.
    reg_colup1: u8,
    /// Color and luminance of playfield.
    reg_colupf: u8,
    /// Color and luminance of background.
    reg_colubk: u8,
    /// Playfield control register. Responsible for reflecting playfield,
    /// playfield score mode, playfield priority, and ball size.
    reg_ctrlpf: u8,
    /// Playfield register 0 (leftmost 4 bits, mirrored).
    reg_pf0: u8,
    /// Playfield register 1 (middle 8 bits).
    reg_pf1: u8,
    /// Playfield register 2 (rightmost 8 bits, mirrored).
    reg_pf2: u8,
    /// Register that resets missile 0 position to player 0.
    reg_resmp0: u8,
    /// Register that resets missile 1 position to player 1.
    reg_resmp1: u8,
    // Collision registers.
    reg_cxm0p: u8,
    reg_cxm1p: u8,
    reg_cxp0fb: u8,
    reg_cxp1fb: u8,
    reg_cxm0fb: u8,
    reg_cxm1fb: u8,
    reg_cxblpf: u8,
    reg_cxppmm: u8,
    /// Input port registers, indexed by port.
    reg_inpt: [u8; 2],
    /// Each scanline has 228 cycles, including 160 cycles that actually emit
    /// pixels.
    column_counter: u32,
    /// Indicates whether a horizontal blank signal is being generated.
    hblank_on: bool,
    /// Indicates whether a horizontal sync signal is being generated.
    hsync_on: bool,
    /// Holds CPU ticks until we reach the end of a scanline.
    wait_for_sync: bool,
    /// Temporarily latches playfield bits for rendering.
    playfield_buffer: DelayBuffer<bool>,
    /// Latches the HMOVE signal until end of the scanline.
    hmove_latch: bool,
    /// Counts from 7 down to -8 while additional clock ticks are sent to the
    /// player graphics objects.
    hmove_counter: i8,
    player0: Sprite,
    player1: Sprite,
    missile0: Sprite,
    missile1: Sprite,
    /// "Raw" values on the input port pins, indexed by port. They don't
    /// necessarily directly reflect `reg_inpt`, since they are not latched.
    input_ports: [bool; 2],
    /// Allows one-time initialization of unsupported registers to 0 before
    /// complaining each time such a register is written to.
    initialized_registers: [bool; 0x100],
    audio0: AudioGenerator,
    audio1: AudioGenerator,
}

impl View for Tia {
    type V = TiaView;

    closed spec fn view(&self) -> TiaView {
        TiaView {
            reg_vsync: self.reg_vsync,
            reg_vblank: self.reg_vblank,
            reg_colup0: self.reg_colup0,
            reg_colup1: self.reg_colup1,
            reg_colupf: self.reg_colupf,
            reg_colubk: self.reg_colubk,
            reg_ctrlpf: self.reg_ctrlpf,
            reg_pf0: self.reg_pf0,
            reg_pf1: self.reg_pf1,
            reg_pf2: self.reg_pf2,
            reg_resmp0: self.reg_resmp0,
            reg_resmp1: self.reg_resmp1,
            reg_cxm0p: self.reg_cxm0p,
            reg_cxm1p: self.reg_cxm1p,
            reg_cxp0fb: self.reg_cxp0fb,
            reg_cxp1fb: self.reg_cxp1fb,
            reg_cxm0fb: self.reg_cxm0fb,
            reg_cxm1fb: self.reg_cxm1fb,
            reg_cxblpf: self.reg_cxblpf,
            reg_cxppmm: self.reg_cxppmm,
            reg_inpt: self.reg_inpt@,
            column_counter: self.column_counter,
            hblank_on: self.hblank_on,
            hsync_on: self.hsync_on,
            wait_for_sync: self.wait_for_sync,
            playfield_buffer: self.playfield_buffer.contents(),
            hmove_latch: self.hmove_latch,
            hmove_counter: self.hmove_counter,
            player0: self.player0@,
            player1: self.player1@,
            missile0: self.missile0@,
            missile1: self.missile1@,
            input_ports: self.input_ports@,
            initialized_registers: self.initialized_registers@,
            audio0: self.audio0@,
            audio1: self.audio1@,
        }
    }
}

// ---------------------------------------------------------------------------
// The model of a TIA clock cycle.

/// The horizontal timing signals at the start of a cycle: HBLANK starts at
/// column 0 (which also releases WSYNC), HSYNC spans columns 16 to 31, HBLANK
/// ends at column 68, or 76 after an HMOVE, and the HMOVE latch is released
/// at the last column.
pub open spec fn phase_spec(t: TiaView) -> TiaView {
    let c = t.column_counter;
    if c == 0 {
        TiaView { hblank_on: true, wait_for_sync: false, ..t }
    } else if c == HSYNC_START {
        TiaView { hsync_on: true, ..t }
    } else if c == HSYNC_END {
        TiaView { hsync_on: false, ..t }
    } else if c == HBLANK_WIDTH {
        if !t.hmove_latch {
            TiaView { hblank_on: false, ..t }
        } else {
            t
        }
    } else if c == HBLANK_EXTENDED_WIDTH {
        if t.hmove_latch {
            TiaView { hblank_on: false, ..t }
        } else {
            t
        }
    } else if c == LAST_COLUMN {
        TiaView { hmove_latch: false, ..t }
    } else {
        t
    }
}

/// The playfield bit index (into the 20 bits of PF0, PF1, PF2) latched in
/// the current cycle: one playfield pixel per 4 columns, starting one
/// playfield pixel before the visible area; the right half repeats or
/// reflects the left one.
pub open spec fn playfield_index_spec(column: u32, ctrlpf: u8) -> int {
    let x = column / 4 - (HBLANK_WIDTH / 4 - 1);
    if x < 20 {
        x
    } else if ctrlpf & flags::CTRLPF_REFLECT == 0 {
        x - 20
    } else {
        39 - x
    }
}

/// The playfield bit at an index: PF0 bits 4-7, PF1 bits 7-0, PF2 bits 0-7.
pub open spec fn playfield_bit_spec(t: TiaView, index: int) -> bool {
    if 0 <= index <= 3 {
        (0b0001_0000u8 << (index as u8)) & t.reg_pf0 != 0
    } else if 4 <= index <= 11 {
        (0b1000_0000u8 >> ((index - 4) as u8)) & t.reg_pf1 != 0
    } else if 12 <= index <= 19 {
        (0b0000_0001u8 << ((index - 12) as u8)) & t.reg_pf2 != 0
    } else {
        false
    }
}

/// Every 4 columns the playfield delay line takes the next playfield bit.
pub open spec fn playfield_tick_spec(t: TiaView) -> TiaView {
    if t.column_counter % 4 == 0 {
        TiaView {
            playfield_buffer: shift_spec(
                t.playfield_buffer,
                playfield_bit_spec(t, playfield_index_spec(t.column_counter, t.reg_ctrlpf)),
            ).1,
            ..t
        }
    } else {
        t
    }
}

/// While the HMOVE latch is on, every 4 columns each sprite gets an extra
/// clock if its offset reaches the HMOVE counter, which counts down to -8.
pub open spec fn hmove_spec(t: TiaView) -> TiaView {
    if t.hmove_latch && t.hmove_counter > -8 && t.column_counter % 4 == 0 {
        TiaView {
            player0: hmove_tick_spec(t.player0, t.hmove_counter),
            player1: hmove_tick_spec(t.player1, t.hmove_counter),
            missile0: hmove_tick_spec(t.missile0, t.hmove_counter),
            missile1: hmove_tick_spec(t.missile1, t.hmove_counter),
            hmove_counter: (t.hmove_counter - 1) as i8,
            ..t
        }
    } else {
        t
    }
}

/// The sprites' clocks run outside the horizontal blank.
pub open spec fn sprites_spec(t: TiaView) -> (TiaView, (bool, bool, bool, bool)) {
    let run = !t.hblank_on;
    let (p0, p0_bit) = sprite_tick_spec(t.player0, run);
    let (p1, p1_bit) = sprite_tick_spec(t.player1, run);
    let (m0, m0_bit) = sprite_tick_spec(t.missile0, run);
    let (m1, m1_bit) = sprite_tick_spec(t.missile1, run);
    (
        TiaView { player0: p0, player1: p1, missile0: m0, missile1: m1, ..t },
        (p0_bit, p1_bit, m0_bit, m1_bit),
    )
}

/// The delay after which a missile locked to its player moves to it.
pub open spec fn missile_reset_delay_spec(player: SpriteView) -> i32 {
    if player.scale == 2 {
        8
    } else if player.scale == 4 {
        11
    } else {
        4
    }
}

/// A missile locked to its player (RESMPx) is hidden, and its position is
/// reset when the player's position counter is at 1.
pub open spec fn missile_lock_spec(t: TiaView) -> TiaView {
    let resmp0 = t.reg_resmp0 & flags::RESMPX_RESET != 0;
    let resmp1 = t.reg_resmp1 & flags::RESMPX_RESET != 0;
    let t1 = if resmp0 && t.player0.position_counter == 1 {
        TiaView {
            missile0: reset_position_spec(t.missile0, missile_reset_delay_spec(t.player0)),
            ..t
        }
    } else {
        t
    };
    if resmp1 && t1.player1.position_counter == 1 {
        TiaView {
            missile1: reset_position_spec(t1.missile1, missile_reset_delay_spec(t1.player1)),
            ..t1
        }
    } else {
        t1
    }
}

/// The collision latches, set by overlapping objects.
pub open spec fn collisions_spec(t: TiaView, p0: bool, p1: bool, m0: bool, m1: bool, pf: bool) -> TiaView {
    TiaView {
        reg_cxm0p: t.reg_cxm0p | (if m0 && p1 {
            0x80u8
        } else {
            0
        }) | (if m0 && p0 {
            0x40u8
        } else {
            0
        }),
        reg_cxm1p: t.reg_cxm1p | (if m1 && p0 {
            0x80u8
        } else {
            0
        }) | (if m1 && p1 {
            0x40u8
        } else {
            0
        }),
        reg_cxp0fb: t.reg_cxp0fb | (if p0 && pf {
            0x80u8
        } else {
            0
        }),
        reg_cxp1fb: t.reg_cxp1fb | (if p1 && pf {
            0x80u8
        } else {
            0
        }),
        reg_cxm0fb: t.reg_cxm0fb | (if m0 && pf {
            0x80u8
        } else {
            0
        }),
        reg_cxm1fb: t.reg_cxm1fb | (if m1 && pf {
            0x80u8
        } else {
            0
        }),
        reg_cxppmm: t.reg_cxppmm | (if p0 && p1 {
            0x80u8
        } else {
            0
        }) | (if m0 && m1 {
            0x40u8
        } else {
            0
        }),
        ..t
    }
}

/// The color of a visible pixel. With playfield priority, the playfield
/// covers the sprites; otherwise player 0 and missile 0 come first, then
/// player 1 and missile 1, then the playfield, then the background.
pub open spec fn pixel_color_spec(t: TiaView, p0: bool, p1: bool, m0: bool, m1: bool, pf: bool) -> u8 {
    if t.reg_ctrlpf & flags::CTRLPF_PRIORITY != 0 && pf {
        t.reg_colupf
    } else if p0 || m0 {
        t.reg_colup0
    } else if p1 || m1 {
        t.reg_colup1
    } else if t.reg_ctrlpf & flags::CTRLPF_PRIORITY == 0 && pf {
        t.reg_colupf
    } else {
        t.reg_colubk
    }
}

/// The audio generators run at column 0 and in the middle of the scanline.
pub open spec fn audio_spec(t: TiaView) -> (TiaView, Option<AudioOutput>) {
    if t.column_counter != 0 && t.column_counter != TOTAL_WIDTH / 2 {
        (t, None)
    } else {
        (
            TiaView { audio0: audio_tick_spec(t.audio0), audio1: audio_tick_spec(t.audio1), ..t },
            Some(AudioOutput { au0: sample(t.audio0), au1: sample(t.audio1) }),
        )
    }
}

/// One TIA clock cycle: the state it leads to and what it outputs.
pub open spec fn tia_tick_spec(t0: TiaView) -> (TiaView, TiaOutput) {
    let t1 = phase_spec(t0);
    let vsync_on = t1.reg_vsync & flags::VSYNC_ON != 0;
    let vblank_on = t1.reg_vblank & flags::VBLANK_ON != 0;
    let t2 = playfield_tick_spec(t1);
    let pf = t2.playfield_buffer[0];
    let t3 = hmove_spec(t2);
    let (t4, bits) = sprites_spec(t3);
    let (p0, p1, m0_raw, m1_raw) = bits;
    let (t5, pixel) = if t4.hblank_on {
        (t4, None)
    } else {
        let m0 = t4.reg_resmp0 & flags::RESMPX_RESET == 0 && m0_raw;
        let m1 = t4.reg_resmp1 & flags::RESMPX_RESET == 0 && m1_raw;
        let tl = missile_lock_spec(t4);
        if vblank_on {
            (tl, None)
        } else {
            (collisions_spec(tl, p0, p1, m0, m1, pf), Some(pixel_color_spec(tl, p0, p1, m0, m1, pf)))
        }
    };
    let (t6, audio) = audio_spec(t5);
    (
        TiaView { column_counter: ((t6.column_counter + 1) % TOTAL_WIDTH as int) as u32, ..t6 },
        TiaOutput {
            video: VideoOutput { hsync: t5.hsync_on, vsync: vsync_on, pixel },
            audio,
            riot_tick: t5.column_counter % 3 == 0,
            cpu_tick: !t5.wait_for_sync && t5.column_counter % 3 == 0,
        },
    )
}

/// The input port register after the port pins are sampled: low when the pin
/// is low; with the latch on, once low it stays low.
pub open spec fn port_register_spec(t: TiaView, i: int) -> u8 {
    let latch = t.reg_vblank & flags::VBLANK_INPUT_LATCH != 0;
    if t.input_ports[i] && (!latch || t.reg_inpt[i] != 0) {
        flags::INPUT_HIGH
    } else {
        0
    }
}

/// The TIA after an input port pin changes: the pin takes `value`, and its
/// register is sampled again.
pub open spec fn set_port_spec(t0: TiaView, port: Port, value: bool) -> TiaView {
    let t = TiaView { input_ports: t0.input_ports.update(port_index(port), value), ..t0 };
    TiaView { reg_inpt: t.reg_inpt.update(port_index(port), port_register_spec(t, port_index(port))), ..t }
}

/// Both input port registers after the port pins are sampled.
pub open spec fn update_ports_spec(t: TiaView) -> TiaView {
    let t1 = TiaView { reg_inpt: t.reg_inpt.update(0, port_register_spec(t, 0)), ..t };
    TiaView { reg_inpt: t1.reg_inpt.update(1, port_register_spec(t1, 1)), ..t1 }
}

/// What a read of a TIA register gives: the collision latches and the input
/// ports, mirrored over the low 4 address bits.
pub open spec fn tia_read_spec(t: TiaView, address: u16) -> ReadResult {
    let a = address & 0x0F;
    if a == registers::CXM0P {
        Ok(t.reg_cxm0p)
    } else if a == registers::CXM1P {
        Ok(t.reg_cxm1p)
    } else if a == registers::CXP0FB {
        Ok(t.reg_cxp0fb)
    } else if a == registers::CXP1FB {
        Ok(t.reg_cxp1fb)
    } else if a == registers::CXM0FB {
        Ok(t.reg_cxm0fb)
    } else if a == registers::CXM1FB {
        Ok(t.reg_cxm1fb)
    } else if a == registers::CXBLPF {
        Ok(t.reg_cxblpf)
    } else if a == registers::CXPPMM {
        Ok(t.reg_cxppmm)
    } else if a == registers::INPT4 {
        Ok(t.reg_inpt[0])
    } else if a == registers::INPT5 {
        Ok(t.reg_inpt[1])
    } else {
        Err(ReadError { address })
    }
}

/// Whether the TIA implements the write register at `register` (an address
/// masked to its low 6 bits).
pub open spec fn supported_write_register(register: u16) -> bool {
    register <= 0x13 || (0x15 <= register <= 0x1E) || (0x20 <= register <= 0x23) || (0x25
        <= register <= 0x26) || (0x28 <= register <= 0x2C)
}


/// The HMOVE offset a HMxx register value sets: its high nibble, signed.
pub open spec fn hmove_offset_of(value: u8) -> i8 {
    (value as i8) >> 4u32
}

/// A write to a TIA register, mirrored over the low 6 address bits. Writes
/// to audio registers feed the audio generators; an unsupported register may
/// be written once, with 0, and then never again.
pub open spec fn tia_write_spec(t: TiaView, address: u16, value: u8) -> (TiaView, WriteResult) {
    let a = address & 0x3F;
    if a == registers::VSYNC {
        (TiaView { reg_vsync: value, ..t }, Ok(()))
    } else if a == registers::VBLANK {
        (update_ports_spec(TiaView { reg_vblank: value, ..t }), Ok(()))
    } else if a == registers::WSYNC {
        (TiaView { wait_for_sync: true, ..t }, Ok(()))
    } else if a == registers::RSYNC {
        (TiaView { column_counter: (TOTAL_WIDTH - 3) as u32, ..t }, Ok(()))
    } else if a == registers::NUSIZ0 {
        (TiaView {
            player0: SpriteView {
                offsets: sprite::player_offsets_spec(value & flags::NUSIZX_PLAYER_MASK),
                scale: sprite::player_scale(value & flags::NUSIZX_PLAYER_MASK),
                ..t.player0
            },
            missile0: SpriteView {
                offsets: sprite::missile_offsets_spec(value & flags::NUSIZX_PLAYER_MASK),
                scale: sprite::missile_scale(value & flags::NUSIZX_MISSILE_WIDTH_MASK),
                ..t.missile0
            },
            ..t
        }, Ok(()))
    } else if a == registers::NUSIZ1 {
        (TiaView {
            player1: SpriteView {
                offsets: sprite::player_offsets_spec(value & flags::NUSIZX_PLAYER_MASK),
                scale: sprite::player_scale(value & flags::NUSIZX_PLAYER_MASK),
                ..t.player1
            },
            missile1: SpriteView {
                offsets: sprite::missile_offsets_spec(value & flags::NUSIZX_PLAYER_MASK),
                scale: sprite::missile_scale(value & flags::NUSIZX_MISSILE_WIDTH_MASK),
                ..t.missile1
            },
            ..t
        }, Ok(()))
    } else if a == registers::COLUP0 {
        (TiaView { reg_colup0: value, ..t }, Ok(()))
    } else if a == registers::COLUP1 {
        (TiaView { reg_colup1: value, ..t }, Ok(()))
    } else if a == registers::COLUPF {
        (TiaView { reg_colupf: value, ..t }, Ok(()))
    } else if a == registers::COLUBK {
        (TiaView { reg_colubk: value, ..t }, Ok(()))
    } else if a == registers::CTRLPF {
        (TiaView { reg_ctrlpf: value, ..t }, Ok(()))
    } else if a == registers::REFP0 {
        (TiaView { player0: SpriteView { reflect: value & flags::REFPX_REFLECT != 0, ..t.player0 }, ..t }, Ok(()))
    } else if a == registers::REFP1 {
        (TiaView { player1: SpriteView { reflect: value & flags::REFPX_REFLECT != 0, ..t.player1 }, ..t }, Ok(()))
    } else if a == registers::PF0 {
        (TiaView { reg_pf0: value, ..t }, Ok(()))
    } else if a == registers::PF1 {
        (TiaView { reg_pf1: value, ..t }, Ok(()))
    } else if a == registers::PF2 {
        (TiaView { reg_pf2: value, ..t }, Ok(()))
    } else if a == registers::RESP0 {
        (TiaView { player0: reset_position_spec(t.player0, 5), ..t }, Ok(()))
    } else if a == registers::RESP1 {
        (TiaView { player1: reset_position_spec(t.player1, 5), ..t }, Ok(()))
    } else if a == registers::RESM0 {
        (TiaView { missile0: reset_position_spec(t.missile0, 4), ..t }, Ok(()))
    } else if a == registers::RESM1 {
        (TiaView { missile1: reset_position_spec(t.missile1, 4), ..t }, Ok(()))
    } else if a == registers::AUDC0 {
        (TiaView { audio0: AudioGeneratorView { pattern: value & 0x0F, ..t.audio0 }, ..t }, Ok(()))
    } else if a == registers::AUDC1 {
        (TiaView { audio1: AudioGeneratorView { pattern: value & 0x0F, ..t.audio1 }, ..t }, Ok(()))
    } else if a == registers::AUDV0 {
        (TiaView { audio0: AudioGeneratorView { volume: value & 0x0F, ..t.audio0 }, ..t }, Ok(()))
    } else if a == registers::AUDV1 {
        (TiaView { audio1: AudioGeneratorView { volume: value & 0x0F, ..t.audio1 }, ..t }, Ok(()))
    } else if a == registers::AUDF0 {
        (TiaView { audio0: AudioGeneratorView { frequency_divider: value & 0x1F, ..t.audio0 }, ..t }, Ok(()))
    } else if a == registers::AUDF1 {
        (TiaView { audio1: AudioGeneratorView { frequency_divider: value & 0x1F, ..t.audio1 }, ..t }, Ok(()))
    } else if a == registers::GRP0 {
        (TiaView {
            player1: SpriteView { bitmaps: t.player1.bitmaps.update(1, t.player1.bitmaps[0]), ..t.player1 },
            player0: SpriteView { bitmaps: t.player0.bitmaps.update(0, value), ..t.player0 },
            ..t
        }, Ok(()))
    } else if a == registers::GRP1 {
        (TiaView {
            player0: SpriteView { bitmaps: t.player0.bitmaps.update(1, t.player0.bitmaps[0]), ..t.player0 },
            player1: SpriteView { bitmaps: t.player1.bitmaps.update(0, value), ..t.player1 },
            ..t
        }, Ok(()))
    } else if a == registers::ENAM0 {
        (TiaView { missile0: SpriteView { bitmaps: t.missile0.bitmaps.update(0, ((value & flags::ENAXX_ENABLE) << 6u8) as u8), ..t.missile0 }, ..t }, Ok(()))
    } else if a == registers::ENAM1 {
        (TiaView { missile1: SpriteView { bitmaps: t.missile1.bitmaps.update(0, ((value & flags::ENAXX_ENABLE) << 6u8) as u8), ..t.missile1 }, ..t }, Ok(()))
    } else if a == registers::HMP0 {
        (TiaView { player0: SpriteView { hmove_offset: hmove_offset_of(value), ..t.player0 }, ..t }, Ok(()))
    } else if a == registers::HMP1 {
        (TiaView { player1: SpriteView { hmove_offset: hmove_offset_of(value), ..t.player1 }, ..t }, Ok(()))
    } else if a == registers::HMM0 {
        (TiaView { missile0: SpriteView { hmove_offset: hmove_offset_of(value), ..t.missile0 }, ..t }, Ok(()))
    } else if a == registers::HMM1 {
        (TiaView { missile1: SpriteView { hmove_offset: hmove_offset_of(value), ..t.missile1 }, ..t }, Ok(()))
    } else if a == registers::VDELP0 {
        (TiaView { player0: SpriteView { bitmap_index: (value & flags::VDELXX_ON) as usize, ..t.player0 }, ..t }, Ok(()))
    } else if a == registers::VDELP1 {
        (TiaView { player1: SpriteView { bitmap_index: (value & flags::VDELXX_ON) as usize, ..t.player1 }, ..t }, Ok(()))
    } else if a == registers::RESMP0 {
        (TiaView { reg_resmp0: value, ..t }, Ok(()))
    } else if a == registers::RESMP1 {
        (TiaView { reg_resmp1: value, ..t }, Ok(()))
    } else if a == registers::HMOVE {
        (TiaView { hmove_latch: true, hmove_counter: 7, ..t }, Ok(()))
    } else if a == registers::HMCLR {
        (TiaView {
            player0: SpriteView { hmove_offset: 0, ..t.player0 },
            player1: SpriteView { hmove_offset: 0, ..t.player1 },
            missile0: SpriteView { hmove_offset: 0, ..t.missile0 },
            missile1: SpriteView { hmove_offset: 0, ..t.missile1 },
            ..t
        }, Ok(()))
    } else if a == registers::CXCLR {
        (TiaView {
            reg_cxm0p: 0,
            reg_cxm1p: 0,
            reg_cxp0fb: 0,
            reg_cxp1fb: 0,
            reg_cxm0fb: 0,
            reg_cxm1fb: 0,
            reg_cxblpf: 0,
            reg_cxppmm: 0,
            ..t
        }, Ok(()))
    } else if t.initialized_registers[address as int] || value != 0 {
        (t, Err(WriteError { address, value }))
    } else {
        (TiaView { initialized_registers: t.initialized_registers.update(address as int, true), ..t }, Ok(()))
    }
}

/// Its sprites and audio generators
/// are, the column counter stays within a scanline, and the playfield delay
/// line is a 2-element one.
pub open spec fn tia_view_wf(t: TiaView) -> bool {
    &&& t.column_counter < TOTAL_WIDTH
    &&& t.playfield_buffer.len() == 2
    &&& t.reg_inpt.len() == 2
    &&& t.input_ports.len() == 2
    &&& t.initialized_registers.len() == 0x100
    &&& sprite::sprite_view_wf(t.player0)
    &&& sprite::sprite_view_wf(t.player1)
    &&& sprite::sprite_view_wf(t.missile0)
    &&& sprite::sprite_view_wf(t.missile1)
    &&& audio_generator::audio_wf(t.audio0)
    &&& audio_generator::audio_wf(t.audio1)
}

/// The silent audio generator that a TIA powers on with.
pub open spec fn new_audio_view() -> AudioGeneratorView {
    AudioGeneratorView {
        volume: 0,
        pattern: 0,
        frequency_divider: 0,
        frequency_counter: 0,
        div2: 0,
        div3: 0,
        div31: 0,
        poly4: 0b1111,
        poly5: 0b0001_1111,
        poly9: 0b0001_1111_1111,
    }
}

/// A TIA at power-on: every register cleared but the input ports, which read
/// high; the beam at column 0 with no blanking, sync or motion going on; no
/// playfield bits latched; fresh sprites; no unsupported register written
/// yet; silent audio.
pub open spec fn new_tia_view() -> TiaView {
    TiaView {
        reg_vsync: 0,
        reg_vblank: 0,
        reg_colup0: 0,
        reg_colup1: 0,
        reg_colupf: 0,
        reg_colubk: 0,
        reg_ctrlpf: 0,
        reg_pf0: 0,
        reg_pf1: 0,
        reg_pf2: 0,
        reg_resmp0: 0,
        reg_resmp1: 0,
        reg_cxm0p: 0,
        reg_cxm1p: 0,
        reg_cxp0fb: 0,
        reg_cxp1fb: 0,
        reg_cxm0fb: 0,
        reg_cxm1fb: 0,
        reg_cxblpf: 0,
        reg_cxppmm: 0,
        reg_inpt: seq![flags::INPUT_HIGH, flags::INPUT_HIGH],
        column_counter: 0,
        hblank_on: false,
        hsync_on: false,
        wait_for_sync: false,
        playfield_buffer: seq![false, false],
        hmove_latch: false,
        hmove_counter: 0,
        player0: sprite::new_sprite_view(),
        player1: sprite::new_sprite_view(),
        missile0: sprite::new_sprite_view(),
        missile1: sprite::new_sprite_view(),
        input_ports: seq![true, true],
        initialized_registers: Seq::new(0x100, |i: int| false),
        audio0: new_audio_view(),
        audio1: new_audio_view(),
    }
}

impl Tia {
    pub open spec fn wf(&self) -> bool {
        &&& tia_view_wf(self@)
        &&& self.parts_wf()
    }

    /// The sprites and the playfield delay line are well-formed objects.
    pub closed spec fn parts_wf(&self) -> bool {
        &&& self.player0.wf()
        &&& self.player1.wf()
        &&& self.missile0.wf()
        &&& self.missile1.wf()
        &&& self.playfield_buffer.wf()
        &&& !self.playfield_buffer.is_immediate()
        &&& self.audio0.wf()
        &&& self.audio1.wf()
    }

    pub fn new() -> (r: Tia)
        ensures
            r.wf(),
            r@ == new_tia_view(),
    {
        let r = Tia {
            reg_vsync: 0,
            reg_vblank: 0,
            reg_colup0: 0,
            reg_colup1: 0,
            reg_colupf: 0,
            reg_colubk: 0,
            reg_ctrlpf: 0,
            reg_pf0: 0,
            reg_pf1: 0,
            reg_pf2: 0,
            reg_resmp0: 0,
            reg_resmp1: 0,
            reg_cxm0p: 0,
            reg_cxm1p: 0,
            reg_cxp0fb: 0,
            reg_cxp1fb: 0,
            reg_cxm0fb: 0,
            reg_cxm1fb: 0,
            reg_cxblpf: 0,
            reg_cxppmm: 0,
            reg_inpt: [flags::INPUT_HIGH, flags::INPUT_HIGH],
            column_counter: 0,
            hsync_on: false,
            hblank_on: false,
            wait_for_sync: false,
            playfield_buffer: DelayBuffer::new(2),
            hmove_latch: false,
            hmove_counter: 0,
            player0: Sprite::new(),
            player1: Sprite::new(),
            missile0: Sprite::new(),
            missile1: Sprite::new(),
            input_ports: [true, true],
            initialized_registers: [false; 0x100],
            audio0: AudioGenerator::new(),
            audio1: AudioGenerator::new(),
        };
        assert(r.playfield_buffer.contents() =~= seq![false, false]);
        assert(r.reg_inpt@ == seq![flags::INPUT_HIGH, flags::INPUT_HIGH]);
        assert(r.input_ports@ == seq![true, true]);
        assert(r.initialized_registers@ =~= Seq::new(0x100, |i: int| false));
        r
    }

    /// Updates the horizontal timing signals for the current column.
    fn tick_phase(&mut self)
        requires
            old(self).wf(),
        ensures
            final(self).wf(),
            final(self)@ == phase_spec(old(self)@),
    {
        match self.column_counter {
            0 => {
                self.hblank_on = true;
                self.wait_for_sync = false;
            },
            HSYNC_START => self.hsync_on = true,
            HSYNC_END => self.hsync_on = false,
            HBLANK_WIDTH => {
                if !self.hmove_latch {
                    self.hblank_on = false
                }
            },
            HBLANK_EXTENDED_WIDTH => {
                if self.hmove_latch {
                    self.hblank_on = false
                }
            },
            LAST_COLUMN => self.hmove_latch = false,
            _ => {},
        }
    }

    fn playfield_bit_at(&self, playfield_bit_index: i32) -> (r: bool)
        ensures
            r == playfield_bit_spec(self@, playfield_bit_index as int),
    {
        if 0 <= playfield_bit_index && playfield_bit_index <= 3 {
            (0b0001_0000u8 << (playfield_bit_index as u8)) & self.reg_pf0 != 0
        } else if 4 <= playfield_bit_index && playfield_bit_index <= 11 {
            (0b1000_0000u8 >> ((playfield_bit_index - 4) as u8)) & self.reg_pf1 != 0
        } else if 12 <= playfield_bit_index && playfield_bit_index <= 19 {
            (0b0000_0001u8 << ((playfield_bit_index - 12) as u8)) & self.reg_pf2 != 0
        } else {
            false
        }
    }

    /// Returns a playfield pixel bit index from a [0, 20) range that should be
    /// latched in the playfield bit latch during current cycle. The resulting
    /// value can be directly used to access the playfield registers, because it
    /// takes into consideration playfield reflection.
    fn playfiled_bit_index_to_latch(&self) -> (r: i32)
        requires
            self.wf(),
        ensures
            r as int == playfield_index_spec(self@.column_counter, self@.reg_ctrlpf),
    {
        // Playfield has 4 times lower resolution than other stuff.
        let hsync_counter = self.column_counter as i32 / 4;
        // We start latching one hsync clock cycle before the actual pixels
        // start.
        let playfield_start = HBLANK_WIDTH as i32 / 4 - 1;
        let x = hsync_counter - playfield_start;
        if x < 20 {
            x  // Left half of the screen.
        } else {
            // Right half of the screen.
            if self.reg_ctrlpf & flags::CTRLPF_REFLECT == 0 {
                x - 20  // Normal mode (repeat the left half).
            } else {
                39 - x  // Reflected mode (reflect the left half).
            }
        }
    }

    fn playfield_tick(&mut self) -> (r: bool)
        requires
            old(self).wf(),
        ensures
            final(self).wf(),
            final(self)@ == playfield_tick_spec(old(self)@),
            r == final(self)@.playfield_buffer[0],
    {
        if self.column_counter % 4 == 0 {
            let bit = self.playfield_bit_at(self.playfiled_bit_index_to_latch());
            self.playfield_buffer.shift(bit);
        }
        *self.playfield_buffer.peek()
    }

    fn tick_hmove(&mut self)
        requires
            old(self).wf(),
        ensures
            final(self).wf(),
            final(self)@ == hmove_spec(old(self)@),
    {
        if self.hmove_latch && self.hmove_counter > -8 && self.column_counter % 4 == 0 {
            self.player0.hmove_tick(self.hmove_counter);
            self.player1.hmove_tick(self.hmove_counter);
            self.missile0.hmove_tick(self.hmove_counter);
            self.missile1.hmove_tick(self.hmove_counter);
            self.hmove_counter -= 1;
        }
    }

    fn tick_sprites(&mut self) -> (r: (bool, bool, bool, bool))
        requires
            old(self).wf(),
        ensures
            final(self).wf(),
            (final(self)@, r) == sprites_spec(old(self)@),
    {
        let p0_bit = self.player0.tick(!self.hblank_on);
        let p1_bit = self.player1.tick(!self.hblank_on);
        let m0_bit = self.missile0.tick(!self.hblank_on);
        let m1_bit = self.missile1.tick(!self.hblank_on);
        (p0_bit, p1_bit, m0_bit, m1_bit)
    }

    fn lock_missiles(&mut self)
        requires
            old(self).wf(),
        ensures
            final(self).wf(),
            final(self)@ == missile_lock_spec(old(self)@),
    {
        let resmp0 = self.reg_resmp0 & flags::RESMPX_RESET != 0;
        let resmp1 = self.reg_resmp1 & flags::RESMPX_RESET != 0;
        if resmp0 && self.player0.position_counter() == 1 {
            self.missile0.reset_position(missile_reset_delay_for_player(&self.player0));
        }
        if resmp1 && self.player1.position_counter() == 1 {
            self.missile1.reset_position(missile_reset_delay_for_player(&self.player1));
        }
    }

    fn detect_collisions(&mut self, p0_bit: bool, p1_bit: bool, m0_bit: bool, m1_bit: bool, playfield_bit: bool)
        requires
            old(self).wf(),
        ensures
            final(self).wf(),
            final(self)@ == collisions_spec(old(self)@, p0_bit, p1_bit, m0_bit, m1_bit, playfield_bit),
    {
        let ghost t = self@;
        if m0_bit && p1_bit {
            self.reg_cxm0p = self.reg_cxm0p | 1 << 7;
        }
        if m0_bit && p0_bit {
            self.reg_cxm0p = self.reg_cxm0p | 1 << 6;
        }
        if m1_bit && p0_bit {
            self.reg_cxm1p = self.reg_cxm1p | 1 << 7;
        }
        if m1_bit && p1_bit {
            self.reg_cxm1p = self.reg_cxm1p | 1 << 6;
        }
        if p0_bit && playfield_bit {
            self.reg_cxp0fb = self.reg_cxp0fb | 1 << 7;
        }
        if p1_bit && playfield_bit {
            self.reg_cxp1fb = self.reg_cxp1fb | 1 << 7;
        }
        if m0_bit && playfield_bit {
            self.reg_cxm0fb = self.reg_cxm0fb | 1 << 7;
        }
        if m1_bit && playfield_bit {
            self.reg_cxm1fb = self.reg_cxm1fb | 1 << 7;
        }
        if p0_bit && p1_bit {
            self.reg_cxppmm = self.reg_cxppmm | 1 << 7;
        }
        if m0_bit && m1_bit {
            self.reg_cxppmm = self.reg_cxppmm | 1 << 6;
        }
        proof {
            let a = t.reg_cxm0p;
            let b = t.reg_cxm1p;
            let c = t.reg_cxppmm;
            let d = t.reg_cxp0fb;
            let e = t.reg_cxp1fb;
            let f = t.reg_cxm0fb;
            let g = t.reg_cxm1fb;
            assert(1u8 << 7u8 == 0x80u8 && 1u8 << 6u8 == 0x40u8 && a | 0 == a && (a | 0x80u8) | 0 == a
                | 0x80u8 && b | 0 == b && (b | 0x80u8) | 0 == b | 0x80u8 && c | 0 == c && (c | 0x80u8)
                | 0 == c | 0x80u8 && d | 0 == d && e | 0 == e && f | 0 == f && g | 0 == g)
                by (bit_vector);
        }
    }

    fn audio_tick(&mut self) -> (r: Option<AudioOutput>)
        requires
            old(self).wf(),
        ensures
            final(self).wf(),
            (final(self)@, r) == audio_spec(old(self)@),
    {
        if self.column_counter != 0 && self.column_counter != TOTAL_WIDTH / 2 {
            return None;
        }
        let au0 = self.audio0.tick();
        let au1 = self.audio1.tick();
        Some(AudioOutput { au0, au1 })
    }

    /// Processes a single TIA clock cycle. Returns a TIA output structure. A
    /// single cycle is the time needed to render a single pixel.
    #[verifier::rlimit(100)]
    #[verifier::spinoff_prover]
    pub fn tick(&mut self) -> (r: TiaOutput)
        requires
            old(self).wf(),
        ensures
            final(self).wf(),
            (final(self)@, r) == tia_tick_spec(old(self)@),
    {
        let ghost t0 = self@;
        self.tick_phase();
        let ghost t1 = self@;
        let vsync_on = self.reg_vsync & flags::VSYNC_ON != 0;
        let vblank_on = self.reg_vblank & flags::VBLANK_ON != 0;
        let playfield_bit = self.playfield_tick();
        let ghost t2 = self@;
        self.tick_hmove();
        let ghost t3 = self@;
        let (p0_bit, p1_bit, m0_bit, m1_bit) = self.tick_sprites();
        let ghost t4 = self@;
        assert(t1 == phase_spec(t0));
        assert(t2 == playfield_tick_spec(t1));
        assert(t3 == hmove_spec(t2));
        assert((t4, (p0_bit, p1_bit, m0_bit, m1_bit)) == sprites_spec(t3));

        let pixel = if self.hblank_on {
            None
        } else {
            let resmp0 = self.reg_resmp0 & flags::RESMPX_RESET != 0;
            let resmp1 = self.reg_resmp1 & flags::RESMPX_RESET != 0;
            let m0_bit = !resmp0 && m0_bit;
            let m1_bit = !resmp1 && m1_bit;
            self.lock_missiles();
            if vblank_on {
                None
            } else {
                let color = if self.reg_ctrlpf & flags::CTRLPF_PRIORITY != 0 && playfield_bit {
                    self.reg_colupf
                } else if p0_bit || m0_bit {
                    self.reg_colup0
                } else if p1_bit || m1_bit {
                    self.reg_colup1
                } else if self.reg_ctrlpf & flags::CTRLPF_PRIORITY == 0 && playfield_bit {
                    self.reg_colupf
                } else {
                    self.reg_colubk
                };
                self.detect_collisions(p0_bit, p1_bit, m0_bit, m1_bit, playfield_bit);
                Some(color)
            }
        };

        let ghost t5 = self@;
        let video = VideoOutput { hsync: self.hsync_on, vsync: vsync_on, pixel };
        let riot_tick = self.column_counter % 3 == 0;
        let cpu_tick = !self.wait_for_sync && self.column_counter % 3 == 0;
        let audio = self.audio_tick();
        let output = TiaOutput { video, audio, riot_tick, cpu_tick };
        self.column_counter = (self.column_counter + 1) % TOTAL_WIDTH;
        output
    }

    pub fn set_port(&mut self, port: Port, value: bool)
        requires
            old(self).wf(),
        ensures
            final(self).wf(),
            final(self)@ == set_port_spec(old(self)@, port, value),
    {
        let i: usize = match port {
            Port::Input4 => 0,
            Port::Input5 => 1,
        };
        self.input_ports[i] = value;
        self.update_port_register(port);
    }

    fn update_port_register(&mut self, port: Port)
        requires
            old(self).wf(),
        ensures
            final(self).wf(),
            final(self)@ == (TiaView {
                reg_inpt: old(self)@.reg_inpt.update(
                    port_index(port),
                    port_register_spec(old(self)@, port_index(port)),
                ),
                ..old(self)@
            }),
    {
        let i: usize = match port {
            Port::Input4 => 0,
            Port::Input5 => 1,
        };
        let port_value = self.input_ports[i];
        let reg_previous = self.reg_inpt[i] != 0;
        let latch = self.reg_vblank & flags::VBLANK_INPUT_LATCH != 0;

        let reg_next = port_value && (!latch || reg_previous);
        self.reg_inpt[i] = if reg_next {
            flags::INPUT_HIGH
        } else {
            0
        };
    }

    pub fn read(&self, address: u16) -> (r: ReadResult)
        ensures
            r == tia_read_spec(self@, address),
    {
        match address & 0b0000_1111 {
            registers::CXM0P => Ok(self.reg_cxm0p),
            registers::CXM1P => Ok(self.reg_cxm1p),
            registers::CXP0FB => Ok(self.reg_cxp0fb),
            registers::CXP1FB => Ok(self.reg_cxp1fb),
            registers::CXM0FB => Ok(self.reg_cxm0fb),
            registers::CXM1FB => Ok(self.reg_cxm1fb),
            registers::CXBLPF => Ok(self.reg_cxblpf),
            registers::CXPPMM => Ok(self.reg_cxppmm),
            registers::INPT4 => Ok(self.reg_inpt[0]),
            registers::INPT5 => Ok(self.reg_inpt[1]),
            _ => Err(ReadError { address }),
        }
    }

    /// Writes a register. An unsupported register can only be reached at an
    /// address below 0x100 (the table of registers initialized once covers
    /// those only).
    #[verifier::rlimit(100)]
    #[verifier::spinoff_prover]
    pub fn write(&mut self, address: u16, value: u8) -> (r: WriteResult)
        requires
            old(self).wf(),
            address < 0x100 || supported_write_register(address & 0x3F),
        ensures
            final(self).wf(),
            (final(self)@, r) == tia_write_spec(old(self)@, address, value),
    {
        let register = address & 0b0011_1111;
        assert(address & 0x3F == address & 0b0011_1111);
        match register {
            registers::VSYNC => self.reg_vsync = value,
            registers::VBLANK => {
                self.reg_vblank = value;
                self.update_port_register(Port::Input4);
                self.update_port_register(Port::Input5);
            },
            registers::WSYNC => self.wait_for_sync = true,
            registers::RSYNC => self.column_counter = TOTAL_WIDTH - 3,
            registers::NUSIZ0 => {
                set_reg_nusiz(&mut self.player0, &mut self.missile0, value);
            },
            registers::NUSIZ1 => {
                set_reg_nusiz(&mut self.player1, &mut self.missile1, value);
            },
            registers::COLUP0 => self.reg_colup0 = value,
            registers::COLUP1 => self.reg_colup1 = value,
            registers::COLUPF => self.reg_colupf = value,
            registers::COLUBK => self.reg_colubk = value,
            registers::CTRLPF => self.reg_ctrlpf = value,
            registers::REFP0 => self.player0.set_reg_refp(value),
            registers::REFP1 => self.player1.set_reg_refp(value),
            registers::PF0 => self.reg_pf0 = value,
            registers::PF1 => self.reg_pf1 = value,
            registers::PF2 => self.reg_pf2 = value,
            registers::RESP0 => self.player0.reset_position(5),
            registers::RESP1 => self.player1.reset_position(5),
            registers::RESM0 => self.missile0.reset_position(4),
            registers::RESM1 => self.missile1.reset_position(4),
            registers::AUDC0 => self.audio0.set_pattern(value),
            registers::AUDC1 => self.audio1.set_pattern(value),
            registers::AUDV0 => self.audio0.set_volume(value),
            registers::AUDV1 => self.audio1.set_volume(value),
            registers::AUDF0 => self.audio0.set_frequency_divider(value),
            registers::AUDF1 => self.audio1.set_frequency_divider(value),
            registers::GRP0 => {
                self.player1.shift_bitmaps();
                self.player0.set_bitmap(value);
            },
            registers::GRP1 => {
                self.player0.shift_bitmaps();
                self.player1.set_bitmap(value);
            },
            registers::ENAM0 => self.missile0.set_bitmap((value & flags::ENAXX_ENABLE) << 6),
            registers::ENAM1 => self.missile1.set_bitmap((value & flags::ENAXX_ENABLE) << 6),
            registers::HMP0 => self.player0.set_reg_hm(value),
            registers::HMP1 => self.player1.set_reg_hm(value),
            registers::HMM0 => self.missile0.set_reg_hm(value),
            registers::HMM1 => self.missile1.set_reg_hm(value),
            registers::VDELP0 => self.player0.set_reg_vdel(value),
            registers::VDELP1 => self.player1.set_reg_vdel(value),
            registers::RESMP0 => self.reg_resmp0 = value,
            registers::RESMP1 => self.reg_resmp1 = value,
            // Note: there is an additional delay here, but it requires
            // emulating the H-phi-1 signal.
            registers::HMOVE => {
                self.hmove_latch = true;
                self.hmove_counter = 7;
            },
            registers::HMCLR => {
                self.player0.set_reg_hm(0);
                self.player1.set_reg_hm(0);
                self.missile0.set_reg_hm(0);
                self.missile1.set_reg_hm(0);
                assert((0u8 as i8) >> 4u32 == 0i8) by (bit_vector);
            },
            registers::CXCLR => {
                self.reg_cxm0p = 0;
                self.reg_cxm1p = 0;
                self.reg_cxp0fb = 0;
                self.reg_cxp1fb = 0;
                self.reg_cxm0fb = 0;
                self.reg_cxm1fb = 0;
                self.reg_cxblpf = 0;
                self.reg_cxppmm = 0;
            },
            // Not (yet) supported. Allow one initialization pass, but that's it.
            _ => {
                if self.initialized_registers[address as usize] || value != 0 {
                    return Err(WriteError { address, value });
                }
                self.initialized_registers[address as usize] = true;
            },
        }
        Ok(())
    }
}


/// The TIA after `n` clock ticks with no register written.
pub open spec fn tia_run(t: TiaView, n: nat) -> TiaView
    decreases n,
{
    if n == 0 {
        t
    } else {
        tia_tick_spec(tia_run(t, (n - 1) as nat)).0
    }
}

/// The steps of a tick leave the beam column and the WSYNC hold alone but
/// for what `phase_spec` does.
proof fn lemma_tick_keeps_timing(t: TiaView)
    ensures
        ({
            let t1 = phase_spec(t);
            let t2 = hmove_spec(playfield_tick_spec(t1));
            let t4 = sprites_spec(t2).0;
            &&& t2.column_counter == t1.column_counter && t2.wait_for_sync == t1.wait_for_sync
            &&& t4.column_counter == t1.column_counter && t4.wait_for_sync == t1.wait_for_sync
            &&& missile_lock_spec(t4).column_counter == t1.column_counter
            &&& missile_lock_spec(t4).wait_for_sync == t1.wait_for_sync
        }),
        forall|u: TiaView, p0: bool, p1: bool, m0: bool, m1: bool, pf: bool|
            #![trigger collisions_spec(u, p0, p1, m0, m1, pf)]
            collisions_spec(u, p0, p1, m0, m1, pf).column_counter == u.column_counter
                && collisions_spec(u, p0, p1, m0, m1, pf).wait_for_sync == u.wait_for_sync,
        forall|u: TiaView| #![trigger audio_spec(u)]
            audio_spec(u).0.column_counter == u.column_counter && audio_spec(u).0.wait_for_sync
                == u.wait_for_sync,
{
}

/// What one tick does to the CPU and RIOT clocks: the RIOT runs on every
/// third column, and so does the CPU unless WSYNC holds it, which column 0
/// releases.
pub proof fn lemma_tick_clocks(t: TiaView)
    requires
        t.column_counter < TOTAL_WIDTH,
    ensures
        tia_tick_spec(t).1.riot_tick == (t.column_counter % 3 == 0),
        tia_tick_spec(t).1.cpu_tick == (t.column_counter % 3 == 0 && (t.column_counter == 0
            || !t.wait_for_sync)),
        tia_tick_spec(t).0.column_counter == (t.column_counter + 1) % (TOTAL_WIDTH as int),
        tia_tick_spec(t).0.wait_for_sync == (t.wait_for_sync && t.column_counter != 0),
{
    lemma_tick_keeps_timing(t);
}

/// Whether, starting at column `c`, one of the first `n` ticks starts at
/// column 0, which releases WSYNC.
pub open spec fn passes_column_zero(c: int, n: nat) -> bool {
    n > 0 && (c == 0 || c + n > TOTAL_WIDTH)
}

/// CPU clock law: `n` ticks after a TIA is at column `c` (no register
/// written in between), the beam is at column `(c + n) % 228`; WSYNC still
/// holds if it held and no tick started at column 0; and the next tick runs
/// the RIOT on every third column, and the CPU too unless WSYNC holds it at a
/// column other than 0. Writing WSYNC sets the hold (see `tia_write_spec`).
/// From `Tia::new` (column 0, no hold) the CPU thus runs on ticks 0, 3, 6, …
/// of each line.
#[verifier::spinoff_prover]
#[verifier::rlimit(100)]
pub proof fn lemma_cpu_clock(t: TiaView, n: nat)
    requires
        t.column_counter < TOTAL_WIDTH,
    ensures
        tia_run(t, n).column_counter == (t.column_counter + n) % (TOTAL_WIDTH as int),
        tia_run(t, n).wait_for_sync == (t.wait_for_sync && !passes_column_zero(
            t.column_counter as int,
            n,
        )),
        tia_tick_spec(tia_run(t, n)).1.riot_tick == ((t.column_counter + n) % (TOTAL_WIDTH as int)
            % 3 == 0),
        tia_tick_spec(tia_run(t, n)).1.cpu_tick == ((t.column_counter + n) % (TOTAL_WIDTH as int) % 3
            == 0 && ((t.column_counter + n) % (TOTAL_WIDTH as int) == 0 || !tia_run(t, n).wait_for_sync)),
    decreases n,
{
    if n > 0 {
        lemma_cpu_clock(t, (n - 1) as nat);
        let prev = tia_run(t, (n - 1) as nat);
        lemma_tick_clocks(prev);
        let c = t.column_counter as int;
        assert(c + n - 1 < 228 ==> (c + n - 1) % 228 == c + n - 1);
        assert(c + n - 1 == 228 ==> (c + n - 1) % 228 == 0);
        assert(((c + n - 1) % 228 + 1) % 228 == (c + n) % 228) by (nonlinear_arith)
            requires
                n >= 1,
                c >= 0,
        ;
    }
    let last = tia_run(t, n);
    assert(last.column_counter < TOTAL_WIDTH);
    lemma_tick_clocks(last);
}

} // verus!
