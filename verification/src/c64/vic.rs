//! The VIC-II video chip: raster timing, the border, the character graphics
//! layer and the raster interrupt.
use crate::memory::{Memory, ReadError, ReadResult, WriteError, WriteResult};
use vstd::prelude::*;

verus! {

pub const LEFT_BORDER_START: usize = 77;
pub const LEFT_BORDER_WIDTH: usize = 47;
pub const DISPLAY_WINDOW_START: usize = 124;
pub const DISPLAY_WINDOW_WIDTH: usize = 320;
pub const RIGHT_BORDER_START: usize = 444;
pub const RIGHT_BORDER_WIDTH: usize = 48;
pub const BORDER_END: usize = 492;
pub const VISIBLE_PIXELS: usize = 415;
pub const RASTER_LENGTH: usize = 520;
pub const RIGHT_BLANK_WIDTH: usize = 28;

pub const TOP_BORDER_FIRST_LINE: usize = 41;
pub const TOP_BORDER_HEIGHT: usize = 10;
pub const DISPLAY_WINDOW_FIRST_LINE: usize = 51;
pub const DISPLAY_WINDOW_HEIGHT: usize = 200;
pub const BOTTOM_BORDER_FIRST_LINE: usize = 251;
pub const BLANK_AREA_FIRST_LINE: usize = 13;
pub const BLANK_AREA_HEIGHT: usize = 28;
/// The blank area comes after the raster line counter rolls back to 0, so
/// the bottom border runs past the end of the frame.
pub const BOTTOM_BORDER_HEIGHT: usize = 24;
pub const VISIBLE_LINES: usize = 234;
/// Including vertical blank.
pub const TOTAL_HEIGHT: usize = 262;

/// The last line and column of the display window, and the narrower window
/// of the 38-column mode.
pub const DISPLAY_WINDOW_LAST_LINE: usize = 250;
pub const DISPLAY_WINDOW_END: usize = 443;
pub const NARROW_DISPLAY_WINDOW_START: usize = 132;
pub const NARROW_DISPLAY_WINDOW_END: usize = 435;

pub const REG_BASE: u16 = 0xD000;
pub const REG_CONTROL_1: u16 = 0xD011;
pub const REG_RASTER: u16 = 0xD012;
pub const REG_CONTROL_2: u16 = 0xD016;
pub const REG_INTERRUPT: u16 = 0xD019;
pub const REG_INTERRUPT_MASK: u16 = 0xD01A;
pub const REG_BORDER_COLOR: u16 = 0xD020;
pub const REG_BACKGROUND_COLOR_0: u16 = 0xD021;
pub const REG_BACKGROUND_COLOR_1: u16 = 0xD022;
pub const REG_SPRITE_7_COLOR: u16 = 0xD02E;

pub const CONTROL_1_YSCROLL: u8 = 0b0000_0111;
pub const CONTROL_1_RSEL: u8 = 0b0000_1000;
pub const CONTROL_1_SCREEN_ON: u8 = 0b0001_0000;
/// 8th bit of the raster line counter in the control register 1.
pub const CONTROL_1_RASTER_8: u8 = 0b1000_0000;
pub const CONTROL_2_XSCROLL: u8 = 0b0000_0111;
pub const CONTROL_2_CSEL: u8 = 0b0000_1000;
pub const CONTROL_2_MCM: u8 = 0b0001_0000;
pub const CONTROL_2_UNUSED: u8 = 0b1100_0000;
/// Raster interrupt, in the interrupt and interrupt mask registers.
pub const INTERRUPT_RASTER: u8 = 0b0000_0001;
/// There is an unacknowledged interrupt in the interrupt register.
pub const INTERRUPT_PENDING: u8 = 0b1000_0000;
/// Unused bits of the interrupt register.
pub const INTERRUPT_UNUSED: u8 = 0b0111_0000;
/// Unused bits of the interrupt mask register.
pub const INTERRUPT_MASK_UNUSED: u8 = 0b1111_0000;
/// Unused bits of color registers.
pub const COLOR_UNUSED: u8 = 0b1111_0000;

/// Converts raster line number to Y position on the rendered screen.
pub fn raster_line_to_screen_y(index: usize) -> (r: usize)
    requires
        index + TOTAL_HEIGHT <= usize::MAX,
    ensures
        r == (index + TOTAL_HEIGHT - TOP_BORDER_FIRST_LINE) % (TOTAL_HEIGHT as int),
{
    (index + TOTAL_HEIGHT - TOP_BORDER_FIRST_LINE) % TOTAL_HEIGHT
}

/// Converts Y position on the rendered screen to raster line number.
pub fn screen_y_to_raster_line(screen_y: usize) -> (r: usize)
    requires
        screen_y + TOP_BORDER_FIRST_LINE <= usize::MAX,
    ensures
        r == (screen_y + TOP_BORDER_FIRST_LINE) % (TOTAL_HEIGHT as int),
{
    (screen_y + TOP_BORDER_FIRST_LINE) % TOTAL_HEIGHT
}

/// Screen law: the two conversions undo each other on the lines of a frame.
pub proof fn lemma_screen_y_round_trip(line: nat)
    requires
        line < TOTAL_HEIGHT,
    ensures
        ((line + TOTAL_HEIGHT - TOP_BORDER_FIRST_LINE) % (TOTAL_HEIGHT as int) + TOP_BORDER_FIRST_LINE) % (
        TOTAL_HEIGHT as int) == line,
{
}

/// The video output of [`Vic::tick`]. Note that the coordinates are raw and
/// include horizontal and vertical blanking areas; it's up to the consumer to
/// crop pixels to the viewport.
#[derive(Debug, PartialEq, Eq, Structural, Clone, Copy)]
pub struct VideoOutput {
    pub color: u8,
    /// Raw X coordinate (including horizontal blanking area).
    pub x: usize,
    /// Raw Y coordinate (including vertical blanking area).
    pub raster_line: usize,
}

#[derive(Debug, PartialEq, Eq, Structural, Clone, Copy)]
pub struct VicOutput {
    /// Whether VIC reports an IRQ interrupt.
    pub irq: bool,
    pub video_output: VideoOutput,
}

pub type TickResult = Result<VicOutput, ReadError>;

/// The number of registers that can be initialized once to 0 without being
/// emulated.
pub const REGISTER_COUNT: usize = 0x2F;

/// VIC-II video chip emulator that outputs a stream of pixels. Each pixel
/// has a color from a 0..=15 range.
pub struct Vic<G: Memory, C: Memory> {
    graphics_memory: Box<G>,
    color_memory: C,
    // Registers
    reg_control_1: u8,
    reg_control_2: u8,
    reg_interrupt: u8,
    reg_interrupt_mask: u8,
    reg_border_color: u8,
    reg_background_color: u8,
    // Internal state
    /// Counts the raster lines. Note that these are not the same as Y
    /// coordinates in any space; in particular, on NTSC, raster line 0 is
    /// actually near the bottom of the screen. See [`raster_line_to_screen_y`].
    raster_counter: usize,
    /// Raster number that will trigger IRQ (if raster IRQ is enabled).
    irq_raster_line: usize,
    x_counter: usize,
    screen_on: bool,
    /// A buffer for graphics byte to be displayed next.
    graphics_buffer: u8,
    /// A buffer for graphics foreground color to be displayed.
    color_buffer: u8,
    /// A shift register for graphics byte, responsible for generating the
    /// graphics pixel by pixel.
    graphics_shifter: u8,
    /// Registers that have been initialized once; for now, other registers
    /// only accept one initialization to 0.
    reg_initialized: Vec<bool>,
}

/// The registers and internal state of the chip.
pub struct VicView {
    pub reg_control_1: u8,
    pub reg_control_2: u8,
    pub reg_interrupt: u8,
    pub reg_interrupt_mask: u8,
    pub reg_border_color: u8,
    pub reg_background_color: u8,
    pub raster_counter: usize,
    pub irq_raster_line: usize,
    pub x_counter: usize,
    pub screen_on: bool,
    pub graphics_buffer: u8,
    pub color_buffer: u8,
    pub graphics_shifter: u8,
    pub reg_initialized: Seq<bool>,
}

/// A consistent chip: the beam is within a frame, the IRQ line within 9
/// bits, and every register has its initialization flag.
pub open spec fn vic_wf(v: VicView) -> bool {
    &&& v.raster_counter < TOTAL_HEIGHT
    &&& v.x_counter < RASTER_LENGTH
    &&& v.irq_raster_line < 0x200
    &&& v.reg_initialized.len() == REGISTER_COUNT
}

/// The address in the video matrix of the character cell under the beam,
/// and of the next one.
pub open spec fn color_address(v: VicView) -> u16 {
    (0xD800 + ((v.raster_counter - DISPLAY_WINDOW_FIRST_LINE) / 8) * 40 + (v.x_counter
        - DISPLAY_WINDOW_START) / 8) as u16
}

pub open spec fn character_address(v: VicView) -> u16 {
    (0x0400 + ((v.raster_counter - DISPLAY_WINDOW_FIRST_LINE) / 8) * 40 + (v.x_counter + 1
        - DISPLAY_WINDOW_START) / 8) as u16
}

/// Reading the bitmap of the next character cell: the character index from
/// the video matrix, then the row of that character's bitmap.
pub open spec fn bitmap_read<G: Memory>(v: VicView, g: G) -> ReadResult {
    match g.read_spec(character_address(v)) {
        Err(e) => Err(e),
        Ok(index) => g.read_spec(
            (0x1000 + index * 8 + (v.raster_counter - DISPLAY_WINDOW_FIRST_LINE) % 8) as u16,
        ),
    }
}

/// One pixel of the character graphics layer. Within the display window, the
/// shifter loads the buffered bitmap byte (with the color of its cell) at the
/// column that XSCROLL selects, the next bitmap byte is fetched one pixel
/// before each cell, and the shifter's top bit picks between the cell color
/// and the background. A failed read stops the pixel, keeping what changed
/// before it.
pub open spec fn graphics_tick_spec<G: Memory, C: Memory>(v: VicView, g: G, c: C) -> (VicView, Result<
    u8,
    ReadError,
>) {
    if !(DISPLAY_WINDOW_FIRST_LINE <= v.raster_counter <= DISPLAY_WINDOW_LAST_LINE) {
        (v, Ok(v.reg_background_color))
    } else {
        let inside = DISPLAY_WINDOW_START <= v.x_counter <= DISPLAY_WINDOW_END;
        let load = inside && (v.x_counter - DISPLAY_WINDOW_START) % 8 == (v.reg_control_2
            & CONTROL_2_XSCROLL) as int;
        let loaded = if load {
            VicView { graphics_shifter: v.graphics_buffer, ..v }
        } else {
            v
        };
        let color = if load {
            c.read_spec(color_address(v))
        } else {
            Ok(v.color_buffer)
        };
        match color {
            Err(e) => (loaded, Err(e)),
            Ok(cell_color) => {
                let colored = VicView { color_buffer: cell_color, ..loaded };
                let fetch = DISPLAY_WINDOW_START - 1 <= v.x_counter <= DISPLAY_WINDOW_END - 1 && v.x_counter
                    % 8 == (DISPLAY_WINDOW_START - 1) % 8;
                let bitmap = if fetch {
                    bitmap_read(v, g)
                } else {
                    Ok(v.graphics_buffer)
                };
                match bitmap {
                    Err(e) => (colored, Err(e)),
                    Ok(byte) => {
                        let draws = colored.graphics_shifter & 0x80 != 0;
                        let shifted = VicView {
                            graphics_buffer: byte,
                            graphics_shifter: (colored.graphics_shifter << 1u8) as u8,
                            ..colored
                        };
                        (
                            shifted,
                            Ok(
                                if !inside || !draws {
                                    v.reg_background_color
                                } else {
                                    cell_color
                                },
                            ),
                        )
                    },
                }
            },
        }
    }
}

/// The raster line is latched as "screen on" only during line 48.
pub open spec fn latch_screen_on(v: VicView) -> VicView {
    if v.raster_counter == 48 {
        VicView {
            screen_on: (if v.x_counter == 0 {
                false
            } else {
                v.screen_on
            }) || v.reg_control_1 & CONTROL_1_SCREEN_ON != 0,
            ..v
        }
    } else {
        v
    }
}

/// The color on the screen: the graphics layer inside the display window
/// (the narrower one in 38-column mode) of a screen that is on, the border
/// elsewhere.
pub open spec fn pixel_color(v: VicView, graphics_color: u8) -> u8 {
    if DISPLAY_WINDOW_FIRST_LINE <= v.raster_counter <= DISPLAY_WINDOW_LAST_LINE && v.screen_on && (
    (v.reg_control_2 & CONTROL_2_CSEL == CONTROL_2_CSEL && DISPLAY_WINDOW_START <= v.x_counter
        <= DISPLAY_WINDOW_END) || (v.reg_control_2 & CONTROL_2_CSEL == 0
        && NARROW_DISPLAY_WINDOW_START <= v.x_counter <= NARROW_DISPLAY_WINDOW_END)) {
        graphics_color
    } else {
        v.reg_border_color
    }
}

/// Moving the beam one pixel on, to the next line and the next frame at the
/// ends.
pub open spec fn advance_beam(v: VicView) -> VicView {
    if v.x_counter + 1 >= RASTER_LENGTH {
        VicView {
            x_counter: 0,
            raster_counter: if v.raster_counter + 1 >= TOTAL_HEIGHT {
                0
            } else {
                (v.raster_counter + 1) as usize
            },
            ..v
        }
    } else {
        VicView { x_counter: (v.x_counter + 1) as usize, ..v }
    }
}

/// One tick of the pixel clock: the pixel under the beam, the raster
/// interrupt at the start of its line, and the beam moving on.
pub open spec fn vic_tick_spec<G: Memory, C: Memory>(v: VicView, g: G, c: C) -> (VicView, TickResult) {
    let latched = latch_screen_on(v);
    let (drawn, graphics) = graphics_tick_spec(latched, g, c);
    match graphics {
        Err(e) => (drawn, Err(e)),
        Ok(graphics_color) => {
            let color = pixel_color(drawn, graphics_color);
            let signalled = if drawn.raster_counter == drawn.irq_raster_line && drawn.x_counter == 0
                && drawn.reg_interrupt_mask & INTERRUPT_RASTER != 0 {
                VicView {
                    reg_interrupt: drawn.reg_interrupt | INTERRUPT_PENDING | INTERRUPT_RASTER,
                    ..drawn
                }
            } else {
                drawn
            };
            (
                advance_beam(signalled),
                Ok(
                    VicOutput {
                        video_output: VideoOutput {
                            x: signalled.x_counter,
                            raster_line: signalled.raster_counter,
                            color: color & !COLOR_UNUSED,
                        },
                        irq: signalled.reg_interrupt & INTERRUPT_PENDING != 0,
                    },
                ),
            )
        },
    }
}

/// What reading a register gives.
pub open spec fn vic_inspect_spec(v: VicView, address: u16) -> ReadResult {
    if address == REG_CONTROL_1 {
        Ok((v.reg_control_1 & !CONTROL_1_RASTER_8) | ((v.raster_counter / 2) as u8 & CONTROL_1_RASTER_8))
    } else if address == REG_RASTER {
        Ok(v.raster_counter as u8)
    } else if address == REG_CONTROL_2 {
        Ok(v.reg_control_2 | CONTROL_2_UNUSED)
    } else if address == REG_INTERRUPT {
        Ok(v.reg_interrupt)
    } else if address == REG_INTERRUPT_MASK {
        Ok(v.reg_interrupt_mask)
    } else if address == REG_BORDER_COLOR {
        Ok(v.reg_border_color | COLOR_UNUSED)
    } else if address == REG_BACKGROUND_COLOR_0 {
        Ok(v.reg_background_color | COLOR_UNUSED)
    } else {
        Err(ReadError { address })
    }
}

/// What writing a register does. Only the 25-row, 40-column text mode with
/// the raster interrupt is supported; sprite and extended colors are
/// ignored; any other register takes one initialization.
pub open spec fn vic_write_spec(v: VicView, address: u16, value: u8) -> (VicView, WriteResult) {
    if address == REG_CONTROL_1 {
        if value & !(CONTROL_1_RASTER_8 | CONTROL_1_SCREEN_ON) != 3 | CONTROL_1_RSEL {
            (v, Err(WriteError { address, value }))
        } else {
            (
                VicView {
                    reg_control_1: value & !CONTROL_1_RASTER_8,
                    irq_raster_line: ((v.irq_raster_line % 0x100) + if value & CONTROL_1_RASTER_8 != 0 {
                        0x100int
                    } else {
                        0
                    }) as usize,
                    ..v
                },
                Ok(()),
            )
        }
    } else if address == REG_RASTER {
        (
            VicView {
                irq_raster_line: ((v.irq_raster_line / 0x100) * 0x100 + value) as usize,
                ..v
            },
            Ok(()),
        )
    } else if address == REG_CONTROL_2 {
        if value & CONTROL_2_MCM != 0 {
            (v, Err(WriteError { address, value }))
        } else {
            (VicView { reg_control_2: value | CONTROL_2_UNUSED, ..v }, Ok(()))
        }
    } else if address == REG_INTERRUPT {
        if value & INTERRUPT_RASTER != 0 {
            (VicView { reg_interrupt: INTERRUPT_UNUSED, ..v }, Ok(()))
        } else {
            (v, Ok(()))
        }
    } else if address == REG_INTERRUPT_MASK {
        if value & !INTERRUPT_RASTER != 0 {
            (v, Err(WriteError { address, value }))
        } else {
            (VicView { reg_interrupt_mask: value | INTERRUPT_MASK_UNUSED, ..v }, Ok(()))
        }
    } else if address == REG_BORDER_COLOR {
        (VicView { reg_border_color: value | COLOR_UNUSED, ..v }, Ok(()))
    } else if address == REG_BACKGROUND_COLOR_0 {
        (VicView { reg_background_color: value | COLOR_UNUSED, ..v }, Ok(()))
    } else if REG_BACKGROUND_COLOR_1 <= address <= REG_SPRITE_7_COLOR {
        (v, Ok(()))
    } else if v.reg_initialized[address - REG_BASE] {
        (v, Err(WriteError { address, value }))
    } else {
        (
            VicView { reg_initialized: v.reg_initialized.update(address - REG_BASE, true), ..v },
            Ok(()),
        )
    }
}

impl<G: Memory, C: Memory> View for Vic<G, C> {
    type V = VicView;

    closed spec fn view(&self) -> VicView {
        VicView {
            reg_control_1: self.reg_control_1,
            reg_control_2: self.reg_control_2,
            reg_interrupt: self.reg_interrupt,
            reg_interrupt_mask: self.reg_interrupt_mask,
            reg_border_color: self.reg_border_color,
            reg_background_color: self.reg_background_color,
            raster_counter: self.raster_counter,
            irq_raster_line: self.irq_raster_line,
            x_counter: self.x_counter,
            screen_on: self.screen_on,
            graphics_buffer: self.graphics_buffer,
            color_buffer: self.color_buffer,
            graphics_shifter: self.graphics_shifter,
            reg_initialized: self.reg_initialized@,
        }
    }
}

impl<G: Memory, C: Memory> Vic<G, C> {
    /// The memory that the chip reads graphics from.
    pub closed spec fn graphics_memory_spec(&self) -> G {
        *self.graphics_memory
    }

    /// The color memory.
    pub closed spec fn color_memory_spec(&self) -> C {
        self.color_memory
    }

    pub fn new(graphics_memory: Box<G>, color_memory: C) -> (r: Self)
        ensures
            vic_wf(r@),
            r.graphics_memory_spec() == *graphics_memory,
            r.color_memory_spec() == color_memory,
            r@.reg_control_1 == 0 && r@.reg_control_2 == 0,
            r@.reg_interrupt == INTERRUPT_UNUSED && r@.reg_interrupt_mask == INTERRUPT_MASK_UNUSED,
            r@.reg_border_color == 0 && r@.reg_background_color == 0,
            r@.raster_counter == 0 && r@.irq_raster_line == 0 && r@.x_counter == 0,
            r@.screen_on,
            r@.graphics_buffer == 0 && r@.color_buffer == 0 && r@.graphics_shifter == 0,
            forall|i: int| 0 <= i < REGISTER_COUNT ==> !#[trigger] r@.reg_initialized[i],
    {
        let mut reg_initialized: Vec<bool> = Vec::new();
        let mut i: usize = 0;
        while i < REGISTER_COUNT
            invariant
                i <= REGISTER_COUNT,
                reg_initialized@.len() == i,
                forall|j: int| 0 <= j < i ==> !#[trigger] reg_initialized@[j],
            decreases REGISTER_COUNT - i,
        {
            reg_initialized.push(false);
            i = i + 1;
        }
        Vic {
            graphics_memory,
            color_memory,
            reg_control_1: 0,
            reg_control_2: 0,
            reg_interrupt: INTERRUPT_UNUSED,
            reg_interrupt_mask: INTERRUPT_MASK_UNUSED,
            reg_border_color: 0,
            reg_background_color: 0,
            raster_counter: 0,
            irq_raster_line: 0,
            x_counter: 0,
            screen_on: true,
            graphics_buffer: 0,
            color_buffer: 0,
            graphics_shifter: 0,
            reg_initialized,
        }
    }

    /// The color memory, for the CPU side of the machine to use.
    pub fn color_memory(&mut self) -> (r: &mut C)
        ensures
            *r == old(self).color_memory_spec(),
            final(self).color_memory_spec() == *final(r),
            final(self)@ == old(self)@,
            final(self).graphics_memory_spec() == old(self).graphics_memory_spec(),
    {
        &mut self.color_memory
    }

    /// The graphics memory, as the VIC sees it.
    pub fn graphics_memory(&mut self) -> (r: &mut G)
        ensures
            *r == old(self).graphics_memory_spec(),
            final(self).graphics_memory_spec() == *final(r),
            final(self)@ == old(self)@,
            final(self).color_memory_spec() == old(self).color_memory_spec(),
    {
        &mut *self.graphics_memory
    }

    /// Reads from bitmap memory a byte that corrensponds to the _next_
    /// character cell.
    fn read_bitmap_memory(&self) -> (r: ReadResult)
        requires
            DISPLAY_WINDOW_FIRST_LINE <= self@.raster_counter <= DISPLAY_WINDOW_LAST_LINE,
            DISPLAY_WINDOW_START - 1 <= self@.x_counter <= DISPLAY_WINDOW_END - 1,
        ensures
            r == bitmap_read(self@, self.graphics_memory_spec()),
    {
        let char_column = (self.x_counter + 1 - DISPLAY_WINDOW_START) / 8;
        let char_row = (self.raster_counter - DISPLAY_WINDOW_FIRST_LINE) / 8;
        let char_offset = (self.raster_counter - DISPLAY_WINDOW_FIRST_LINE) % 8;
        let character_index = match self.graphics_memory.read((0x0400 + char_row * 40 + char_column) as u16) {
            Ok(index) => index,
            Err(e) => {
                return Err(e);
            },
        };
        self.graphics_memory.read(0x1000 + character_index as u16 * 8 + char_offset as u16)
    }

    /// Reads from color memory a color that corrensponds to the _current_
    /// character cell.
    fn read_color_memory(&self) -> (r: ReadResult)
        requires
            DISPLAY_WINDOW_FIRST_LINE <= self@.raster_counter <= DISPLAY_WINDOW_LAST_LINE,
            DISPLAY_WINDOW_START <= self@.x_counter <= DISPLAY_WINDOW_END,
        ensures
            r == self.color_memory_spec().read_spec(color_address(self@)),
    {
        let char_column = (self.x_counter - DISPLAY_WINDOW_START) / 8;
        let char_row = (self.raster_counter - DISPLAY_WINDOW_FIRST_LINE) / 8;
        self.color_memory.read((0xD800 + char_row * 40 + char_column) as u16)
    }

    /// Computes the color currently produced by the character graphics layer.
    fn graphics_tick(&mut self) -> (r: Result<u8, ReadError>)
        ensures
            (final(self)@, r) == graphics_tick_spec(
                old(self)@,
                old(self).graphics_memory_spec(),
                old(self).color_memory_spec(),
            ),
            final(self).graphics_memory_spec() == old(self).graphics_memory_spec(),
            final(self).color_memory_spec() == old(self).color_memory_spec(),
    {
        if !(DISPLAY_WINDOW_FIRST_LINE <= self.raster_counter && self.raster_counter
            <= DISPLAY_WINDOW_LAST_LINE) {
            return Ok(self.reg_background_color);
        }
        let x_inside_display_window = DISPLAY_WINDOW_START <= self.x_counter && self.x_counter
            <= DISPLAY_WINDOW_END;
        if x_inside_display_window {
            let subcolumn = (self.x_counter - DISPLAY_WINDOW_START) % 8;
            // Using the XSCROLL value for comparison enables horizontal
            // scrolling by up to 7 pixels.
            if subcolumn == (self.reg_control_2 & CONTROL_2_XSCROLL) as usize {
                self.graphics_shifter = self.graphics_buffer;
                self.color_buffer = match self.read_color_memory() {
                    Ok(color) => color,
                    Err(e) => {
                        return Err(e);
                    },
                };
            }
        }
        if DISPLAY_WINDOW_START - 1 <= self.x_counter && self.x_counter <= DISPLAY_WINDOW_END - 1
            && self.x_counter % 8 == (DISPLAY_WINDOW_START - 1) % 8 {
            self.graphics_buffer = match self.read_bitmap_memory() {
                Ok(byte) => byte,
                Err(e) => {
                    return Err(e);
                },
            };
        }
        let draws_graphics_pixel = self.graphics_shifter & 0x80 != 0;
        self.graphics_shifter = self.graphics_shifter << 1u8;
        if !x_inside_display_window {
            return Ok(self.reg_background_color);
        }
        let color = if draws_graphics_pixel {
            self.color_buffer
        } else {
            self.reg_background_color
        };
        Ok(color)
    }

    /// Emulates a single tick of the pixel clock and returns a pixel color. For
    /// simplicity, we don't distinguish between blanking and visible pixels.
    pub fn tick(&mut self) -> (r: TickResult)
        requires
            vic_wf(old(self)@),
        ensures
            (final(self)@, r) == vic_tick_spec(
                old(self)@,
                old(self).graphics_memory_spec(),
                old(self).color_memory_spec(),
            ),
            vic_wf(final(self)@),
            final(self).graphics_memory_spec() == old(self).graphics_memory_spec(),
            final(self).color_memory_spec() == old(self).color_memory_spec(),
    {
        // We only sense and latch the `screen_on` flag during raster line 48.
        if self.raster_counter == 48 {
            if self.x_counter == 0 {
                self.screen_on = false;
            }
            self.screen_on = self.screen_on || self.reg_control_1 & CONTROL_1_SCREEN_ON != 0;
        }
        let graphics_color = match self.graphics_tick() {
            Ok(color) => color,
            Err(e) => {
                return Err(e);
            },
        };
        let in_display_lines = DISPLAY_WINDOW_FIRST_LINE <= self.raster_counter && self.raster_counter
            <= DISPLAY_WINDOW_LAST_LINE;
        let csel = self.reg_control_2 & CONTROL_2_CSEL;
        let color = if in_display_lines && self.screen_on && ((csel == CONTROL_2_CSEL
            && DISPLAY_WINDOW_START <= self.x_counter && self.x_counter <= DISPLAY_WINDOW_END) || (
        csel == 0 && NARROW_DISPLAY_WINDOW_START <= self.x_counter && self.x_counter
            <= NARROW_DISPLAY_WINDOW_END)) {
            graphics_color
        } else {
            self.reg_border_color
        };
        if self.raster_counter == self.irq_raster_line && self.x_counter == 0
            && self.reg_interrupt_mask & INTERRUPT_RASTER != 0 {
            self.reg_interrupt = self.reg_interrupt | INTERRUPT_PENDING | INTERRUPT_RASTER;
        }
        let output = VicOutput {
            video_output: VideoOutput {
                x: self.x_counter,
                raster_line: self.raster_counter,
                color: color & !COLOR_UNUSED,
            },
            irq: self.reg_interrupt & INTERRUPT_PENDING != 0,
        };
        self.x_counter = self.x_counter + 1;
        if self.x_counter >= RASTER_LENGTH {
            self.x_counter = 0;
            self.raster_counter = self.raster_counter + 1;
            if self.raster_counter >= TOTAL_HEIGHT {
                self.raster_counter = 0;
            }
        }
        Ok(output)
    }

    /// Reads a register; reading has no side effects.
    pub fn inspect(&self, address: u16) -> (r: ReadResult)
        ensures
            r == vic_inspect_spec(self@, address),
    {
        if address == REG_CONTROL_1 {
            Ok((self.reg_control_1 & !CONTROL_1_RASTER_8) | ((self.raster_counter / 2) as u8
                & CONTROL_1_RASTER_8))
        } else if address == REG_RASTER {
            Ok(self.raster_counter as u8)
        } else if address == REG_CONTROL_2 {
            Ok(self.reg_control_2 | CONTROL_2_UNUSED)
        } else if address == REG_INTERRUPT {
            Ok(self.reg_interrupt)
        } else if address == REG_INTERRUPT_MASK {
            Ok(self.reg_interrupt_mask)
        } else if address == REG_BORDER_COLOR {
            Ok(self.reg_border_color | COLOR_UNUSED)
        } else if address == REG_BACKGROUND_COLOR_0 {
            Ok(self.reg_background_color | COLOR_UNUSED)
        } else {
            Err(ReadError { address })
        }
    }

    pub fn read(&self, address: u16) -> (r: ReadResult)
        ensures
            r == vic_inspect_spec(self@, address),
    {
        self.inspect(address)
    }

    pub fn write(&mut self, address: u16, value: u8) -> (r: WriteResult)
        requires
            vic_wf(old(self)@),
            REG_BASE <= address < REG_BASE + REGISTER_COUNT,
        ensures
            (final(self)@, r) == vic_write_spec(old(self)@, address, value),
            vic_wf(final(self)@),
            final(self).graphics_memory_spec() == old(self).graphics_memory_spec(),
            final(self).color_memory_spec() == old(self).color_memory_spec(),
    {
        if address == REG_CONTROL_1 {
            if value & !(CONTROL_1_RASTER_8 | CONTROL_1_SCREEN_ON) != 3 | CONTROL_1_RSEL {
                return Err(WriteError { address, value });
            }
            self.reg_control_1 = value & !CONTROL_1_RASTER_8;
            let high: usize = if value & CONTROL_1_RASTER_8 != 0 {
                0x100
            } else {
                0
            };
            self.irq_raster_line = self.irq_raster_line % 0x100 + high;
        } else if address == REG_RASTER {
            self.irq_raster_line = (self.irq_raster_line / 0x100) * 0x100 + value as usize;
        } else if address == REG_CONTROL_2 {
            if value & CONTROL_2_MCM != 0 {
                return Err(WriteError { address, value });
            }
            self.reg_control_2 = value | CONTROL_2_UNUSED;
        } else if address == REG_INTERRUPT {
            // Acknowledging interrupts that are not supported in the first
            // place is ignored.
            if value & INTERRUPT_RASTER != 0 {
                self.reg_interrupt = INTERRUPT_UNUSED;
            }
        } else if address == REG_INTERRUPT_MASK {
            // Only raster interrupts are currently supported.
            if value & !INTERRUPT_RASTER != 0 {
                return Err(WriteError { address, value });
            }
            self.reg_interrupt_mask = value | INTERRUPT_MASK_UNUSED;
        } else if address == REG_BORDER_COLOR {
            self.reg_border_color = value | COLOR_UNUSED;
        } else if address == REG_BACKGROUND_COLOR_0 {
            self.reg_background_color = value | COLOR_UNUSED;
        } else if REG_BACKGROUND_COLOR_1 <= address && address <= REG_SPRITE_7_COLOR {
            // Extended background colors and sprites are not supported yet;
            // writes to their registers are ignored.
        } else {
            let index = (address - REG_BASE) as usize;
            if self.reg_initialized[index] {
                return Err(WriteError { address, value });
            }
            self.reg_initialized.set(index, true);
        }
        Ok(())
    }
}

/// The position of the beam within a frame, counted in pixels from the
/// start of raster line 0.
pub open spec fn beam_position(v: VicView) -> int {
    v.raster_counter * RASTER_LENGTH + v.x_counter
}

/// Beam law: every tick moves the beam one pixel on in raster order, back to
/// the start after the last pixel of the frame.
pub proof fn lemma_beam_advances(v: VicView)
    requires
        vic_wf(v),
    ensures
        vic_wf(advance_beam(v)),
        beam_position(advance_beam(v)) == (beam_position(v) + 1) % (RASTER_LENGTH * TOTAL_HEIGHT) as int,
{
}

/// Raster interrupt law: with the raster interrupt enabled, the pixel at the
/// start of the interrupt line reports an interrupt (unless a memory read
/// fails first).
pub proof fn lemma_raster_interrupt<G: Memory, C: Memory>(v: VicView, g: G, c: C)
    requires
        vic_wf(v),
        v.raster_counter == v.irq_raster_line,
        v.x_counter == 0,
        v.reg_interrupt_mask & INTERRUPT_RASTER != 0,
        vic_tick_spec(v, g, c).1 is Ok,
    ensures
        vic_tick_spec(v, g, c).1->Ok_0.irq,
{
    let interrupt = v.reg_interrupt;
    assert((interrupt | INTERRUPT_PENDING | INTERRUPT_RASTER) & INTERRUPT_PENDING != 0) by (bit_vector);
}

/// Acknowledge law: writing the raster bit to the interrupt register clears
/// the pending interrupt.
pub proof fn lemma_acknowledge_clears_interrupt(v: VicView, value: u8)
    requires
        vic_wf(v),
        value & INTERRUPT_RASTER != 0,
    ensures
        vic_write_spec(v, REG_INTERRUPT, value).0.reg_interrupt & INTERRUPT_PENDING == 0,
        vic_write_spec(v, REG_INTERRUPT, value).1 is Ok,
{
    assert(INTERRUPT_UNUSED & INTERRUPT_PENDING == 0) by (bit_vector);
}

} // verus!
