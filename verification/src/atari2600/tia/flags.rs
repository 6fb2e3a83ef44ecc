//! Bit masks for setting and testing TIA register values.
use vstd::prelude::*;

verus! {

/// Bit mask for turning on VSYNC signal using `VSYNC` register.
pub const VSYNC_ON: u8 = 0b0000_0010;
/// Bit mask for turning on vertical blanking using `VBLANK` register.
pub const VBLANK_ON: u8 = 0b0000_0010;
/// Bit mask for turning on input latches using `VBLANK` register.
pub const VBLANK_INPUT_LATCH: u8 = 0b0100_0000;
/// Bit mask for turning on reflected playfield using `CTRLPF` register.
pub const CTRLPF_REFLECT: u8 = 0b0000_0001;
/// Bit mask for turning on the playfield score mode using `CTRLPF` register.
pub const CTRLPF_SCORE: u8 = 0b0000_0010;
/// Bit mask for giving the playfield priority over sprites using `CTRLPF`.
pub const CTRLPF_PRIORITY: u8 = 0b0000_0100;
/// Bit mask for reflecting a player sprite using `REFPx` registers.
pub const REFPX_REFLECT: u8 = 0b0000_1000;
/// Bit mask for locking a missile to its player using `RESMPx` registers.
pub const RESMPX_RESET: u8 = 0b0000_0010;
/// Bit mask for enabling a missile using `ENAMx` registers.
pub const ENAXX_ENABLE: u8 = 0b0000_0010;
/// Bit mask for turning on vertical delay using `VDELPx` registers.
pub const VDELXX_ON: u8 = 0b0000_0001;

/// Bits of `NUSIZx` that select the number and size of player copies.
pub const NUSIZX_PLAYER_MASK: u8 = 0b0000_0111;
pub const NUSIZX_ONE_COPY: u8 = 0b0000_0000;
pub const NUSIZX_TWO_COPIES_CLOSE: u8 = 0b0000_0001;
pub const NUSIZX_TWO_COPIES_MEDIUM: u8 = 0b0000_0010;
pub const NUSIZX_THREE_COPIES_CLOSE: u8 = 0b0000_0011;
pub const NUSIZX_TWO_COPIES_WIDE: u8 = 0b0000_0100;
pub const NUSIZX_DOUBLE_SIZED_PLAYER: u8 = 0b0000_0101;
pub const NUSIZX_THREE_COPIES_MEDIUM: u8 = 0b0000_0110;
pub const NUSIZX_QUAD_SIZED_PLAYER: u8 = 0b0000_0111;
/// Bits of `NUSIZx` that select the missile width.
pub const NUSIZX_MISSILE_WIDTH_MASK: u8 = 0b0011_0000;
pub const NUSIZX_MISSILE_WIDTH_1: u8 = 0b0000_0000;
pub const NUSIZX_MISSILE_WIDTH_2: u8 = 0b0001_0000;
pub const NUSIZX_MISSILE_WIDTH_4: u8 = 0b0010_0000;
pub const NUSIZX_MISSILE_WIDTH_8: u8 = 0b0011_0000;

/// Indicates a HIGH status of an input port.
pub const INPUT_HIGH: u8 = 0b1000_0000;

} // verus!
