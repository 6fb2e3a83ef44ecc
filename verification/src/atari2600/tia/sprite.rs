use super::flags;
use crate::delay_buffer::{shift_spec, DelayBuffer};
use vstd::prelude::*;

verus! {

/// The position counter values that trigger a "start drawing" signal for
/// player sprites, for each value of a NUSIZx register masked with
/// `flags::NUSIZX_PLAYER_MASK`. Double and quad-size player sprites add 1
/// CLK to the position counter, hence 157 instead of 156.
pub open spec fn player_offsets_spec(nusiz: u8) -> Seq<i32> {
    if nusiz == 0 {
        seq![156i32]
    } else if nusiz == 1 {
        seq![156i32, 12]
    } else if nusiz == 2 {
        seq![156i32, 28]
    } else if nusiz == 3 {
        seq![156i32, 12, 28]
    } else if nusiz == 4 {
        seq![156i32, 60]
    } else if nusiz == 5 {
        seq![157i32]
    } else if nusiz == 6 {
        seq![156i32, 28, 60]
    } else {
        seq![157i32]
    }
}

/// The position counter values that trigger a "start drawing" signal for
/// missile sprites, for each value of a NUSIZx register masked with
/// `flags::NUSIZX_PLAYER_MASK`.
pub open spec fn missile_offsets_spec(nusiz: u8) -> Seq<i32> {
    if nusiz == 0 {
        seq![156i32]
    } else if nusiz == 1 {
        seq![156i32, 12]
    } else if nusiz == 2 {
        seq![156i32, 28]
    } else if nusiz == 3 {
        seq![156i32, 12, 28]
    } else if nusiz == 4 {
        seq![156i32, 60]
    } else if nusiz == 6 {
        seq![156i32, 28, 60]
    } else {
        seq![156i32]
    }
}

fn player_offsets(nusiz: u8) -> (r: Vec<i32>)
    ensures
        r@ == player_offsets_spec(nusiz),
{
    let r = match nusiz {
        0 => vec![156],
        1 => vec![156, 12],
        2 => vec![156, 28],
        3 => vec![156, 12, 28],
        4 => vec![156, 60],
        5 => vec![157],
        6 => vec![156, 28, 60],
        _ => vec![157],
    };
    assert(r@ == player_offsets_spec(nusiz));
    r
}

fn missile_offsets(nusiz: u8) -> (r: Vec<i32>)
    ensures
        r@ == missile_offsets_spec(nusiz),
{
    let r = match nusiz {
        0 => vec![156],
        1 => vec![156, 12],
        2 => vec![156, 28],
        3 => vec![156, 12, 28],
        4 => vec![156, 60],
        6 => vec![156, 28, 60],
        _ => vec![156],
    };
    assert(r@ == missile_offsets_spec(nusiz));
    r
}

fn contains(values: &Vec<i32>, x: i32) -> (r: bool)
    ensures
        r == values@.contains(x),
{
    let mut i: usize = 0;
    while i < values.len()
        invariant
            i <= values@.len(),
            forall|j: int| 0 <= j < i ==> values@[j] != x,
        decreases values@.len() - i,
    {
        if values[i] == x {
            return true;
        }
        i = i + 1;
    }
    false
}

/// What a sprite holds.
pub struct SpriteView {
    pub position_counter: i32,
    pub current_start: i32,
    pub offsets: Seq<i32>,
    pub scale: i32,
    pub bitmaps: Seq<u8>,
    pub bitmap_index: usize,
    pub bitmap_buffer: Seq<u8>,
    pub current_bit: Option<u8>,
    pub reflect: bool,
    pub reset_countdown: i32,
    pub hmove_offset: i8,
    pub mask_buffer: Seq<u8>,
    pub start_drawing_buffer: Seq<bool>,
}

/// Represents a sprite graphics state: the pixel counter and bitmap. Also
/// handles RESPx register strobing.
#[derive(Debug)]
pub struct Sprite {
    position_counter: i32,
    /// Position counter value where the current sprite copy was started.
    current_start: i32,
    /// A list of position counter values that trigger a "start drawing" signal.
    offsets: Vec<i32>,
    scale: i32,
    /// New and old bitmap.
    bitmaps: [u8; 2],
    /// Index to the bitmaps array.
    bitmap_index: usize,
    /// A buffer that holds the bitmap to be drawn.
    bitmap_buffer: DelayBuffer<u8>,
    /// Index of the current bit being rendered (if any).
    current_bit: Option<u8>,
    reflect: bool,
    /// Counts down until position reset happens to emulate TIA latching delays.
    reset_countdown: i32,
    hmove_offset: i8,
    /// A buffer for bit masks.
    mask_buffer: DelayBuffer<u8>,
    /// A buffer that delays the "start drawing" signal.
    start_drawing_buffer: DelayBuffer<bool>,
}

impl View for Sprite {
    type V = SpriteView;

    closed spec fn view(&self) -> SpriteView {
        SpriteView {
            position_counter: self.position_counter,
            current_start: self.current_start,
            offsets: self.offsets@,
            scale: self.scale,
            bitmaps: self.bitmaps@,
            bitmap_index: self.bitmap_index,
            bitmap_buffer: self.bitmap_buffer.contents(),
            current_bit: self.current_bit,
            reflect: self.reflect,
            reset_countdown: self.reset_countdown,
            hmove_offset: self.hmove_offset,
            mask_buffer: self.mask_buffer.contents(),
            start_drawing_buffer: self.start_drawing_buffer.contents(),
        }
    }
}

/// The counters stay in range: the position counter and the start of the
/// current copy within a scanline, the current bit within a byte, the scale
/// one of 1, 2, 4 and 8; the delay lines keep their lengths.
pub open spec fn sprite_view_wf(s: SpriteView) -> bool {
    &&& 0 <= s.position_counter < 160
    &&& 0 <= s.current_start < 160
    &&& (s.scale == 1 || s.scale == 2 || s.scale == 4 || s.scale == 8)
    &&& s.bitmaps.len() == 2
    &&& s.bitmap_index < 2
    &&& (s.current_bit matches Some(b) ==> b <= 7)
    &&& s.bitmap_buffer.len() == 3
    &&& s.mask_buffer.len() == 3
    &&& s.start_drawing_buffer.len() == 4
}

/// The reset countdown: when it runs out, the position counter restarts.
pub open spec fn countdown_spec(s: SpriteView) -> SpriteView {
    if s.reset_countdown > 0 {
        let c = s.reset_countdown - 1;
        SpriteView {
            reset_countdown: c as i32,
            position_counter: if c == 0 {
                0
            } else {
                s.position_counter
            },
            ..s
        }
    } else {
        s
    }
}

/// The bit mask that the current bit selects (reflected if asked to).
pub open spec fn bit_mask(current_bit: Option<u8>, reflect: bool) -> u8 {
    match current_bit {
        None => 0,
        Some(bit) => 1u8 << (if reflect {
            (7 - bit) as u8
        } else {
            bit
        }),
    }
}

/// One clock of a sprite: the bitmap moves through its delay line; when the
/// sprite clock runs, a copy starts where the position counter hits an
/// offset (after a delay), bits are drawn `scale` clocks each, and the
/// position counter advances. Returns whether a pixel is drawn.
#[verifier::opaque]
pub open spec fn sprite_tick_spec(s: SpriteView, run_sprite_clock: bool) -> (SpriteView, bool) {
    let s1 = countdown_spec(s);
    let (bitmap, bitmap_buffer) = shift_spec(s1.bitmap_buffer, s1.bitmaps[s1.bitmap_index as int]);
    let s2 = SpriteView { bitmap_buffer, ..s1 };
    if run_sprite_clock {
        let (start, start_drawing_buffer) = shift_spec(
            s2.start_drawing_buffer,
            s2.offsets.contains(s2.position_counter),
        );
        let s3 = if start {
            SpriteView {
                current_bit: Some(7u8),
                current_start: s2.position_counter,
                start_drawing_buffer,
                ..s2
            }
        } else {
            SpriteView { start_drawing_buffer, ..s2 }
        };
        let (mask, mask_buffer) = shift_spec(s3.mask_buffer, bit_mask(s3.current_bit, s3.reflect));
        let position_counter = (s3.position_counter + 1) % 160;
        let go_to_next_bit = (position_counter - s3.current_start) % (s3.scale as int) == 0;
        let current_bit = if go_to_next_bit {
            match s3.current_bit {
                None => None,
                Some(bit) => if bit == 0 {
                    None
                } else {
                    Some((bit - 1) as u8)
                },
            }
        } else {
            s3.current_bit
        };
        (
            SpriteView {
                mask_buffer,
                position_counter: position_counter as i32,
                current_bit,
                ..s3
            },
            bitmap & mask != 0,
        )
    } else {
        (s2, false)
    }
}

/// An HMOVE clock: an extra sprite clock when the HMOVE offset reaches the
/// HMOVE counter.
pub open spec fn hmove_tick_spec(s: SpriteView, hmove_counter: i8) -> SpriteView {
    if s.hmove_offset >= hmove_counter {
        sprite_tick_spec(s, true).0
    } else {
        s
    }
}

/// A sprite whose position is reset after `delay` clocks.
pub open spec fn reset_position_spec(s: SpriteView, delay: i32) -> SpriteView {
    SpriteView {
        reset_countdown: delay,
        position_counter: if delay == 0 {
            0
        } else {
            s.position_counter
        },
        ..s
    }
}

/// The scale of a player for a NUSIZx value masked with
/// `flags::NUSIZX_PLAYER_MASK`.
pub open spec fn player_scale(player_value: u8) -> i32 {
    if player_value == flags::NUSIZX_DOUBLE_SIZED_PLAYER {
        2
    } else if player_value == flags::NUSIZX_QUAD_SIZED_PLAYER {
        4
    } else {
        1
    }
}

/// The scale of a missile for a NUSIZx value masked with
/// `flags::NUSIZX_MISSILE_WIDTH_MASK`.
pub open spec fn missile_scale(missile_value: u8) -> i32 {
    if missile_value == flags::NUSIZX_MISSILE_WIDTH_2 {
        2
    } else if missile_value == flags::NUSIZX_MISSILE_WIDTH_4 {
        4
    } else if missile_value == flags::NUSIZX_MISSILE_WIDTH_8 {
        8
    } else {
        1
    }
}

/// A sprite at power-on: one copy at normal size and position 0, empty
/// bitmaps, no reflection, no pending reset or motion, and delay lines that
/// hold nothing to draw.
pub open spec fn new_sprite_view() -> SpriteView {
    SpriteView {
        position_counter: 0,
        current_start: 0,
        offsets: player_offsets_spec(flags::NUSIZX_ONE_COPY),
        scale: 1,
        bitmaps: seq![0u8, 0u8],
        bitmap_index: 0,
        bitmap_buffer: seq![0u8, 0u8, 0u8],
        current_bit: None,
        reflect: false,
        reset_countdown: 0,
        hmove_offset: 0,
        mask_buffer: seq![0u8, 0u8, 0u8],
        start_drawing_buffer: seq![false, false, false, false],
    }
}

impl Sprite {
    pub open spec fn wf(&self) -> bool {
        &&& sprite_view_wf(self@)
        &&& self.buffers_wf()
    }

    /// The delay lines are proper (not 0-sized) buffers.
    pub closed spec fn buffers_wf(&self) -> bool {
        &&& self.bitmap_buffer.wf()
        &&& !self.bitmap_buffer.is_immediate()
        &&& self.mask_buffer.wf()
        &&& !self.mask_buffer.is_immediate()
        &&& self.start_drawing_buffer.wf()
        &&& !self.start_drawing_buffer.is_immediate()
    }

    pub fn new() -> (r: Self)
        ensures
            r.wf(),
            r@ == new_sprite_view(),
    {
        let r = Sprite {
            position_counter: 0,
            current_start: 0,
            offsets: player_offsets(flags::NUSIZX_ONE_COPY),
            scale: 1,
            bitmaps: [0b0000_0000, 0b0000_0000],
            bitmap_index: 0,
            bitmap_buffer: DelayBuffer::new(3),
            current_bit: None,
            reflect: false,
            reset_countdown: 0,
            hmove_offset: 0,
            mask_buffer: DelayBuffer::new(3),
            start_drawing_buffer: DelayBuffer::new(4),
        };
        assert(r.bitmaps@ == seq![0u8, 0u8]);
        assert(r.bitmap_buffer.contents() =~= seq![0u8, 0u8, 0u8]);
        assert(r.mask_buffer.contents() =~= seq![0u8, 0u8, 0u8]);
        assert(r.start_drawing_buffer.contents() =~= seq![false, false, false, false]);
        r
    }

    pub fn position_counter(&self) -> (r: i32)
        ensures
            r == self@.position_counter,
    {
        self.position_counter
    }

    /// Sets the REFPx register value, which controls the player image
    /// reflection.
    pub fn set_reg_refp(&mut self, value: u8)
        requires
            old(self).wf(),
        ensures
            final(self).wf(),
            final(self)@ == (SpriteView {
                reflect: value & flags::REFPX_REFLECT != 0,
                ..old(self)@
            }),
    {
        self.reflect = value & flags::REFPX_REFLECT != 0;
    }

    /// Sets the new bitmap.
    pub fn set_bitmap(&mut self, bitmap: u8)
        requires
            old(self).wf(),
        ensures
            final(self).wf(),
            final(self)@ == (SpriteView {
                bitmaps: old(self)@.bitmaps.update(0, bitmap),
                ..old(self)@
            }),
    {
        self.bitmaps[0] = bitmap;
    }

    /// Copies the new bitmap to the old one (vertical delay).
    pub fn shift_bitmaps(&mut self)
        requires
            old(self).wf(),
        ensures
            final(self).wf(),
            final(self)@ == (SpriteView {
                bitmaps: old(self)@.bitmaps.update(1, old(self)@.bitmaps[0]),
                ..old(self)@
            }),
    {
        self.bitmaps[1] = self.bitmaps[0];
    }

    /// Sets the HMxx register value, which controls the HMOVE offset: its high
    /// nibble, as a signed number.
    pub fn set_reg_hm(&mut self, value: u8)
        requires
            old(self).wf(),
        ensures
            final(self).wf(),
            final(self)@ == (SpriteView { hmove_offset: (value as i8) >> 4u32, ..old(self)@ }),
    {
        self.hmove_offset = (value as i8) >> 4;
    }

    /// Sets the VDELPx register, which controls the player image delay.
    pub fn set_reg_vdel(&mut self, value: u8)
        requires
            old(self).wf(),
        ensures
            final(self).wf(),
            final(self)@ == (SpriteView {
                bitmap_index: (value & flags::VDELXX_ON) as usize,
                ..old(self)@
            }),
    {
        proof {
            crate::bits::lemma_byte_mask_bound(value, 1);
        }
        self.bitmap_index = (value & flags::VDELXX_ON) as usize;
    }

    /// Performs a clock tick and returns `true` if a player pixel should be
    /// drawn, or `false` otherwise.
    pub fn tick(&mut self, run_sprite_clock: bool) -> (r: bool)
        requires
            old(self).wf(),
        ensures
            final(self).wf(),
            (final(self)@, r) == sprite_tick_spec(old(self)@, run_sprite_clock),
    {
        reveal(sprite_tick_spec);
        if self.reset_countdown > 0 {
            self.reset_countdown -= 1;
            if self.reset_countdown == 0 {
                self.position_counter = 0;
            }
        }

        let bitmap = self.bitmap_buffer.shift(self.bitmaps[self.bitmap_index]);

        if run_sprite_clock {
            let start = self.start_drawing_buffer.shift(
                contains(&self.offsets, self.position_counter),
            );
            if start {
                self.current_bit = Some(7);
                self.current_start = self.position_counter;
            }
            let mask = self.mask_buffer.shift(
                match self.current_bit {
                    None => 0,
                    Some(bit) => 1 << if self.reflect {
                        7 - bit
                    } else {
                        bit
                    },
                },
            );
            self.position_counter = (self.position_counter + 1) % 160;
            let go_to_next_bit = (self.position_counter - self.current_start) % self.scale == 0;
            if go_to_next_bit {
                self.current_bit =
                    match self.current_bit {
                        None => None,
                        Some(0) => None,
                        Some(bit) => Some(bit - 1),
                    };
            }
            bitmap & mask != 0
        } else {
            false
        }
    }

    pub fn hmove_tick(&mut self, hmove_counter: i8)
        requires
            old(self).wf(),
        ensures
            final(self).wf(),
            final(self)@ == hmove_tick_spec(old(self)@, hmove_counter),
    {
        reveal(sprite_tick_spec);
        if self.hmove_offset >= hmove_counter {
            self.tick(true);
        }
    }

    /// Resets player position. Called when RESPx register gets strobed.
    pub fn reset_position(&mut self, delay: i32)
        requires
            old(self).wf(),
        ensures
            final(self).wf(),
            final(self)@ == reset_position_spec(old(self)@, delay),
    {
        self.reset_countdown = delay;
        if self.reset_countdown == 0 {
            self.position_counter = 0;
        }
    }
}

/// A sprite after a clock tick for each of `clocks`, in order (each one
/// telling whether the sprite clock runs).
pub open spec fn sprite_ticks(s: SpriteView, clocks: Seq<bool>) -> SpriteView
    decreases clocks.len(),
{
    if clocks.len() == 0 {
        s
    } else {
        sprite_tick_spec(sprite_ticks(s, clocks.drop_last()), clocks.last()).0
    }
}

proof fn lemma_countdown_runs(s: SpriteView, clocks: Seq<bool>)
    requires
        s.reset_countdown > 0,
        clocks.len() <= s.reset_countdown,
    ensures
        sprite_ticks(s, clocks).reset_countdown == s.reset_countdown - clocks.len(),
    decreases clocks.len(),
{
    reveal(sprite_tick_spec);
    if clocks.len() > 0 {
        lemma_countdown_runs(s, clocks.drop_last());
    }
}

/// Position reset law: after `reset_position(delay)`, a delay of 0 puts the
/// position counter at 0 at once. Otherwise the reset is pending for `delay`
/// ticks, whatever they are: on the `delay`-th tick the counter goes to 0
/// before the clock advances, so it reads 0 after that tick when the sprite
/// clock did not run, and 1 when it did.
pub proof fn lemma_reset_after_delay(s: SpriteView, delay: i32, clocks: Seq<bool>)
    requires
        sprite_view_wf(s),
        delay >= 0,
        clocks.len() == delay,
    ensures
        delay == 0 ==> reset_position_spec(s, delay).position_counter == 0,
        forall|k: int|
            0 <= k < delay ==> (#[trigger] sprite_ticks(reset_position_spec(s, delay), clocks.take(k))).reset_countdown
                == delay - k,
        delay > 0 ==> sprite_ticks(reset_position_spec(s, delay), clocks).position_counter == if clocks.last() {
            1int
        } else {
            0
        },
        delay > 0 ==> sprite_ticks(reset_position_spec(s, delay), clocks).reset_countdown == 0,
{
    let r = reset_position_spec(s, delay);
    assert forall|k: int| 0 <= k < delay implies (#[trigger] sprite_ticks(r, clocks.take(k))).reset_countdown
        == delay - k by {
        lemma_countdown_runs(r, clocks.take(k));
    }
    if delay > 0 {
        reveal(sprite_tick_spec);
        let front = clocks.drop_last();
        lemma_countdown_runs(r, front);
        assert(clocks.drop_last() == front);
    }
}

/// Sets sprites' offset and scale values basing on a NUSIZx register value.
pub fn set_reg_nusiz(player: &mut Sprite, missile: &mut Sprite, value: u8)
    requires
        old(player).wf(),
        old(missile).wf(),
    ensures
        final(player).wf(),
        final(missile).wf(),
        final(player)@ == (SpriteView {
            offsets: player_offsets_spec(value & flags::NUSIZX_PLAYER_MASK),
            scale: player_scale(value & flags::NUSIZX_PLAYER_MASK),
            ..old(player)@
        }),
        final(missile)@ == (SpriteView {
            offsets: missile_offsets_spec(value & flags::NUSIZX_PLAYER_MASK),
            scale: missile_scale(value & flags::NUSIZX_MISSILE_WIDTH_MASK),
            ..old(missile)@
        }),
{
    let player_value = value & flags::NUSIZX_PLAYER_MASK;
    let missile_value = value & flags::NUSIZX_MISSILE_WIDTH_MASK;
    player.offsets = player_offsets(player_value);
    player.scale = match player_value {
        flags::NUSIZX_DOUBLE_SIZED_PLAYER => 2,
        flags::NUSIZX_QUAD_SIZED_PLAYER => 4,
        _ => 1,
    };
    missile.offsets = missile_offsets(player_value);
    missile.scale = match missile_value {
        flags::NUSIZX_MISSILE_WIDTH_1 => 1,
        flags::NUSIZX_MISSILE_WIDTH_2 => 2,
        flags::NUSIZX_MISSILE_WIDTH_4 => 4,
        flags::NUSIZX_MISSILE_WIDTH_8 => 8,
        _ => 1,
    };
}

/// Returns missile reset delay appropriate to the scale of player sprite.
pub fn missile_reset_delay_for_player(player: &Sprite) -> (r: i32)
    ensures
        r == if player@.scale == 2 {
            8i32
        } else if player@.scale == 4 {
            11i32
        } else {
            4i32
        },
{
    match player.scale {
        2 => 8,
        4 => 11,
        _ => 4,
    }
}

} // verus!
