use vstd::prelude::*;

verus! {

/// What a TIA audio channel holds: its registers, the frequency divider and
/// the dividers and polynomial counters that make the waveforms.
pub struct AudioGeneratorView {
    pub volume: u8,
    pub pattern: u8,
    pub frequency_divider: u8,
    pub frequency_counter: u8,
    pub div2: u32,
    pub div3: u32,
    pub div31: u32,
    pub poly4: u32,
    pub poly5: u32,
    pub poly9: u32,
}

#[derive(Debug)]
pub struct AudioGenerator {
    volume: u8,
    pattern: u8,
    frequency_divider: u8,
    frequency_counter: u8,
    div2: u32,
    div3: u32,
    div31: u32,
    poly4: u32,
    poly5: u32,
    poly9: u32,
}

impl View for AudioGenerator {
    type V = AudioGeneratorView;

    closed spec fn view(&self) -> AudioGeneratorView {
        AudioGeneratorView {
            volume: self.volume,
            pattern: self.pattern,
            frequency_divider: self.frequency_divider,
            frequency_counter: self.frequency_counter,
            div2: self.div2,
            div3: self.div3,
            div31: self.div31,
            poly4: self.poly4,
            poly5: self.poly5,
            poly9: self.poly9,
        }
    }
}

/// Each register and counter stays within its width.
pub open spec fn audio_wf(g: AudioGeneratorView) -> bool {
    &&& g.volume <= 15
    &&& g.pattern <= 15
    &&& g.frequency_divider <= 31
    &&& g.frequency_counter <= 31
    &&& g.div2 < 2
    &&& g.div3 < 3
    &&& g.div31 < 31
    &&& g.poly4 < 16
    &&& g.poly5 < 32
    &&& g.poly9 < 512
}

/// The waveform bit (0 or 1) that a pattern selects.
pub open spec fn waveform_bit(g: AudioGeneratorView) -> u32 {
    let p = g.pattern;
    if p == 0x0 || p == 0xB {
        1
    } else if p == 0x1 || p == 0x2 || p == 0x3 {
        g.poly4 & 1
    } else if p == 0x4 || p == 0x5 || p == 0xC || p == 0xD {
        g.div2
    } else if p == 0x6 || p == 0xA || p == 0xE {
        if g.div31 < 18 {
            1
        } else {
            0
        }
    } else if p == 0x7 || p == 0x9 || p == 0xF {
        g.poly5 & 1
    } else {
        g.poly9 & 1
    }
}

/// The sample that a tick produces: the waveform bit times the volume.
pub open spec fn sample(g: AudioGeneratorView) -> u8 {
    (waveform_bit(g) * g.volume) as u8
}

/// One step of a linear feedback shift register of `width` bits whose
/// feedback taps are bit 0 and bit `tap`.
pub open spec fn lfsr_step(x: u32, tap: u32, width: u32) -> u32 {
    (x >> 1) | ((((x & 1) << tap) ^ (x & (1u32 << tap))) << ((width - 1 - tap) as u32))
}

/// The generator after its counters advance (the frequency divider reached
/// its limit).
pub open spec fn advanced(g: AudioGeneratorView) -> AudioGeneratorView {
    let div3 = (g.div3 + 1) % 3;
    let div31 = if g.pattern != 0xE || div3 == 0 {
        (g.div31 + 1) % 31
    } else {
        g.div31 as int
    };
    let div2 = if (g.pattern != 0xC && g.pattern != 0xD) || div3 == 0 {
        (g.div2 + 1) % 2
    } else {
        g.div2 as int
    };
    let poly5_carry = g.poly5 & 1 != 0;
    let poly5 = if g.pattern != 0xF || div3 == 0 {
        lfsr_step(g.poly5, 2, 5)
    } else {
        g.poly5
    };
    let poly4_runs = if g.pattern == 0x2 {
        div31 == 0 || div31 == 18
    } else if g.pattern == 0x3 {
        poly5_carry
    } else {
        true
    };
    let poly4 = if poly4_runs {
        lfsr_step(g.poly4, 1, 4)
    } else {
        g.poly4
    };
    AudioGeneratorView {
        frequency_counter: 0,
        div3: div3 as u32,
        div31: div31 as u32,
        div2: div2 as u32,
        poly5,
        poly4,
        poly9: lfsr_step(g.poly9, 4, 9),
        ..g
    }
}

/// One tick: the frequency counter either counts up or, once it reaches the
/// divider, restarts and advances the waveform counters.
#[verifier::opaque]
pub open spec fn audio_tick_spec(g: AudioGeneratorView) -> AudioGeneratorView {
    if g.frequency_counter >= g.frequency_divider {
        advanced(g)
    } else {
        AudioGeneratorView { frequency_counter: (g.frequency_counter + 1) as u8, ..g }
    }
}

proof fn lemma_masks(x: u32)
    by (bit_vector)
    ensures
        x & 1 <= 1,
        x & 0b10 == x & (1u32 << 1u32),
        x & 0b100 == x & (1u32 << 2u32),
        x & 0b1_0000 == x & (1u32 << 4u32),
{
}

proof fn lemma_lfsr_bounds(x: u32)
    ensures
        x < 16 ==> lfsr_step(x, 1, 4) < 16,
        x < 32 ==> lfsr_step(x, 2, 5) < 32,
        x < 512 ==> lfsr_step(x, 4, 9) < 512,
{
    assert((x < 16 ==> ((x >> 1) | ((((x & 1) << 1u32) ^ (x & (1u32 << 1u32))) << 2u32)) < 16) && (x
        < 32 ==> ((x >> 1) | ((((x & 1) << 2u32) ^ (x & (1u32 << 2u32))) << 2u32)) < 32) && (x < 512
        ==> ((x >> 1) | ((((x & 1) << 4u32) ^ (x & (1u32 << 4u32))) << 4u32)) < 512))
        by (bit_vector);
}

/// A single-channel TIA audio generator.
impl AudioGenerator {
    pub open spec fn wf(&self) -> bool {
        audio_wf(self@)
    }

    /// A silent generator. The divide-by-two counter starts low, so that a
    /// square wave starts with a low half.
    pub fn new() -> (r: Self)
        ensures
            r.wf(),
            r@ == (AudioGeneratorView {
                volume: 0,
                pattern: 0,
                frequency_divider: 0,
                frequency_counter: 0,
                div2: 0,
                div3: 0,
                div31: 0,
                poly4: 0b1111,
                poly5: 0b0001_1111,
                poly9: 0b0001_1111_1111,
            }),
    {
        Self {
            volume: 0,
            pattern: 0,
            frequency_divider: 0,
            frequency_counter: 0,
            div2: 0,
            div3: 0,
            div31: 0,
            poly4: 0b1111,
            poly5: 0b0001_1111,
            poly9: 0b0001_1111_1111,
        }
    }

    /// Sets the volume (AUDVx): its low 4 bits.
    pub fn set_volume(&mut self, vol: u8)
        requires
            old(self).wf(),
        ensures
            final(self).wf(),
            final(self)@ == (AudioGeneratorView { volume: vol & 0x0F, ..old(self)@ }),
    {
        proof {
            crate::bits::lemma_byte_mask_bound(vol, 0b0000_1111);
        }
        self.volume = vol & 0b0000_1111;
    }

    /// Sets the waveform pattern (AUDCx): its low 4 bits.
    pub fn set_pattern(&mut self, pattern: u8)
        requires
            old(self).wf(),
        ensures
            final(self).wf(),
            final(self)@ == (AudioGeneratorView { pattern: pattern & 0x0F, ..old(self)@ }),
    {
        proof {
            crate::bits::lemma_byte_mask_bound(pattern, 0b0000_1111);
        }
        self.pattern = pattern & 0b0000_1111;
    }

    /// Sets the frequency divider (AUDFx): its low 5 bits.
    pub fn set_frequency_divider(&mut self, divider: u8)
        requires
            old(self).wf(),
        ensures
            final(self).wf(),
            final(self)@ == (AudioGeneratorView {
                frequency_divider: divider & 0x1F,
                ..old(self)@
            }),
    {
        proof {
            crate::bits::lemma_byte_mask_bound(divider, 0b0001_1111);
        }
        self.frequency_divider = divider & 0b0001_1111;
    }

    /// Performs a single tick of audio generator. It's supposed to be called
    /// twice per scanline. Returns a sample from a [0,15] range.
    pub fn tick(&mut self) -> (r: u8)
        requires
            old(self).wf(),
        ensures
            final(self).wf(),
            r == sample(old(self)@),
            r <= 15,
            r == 0 || r == old(self)@.volume,
            final(self)@ == audio_tick_spec(old(self)@),
            final(self)@.volume == old(self)@.volume,
            final(self)@.pattern == old(self)@.pattern,
            final(self)@.frequency_divider == old(self)@.frequency_divider,
    {
        reveal(audio_tick_spec);
        proof {
            lemma_masks(self.poly4);
            lemma_masks(self.poly5);
            lemma_masks(self.poly9);
        }
        let bit: u32 = match self.pattern {
            0x0 | 0xB => 1,
            0x1 | 0x2 | 0x3 => self.poly4 & 0b1,
            0x4 | 0x5 => self.div2,
            0x6 | 0xA | 0xE => {
                if self.div31 < 18 {
                    1
                } else {
                    0
                }
            },
            0x7 | 0x9 | 0xF => self.poly5 & 0b1,
            0x8 => self.poly9 & 0b1,
            0xC | 0xD => self.div2,
            _ => 0,
        };
        let volume = self.volume;
        assert(bit <= 1);
        assert((bit as u8) * volume <= 15) by (nonlinear_arith)
            requires
                bit <= 1,
                volume <= 15,
        ;
        let output = bit as u8 * self.volume;
        assert(output == 0 || output == volume) by (nonlinear_arith)
            requires
                bit <= 1,
                output == (bit as u8) * volume,
        ;

        if self.frequency_counter >= self.frequency_divider {
            proof {
                lemma_lfsr_bounds(self.poly4);
                lemma_lfsr_bounds(self.poly5);
                lemma_lfsr_bounds(self.poly9);
            }
            self.frequency_counter = 0;
            self.div3 = (self.div3 + 1) % 3;
            if self.pattern != 0xE || self.div3 == 0 {
                self.div31 = (self.div31 + 1) % 31;
            }
            if (self.pattern != 0xC && self.pattern != 0xD) || self.div3 == 0 {
                self.div2 = (self.div2 + 1) % 2;
            }
            let poly5_carry = self.poly5 & 0b1 != 0;
            if self.pattern != 0xF || self.div3 == 0 {
                let new_bit = (((self.poly5 & 0b1) << 2) ^ (self.poly5 & 0b100)) << 2;
                self.poly5 = (self.poly5 >> 1) | new_bit;
            }
            if match self.pattern {
                0x2 => self.div31 == 0 || self.div31 == 18,
                0x3 => poly5_carry,
                _ => true,
            } {
                let new_bit = (((self.poly4 & 0b1) << 1) ^ (self.poly4 & 0b10)) << 2;
                self.poly4 = (self.poly4 >> 1) | new_bit;
            }
            let new_bit = (((self.poly9 & 0b1) << 4) ^ (self.poly9 & 0b1_0000)) << 4;
            self.poly9 = (self.poly9 >> 1) | new_bit;
        } else {
            self.frequency_counter += 1;
        }
        output
    }
}


/// The generator after `n` ticks with no register written.
pub open spec fn audio_run(g: AudioGeneratorView, n: nat) -> AudioGeneratorView
    decreases n,
{
    if n == 0 {
        g
    } else {
        audio_tick_spec(audio_run(g, (n - 1) as nat))
    }
}

/// Ticks keep the registers: volume, pattern and frequency divider.
pub proof fn lemma_run_keeps_registers(g: AudioGeneratorView, n: nat)
    ensures
        audio_run(g, n).volume == g.volume,
        audio_run(g, n).pattern == g.pattern,
        audio_run(g, n).frequency_divider == g.frequency_divider,
    decreases n,
{
    reveal(audio_tick_spec);
    if n > 0 {
        lemma_run_keeps_registers(g, (n - 1) as nat);
    }
}

/// Square wave law: with the pure square wave patterns (AUDCx 4 or 5) and
/// the frequency counter at 0, the divide-by-two counter flips once every
/// `divider + 1` ticks. So the samples come in runs of exactly
/// `divider + 1` equal values, alternating between the volume and 0, the
/// first run being the volume exactly when the counter starts high.
pub proof fn lemma_square_wave_runs(g: AudioGeneratorView, n: nat)
    requires
        g.pattern == 4 || g.pattern == 5,
        g.div2 < 2,
        g.frequency_counter == 0,
        g.frequency_divider <= 31,
    ensures
        ({
            let f: int = g.frequency_divider + 1;
            &&& audio_run(g, n).frequency_counter == (n as int) % f
            &&& audio_run(g, n).div2 == (g.div2 + (n as int) / f) % 2
            &&& sample(audio_run(g, n)) == if (g.div2 + (n as int) / f) % 2 == 1 {
                g.volume
            } else {
                0
            }
        }),
    decreases n,
{
    reveal(audio_tick_spec);
    let f: int = g.frequency_divider + 1;
    lemma_run_keeps_registers(g, n);
    if n > 0 {
        let m = (n - 1) as nat;
        lemma_square_wave_runs(g, m);
        lemma_run_keeps_registers(g, m);
        let prev = audio_run(g, m);
        assert(prev.frequency_counter == (m as int) % f);
        if (m as int) % f < f - 1 {
            assert((n as int) % f == (m as int) % f + 1 && (n as int) / f == (m as int) / f) by (nonlinear_arith)
                requires
                    f >= 1,
                    n == m + 1,
                    (m as int) % f < f - 1,
            ;
        } else {
            assert((m as int) % f == f - 1) by (nonlinear_arith)
                requires
                    f >= 1,
                    (m as int) % f >= f - 1,
            ;
            assert((n as int) % f == 0 && (n as int) / f == (m as int) / f + 1) by (nonlinear_arith)
                requires
                    f >= 1,
                    n == m + 1,
                    (m as int) % f == f - 1,
            ;
            let x = g.div2 + (m as int) / f;
            assert(((x % 2) + 1) % 2 == (x + 1) % 2) by (nonlinear_arith)
                requires
                    x >= 0,
            ;
        }
    } else {
        assert(0int % f == 0 && 0int / f == 0) by (nonlinear_arith)
            requires
                f >= 1,
        ;
    }
    let last = audio_run(g, n);
    assert(last.div2 < 2);
    assert(sample(last) == if last.div2 == 1 {
        g.volume
    } else {
        0
    }) by (nonlinear_arith)
        requires
            last.div2 < 2,
            last.volume == g.volume,
            last.pattern == 4 || last.pattern == 5,
            sample(last) == (last.div2 * last.volume) as u8,
    ;
}

} // verus!
