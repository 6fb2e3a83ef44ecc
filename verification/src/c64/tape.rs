use crate::stream::IoErrorKind;
use vstd::prelude::*;

verus! {

/// A Commodore 1530 Datasette device emulator. It is capable of playing a
/// series of pulses that represent tape data.
///
/// Each pulse is the number of CPU cycles until a falling edge is generated
/// on the data line.
#[derive(Debug)]
pub struct Datasette {
    tape: Vec<u32>,
    position: usize,
    tick_countdown: Option<u32>,
    play_pressed: bool,
}

/// What a datasette holds: the pulses not yet started, the countdown of the
/// pulse being played, and the state of the play button.
pub struct DatasetteView {
    pub remaining: Seq<u32>,
    pub tick_countdown: Option<u32>,
    pub play_pressed: bool,
}

impl Datasette {
    #[verifier::type_invariant]
    closed spec fn position_in_tape(self) -> bool {
        self.position <= self.tape.len()
    }
}

impl View for Datasette {
    type V = DatasetteView;

    closed spec fn view(&self) -> DatasetteView {
        DatasetteView {
            remaining: self.tape@.skip(self.position as int),
            tick_countdown: self.tick_countdown,
            play_pressed: self.play_pressed,
        }
    }
}

#[derive(PartialEq, Eq, Structural, Debug, Clone, Copy)]
pub struct TickResult {
    /// Indicates whether any of the player buttons have been pressed.
    pub button_pressed: bool,
    /// `true` if a falling edge pulse has been generated on the data output
    /// line.
    pub pulse: bool,
}

/// Every pulse of the tape lasts at least one cycle.
pub open spec fn valid_pulses(tape: Seq<u32>) -> bool {
    forall|i: int| 0 <= i < tape.len() ==> #[trigger] tape[i] > 0
}

/// A datasette in a consistent state: a pulse being played still has cycles
/// to go.
pub open spec fn datasette_wf(d: DatasetteView) -> bool {
    match d.tick_countdown {
        Some(c) => c > 0,
        None => true,
    }
}

/// Whether a cycle can be played: it cannot when it would start a pulse of
/// zero cycles, which has no cycle to count down.
pub open spec fn tick_playable(d: DatasetteView, motor_on: bool) -> bool {
    d.play_pressed && motor_on && d.tick_countdown is None && d.remaining.len() > 0 ==> d.remaining[0]
        > 0
}

/// One cycle of the datasette. With the play button pressed and the motor
/// on, the current pulse counts down (a new one starts from the tape when
/// none is playing), and a pulse is signalled when it reaches zero.
pub open spec fn datasette_tick_spec(d: DatasetteView, motor_on: bool) -> (DatasetteView, TickResult) {
    if !(d.play_pressed && motor_on) {
        (d, TickResult { button_pressed: d.play_pressed, pulse: false })
    } else {
        let (current, rest): (Option<u32>, Seq<u32>) = match d.tick_countdown {
            Some(c) => (Some(c), d.remaining),
            None => if d.remaining.len() > 0 {
                (Some(d.remaining[0]), d.remaining.drop_first())
            } else {
                (None, d.remaining)
            },
        };
        match current {
            Some(c) => if c - 1 == 0 {
                (
                    DatasetteView { remaining: rest, tick_countdown: None, ..d },
                    TickResult { button_pressed: true, pulse: true },
                )
            } else {
                (
                    DatasetteView { remaining: rest, tick_countdown: Some((c - 1) as u32), ..d },
                    TickResult { button_pressed: true, pulse: false },
                )
            },
            None => (
                DatasetteView { remaining: rest, tick_countdown: None, ..d },
                TickResult { button_pressed: true, pulse: false },
            ),
        }
    }
}

/// The state after `n` cycles with the motor on, and the cycles (counted from
/// 1) at which pulses were generated.
pub open spec fn datasette_run(d: DatasetteView, n: nat) -> DatasetteView
    decreases n,
{
    if n == 0 {
        d
    } else {
        datasette_tick_spec(datasette_run(d, (n - 1) as nat), true).0
    }
}

/// Whether the `n`-th cycle (counted from 1) with the motor on generates a
/// pulse.
pub open spec fn datasette_pulse_at(d: DatasetteView, n: nat) -> bool
    recommends
        n > 0,
{
    datasette_tick_spec(datasette_run(d, (n - 1) as nat), true).1.pulse
}

impl Datasette {
    /// Creates a new `Datasette` with the given tape. To obtain a tape, use the
    /// [`read_tap_file`] function.
    pub fn new(tape: Vec<u32>) -> (r: Self)
        ensures
            r@ == (DatasetteView { remaining: tape@, tick_countdown: None, play_pressed: false }),
    {
        let r = Datasette { tape, position: 0, tick_countdown: None, play_pressed: false };
        assert(r.tape@.skip(0) =~= r.tape@);
        r
    }

    pub fn tick(&mut self, motor_on: bool) -> (r: TickResult)
        requires
            datasette_wf(old(self)@),
            tick_playable(old(self)@, motor_on),
        ensures
            (final(self)@, r) == datasette_tick_spec(old(self)@, motor_on),
            datasette_wf(final(self)@),
    {
        if !(self.play_pressed && motor_on) {
            return TickResult { button_pressed: self.play_pressed, pulse: false };
        }
        proof {
            use_type_invariant(&*self);
        }
        let ghost before = self@;
        let current = match self.tick_countdown {
            Some(c) => Some(c),
            None => if self.position < self.tape.len() {
                let c = self.tape[self.position];
                proof {
                    assert(before.remaining[0] == c);
                    assert(self.tape@.skip(self.position as int + 1) =~= before.remaining.drop_first());
                }
                self.position = self.position + 1;
                Some(c)
            } else {
                None
            },
        };
        proof {
            let rest = if before.tick_countdown is None && before.remaining.len() > 0 {
                before.remaining.drop_first()
            } else {
                before.remaining
            };
            assert(self@.remaining == rest);
            if before.tick_countdown is None && before.remaining.len() > 0 {
                assert(before.remaining[0] > 0);
            }
        }
        let pulse = match current {
            Some(c) => {
                let left = c - 1;
                if left == 0 {
                    self.tick_countdown = None;
                    true
                } else {
                    self.tick_countdown = Some(left);
                    false
                }
            },
            None => {
                self.tick_countdown = None;
                false
            },
        };
        TickResult { button_pressed: true, pulse }
    }

    /// Sets the state of the play button.
    pub fn set_play_pressed(&mut self, pressed: bool)
        ensures
            final(self)@ == (DatasetteView { play_pressed: pressed, ..old(self)@ }),
    {
        proof {
            use_type_invariant(&*self);
        }
        self.play_pressed = pressed;
    }
}

proof fn lemma_counting_down(d: DatasetteView, k: nat)
    requires
        d.play_pressed,
        d.tick_countdown is None,
        d.remaining.len() > 0,
        1 <= k < d.remaining[0],
    ensures
        datasette_run(d, k) == (DatasetteView {
            remaining: d.remaining.drop_first(),
            tick_countdown: Some((d.remaining[0] - k) as u32),
            play_pressed: true,
        }),
        !datasette_pulse_at(d, k),
    decreases k,
{
    if k > 1 {
        lemma_counting_down(d, (k - 1) as nat);
    } else {
        assert(datasette_run(d, 0) == d);
    }
}

/// Playing law: with the play button pressed and the motor running, a pulse
/// of `c` cycles at the head of the tape generates no falling edge during its
/// first `c - 1` cycles, generates one on its `c`-th cycle, and is then
/// consumed from the tape.
pub proof fn lemma_pulse_after_its_length(d: DatasetteView)
    requires
        d.play_pressed,
        d.tick_countdown is None,
        d.remaining.len() > 0,
        d.remaining[0] > 0,
    ensures
        forall|k: nat| 1 <= k < d.remaining[0] ==> !#[trigger] datasette_pulse_at(d, k),
        datasette_pulse_at(d, d.remaining[0] as nat),
        datasette_run(d, d.remaining[0] as nat) == (DatasetteView {
            remaining: d.remaining.drop_first(),
            tick_countdown: None,
            play_pressed: true,
        }),
{
    let c = d.remaining[0] as nat;
    assert forall|k: nat| 1 <= k < d.remaining[0] implies !#[trigger] datasette_pulse_at(d, k) by {
        lemma_counting_down(d, k);
    }
    if c > 1 {
        lemma_counting_down(d, (c - 1) as nat);
    } else {
        assert(datasette_run(d, 0) == d);
    }
}

/// An empty tape never generates a pulse.
pub proof fn lemma_empty_tape_is_silent(d: DatasetteView, n: nat)
    requires
        d.tick_countdown is None,
        d.remaining.len() == 0,
    ensures
        datasette_run(d, n) == d,
        !datasette_pulse_at(d, n + 1),
    decreases n,
{
    if n > 0 {
        lemma_empty_tape_is_silent(d, (n - 1) as nat);
    }
}

/// The cycle, counted from the start of the tape, on which its `k`-th pulse
/// ends: the sum of the first `k` pulse lengths.
pub open spec fn pulse_time(tape: Seq<u32>, k: nat) -> nat
    decreases k,
{
    if k == 0 || tape.len() == 0 {
        0
    } else {
        tape[0] as nat + pulse_time(tape.drop_first(), (k - 1) as nat)
    }
}

proof fn lemma_run_split(d: DatasetteView, a: nat, b: nat)
    ensures
        datasette_run(d, a + b) == datasette_run(datasette_run(d, a), b),
    decreases b,
{
    if b > 0 {
        lemma_run_split(d, a, (b - 1) as nat);
        assert(a + b - 1 == a + (b - 1) as nat);
    }
}

/// Tape law: with the play button pressed and the motor running from the
/// start of a tape whose pulses all last at least one cycle, the `n`-th cycle
/// generates a falling edge exactly when `n` is the sum of the lengths of the
/// first `k` pulses, for some `k` from 1 to the number of pulses. (Cycles
/// without the play button or the motor leave the datasette as it is; see
/// `datasette_tick_spec`.)
pub proof fn lemma_pulses_at_cumulative_lengths(tape: Seq<u32>, n: nat)
    requires
        valid_pulses(tape),
        n >= 1,
    ensures
        datasette_pulse_at(DatasetteView { remaining: tape, tick_countdown: None, play_pressed: true }, n)
            <==> exists|k: nat| 1 <= k <= tape.len() && n == #[trigger] pulse_time(tape, k),
    decreases tape.len(),
{
    let d = DatasetteView { remaining: tape, tick_countdown: None, play_pressed: true };
    if tape.len() == 0 {
        lemma_empty_tape_is_silent(d, (n - 1) as nat);
        assert(!exists|k: nat| 1 <= k <= tape.len() && n == #[trigger] pulse_time(tape, k));
    } else {
        let c = tape[0] as nat;
        let rest = tape.drop_first();
        assert(tape[0] > 0);
        lemma_pulse_after_its_length(d);
        assert(pulse_time(tape, 1) == c + pulse_time(rest, 0));
        if n <= c {
            if n < c {
                assert(!datasette_pulse_at(d, n));
                assert forall|k: nat| 1 <= k <= tape.len() implies n != #[trigger] pulse_time(
                    tape,
                    k,
                ) by {
                    assert(pulse_time(tape, k) == c + pulse_time(rest, (k - 1) as nat));
                }
            }
        } else {
            assert forall|i: int| 0 <= i < rest.len() implies #[trigger] rest[i] > 0 by {
                assert(rest[i] == tape[i + 1]);
            }
            let m = (n - c) as nat;
            lemma_pulses_at_cumulative_lengths(rest, m);
            let d2 = DatasetteView { remaining: rest, tick_countdown: None, play_pressed: true };
            lemma_run_split(d, c, (n - 1 - c) as nat);
            assert(c + (n - 1 - c) as nat == (n - 1) as nat);
            assert(datasette_run(d, c) == d2);
            assert(datasette_run(d, (n - 1) as nat) == datasette_run(d2, (m - 1) as nat));
            assert(datasette_pulse_at(d, n) == datasette_pulse_at(d2, m));
            if datasette_pulse_at(d2, m) {
                let k2 = choose|k: nat| 1 <= k <= rest.len() && m == #[trigger] pulse_time(rest, k);
                assert(pulse_time(tape, k2 + 1) == c + pulse_time(rest, k2));
            }
            if exists|k: nat| 1 <= k <= tape.len() && n == #[trigger] pulse_time(tape, k) {
                let k = choose|k: nat| 1 <= k <= tape.len() && n == #[trigger] pulse_time(tape, k);
                assert(pulse_time(tape, k) == c + pulse_time(rest, (k - 1) as nat));
                assert(k != 1);
                assert(1 <= (k - 1) as nat <= rest.len() && m == pulse_time(rest, (k - 1) as nat));
            }
        }
    }
}

#[derive(Debug, PartialEq, Eq, Structural, Clone, Copy)]
pub enum TapFileError {
    /// I/O error: the file ended in the middle of its header or of a pulse.
    IoError(IoErrorKind),
    /// Invalid TAP file signature
    InvalidSignature,
    /// Unsupported platform
    UnsupportedPlatform(u8),
    /// Unsupported format version
    UnsupportedFormatVersion(u8),
}

/// The size of a TAP file header.
pub const TAP_HEADER_SIZE: usize = 0x14;

/// The offset of the format version byte in the header.
pub const TAP_FORMAT_VERSION_OFFSET: usize = 0x0C;

/// The offset of the platform byte in the header.
pub const TAP_PLATFORM_OFFSET: usize = 0x0D;

/// The signature that opens a TAP file: "C64-TAPE-RAW" in ASCII.
pub open spec fn tap_signature() -> Seq<u8> {
    seq![0x43u8, 0x36, 0x34, 0x2D, 0x54, 0x41, 0x50, 0x45, 0x2D, 0x52, 0x41, 0x57]
}

/// Puts a pulse in front of a parse result; an error stays as it is.
pub open spec fn prepend_pulses(
    pulses: Seq<u32>,
    r: Result<Seq<u32>, TapFileError>,
) -> Result<Seq<u32>, TapFileError> {
    match r {
        Ok(rest) => Ok(pulses + rest),
        Err(e) => Err(e),
    }
}

/// The pulses that TAP data (the bytes after the header) encodes. A nonzero
/// byte is a pulse of 8 cycles per unit. A zero byte is an overflow: in
/// version 0 it stands for 256 units; in version 1 the next three bytes give
/// the pulse length in cycles, little-endian.
pub open spec fn tap_pulses(data: Seq<u8>, version: u8) -> Result<Seq<u32>, TapFileError>
    decreases data.len(),
{
    if data.len() == 0 {
        Ok(Seq::empty())
    } else if data[0] != 0 {
        prepend_pulses(seq![(data[0] * 8) as u32], tap_pulses(data.drop_first(), version))
    } else if version == 0 {
        prepend_pulses(seq![2048u32], tap_pulses(data.drop_first(), version))
    } else if data.len() < 4 {
        Err(TapFileError::IoError(IoErrorKind::UnexpectedEof))
    } else {
        prepend_pulses(
            seq![(data[1] + data[2] * 0x100 + data[3] * 0x10000) as u32],
            tap_pulses(data.subrange(4, data.len() as int), version),
        )
    }
}

/// What reading a TAP file gives: the header is checked (length, signature,
/// format version 0 or 1, platform 0), then the data is decoded.
pub open spec fn tap_file_spec(bytes: Seq<u8>) -> Result<Seq<u32>, TapFileError> {
    if bytes.len() < TAP_HEADER_SIZE {
        Err(TapFileError::IoError(IoErrorKind::UnexpectedEof))
    } else if bytes.subrange(0, 12) != tap_signature() {
        Err(TapFileError::InvalidSignature)
    } else if bytes[TAP_FORMAT_VERSION_OFFSET as int] != 0 && bytes[TAP_FORMAT_VERSION_OFFSET as int] != 1 {
        Err(TapFileError::UnsupportedFormatVersion(bytes[TAP_FORMAT_VERSION_OFFSET as int]))
    } else if bytes[TAP_PLATFORM_OFFSET as int] != 0 {
        Err(TapFileError::UnsupportedPlatform(bytes[TAP_PLATFORM_OFFSET as int]))
    } else {
        tap_pulses(bytes.skip(TAP_HEADER_SIZE as int), bytes[TAP_FORMAT_VERSION_OFFSET as int])
    }
}

fn has_tap_signature(bytes: &[u8]) -> (r: bool)
    requires
        bytes@.len() >= 12,
    ensures
        r == (bytes@.subrange(0, 12) == tap_signature()),
{
    let r = bytes[0] == 0x43 && bytes[1] == 0x36 && bytes[2] == 0x34 && bytes[3] == 0x2D
        && bytes[4] == 0x54 && bytes[5] == 0x41 && bytes[6] == 0x50 && bytes[7] == 0x45
        && bytes[8] == 0x2D && bytes[9] == 0x52 && bytes[10] == 0x41 && bytes[11] == 0x57;
    proof {
        let head = bytes@.subrange(0, 12);
        if r {
            assert(head =~= tap_signature());
        } else if head == tap_signature() {
            assert(head[0] == bytes@[0] && head[1] == bytes@[1] && head[2] == bytes@[2]);
            assert(head[3] == bytes@[3] && head[4] == bytes@[4] && head[5] == bytes@[5]);
            assert(head[6] == bytes@[6] && head[7] == bytes@[7] && head[8] == bytes@[8]);
            assert(head[9] == bytes@[9] && head[10] == bytes@[10] && head[11] == bytes@[11]);
        }
    }
    r
}

proof fn lemma_prepend_twice(a: Seq<u32>, b: Seq<u32>, r: Result<Seq<u32>, TapFileError>)
    ensures
        prepend_pulses(a, prepend_pulses(b, r)) == prepend_pulses(a + b, r),
{
    if let Ok(rest) = r {
        assert(a + (b + rest) =~= (a + b) + rest);
    }
}

/// Reads a TAP file and returns a vector of pulses. TAP format versions 0 are
/// 1 are supported.
pub fn read_tap_file(bytes: &[u8]) -> (r: Result<Vec<u32>, TapFileError>)
    ensures
        match r {
            Ok(pulses) => tap_file_spec(bytes@) == Ok::<Seq<u32>, TapFileError>(pulses@),
            Err(e) => tap_file_spec(bytes@) == Err::<Seq<u32>, TapFileError>(e),
        },
{
    if bytes.len() < TAP_HEADER_SIZE {
        return Err(TapFileError::IoError(IoErrorKind::UnexpectedEof));
    }
    if !has_tap_signature(bytes) {
        return Err(TapFileError::InvalidSignature);
    }
    let format_version = bytes[TAP_FORMAT_VERSION_OFFSET];
    if format_version != 0 && format_version != 1 {
        return Err(TapFileError::UnsupportedFormatVersion(format_version));
    }
    if bytes[TAP_PLATFORM_OFFSET] != 0 {
        return Err(TapFileError::UnsupportedPlatform(bytes[TAP_PLATFORM_OFFSET]));
    }
    let ghost data = bytes@.skip(TAP_HEADER_SIZE as int);
    let mut pulses: Vec<u32> = Vec::new();
    let mut i: usize = TAP_HEADER_SIZE;
    proof {
        assert(bytes@.skip(i as int) == data);
        assert(pulses@ + Seq::<u32>::empty() =~= Seq::<u32>::empty());
        assert(Seq::<u32>::empty() + Seq::<u32>::empty() =~= Seq::<u32>::empty());
        lemma_prepend_empty(tap_pulses(data, format_version));
    }
    while i < bytes.len()
        invariant
            TAP_HEADER_SIZE <= i <= bytes@.len(),
            format_version == 0 || format_version == 1,
            data == bytes@.skip(TAP_HEADER_SIZE as int),
            tap_file_spec(bytes@) == tap_pulses(data, format_version),
            tap_pulses(data, format_version) == prepend_pulses(
                pulses@,
                tap_pulses(bytes@.skip(i as int), format_version),
            ),
        decreases bytes.len() - i,
    {
        let ghost before = pulses@;
        let ghost rest = bytes@.skip(i as int);
        let b = bytes[i];
        if b != 0 {
            let p = (b as u32) * 8;
            proof {
                assert(rest.drop_first() =~= bytes@.skip(i + 1));
                lemma_prepend_twice(before, seq![p], tap_pulses(rest.drop_first(), format_version));
                assert(before + seq![p] =~= before.push(p));
            }
            pulses.push(p);
            i = i + 1;
        } else if format_version == 0 {
            proof {
                assert(rest.drop_first() =~= bytes@.skip(i + 1));
                lemma_prepend_twice(before, seq![2048u32], tap_pulses(rest.drop_first(), format_version));
                assert(before + seq![2048u32] =~= before.push(2048u32));
            }
            pulses.push(2048);
            i = i + 1;
        } else if bytes.len() - i < 4 {
            proof {
                assert(rest[0] == b && rest.len() < 4);
                assert(tap_pulses(rest, format_version) == Err::<Seq<u32>, TapFileError>(
                    TapFileError::IoError(IoErrorKind::UnexpectedEof),
                ));
            }
            return Err(TapFileError::IoError(IoErrorKind::UnexpectedEof));
        } else {
            let p = (bytes[i + 1] as u32) + (bytes[i + 2] as u32) * 0x100 + (bytes[i + 3] as u32)
                * 0x10000;
            proof {
                assert(rest.subrange(4, rest.len() as int) =~= bytes@.skip(i + 4));
                lemma_prepend_twice(
                    before,
                    seq![p],
                    tap_pulses(rest.subrange(4, rest.len() as int), format_version),
                );
                assert(before + seq![p] =~= before.push(p));
            }
            pulses.push(p);
            i = i + 4;
        }
    }
    proof {
        assert(bytes@.skip(i as int) =~= Seq::<u8>::empty());
        assert(pulses@ + Seq::<u32>::empty() =~= pulses@);
    }
    Ok(pulses)
}

proof fn lemma_prepend_empty(r: Result<Seq<u32>, TapFileError>)
    ensures
        prepend_pulses(Seq::empty(), r) == r,
{
    if let Ok(rest) = r {
        assert(Seq::<u32>::empty() + rest =~= rest);
    }
}

} // verus!
