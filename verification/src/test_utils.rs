//! The character notation of TIA video output that the tests of the first TIA
//! use.
use crate::atari2600::test_utils::decode_char;
use crate::tia::VideoOutput;
use vstd::prelude::*;
use vstd::string::StrSliceExecFns;

verus! {

/// The video output of the first TIA that a notation character stands for;
/// see `crate::atari2600::test_utils::decode_char` for the notation.
pub open spec fn decode_output(c: char) -> Option<VideoOutput> {
    match decode_char(c) {
        Some(o) => Some(VideoOutput { vsync: o.vsync, hsync: o.hsync, pixel: o.pixel }),
        None => None,
    }
}

fn decode_one(c: char) -> (r: VideoOutput)
    requires
        decode_output(c) is Some,
    ensures
        Some(r) == decode_output(c),
{
    if c == '.' {
        VideoOutput::blank()
    } else if c == '|' {
        VideoOutput::blank().with_hsync()
    } else if c == '-' {
        VideoOutput::blank().with_vsync()
    } else if c == '+' {
        VideoOutput::blank().with_hsync().with_vsync()
    } else if c == '=' {
        VideoOutput::pixel(0x00).with_vsync()
    } else if '0' <= c && c <= '9' {
        VideoOutput::pixel(c as u8 - 48u8)
    } else if 'A' <= c && c <= 'F' {
        VideoOutput::pixel(c as u8 - 65u8 + 10)
    } else {
        VideoOutput::pixel(c as u8 - 97u8 + 10)
    }
}

/// Decodes a convenient, character-based representation of a TIA video output
/// to a sequence of `VideoOutput` structures. Useful for representing test
/// cases in a clear, concise way.
pub fn decode_video_outputs(encoded_signal: &str) -> (r: Vec<VideoOutput>)
    requires
        forall|i: int| 0 <= i < encoded_signal@.len() ==> #[trigger] decode_output(encoded_signal@[i]) is Some,
    ensures
        r@.len() == encoded_signal@.len(),
        forall|i: int| 0 <= i < r@.len() ==> Some(#[trigger] r@[i]) == decode_output(encoded_signal@[i]),
{
    let n = encoded_signal.unicode_len();
    let mut outputs: Vec<VideoOutput> = Vec::new();
    let mut i: usize = 0;
    while i < n
        invariant
            n == encoded_signal@.len(),
            forall|i: int| 0 <= i < encoded_signal@.len() ==> #[trigger] decode_output(encoded_signal@[i]) is Some,
            i <= n,
            outputs@.len() == i,
            forall|j: int| 0 <= j < i ==> Some(#[trigger] outputs@[j]) == decode_output(encoded_signal@[j]),
        decreases n - i,
    {
        let c = encoded_signal.get_char(i);
        outputs.push(decode_one(c));
        i = i + 1;
    }
    outputs
}

} // verus!
