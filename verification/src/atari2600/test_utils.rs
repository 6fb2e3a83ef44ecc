use super::tia::VideoOutput;
use crate::common::test_utils::{as_single_hex_digit, hex_digit};
use crate::text::string_from_chars;
use vstd::prelude::*;
use vstd::string::StrSliceExecFns;

verus! {

/// The value of a hexadecimal digit character, if it is one.
pub open spec fn hex_value(c: char) -> Option<u8> {
    if '0' <= c <= '9' {
        Some((c as u8 - '0' as u8) as u8)
    } else if 'A' <= c <= 'F' {
        Some((c as u8 - 'A' as u8 + 10) as u8)
    } else if 'a' <= c <= 'f' {
        Some((c as u8 - 'a' as u8 + 10) as u8)
    } else {
        None
    }
}

/// The video output that a character of the test notation stands for.
///
/// | Character | Meaning                                   |
/// |-----------|-------------------------------------------|
/// | .         | Blank                                     |
/// | |         | HSYNC                                     |
/// | -         | VSYNC                                     |
/// | +         | HSYNC + VSYNC                             |
/// | 02468ACE  | Pixel (0x00 - 0x0E)                       |
/// | =         | Special case: VSYNC with pixel value 0x00 |
pub open spec fn decode_char(c: char) -> Option<VideoOutput> {
    if c == '.' {
        Some(VideoOutput { vsync: false, hsync: false, pixel: None })
    } else if c == '|' {
        Some(VideoOutput { vsync: false, hsync: true, pixel: None })
    } else if c == '-' {
        Some(VideoOutput { vsync: true, hsync: false, pixel: None })
    } else if c == '+' {
        Some(VideoOutput { vsync: true, hsync: true, pixel: None })
    } else if c == '=' {
        Some(VideoOutput { vsync: true, hsync: false, pixel: Some(0) })
    } else {
        match hex_value(c) {
            Some(v) => Some(VideoOutput { vsync: false, hsync: false, pixel: Some(v) }),
            None => None,
        }
    }
}

/// The character that stands for a video output; `?` for one that the
/// notation cannot express.
pub open spec fn encode_char(o: VideoOutput) -> char {
    if !o.vsync && !o.hsync && o.pixel is None {
        '.'
    } else if !o.vsync && o.hsync && o.pixel is None {
        '|'
    } else if o.vsync && !o.hsync && o.pixel is None {
        '-'
    } else if o.vsync && o.hsync && o.pixel is None {
        '+'
    } else if o.vsync && !o.hsync && o.pixel == Some(0u8) {
        '='
    } else if !o.vsync && !o.hsync && o.pixel is Some {
        if o.pixel->0 <= 0x0f {
            hex_digit(o.pixel->0)
        } else {
            '?'
        }
    } else {
        '?'
    }
}

/// The outputs that an encoded signal stands for, one per character.
pub open spec fn decoded_video(s: Seq<char>) -> Seq<VideoOutput> {
    Seq::new(s.len(), |i: int| decode_char(s[i])->0)
}

/// The encoding of a sequence of outputs, one character per output.
pub open spec fn encoded_video(outputs: Seq<VideoOutput>) -> Seq<char> {
    Seq::new(outputs.len(), |i: int| encode_char(outputs[i]))
}

/// The characters that the encoding writes: `.|-+=` and the uppercase
/// hexadecimal digits.
pub open spec fn canonical_char(c: char) -> bool {
    c == '.' || c == '|' || c == '-' || c == '+' || c == '=' || ('0' <= c <= '9') || ('A' <= c <= 'F')
}

proof fn lemma_char_round_trip(c: char, o: VideoOutput)
    ensures
        canonical_char(c) ==> decode_char(c) is Some && encode_char(decode_char(c)->0) == c,
        encode_char(o) != '?' ==> canonical_char(encode_char(o)) && decode_char(encode_char(o)) == Some(o),
{
}

/// Round-trip law of the test notation: decoding a signal written with
/// `.|-+=` and uppercase hexadecimal digits and encoding it again gives the
/// same text, and encoding outputs none of which is non-conforming (`?`) and
/// decoding them again gives the same outputs.
pub proof fn lemma_video_round_trip(s: Seq<char>, outputs: Seq<VideoOutput>)
    ensures
        (forall|i: int| 0 <= i < s.len() ==> canonical_char(#[trigger] s[i])) ==> encoded_video(
            decoded_video(s),
        ) == s,
        (forall|i: int| 0 <= i < outputs.len() ==> encode_char(#[trigger] outputs[i]) != '?')
            ==> decoded_video(encoded_video(outputs)) == outputs,
{
    if forall|i: int| 0 <= i < s.len() ==> canonical_char(#[trigger] s[i]) {
        assert forall|i: int| 0 <= i < s.len() implies encoded_video(decoded_video(s))[i] == s[i] by {
            lemma_char_round_trip(s[i], VideoOutput { vsync: false, hsync: false, pixel: None });
        }
        assert(encoded_video(decoded_video(s)) =~= s);
    }
    if forall|i: int| 0 <= i < outputs.len() ==> encode_char(#[trigger] outputs[i]) != '?' {
        assert forall|i: int| 0 <= i < outputs.len() implies decoded_video(encoded_video(outputs))[i]
            == outputs[i] by {
            lemma_char_round_trip('.', outputs[i]);
        }
        assert(decoded_video(encoded_video(outputs)) =~= outputs);
    }
}

fn decode_one(c: char) -> (r: VideoOutput)
    requires
        decode_char(c) is Some,
    ensures
        Some(r) == decode_char(c),
{
    if c == '.' {
        VideoOutput::blank()
    } else if c == '|' {
        VideoOutput::blank().with_hsync()
    } else if c == '-' {
        VideoOutput::blank().with_vsync()
    } else if c == '+' {
        VideoOutput::blank().with_hsync().with_vsync()
    } else if c == '=' {
        VideoOutput::pixel(0x00).with_vsync()
    } else if '0' <= c && c <= '9' {
        VideoOutput::pixel(c as u8 - 48u8)
    } else if 'A' <= c && c <= 'F' {
        VideoOutput::pixel(c as u8 - 65u8 + 10)
    } else {
        VideoOutput::pixel(c as u8 - 97u8 + 10)
    }
}

/// Decodes a convenient, character-based representation of a TIA video output
/// to a sequence of `VideoOutput` structures. Useful for representing test
/// cases in a clear, concise way. See `decode_char` for the notation.
pub fn decode_video_outputs(encoded_signal: &str) -> (r: Vec<VideoOutput>)
    requires
        forall|i: int| 0 <= i < encoded_signal@.len() ==> #[trigger] decode_char(encoded_signal@[i]) is Some,
    ensures
        r@.len() == encoded_signal@.len(),
        forall|i: int| 0 <= i < r@.len() ==> Some(#[trigger] r@[i]) == decode_char(encoded_signal@[i]),
        r@ == decoded_video(encoded_signal@),
{
    let n = encoded_signal.unicode_len();
    let mut outputs: Vec<VideoOutput> = Vec::new();
    let mut i: usize = 0;
    while i < n
        invariant
            n == encoded_signal@.len(),
            forall|i: int| 0 <= i < encoded_signal@.len() ==> #[trigger] decode_char(encoded_signal@[i]) is Some,
            i <= n,
            outputs@.len() == i,
            forall|j: int| 0 <= j < i ==> Some(#[trigger] outputs@[j]) == decode_char(encoded_signal@[j]),
        decreases n - i,
    {
        let c = encoded_signal.get_char(i);
        outputs.push(decode_one(c));
        i = i + 1;
    }
    assert(outputs@ =~= decoded_video(encoded_signal@));
    outputs
}

/// Encodes a sequence of video outputs. See `decode_video_outputs` for
/// description of the format. Non-conforming outputs are encoded as '?'.
pub fn encode_video_outputs(outputs: &[VideoOutput]) -> (r: String)
    ensures
        r@.len() == outputs@.len(),
        forall|i: int| 0 <= i < outputs@.len() ==> #[trigger] r@[i] == encode_char(outputs@[i]),
        r@ == encoded_video(outputs@),
{
    let mut chars: Vec<char> = Vec::new();
    let mut i: usize = 0;
    while i < outputs.len()
        invariant
            i <= outputs@.len(),
            chars@.len() == i,
            forall|j: int| 0 <= j < i ==> #[trigger] chars@[j] == encode_char(outputs@[j]),
        decreases outputs@.len() - i,
    {
        let o = outputs[i];
        let c = if !o.vsync && !o.hsync && o.pixel.is_none() {
            '.'
        } else if !o.vsync && o.hsync && o.pixel.is_none() {
            '|'
        } else if o.vsync && !o.hsync && o.pixel.is_none() {
            '-'
        } else if o.vsync && o.hsync && o.pixel.is_none() {
            '+'
        } else if o.vsync && !o.hsync && o.pixel == Some(0u8) {
            '='
        } else if !o.vsync && !o.hsync && o.pixel.is_some() {
            as_single_hex_digit(o.pixel.unwrap())
        } else {
            '?'
        };
        chars.push(c);
        i = i + 1;
    }
    let r = string_from_chars(&chars);
    assert(r@ =~= encoded_video(outputs@));
    r
}

/// Encodes a sequence of audio samples, one hexadecimal digit each; `?` for a
/// sample above 15.
pub fn encode_audio(outputs: &[u8]) -> (r: String)
    ensures
        r@.len() == outputs@.len(),
        forall|i: int|
            0 <= i < outputs@.len() ==> #[trigger] r@[i] == if outputs@[i] <= 0x0f {
                hex_digit(outputs@[i])
            } else {
                '?'
            },
{
    let mut chars: Vec<char> = Vec::new();
    let mut i: usize = 0;
    while i < outputs.len()
        invariant
            i <= outputs@.len(),
            chars@.len() == i,
            forall|j: int|
                0 <= j < i ==> #[trigger] chars@[j] == if outputs@[j] <= 0x0f {
                    hex_digit(outputs@[j])
                } else {
                    '?'
                },
        decreases outputs@.len() - i,
    {
        chars.push(as_single_hex_digit(outputs[i]));
        i = i + 1;
    }
    string_from_chars(&chars)
}

} // verus!
