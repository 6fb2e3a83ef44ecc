//! Framing of Debug Adapter Protocol messages: each message body is preceded
//! by text headers, one per line, of which `Content-Length` gives the size of
//! the body, and an empty line.
use crate::stream::{
    lemma_newline_index, newline_index, read_exact_spec, read_line_spec, stream_failed,
    write_all_spec, ByteReader, ByteReaderView, ByteWriter, IoErrorKind, StreamEnd,
};
use vstd::prelude::*;

verus! {

/// Why a text could not be read as a number.
#[derive(Debug, PartialEq, Eq, Structural, Clone, Copy)]
pub enum IntErrorKind {
    /// The text is empty.
    Empty,
    /// The text holds something other than decimal digits.
    InvalidDigit,
    /// The number does not fit.
    PosOverflow,
}

/// An error reading a header value as a number.
#[derive(Debug, PartialEq, Eq, Structural, Clone, Copy)]
pub struct ParseIntError {
    pub kind: IntErrorKind,
}

#[derive(Debug, PartialEq, Eq, Structural, Clone, Copy)]
pub enum ProtocolError {
    /// I/O error
    IoError(IoErrorKind),
    /// No Content-Length header
    NoContentLengthHeader,
    /// Error while parsing a header
    HeaderParseError(ParseIntError),
}

pub type ProtocolResult<T> = Result<T, ProtocolError>;

// ---------------------------------------------------------------------------
// Header text.

/// Whether every byte is ASCII.
pub open spec fn is_ascii(bytes: Seq<u8>) -> bool {
    forall|i: int| 0 <= i < bytes.len() ==> #[trigger] bytes[i] < 0x80
}

/// ASCII bytes as the characters they encode.
pub open spec fn ascii_chars(bytes: Seq<u8>) -> Seq<char> {
    bytes.map_values(|b: u8| b as char)
}

/// What `std::str::from_utf8` gives for `bytes`: the text, or nothing when
/// the bytes are not valid UTF-8.
pub uninterp spec fn utf8_text(bytes: Seq<u8>) -> Option<Seq<char>>;

/// The text of a header line. ASCII, which UTF-8 encodes byte for byte, is
/// decoded here; anything else by the standard library.
pub open spec fn line_text(bytes: Seq<u8>) -> Option<Seq<char>> {
    if is_ascii(bytes) {
        Some(ascii_chars(bytes))
    } else {
        utf8_text(bytes)
    }
}

/// Decodes `bytes` with `std::str::from_utf8`, which the standard library
/// documents as giving the text when the bytes are valid UTF-8 and an error
/// otherwise.
#[verifier::external_body]
fn decode_utf8(bytes: &[u8]) -> (r: Option<String>)
    ensures
        match r {
            Some(text) => utf8_text(bytes@) == Some(text@),
            None => utf8_text(bytes@) is None,
        },
{
    match std::str::from_utf8(bytes) {
        Ok(text) => Some(text.to_string()),
        Err(_) => None,
    }
}

fn decode_line(bytes: &[u8]) -> (r: Option<String>)
    ensures
        match r {
            Some(text) => line_text(bytes@) == Some(text@),
            None => line_text(bytes@) is None,
        },
{
    let mut ascii = true;
    let mut i: usize = 0;
    while i < bytes.len()
        invariant
            i <= bytes@.len(),
            ascii == forall|j: int| 0 <= j < i ==> #[trigger] bytes@[j] < 0x80,
        decreases bytes.len() - i,
    {
        if bytes[i] >= 0x80 {
            ascii = false;
        }
        i = i + 1;
    }
    if ascii {
        let mut chars: Vec<char> = Vec::new();
        let mut k: usize = 0;
        while k < bytes.len()
            invariant
                k <= bytes@.len(),
                is_ascii(bytes@),
                chars@ == ascii_chars(bytes@.take(k as int)),
            decreases bytes.len() - k,
        {
            let b = bytes[k];
            chars.push(b as char);
            proof {
                assert(ascii_chars(bytes@.take(k + 1 as int)) =~= ascii_chars(bytes@.take(k as int)).push(
                    b as char,
                ));
            }
            k = k + 1;
        }
        proof {
            assert(bytes@.take(bytes@.len() as int) =~= bytes@);
        }
        Some(crate::text::string_from_chars(&chars))
    } else {
        decode_utf8(bytes)
    }
}

/// The characters that the regular expression class `\s` matches: those
/// with the Unicode `White_Space` property.
pub open spec fn is_regex_whitespace(c: char) -> bool {
    ||| '\t' <= c <= '\r'
    ||| c == ' '
    ||| c == '\u{85}'
    ||| c == '\u{A0}'
    ||| c == '\u{1680}'
    ||| '\u{2000}' <= c <= '\u{200A}'
    ||| c == '\u{2028}'
    ||| c == '\u{2029}'
    ||| c == '\u{202F}'
    ||| c == '\u{205F}'
    ||| c == '\u{3000}'
}

/// The header name with its colon: "Content-Length:".
pub open spec fn content_length_label() -> Seq<char> {
    seq!['C', 'o', 'n', 't', 'e', 'n', 't', '-', 'L', 'e', 'n', 'g', 't', 'h', ':']
}

/// Where `pattern` first occurs in `text`.
pub open spec fn first_occurrence(text: Seq<char>, pattern: Seq<char>) -> Option<nat>
    decreases text.len(),
{
    if text.len() < pattern.len() {
        None
    } else if text.take(pattern.len() as int) == pattern {
        Some(0)
    } else if text.len() == 0 {
        None
    } else {
        match first_occurrence(text.drop_first(), pattern) {
            Some(i) => Some(i + 1),
            None => None,
        }
    }
}

/// `text` without its leading whitespace.
pub open spec fn skip_whitespace(text: Seq<char>) -> Seq<char>
    decreases text.len(),
{
    if text.len() > 0 && is_regex_whitespace(text[0]) {
        skip_whitespace(text.drop_first())
    } else {
        text
    }
}

/// The characters of `text` before its first line feed.
pub open spec fn up_to_newline(text: Seq<char>) -> Seq<char>
    decreases text.len(),
{
    if text.len() == 0 || text[0] == '\n' {
        Seq::empty()
    } else {
        seq![text[0]] + up_to_newline(text.drop_first())
    }
}

/// The first group of the regular expression `Content-Length:\s*(.*)` in
/// `text`: after the first occurrence of the label and the whitespace that
/// follows it, everything up to the end of the line.
pub open spec fn content_length_value(text: Seq<char>) -> Option<Seq<char>> {
    match first_occurrence(text, content_length_label()) {
        Some(i) => Some(up_to_newline(skip_whitespace(text.skip(i + 15 as int)))),
        None => None,
    }
}

/// Finds the value of a `Content-Length` header in `text` with the `regex`
/// crate: `Regex::new` compiles `Content-Length:\s*(.*)`, and
/// `Regex::captures` with `Captures::get` gives its first group. The
/// contract restates what that pattern matches, by the crate's documented
/// syntax: leftmost match, `\s` for Unicode white space, a greedy `\s*`, and
/// `.` for any character but a line feed.
#[verifier::external_body]
fn content_length_capture(text: &str) -> (r: Option<String>)
    ensures
        match r {
            Some(value) => content_length_value(text@) == Some(value@),
            None => content_length_value(text@) is None,
        },
{
    let pattern = regex::Regex::new(r"Content-Length:\s*(.*)").unwrap();
    match pattern.captures(text) {
        Some(captures) => match captures.get(1) {
            Some(group) => Some(group.as_str().to_string()),
            None => None,
        },
        None => None,
    }
}

// ---------------------------------------------------------------------------
// Numbers.

pub open spec fn is_decimal_digit(c: char) -> bool {
    '0' <= c <= '9'
}

pub open spec fn digit_value(c: char) -> nat {
    (c as nat - '0' as nat) as nat
}

/// The value of a string of decimal digits read from the left, failing at
/// the first character that is not a digit or that makes the value too large
/// for `usize`.
pub open spec fn digits_value(s: Seq<char>) -> Result<nat, IntErrorKind>
    decreases s.len(),
{
    if s.len() == 0 {
        Ok(0)
    } else {
        match digits_value(s.drop_last()) {
            Err(e) => Err(e),
            Ok(v) => if !is_decimal_digit(s.last()) {
                Err(IntErrorKind::InvalidDigit)
            } else if v * 10 + digit_value(s.last()) > usize::MAX {
                Err(IntErrorKind::PosOverflow)
            } else {
                Ok(v * 10 + digit_value(s.last()))
            },
        }
    }
}

/// Reading a `usize` as the standard library does: an optional `+`, then at
/// least one decimal digit.
pub open spec fn parse_usize_spec(s: Seq<char>) -> Result<usize, IntErrorKind> {
    if s.len() == 0 {
        Err(IntErrorKind::Empty)
    } else {
        let digits = if s[0] == '+' {
            s.drop_first()
        } else {
            s
        };
        if digits.len() == 0 {
            Err(IntErrorKind::InvalidDigit)
        } else {
            match digits_value(digits) {
                Ok(v) => Ok(v as usize),
                Err(e) => Err(e),
            }
        }
    }
}

fn parse_usize(s: &str) -> (r: Result<usize, ParseIntError>)
    ensures
        match r {
            Ok(v) => parse_usize_spec(s@) == Ok::<usize, IntErrorKind>(v),
            Err(e) => parse_usize_spec(s@) == Err::<usize, IntErrorKind>(e.kind),
        },
{
    let n = s.unicode_len();
    if n == 0 {
        return Err(ParseIntError { kind: IntErrorKind::Empty });
    }
    let mut i: usize = 0;
    if s.get_char(0) == '+' {
        i = 1;
    }
    let ghost digits = s@.skip(i as int);
    proof {
        if i == 0 {
            assert(digits =~= s@);
        } else {
            assert(digits =~= s@.drop_first());
        }
    }
    if i == n {
        return Err(ParseIntError { kind: IntErrorKind::InvalidDigit });
    }
    let start = i;
    let mut value: usize = 0;
    proof {
        assert(s@.subrange(start as int, start as int) =~= Seq::<char>::empty());
    }
    while i < n
        invariant
            start <= i <= n,
            n == s@.len(),
            n > 0,
            start < n,
            digits == s@.skip(start as int),
            digits == (if s@[0] == '+' {
                s@.drop_first()
            } else {
                s@
            }),
            digits_value(s@.subrange(start as int, i as int)) == Ok::<nat, IntErrorKind>(value as nat),
        decreases n - i,
    {
        let c = s.get_char(i);
        let ghost prefix = s@.subrange(start as int, i + 1);
        proof {
            assert(prefix.drop_last() =~= s@.subrange(start as int, i as int));
            assert(prefix.last() == c);
        }
        if !('0' <= c && c <= '9') {
            proof {
                assert(digits.take(i - start + 1) =~= prefix);
                lemma_digits_error_sticks(digits, (i - start) as nat);
            }
            return Err(ParseIntError { kind: IntErrorKind::InvalidDigit });
        }
        let d = (c as u32 - '0' as u32) as usize;
        if value > (usize::MAX - d) / 10 {
            proof {
                assert(value * 10 + d > usize::MAX) by (nonlinear_arith)
                    requires
                        value > (usize::MAX - d) / 10,
                        d <= 9,
                ;
                assert(digits.take(i - start + 1) =~= prefix);
                lemma_digits_error_sticks(digits, (i - start) as nat);
            }
            return Err(ParseIntError { kind: IntErrorKind::PosOverflow });
        }
        proof {
            assert(value * 10 + d <= usize::MAX) by (nonlinear_arith)
                requires
                    value <= (usize::MAX - d) / 10,
                    d <= 9,
            ;
        }
        value = value * 10 + d;
        i = i + 1;
    }
    proof {
        assert(s@.subrange(start as int, n as int) =~= digits);
    }
    Ok(value)
}

proof fn lemma_digits_error_sticks(s: Seq<char>, k: nat)
    requires
        k < s.len(),
        digits_value(s.take(k + 1 as int)) is Err,
    ensures
        digits_value(s) == digits_value(s.take(k + 1 as int)),
    decreases s.len() - k,
{
    if k + 1 < s.len() {
        assert(s.drop_last().take(k + 1 as int) =~= s.take(k + 1 as int));
        lemma_digits_error_sticks(s.drop_last(), k);
    } else {
        assert(s.take(k + 1 as int) =~= s);
    }
}

/// The decimal digits of `n`, most significant first, as ASCII bytes.
pub open spec fn decimal_digits(n: nat) -> Seq<u8>
    decreases n,
{
    if n < 10 {
        seq![(0x30 + n) as u8]
    } else {
        decimal_digits(n / 10).push((0x30 + n % 10) as u8)
    }
}

pub(crate) fn decimal_bytes(n: usize) -> (r: Vec<u8>)
    ensures
        r@ == decimal_digits(n as nat),
    decreases n,
{
    if n < 10 {
        let mut r: Vec<u8> = Vec::new();
        r.push(0x30 + n as u8);
        proof {
            assert(r@ =~= decimal_digits(n as nat));
        }
        r
    } else {
        let mut r = decimal_bytes(n / 10);
        r.push(0x30 + (n % 10) as u8);
        r
    }
}

// ---------------------------------------------------------------------------
// Reading messages.

/// Reading the headers of a message: lines are read up to an empty one,
/// which ends the headers and gives the last `Content-Length` value seen.
/// Other headers are ignored. The stream ending before any header gives no
/// message; ending in the middle of the headers, or an empty line with no
/// `Content-Length` before it, is an error.
pub open spec fn read_headers_spec(
    r: ByteReaderView,
    message_started: bool,
    content_length: Option<usize>,
) -> (ProtocolResult<Option<usize>>, ByteReaderView)
    decreases r.remaining.len(),
{
    let (line, next) = read_line_spec(r);
    match line {
        None => (
            if message_started {
                Err(ProtocolError::NoContentLengthHeader)
            } else {
                Ok(None)
            },
            next,
        ),
        Some(Err(k)) => (Err(ProtocolError::IoError(k)), next),
        Some(Ok(bytes)) => match line_text(bytes) {
            None => (Err(ProtocolError::IoError(IoErrorKind::InvalidData)), next),
            Some(text) => if text.len() == 0 {
                (
                    match content_length {
                        Some(n) => Ok(Some(n)),
                        None => Err(ProtocolError::NoContentLengthHeader),
                    },
                    next,
                )
            } else if next.remaining.len() >= r.remaining.len() {
                (Err(ProtocolError::NoContentLengthHeader), next)
            } else {
                match content_length_value(text) {
                    Some(value) => match parse_usize_spec(value) {
                        Ok(n) => read_headers_spec(next, true, Some(n)),
                        Err(e) => (Err(ProtocolError::HeaderParseError(ParseIntError { kind: e })), next),
                    },
                    None => read_headers_spec(next, true, content_length),
                }
            },
        },
    }
}

/// Reading one message: its headers, then as many bytes as `Content-Length`
/// says. `None` when the stream has ended.
pub open spec fn next_raw_message_spec(r: ByteReaderView) -> (
    Option<ProtocolResult<Seq<u8>>>,
    ByteReaderView,
) {
    let (headers, next) = read_headers_spec(r, false, None);
    match headers {
        Ok(Some(n)) => {
            let (body, rest) = read_exact_spec(next, n as nat);
            (
                Some(
                    match body {
                        Ok(bytes) => Ok(bytes),
                        Err(k) => Err(ProtocolError::IoError(k)),
                    },
                ),
                rest,
            )
        },
        Ok(None) => (None, next),
        Err(e) => (Some(Err(e)), next),
    }
}

/// All messages of a stream in order, each as its body or as the error met
/// while reading it, up to the end of the stream. A stream that has failed is
/// reported once, as the last item.
pub open spec fn raw_messages_spec(r: ByteReaderView) -> Seq<ProtocolResult<Seq<u8>>>
    decreases r.remaining.len(),
{
    let (message, next) = next_raw_message_spec(r);
    match message {
        None => Seq::empty(),
        Some(m) => if next.remaining.len() < r.remaining.len() && !stream_failed(next) {
            seq![m] + raw_messages_spec(next)
        } else {
            seq![m]
        },
    }
}

/// Reads DAP headers from an input stream. Note that while the only header
/// currently specified in the DAP specification is `Content-Length`, this
/// function is future-proof: it simply ignores unknown headers.
///
/// In a typical case, the message size is returned, as indicated by the
/// `Content-Length` header. Otherwise, `None` denotes end of stream has been
/// reached.
pub fn read_headers(input: &mut ByteReader) -> (r: ProtocolResult<Option<usize>>)
    ensures
        (r, final(input)@) == read_headers_spec(old(input)@, false, None),
{
    let mut message_started = false;
    let mut content_length: Option<usize> = None;
    loop
        invariant
            read_headers_spec(old(input)@, false, None) == read_headers_spec(
                input@,
                message_started,
                content_length,
            ),
        decreases input@.remaining.len(),
    {
        let ghost before = input@;
        let line = input.read_line();
        match line {
            None => {
                return if message_started {
                    Err(ProtocolError::NoContentLengthHeader)
                } else {
                    Ok(None)
                };
            },
            Some(Err(k)) => {
                return Err(ProtocolError::IoError(k));
            },
            Some(Ok(bytes)) => {
                let text = match decode_line(bytes.as_slice()) {
                    Some(text) => text,
                    None => {
                        return Err(ProtocolError::IoError(IoErrorKind::InvalidData));
                    },
                };
                if text.unicode_len() == 0 {
                    return match content_length {
                        Some(n) => Ok(Some(n)),
                        None => Err(ProtocolError::NoContentLengthHeader),
                    };
                }
                proof {
                    lemma_read_line_progress(before);
                }
                match content_length_capture(text.as_str()) {
                    Some(value) => match parse_usize(value.as_str()) {
                        Ok(n) => {
                            content_length = Some(n);
                        },
                        Err(e) => {
                            return Err(ProtocolError::HeaderParseError(e));
                        },
                    },
                    None => {},
                }
                message_started = true;
            },
        }
    }
}

proof fn lemma_read_line_progress(r: ByteReaderView)
    requires
        read_line_spec(r).0 matches Some(Ok(_)),
    ensures
        read_line_spec(r).1.remaining.len() < r.remaining.len(),
{
    lemma_newline_index(r.remaining);
}

/// Reads the next message body: `None` when the stream has ended.
pub fn next_raw_message(input: &mut ByteReader) -> (r: Option<ProtocolResult<Vec<u8>>>)
    ensures
        final(input)@ == next_raw_message_spec(old(input)@).1,
        match (r, next_raw_message_spec(old(input)@).0) {
            (None, None) => true,
            (Some(Ok(body)), Some(Ok(expected))) => body@ == expected,
            (Some(Err(e)), Some(Err(expected))) => e == expected,
            _ => false,
        },
{
    match read_headers(input) {
        Ok(Some(content_length)) => {
            Some(
                match input.read_exact(content_length) {
                    Ok(body) => Ok(body),
                    Err(k) => Err(ProtocolError::IoError(k)),
                },
            )
        },
        Ok(None) => None,
        Err(e) => Some(Err(e)),
    }
}

/// Extracts raw message buffers from a Debug Adapter Protocol stream. Each
/// buffer contains exactly one message body without headers. A stream that
/// fails gives its failure as the last item.
pub fn raw_messages(input: &mut ByteReader) -> (r: Vec<ProtocolResult<Vec<u8>>>)
    ensures
        r@.len() == raw_messages_spec(old(input)@).len(),
        forall|i: int|
            0 <= i < r@.len() ==> match (#[trigger] r@[i], raw_messages_spec(old(input)@)[i]) {
                (Ok(body), Ok(expected)) => body@ == expected,
                (Err(e), Err(expected)) => e == expected,
                _ => false,
            },
{
    let mut messages: Vec<ProtocolResult<Vec<u8>>> = Vec::new();
    let ghost done: Seq<ProtocolResult<Seq<u8>>> = Seq::empty();
    proof {
        assert(done + raw_messages_spec(input@) =~= raw_messages_spec(input@));
    }
    loop
        invariant
            raw_messages_spec(old(input)@) == done + raw_messages_spec(input@),
            messages@.len() == done.len(),
            forall|i: int|
                0 <= i < messages@.len() ==> match (#[trigger] messages@[i], done[i]) {
                    (Ok(body), Ok(expected)) => body@ == expected,
                    (Err(e), Err(expected)) => e == expected,
                    _ => false,
                },
        decreases input@.remaining.len(),
    {
        let ghost before = input@;
        let before_len = input.remaining_len();
        let message = next_raw_message(input);
        match message {
            None => {
                proof {
                    assert(done + raw_messages_spec(before) =~= done);
                }
                return messages;
            },
            Some(m) => {
                let ghost item = next_raw_message_spec(before).0->0;
                let progressed = input.remaining_len() < before_len;
                let failed = input.has_failed();
                messages.push(m);
                proof {
                    let old_done = done;
                    done = done.push(item);
                    assert forall|i: int| 0 <= i < messages@.len() implies match (
                        #[trigger] messages@[i],
                        done[i],
                    ) {
                        (Ok(body), Ok(expected)) => body@ == expected,
                        (Err(e), Err(expected)) => e == expected,
                        _ => false,
                    } by {
                        if i < old_done.len() {
                            assert(done[i] == old_done[i]);
                        }
                    }
                    if progressed && !failed {
                        assert(old_done + raw_messages_spec(before) =~= done + raw_messages_spec(
                            input@,
                        ));
                    } else {
                        assert(old_done + raw_messages_spec(before) =~= done);
                    }
                }
                if !progressed || failed {
                    proof {
                        assert(done =~= done + Seq::<ProtocolResult<Seq<u8>>>::empty());
                    }
                    return messages;
                }
            },
        }
    }
}

// ---------------------------------------------------------------------------
// Sending messages.

/// The bytes of "Content-Length: ".
pub open spec fn content_length_prefix() -> Seq<u8> {
    seq![0x43u8, 0x6F, 0x6E, 0x74, 0x65, 0x6E, 0x74, 0x2D, 0x4C, 0x65, 0x6E, 0x67, 0x74, 0x68, 0x3A, 0x20]
}

/// A message as it is sent: a `Content-Length` header with the size of the
/// body, an empty line, and the body.
pub open spec fn message_frame(body: Seq<u8>) -> Seq<u8> {
    content_length_prefix() + decimal_digits(body.len()) + seq![0x0Du8, 0x0A, 0x0D, 0x0A] + body
}

/// Sends a raw byte buffer using the DAP protocol: writes it, framed, to
/// `output`, first the header and then the body. A failed write ends the
/// sending with the writer's error; whatever fitted has been written.
pub fn send_raw_message(message_bytes: Vec<u8>, output: &mut ByteWriter) -> (r: ProtocolResult<()>)
    ensures
        final(output)@ == write_all_spec(old(output)@, message_frame(message_bytes@)).1,
        match write_all_spec(old(output)@, message_frame(message_bytes@)).0 {
            Ok(_) => r is Ok,
            Err(k) => r == Err::<(), ProtocolError>(ProtocolError::IoError(k)),
        },
{
    let prefix: [u8; 16] = [
        0x43,
        0x6F,
        0x6E,
        0x74,
        0x65,
        0x6E,
        0x74,
        0x2D,
        0x4C,
        0x65,
        0x6E,
        0x67,
        0x74,
        0x68,
        0x3A,
        0x20,
    ];
    let digits = decimal_bytes(message_bytes.len());
    let mut header: Vec<u8> = Vec::new();
    let mut i: usize = 0;
    while i < 16
        invariant
            i <= 16,
            header@ == prefix@.take(i as int),
        decreases 16 - i,
    {
        header.push(prefix[i]);
        proof {
            assert(prefix@.take(i + 1) =~= prefix@.take(i as int).push(prefix@[i as int]));
        }
        i = i + 1;
    }
    let mut k: usize = 0;
    while k < digits.len()
        invariant
            k <= digits@.len(),
            header@ == prefix@ + digits@.take(k as int),
        decreases digits.len() - k,
    {
        header.push(digits[k]);
        proof {
            assert(digits@.take(k + 1) =~= digits@.take(k as int).push(digits@[k as int]));
        }
        k = k + 1;
    }
    header.push(0x0D);
    header.push(0x0A);
    header.push(0x0D);
    header.push(0x0A);
    proof {
        assert(prefix@ =~= content_length_prefix());
        assert(digits@.take(digits@.len() as int) =~= digits@);
        assert(header@ =~= content_length_prefix() + decimal_digits(message_bytes@.len()) + seq![
            0x0Du8,
            0x0A,
            0x0D,
            0x0A,
        ]);
        assert(message_frame(message_bytes@) =~= header@ + message_bytes@);
    }
    let ghost w0 = output@;
    let sent_header = output.write_all(header.as_slice());
    match sent_header {
        Err(k) => {
            proof {
                let n = w0.room->0;
                assert(message_frame(message_bytes@).take(n as int) =~= header@.take(n as int));
            }
            return Err(ProtocolError::IoError(k));
        },
        Ok(()) => {},
    }
    let ghost w1 = output@;
    let sent_body = output.write_all(message_bytes.as_slice());
    proof {
        assert(w0.written + header@ + message_bytes@ =~= w0.written + message_frame(message_bytes@));
        match w0.room {
            Some(n) => {
                if message_frame(message_bytes@).len() > n {
                    let m = (n - header@.len()) as nat;
                    assert(w1.room == Some(m));
                    assert(header@ + message_bytes@.take(m as int) =~= message_frame(
                        message_bytes@,
                    ).take(n as int));
                    assert(w0.written + header@ + message_bytes@.take(m as int) =~= w0.written
                        + message_frame(message_bytes@).take(n as int));
                }
            },
            None => {},
        }
    }
    match sent_body {
        Err(k) => Err(ProtocolError::IoError(k)),
        Ok(()) => Ok(()),
    }
}

// ---------------------------------------------------------------------------
// What reading gives back of sending.

proof fn lemma_newline_after(a: Seq<u8>, b: Seq<u8>)
    requires
        forall|i: int| 0 <= i < a.len() ==> #[trigger] a[i] != 0x0A,
    ensures
        newline_index(a + seq![0x0Au8] + b) == Some(a.len()),
    decreases a.len(),
{
    let s = a + seq![0x0Au8] + b;
    if a.len() > 0 {
        assert(s.drop_first() =~= a.drop_first() + seq![0x0Au8] + b);
        assert forall|i: int| 0 <= i < a.drop_first().len() implies #[trigger] a.drop_first()[i] != 0x0A by {
            assert(a.drop_first()[i] == a[i + 1]);
        }
        lemma_newline_after(a.drop_first(), b);
        assert(s[0] == a[0]);
    } else {
        assert(s[0] == 0x0A);
    }
}

pub(crate) proof fn lemma_decimal_digits(n: nat)
    ensures
        decimal_digits(n).len() > 0,
        forall|i: int| 0 <= i < decimal_digits(n).len() ==> 0x30 <= #[trigger] decimal_digits(n)[i] <= 0x39,
        n <= usize::MAX ==> digits_value(ascii_chars(decimal_digits(n))) == Ok::<nat, IntErrorKind>(n),
    decreases n,
{
    if n >= 10 {
        lemma_decimal_digits(n / 10);
        let d = decimal_digits(n);
        let c = (0x30 + n % 10) as u8;
        assert(d == decimal_digits(n / 10).push(c));
        assert forall|i: int| 0 <= i < d.len() implies 0x30 <= #[trigger] d[i] <= 0x39 by {
            if i < d.len() - 1 {
                assert(d[i] == decimal_digits(n / 10)[i]);
            }
        }
        let chars = ascii_chars(d);
        assert(chars.drop_last() =~= ascii_chars(decimal_digits(n / 10)));
        assert(chars.last() == c as char);
        assert(is_decimal_digit(c as char));
        assert(digit_value(c as char) == n % 10);
        assert(n / 10 * 10 + n % 10 == n);
        if n <= usize::MAX {
            assert(digits_value(chars.drop_last()) == Ok::<nat, IntErrorKind>(n / 10));
        }
    } else {
        let d = decimal_digits(n);
        let chars = ascii_chars(d);
        assert(chars.drop_last() =~= Seq::<char>::empty());
        assert(chars.last() == d[0] as char);
        assert(is_decimal_digit(chars.last()));
        assert(digit_value(chars.last()) == n);
        assert(digits_value(chars.drop_last()) == Ok::<nat, IntErrorKind>(0));
    }
}

proof fn lemma_digits_text(d: Seq<u8>)
    requires
        forall|i: int| 0 <= i < d.len() ==> 0x30 <= #[trigger] d[i] <= 0x39,
    ensures
        skip_whitespace(ascii_chars(d)) == ascii_chars(d),
        up_to_newline(ascii_chars(d)) == ascii_chars(d),
    decreases d.len(),
{
    let chars = ascii_chars(d);
    if d.len() > 0 {
        assert(chars[0] == d[0] as char);
        assert forall|i: int| 0 <= i < d.drop_first().len() implies 0x30 <= #[trigger] d.drop_first()[i]
            <= 0x39 by {
            assert(d.drop_first()[i] == d[i + 1]);
        }
        lemma_digits_text(d.drop_first());
        assert(chars.drop_first() =~= ascii_chars(d.drop_first()));
        assert(seq![chars[0]] + chars.drop_first() =~= chars);
    }
}

/// Round-trip law: reading a message from a stream that starts with what
/// `send_raw_message` sends for `body` gives back exactly `body`, and leaves
/// the stream right after it.
pub proof fn lemma_message_round_trip(body: Seq<u8>, rest: Seq<u8>, end: StreamEnd)
    requires
        body.len() <= usize::MAX,
    ensures
        next_raw_message_spec(ByteReaderView { remaining: message_frame(body) + rest, end }) == (
            Some(Ok::<Seq<u8>, ProtocolError>(body)),
            ByteReaderView { remaining: rest, end },
        ),
{
    let n = body.len();
    let digits = decimal_digits(n);
    lemma_decimal_digits(n);
    let header = content_length_prefix() + digits;
    let r = ByteReaderView { remaining: message_frame(body) + rest, end };
    let tail = seq![0x0Du8, 0x0A] + body + rest;
    let first = header + seq![0x0Du8];
    assert(r.remaining =~= first + seq![0x0Au8] + tail);
    assert forall|i: int| 0 <= i < first.len() implies #[trigger] first[i] != 0x0A by {
        if i >= 16 && i < header.len() {
            assert(first[i] == digits[i - 16]);
        }
    }
    lemma_newline_after(first, tail);
    assert((first + seq![0x0Au8] + tail).take(first.len() as int) =~= first);
    assert(first.drop_last() =~= header);
    assert((first + seq![0x0Au8] + tail).skip(first.len() + 1 as int) =~= tail);
    let (line, after_first) = read_line_spec(r);
    assert(line == Some(Ok::<Seq<u8>, IoErrorKind>(header)));
    assert(after_first.remaining == tail);

    assert(is_ascii(header)) by {
        assert forall|i: int| 0 <= i < header.len() implies #[trigger] header[i] < 0x80 by {
            if i >= 16 {
                assert(header[i] == digits[i - 16]);
            }
        }
    }
    let text = ascii_chars(header);
    assert(line_text(header) == Some(text));
    assert(text.take(15) =~= content_length_label());
    assert(first_occurrence(text, content_length_label()) == Some(0nat));
    assert(text.skip(15) =~= seq![' '] + ascii_chars(digits));
    lemma_digits_text(digits);
    assert((seq![' '] + ascii_chars(digits)).drop_first() =~= ascii_chars(digits));
    assert(skip_whitespace(seq![' '] + ascii_chars(digits)) == ascii_chars(digits));
    assert(content_length_value(text) == Some(ascii_chars(digits)));
    assert(ascii_chars(digits)[0] == digits[0] as char);
    assert(parse_usize_spec(ascii_chars(digits)) == Ok::<usize, IntErrorKind>(n as usize));

    let second = ByteReaderView { remaining: tail, end };
    lemma_newline_after(seq![0x0Du8], body + rest);
    assert(tail =~= seq![0x0Du8] + seq![0x0Au8] + (body + rest));
    assert(tail.take(1) =~= seq![0x0Du8]);
    assert(seq![0x0Du8].drop_last() =~= Seq::<u8>::empty());
    assert(tail.skip(2) =~= body + rest);
    assert(line_text(Seq::<u8>::empty()) == Some(Seq::<char>::empty())) by {
        assert(ascii_chars(Seq::<u8>::empty()) =~= Seq::<char>::empty());
    }
    let (headers, after_headers) = read_headers_spec(second, true, Some(n as usize));
    assert(headers == Ok::<Option<usize>, ProtocolError>(Some(n as usize)));
    assert(after_headers.remaining == body + rest);
    assert(read_headers_spec(r, false, None) == read_headers_spec(second, true, Some(n as usize)));
    assert((body + rest).take(n as int) =~= body);
    assert((body + rest).skip(n as int) =~= rest);
}

/// The bytes of the messages `bodies`, sent one after another.
pub open spec fn message_stream(bodies: Seq<Seq<u8>>) -> Seq<u8>
    decreases bodies.len(),
{
    if bodies.len() == 0 {
        Seq::empty()
    } else {
        message_frame(bodies[0]) + message_stream(bodies.drop_first())
    }
}

/// Stream law: reading all messages from the bytes of messages sent one
/// after another, up to a normal end, gives back each body in order.
pub proof fn lemma_message_stream_round_trip(bodies: Seq<Seq<u8>>)
    requires
        forall|i: int| 0 <= i < bodies.len() ==> #[trigger] bodies[i].len() <= usize::MAX,
    ensures
        raw_messages_spec(ByteReaderView { remaining: message_stream(bodies), end: StreamEnd::Eof })
            == bodies.map_values(|b: Seq<u8>| Ok::<Seq<u8>, ProtocolError>(b)),
    decreases bodies.len(),
{
    let r = ByteReaderView { remaining: message_stream(bodies), end: StreamEnd::Eof };
    if bodies.len() == 0 {
        let (line, _) = read_line_spec(r);
        assert(newline_index(r.remaining) is None);
        assert(line is None);
        assert(bodies.map_values(|b: Seq<u8>| Ok::<Seq<u8>, ProtocolError>(b)) =~= Seq::empty());
    } else {
        let rest = message_stream(bodies.drop_first());
        assert forall|i: int| 0 <= i < bodies.drop_first().len() implies #[trigger] bodies.drop_first()[i].len()
            <= usize::MAX by {
            assert(bodies.drop_first()[i] == bodies[i + 1]);
        }
        assert(bodies[0].len() <= usize::MAX);
        lemma_message_round_trip(bodies[0], rest, StreamEnd::Eof);
        lemma_message_stream_round_trip(bodies.drop_first());
        assert(message_frame(bodies[0]).len() > 0);
        assert(bodies.map_values(|b: Seq<u8>| Ok::<Seq<u8>, ProtocolError>(b)) =~= seq![
            Ok::<Seq<u8>, ProtocolError>(bodies[0]),
        ] + bodies.drop_first().map_values(|b: Seq<u8>| Ok::<Seq<u8>, ProtocolError>(b)));
    }
}

/// Every number has at least one decimal digit.
pub proof fn lemma_decimal_digits_nonempty(n: nat)
    ensures
        decimal_digits(n).len() > 0,
{
    lemma_decimal_digits(n);
}

} // verus!
