//! Byte streams as the parsers of this library read them: the bytes that a
//! source delivers, and how the source ends after its last byte.
use vstd::prelude::*;

verus! {

/// The kind of a failed read or write.
#[derive(Debug, PartialEq, Eq, Structural, Clone, Copy)]
pub enum IoErrorKind {
    /// The data ended before a complete item could be read.
    UnexpectedEof,
    /// The data read is not valid text.
    InvalidData,
    /// The connection was reset by the remote side.
    ConnectionReset,
    /// The connection was aborted by the remote side.
    ConnectionAborted,
    /// The other side of a pipe or connection has gone away.
    BrokenPipe,
    /// Any other failure.
    Other,
}

/// How a stream ends after its last byte.
#[derive(Debug, PartialEq, Eq, Structural, Clone, Copy)]
pub enum StreamEnd {
    /// The stream ends normally.
    Eof,
    /// Reading past the last byte fails, and keeps failing.
    Error(IoErrorKind),
}

/// A source of bytes that delivers `bytes` and then ends as `end` says.
#[derive(Debug)]
pub struct ByteReader {
    bytes: Vec<u8>,
    position: usize,
    end: StreamEnd,
}

/// What a reader has left to deliver.
pub struct ByteReaderView {
    pub remaining: Seq<u8>,
    pub end: StreamEnd,
}

impl ByteReader {
    #[verifier::type_invariant]
    closed spec fn position_in_bytes(self) -> bool {
        self.position <= self.bytes.len()
    }
}

impl View for ByteReader {
    type V = ByteReaderView;

    closed spec fn view(&self) -> ByteReaderView {
        ByteReaderView { remaining: self.bytes@.skip(self.position as int), end: self.end }
    }
}

/// The index of the first line feed in `s`, if there is one.
pub open spec fn newline_index(s: Seq<u8>) -> Option<nat>
    decreases s.len(),
{
    if s.len() == 0 {
        None
    } else if s[0] == 0x0A {
        Some(0)
    } else {
        match newline_index(s.drop_first()) {
            Some(i) => Some(i + 1),
            None => None,
        }
    }
}

/// A line without its line feed, and without the carriage return that comes
/// right before it.
pub open spec fn line_content(s: Seq<u8>) -> Seq<u8> {
    if s.len() > 0 && s.last() == 0x0D {
        s.drop_last()
    } else {
        s
    }
}

/// Reading one line: the bytes up to the next line feed, which is consumed
/// and dropped together with a carriage return before it. A last line without
/// a line feed is delivered as it is at a normal end; a failing end fails the
/// read. With nothing left, a normal end gives no line.
pub open spec fn read_line_spec(r: ByteReaderView) -> (
    Option<Result<Seq<u8>, IoErrorKind>>,
    ByteReaderView,
) {
    match newline_index(r.remaining) {
        Some(i) => (
            Some(Ok(line_content(r.remaining.take(i as int)))),
            ByteReaderView { remaining: r.remaining.skip(i + 1 as int), ..r },
        ),
        None => {
            let rest = ByteReaderView { remaining: Seq::empty(), ..r };
            match r.end {
                StreamEnd::Eof => if r.remaining.len() == 0 {
                    (None, rest)
                } else {
                    (Some(Ok(r.remaining)), rest)
                },
                StreamEnd::Error(k) => (Some(Err(k)), rest),
            }
        },
    }
}

/// Reading exactly `n` bytes: they are delivered when there are enough;
/// otherwise everything left is consumed and the read fails as the stream
/// ends.
pub open spec fn read_exact_spec(r: ByteReaderView, n: nat) -> (
    Result<Seq<u8>, IoErrorKind>,
    ByteReaderView,
) {
    if n <= r.remaining.len() {
        (Ok(r.remaining.take(n as int)), ByteReaderView { remaining: r.remaining.skip(n as int), ..r })
    } else {
        (
            Err(
                match r.end {
                    StreamEnd::Eof => IoErrorKind::UnexpectedEof,
                    StreamEnd::Error(k) => k,
                },
            ),
            ByteReaderView { remaining: Seq::empty(), ..r },
        )
    }
}

/// Where `newline_index` points: at a line feed with none before it.
pub proof fn lemma_newline_index(s: Seq<u8>)
    ensures
        match newline_index(s) {
            Some(i) => i < s.len() && s[i as int] == 0x0A && forall|j: int|
                0 <= j < i ==> #[trigger] s[j] != 0x0A,
            None => forall|j: int| 0 <= j < s.len() ==> #[trigger] s[j] != 0x0A,
        },
    decreases s.len(),
{
    if s.len() > 0 {
        lemma_newline_index(s.drop_first());
        if s[0] != 0x0A {
            assert forall|j: int| 1 <= j < s.len() implies s[j] == s.drop_first()[j - 1] by {}
        }
    }
}

/// Whether a stream has nothing left but a failure, which every further read
/// meets again.
pub open spec fn stream_failed(r: ByteReaderView) -> bool {
    r.remaining.len() == 0 && r.end is Error
}

impl ByteReader {
    /// The number of bytes left before the end.
    pub fn remaining_len(&self) -> (r: usize)
        ensures
            r == self@.remaining.len(),
    {
        proof {
            use_type_invariant(self);
        }
        self.bytes.len() - self.position
    }

    /// Whether the stream has nothing left but a failure.
    pub fn has_failed(&self) -> (r: bool)
        ensures
            r == stream_failed(self@),
    {
        proof {
            use_type_invariant(self);
        }
        self.position == self.bytes.len() && match self.end {
            StreamEnd::Eof => false,
            StreamEnd::Error(_) => true,
        }
    }

    /// A reader that delivers `bytes` and then ends as `end` says.
    pub fn new(bytes: Vec<u8>, end: StreamEnd) -> (r: Self)
        ensures
            r@ == (ByteReaderView { remaining: bytes@, end }),
    {
        let r = ByteReader { bytes, position: 0, end };
        assert(r.bytes@.skip(0) =~= r.bytes@);
        r
    }

    /// A reader that delivers `bytes` and then ends normally.
    pub fn from_bytes(bytes: &[u8]) -> (r: Self)
        ensures
            r@ == (ByteReaderView { remaining: bytes@, end: StreamEnd::Eof }),
    {
        ByteReader::new(vstd::slice::slice_to_vec(bytes), StreamEnd::Eof)
    }

    /// Reads one line; see [`read_line_spec`].
    pub fn read_line(&mut self) -> (r: Option<Result<Vec<u8>, IoErrorKind>>)
        ensures
            final(self)@ == read_line_spec(old(self)@).1,
            match (r, read_line_spec(old(self)@).0) {
                (None, None) => true,
                (Some(Ok(line)), Some(Ok(expected))) => line@ == expected,
                (Some(Err(e)), Some(Err(expected))) => e == expected,
                _ => false,
            },
    {
        proof {
            use_type_invariant(&*self);
        }
        let ghost rest = self@.remaining;
        proof {
            lemma_newline_index(rest);
        }
        let start = self.position;
        let mut i = start;
        while i < self.bytes.len() && self.bytes[i] != 0x0A
            invariant
                start <= i <= self.bytes.len(),
                start == self.position,
                rest == self.bytes@.skip(start as int),
                forall|j: int| start <= j < i ==> self.bytes@[j] != 0x0A,
            decreases self.bytes.len() - i,
        {
            i = i + 1;
        }
        proof {
            if i < self.bytes.len() {
                assert(rest[i - start] == 0x0A);
                assert forall|j: int| 0 <= j < i - start implies rest[j] != 0x0A by {
                    assert(rest[j] == self.bytes@[start + j]);
                }
                match newline_index(rest) {
                    Some(k) => {
                        assert(rest[k as int] == self.bytes@[start + k]);
                        assert(k == i - start);
                    },
                    None => {
                        assert(rest[i - start] != 0x0A);
                    },
                }
            } else {
                match newline_index(rest) {
                    Some(k) => {
                        assert(rest[k as int] == self.bytes@[start + k]);
                    },
                    None => {},
                }
            }
        }
        if i < self.bytes.len() {
            let mut line: Vec<u8> = Vec::new();
            let mut k = start;
            let mut end = i;
            if end > start && self.bytes[end - 1] == 0x0D {
                end = end - 1;
            }
            while k < end
                invariant
                    start <= k <= end <= i < self.bytes.len(),
                    line@ == self.bytes@.subrange(start as int, k as int),
                decreases end - k,
            {
                line.push(self.bytes[k]);
                proof {
                    assert(self.bytes@.subrange(start as int, k + 1) =~= self.bytes@.subrange(
                        start as int,
                        k as int,
                    ).push(self.bytes@[k as int]));
                }
                k = k + 1;
            }
            proof {
                let taken = rest.take(i - start);
                assert(taken =~= self.bytes@.subrange(start as int, i as int));
                if i > start && self.bytes@[i - 1] == 0x0D {
                    assert(line_content(taken) =~= line@);
                } else {
                    assert(line_content(taken) =~= line@);
                }
                assert(self.bytes@.skip(i + 1) =~= rest.skip(i - start + 1));
            }
            self.position = i + 1;
            Some(Ok(line))
        } else {
            self.position = self.bytes.len();
            proof {
                assert(self.bytes@.skip(self.bytes.len() as int) =~= Seq::<u8>::empty());
            }
            match self.end {
                StreamEnd::Eof => if start == i {
                    None
                } else {
                    let mut line: Vec<u8> = Vec::new();
                    let mut k = start;
                    while k < i
                        invariant
                            start <= k <= i == self.bytes.len(),
                            line@ == self.bytes@.subrange(start as int, k as int),
                        decreases i - k,
                    {
                        line.push(self.bytes[k]);
                        proof {
                            assert(self.bytes@.subrange(start as int, k + 1)
                                =~= self.bytes@.subrange(start as int, k as int).push(
                                self.bytes@[k as int],
                            ));
                        }
                        k = k + 1;
                    }
                    proof {
                        assert(rest =~= line@);
                    }
                    Some(Ok(line))
                },
                StreamEnd::Error(e) => Some(Err(e)),
            }
        }
    }

    /// Reads exactly `n` bytes; see [`read_exact_spec`].
    pub fn read_exact(&mut self, n: usize) -> (r: Result<Vec<u8>, IoErrorKind>)
        ensures
            final(self)@ == read_exact_spec(old(self)@, n as nat).1,
            match (r, read_exact_spec(old(self)@, n as nat).0) {
                (Ok(bytes), Ok(expected)) => bytes@ == expected,
                (Err(e), Err(expected)) => e == expected,
                _ => false,
            },
    {
        proof {
            use_type_invariant(&*self);
        }
        let ghost rest = self@.remaining;
        let start = self.position;
        if n <= self.bytes.len() - start {
            let mut out: Vec<u8> = Vec::new();
            let mut k: usize = 0;
            while k < n
                invariant
                    k <= n <= self.bytes.len() - start,
                    start == self.position,
                    out@ == self.bytes@.subrange(start as int, start + k),
                decreases n - k,
            {
                out.push(self.bytes[start + k]);
                proof {
                    assert(self.bytes@.subrange(start as int, start + k + 1) =~= self.bytes@.subrange(
                        start as int,
                        start + k,
                    ).push(self.bytes@[start + k]));
                }
                k = k + 1;
            }
            proof {
                assert(rest.take(n as int) =~= out@);
                assert(self.bytes@.skip(start + n) =~= rest.skip(n as int));
            }
            self.position = start + n;
            Ok(out)
        } else {
            self.position = self.bytes.len();
            proof {
                assert(self.bytes@.skip(self.bytes.len() as int) =~= Seq::<u8>::empty());
            }
            match self.end {
                StreamEnd::Eof => Err(IoErrorKind::UnexpectedEof),
                StreamEnd::Error(e) => Err(e),
            }
        }
    }
}

/// A sink of bytes, such as a connection, that takes bytes until it has no
/// room left and then fails as `failure` says.
#[derive(Debug)]
pub struct ByteWriter {
    bytes: Vec<u8>,
    room: Option<usize>,
    failure: IoErrorKind,
}

/// What a writer has taken so far, and how many more bytes it takes (`None`
/// for no limit) before it fails with `failure`.
pub struct ByteWriterView {
    pub written: Seq<u8>,
    pub room: Option<nat>,
    pub failure: IoErrorKind,
}

impl View for ByteWriter {
    type V = ByteWriterView;

    closed spec fn view(&self) -> ByteWriterView {
        ByteWriterView {
            written: self.bytes@,
            room: match self.room {
                Some(n) => Some(n as nat),
                None => None,
            },
            failure: self.failure,
        }
    }
}

/// Writing all of `chunk`: it is taken whole when it fits; otherwise the
/// bytes that fit are taken, the write fails, and the writer has no room
/// left.
pub open spec fn write_all_spec(w: ByteWriterView, chunk: Seq<u8>) -> (
    Result<(), IoErrorKind>,
    ByteWriterView,
) {
    match w.room {
        None => (Ok(()), ByteWriterView { written: w.written + chunk, ..w }),
        Some(n) => if chunk.len() <= n {
            (
                Ok(()),
                ByteWriterView { written: w.written + chunk, room: Some((n - chunk.len()) as nat), ..w },
            )
        } else {
            (
                Err(w.failure),
                ByteWriterView { written: w.written + chunk.take(n as int), room: Some(0), ..w },
            )
        },
    }
}

impl ByteWriter {
    /// A writer that takes any number of bytes.
    pub fn new() -> (r: Self)
        ensures
            r@ == (ByteWriterView { written: Seq::empty(), room: None, failure: IoErrorKind::Other }),
    {
        ByteWriter { bytes: Vec::new(), room: None, failure: IoErrorKind::Other }
    }

    /// A writer that takes `room` bytes and then fails with `failure`.
    pub fn failing_after(room: usize, failure: IoErrorKind) -> (r: Self)
        ensures
            r@ == (ByteWriterView { written: Seq::empty(), room: Some(room as nat), failure }),
    {
        ByteWriter { bytes: Vec::new(), room: Some(room), failure }
    }

    /// The bytes taken so far.
    pub fn written(&self) -> (r: &[u8])
        ensures
            r@ == self@.written,
    {
        self.bytes.as_slice()
    }

    /// Writes all of `chunk`; see [`write_all_spec`].
    pub fn write_all(&mut self, chunk: &[u8]) -> (r: Result<(), IoErrorKind>)
        ensures
            r == write_all_spec(old(self)@, chunk@).0,
            final(self)@ == write_all_spec(old(self)@, chunk@).1,
    {
        let taken = match self.room {
            None => chunk.len(),
            Some(n) => if chunk.len() <= n {
                chunk.len()
            } else {
                n
            },
        };
        let ghost start = self.bytes@;
        let mut i: usize = 0;
        while i < taken
            invariant
                i <= taken <= chunk.len(),
                self.bytes@ == start + chunk@.take(i as int),
                self.room == old(self).room,
                self.failure == old(self).failure,
            decreases taken - i,
        {
            self.bytes.push(chunk[i]);
            proof {
                assert(chunk@.take(i + 1) =~= chunk@.take(i as int).push(chunk@[i as int]));
            }
            i = i + 1;
        }
        proof {
            assert(chunk@.take(chunk@.len() as int) =~= chunk@);
        }
        match self.room {
            None => Ok(()),
            Some(n) => if chunk.len() <= n {
                self.room = Some(n - chunk.len());
                Ok(())
            } else {
                self.room = Some(0);
                Err(self.failure)
            },
        }
    }
}

} // verus!
