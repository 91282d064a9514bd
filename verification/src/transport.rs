//! The wire format: each message travels as a block of header lines, a blank
//! line and the body, whose length in bytes the `Content-Length` header gives.
//!
//! Reading and writing bytes is the business of the embedding program. This
//! module says what is written for a body, what each header line means, and
//! what is to be read next.

use crate::text::{decimal, decimal_string, owned};
use vstd::prelude::*;
use vstd::slice::slice_subrange;
use vstd::string::*;

verus! {

/// How the adapter talks to the client.
#[derive(Debug, Clone, Copy, PartialEq, Eq, Structural)]
pub enum DapTransportMode {
    /// Over the standard streams.
    Stdio,
    /// Over one TCP connection to the given port of the local host.
    Tcp(u16),
}

/// What a header line is.
#[derive(Debug, Clone, Copy, PartialEq, Eq, Structural)]
pub enum HeaderLine {
    /// Nothing but white space: the header block ends.
    Blank,
    /// `Content-Length` with its value.
    ContentLength(usize),
    /// `Content-Length` with something that is no length.
    Invalid,
    /// Any other line.
    Other,
}

/// What is to be read next.
#[derive(Debug, Clone, Copy, PartialEq, Eq, Structural)]
pub enum ReadStep {
    /// One more header line.
    Line,
    /// The body: exactly that many bytes.
    Body(usize),
    /// The frame is malformed: it is reported and given up, and the next line
    /// is read as the start of a new frame.
    Skip,
}

/// What a buffer of received bytes holds at its start.
#[derive(Debug, Clone, Copy, PartialEq, Eq, Structural)]
pub enum Frame {
    /// No whole frame yet: more bytes are needed.
    Incomplete,
    /// A header block that is malformed. It ends at `end`, and the bytes up to
    /// there are to be dropped.
    Malformed { end: usize },
    /// A frame. Its body is the bytes from `start` to `end`, and the next
    /// frame starts at `end`.
    Message { start: usize, end: usize },
}

/// What the listener does after a connection was served.
#[derive(Debug, Clone, Copy, PartialEq, Eq, Structural)]
pub enum AcceptStep {
    /// One session was served: the listener stops.
    Stop,
    /// The connection failed: the next one is accepted.
    Accept,
}

/// The bytes of `Content-Length:`.
pub open spec fn header_name() -> Seq<u8> {
    seq![67u8, 111, 110, 116, 101, 110, 116, 45, 76, 101, 110, 103, 116, 104, 58]
}

/// Whether a byte is a space, a tab, a carriage return or a line feed.
pub open spec fn is_blank(b: u8) -> bool {
    b == 32 || b == 9 || b == 13 || b == 10
}

/// The first index from `from` on that holds no blank byte, or the length.
pub open spec fn skip_blanks(s: Seq<u8>, from: int) -> int
    decreases s.len() - from,
{
    if 0 <= from < s.len() && is_blank(s[from]) {
        skip_blanks(s, from + 1)
    } else {
        from
    }
}

/// The index after the last byte before `to` that is no blank, or `floor` where
/// there is none from `floor` on.
pub open spec fn skip_blanks_back(s: Seq<u8>, floor: int, to: int) -> int
    decreases to - floor,
{
    if floor < to <= s.len() && is_blank(s[to - 1]) {
        skip_blanks_back(s, floor, to - 1)
    } else {
        to
    }
}

/// `s` without the blank bytes at its two ends.
pub open spec fn trimmed(s: Seq<u8>) -> Seq<u8> {
    let start = skip_blanks(s, 0);
    s.subrange(start, skip_blanks_back(s, start, s.len() as int))
}

/// The number that a sequence of decimal digits spells; `None` for an empty
/// sequence and for one that holds anything but digits.
pub open spec fn parse_decimal(s: Seq<u8>) -> Option<nat>
    decreases s.len(),
{
    if s.len() == 0 {
        None
    } else if !(48 <= s.last() <= 57) {
        None
    } else if s.len() == 1 {
        Some((s.last() - 48) as nat)
    } else {
        match parse_decimal(s.drop_last()) {
            Some(front) => Some((front * 10 + (s.last() - 48)) as nat),
            None => None,
        }
    }
}

/// The decimal digits of a number.
pub open spec fn digits(n: nat) -> Seq<u8>
    decreases n,
{
    if n < 10 {
        seq![(48 + n) as u8]
    } else {
        digits(n / 10).push((48 + n % 10) as u8)
    }
}

/// Whether `s` starts with `prefix`.
pub open spec fn starts_with(s: Seq<u8>, prefix: Seq<u8>) -> bool {
    prefix.len() <= s.len() && s.subrange(0, prefix.len() as int) == prefix
}

/// What a header line is: blank, the `Content-Length` header, or another line.
/// Blank bytes around the line and around the length do not count.
pub open spec fn classify(line: Seq<u8>) -> HeaderLine {
    let t = trimmed(line);
    if t.len() == 0 {
        HeaderLine::Blank
    } else if starts_with(t, header_name()) {
        match parse_decimal(trimmed(t.subrange(header_name().len() as int, t.len() as int))) {
            Some(n) => if n <= usize::MAX {
                HeaderLine::ContentLength(n as usize)
            } else {
                HeaderLine::Invalid
            },
            None => HeaderLine::Invalid,
        }
    } else {
        HeaderLine::Other
    }
}

/// The header line that announces a body of `n` bytes.
pub open spec fn length_line(n: nat) -> Seq<u8> {
    header_name() + seq![32u8] + digits(n) + seq![13u8, 10u8]
}

/// What is written for a body: the length line, a blank line, the body.
pub open spec fn frame(body: Seq<u8>) -> Seq<u8> {
    length_line(body.len()) + seq![13u8, 10u8] + body
}

/// The index of the first byte from `from` on that is no blank.
fn first_solid(s: &[u8], from: usize) -> (i: usize)
    requires
        from <= s@.len(),
    ensures
        i == skip_blanks(s@, from as int),
        from <= i <= s@.len(),
{
    let mut i = from;
    while i < s.len() && (s[i] == 32 || s[i] == 9 || s[i] == 13 || s[i] == 10)
        invariant
            from <= i <= s@.len(),
            skip_blanks(s@, from as int) == skip_blanks(s@, i as int),
        decreases s@.len() - i,
    {
        i += 1;
    }
    i
}

/// The index after the last byte before `to` that is no blank, not below `floor`.
fn last_solid(s: &[u8], floor: usize, to: usize) -> (i: usize)
    requires
        floor <= to <= s@.len(),
    ensures
        i == skip_blanks_back(s@, floor as int, to as int),
        floor <= i <= to,
{
    let mut i = to;
    while i > floor && (s[i - 1] == 32 || s[i - 1] == 9 || s[i - 1] == 13 || s[i - 1] == 10)
        invariant
            floor <= i <= to,
            to <= s@.len(),
            skip_blanks_back(s@, floor as int, to as int) == skip_blanks_back(
                s@,
                floor as int,
                i as int,
            ),
        decreases i - floor,
    {
        i -= 1;
    }
    i
}

/// The number that the bytes from `start` to `end` spell in decimal digits, if
/// they spell one that fits.
fn parse_length(s: &[u8], start: usize, end: usize) -> (n: Option<usize>)
    requires
        start <= end <= s@.len(),
    ensures
        match parse_decimal(s@.subrange(start as int, end as int)) {
            Some(v) => if v <= usize::MAX {
                n == Some(v as usize)
            } else {
                n is None
            },
            None => n is None,
        },
{
    if start == end {
        return None;
    }
    let mut value: usize = 0;
    let mut i = start;
    while i < end
        invariant
            start <= i <= end,
            end <= s@.len(),
            start < end,
            i > start ==> parse_decimal(s@.subrange(start as int, i as int)) == Some(value as nat),
            i == start ==> value == 0,
        decreases end - i,
    {
        let ghost upto = s@.subrange(start as int, i as int + 1);
        assert(upto.drop_last() =~= s@.subrange(start as int, i as int));
        let b = s[i];
        if b < 48 || b > 57 {
            proof {
                lemma_bad_digit(s@.subrange(start as int, end as int), i - start);
            }
            return None;
        }
        let d = (b - 48) as usize;
        if value > (usize::MAX - d) / 10 {
            proof {
                lemma_too_long(s@.subrange(start as int, end as int), i - start + 1);
                assert(s@.subrange(start as int, end as int).subrange(0, i - start + 1) =~= upto);
            }
            return None;
        }
        value = value * 10 + d;
        i += 1;
    }
    Some(value)
}

/// A sequence with a byte that is no digit spells no number.
proof fn lemma_bad_digit(s: Seq<u8>, at: int)
    requires
        0 <= at < s.len(),
        !(48 <= s[at] <= 57),
    ensures
        parse_decimal(s) is None,
    decreases s.len(),
{
    if at < s.len() - 1 {
        lemma_bad_digit(s.drop_last(), at);
    }
}

/// A number is not smaller than the one that a front part of its digits spells.
proof fn lemma_too_long(s: Seq<u8>, front: int)
    requires
        0 < front <= s.len(),
    ensures
        parse_decimal(s) matches Some(v) ==> parse_decimal(s.subrange(0, front)) matches Some(w)
            && w <= v,
    decreases s.len(),
{
    if front == s.len() {
        assert(s.subrange(0, front) =~= s);
    } else {
        let shorter = s.drop_last();
        lemma_too_long(shorter, front);
        assert(shorter.subrange(0, front) =~= s.subrange(0, front));
    }
}

/// Says what a header line is.
pub fn parse_header_line(line: &[u8]) -> (kind: HeaderLine)
    ensures
        kind == classify(line@),
{
    let start = first_solid(line, 0);
    let end = last_solid(line, start, line.len());
    let ghost t = trimmed(line@);
    if start == end {
        return HeaderLine::Blank;
    }
    let name: [u8; 15] = [67, 111, 110, 116, 101, 110, 116, 45, 76, 101, 110, 103, 116, 104, 58];
    if end - start < 15 {
        return HeaderLine::Other;
    }
    let mut i: usize = 0;
    while i < 15
        invariant
            i <= 15,
            start + 15 <= end <= line@.len(),
            name@ == header_name(),
            t == line@.subrange(start as int, end as int),
            t == trimmed(line@),
            forall|k: int| 0 <= k < i ==> t[k] == header_name()[k],
        decreases 15 - i,
    {
        if line[start + i] != name[i] {
            return HeaderLine::Other;
        }
        i += 1;
    }
    assert(t.subrange(0, 15) =~= header_name());
    let from = start + 15;
    let ghost rest = t.subrange(15, t.len() as int);
    assert(rest =~= line@.subrange(from as int, end as int));
    let value_start = skip_within(line, from, end);
    let value_end = last_solid(line, value_start, end);
    proof {
        lemma_skip_blanks_window(line@, from as int, end as int, from as int);
        lemma_skip_blanks_back_window(line@, from as int, value_start as int, end as int);
        assert(trimmed(rest) =~= line@.subrange(value_start as int, value_end as int));
    }
    match parse_length(line, value_start, value_end) {
        Some(n) => HeaderLine::ContentLength(n),
        None => HeaderLine::Invalid,
    }
}

/// The index of the first byte from `from` on and before `end` that is no blank.
fn skip_within(s: &[u8], from: usize, end: usize) -> (i: usize)
    requires
        from <= end <= s@.len(),
    ensures
        from <= i <= end,
        forall|k: int| from <= k < i ==> is_blank(s@[k]),
        i < end ==> !is_blank(s@[i as int]),
{
    let mut i = from;
    while i < end && (s[i] == 32 || s[i] == 9 || s[i] == 13 || s[i] == 10)
        invariant
            from <= i <= end,
            end <= s@.len(),
            forall|k: int| from <= k < i ==> is_blank(s@[k]),
        decreases end - i,
    {
        i += 1;
    }
    i
}

/// Skipping blanks in a part of a sequence goes as far as in the sequence,
/// unless the part ends first.
proof fn lemma_skip_blanks_window(s: Seq<u8>, from: int, end: int, at: int)
    requires
        0 <= from <= at <= end <= s.len(),
    ensures
        skip_blanks(s.subrange(from, end), at - from) + from == if skip_blanks(s, at) < end {
            skip_blanks(s, at)
        } else {
            end
        },
        forall|k: int| at <= k < skip_blanks(s, at) ==> is_blank(s[k]),
        skip_blanks(s, at) < s.len() ==> !is_blank(s[skip_blanks(s, at)]),
        at <= skip_blanks(s, at) <= s.len(),
    decreases end - at,
{
    if at < end {
        if is_blank(s[at]) {
            lemma_skip_blanks_window(s, from, end, at + 1);
        }
    } else {
        lemma_skip_blanks_rest(s, at);
    }
}

/// What skipping blanks skips.
proof fn lemma_skip_blanks_rest(s: Seq<u8>, at: int)
    requires
        0 <= at <= s.len(),
    ensures
        forall|k: int| at <= k < skip_blanks(s, at) ==> is_blank(s[k]),
        skip_blanks(s, at) < s.len() ==> !is_blank(s[skip_blanks(s, at)]),
        at <= skip_blanks(s, at) <= s.len(),
    decreases s.len() - at,
{
    if at < s.len() && is_blank(s[at]) {
        lemma_skip_blanks_rest(s, at + 1);
    }
}

/// Skipping blanks backwards in a part of a sequence is skipping them in the
/// sequence, down to the start of the part.
proof fn lemma_skip_blanks_back_window(s: Seq<u8>, from: int, floor: int, end: int)
    requires
        0 <= from <= floor <= end <= s.len(),
    ensures
        skip_blanks_back(s.subrange(from, end), floor - from, end - from) + from
            == skip_blanks_back(s, floor, end),
    decreases end - floor,
{
    let part = s.subrange(from, end);
    if floor < end {
        if is_blank(s[end - 1]) {
            lemma_skip_blanks_back_window(s, from, floor, end - 1);
            assert(part.subrange(0, end - 1 - from) =~= s.subrange(from, end - 1));
            lemma_skip_blanks_back_prefix(part, floor - from, end - 1 - from);
        }
    }
}

/// Skipping blanks backwards looks at nothing behind where it starts.
proof fn lemma_skip_blanks_back_prefix(s: Seq<u8>, floor: int, to: int)
    requires
        0 <= floor <= to <= s.len(),
    ensures
        skip_blanks_back(s.subrange(0, to), floor, to) == skip_blanks_back(s, floor, to),
    decreases to - floor,
{
    let part = s.subrange(0, to);
    if floor < to {
        if is_blank(s[to - 1]) {
            lemma_skip_blanks_back_prefix(s, floor, to - 1);
            lemma_skip_blanks_back_prefix(part, floor, to - 1);
            assert(part.subrange(0, to - 1) =~= s.subrange(0, to - 1));
        }
    }
}

/// The decimal digits of `n`.
pub fn length_digits(n: usize) -> (v: Vec<u8>)
    ensures
        v@ == digits(n as nat),
    decreases n,
{
    if n < 10 {
        let mut v: Vec<u8> = Vec::new();
        v.push(48 + n as u8);
        v
    } else {
        let mut v = length_digits(n / 10);
        v.push(48 + (n % 10) as u8);
        v
    }
}

/// What is written for a message: the length line, a blank line, the message.
pub fn frame_message(body: &[u8]) -> (v: Vec<u8>)
    ensures
        v@ == frame(body@),
{
    let name: [u8; 15] = [67, 111, 110, 116, 101, 110, 116, 45, 76, 101, 110, 103, 116, 104, 58];
    let mut v: Vec<u8> = Vec::new();
    let mut i: usize = 0;
    while i < 15
        invariant
            i <= 15,
            name@ == header_name(),
            v@ == header_name().subrange(0, i as int),
        decreases 15 - i,
    {
        v.push(name[i]);
        i += 1;
    }
    v.push(32);
    let mut number = length_digits(body.len());
    v.append(&mut number);
    v.push(13);
    v.push(10);
    v.push(13);
    v.push(10);
    let mut k: usize = 0;
    while k < body.len()
        invariant
            k <= body@.len(),
            v@ == length_line(body@.len()) + seq![13u8, 10u8] + body@.subrange(0, k as int),
        decreases body@.len() - k,
    {
        v.push(body[k]);
        assert(v@ =~= length_line(body@.len()) + seq![13u8, 10u8] + body@.subrange(
            0,
            k as int + 1,
        ));
        k += 1;
    }
    v
}

/// Where the reading of a frame stands.
#[derive(Debug, Clone, Copy, PartialEq, Eq, Structural)]
pub struct FrameReader {
    /// The length that the header block gave so far.
    pub length: Option<usize>,
    /// Whether the header block holds a line that is no length.
    pub other_lines: bool,
}

impl FrameReader {
    /// A reader at the start of a frame.
    pub open spec fn start() -> FrameReader {
        FrameReader { length: None, other_lines: false }
    }

    /// The reader after a header line of the kind `kind`, and what is to be
    /// read next.
    ///
    /// The first length counts. Other headers are passed over. The blank line
    /// ends the header block: the body follows if a length was given, and the
    /// frame is given up if there were headers but no length. Blank lines
    /// before a frame are passed over. A length that is none gives the frame up
    /// at once.
    pub open spec fn after(self, kind: HeaderLine) -> (FrameReader, ReadStep) {
        match kind {
            HeaderLine::ContentLength(n) => (
                FrameReader {
                    length: if self.length is Some {
                        self.length
                    } else {
                        Some(n)
                    },
                    ..self
                },
                ReadStep::Line,
            ),
            HeaderLine::Other => (FrameReader { other_lines: true, ..self }, ReadStep::Line),
            HeaderLine::Invalid => (Self::start(), ReadStep::Skip),
            HeaderLine::Blank => match self.length {
                Some(n) => (Self::start(), ReadStep::Body(n)),
                None => if self.other_lines {
                    (Self::start(), ReadStep::Skip)
                } else {
                    (self, ReadStep::Line)
                },
            },
        }
    }

    pub fn new() -> (r: FrameReader)
        ensures
            r == Self::start(),
    {
        FrameReader { length: None, other_lines: false }
    }

    /// Takes a header line, with or without its line end, and says what is to
    /// be read next.
    pub fn on_line(&mut self, line: &[u8]) -> (step: ReadStep)
        ensures
            (*final(self), step) == old(self).after(classify(line@)),
    {
        match parse_header_line(line) {
            HeaderLine::ContentLength(n) => {
                if self.length.is_none() {
                    self.length = Some(n);
                }
                ReadStep::Line
            },
            HeaderLine::Other => {
                self.other_lines = true;
                ReadStep::Line
            },
            HeaderLine::Invalid => {
                *self = FrameReader::new();
                ReadStep::Skip
            },
            HeaderLine::Blank => match self.length {
                Some(n) => {
                    *self = FrameReader::new();
                    ReadStep::Body(n)
                },
                None => {
                    if self.other_lines {
                        *self = FrameReader::new();
                        ReadStep::Skip
                    } else {
                        ReadStep::Line
                    }
                },
            },
        }
    }
}

/// The index after the first line feed from `from` on, or -1 if there is none.
pub open spec fn line_end(s: Seq<u8>, from: int) -> int
    decreases s.len() - from,
{
    if !(0 <= from < s.len()) {
        -1
    } else if s[from] == 10 {
        from + 1
    } else {
        line_end(s, from + 1)
    }
}

/// What the bytes from `from` on hold, for a reader that has come to `from`:
/// the header lines are taken one by one until the body is due or the frame is
/// given up.
pub open spec fn scan(s: Seq<u8>, from: int, reader: FrameReader) -> Frame
    decreases s.len() - from,
{
    let end = line_end(s, from);
    if end < 0 {
        Frame::Incomplete
    } else {
        let (next, step) = reader.after(classify(s.subrange(from, end)));
        match step {
            ReadStep::Line => {
                proof {
                    lemma_line_end(s, from);
                }
                scan(s, end, next)
            },
            ReadStep::Skip => Frame::Malformed { end: end as usize },
            ReadStep::Body(n) => if end + n <= s.len() {
                Frame::Message { start: end as usize, end: (end + n) as usize }
            } else {
                Frame::Incomplete
            },
        }
    }
}

/// A line end lies behind where the search for it starts, and in the sequence.
pub proof fn lemma_line_end(s: Seq<u8>, from: int)
    ensures
        line_end(s, from) >= 0 ==> 0 <= from < line_end(s, from) <= s.len(),
    decreases s.len() - from,
{
    if 0 <= from < s.len() && s[from] != 10 {
        lemma_line_end(s, from + 1);
    }
}

/// The index after the first line feed from `from` on, if there is one.
fn find_line_end(s: &[u8], from: usize) -> (end: Option<usize>)
    requires
        from <= s@.len(),
    ensures
        match end {
            Some(e) => line_end(s@, from as int) == e && from < e <= s@.len(),
            None => line_end(s@, from as int) < 0,
        },
{
    let mut i = from;
    while i < s.len()
        invariant
            from <= i <= s@.len(),
            line_end(s@, from as int) == line_end(s@, i as int),
        decreases s@.len() - i,
    {
        if s[i] == 10 {
            return Some(i + 1);
        }
        i += 1;
    }
    None
}

/// Says what a buffer of received bytes holds at its start: a frame, a
/// malformed header block, or neither yet.
pub fn split_frame(buffer: &[u8]) -> (f: Frame)
    ensures
        f == scan(buffer@, 0, FrameReader::start()),
{
    let mut reader = FrameReader::new();
    let mut from: usize = 0;
    loop
        invariant
            from <= buffer@.len(),
            scan(buffer@, 0, FrameReader::start()) == scan(buffer@, from as int, reader),
        decreases buffer@.len() - from,
    {
        let end = match find_line_end(buffer, from) {
            Some(end) => end,
            None => { return Frame::Incomplete; },
        };
        match reader.on_line(slice_subrange(buffer, from, end)) {
            ReadStep::Line => {
                from = end;
            },
            ReadStep::Skip => { return Frame::Malformed { end }; },
            ReadStep::Body(n) => {
                if n <= buffer.len() - end {
                    return Frame::Message { start: end, end: end + n };
                } else {
                    return Frame::Incomplete;
                }
            },
        }
    }
}

/// The lower-case letter for an upper-case letter of the ASCII alphabet, and
/// any other byte as it is.
pub open spec fn lower(b: u8) -> u8 {
    if 65 <= b <= 90 {
        (b + 32) as u8
    } else {
        b
    }
}

/// Whether a setting asks for verbose diagnostics: it does if it is `1`, or
/// `true` in letters of any case.
pub open spec fn asks_for_diagnostics(value: Seq<u8>) -> bool {
    ||| value == seq![49u8]
    ||| {
        &&& value.len() == 4
        &&& lower(value[0]) == 116
        &&& lower(value[1]) == 114
        &&& lower(value[2]) == 117
        &&& lower(value[3]) == 101
    }
}

/// Says whether a setting asks for verbose diagnostics.
pub fn debug_logging(value: &[u8]) -> (on: bool)
    ensures
        on == asks_for_diagnostics(value@),
{
    if value.len() == 1 {
        assert(value@ == seq![49u8] <==> value@[0] == 49) by {
            if value@[0] == 49 {
                assert(value@ =~= seq![49u8]);
            }
        }
        value[0] == 49
    } else if value.len() == 4 {
        to_lower(value[0]) == 116 && to_lower(value[1]) == 114 && to_lower(value[2]) == 117
            && to_lower(value[3]) == 101
    } else {
        false
    }
}

fn to_lower(b: u8) -> (l: u8)
    ensures
        l == lower(b),
{
    if 65 <= b && b <= 90 {
        b + 32
    } else {
        b
    }
}

/// What the listener does after a connection: it stops once a session was
/// served, and accepts the next connection if the one before failed.
pub fn after_connection(served: bool) -> (step: AcceptStep)
    ensures
        step == if served {
            AcceptStep::Stop
        } else {
            AcceptStep::Accept
        },
{
    if served {
        AcceptStep::Stop
    } else {
        AcceptStep::Accept
    }
}

impl DapTransportMode {
    /// The name of the mode, for the log.
    pub open spec fn name(self) -> Seq<char> {
        match self {
            DapTransportMode::Stdio => "stdio"@,
            DapTransportMode::Tcp(port) => "TCP on port "@ + decimal(port as nat),
        }
    }

    pub fn describe(&self) -> (s: String)
        ensures
            s@ == self.name(),
    {
        match self {
            DapTransportMode::Stdio => owned("stdio"),
            DapTransportMode::Tcp(port) => {
                let number = decimal_string(*port as usize);
                owned("TCP on port ").concat(number.as_str())
            },
        }
    }
}

/// The digits of a number spell it.
pub proof fn lemma_parse_digits(n: nat)
    ensures
        parse_decimal(digits(n)) == Some(n),
        digits(n).len() > 0,
        forall|i: int| 0 <= i < digits(n).len() ==> 48 <= #[trigger] digits(n)[i] <= 57,
    decreases n,
{
    if n >= 10 {
        lemma_parse_digits(n / 10);
        let d = digits(n);
        assert(d.drop_last() =~= digits(n / 10));
    }
}

/// The length line of a frame is read as the length that it was written for,
/// and the line after it as the blank line.
pub proof fn lemma_classify_length_line(n: nat)
    requires
        n <= usize::MAX,
    ensures
        classify(length_line(n)) == HeaderLine::ContentLength(n as usize),
        classify(seq![13u8, 10u8]) == HeaderLine::Blank,
{
    lemma_parse_digits(n);
    let name = header_name();
    let d = digits(n);
    let s = length_line(n);
    let len = s.len() as int;
    assert(skip_blanks_back(s, 0, len - 2) == len - 2);
    assert(skip_blanks_back(s, 0, len - 1) == len - 2);
    let t = trimmed(s);
    assert(t.subrange(0, 15) =~= name);
    let rest = t.subrange(15, t.len() as int);
    assert(skip_blanks(rest, 1) == 1);
    assert(trimmed(rest) =~= d);

    let blank = seq![13u8, 10u8];
    assert(skip_blanks(blank, 2) == 2);
    assert(skip_blanks(blank, 1) == 2);
}

/// The first line feed of a sequence that has none before `at` and one there
/// is the one at `at`.
proof fn lemma_line_end_at(s: Seq<u8>, from: int, at: int)
    requires
        0 <= from <= at < s.len(),
        s[at] == 10,
        forall|k: int| from <= k < at ==> s[k] != 10,
    ensures
        line_end(s, from) == at + 1,
    decreases at - from,
{
    if from < at {
        lemma_line_end_at(s, from + 1, at);
    }
}

/// What was written for a message is split off the front of a buffer as that
/// message, whatever follows it in the buffer.
pub proof fn lemma_written_frame_is_split(body: Seq<u8>, rest: Seq<u8>)
    requires
        frame(body).len() + rest.len() <= usize::MAX,
    ensures
        scan(frame(body) + rest, 0, FrameReader::start()) == (Frame::Message {
            start: (frame(body).len() - body.len()) as usize,
            end: frame(body).len() as usize,
        }),
        (frame(body) + rest).subrange(
            frame(body).len() - body.len(),
            frame(body).len() as int,
        ) == body,
{
    let n = body.len();
    lemma_parse_digits(n);
    lemma_classify_length_line(n);
    let line = length_line(n);
    let s = frame(body) + rest;
    let l = line.len() as int;
    assert(forall|k: int| 0 <= k < l - 1 ==> s[k] != 10);
    lemma_line_end_at(s, 0, l - 1);
    assert(s.subrange(0, l) =~= line);
    lemma_line_end_at(s, l, l + 1);
    assert(s.subrange(l, l + 2) =~= seq![13u8, 10u8]);
    let after_length = FrameReader::start().after(classify(line)).0;
    assert(scan(s, l, after_length) == (Frame::Message {
        start: (l + 2) as usize,
        end: (l + 2 + n) as usize,
    }));
}

/// A reader at the start of a frame that is given the header lines of a
/// written message asks for a body of the length of that message.
pub proof fn lemma_frame_is_read_back(body: Seq<u8>)
    requires
        body.len() <= usize::MAX,
    ensures
        FrameReader::start().after(classify(length_line(body.len()))).1 == ReadStep::Line,
        FrameReader::start().after(classify(length_line(body.len()))).0.after(
            classify(seq![13u8, 10u8]),
        ) == (FrameReader::start(), ReadStep::Body(body.len() as usize)),
        frame(body) == length_line(body.len()) + seq![13u8, 10u8] + body,
{
    lemma_classify_length_line(body.len());
}

} // verus!
