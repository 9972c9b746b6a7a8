//! The Content-Length framing codec.
//!
//! A frame is the header line `Content-Length: <n>`, a blank line, and then
//! exactly `n` bytes of body. The codec works on bytes and does no I/O of
//! its own: `encode_frame` gives the bytes to write, `FrameReader` is fed
//! the lines that a stream yields and says what to read next, and
//! `read_frame` runs the reader over a buffer that already holds the bytes.
//!
//! Header lines are taken as bytes. The name of the length field is
//! matched in any mix of ASCII capital and small letters, and its value is
//! freed of the white space around it, which is what Unicode calls white
//! space, in UTF-8.

use vstd::prelude::*;
use crate::decimal::{decimal, parse_length, read_decimal, write_decimal};

verus! {

/// The bytes of `Content-Length: `, as a frame's header line starts.
pub open spec fn header_prefix() -> Seq<u8> {
    seq![67u8, 111, 110, 116, 101, 110, 116, 45, 76, 101, 110, 103, 116, 104, 58, 32]
}

/// The bytes of `content-length:`, the name of the length field in lower
/// case with its colon.
pub open spec fn length_field_name() -> Seq<u8> {
    seq![99u8, 111, 110, 116, 101, 110, 116, 45, 108, 101, 110, 103, 116, 104, 58]
}

/// Carriage return, line feed, twice: the end of the header line and the
/// blank line after it.
pub open spec fn header_end() -> Seq<u8> {
    seq![13u8, 10, 13, 10]
}

/// The header of a frame whose body is `len` bytes long.
pub open spec fn frame_header(len: nat) -> Seq<u8> {
    header_prefix() + decimal(len) + header_end()
}

/// The frame that carries `body`: its header, then the body as it is.
pub open spec fn frame(body: Seq<u8>) -> Seq<u8> {
    frame_header(body.len()) + body
}

/// An ASCII capital letter as its small letter, any other byte unchanged.
pub open spec fn ascii_lower(b: u8) -> u8 {
    if 65 <= b <= 90 {
        (b + 32) as u8
    } else {
        b
    }
}

/// Carriage return or line feed.
pub open spec fn is_line_break(b: u8) -> bool {
    b == 13 || b == 10
}

/// The length in bytes of the white-space character that `s` holds from
/// index `at` up to `end`, or 0 where it holds none there. White space is
/// what Unicode calls so, in UTF-8: the space, the controls from tab to
/// carriage return, U+0085, U+00A0, U+1680, U+2000 to U+200A, U+2028,
/// U+2029, U+202F, U+205F and U+3000.
pub open spec fn space_at(s: Seq<u8>, at: int, end: int) -> int {
    if at < 0 || at >= end || end > s.len() {
        0
    } else if s[at] == 32 || (9 <= s[at] <= 13) {
        1
    } else if at + 1 < end && s[at] == 0xC2 && (s[at + 1] == 0x85 || s[at + 1] == 0xA0) {
        2
    } else if at + 2 < end && is_wide_space(s[at], s[at + 1], s[at + 2]) {
        3
    } else {
        0
    }
}

/// Whether the three bytes are a white-space character of three bytes.
pub open spec fn is_wide_space(first: u8, second: u8, third: u8) -> bool {
    ||| first == 0xE1 && second == 0x9A && third == 0x80
    ||| first == 0xE2 && second == 0x80 && (0x80 <= third <= 0x8A || third == 0xA8 || third
        == 0xA9 || third == 0xAF)
    ||| first == 0xE2 && second == 0x81 && third == 0x9F
    ||| first == 0xE3 && second == 0x80 && third == 0x80
}

/// The length in bytes of the white-space character that ends just before
/// index `end` in `s` and starts at or after `from`, or 0 where there is
/// none.
pub open spec fn space_before(s: Seq<u8>, from: int, end: int) -> int {
    if from <= end - 1 && space_at(s, end - 1, end) == 1 {
        1
    } else if from <= end - 2 && space_at(s, end - 2, end) == 2 {
        2
    } else if from <= end - 3 && space_at(s, end - 3, end) == 3 {
        3
    } else {
        0
    }
}

/// The first index at or after `from` where `s` holds `b`, or the length of
/// `s` where it holds none.
pub open spec fn find_byte(s: Seq<u8>, b: u8, from: int) -> int
    decreases s.len() - from,
{
    if from < 0 || from >= s.len() {
        s.len() as int
    } else if s[from] == b {
        from
    } else {
        find_byte(s, b, from + 1)
    }
}

/// Where the line that starts at `from` ends: just after its line feed, or
/// at the end of `s` where no line feed follows.
pub open spec fn line_end(s: Seq<u8>, from: int) -> int {
    let at = find_byte(s, 10, from);
    if at < s.len() {
        at + 1
    } else {
        s.len() as int
    }
}

/// How much of `line` is left when the line breaks at its end are taken
/// off.
pub open spec fn content_len(line: Seq<u8>) -> int
    decreases line.len(),
{
    if line.len() > 0 && is_line_break(line.last()) {
        content_len(line.drop_last())
    } else {
        line.len() as int
    }
}

/// The line without the carriage returns and line feeds at its end.
pub open spec fn line_content(line: Seq<u8>) -> Seq<u8> {
    line.subrange(0, content_len(line))
}

/// Whether `text` starts with the name of the length field and its colon,
/// in any mix of capital and small letters.
pub open spec fn names_length_field(text: Seq<u8>) -> bool {
    &&& text.len() >= length_field_name().len()
    &&& forall|i: int|
        0 <= i < length_field_name().len() ==> ascii_lower(#[trigger] text[i])
            == length_field_name()[i]
}

/// The first index at or after `from` where no white-space character
/// starts, or `to` where white space is all there is up to there.
pub open spec fn skip_spaces(s: Seq<u8>, from: int, to: int) -> int
    decreases to - from,
{
    if space_at(s, from, to) > 0 {
        skip_spaces(s, from + space_at(s, from, to), to)
    } else if from < to {
        from
    } else {
        to
    }
}

/// The end of `s[from..to]` once the white space at its end is taken off.
pub open spec fn drop_spaces(s: Seq<u8>, from: int, to: int) -> int
    decreases to - from,
{
    if space_before(s, from, to) > 0 {
        drop_spaces(s, from, to - space_before(s, from, to))
    } else if from < to {
        to
    } else {
        from
    }
}

/// The value of the length field in `text`, a header line that names it:
/// what stands between the field's colon and the next colon, or the end of
/// the line, without the white space around it.
pub open spec fn field_value(text: Seq<u8>) -> Seq<u8> {
    let from = length_field_name().len() as int;
    let to = find_byte(text, 58, from);
    let lo = skip_spaces(text, from, to);
    let hi = drop_spaces(text, lo, to);
    text.subrange(lo, hi)
}

/// What one header line says.
#[derive(Clone, Copy, Debug, PartialEq, Eq, Structural)]
pub enum HeaderLine {
    /// Nothing but line breaks: the headers end here.
    Blank,
    /// The length field, with the byte count it declares, or `None` where
    /// its value is no number that fits.
    Length(Option<usize>),
    /// Any other header, which is ignored.
    Other,
}

/// What the header line `line` says.
pub open spec fn classify_line(line: Seq<u8>) -> HeaderLine {
    let text = line_content(line);
    if text.len() == 0 {
        HeaderLine::Blank
    } else if names_length_field(text) {
        HeaderLine::Length(parse_length(field_value(text)))
    } else {
        HeaderLine::Other
    }
}

/// What the caller of a `FrameReader` does next.
#[derive(Clone, Copy, Debug, PartialEq, Eq, Structural)]
pub enum ReadStep {
    /// Read the next header line and feed it.
    Line,
    /// The headers have ended: read exactly this many bytes, the body.
    Body(usize),
    /// The headers have ended and none of them declared a length.
    Undeclared,
    /// The stream closed before a header line arrived.
    Closed,
}

/// What a reader does when a frame's headers end and none of them
/// declared a length.
#[derive(Clone, Copy, Debug, PartialEq, Eq, Structural)]
pub enum OnUndeclared {
    /// Treat it as the end of the stream.
    EndOfStream,
    /// Pass over it and go on with the next header line.
    Skip,
}

/// What the step `step` comes to under `policy`: headers without a length
/// end the stream or are passed over, and every other step stands.
pub open spec fn under(step: ReadStep, policy: OnUndeclared) -> ReadStep {
    match step {
        ReadStep::Undeclared => match policy {
            OnUndeclared::EndOfStream => ReadStep::Closed,
            OnUndeclared::Skip => ReadStep::Line,
        },
        _ => step,
    }
}

/// What feeding `line` does to a reader that holds `declared`: the length
/// it holds afterwards, and the next step. An empty `line` is what a stream
/// yields at its end.
pub open spec fn scan_line(declared: Option<usize>, line: Seq<u8>) -> (Option<usize>, ReadStep) {
    if line.len() == 0 {
        (declared, ReadStep::Closed)
    } else {
        match classify_line(line) {
            HeaderLine::Blank => match declared {
                Some(n) => (None, ReadStep::Body(n)),
                None => (None, ReadStep::Undeclared),
            },
            HeaderLine::Length(n) => (n, ReadStep::Line),
            HeaderLine::Other => (declared, ReadStep::Line),
        }
    }
}

proof fn lemma_find_byte_bounds(s: Seq<u8>, b: u8, from: int)
    requires
        0 <= from <= s.len(),
    ensures
        from <= find_byte(s, b, from) <= s.len(),
        find_byte(s, b, from) < s.len() ==> s[find_byte(s, b, from)] == b,
        forall|i: int| from <= i < find_byte(s, b, from) ==> s[i] != b,
    decreases s.len() - from,
{
    if from < s.len() && s[from] != b {
        lemma_find_byte_bounds(s, b, from + 1);
    }
}

/// The first index at or after `from` where `s` holds `b`, or `s.len()`.
fn find(s: &[u8], b: u8, from: usize) -> (at: usize)
    requires
        from <= s.len(),
    ensures
        at == find_byte(s@, b, from as int),
        from <= at <= s.len(),
{
    let mut i: usize = from;
    while i < s.len() && s[i] != b
        invariant
            from <= i <= s.len(),
            find_byte(s@, b, from as int) == find_byte(s@, b, i as int),
        decreases s.len() - i,
    {
        i += 1;
    }
    i
}

/// An ASCII capital letter as its small letter, any other byte unchanged.
fn lower(b: u8) -> (out: u8)
    ensures
        out == ascii_lower(b),
{
    if 65 <= b && b <= 90 {
        b + 32
    } else {
        b
    }
}

/// The length of the white-space character that starts at `at`, or 0.
fn space_len(s: &[u8], at: usize, end: usize) -> (n: usize)
    requires
        end <= s.len(),
    ensures
        n == space_at(s@, at as int, end as int),
        n <= 3,
        n > 0 ==> at + n <= end,
{
    if at >= end {
        return 0;
    }
    let first = s[at];
    if first == 32 || (9 <= first && first <= 13) {
        return 1;
    }
    if end - at >= 2 && first == 0xC2 && (s[at + 1] == 0x85 || s[at + 1] == 0xA0) {
        return 2;
    }
    if end - at >= 3 {
        let second = s[at + 1];
        let third = s[at + 2];
        if (first == 0xE1 && second == 0x9A && third == 0x80) || (first == 0xE2 && second == 0x80
            && ((0x80 <= third && third <= 0x8A) || third == 0xA8 || third == 0xA9 || third
            == 0xAF)) || (first == 0xE2 && second == 0x81 && third == 0x9F) || (first == 0xE3
            && second == 0x80 && third == 0x80) {
            return 3;
        }
    }
    0
}

/// The length of the white-space character that ends just before `end`
/// and starts at or after `from`, or 0.
fn space_len_before(s: &[u8], from: usize, end: usize) -> (n: usize)
    requires
        from <= end <= s.len(),
    ensures
        n == space_before(s@, from as int, end as int),
        n <= end - from,
{
    if end - from >= 1 && space_len(s, end - 1, end) == 1 {
        1
    } else if end - from >= 2 && space_len(s, end - 2, end) == 2 {
        2
    } else if end - from >= 3 && space_len(s, end - 3, end) == 3 {
        3
    } else {
        0
    }
}

/// Whether `text` starts with the length field's name and colon.
fn starts_with_length_field(text: &[u8]) -> (out: bool)
    ensures
        out == names_length_field(text@),
{
    let name: [u8; 15] = [99, 111, 110, 116, 101, 110, 116, 45, 108, 101, 110, 103, 116, 104, 58];
    assert(name@ =~= length_field_name());
    if text.len() < 15 {
        return false;
    }
    let mut i: usize = 0;
    while i < 15
        invariant
            0 <= i <= 15,
            text.len() >= 15,
            name@ == length_field_name(),
            forall|j: int| 0 <= j < i ==> ascii_lower(#[trigger] text@[j]) == length_field_name()[j],
        decreases 15 - i,
    {
        if lower(text[i]) != name[i] {
            return false;
        }
        i += 1;
    }
    true
}

/// Says what the header line `line` says.
pub fn classify(line: &[u8]) -> (out: HeaderLine)
    ensures
        out == classify_line(line@),
{
    let mut end: usize = line.len();
    assert(line@.subrange(0, end as int) =~= line@);
    while end > 0 && (line[end - 1] == 13 || line[end - 1] == 10)
        invariant
            end <= line.len(),
            content_len(line@) == content_len(line@.subrange(0, end as int)),
        decreases end,
    {
        assert(line@.subrange(0, end as int).drop_last() =~= line@.subrange(0, end - 1));
        end -= 1;
    }
    assert(content_len(line@) == end) by {
        let kept = line@.subrange(0, end as int);
        assert(kept.len() == end);
    }
    if end == 0 {
        return HeaderLine::Blank;
    }
    let text = vstd::slice::slice_subrange(line, 0, end);
    assert(text@ == line_content(line@));
    if !starts_with_length_field(text) {
        return HeaderLine::Other;
    }
    let to = find(text, 58, 15);
    let mut lo: usize = 15;
    while space_len(text, lo, to) > 0
        invariant
            15 <= lo <= to <= text.len(),
            skip_spaces(text@, 15, to as int) == skip_spaces(text@, lo as int, to as int),
        decreases to - lo,
    {
        lo += space_len(text, lo, to);
    }
    assert(skip_spaces(text@, 15, to as int) == lo);
    let mut hi: usize = to;
    while space_len_before(text, lo, hi) > 0
        invariant
            lo <= hi <= to <= text.len(),
            drop_spaces(text@, lo as int, to as int) == drop_spaces(text@, lo as int, hi as int),
        decreases hi - lo,
    {
        hi -= space_len_before(text, lo, hi);
    }
    assert(drop_spaces(text@, lo as int, to as int) == hi);
    let value = vstd::slice::slice_subrange(text, lo, hi);
    assert(value@ == field_value(text@));
    HeaderLine::Length(read_decimal(value))
}

/// Reads the headers of one frame after another, line by line.
///
/// The caller reads a line from its stream, a line feed at its end
/// included, and feeds it to `line`; at the end of the stream it feeds
/// the empty line. The answer says whether to read another line, to read
/// a body of a given length, or that the stream has ended.
pub struct FrameReader {
    declared: Option<usize>,
}

impl FrameReader {
    /// The byte count that the header lines fed so far have declared for
    /// the frame that is being read.
    pub closed spec fn declared(&self) -> Option<usize> {
        self.declared
    }

    /// A reader at the start of a frame: no length declared yet.
    pub fn new() -> (reader: Self)
        ensures
            reader.declared() == None::<usize>,
    {
        FrameReader { declared: None }
    }

    /// Takes in the next line of the stream and says what to do next.
    ///
    /// A later length field replaces an earlier one, also where its value
    /// is no number. When the headers end, the reader is back at the start
    /// of a frame.
    pub fn line(&mut self, line: &[u8]) -> (step: ReadStep)
        ensures
            (final(self).declared(), step) == scan_line(old(self).declared(), line@),
    {
        if line.len() == 0 {
            return ReadStep::Closed;
        }
        match classify(line) {
            HeaderLine::Blank => {
                let declared = self.declared;
                self.declared = None;
                match declared {
                    Some(n) => ReadStep::Body(n),
                    None => ReadStep::Undeclared,
                }
            },
            HeaderLine::Length(n) => {
                self.declared = n;
                ReadStep::Line
            },
            HeaderLine::Other => ReadStep::Line,
        }
    }

    /// Takes in the next line of the stream as `line` does, and decides by
    /// `policy` what headers without a length come to: the answer is to
    /// read a line, to read a body, or that the stream has ended.
    pub fn next(&mut self, line: &[u8], policy: OnUndeclared) -> (step: ReadStep)
        ensures
            final(self).declared() == scan_line(old(self).declared(), line@).0,
            step == under(scan_line(old(self).declared(), line@).1, policy),
            step != ReadStep::Undeclared,
    {
        match self.line(line) {
            ReadStep::Undeclared => match policy {
                OnUndeclared::EndOfStream => ReadStep::Closed,
                OnUndeclared::Skip => ReadStep::Line,
            },
            step => step,
        }
    }
}

/// Gives the frame that carries `body`: `Content-Length: `, the length of
/// `body` in decimal, a blank line, and `body` with nothing after it.
pub fn encode_frame(body: &[u8]) -> (out: Vec<u8>)
    ensures
        out@ == frame(body@),
{
    let prefix: [u8; 16] = [67, 111, 110, 116, 101, 110, 116, 45, 76, 101, 110, 103, 116, 104, 58, 32];
    assert(prefix@ =~= header_prefix());
    let mut out: Vec<u8> = Vec::new();
    let mut i: usize = 0;
    while i < 16
        invariant
            0 <= i <= 16,
            prefix@ == header_prefix(),
            out@ == header_prefix().subrange(0, i as int),
        decreases 16 - i,
    {
        out.push(prefix[i]);
        assert(out@ =~= header_prefix().subrange(0, i + 1));
        i += 1;
    }
    assert(out@ =~= header_prefix());
    let mut digits = write_decimal(body.len() as u64);
    out.append(&mut digits);
    out.push(13);
    out.push(10);
    out.push(13);
    out.push(10);
    assert(out@ =~= frame_header(body@.len()));
    let mut j: usize = 0;
    while j < body.len()
        invariant
            0 <= j <= body.len(),
            out@ == frame_header(body@.len()) + body@.subrange(0, j as int),
        decreases body.len() - j,
    {
        out.push(body[j]);
        assert(out@ =~= frame_header(body@.len()) + body@.subrange(0, j + 1));
        j += 1;
    }
    assert(body@.subrange(0, j as int) =~= body@);
    out
}

/// What reading one frame from a buffer gives, as a mathematical value.
pub enum Reading {
    /// A frame's body, and the index just after it.
    Frame(Seq<u8>, int),
    /// The buffer ended before a header line, or headers ended without a
    /// length under `OnUndeclared::EndOfStream`.
    EndOfStream,
    /// The buffer ended before the declared number of body bytes.
    Truncated,
}

/// What reading one frame from a buffer gives.
#[derive(Debug)]
pub enum FrameRead {
    /// A frame: its body, and the index in the buffer just after it.
    Frame { body: Vec<u8>, next: usize },
    /// No further frame: the stream ended cleanly.
    EndOfStream,
    /// A frame was announced and the buffer ends before its body does.
    Truncated,
}

impl View for FrameRead {
    type V = Reading;

    open spec fn view(&self) -> Reading {
        match self {
            FrameRead::Frame { body, next } => Reading::Frame(body@, *next as int),
            FrameRead::EndOfStream => Reading::EndOfStream,
            FrameRead::Truncated => Reading::Truncated,
        }
    }
}

/// What a reader that holds `declared` reads from `input` at `pos`: it
/// takes header lines until a blank one, then a body of the declared
/// length.
pub open spec fn read_from(
    input: Seq<u8>,
    pos: int,
    declared: Option<usize>,
    policy: OnUndeclared,
) -> Reading
    decreases input.len() - pos,
{
    let end = line_end(input, pos);
    if pos < 0 || pos >= input.len() || end <= pos {
        Reading::EndOfStream
    } else {
        let (held, step) = scan_line(declared, input.subrange(pos, end));
        match step {
            ReadStep::Line => read_from(input, end, held, policy),
            ReadStep::Body(n) => if end + n <= input.len() {
                Reading::Frame(input.subrange(end, end + n), end + n)
            } else {
                Reading::Truncated
            },
            ReadStep::Undeclared => match policy {
                OnUndeclared::Skip => read_from(input, end, held, policy),
                OnUndeclared::EndOfStream => Reading::EndOfStream,
            },
            ReadStep::Closed => Reading::EndOfStream,
        }
    }
}

/// What reading one frame from `input` at `pos` gives.
pub open spec fn read_frame_at(input: Seq<u8>, pos: int, policy: OnUndeclared) -> Reading {
    read_from(input, pos, None, policy)
}

/// Reads one frame from `input`, starting at `start`.
///
/// The buffer stands for all that the stream will ever yield: where it
/// ends before a header line, the stream has ended; where it ends inside a
/// body, the frame is truncated, which is an error and no end of stream.
pub fn read_frame(input: &[u8], start: usize, policy: OnUndeclared) -> (out: FrameRead)
    ensures
        out@ == read_frame_at(input@, start as int, policy),
{
    let mut reader = FrameReader::new();
    let mut pos: usize = start;
    loop
        invariant
            read_frame_at(input@, start as int, policy) == read_from(
                input@,
                pos as int,
                reader.declared(),
                policy,
            ),
        decreases input.len() - pos,
    {
        if pos >= input.len() {
            return FrameRead::EndOfStream;
        }
        let at = find(input, 10, pos);
        let end: usize = if at < input.len() {
            at + 1
        } else {
            input.len()
        };
        let line = vstd::slice::slice_subrange(input, pos, end);
        match reader.line(line) {
            ReadStep::Line => {
                pos = end;
            },
            ReadStep::Body(n) => {
                if n <= input.len() - end {
                    let body = vstd::slice::slice_to_vec(
                        vstd::slice::slice_subrange(input, end, end + n),
                    );
                    return FrameRead::Frame { body, next: end + n };
                } else {
                    return FrameRead::Truncated;
                }
            },
            ReadStep::Undeclared => {
                match policy {
                    OnUndeclared::Skip => {
                        pos = end;
                    },
                    OnUndeclared::EndOfStream => {
                        return FrameRead::EndOfStream;
                    },
                }
            },
            ReadStep::Closed => {
                return FrameRead::EndOfStream;
            },
        }
    }
}

/// A frame that was read ends after the place where reading began.
pub proof fn lemma_read_advances(
    input: Seq<u8>,
    pos: int,
    declared: Option<usize>,
    policy: OnUndeclared,
)
    ensures
        read_from(input, pos, declared, policy) matches Reading::Frame(body, next) ==> pos < next
            <= input.len() && body.len() <= input.len(),
    decreases input.len() - pos,
{
    let end = line_end(input, pos);
    if !(pos < 0 || pos >= input.len() || end <= pos) {
        lemma_find_byte_bounds(input, 10, pos);
        let (held, step) = scan_line(declared, input.subrange(pos, end));
        match step {
            ReadStep::Line => {
                lemma_read_advances(input, end, held, policy);
            },
            ReadStep::Undeclared => {
                lemma_read_advances(input, end, held, policy);
            },
            _ => {},
        }
    }
}

proof fn lemma_find_byte_is(s: Seq<u8>, b: u8, from: int, at: int)
    requires
        0 <= from <= at <= s.len(),
        forall|i: int| from <= i < at ==> s[i] != b,
        at == s.len() || s[at] == b,
    ensures
        find_byte(s, b, from) == at,
    decreases at - from,
{
    if from < at {
        lemma_find_byte_is(s, b, from + 1, at);
    }
}

proof fn lemma_content_len_is(line: Seq<u8>, kept: int)
    requires
        0 <= kept <= line.len(),
        forall|i: int| kept <= i < line.len() ==> is_line_break(line[i]),
        kept == 0 || !is_line_break(line[kept - 1]),
    ensures
        content_len(line) == kept,
    decreases line.len(),
{
    if kept < line.len() {
        let shorter = line.drop_last();
        assert forall|i: int| kept <= i < shorter.len() implies is_line_break(shorter[i]) by {
            assert(shorter[i] == line[i]);
        }
        lemma_content_len_is(shorter, kept);
    }
}

/// The header line that `encode_frame` writes declares the length it was
/// written for.
proof fn lemma_header_line_declares(n: nat)
    requires
        n <= usize::MAX,
    ensures
        classify_line(header_prefix() + decimal(n) + seq![13u8, 10]) == HeaderLine::Length(
            Some(n as usize),
        ),
{
    let d = decimal(n);
    let text = header_prefix() + d;
    let line = header_prefix() + d + seq![13u8, 10];
    let k = d.len() as int;
    crate::decimal::lemma_decimal_digits(n);
    crate::decimal::lemma_decimal_round_trip(n);
    assert(line.len() == 18 + k);
    assert forall|i: int| 0 <= i < k implies crate::decimal::is_digit(#[trigger] line[16 + i]) by {
        assert(line[16 + i] == d[i]);
    }
    assert(crate::decimal::is_digit(line[16 + (k - 1)]));
    assert(line[16 + k] == 13 && line[17 + k] == 10);
    lemma_content_len_is(line, 16 + k);
    assert(line_content(line) =~= text);
    assert(names_length_field(text)) by {
        assert forall|i: int| 0 <= i < 15 implies ascii_lower(#[trigger] text[i])
            == length_field_name()[i] by {
            assert(text[i] == header_prefix()[i]);
        }
    }
    assert forall|i: int| 15 <= i < text.len() implies text[i] != 58 by {
        if i >= 16 {
            assert(text[i] == line[16 + (i - 16)]);
        }
    }
    lemma_find_byte_is(text, 58, 15, 16 + k);
    assert(text[15] == 32);
    assert(crate::decimal::is_digit(text[16])) by {
        assert(text[16] == line[16 + 0int]);
    }
    assert(crate::decimal::is_digit(text[16 + k - 1])) by {
        assert(text[16 + k - 1] == line[16 + (k - 1)]);
    }
    reveal_with_fuel(skip_spaces, 3);
    assert(skip_spaces(text, 15, 16 + k) == 16);
    assert(drop_spaces(text, 16, 16 + k) == 16 + k);
    assert(field_value(text) =~= d);
}

/// Reading gives back what was framed: a buffer that holds the frame of
/// `body`, with anything or nothing after it, reads as `body`, and the
/// reader stops just after the frame. This holds for every body, the empty
/// one and those with line breaks or zero bytes in them included.
pub proof fn lemma_frame_round_trip(body: Seq<u8>, rest: Seq<u8>, policy: OnUndeclared)
    requires
        body.len() <= usize::MAX,
    ensures
        read_frame_at(frame(body) + rest, 0, policy) == Reading::Frame(
            body,
            frame(body).len() as int,
        ),
{
    let n = body.len();
    let d = decimal(n);
    let k = d.len() as int;
    let input = frame(body) + rest;
    let first = header_prefix() + d + seq![13u8, 10];
    crate::decimal::lemma_decimal_digits(n);
    lemma_header_line_declares(n);
    assert(frame(body).len() == 20 + k + n);
    assert forall|i: int| 0 <= i < 18 + k implies input[i] == first[i] by {
        assert(input[i] == frame(body)[i]);
    }
    assert forall|i: int| 0 <= i < 17 + k implies input[i] != 10 by {
        if i >= 16 && i < 16 + k {
            assert(first[i] == d[i - 16]);
            assert(crate::decimal::is_digit(d[i - 16]));
        }
    }
    assert(input[17 + k] == 10);
    lemma_find_byte_is(input, 10, 0, 17 + k);
    assert(line_end(input, 0) == 18 + k);
    assert(input.subrange(0, 18 + k) =~= first);
    assert(scan_line(None, first) == (Some(n as usize), ReadStep::Line));
    let blank = seq![13u8, 10];
    assert(input[18 + k] == 13 && input[19 + k] == 10) by {
        assert(input[18 + k] == frame(body)[18 + k]);
        assert(input[19 + k] == frame(body)[19 + k]);
    }
    lemma_find_byte_is(input, 10, 18 + k, 19 + k);
    assert(line_end(input, 18 + k) == 20 + k);
    assert(input.subrange(18 + k, 20 + k) =~= blank);
    lemma_content_len_is(blank, 0);
    assert(line_content(blank).len() == 0);
    assert(scan_line(Some(n as usize), blank) == (None::<usize>, ReadStep::Body(n as usize)));
    assert(input.subrange(20 + k, 20 + k + n) =~= body);
    assert(read_from(input, 18 + k, Some(n as usize), policy) == Reading::Frame(
        body,
        20 + k + n,
    ));
    assert(read_from(input, 0, None, policy) == read_from(
        input,
        18 + k,
        Some(n as usize),
        policy,
    ));
}

} // verus!
