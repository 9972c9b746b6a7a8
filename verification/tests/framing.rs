use lsp_mcp_rs::framing::{
    classify, encode_frame, read_frame, FrameRead, FrameReader, HeaderLine, OnUndeclared, ReadStep,
};

fn frame_of(input: &[u8], start: usize, policy: OnUndeclared) -> (Vec<u8>, usize) {
    match read_frame(input, start, policy) {
        FrameRead::Frame { body, next } => (body, next),
        other => panic!("no frame: {:?}", other),
    }
}

#[test]
fn encode_writes_header_blank_line_and_body() {
    assert_eq!(encode_frame(b"{}"), b"Content-Length: 2\r\n\r\n{}".to_vec());
    assert_eq!(encode_frame(b""), b"Content-Length: 0\r\n\r\n".to_vec());
    let body = vec![b'x'; 1234];
    let framed = encode_frame(&body);
    assert!(framed.starts_with(b"Content-Length: 1234\r\n\r\n"));
    assert_eq!(framed.len(), 24 + 1234);
}

#[test]
fn round_trip_of_plain_body() {
    let body = b"{\"jsonrpc\":\"2.0\",\"id\":1}".to_vec();
    let framed = encode_frame(&body);
    let (read, next) = frame_of(&framed, 0, OnUndeclared::EndOfStream);
    assert_eq!(read, body);
    assert_eq!(next, framed.len());
}

#[test]
fn round_trip_of_empty_body() {
    let framed = encode_frame(b"");
    let (read, next) = frame_of(&framed, 0, OnUndeclared::Skip);
    assert_eq!(read, Vec::<u8>::new());
    assert_eq!(next, framed.len());
}

#[test]
fn round_trip_of_body_with_zero_bytes_and_line_breaks() {
    let body = b"\0\r\n\r\nContent-Length: 5\r\n\r\n\0\n".to_vec();
    let framed = encode_frame(&body);
    let (read, next) = frame_of(&framed, 0, OnUndeclared::EndOfStream);
    assert_eq!(read, body);
    assert_eq!(next, framed.len());
}

#[test]
fn round_trip_of_every_byte_value() {
    let body: Vec<u8> = (0..=255u8).collect();
    let framed = encode_frame(&body);
    let (read, _) = frame_of(&framed, 0, OnUndeclared::Skip);
    assert_eq!(read, body);
}

#[test]
fn two_frames_in_a_row_are_read_one_after_the_other() {
    let mut stream = encode_frame(b"first");
    stream.extend(encode_frame(b"second!"));
    let (one, next) = frame_of(&stream, 0, OnUndeclared::EndOfStream);
    assert_eq!(one, b"first".to_vec());
    let (two, end) = frame_of(&stream, next, OnUndeclared::EndOfStream);
    assert_eq!(two, b"second!".to_vec());
    assert_eq!(end, stream.len());
    assert!(matches!(read_frame(&stream, end, OnUndeclared::EndOfStream), FrameRead::EndOfStream));
}

#[test]
fn empty_stream_is_end_of_stream() {
    assert!(matches!(read_frame(b"", 0, OnUndeclared::EndOfStream), FrameRead::EndOfStream));
    assert!(matches!(read_frame(b"abc", 7, OnUndeclared::Skip), FrameRead::EndOfStream));
}

#[test]
fn stream_that_closes_inside_headers_is_end_of_stream() {
    assert!(matches!(
        read_frame(b"Content-Length: 4\r\n", 0, OnUndeclared::EndOfStream),
        FrameRead::EndOfStream
    ));
}

#[test]
fn short_body_is_an_error_and_no_end_of_stream() {
    assert!(matches!(
        read_frame(b"Content-Length: 10\r\n\r\nabc", 0, OnUndeclared::EndOfStream),
        FrameRead::Truncated
    ));
}

#[test]
fn header_name_is_matched_in_any_case() {
    let (body, _) = frame_of(b"CONTENT-length:3\n\nabcdef", 0, OnUndeclared::EndOfStream);
    assert_eq!(body, b"abc".to_vec());
}

#[test]
fn other_headers_are_ignored() {
    let input = b"Content-Type: application/json\r\nContent-Length: 2\r\nX-Other: 1\r\n\r\nok";
    let (body, next) = frame_of(input, 0, OnUndeclared::EndOfStream);
    assert_eq!(body, b"ok".to_vec());
    assert_eq!(next, input.len());
}

#[test]
fn headers_without_length_end_the_stream_or_are_skipped() {
    let input = b"X-Other: 1\r\n\r\nContent-Length: 2\r\n\r\nok";
    assert!(matches!(read_frame(input, 0, OnUndeclared::EndOfStream), FrameRead::EndOfStream));
    let (body, next) = frame_of(input, 0, OnUndeclared::Skip);
    assert_eq!(body, b"ok".to_vec());
    assert_eq!(next, input.len());
}

#[test]
fn classify_reads_the_length_field() {
    assert_eq!(classify(b"\r\n"), HeaderLine::Blank);
    assert_eq!(classify(b"\n"), HeaderLine::Blank);
    assert_eq!(classify(b"Content-Length: 42\r\n"), HeaderLine::Length(Some(42)));
    assert_eq!(classify(b"content-length:\t+7  \r\n"), HeaderLine::Length(Some(7)));
    assert_eq!(classify(b"Content-Length: 12:34\r\n"), HeaderLine::Length(Some(12)));
    assert_eq!(classify(b"Content-Length: twelve\r\n"), HeaderLine::Length(None));
    assert_eq!(classify(b"Content-Length: -1\r\n"), HeaderLine::Length(None));
    assert_eq!(classify(b"Content-Length:\r\n"), HeaderLine::Length(None));
    assert_eq!(
        classify(b"Content-Length: 99999999999999999999999999\r\n"),
        HeaderLine::Length(None)
    );
    assert_eq!(classify(b"Content-Type: text\r\n"), HeaderLine::Other);
    assert_eq!(classify(b"Content-Length"), HeaderLine::Other);
}

#[test]
fn reader_walks_through_a_frame() {
    let mut reader = FrameReader::new();
    assert_eq!(reader.line(b"Content-Length: 5\r\n"), ReadStep::Line);
    assert_eq!(reader.line(b"X-Other: 1\r\n"), ReadStep::Line);
    assert_eq!(reader.line(b"\r\n"), ReadStep::Body(5));
    assert_eq!(reader.line(b"\r\n"), ReadStep::Undeclared);
    assert_eq!(reader.line(b""), ReadStep::Closed);
}

#[test]
fn later_length_field_replaces_earlier_one() {
    let mut reader = FrameReader::new();
    assert_eq!(reader.line(b"Content-Length: 5\r\n"), ReadStep::Line);
    assert_eq!(reader.line(b"Content-Length: 8\r\n"), ReadStep::Line);
    assert_eq!(reader.line(b"\r\n"), ReadStep::Body(8));
    assert_eq!(reader.line(b"Content-Length: 5\r\n"), ReadStep::Line);
    assert_eq!(reader.line(b"Content-Length: x\r\n"), ReadStep::Line);
    assert_eq!(reader.line(b"\r\n"), ReadStep::Undeclared);
}

#[test]
fn reader_decides_headers_without_length_by_the_policy() {
    let mut reader = FrameReader::new();
    assert_eq!(reader.next(b"X-Other: 1\r\n", OnUndeclared::Skip), ReadStep::Line);
    assert_eq!(reader.next(b"\r\n", OnUndeclared::Skip), ReadStep::Line);
    assert_eq!(reader.next(b"\r\n", OnUndeclared::EndOfStream), ReadStep::Closed);
    assert_eq!(reader.next(b"Content-Length: 3\r\n", OnUndeclared::EndOfStream), ReadStep::Line);
    assert_eq!(reader.next(b"\r\n", OnUndeclared::EndOfStream), ReadStep::Body(3));
    assert_eq!(reader.next(b"", OnUndeclared::Skip), ReadStep::Closed);
}

#[test]
fn white_space_of_any_script_is_trimmed_from_the_length() {
    let spaces = [
        '\u{9}', '\u{a}', '\u{b}', '\u{c}', '\u{d}', ' ', '\u{85}', '\u{a0}', '\u{1680}', '\u{2000}',
        '\u{2005}', '\u{200a}', '\u{2028}', '\u{2029}', '\u{202f}', '\u{205f}', '\u{3000}',
    ];
    for space in spaces {
        assert!(space.is_whitespace());
        let line = format!("Content-Length:{0}{0}12{0}x", space);
        let value = line["Content-Length:".len()..line.len() - 1].to_string();
        assert_eq!(value.trim().parse::<usize>().ok(), Some(12));
        let line = format!("Content-Length:{0}{0}12{0}\r\n", space);
        assert_eq!(classify(line.as_bytes()), HeaderLine::Length(Some(12)), "{:?}", space);
    }
}

#[test]
fn characters_that_are_no_white_space_are_not_trimmed() {
    for other in ['\u{200b}', '\u{feff}', '\u{e9}', '\u{2060}', '\u{180e}', '\u{0}'] {
        assert!(!other.is_whitespace());
        let line = format!("Content-Length: {0}12\r\n", other);
        assert_eq!(classify(line.as_bytes()), HeaderLine::Length(None), "{:?}", other);
        let line = format!("Content-Length: 12{0}\r\n", other);
        assert_eq!(classify(line.as_bytes()), HeaderLine::Length(None), "{:?}", other);
    }
}

#[test]
fn every_white_space_character_is_known() {
    for code in 0..0x11_0000u32 {
        let Some(c) = char::from_u32(code) else { continue };
        if c == ':' {
            continue;
        }
        let line = format!("Content-Length:{}7{}", c, c);
        let expected = if c.is_whitespace() || c == '+' {
            HeaderLine::Length(Some(7))
        } else {
            HeaderLine::Length(None)
        };
        if c == '+' || c == '\n' || c == '\r' || c.is_ascii_digit() {
            continue;
        }
        assert_eq!(classify(line.as_bytes()), expected, "{:?}", c);
    }
}
