use lsp_mcp_rs::error::ClientError;
use lsp_mcp_rs::transport::{read_message, write_message, FramedTransportError};

#[test]
fn transport_error_carries_its_message() {
    let error = FramedTransportError::new("stream closed");
    assert_eq!(error.message(), "stream closed");
    assert_eq!(error.0, "stream closed");
}

#[test]
fn io_error_becomes_transport_error_with_its_text() {
    let io = std::io::Error::new(std::io::ErrorKind::UnexpectedEof, "early end");
    let expected = io.to_string();
    let error = FramedTransportError::from(io);
    assert_eq!(error.message(), expected);
    assert_eq!(error.message(), "early end");
}

#[test]
fn json_error_becomes_transport_error_with_its_text() {
    let json = serde_json::from_str::<serde_json::Value>("{\"a\":").unwrap_err();
    let expected = json.to_string();
    let error: FramedTransportError = json.into();
    assert_eq!(error.message(), expected);
    assert!(error.message().contains("line 1"));
}

#[test]
fn every_error_has_its_own_words() {
    let all = vec![
        ClientError::SpawnFailed,
        ClientError::TransportClosed,
        ClientError::RequestTimedOut,
        ClientError::BackendReportedError(b"{}".to_vec()),
        ClientError::DecodeFailed,
        ClientError::NoBackendConfigured("/p/file.unknownext".to_string()),
        ClientError::ChannelClosed,
        ClientError::NotInitialized,
        ClientError::InvalidUri("file://<".to_string()),
        ClientError::FileUnreadable("No such file or directory (os error 2)".to_string()),
    ];
    let words: Vec<String> = all.iter().map(|e| e.message()).collect();
    assert_eq!(words[0], "Failed to spawn LSP process");
    assert_eq!(words[1], "LSP not running");
    assert_eq!(words[2], "LSP request timed out");
    assert_eq!(words[3], "LSP server reported an error: {}");
    assert_eq!(
        ClientError::BackendReportedError(vec![0xff, 0x00]).message(),
        "LSP server reported an error"
    );
    assert_eq!(words[4], "Malformed LSP message");
    assert_eq!(words[5], "No LSP configured for: /p/file.unknownext");
    assert_eq!(words[6], "LSP response channel closed");
    assert_eq!(words[7], "LSP not initialized");
    assert_eq!(words[8], "Invalid URI: file://<");
    assert_eq!(words[9], "No such file or directory (os error 2)");
    let distinct: std::collections::HashSet<&String> = words.iter().collect();
    assert_eq!(distinct.len(), words.len());
}

#[test]
fn message_is_written_in_a_frame_and_read_back() {
    let written = write_message("{\"jsonrpc\":\"2.0\"}");
    assert_eq!(written, b"Content-Length: 17\r\n\r\n{\"jsonrpc\":\"2.0\"}".to_vec());
    let (text, next) = read_message(&written, 0).unwrap().unwrap();
    assert_eq!(text, "{\"jsonrpc\":\"2.0\"}");
    assert_eq!(next, written.len());
    assert!(read_message(&written, next).unwrap().is_none());
}

#[test]
fn message_length_counts_bytes_and_not_characters() {
    let written = write_message("héllo ✓");
    assert!(written.starts_with(b"Content-Length: 10\r\n\r\n"));
    let (text, _) = read_message(&written, 0).unwrap().unwrap();
    assert_eq!(text, "héllo ✓");
}

#[test]
fn headers_without_length_end_the_message_stream() {
    assert!(read_message(b"X-Other: 1\r\n\r\nContent-Length: 2\r\n\r\nok", 0).unwrap().is_none());
    assert!(read_message(b"", 0).unwrap().is_none());
}

#[test]
fn short_body_and_bytes_that_are_no_text_are_errors() {
    let short = read_message(b"Content-Length: 5\r\n\r\nab", 0).unwrap_err();
    assert_eq!(short.message(), "failed to fill whole buffer");
    let mut stream = b"Content-Length: 2\r\n\r\n".to_vec();
    stream.extend([0xc3, 0x28]);
    let no_text = read_message(&stream, 0).unwrap_err();
    assert!(no_text.message().contains("utf-8"));
}
