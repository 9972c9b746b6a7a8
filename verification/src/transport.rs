//! The framed transport for messages that are text: a message is the
//! body of a frame, read as UTF-8. Its error is a message in words,
//! whatever went wrong.

use vstd::prelude::*;
use vstd::std_specs::convert::FromSpecImpl;
use vstd::string::StringSliceAdditionalSpecFns;
use vstd::utf8::{decode_utf8, encode_utf8, encode_utf8_decode_utf8, encode_utf8_valid_utf8, valid_utf8};
use crate::framing::{
    encode_frame, frame, lemma_frame_round_trip, read_frame, read_frame_at, FrameRead,
    OnUndeclared, Reading,
};

verus! {

/// The error of the standard library's input and output, carried as it
/// is.
#[verifier::external_type_specification]
#[verifier::external_body]
pub struct ExIoError(std::io::Error);

/// The error of `serde_json`, carried as it is.
#[verifier::external_type_specification]
#[verifier::external_body]
pub struct ExJsonError(serde_json::Error);

/// What went wrong in the transport, in words.
#[derive(Debug)]
pub struct FramedTransportError(pub String);

/// `std::io::Error` writes itself, through `Display`, as a description of
/// the failure. The text is that of the machine's error, so nothing is
/// stated of it.
#[verifier::external_body]
fn io_error_text(e: &std::io::Error) -> (text: String) {
    e.to_string()
}

/// `std::string::FromUtf8Error` writes itself, through `Display`, as the
/// place and kind of the first fault in the bytes. Nothing is stated of the
/// text.
#[verifier::external_body]
fn utf8_error_text(e: &std::string::FromUtf8Error) -> (text: String) {
    e.to_string()
}

/// `serde_json::Error` writes itself, through `Display`, as what was wrong
/// with the JSON text and, where it knows them, the line and column.
/// Nothing is stated of the text.
#[verifier::external_body]
fn json_error_text(e: &serde_json::Error) -> (text: String) {
    e.to_string()
}

/// What reading one message from a buffer gives, as a mathematical value.
pub enum MessageReading {
    /// A message, and the index just after its frame.
    Message(Seq<char>, int),
    /// The stream ended before a frame, or a frame's headers ended without
    /// a length.
    EndOfStream,
    /// The frame's body is cut short.
    Truncated,
    /// The frame's body is no UTF-8 text.
    NotText,
}

/// What reading one message from `input` at `pos` gives.
pub open spec fn message_at(input: Seq<u8>, pos: int) -> MessageReading {
    match read_frame_at(input, pos, OnUndeclared::EndOfStream) {
        Reading::Frame(body, next) => if valid_utf8(body) {
            MessageReading::Message(decode_utf8(body), next)
        } else {
            MessageReading::NotText
        },
        Reading::EndOfStream => MessageReading::EndOfStream,
        Reading::Truncated => MessageReading::Truncated,
    }
}

/// What an error says when a frame's body is cut short.
pub open spec fn truncated_message() -> Seq<char> {
    "failed to fill whole buffer"@
}

/// Gives the bytes that carry the message `msg`: its frame.
pub fn write_message(msg: &str) -> (out: Vec<u8>)
    ensures
        out@ == frame(msg.spec_bytes()),
{
    encode_frame(msg.as_bytes())
}

/// Reads one message from `input`, starting at `start`: the text and the
/// index just after its frame. `Ok(None)` is the clean end of the stream,
/// which headers without a length count as. A body that is cut short or
/// that is no UTF-8 text is an error.
pub fn read_message(input: &[u8], start: usize) -> (out: Result<
    Option<(String, usize)>,
    FramedTransportError,
>)
    ensures
        match out {
            Ok(Some((text, next))) => message_at(input@, start as int) == MessageReading::Message(
                text@,
                next as int,
            ),
            Ok(None) => message_at(input@, start as int) == MessageReading::EndOfStream,
            Err(e) => match message_at(input@, start as int) {
                MessageReading::Truncated => e.0@ == truncated_message(),
                MessageReading::NotText => true,
                _ => false,
            },
        },
{
    match read_frame(input, start, OnUndeclared::EndOfStream) {
        FrameRead::Frame { body, next } => match String::from_utf8(body) {
            Ok(text) => Ok(Some((text, next))),
            Err(e) => Err(FramedTransportError(utf8_error_text(&e))),
        },
        FrameRead::EndOfStream => Ok(None),
        FrameRead::Truncated => Err(FramedTransportError::new("failed to fill whole buffer")),
    }
}

/// A message that was written reads back as it was: a buffer that holds
/// the frame of the text `msg`, with anything or nothing after it, gives
/// `msg` and the index just after the frame.
pub proof fn lemma_message_round_trip(msg: Seq<char>, rest: Seq<u8>)
    requires
        encode_utf8(msg).len() <= usize::MAX,
    ensures
        message_at(frame(encode_utf8(msg)) + rest, 0) == MessageReading::Message(
            msg,
            frame(encode_utf8(msg)).len() as int,
        ),
{
    lemma_frame_round_trip(encode_utf8(msg), rest, OnUndeclared::EndOfStream);
    encode_utf8_valid_utf8(msg);
    encode_utf8_decode_utf8(msg);
}

impl FramedTransportError {
    /// An error with the message `message`.
    pub fn new(message: &str) -> (error: Self)
        ensures
            error.0@ == message@,
    {
        FramedTransportError(message.to_owned())
    }

    /// The message.
    pub fn message(&self) -> (message: &str)
        ensures
            message@ == self.0@,
    {
        self.0.as_str()
    }
}

impl From<std::io::Error> for FramedTransportError {
    /// The error whose message is what `e` says of itself.
    fn from(e: std::io::Error) -> (error: Self) {
        FramedTransportError(io_error_text(&e))
    }
}

impl FromSpecImpl<std::io::Error> for FramedTransportError {
    open spec fn obeys_from_spec() -> bool {
        false
    }

    open spec fn from_spec(e: std::io::Error) -> Self {
        arbitrary()
    }
}

impl From<serde_json::Error> for FramedTransportError {
    /// The error whose message is what `e` says of itself.
    fn from(e: serde_json::Error) -> (error: Self) {
        FramedTransportError(json_error_text(&e))
    }
}

impl FromSpecImpl<serde_json::Error> for FramedTransportError {
    open spec fn obeys_from_spec() -> bool {
        false
    }

    open spec fn from_spec(e: serde_json::Error) -> Self {
        arbitrary()
    }
}

} // verus!
