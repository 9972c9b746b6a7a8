//! The ways in which an operation on a backend fails.

use vstd::prelude::*;
use vstd::string::StringExecFns;
use vstd::utf8::{decode_utf8, valid_utf8};

verus! {

/// Why an operation failed. Each kind can be told from the others, so
/// that a caller never takes a failure for an empty success.
#[derive(Debug, Clone)]
pub enum ClientError {
    /// The backend's program could not be launched.
    SpawnFailed,
    /// The stream to or from the backend is closed, or was never opened.
    TransportClosed,
    /// No response arrived within the timeout.
    RequestTimedOut,
    /// The backend answered with an error, whose JSON text this carries.
    BackendReportedError(Vec<u8>),
    /// A value could not be put into, or read from, its JSON form.
    DecodeFailed,
    /// No configured backend claims the file, whose path this carries.
    NoBackendConfigured(String),
    /// The slot that waits for a response was lost, or every request
    /// identifier has been used up.
    ChannelClosed,
    /// A request was built for a backend that has not been initialized.
    NotInitialized,
    /// The path has no form as a file URI; this carries the text that was
    /// refused.
    InvalidUri(String),
    /// The file could not be read; this carries what the system said.
    FileUnreadable(String),
}

/// An error as a mathematical value.
pub enum ErrorView {
    SpawnFailed,
    TransportClosed,
    RequestTimedOut,
    BackendReportedError(Seq<u8>),
    DecodeFailed,
    NoBackendConfigured(Seq<char>),
    ChannelClosed,
    NotInitialized,
    InvalidUri(Seq<char>),
    FileUnreadable(Seq<char>),
}

impl View for ClientError {
    type V = ErrorView;

    open spec fn view(&self) -> ErrorView {
        match self {
            ClientError::SpawnFailed => ErrorView::SpawnFailed,
            ClientError::TransportClosed => ErrorView::TransportClosed,
            ClientError::RequestTimedOut => ErrorView::RequestTimedOut,
            ClientError::BackendReportedError(payload) => ErrorView::BackendReportedError(
                payload@,
            ),
            ClientError::DecodeFailed => ErrorView::DecodeFailed,
            ClientError::NoBackendConfigured(path) => ErrorView::NoBackendConfigured(path@),
            ClientError::ChannelClosed => ErrorView::ChannelClosed,
            ClientError::NotInitialized => ErrorView::NotInitialized,
            ClientError::InvalidUri(text) => ErrorView::InvalidUri(text@),
            ClientError::FileUnreadable(text) => ErrorView::FileUnreadable(text@),
        }
    }
}

impl ErrorView {
    /// The error in words. A backend's error is followed by its payload,
    /// where that is text.
    pub open spec fn message(self) -> Seq<char> {
        match self {
            ErrorView::SpawnFailed => "Failed to spawn LSP process"@,
            ErrorView::TransportClosed => "LSP not running"@,
            ErrorView::RequestTimedOut => "LSP request timed out"@,
            ErrorView::BackendReportedError(payload) => if valid_utf8(payload) {
                "LSP server reported an error: "@ + decode_utf8(payload)
            } else {
                "LSP server reported an error"@
            },
            ErrorView::DecodeFailed => "Malformed LSP message"@,
            ErrorView::NoBackendConfigured(path) => "No LSP configured for: "@ + path,
            ErrorView::ChannelClosed => "LSP response channel closed"@,
            ErrorView::NotInitialized => "LSP not initialized"@,
            ErrorView::InvalidUri(text) => "Invalid URI: "@ + text,
            ErrorView::FileUnreadable(text) => text,
        }
    }
}

impl ClientError {
    /// Says the error in words.
    pub fn message(&self) -> (out: String)
        ensures
            out@ == self@.message(),
    {
        match self {
            ClientError::SpawnFailed => "Failed to spawn LSP process".to_owned(),
            ClientError::TransportClosed => "LSP not running".to_owned(),
            ClientError::RequestTimedOut => "LSP request timed out".to_owned(),
            ClientError::BackendReportedError(payload) => {
                let copy = vstd::slice::slice_to_vec(payload.as_slice());
                match String::from_utf8(copy) {
                    Ok(text) => {
                        let mut out = "LSP server reported an error: ".to_owned();
                        out.append(text.as_str());
                        out
                    },
                    Err(_) => "LSP server reported an error".to_owned(),
                }
            },
            ClientError::DecodeFailed => "Malformed LSP message".to_owned(),
            ClientError::NoBackendConfigured(path) => {
                let mut out = "No LSP configured for: ".to_owned();
                out.append(path.as_str());
                out
            },
            ClientError::ChannelClosed => "LSP response channel closed".to_owned(),
            ClientError::NotInitialized => "LSP not initialized".to_owned(),
            ClientError::InvalidUri(text) => {
                let mut out = "Invalid URI: ".to_owned();
                out.append(text.as_str());
                out
            },
            ClientError::FileUnreadable(text) => text.clone(),
        }
    }
}

} // verus!
