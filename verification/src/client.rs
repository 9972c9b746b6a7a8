//! The protocol client of one backend, without its I/O.
//!
//! A client keeps what has to be known about one backend process: whether
//! it runs, whether the handshake is done, which root it was told, and
//! which requests are in flight. It decides and builds; its owner performs.
//! The owner launches the process and reports it with `start`, writes the
//! frames that the methods hand out, feeds the frames that it reads to
//! `on_frame`, and ends each request with `finish_request`.
//!
//! The type `S` is the completion slot that the owner keeps for a request,
//! through which the response reaches the caller that waits for it.

use vstd::prelude::*;
use vstd::string::StringSliceAdditionalSpecFns;
use crate::config::{default_timeout, default_timeout_ms, ServerConfig};
use crate::correlation::{CorrelationTable, TableState};
use crate::error::{ClientError, ErrorView};
use crate::framing::{
    frame, lemma_read_advances, read_frame, read_frame_at, FrameRead, OnUndeclared,
};
use crate::language::{language_id_for_path, language_of_path};
use crate::protocol::{
    decoded, encode_message, notification_json, payload_view, request_json, JsonRpcNotification,
    JsonRpcRequest, JsonRpcResponse, ResponseView,
};
use crate::requests::{
    capabilities, declared_capabilities, definition_params, definition_params_json, did_open_params, did_open_params_json,
    document_symbol_params, document_symbol_params_json, hover_params, hover_params_json,
    initialize_params, initialize_params_json, references_params, references_params_json,
};
use crate::roots::{is_root_for, root_for};
use crate::uri::{fits_uri, path_to_uri, uri_fits, uri_of};

verus! {

/// Where a client stands in its life.
#[derive(Clone, Copy, Debug, PartialEq, Eq, Structural)]
pub enum Lifecycle {
    /// No process has been launched yet.
    Unstarted,
    /// The process runs and its streams are open.
    Running,
    /// The process was shut down or its stream has closed. A terminated
    /// client is not used again.
    Terminated,
}

/// A client as a mathematical value.
pub struct ClientState<S> {
    pub name: Seq<char>,
    pub lifecycle: Lifecycle,
    /// Whether the handshake has been completed.
    pub initialized: bool,
    /// The root that the backend was told, once one was.
    pub root_uri: Option<Seq<char>>,
    /// The requests in flight.
    pub table: TableState<S>,
    /// How long a request waits for its response, in milliseconds.
    pub timeout_ms: u64,
}

/// A request that is ready to go out, as a mathematical value.
pub struct OutgoingView {
    pub id: i64,
    pub frame: Seq<u8>,
    pub timeout_ms: u64,
}

/// A request that is ready to go out: the owner writes `frame` to the
/// backend and waits for the response to `id` for at most `timeout_ms`
/// milliseconds.
#[derive(Debug)]
pub struct Outgoing {
    pub id: i64,
    pub frame: Vec<u8>,
    pub timeout_ms: u64,
}

impl View for Outgoing {
    type V = OutgoingView;

    open spec fn view(&self) -> OutgoingView {
        OutgoingView { id: self.id, frame: self.frame@, timeout_ms: self.timeout_ms }
    }
}

/// A step of an operation that reads from a file.
#[derive(Clone, Copy, Debug, PartialEq, Eq, Structural)]
pub enum OperationStep {
    /// Make the handshake: find the root, send `initialize`, and
    /// acknowledge the response.
    Handshake,
    /// Announce the file as open.
    Announce,
    /// Send the request of the operation.
    Request,
}

/// How the wait for a response ended.
#[derive(Debug)]
pub enum Completion {
    /// The response arrived.
    Response(JsonRpcResponse),
    /// The timeout passed and no response had arrived.
    TimedOut,
    /// The slot was dropped before a response was put into it.
    SlotDropped,
    /// The request could not be written to the backend.
    WriteFailed,
}

/// What a request that ended with `completion` gives its caller.
pub open spec fn completion_result(completion: Completion) -> Result<ResponseView, ErrorView> {
    match completion {
        Completion::Response(response) => Ok(response@),
        Completion::TimedOut => Err(ErrorView::RequestTimedOut),
        Completion::SlotDropped => Err(ErrorView::ChannelClosed),
        Completion::WriteFailed => Err(ErrorView::TransportClosed),
    }
}

impl<S> ClientState<S> {
    /// A client's own invariant: that of its table.
    pub open spec fn wf(self) -> bool {
        self.table.wf()
    }

    /// This client with `table` in place of its table.
    pub open spec fn with_table(self, table: TableState<S>) -> Self {
        ClientState { table, ..self }
    }

    /// What the report of a launch does: a launch that failed is
    /// `SpawnFailed`, a terminated client is not started again, and
    /// otherwise the client runs from now on, with the timeout given. On
    /// failure nothing changes.
    pub open spec fn start(self, timeout_ms: u64, spawned: bool) -> (Self, Result<(), ErrorView>) {
        if !spawned {
            (self, Err(ErrorView::SpawnFailed))
        } else if self.lifecycle == Lifecycle::Terminated {
            (self, Err(ErrorView::TransportClosed))
        } else {
            (ClientState { lifecycle: Lifecycle::Running, timeout_ms, ..self }, Ok(()))
        }
    }

    /// What sending a request does: on a client that does not run, or
    /// whose identifiers are used up, it fails and changes nothing;
    /// otherwise the request is registered under the next identifier and
    /// goes out in a frame.
    pub open spec fn send_request(self, method: Seq<char>, params: Option<Seq<u8>>, slot: S) -> (
        Self,
        Result<OutgoingView, ErrorView>,
    ) {
        if self.lifecycle != Lifecycle::Running {
            (self, Err(ErrorView::TransportClosed))
        } else if self.table.exhausted() {
            (self, Err(ErrorView::ChannelClosed))
        } else {
            (
                self.with_table(self.table.allocate(slot).0),
                Ok(
                    OutgoingView {
                        id: self.table.next_id as i64,
                        frame: frame(request_json(self.table.next_id as i64, method, params)),
                        timeout_ms: self.timeout_ms,
                    },
                ),
            )
        }
    }

    /// The frame of a notification, which goes out only while the client
    /// runs.
    pub open spec fn send_notification(self, method: Seq<char>, params: Option<Seq<u8>>) -> Option<
        Seq<u8>,
    > {
        if self.lifecycle == Lifecycle::Running {
            Some(frame(notification_json(method, params)))
        } else {
            None
        }
    }

    /// What a frame body does when it arrives: the client afterwards, and
    /// the slot with the response that goes into it, where the body
    /// decodes to a response that answers a request in flight.
    pub open spec fn on_frame(self, body: Seq<u8>) -> (Self, Seq<(S, ResponseView)>) {
        match decoded(body) {
            Some(response) => (
                self.on_response(response).0,
                match self.on_response(response).1 {
                    Some(slot) => seq![(slot, response)],
                    None => Seq::empty(),
                },
            ),
            None => (self, Seq::empty()),
        }
    }

    /// What reading the stream `input` from `pos` on does: frame after
    /// frame is taken in, until the stream ends or a frame is cut short.
    /// Headers that declare no length are passed over, and so is every
    /// body that answers nothing. The result is the client afterwards and,
    /// in their order, the slots with the responses that go into them.
    pub open spec fn read_responses(self, input: Seq<u8>, pos: int) -> (
        Self,
        Seq<(S, ResponseView)>,
    )
        decreases input.len() - pos,
    {
        let reading = read_frame_at(input, pos, OnUndeclared::Skip);
        if reading is Frame && 0 <= pos < reading->1 <= input.len() {
            let after = self.on_frame(reading->0).0;
            (
                after.read_responses(input, reading->1).0,
                self.on_frame(reading->0).1 + after.read_responses(input, reading->1).1,
            )
        } else {
            (self, Seq::empty())
        }
    }

    /// What starting the handshake does. The root path is put into the
    /// form of a URI; a path that has none fails and changes nothing. The
    /// first root that a client is given stays its root: a later attempt
    /// tells the backend the same one. The request `initialize` then goes
    /// out with it; a root whose parameters have no JSON form, or whose
    /// URI is too long to be one, is `DecodeFailed`.
    pub open spec fn initialize(
        self,
        root_path: Seq<char>,
        cwd: Seq<char>,
        process_id: u32,
        slot: S,
    ) -> (Self, Result<OutgoingView, ErrorView>) {
        match uri_of(root_path, cwd) {
            Err(e) => (self, Err(e)),
            Ok(uri) => {
                let told = match self.root_uri {
                    Some(first) => first,
                    None => uri,
                };
                let noted = ClientState { root_uri: Some(told), ..self };
                let params = if uri_fits(told) {
                    initialize_params_json(process_id, told, declared_capabilities())
                } else {
                    None
                };
                match params {
                    None => (noted, Err(ErrorView::DecodeFailed)),
                    Some(params) => noted.send_request("initialize"@, Some(params), slot),
                }
            },
        }
    }

    /// What the response to `initialize` comes to. An error in it fails
    /// the handshake, as does a client that runs no longer. Otherwise the
    /// notification `initialized` is to go out to acknowledge.
    pub open spec fn finish_initialize(self, response: ResponseView) -> Result<Seq<u8>, ErrorView> {
        match response.error {
            Some(error) => Err(ErrorView::BackendReportedError(error)),
            None => match self.send_notification("initialized"@, Some("{}".spec_bytes())) {
                Some(acknowledgment) => Ok(acknowledgment),
                None => Err(ErrorView::TransportClosed),
            },
        }
    }

    /// The client after the acknowledgment has been sent: initialized,
    /// where it still runs.
    pub open spec fn acknowledged(self) -> Self {
        if self.lifecycle == Lifecycle::Running {
            ClientState { initialized: true, ..self }
        } else {
            self
        }
    }

    /// What comes next in an operation that reads from a file: the
    /// handshake on a client that is not initialized, then the
    /// announcement of the file, which every operation makes anew, then
    /// the request itself.
    pub open spec fn next_step(self, announced: bool) -> OperationStep {
        if !self.initialized {
            OperationStep::Handshake
        } else if !announced {
            OperationStep::Announce
        } else {
            OperationStep::Request
        }
    }

    /// The client after its stream has closed: terminated where it ran,
    /// with no request in flight any longer.
    pub open spec fn on_stream_closed(self) -> Self {
        if self.lifecycle == Lifecycle::Running {
            ClientState {
                lifecycle: Lifecycle::Terminated,
                table: TableState { next_id: self.table.next_id, pending: Map::empty() },
                ..self
            }
        } else {
            self
        }
    }

    /// The frame that announces a file as open: the notification
    /// `textDocument/didOpen` with the file's URI, its language, the
    /// version 1 and its whole text. `Ok(None)` on a client that does not
    /// run, which sends nothing.
    pub open spec fn open_file(self, path: Seq<char>, cwd: Seq<char>, content: Seq<char>) -> Result<
        Option<Seq<u8>>,
        ErrorView,
    > {
        if !self.initialized {
            Err(ErrorView::NotInitialized)
        } else {
            match uri_of(path, cwd) {
                Err(e) => Err(e),
                Ok(uri) => match did_open_params_json(uri, language_of_path(path), 1, content) {
                    None => Err(ErrorView::DecodeFailed),
                    Some(params) => Ok(
                        self.send_notification("textDocument/didOpen"@, Some(params)),
                    ),
                },
            }
        }
    }

    /// What asking the backend about a document does. The client must be
    /// initialized, the document must have a URI, and the parameters must
    /// have a JSON form; then the request goes out as any request does.
    /// Where one of these fails, nothing changes.
    pub open spec fn operation(
        self,
        method: Seq<char>,
        uri: Result<Seq<char>, ErrorView>,
        params: spec_fn(Seq<char>) -> Option<Seq<u8>>,
        slot: S,
    ) -> (Self, Result<OutgoingView, ErrorView>) {
        if !self.initialized {
            (self, Err(ErrorView::NotInitialized))
        } else {
            match uri {
                Err(e) => (self, Err(e)),
                Ok(text) => match params(text) {
                    None => (self, Err(ErrorView::DecodeFailed)),
                    Some(json) => self.send_request(method, Some(json), slot),
                },
            }
        }
    }

    /// What asking about a position does: the request
    /// `textDocument/hover`.
    pub open spec fn hover(
        self,
        path: Seq<char>,
        cwd: Seq<char>,
        line: u32,
        character: u32,
        slot: S,
    ) -> (Self, Result<OutgoingView, ErrorView>) {
        self.operation(
            "textDocument/hover"@,
            uri_of(path, cwd),
            |uri: Seq<char>| hover_params_json(uri, line, character),
            slot,
        )
    }

    /// What asking for a definition does: the request
    /// `textDocument/definition`.
    pub open spec fn definition(
        self,
        path: Seq<char>,
        cwd: Seq<char>,
        line: u32,
        character: u32,
        slot: S,
    ) -> (Self, Result<OutgoingView, ErrorView>) {
        self.operation(
            "textDocument/definition"@,
            uri_of(path, cwd),
            |uri: Seq<char>| definition_params_json(uri, line, character),
            slot,
        )
    }

    /// What asking for references does: the request
    /// `textDocument/references`, which asks for the declaration too.
    pub open spec fn references(
        self,
        path: Seq<char>,
        cwd: Seq<char>,
        line: u32,
        character: u32,
        slot: S,
    ) -> (Self, Result<OutgoingView, ErrorView>) {
        self.operation(
            "textDocument/references"@,
            uri_of(path, cwd),
            |uri: Seq<char>| references_params_json(uri, line, character, true),
            slot,
        )
    }

    /// What asking for the symbols of a document does: the request
    /// `textDocument/documentSymbol`.
    pub open spec fn document_symbols(self, path: Seq<char>, cwd: Seq<char>, slot: S) -> (
        Self,
        Result<OutgoingView, ErrorView>,
    ) {
        self.operation(
            "textDocument/documentSymbol"@,
            uri_of(path, cwd),
            |uri: Seq<char>| document_symbol_params_json(uri),
            slot,
        )
    }

    /// The client after a shutdown: terminated where it ran, and not
    /// initialized. The request `shutdown` has been registered where it
    /// could be.
    pub open spec fn shutdown(self, slot: S) -> Self {
        ClientState {
            initialized: false,
            lifecycle: if self.lifecycle == Lifecycle::Running {
                Lifecycle::Terminated
            } else {
                self.lifecycle
            },
            ..self.send_request("shutdown"@, None, slot).0
        }
    }

    /// What the end of the wait for the request `id` does: the request is
    /// in the table no longer, and the caller gets what `completion`
    /// stands for.
    pub open spec fn finish_request(self, id: i64, completion: Completion) -> (
        Self,
        Result<ResponseView, ErrorView>,
    ) {
        (self.with_table(self.table.take(id).0), completion_result(completion))
    }

    /// What a response does when it arrives: where it carries the
    /// identifier of a request in flight, that request leaves the table
    /// and its slot is handed out; any other response changes nothing.
    pub open spec fn on_response(self, response: ResponseView) -> (Self, Option<S>) {
        match response.id {
            Some(id) => (self.with_table(self.table.take(id).0), self.table.take(id).1),
            None => (self, None),
        }
    }
}

/// The protocol client of one backend.
pub struct LspClient<S> {
    name: String,
    lifecycle: Lifecycle,
    initialized: bool,
    root_uri: Option<String>,
    table: CorrelationTable<S>,
    timeout_ms: u64,
}

/// The text of an optional string.
pub open spec fn text_view(text: Option<String>) -> Option<Seq<char>> {
    match text {
        Some(s) => Some(s@),
        None => None,
    }
}

impl<S> View for LspClient<S> {
    type V = ClientState<S>;

    closed spec fn view(&self) -> ClientState<S> {
        ClientState {
            name: self.name@,
            lifecycle: self.lifecycle,
            initialized: self.initialized,
            root_uri: text_view(self.root_uri),
            table: self.table@,
            timeout_ms: self.timeout_ms,
        }
    }
}

impl<S> LspClient<S> {
    /// A client for the backend `name`: not started, not initialized, with
    /// no request in flight and the default timeout.
    pub fn new(name: &str) -> (client: Self)
        ensures
            client@.name == name@,
            client@.lifecycle == Lifecycle::Unstarted,
            !client@.initialized,
            client@.root_uri is None,
            client@.table.next_id == 1,
            client@.table.pending == Map::<i64, S>::empty(),
            client@.timeout_ms == default_timeout_ms(),
            client@.wf(),
    {
        LspClient {
            name: name.to_owned(),
            lifecycle: Lifecycle::Unstarted,
            initialized: false,
            root_uri: None,
            table: CorrelationTable::new(),
            timeout_ms: default_timeout(),
        }
    }

    /// The name of the backend.
    pub fn name(&self) -> (name: &str)
        ensures
            name@ == self@.name,
    {
        self.name.as_str()
    }

    /// Takes note of the launch of the backend's process, which the owner
    /// has tried with the command and arguments of `config`.
    ///
    /// A launch that failed is `SpawnFailed`. A terminated client is not
    /// started again: `TransportClosed`. Otherwise the client runs from
    /// now on, with the timeout of `config`. On failure nothing changes.
    pub fn start(&mut self, config: &ServerConfig, spawned: bool) -> (out: Result<(), ClientError>)
        ensures
            final(self)@ == old(self)@.start(config.timeout_ms, spawned).0,
            match out {
                Ok(_) => old(self)@.start(config.timeout_ms, spawned).1 is Ok,
                Err(e) => old(self)@.start(config.timeout_ms, spawned).1 == Err::<(), ErrorView>(
                    e@,
                ),
            },
    {
        if !spawned {
            return Err(ClientError::SpawnFailed);
        }
        match self.lifecycle {
            Lifecycle::Terminated => Err(ClientError::TransportClosed),
            _ => {
                self.lifecycle = Lifecycle::Running;
                self.timeout_ms = config.timeout_ms;
                Ok(())
            },
        }
    }

    /// Whether the backend's process runs.
    pub fn is_running(&self) -> (out: bool)
        ensures
            out == (self@.lifecycle == Lifecycle::Running),
    {
        match self.lifecycle {
            Lifecycle::Running => true,
            _ => false,
        }
    }

    /// Whether the handshake has been completed.
    pub fn is_initialized(&self) -> (out: bool)
        ensures
            out == self@.initialized,
    {
        self.initialized
    }

    /// The root that the backend was told, once one was.
    pub fn root_uri(&self) -> (out: Option<&str>)
        ensures
            match out {
                Some(uri) => self@.root_uri == Some(uri@),
                None => self@.root_uri is None,
            },
    {
        match &self.root_uri {
            Some(uri) => Some(uri.as_str()),
            None => None,
        }
    }

    /// How many requests are in flight.
    pub fn pending_len(&self) -> (n: usize)
        ensures
            n == self@.table.pending.len(),
    {
        self.table.len()
    }

    /// Whether the request `id` is in flight.
    pub fn is_pending(&self, id: i64) -> (out: bool)
        ensures
            out == self@.table.pending.contains_key(id),
    {
        self.table.is_pending(id)
    }

    /// Registers a request and builds its frame.
    pub(crate) fn send_request(&mut self, method: &str, params: Option<Vec<u8>>, slot: S) -> (out:
        Result<Outgoing, ClientError>)
        ensures
            final(self)@ == old(self)@.send_request(method@, payload_view(params), slot).0,
            match out {
                Ok(outgoing) => old(self)@.send_request(method@, payload_view(params), slot).1
                    == Ok::<OutgoingView, ErrorView>(outgoing@),
                Err(e) => old(self)@.send_request(method@, payload_view(params), slot).1
                    == Err::<OutgoingView, ErrorView>(e@),
            },
            old(self)@.wf() ==> final(self)@.wf(),
    {
        if !self.is_running() {
            return Err(ClientError::TransportClosed);
        }
        let id = match self.table.allocate(slot) {
            Some(id) => id,
            None => {
                return Err(ClientError::ChannelClosed);
            },
        };
        let request = JsonRpcRequest::new(id, method, params);
        let frame = encode_message(request.encode().as_slice());
        Ok(Outgoing { id, frame, timeout_ms: self.timeout_ms })
    }

    /// Builds the frame of a notification. A client that does not run
    /// sends none.
    pub(crate) fn send_notification(&self, method: &str, params: Option<Vec<u8>>) -> (out: Option<
        Vec<u8>,
    >)
        ensures
            payload_view(out) == self@.send_notification(method@, payload_view(params)),
    {
        if !self.is_running() {
            return None;
        }
        let notification = JsonRpcNotification::new(method, params);
        Some(encode_message(notification.encode().as_slice()))
    }

    /// Ends a request: says what its caller gets, and makes sure that the
    /// request is in the table no longer.
    ///
    /// A response is handed on. A timeout is `RequestTimedOut`, a slot
    /// that was dropped is `ChannelClosed`, a failed write is
    /// `TransportClosed`. However the wait ended, a response to `id` that
    /// arrives afterwards finds nothing and is dropped.
    pub fn finish_request(&mut self, id: i64, completion: Completion) -> (out: Result<
        JsonRpcResponse,
        ClientError,
    >)
        ensures
            final(self)@ == old(self)@.finish_request(id, completion).0,
            !final(self)@.table.pending.contains_key(id),
            match out {
                Ok(response) => old(self)@.finish_request(id, completion).1 == Ok::<
                    ResponseView,
                    ErrorView,
                >(response@),
                Err(e) => old(self)@.finish_request(id, completion).1 == Err::<
                    ResponseView,
                    ErrorView,
                >(e@),
            },
            old(self)@.wf() ==> final(self)@.wf(),
    {
        self.table.expire(id);
        match completion {
            Completion::Response(response) => Ok(response),
            Completion::TimedOut => Err(ClientError::RequestTimedOut),
            Completion::SlotDropped => Err(ClientError::ChannelClosed),
            Completion::WriteFailed => Err(ClientError::TransportClosed),
        }
    }

    /// Takes in a response that was read from the backend. Where it
    /// answers a request in flight, the request leaves the table and its
    /// slot is handed out together with the response, for the owner to put
    /// the one into the other. A response without an identifier, or with
    /// one that no request in flight has, is dropped.
    pub fn on_response(&mut self, response: JsonRpcResponse) -> (out: Option<(S, JsonRpcResponse)>)
        ensures
            final(self)@ == old(self)@.on_response(response@).0,
            match out {
                Some((slot, handed)) => old(self)@.on_response(response@).1 == Some(slot)
                    && handed == response,
                None => old(self)@.on_response(response@).1 is None,
            },
            old(self)@.wf() ==> final(self)@.wf(),
    {
        let id = match response.id {
            Some(id) => id,
            None => {
                return None;
            },
        };
        match self.table.complete(id) {
            Some(slot) => Some((slot, response)),
            None => None,
        }
    }

    /// Takes in the body of a frame that was read from the backend: decodes
    /// it and, where it is a response, passes it to `on_response`. A body
    /// that does not decode is dropped, and reading goes on.
    pub fn on_frame(&mut self, body: &[u8]) -> (out: Option<(S, JsonRpcResponse)>)
        ensures
            match decoded(body@) {
                Some(response) => {
                    &&& final(self)@ == old(self)@.on_response(response).0
                    &&& match out {
                        Some((slot, handed)) => old(self)@.on_response(response).1 == Some(slot)
                            && handed@ == response,
                        None => old(self)@.on_response(response).1 is None,
                    }
                },
                None => final(self)@ == old(self)@ && out is None,
            },
            old(self)@.wf() ==> final(self)@.wf(),
    {
        match JsonRpcResponse::decode(body) {
            Some(response) => self.on_response(response),
            None => None,
        }
    }

    /// Reads a whole stream from the backend that is held in `input`: takes
    /// in frame after frame, as `on_frame` does, until the stream ends or a
    /// frame is cut short. A frame that answers nothing does not stop the
    /// reading. Gives each slot with the response that goes into it, in
    /// the order of arrival.
    pub fn read_responses(&mut self, input: &[u8]) -> (out: Vec<(S, JsonRpcResponse)>)
        ensures
            final(self)@ == old(self)@.read_responses(input@, 0).0,
            out@.len() == old(self)@.read_responses(input@, 0).1.len(),
            forall|i: int|
                0 <= i < out@.len() ==> (#[trigger] out@[i]).0 == old(self)@.read_responses(
                    input@,
                    0,
                ).1[i].0 && out@[i].1@ == old(self)@.read_responses(input@, 0).1[i].1,
            old(self)@.wf() ==> final(self)@.wf(),
    {
        let mut out: Vec<(S, JsonRpcResponse)> = Vec::new();
        let mut pos: usize = 0;
        let ghost whole = old(self)@.read_responses(input@, 0);
        loop
            invariant
                pos <= input.len(),
                whole == old(self)@.read_responses(input@, 0),
                whole.0 == self@.read_responses(input@, pos as int).0,
                whole.1.len() == out@.len() + self@.read_responses(input@, pos as int).1.len(),
                forall|i: int|
                    0 <= i < out@.len() ==> (#[trigger] out@[i]).0 == whole.1[i].0 && out@[i].1@
                        == whole.1[i].1,
                forall|i: int|
                    0 <= i < self@.read_responses(input@, pos as int).1.len() ==> whole.1[out@.len()
                        + i] == #[trigger] self@.read_responses(input@, pos as int).1[i],
                old(self)@.wf() ==> self@.wf(),
            decreases input.len() - pos,
        {
            let ghost before = self@;
            let ghost rest = before.read_responses(input@, pos as int);
            match read_frame(input, pos, OnUndeclared::Skip) {
                FrameRead::Frame { body, next } => {
                    proof {
                        lemma_read_advances(input@, pos as int, None, OnUndeclared::Skip);
                    }
                    let delivered = self.on_frame(body.as_slice());
                    let ghost after = self@;
                    let ghost tail = after.read_responses(input@, next as int);
                    proof {
                        assert(rest.0 == tail.0);
                        assert(rest.1 == before.on_frame(body@).1 + tail.1);
                    }
                    match delivered {
                        Some(pair) => {
                            proof {
                                assert(before.on_frame(body@).1.len() == 1);
                                assert(rest.1[0] == before.on_frame(body@).1[0]);
                                assert forall|i: int| 0 <= i < tail.1.len() implies whole.1[out@.len()
                                    + 1 + i] == #[trigger] tail.1[i] by {
                                    assert(rest.1[1 + i] == tail.1[i]);
                                }
                            }
                            out.push(pair);
                        },
                        None => {
                            proof {
                                assert(before.on_frame(body@).1.len() == 0);
                                assert(rest.1 =~= tail.1);
                            }
                        },
                    }
                    pos = next;
                },
                _ => {
                    return out;
                },
            }
        }
    }

    /// Takes note that the stream from the backend has ended or failed. A
    /// running client is terminated by it: what is asked of it from now on
    /// fails at once, and the requests in flight are given up, so that
    /// whoever waits for a response finds the slot dropped and does not
    /// wait for the timeout.
    pub fn on_stream_closed(&mut self)
        ensures
            final(self)@ == old(self)@.on_stream_closed(),
            old(self)@.wf() ==> final(self)@.wf(),
    {
        if self.is_running() {
            self.lifecycle = Lifecycle::Terminated;
            self.table.clear();
        }
    }

    /// Starts the handshake: tells the backend the project root
    /// `root_path` and the capabilities of this client, in the request
    /// `initialize`. A relative `root_path` is taken from `cwd`;
    /// `process_id` is the identifier of the owner's process.
    pub fn initialize(&mut self, root_path: &str, cwd: &str, process_id: u32, slot: S) -> (out:
        Result<Outgoing, ClientError>)
        ensures
            final(self)@ == old(self)@.initialize(root_path@, cwd@, process_id, slot).0,
            match out {
                Ok(outgoing) => old(self)@.initialize(root_path@, cwd@, process_id, slot).1
                    == Ok::<OutgoingView, ErrorView>(outgoing@),
                Err(e) => old(self)@.initialize(root_path@, cwd@, process_id, slot).1
                    == Err::<OutgoingView, ErrorView>(e@),
            },
            old(self)@.wf() ==> final(self)@.wf(),
    {
        let uri = match path_to_uri(root_path, cwd) {
            Ok(uri) => uri,
            Err(e) => {
                return Err(e);
            },
        };
        if self.root_uri.is_none() {
            self.root_uri = Some(uri);
        }
        let params = match &self.root_uri {
            Some(told) => if fits_uri(told.as_str()) {
                initialize_params(process_id, told.as_str(), capabilities())
            } else {
                None
            },
            None => None,
        };
        match params {
            Some(json) => self.send_request("initialize", Some(json), slot),
            None => Err(ClientError::DecodeFailed),
        }
    }

    /// Reads the response to `initialize` and hands out the frame of the
    /// notification `initialized`, which acknowledges it. An error in the
    /// response is `BackendReportedError`. The client is not initialized
    /// by this: it is once the owner has sent the frame and says so with
    /// `acknowledged`.
    pub fn finish_initialize(&self, response: &JsonRpcResponse) -> (out: Result<
        Vec<u8>,
        ClientError,
    >)
        ensures
            match out {
                Ok(acknowledgment) => self@.finish_initialize(response@) == Ok::<
                    Seq<u8>,
                    ErrorView,
                >(acknowledgment@),
                Err(e) => self@.finish_initialize(response@) == Err::<Seq<u8>, ErrorView>(e@),
            },
    {
        match &response.error {
            Some(error) => {
                return Err(ClientError::BackendReportedError(bytes_of(error)));
            },
            None => {},
        }
        match self.send_notification("initialized", Some(bytes_of_str("{}"))) {
            Some(acknowledgment) => Ok(acknowledgment),
            None => Err(ClientError::TransportClosed),
        }
    }

    /// Takes note that the acknowledgment of the handshake has been sent:
    /// the client is initialized from now on. Until then it is not, and a
    /// handshake that failed on the way may be made again.
    pub fn acknowledged(&mut self)
        ensures
            final(self)@ == old(self)@.acknowledged(),
            old(self)@.wf() ==> final(self)@.wf(),
    {
        if self.is_running() {
            self.initialized = true;
        }
    }

    /// Says what comes next in an operation that reads from a file, of
    /// which `announced` tells whether it has announced the file already.
    pub fn next_step(&self, announced: bool) -> (step: OperationStep)
        ensures
            step == self@.next_step(announced),
    {
        if !self.initialized {
            OperationStep::Handshake
        } else if !announced {
            OperationStep::Announce
        } else {
            OperationStep::Request
        }
    }

    /// Makes sure that the handshake is under way before a file is worked
    /// on. On an initialized client this does nothing and gives `None`.
    /// Otherwise it finds the root for `file_path`, asking `probe` which
    /// paths exist, and starts the handshake with it.
    pub fn ensure_initialized<F: Fn(&str) -> bool>(
        &mut self,
        file_path: &str,
        cwd: &str,
        process_id: u32,
        probe: F,
        slot: S,
    ) -> (out: Result<Option<Outgoing>, ClientError>)
        requires
            forall|p: &str| probe.requires((p,)),
        ensures
            old(self)@.initialized ==> (out matches Ok(None)) && final(self)@ == old(self)@,
            !old(self)@.initialized ==> exists|root: Seq<char>|
                {
                    &&& is_root_for(probe, file_path@, root)
                    &&& final(self)@ == (#[trigger] old(self)@.initialize(
                        root,
                        cwd@,
                        process_id,
                        slot,
                    )).0
                    &&& match out {
                        Ok(Some(outgoing)) => old(self)@.initialize(root, cwd@, process_id, slot).1
                            == Ok::<OutgoingView, ErrorView>(outgoing@),
                        Ok(None) => false,
                        Err(e) => old(self)@.initialize(root, cwd@, process_id, slot).1 == Err::<
                            OutgoingView,
                            ErrorView,
                        >(e@),
                    }
                },
            old(self)@.wf() ==> final(self)@.wf(),
    {
        if self.initialized {
            return Ok(None);
        }
        let root = root_for(file_path, probe);
        match self.initialize(root.as_str(), cwd, process_id, slot) {
            Ok(outgoing) => Ok(Some(outgoing)),
            Err(e) => Err(e),
        }
    }

    /// Announces the file `path`, whose text the owner has read as
    /// `content`, as open: gives the frame of the notification
    /// `textDocument/didOpen`. The file is announced each time anew, with
    /// the version 1.
    pub fn open_file(&self, path: &str, cwd: &str, content: &str) -> (out: Result<
        Option<Vec<u8>>,
        ClientError,
    >)
        ensures
            match out {
                Ok(frame) => self@.open_file(path@, cwd@, content@) == Ok::<
                    Option<Seq<u8>>,
                    ErrorView,
                >(payload_view(frame)),
                Err(e) => self@.open_file(path@, cwd@, content@) == Err::<
                    Option<Seq<u8>>,
                    ErrorView,
                >(e@),
            },
    {
        if !self.initialized {
            return Err(ClientError::NotInitialized);
        }
        let uri = match path_to_uri(path, cwd) {
            Ok(uri) => uri,
            Err(e) => {
                return Err(e);
            },
        };
        let language = language_id_for_path(path);
        match did_open_params(uri.as_str(), language, 1, content) {
            Some(params) => Ok(self.send_notification("textDocument/didOpen", Some(params))),
            None => Err(ClientError::DecodeFailed),
        }
    }

    /// Asks what there is to say about the position `line`, `character`
    /// of the file `path`: the request `textDocument/hover`.
    pub fn hover(&mut self, path: &str, cwd: &str, line: u32, character: u32, slot: S) -> (out:
        Result<Outgoing, ClientError>)
        ensures
            final(self)@ == old(self)@.hover(path@, cwd@, line, character, slot).0,
            match out {
                Ok(outgoing) => old(self)@.hover(path@, cwd@, line, character, slot).1 == Ok::<
                    OutgoingView,
                    ErrorView,
                >(outgoing@),
                Err(e) => old(self)@.hover(path@, cwd@, line, character, slot).1 == Err::<
                    OutgoingView,
                    ErrorView,
                >(e@),
            },
            old(self)@.wf() ==> final(self)@.wf(),
    {
        if !self.initialized {
            return Err(ClientError::NotInitialized);
        }
        let uri = match path_to_uri(path, cwd) {
            Ok(uri) => uri,
            Err(e) => {
                return Err(e);
            },
        };
        match hover_params(uri.as_str(), line, character) {
            Some(params) => self.send_request("textDocument/hover", Some(params), slot),
            None => Err(ClientError::DecodeFailed),
        }
    }

    /// Asks where the symbol at the position `line`, `character` of the
    /// file `path` is defined: the request `textDocument/definition`.
    pub fn definition(&mut self, path: &str, cwd: &str, line: u32, character: u32, slot: S) -> (out:
        Result<Outgoing, ClientError>)
        ensures
            final(self)@ == old(self)@.definition(path@, cwd@, line, character, slot).0,
            match out {
                Ok(outgoing) => old(self)@.definition(path@, cwd@, line, character, slot).1 == Ok::<
                    OutgoingView,
                    ErrorView,
                >(outgoing@),
                Err(e) => old(self)@.definition(path@, cwd@, line, character, slot).1 == Err::<
                    OutgoingView,
                    ErrorView,
                >(e@),
            },
            old(self)@.wf() ==> final(self)@.wf(),
    {
        if !self.initialized {
            return Err(ClientError::NotInitialized);
        }
        let uri = match path_to_uri(path, cwd) {
            Ok(uri) => uri,
            Err(e) => {
                return Err(e);
            },
        };
        match definition_params(uri.as_str(), line, character) {
            Some(params) => self.send_request("textDocument/definition", Some(params), slot),
            None => Err(ClientError::DecodeFailed),
        }
    }

    /// Asks where the symbol at the position `line`, `character` of the
    /// file `path` is used, its declaration included: the request
    /// `textDocument/references`.
    pub fn references(&mut self, path: &str, cwd: &str, line: u32, character: u32, slot: S) -> (out:
        Result<Outgoing, ClientError>)
        ensures
            final(self)@ == old(self)@.references(path@, cwd@, line, character, slot).0,
            match out {
                Ok(outgoing) => old(self)@.references(path@, cwd@, line, character, slot).1 == Ok::<
                    OutgoingView,
                    ErrorView,
                >(outgoing@),
                Err(e) => old(self)@.references(path@, cwd@, line, character, slot).1 == Err::<
                    OutgoingView,
                    ErrorView,
                >(e@),
            },
            old(self)@.wf() ==> final(self)@.wf(),
    {
        if !self.initialized {
            return Err(ClientError::NotInitialized);
        }
        let uri = match path_to_uri(path, cwd) {
            Ok(uri) => uri,
            Err(e) => {
                return Err(e);
            },
        };
        match references_params(uri.as_str(), line, character, true) {
            Some(params) => self.send_request("textDocument/references", Some(params), slot),
            None => Err(ClientError::DecodeFailed),
        }
    }

    /// Asks for the symbols of the file `path`: the request
    /// `textDocument/documentSymbol`.
    pub fn document_symbols(&mut self, path: &str, cwd: &str, slot: S) -> (out: Result<
        Outgoing,
        ClientError,
    >)
        ensures
            final(self)@ == old(self)@.document_symbols(path@, cwd@, slot).0,
            match out {
                Ok(outgoing) => old(self)@.document_symbols(path@, cwd@, slot).1 == Ok::<
                    OutgoingView,
                    ErrorView,
                >(outgoing@),
                Err(e) => old(self)@.document_symbols(path@, cwd@, slot).1 == Err::<
                    OutgoingView,
                    ErrorView,
                >(e@),
            },
            old(self)@.wf() ==> final(self)@.wf(),
    {
        if !self.initialized {
            return Err(ClientError::NotInitialized);
        }
        let uri = match path_to_uri(path, cwd) {
            Ok(uri) => uri,
            Err(e) => {
                return Err(e);
            },
        };
        match document_symbol_params(uri.as_str()) {
            Some(params) => self.send_request("textDocument/documentSymbol", Some(params), slot),
            None => Err(ClientError::DecodeFailed),
        }
    }

    /// Gives the diagnostics of a file that has been announced as open.
    /// Backends push their diagnostics in notifications, which this client
    /// does not collect: the list is always empty.
    pub fn diagnostics(&self) -> (out: Result<Vec<String>, ClientError>)
        ensures
            match out {
                Ok(list) => self@.initialized && list@.len() == 0,
                Err(e) => !self@.initialized && e@ == ErrorView::NotInitialized,
            },
    {
        if !self.initialized {
            return Err(ClientError::NotInitialized);
        }
        Ok(Vec::new())
    }

    /// Shuts the backend down, as far as that can be done: gives the
    /// request `shutdown` and the notification `exit` for the owner to
    /// send, the one after the other and without regard to failures, and
    /// says whether there is a process to kill afterwards. The client is
    /// terminated and no longer initialized. On a client that does not run
    /// there is nothing to send and nothing to kill.
    pub fn shutdown(&mut self, slot: S) -> (plan: ShutdownPlan)
        ensures
            final(self)@ == old(self)@.shutdown(slot),
            match plan.request {
                Some(outgoing) => old(self)@.send_request("shutdown"@, None, slot).1 == Ok::<
                    OutgoingView,
                    ErrorView,
                >(outgoing@),
                None => old(self)@.send_request("shutdown"@, None, slot).1 is Err,
            },
            payload_view(plan.exit) == old(self)@.send_notification("exit"@, None),
            plan.kill == (old(self)@.lifecycle == Lifecycle::Running),
            old(self)@.wf() ==> final(self)@.wf(),
    {
        let kill = self.is_running();
        let exit = self.send_notification("exit", None);
        let request = match self.send_request("shutdown", None, slot) {
            Ok(outgoing) => Some(outgoing),
            Err(_) => None,
        };
        if kill {
            self.lifecycle = Lifecycle::Terminated;
        }
        self.initialized = false;
        ShutdownPlan { request, exit, kill }
    }
}

/// What a shutdown leaves for the owner to do.
#[derive(Debug)]
pub struct ShutdownPlan {
    /// The request `shutdown`, to be sent first and waited for.
    pub request: Option<Outgoing>,
    /// The frame of the notification `exit`, to be sent after that.
    pub exit: Option<Vec<u8>>,
    /// Whether the process is to be killed at the end.
    pub kill: bool,
}

/// What the response to a request about a document gives its caller: the
/// backend's error as `BackendReportedError`, else the result, and `None`
/// where the response has no result, which is no error.
pub open spec fn result_of(response: ResponseView) -> Result<Option<Seq<u8>>, ErrorView> {
    match response.error {
        Some(error) => Err(ErrorView::BackendReportedError(error)),
        None => Ok(response.result),
    }
}

/// Reads the response to a request about a document.
pub fn typed_result(response: JsonRpcResponse) -> (out: Result<Option<Vec<u8>>, ClientError>)
    ensures
        match out {
            Ok(result) => result_of(response@) == Ok::<Option<Seq<u8>>, ErrorView>(
                payload_view(result),
            ),
            Err(e) => result_of(response@) == Err::<Option<Seq<u8>>, ErrorView>(e@),
        },
{
    match response.error {
        Some(error) => Err(ClientError::BackendReportedError(error)),
        None => Ok(response.result),
    }
}

/// A request that times out fails with `RequestTimedOut` and leaves the
/// table; a response to it that arrives afterwards finds no slot, reaches
/// no caller and changes nothing.
pub proof fn lemma_timed_out_request_is_forgotten<S>(
    client: ClientState<S>,
    id: i64,
    late: ResponseView,
)
    requires
        client.wf(),
        late.id == Some(id),
    ensures
        client.finish_request(id, Completion::TimedOut).1 == Err::<ResponseView, ErrorView>(
            ErrorView::RequestTimedOut,
        ),
        !client.finish_request(id, Completion::TimedOut).0.table.pending.contains_key(id),
        client.finish_request(id, Completion::TimedOut).0.on_response(late) == (
            client.finish_request(id, Completion::TimedOut).0,
            None::<S>,
        ),
{
    let after = client.finish_request(id, Completion::TimedOut).0;
    assert(after.table.pending.remove(id) =~= after.table.pending);
}

/// Responses are matched by identifier and not by the order in which they
/// arrive: of two requests in flight, the response to the second, arriving
/// first, gets the second's slot and leaves the first in flight with its
/// own slot, which the response to the first then gets.
pub proof fn lemma_responses_in_any_order<S>(
    client: ClientState<S>,
    first: ResponseView,
    second: ResponseView,
)
    requires
        client.wf(),
        first.id is Some,
        second.id is Some,
        first.id != second.id,
        client.table.pending.contains_key(first.id->0),
        client.table.pending.contains_key(second.id->0),
    ensures
        client.on_response(second).1 == Some(client.table.pending[second.id->0]),
        client.on_response(second).0.table.pending.contains_key(first.id->0),
        client.on_response(second).0.on_response(first).1 == Some(
            client.table.pending[first.id->0],
        ),
        client.on_response(second).0.on_response(first).0 == client.on_response(
            first,
        ).0.on_response(second).0,
{
    crate::correlation::lemma_out_of_order_completion(client.table, first.id->0, second.id->0);
}

/// The handshake comes first: on a client that is not initialized no file
/// is announced and no request about a document goes out, whatever is
/// asked, and such an attempt changes nothing. The one request that an
/// uninitialized client sends is `initialize`.
pub proof fn lemma_handshake_comes_first<S>(
    client: ClientState<S>,
    method: Seq<char>,
    uri: Result<Seq<char>, ErrorView>,
    params: spec_fn(Seq<char>) -> Option<Seq<u8>>,
    slot: S,
    path: Seq<char>,
    cwd: Seq<char>,
    content: Seq<char>,
)
    requires
        !client.initialized,
    ensures
        client.operation(method, uri, params, slot) == (
            client,
            Err::<OutgoingView, ErrorView>(ErrorView::NotInitialized),
        ),
        client.open_file(path, cwd, content) == Err::<Option<Seq<u8>>, ErrorView>(
            ErrorView::NotInitialized,
        ),
{
}

/// The order of an operation that reads from a file. On a client that is
/// not initialized the handshake comes first; once it is acknowledged the
/// file is announced, and then the request goes. On a client that is
/// initialized the handshake is not made again, and the file is announced
/// anew before the request, every time.
pub proof fn lemma_operation_order<S>(client: ClientState<S>)
    ensures
        !client.initialized ==> client.next_step(false) == OperationStep::Handshake,
        !client.initialized ==> client.next_step(true) == OperationStep::Handshake,
        !client.initialized && client.lifecycle == Lifecycle::Running ==> {
            &&& client.acknowledged().next_step(false) == OperationStep::Announce
            &&& client.acknowledged().next_step(true) == OperationStep::Request
        },
        client.initialized ==> {
            &&& client.next_step(false) == OperationStep::Announce
            &&& client.next_step(true) == OperationStep::Request
        },
{
}

/// A closed stream leaves no caller waiting: every request in flight is
/// given up, and a request that is made afterwards fails at once with
/// `TransportClosed` and changes nothing.
pub proof fn lemma_closed_stream_fails_fast<S>(
    client: ClientState<S>,
    method: Seq<char>,
    params: Option<Seq<u8>>,
    slot: S,
)
    requires
        client.lifecycle == Lifecycle::Running,
    ensures
        client.on_stream_closed().table.pending == Map::<i64, S>::empty(),
        client.on_stream_closed().send_request(method, params, slot) == (
            client.on_stream_closed(),
            Err::<OutgoingView, ErrorView>(ErrorView::TransportClosed),
        ),
{
}

/// Sending a request hands out an identifier that no request in flight
/// has, and the next request gets a larger one.
pub proof fn lemma_request_identifier_is_fresh<S>(
    client: ClientState<S>,
    method: Seq<char>,
    params: Option<Seq<u8>>,
    slot: S,
)
    requires
        client.wf(),
        client.send_request(method, params, slot).1 is Ok,
    ensures
        !client.table.pending.contains_key(client.send_request(method, params, slot).1->Ok_0.id),
        client.send_request(method, params, slot).0.table.pending.contains_key(
            client.send_request(method, params, slot).1->Ok_0.id,
        ),
        client.send_request(method, params, slot).0.table.next_id > client.send_request(
            method,
            params,
            slot,
        ).1->Ok_0.id,
        client.send_request(method, params, slot).0.wf(),
{
}

/// A copy of the bytes `text`.
fn bytes_of(text: &Vec<u8>) -> (out: Vec<u8>)
    ensures
        out@ == text@,
{
    vstd::slice::slice_to_vec(text.as_slice())
}

/// The bytes of the string `text`.
fn bytes_of_str(text: &str) -> (out: Vec<u8>)
    ensures
        out@ == text.spec_bytes(),
{
    vstd::slice::slice_to_vec(text.as_bytes())
}

} // verus!
