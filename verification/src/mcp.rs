//! The front end's side of the bridge: the requests of a tool-calling
//! caller, the catalog of tools, and the responses that go back.
//!
//! Requests arrive as JSON text, one to a line, and responses leave the
//! same way. What a tool does with a backend lies between: this module
//! says which tool is meant and with which arguments, and puts the text
//! that the tool produced into a response.

use vstd::prelude::*;
use vstd::string::{StringExecFns, StringSliceAdditionalSpecFns};
use vstd::utf8::encode_utf8;
use crate::config::Config;
use crate::decimal::{signed_decimal, write_signed_decimal};
use crate::error::ClientError;
use crate::paths::chars_of;
use crate::protocol::{
    is_object, json_is_object, json_member, json_string, json_text, json_unsigned, member,
    null_text, payload_view, quote, text_of, unsigned,
};
use crate::render::{
    error_text, format_definition, format_error, format_hover, format_references, format_symbols,
    definition_text, hover_text, join_texts, join_with, references_text, symbols_text,
    DefinitionTargets, HoverText, Place, SymbolList,
};
use crate::text::{append_bytes, bytes_eq, has_prefix, starts_with, str_eq};

verus! {

/// A request of the caller.
#[derive(Debug, Clone)]
pub struct McpRequest {
    pub jsonrpc: String,
    /// The identifier as JSON text, where the request has one.
    pub id: Option<Vec<u8>>,
    pub method: String,
    /// The parameters as JSON text; `null` where the request has none.
    pub params: Vec<u8>,
}

/// A failure that a response reports.
#[derive(Debug, Clone)]
pub struct McpError {
    pub code: i32,
    pub message: String,
}

/// A response to the caller.
#[derive(Debug, Clone)]
pub struct McpResponse {
    /// The identifier of the request, as JSON text.
    pub id: Vec<u8>,
    /// The result as JSON text.
    pub result: Option<Vec<u8>>,
    pub error: Option<McpError>,
}

/// One tool of the catalog.
#[derive(Debug, Clone, Copy)]
pub struct ToolDef {
    pub name: &'static str,
    pub description: &'static str,
    /// The schema of the tool's arguments, as JSON text.
    pub input_schema: &'static str,
}

/// The tools.
#[derive(Clone, Copy, Debug, PartialEq, Eq, Structural)]
pub enum Tool {
    Hover,
    Definition,
    References,
    Symbols,
    Diagnostics,
    Servers,
}

/// The arguments of a tool call.
#[derive(Debug, Clone)]
pub struct ToolArguments {
    pub file: String,
    pub line: u32,
    pub column: u32,
}

/// What is to be done with a request.
#[derive(Debug)]
pub enum Handled {
    /// Send this response.
    Reply(McpResponse),
    /// Run the tool `name` with `arguments`, then answer the request `id`
    /// with what it says.
    CallTool { id: Vec<u8>, name: String, arguments: Vec<u8> },
}

/// The member `key` of `doc`, or `null` where there is none.
pub open spec fn member_or_null(doc: Seq<u8>, key: Seq<char>) -> Seq<u8> {
    match json_member(doc, key) {
        Some(text) => text,
        None => null_text(),
    }
}

/// The text of the member `key` of `doc`, or the empty text where `doc`
/// has no such member or it is no string.
pub open spec fn text_member(doc: Seq<u8>, key: Seq<char>) -> Seq<char> {
    match json_member(doc, key) {
        Some(value) => match json_text(value) {
            Some(text) => text,
            None => Seq::empty(),
        },
        None => Seq::empty(),
    }
}

/// The number of the member `key` of `doc`, cut to 32 bits, or 0 where
/// `doc` has no such member or it is no number.
pub open spec fn number_member(doc: Seq<u8>, key: Seq<char>) -> u32 {
    match json_member(doc, key) {
        Some(value) => match json_unsigned(value) {
            Some(n) => (n % 0x1_0000_0000) as u32,
            None => 0,
        },
        None => 0,
    }
}

/// Whether the line `doc` is a request: a JSON object whose members
/// `jsonrpc` and `method` are strings.
pub open spec fn is_request(doc: Seq<u8>) -> bool {
    &&& json_is_object(doc)
    &&& json_member(doc, "jsonrpc"@) matches Some(version) && json_text(version) is Some
    &&& json_member(doc, "method"@) matches Some(method) && json_text(method) is Some
}

/// The name of a tool.
pub open spec fn tool_name(tool: Tool) -> Seq<char> {
    match tool {
        Tool::Hover => "lsp_hover"@,
        Tool::Definition => "lsp_definition"@,
        Tool::References => "lsp_references"@,
        Tool::Symbols => "lsp_symbols"@,
        Tool::Diagnostics => "lsp_diagnostics"@,
        Tool::Servers => "lsp_servers"@,
    }
}

/// The tool that `name` names.
pub open spec fn tool_named(name: Seq<char>) -> Option<Tool> {
    if name == "lsp_hover"@ {
        Some(Tool::Hover)
    } else if name == "lsp_definition"@ {
        Some(Tool::Definition)
    } else if name == "lsp_references"@ {
        Some(Tool::References)
    } else if name == "lsp_symbols"@ {
        Some(Tool::Symbols)
    } else if name == "lsp_diagnostics"@ {
        Some(Tool::Diagnostics)
    } else if name == "lsp_servers"@ {
        Some(Tool::Servers)
    } else {
        None
    }
}

/// What a call of a tool that does not exist says.
pub open spec fn unknown_tool_text(name: Seq<char>) -> Seq<char> {
    "Error: Unknown tool: "@ + name
}

/// Whether the text that a tool produced reports a failure.
pub open spec fn reports_error(text: Seq<char>) -> bool {
    starts_with(text, "Error:"@)
}

/// The result of `initialize`: the protocol version, the name and version
/// of this server, and its capabilities.
pub open spec fn initialize_result() -> Seq<u8> {
    "{\"protocolVersion\":\"2024-11-05\",\"serverInfo\":{\"name\":\"lsp-mcp-rs\",\"version\":\"0.1.0\"},\"capabilities\":{\"tools\":{}}}".spec_bytes()
}

/// The result of a tool call: the text that the tool produced, and
/// whether it reports a failure.
pub open spec fn tool_call_result(text: Seq<char>) -> Seq<u8> {
    "{\"content\":[{\"type\":\"text\",\"text\":".spec_bytes() + json_string(text)
        + "}],\"isError\":".spec_bytes() + (if reports_error(text) {
        "true".spec_bytes()
    } else {
        "false".spec_bytes()
    }) + "}".spec_bytes()
}

/// The schema of the arguments of a tool that works on a position.
pub open spec fn position_schema() -> Seq<char> {
    "{\"type\":\"object\",\"properties\":{\"file\":{\"type\":\"string\",\"description\":\"Absolute path to the file\"},\"line\":{\"type\":\"integer\",\"description\":\"Line number (0-indexed)\"},\"column\":{\"type\":\"integer\",\"description\":\"Column number (0-indexed)\"}},\"required\":[\"file\",\"line\",\"column\"]}"@
}

/// The schema of the arguments of a tool that works on a file.
pub open spec fn file_schema() -> Seq<char> {
    "{\"type\":\"object\",\"properties\":{\"file\":{\"type\":\"string\",\"description\":\"Absolute path to the file\"}},\"required\":[\"file\"]}"@
}

/// The schema of a tool without arguments.
pub open spec fn empty_schema() -> Seq<char> {
    "{\"type\":\"object\",\"properties\":{}}"@
}

/// The description of a tool.
pub open spec fn tool_description(tool: Tool) -> Seq<char> {
    match tool {
        Tool::Hover => "Get hover information (documentation, type) at a position"@,
        Tool::Definition => "Go to definition of symbol at position"@,
        Tool::References => "Find all references to symbol at position"@,
        Tool::Symbols => "List all symbols in a file"@,
        Tool::Diagnostics => "Get errors and warnings for a file"@,
        Tool::Servers => "List configured LSP servers"@,
    }
}

/// The schema of the arguments of a tool.
pub open spec fn tool_schema(tool: Tool) -> Seq<char> {
    match tool {
        Tool::Hover => position_schema(),
        Tool::Definition => position_schema(),
        Tool::References => position_schema(),
        Tool::Symbols => file_schema(),
        Tool::Diagnostics => file_schema(),
        Tool::Servers => empty_schema(),
    }
}

/// The tools in the order of the catalog.
pub open spec fn catalog_order() -> Seq<Tool> {
    seq![
        Tool::Hover,
        Tool::Definition,
        Tool::References,
        Tool::Symbols,
        Tool::Diagnostics,
        Tool::Servers,
    ]
}

/// One tool of the catalog as JSON text: its name, its description, and
/// the schema of its arguments.
pub open spec fn tool_json(tool: Tool) -> Seq<u8> {
    "{\"name\":".spec_bytes() + json_string(tool_name(tool)) + ",\"description\":".spec_bytes()
        + json_string(tool_description(tool)) + ",\"inputSchema\":".spec_bytes() + encode_utf8(
        tool_schema(tool),
    ) + "}".spec_bytes()
}

/// The first `n` tools of the catalog as JSON text, with commas between
/// them.
pub open spec fn catalog_json(n: int) -> Seq<u8>
    decreases n,
{
    if n <= 0 || n > catalog_order().len() {
        Seq::empty()
    } else if n == 1 {
        tool_json(catalog_order()[0])
    } else {
        catalog_json(n - 1) + ",".spec_bytes() + tool_json(catalog_order()[n - 1])
    }
}

/// The result of `tools/list`: the catalog.
pub open spec fn tools_list_result() -> Seq<u8> {
    "{\"tools\":[".spec_bytes() + catalog_json(catalog_order().len() as int) + "]}".spec_bytes()
}

/// Whether `def` is the catalog's entry for `tool`.
pub open spec fn describes(def: ToolDef, tool: Tool) -> bool {
    &&& def.name@ == tool_name(tool)
    &&& def.description@ == tool_description(tool)
    &&& def.input_schema@ == tool_schema(tool)
}

/// A response as JSON text: the version, the identifier, and the result or
/// the error, whichever there is.
pub open spec fn response_json(response: McpResponse) -> Seq<u8> {
    "{\"jsonrpc\":\"2.0\",\"id\":".spec_bytes() + response.id@ + (match response.result {
        Some(result) => ",\"result\":".spec_bytes() + result@,
        None => Seq::empty(),
    }) + (match response.error {
        Some(error) => ",\"error\":{\"code\":".spec_bytes() + signed_decimal(error.code as int)
            + ",\"message\":".spec_bytes() + json_string(error.message@) + "}".spec_bytes(),
        None => Seq::empty(),
    }) + "}".spec_bytes()
}

/// What a tool says for the outcome of a hover request.
pub open spec fn hover_outcome_text(outcome: Result<Option<HoverText>, ClientError>) -> Seq<char> {
    match outcome {
        Ok(Some(hover)) => hover_text(hover),
        Ok(None) => "No hover information"@,
        Err(e) => error_text(e@),
    }
}

/// What a tool says for the outcome of a definition request.
pub open spec fn definition_outcome_text(outcome: Result<Option<DefinitionTargets>, ClientError>) -> Seq<
    char,
> {
    match outcome {
        Ok(Some(targets)) => definition_text(targets),
        Ok(None) => "No definition found"@,
        Err(e) => error_text(e@),
    }
}

/// What a tool says for the outcome of a references request.
pub open spec fn references_outcome_text(outcome: Result<Option<Vec<Place>>, ClientError>) -> Seq<
    char,
> {
    match outcome {
        Ok(Some(places)) => references_text(places@),
        Ok(None) => "No references found"@,
        Err(e) => error_text(e@),
    }
}

/// What a tool says for the outcome of a symbols request.
pub open spec fn symbols_outcome_text(outcome: Result<Option<SymbolList>, ClientError>) -> Seq<
    char,
> {
    match outcome {
        Ok(Some(symbols)) => symbols_text(symbols),
        Ok(None) => "No symbols found"@,
        Err(e) => error_text(e@),
    }
}

/// The JSON texts `items` as the text of a JSON array.
pub open spec fn array_text(items: Seq<String>) -> Seq<char> {
    "["@ + join_with(items.map_values(|line: String| line@), ","@) + "]"@
}

/// What a tool says for the outcome of asking for diagnostics: a sentence
/// where there are none, else the diagnostics as a JSON array.
pub open spec fn diagnostics_outcome_text(outcome: Result<Vec<String>, ClientError>) -> Seq<
    char,
> {
    match outcome {
        Ok(list) => if list@.len() == 0 {
            "No diagnostics"@
        } else {
            array_text(list@)
        },
        Err(e) => error_text(e@),
    }
}

/// The extensions `extensions`, with a comma and a space between each
/// two.
pub open spec fn extensions_text(extensions: Seq<String>) -> Seq<char> {
    join_with(extensions.map_values(|line: String| line@), ", "@)
}

/// The line that lists one server: its name, its command, and its
/// extensions in parentheses.
pub open spec fn server_line(entry: (String, crate::config::ServerConfig)) -> Seq<char> {
    "\n  "@ + entry.0@ + " -> "@ + entry.1.command@ + " ("@ + extensions_text(
        entry.1.extensions@,
    ) + ")"@
}

/// The lines that list the first `n` servers.
pub open spec fn server_lines(servers: Seq<(String, crate::config::ServerConfig)>, n: int) -> Seq<
    char,
>
    decreases n,
{
    if n <= 0 || n > servers.len() {
        Seq::empty()
    } else {
        server_lines(servers, n - 1) + server_line(servers[n - 1])
    }
}

/// The list of the configured servers: a heading, then one line for each
/// server in the order of declaration.
pub open spec fn servers_text(config: Config) -> Seq<char> {
    "Configured LSP servers:"@ + server_lines(config.servers@, config.servers@.len() as int)
}

impl McpRequest {
    /// Reads a request from a line of JSON text. `None` where the line is
    /// no request: such a line is passed over.
    pub fn decode(line: &[u8]) -> (out: Option<Self>)
        ensures
            out is Some <==> is_request(line@),
            out matches Some(request) ==> {
                &&& json_member(line@, "jsonrpc"@) matches Some(version) && json_text(version)
                    == Some(request.jsonrpc@)
                &&& json_member(line@, "method"@) matches Some(method) && json_text(method) == Some(
                    request.method@,
                )
                &&& payload_view(request.id) == crate::protocol::payload(line@, "id"@)
                &&& request.params@ == member_or_null(line@, "params"@)
            },
    {
        if !is_object(line) {
            return None;
        }
        let jsonrpc = match member(line, "jsonrpc") {
            Some(version) => match text_of(version.as_slice()) {
                Some(text) => text,
                None => {
                    return None;
                },
            },
            None => {
                return None;
            },
        };
        let method = match member(line, "method") {
            Some(method) => match text_of(method.as_slice()) {
                Some(text) => text,
                None => {
                    return None;
                },
            },
            None => {
                return None;
            },
        };
        let id = match member(line, "id") {
            Some(id) => if bytes_eq(id.as_slice(), "null".as_bytes()) {
                None
            } else {
                Some(id)
            },
            None => None,
        };
        let params = read_member_or_null(line, "params");
        Some(McpRequest { jsonrpc, id, method, params })
    }
}

/// The member `key` of `doc`, or `null` where there is none.
fn read_member_or_null(doc: &[u8], key: &str) -> (out: Vec<u8>)
    ensures
        out@ == member_or_null(doc@, key@),
{
    match member(doc, key) {
        Some(text) => text,
        None => vstd::slice::slice_to_vec("null".as_bytes()),
    }
}

/// The text of the member `key` of `doc`, or the empty text.
fn read_text_member(doc: &[u8], key: &str) -> (out: String)
    ensures
        out@ == text_member(doc@, key@),
{
    match member(doc, key) {
        Some(value) => match text_of(value.as_slice()) {
            Some(text) => text,
            None => String::new(),
        },
        None => String::new(),
    }
}

/// The number of the member `key` of `doc`, cut to 32 bits, or 0.
fn read_number_member(doc: &[u8], key: &str) -> (out: u32)
    ensures
        out == number_member(doc@, key@),
{
    match member(doc, key) {
        Some(value) => match unsigned(value.as_slice()) {
            Some(n) => (n % 0x1_0000_0000) as u32,
            None => 0,
        },
        None => 0,
    }
}

/// Reads the arguments of a tool call: the file, and the line and column
/// where the tool works on a position. What is missing counts as the empty
/// path and as 0.
pub fn tool_arguments(arguments: &[u8]) -> (out: ToolArguments)
    ensures
        out.file@ == text_member(arguments@, "file"@),
        out.line == number_member(arguments@, "line"@),
        out.column == number_member(arguments@, "column"@),
{
    ToolArguments {
        file: read_text_member(arguments, "file"),
        line: read_number_member(arguments, "line"),
        column: read_number_member(arguments, "column"),
    }
}

impl Tool {
    /// Finds the tool that `name` names.
    pub fn from_name(name: &str) -> (out: Option<Tool>)
        ensures
            out == tool_named(name@),
    {
        if str_eq(name, "lsp_hover") {
            Some(Tool::Hover)
        } else if str_eq(name, "lsp_definition") {
            Some(Tool::Definition)
        } else if str_eq(name, "lsp_references") {
            Some(Tool::References)
        } else if str_eq(name, "lsp_symbols") {
            Some(Tool::Symbols)
        } else if str_eq(name, "lsp_diagnostics") {
            Some(Tool::Diagnostics)
        } else if str_eq(name, "lsp_servers") {
            Some(Tool::Servers)
        } else {
            None
        }
    }

    /// The catalog's entry for this tool.
    pub fn definition(self) -> (out: ToolDef)
        ensures
            describes(out, self),
    {
        let position = "{\"type\":\"object\",\"properties\":{\"file\":{\"type\":\"string\",\"description\":\"Absolute path to the file\"},\"line\":{\"type\":\"integer\",\"description\":\"Line number (0-indexed)\"},\"column\":{\"type\":\"integer\",\"description\":\"Column number (0-indexed)\"}},\"required\":[\"file\",\"line\",\"column\"]}";
        let file = "{\"type\":\"object\",\"properties\":{\"file\":{\"type\":\"string\",\"description\":\"Absolute path to the file\"}},\"required\":[\"file\"]}";
        match self {
            Tool::Hover => ToolDef {
                name: "lsp_hover",
                description: "Get hover information (documentation, type) at a position",
                input_schema: position,
            },
            Tool::Definition => ToolDef {
                name: "lsp_definition",
                description: "Go to definition of symbol at position",
                input_schema: position,
            },
            Tool::References => ToolDef {
                name: "lsp_references",
                description: "Find all references to symbol at position",
                input_schema: position,
            },
            Tool::Symbols => ToolDef {
                name: "lsp_symbols",
                description: "List all symbols in a file",
                input_schema: file,
            },
            Tool::Diagnostics => ToolDef {
                name: "lsp_diagnostics",
                description: "Get errors and warnings for a file",
                input_schema: file,
            },
            Tool::Servers => ToolDef {
                name: "lsp_servers",
                description: "List configured LSP servers",
                input_schema: "{\"type\":\"object\",\"properties\":{}}",
            },
        }
    }
}

/// Gives the catalog: every tool with its name, its description and the
/// schema of its arguments.
pub fn get_tools() -> (out: Vec<ToolDef>)
    ensures
        out@.len() == catalog_order().len(),
        forall|i: int| 0 <= i < out@.len() ==> describes(#[trigger] out@[i], catalog_order()[i]),
{
    let mut out: Vec<ToolDef> = Vec::new();
    out.push(Tool::Hover.definition());
    out.push(Tool::Definition.definition());
    out.push(Tool::References.definition());
    out.push(Tool::Symbols.definition());
    out.push(Tool::Diagnostics.definition());
    out.push(Tool::Servers.definition());
    out
}

/// Says what a call of a tool that does not exist says.
pub fn unknown_tool(name: &str) -> (out: String)
    ensures
        out@ == unknown_tool_text(name@),
{
    let mut out = "Error: Unknown tool: ".to_owned();
    out.append(name);
    out
}

/// Says whether the text that a tool produced reports a failure: whether
/// it starts with `Error:`.
pub fn is_error_text(text: &str) -> (out: bool)
    ensures
        out == reports_error(text@),
{
    let chars = chars_of(text);
    let prefix = chars_of("Error:");
    has_prefix(&chars, &prefix)
}

/// Gives the result of `tools/list`: the catalog as JSON text.
pub fn tools_list() -> (out: Vec<u8>)
    ensures
        out@ == tools_list_result(),
{
    let tools = get_tools();
    let mut out: Vec<u8> = Vec::new();
    append_bytes(&mut out, "{\"tools\":[".as_bytes());
    let ghost open = out@;
    let mut i: usize = 0;
    while i < tools.len()
        invariant
            0 <= i <= tools.len(),
            tools@.len() == catalog_order().len(),
            forall|k: int| 0 <= k < tools@.len() ==> describes(#[trigger] tools@[k], catalog_order()[k]),
            open == "{\"tools\":[".spec_bytes(),
            out@ == open + catalog_json(i as int),
        decreases tools.len() - i,
    {
        if i > 0 {
            append_bytes(&mut out, ",".as_bytes());
        }
        let ghost started = out@;
        assert(describes(tools@[i as int], catalog_order()[i as int]));
        append_bytes(&mut out, "{\"name\":".as_bytes());
        let name = quote(tools[i].name);
        append_bytes(&mut out, name.as_slice());
        append_bytes(&mut out, ",\"description\":".as_bytes());
        let description = quote(tools[i].description);
        append_bytes(&mut out, description.as_slice());
        append_bytes(&mut out, ",\"inputSchema\":".as_bytes());
        append_bytes(&mut out, tools[i].input_schema.as_bytes());
        append_bytes(&mut out, "}".as_bytes());
        proof {
            assert(out@ =~= started + tool_json(catalog_order()[i as int]));
            if i == 0 {
                assert(catalog_json(0) =~= Seq::<u8>::empty());
                assert(out@ =~= open + catalog_json(1));
            } else {
                assert(out@ =~= open + catalog_json(i + 1));
            }
        }
        i += 1;
    }
    append_bytes(&mut out, "]}".as_bytes());
    out
}

/// Gives the result of a tool call for the text that the tool produced.
pub fn tool_result(text: &str) -> (out: Vec<u8>)
    ensures
        out@ == tool_call_result(text@),
{
    let mut out: Vec<u8> = Vec::new();
    append_bytes(&mut out, "{\"content\":[{\"type\":\"text\",\"text\":".as_bytes());
    let quoted = quote(text);
    append_bytes(&mut out, quoted.as_slice());
    append_bytes(&mut out, "}],\"isError\":".as_bytes());
    if is_error_text(text) {
        append_bytes(&mut out, "true".as_bytes());
    } else {
        append_bytes(&mut out, "false".as_bytes());
    }
    append_bytes(&mut out, "}".as_bytes());
    assert(out@ =~= tool_call_result(text@));
    out
}

impl McpResponse {
    /// The response that carries `result` to the request `id`.
    pub fn success(id: Vec<u8>, result: Vec<u8>) -> (out: Self)
        ensures
            out.id == id,
            out.result == Some(result),
            out.error is None,
    {
        McpResponse { id, result: Some(result), error: None }
    }

    /// Writes the response as JSON text.
    pub fn encode(&self) -> (out: Vec<u8>)
        ensures
            out@ == response_json(*self),
    {
        let mut out: Vec<u8> = Vec::new();
        append_bytes(&mut out, "{\"jsonrpc\":\"2.0\",\"id\":".as_bytes());
        append_bytes(&mut out, self.id.as_slice());
        match &self.result {
            Some(result) => {
                append_bytes(&mut out, ",\"result\":".as_bytes());
                append_bytes(&mut out, result.as_slice());
            },
            None => {},
        }
        let ghost middle = out@;
        match &self.error {
            Some(error) => {
                append_bytes(&mut out, ",\"error\":{\"code\":".as_bytes());
                let code = write_signed_decimal(error.code as i64);
                append_bytes(&mut out, code.as_slice());
                append_bytes(&mut out, ",\"message\":".as_bytes());
                let message = quote(error.message.as_str());
                append_bytes(&mut out, message.as_slice());
                append_bytes(&mut out, "}".as_bytes());
                assert(out@ =~= middle + (",\"error\":{\"code\":".spec_bytes() + signed_decimal(
                    error.code as int,
                ) + ",\"message\":".spec_bytes() + json_string(error.message@) + "}".spec_bytes()));
            },
            None => {},
        }
        append_bytes(&mut out, "}".as_bytes());
        assert(out@ =~= response_json(*self));
        out
    }
}

/// What is to be done with the request `request`, as a mathematical
/// value: a reply, or the call of a tool.
pub enum HandledView {
    Reply { id: Seq<u8>, result: Option<Seq<u8>>, error: Option<(i32, Seq<char>)> },
    CallTool { id: Seq<u8>, name: Seq<char>, arguments: Seq<u8> },
}

impl View for Handled {
    type V = HandledView;

    open spec fn view(&self) -> HandledView {
        match self {
            Handled::Reply(response) => HandledView::Reply {
                id: response.id@,
                result: payload_view(response.result),
                error: match response.error {
                    Some(e) => Some((e.code, e.message@)),
                    None => None,
                },
            },
            Handled::CallTool { id, name, arguments } => HandledView::CallTool {
                id: id@,
                name: name@,
                arguments: arguments@,
            },
        }
    }
}

/// What handling a request comes to. `initialize` is answered with this
/// server's description, `notifications/initialized` with an empty object,
/// `tools/list` with the catalog. `tools/call` names a tool to run. Any
/// other method is answered with the error -32601.
pub open spec fn handled(id: Option<Seq<u8>>, method: Seq<char>, params: Seq<u8>) -> HandledView {
    let id = match id {
        Some(id) => id,
        None => null_text(),
    };
    if method == "initialize"@ {
        HandledView::Reply { id, result: Some(initialize_result()), error: None }
    } else if method == "notifications/initialized"@ {
        HandledView::Reply { id, result: Some("{}".spec_bytes()), error: None }
    } else if method == "tools/list"@ {
        HandledView::Reply { id, result: Some(tools_list_result()), error: None }
    } else if method == "tools/call"@ {
        HandledView::CallTool {
            id,
            name: text_member(params, "name"@),
            arguments: member_or_null(params, "arguments"@),
        }
    } else {
        HandledView::Reply {
            id,
            result: None,
            error: Some((-32601i32, "Method not found: "@ + method)),
        }
    }
}

/// Decides what is to be done with a request.
pub fn handle_request(request: &McpRequest) -> (out: Handled)
    ensures
        out@ == handled(payload_view(request.id), request.method@, request.params@),
{
    let id = match &request.id {
        Some(id) => vstd::slice::slice_to_vec(id.as_slice()),
        None => vstd::slice::slice_to_vec("null".as_bytes()),
    };
    let method = request.method.as_str();
    if str_eq(method, "initialize") {
        Handled::Reply(
            McpResponse::success(
                id,
                vstd::slice::slice_to_vec(
                    "{\"protocolVersion\":\"2024-11-05\",\"serverInfo\":{\"name\":\"lsp-mcp-rs\",\"version\":\"0.1.0\"},\"capabilities\":{\"tools\":{}}}".as_bytes(),
                ),
            ),
        )
    } else if str_eq(method, "notifications/initialized") {
        Handled::Reply(McpResponse::success(id, vstd::slice::slice_to_vec("{}".as_bytes())))
    } else if str_eq(method, "tools/list") {
        Handled::Reply(McpResponse::success(id, tools_list()))
    } else if str_eq(method, "tools/call") {
        Handled::CallTool {
            id,
            name: read_text_member(request.params.as_slice(), "name"),
            arguments: read_member_or_null(request.params.as_slice(), "arguments"),
        }
    } else {
        let mut message = "Method not found: ".to_owned();
        message.append(method);
        Handled::Reply(
            McpResponse { id, result: None, error: Some(McpError { code: -32601, message }) },
        )
    }
}

/// Gives the response to a tool call: the text that the tool produced,
/// marked as a failure where it starts with `Error:`.
pub fn finish_tool_call(id: Vec<u8>, text: &str) -> (out: McpResponse)
    ensures
        out.id == id,
        payload_view(out.result) == Some(tool_call_result(text@)),
        out.error is None,
{
    McpResponse::success(id, tool_result(text))
}

/// Says what the hover tool says for the outcome of its request.
pub fn tool_hover(outcome: &Result<Option<HoverText>, ClientError>) -> (out: String)
    ensures
        out@ == hover_outcome_text(*outcome),
{
    match outcome {
        Ok(Some(hover)) => format_hover(hover),
        Ok(None) => "No hover information".to_owned(),
        Err(e) => format_error(e),
    }
}

/// Says what the definition tool says for the outcome of its request.
pub fn tool_definition(outcome: &Result<Option<DefinitionTargets>, ClientError>) -> (out: String)
    ensures
        out@ == definition_outcome_text(*outcome),
{
    match outcome {
        Ok(Some(places)) => format_definition(places),
        Ok(None) => "No definition found".to_owned(),
        Err(e) => format_error(e),
    }
}

/// Says what the references tool says for the outcome of its request.
pub fn tool_references(outcome: &Result<Option<Vec<Place>>, ClientError>) -> (out: String)
    ensures
        out@ == references_outcome_text(*outcome),
{
    match outcome {
        Ok(Some(places)) => format_references(places),
        Ok(None) => "No references found".to_owned(),
        Err(e) => format_error(e),
    }
}

/// Says what the symbols tool says for the outcome of its request.
pub fn tool_symbols(outcome: &Result<Option<SymbolList>, ClientError>) -> (out: String)
    ensures
        out@ == symbols_outcome_text(*outcome),
{
    match outcome {
        Ok(Some(symbols)) => format_symbols(symbols),
        Ok(None) => "No symbols found".to_owned(),
        Err(e) => format_error(e),
    }
}

/// Says what the diagnostics tool says for the outcome of its request.
pub fn tool_diagnostics(outcome: &Result<Vec<String>, ClientError>) -> (out: String)
    ensures
        out@ == diagnostics_outcome_text(*outcome),
{
    match outcome {
        Ok(list) => {
            if list.len() == 0 {
                return "No diagnostics".to_owned();
            }
            let mut out = "[".to_owned();
            out.append(join_texts(list, ",").as_str());
            out.append("]");
            out
        },
        Err(e) => format_error(e),
    }
}

/// Lists the configured servers: each with its name, its command and the
/// extensions that it claims.
pub fn tool_servers(config: &Config) -> (out: String)
    ensures
        out@ == servers_text(*config),
{
    let mut out = "Configured LSP servers:".to_owned();
    let ghost heading = out@;
    let mut i: usize = 0;
    while i < config.servers.len()
        invariant
            0 <= i <= config.servers.len(),
            heading == "Configured LSP servers:"@,
            out@ == heading + server_lines(config.servers@, i as int),
        decreases config.servers.len() - i,
    {
        let ghost before = out@;
        let entry = &config.servers[i];
        out.append("\n  ");
        out.append(entry.0.as_str());
        out.append(" -> ");
        out.append(entry.1.command.as_str());
        out.append(" (");
        out.append(join_texts(&entry.1.extensions, ", ").as_str());
        out.append(")");
        assert(out@ =~= before + server_line(config.servers@[i as int]));
        i += 1;
    }
    out
}

} // verus!
