use lsp_mcp_rs::config::{Config, ServerConfig};
use lsp_mcp_rs::error::ClientError;
use lsp_mcp_rs::mcp::{
    finish_tool_call, get_tools, handle_request, is_error_text, tool_arguments, tool_definition,
    tool_diagnostics, tool_hover, tool_references, tool_result, tool_servers, tool_symbols, tools_list, unknown_tool,
    Handled, McpError, McpRequest, McpResponse, Tool,
};
use lsp_mcp_rs::render::{DefinitionTargets, HoverText, MarkedText, Place, SymbolList};

fn parse(bytes: &[u8]) -> serde_json::Value {
    serde_json::from_slice(bytes).unwrap()
}

fn request(line: &str) -> McpRequest {
    McpRequest::decode(line.as_bytes()).unwrap()
}

fn reply(handled: Handled) -> McpResponse {
    match handled {
        Handled::Reply(response) => response,
        other => panic!("no reply: {:?}", other),
    }
}

#[test]
fn request_line_is_decoded() {
    let decoded = request("{\"jsonrpc\":\"2.0\",\"id\":7,\"method\":\"tools/list\",\"params\":{\"a\":1}}");
    assert_eq!(decoded.jsonrpc, "2.0");
    assert_eq!(decoded.id, Some(b"7".to_vec()));
    assert_eq!(decoded.method, "tools/list");
    assert_eq!(decoded.params, b"{\"a\":1}".to_vec());
}

#[test]
fn request_without_id_and_params_is_decoded() {
    let decoded = request("{\"jsonrpc\":\"2.0\",\"method\":\"notifications/initialized\"}");
    assert_eq!(decoded.id, None);
    assert_eq!(decoded.params, b"null".to_vec());
    let decoded = request("{\"jsonrpc\":\"2.0\",\"id\":null,\"method\":\"x\"}");
    assert_eq!(decoded.id, None);
    let decoded = request("{\"jsonrpc\":\"2.0\",\"id\":\"abc\",\"method\":\"x\"}");
    assert_eq!(decoded.id, Some(b"\"abc\"".to_vec()));
}

#[test]
fn line_that_is_no_request_is_passed_over() {
    assert!(McpRequest::decode(b"").is_none());
    assert!(McpRequest::decode(b"hello").is_none());
    assert!(McpRequest::decode(b"[1]").is_none());
    assert!(McpRequest::decode(b"{\"jsonrpc\":\"2.0\"}").is_none());
    assert!(McpRequest::decode(b"{\"method\":\"x\"}").is_none());
    assert!(McpRequest::decode(b"{\"jsonrpc\":2,\"method\":\"x\"}").is_none());
    assert!(McpRequest::decode(b"{\"jsonrpc\":\"2.0\",\"method\":7}").is_none());
}

#[test]
fn initialize_is_answered_with_the_server_description() {
    let response = reply(handle_request(&request("{\"jsonrpc\":\"2.0\",\"id\":1,\"method\":\"initialize\"}")));
    assert_eq!(response.id, b"1".to_vec());
    assert!(response.error.is_none());
    let result = parse(&response.result.unwrap());
    assert_eq!(result["protocolVersion"], "2024-11-05");
    assert_eq!(result["serverInfo"]["name"], "lsp-mcp-rs");
    assert_eq!(result["serverInfo"]["version"], "0.1.0");
    assert!(result["capabilities"]["tools"].as_object().unwrap().is_empty());
}

#[test]
fn initialized_notification_is_answered_with_an_empty_object() {
    let response =
        reply(handle_request(&request("{\"jsonrpc\":\"2.0\",\"method\":\"notifications/initialized\"}")));
    assert_eq!(response.id, b"null".to_vec());
    assert_eq!(response.result, Some(b"{}".to_vec()));
}

#[test]
fn tools_list_is_answered_with_the_catalog() {
    let response = reply(handle_request(&request("{\"jsonrpc\":\"2.0\",\"id\":2,\"method\":\"tools/list\"}")));
    let result = parse(&response.result.unwrap());
    let tools = result["tools"].as_array().unwrap();
    let names: Vec<&str> = tools.iter().map(|t| t["name"].as_str().unwrap()).collect();
    assert_eq!(
        names,
        vec!["lsp_hover", "lsp_definition", "lsp_references", "lsp_symbols", "lsp_diagnostics", "lsp_servers"]
    );
    assert_eq!(tools[0]["description"], "Get hover information (documentation, type) at a position");
    assert_eq!(tools[0]["inputSchema"]["type"], "object");
    assert_eq!(tools[0]["inputSchema"]["properties"]["line"]["type"], "integer");
    assert_eq!(tools[0]["inputSchema"]["properties"]["line"]["description"], "Line number (0-indexed)");
    assert_eq!(tools[0]["inputSchema"]["required"], parse(b"[\"file\",\"line\",\"column\"]"));
    assert_eq!(tools[3]["inputSchema"]["required"], parse(b"[\"file\"]"));
    assert_eq!(tools[3]["inputSchema"]["properties"]["file"]["description"], "Absolute path to the file");
    assert!(tools[5]["inputSchema"]["properties"].as_object().unwrap().is_empty());
    assert!(tools[5]["inputSchema"].get("required").is_none());
    assert_eq!(parse(&tools_list()), result);
}

#[test]
fn catalog_has_six_tools_with_valid_schemas() {
    let tools = get_tools();
    assert_eq!(tools.len(), 6);
    for tool in &tools {
        assert!(parse(tool.input_schema.as_bytes()).is_object());
        assert_eq!(Tool::from_name(tool.name).unwrap().definition().name, tool.name);
    }
    assert_eq!(tools[1].description, "Go to definition of symbol at position");
    assert_eq!(tools[2].description, "Find all references to symbol at position");
    assert_eq!(tools[3].description, "List all symbols in a file");
    assert_eq!(tools[4].description, "Get errors and warnings for a file");
    assert_eq!(tools[5].description, "List configured LSP servers");
}

#[test]
fn tools_call_names_the_tool_and_its_arguments() {
    let line = "{\"jsonrpc\":\"2.0\",\"id\":3,\"method\":\"tools/call\",\
                \"params\":{\"name\":\"lsp_hover\",\"arguments\":{\"file\":\"/a.rs\",\"line\":4,\"column\":2}}}";
    match handle_request(&request(line)) {
        Handled::CallTool { id, name, arguments } => {
            assert_eq!(id, b"3".to_vec());
            assert_eq!(name, "lsp_hover");
            let read = tool_arguments(&arguments);
            assert_eq!(read.file, "/a.rs");
            assert_eq!(read.line, 4);
            assert_eq!(read.column, 2);
        }
        other => panic!("no call: {:?}", other),
    }
}

#[test]
fn tools_call_without_name_or_arguments_uses_defaults() {
    match handle_request(&request("{\"jsonrpc\":\"2.0\",\"id\":3,\"method\":\"tools/call\"}")) {
        Handled::CallTool { name, arguments, .. } => {
            assert_eq!(name, "");
            assert_eq!(arguments, b"null".to_vec());
            let read = tool_arguments(&arguments);
            assert_eq!(read.file, "");
            assert_eq!(read.line, 0);
            assert_eq!(read.column, 0);
        }
        other => panic!("no call: {:?}", other),
    }
}

#[test]
fn arguments_of_the_wrong_kind_count_as_missing_and_large_numbers_are_cut() {
    let read = tool_arguments(b"{\"file\":12,\"line\":\"3\",\"column\":-1}");
    assert_eq!(read.file, "");
    assert_eq!(read.line, 0);
    assert_eq!(read.column, 0);
    let read = tool_arguments(b"{\"file\":\"f\",\"line\":4294967297,\"column\":4294967295}");
    assert_eq!(read.line, 1);
    assert_eq!(read.column, u32::MAX);
}

#[test]
fn unknown_method_is_answered_with_method_not_found() {
    let response = reply(handle_request(&request("{\"jsonrpc\":\"2.0\",\"id\":9,\"method\":\"resources/list\"}")));
    assert!(response.result.is_none());
    let error = response.error.clone().unwrap();
    assert_eq!(error.code, -32601);
    assert_eq!(error.message, "Method not found: resources/list");
    let encoded = parse(&response.encode());
    assert_eq!(encoded["jsonrpc"], "2.0");
    assert_eq!(encoded["id"], 9);
    assert_eq!(encoded["error"]["code"], -32601);
    assert_eq!(encoded["error"]["message"], "Method not found: resources/list");
    assert!(encoded.get("result").is_none());
}

#[test]
fn response_is_written_as_json_text() {
    let response = McpResponse::success(b"\"abc\"".to_vec(), b"{\"x\":1}".to_vec());
    assert_eq!(response.encode(), b"{\"jsonrpc\":\"2.0\",\"id\":\"abc\",\"result\":{\"x\":1}}".to_vec());
    let failed = McpResponse {
        id: b"null".to_vec(),
        result: None,
        error: Some(McpError { code: 15, message: "a \"b\"".to_string() }),
    };
    assert_eq!(
        failed.encode(),
        b"{\"jsonrpc\":\"2.0\",\"id\":null,\"error\":{\"code\":15,\"message\":\"a \\\"b\\\"\"}}".to_vec()
    );
}

#[test]
fn tool_names_are_recognized() {
    assert_eq!(Tool::from_name("lsp_hover"), Some(Tool::Hover));
    assert_eq!(Tool::from_name("lsp_definition"), Some(Tool::Definition));
    assert_eq!(Tool::from_name("lsp_references"), Some(Tool::References));
    assert_eq!(Tool::from_name("lsp_symbols"), Some(Tool::Symbols));
    assert_eq!(Tool::from_name("lsp_diagnostics"), Some(Tool::Diagnostics));
    assert_eq!(Tool::from_name("lsp_servers"), Some(Tool::Servers));
    assert_eq!(Tool::from_name("lsp_rename"), None);
    assert_eq!(Tool::from_name("LSP_HOVER"), None);
    assert_eq!(Tool::from_name(""), None);
}

#[test]
fn unknown_tool_says_so() {
    assert_eq!(unknown_tool("lsp_rename"), "Error: Unknown tool: lsp_rename");
    assert!(is_error_text(&unknown_tool("x")));
}

#[test]
fn text_that_starts_with_error_reports_a_failure() {
    assert!(is_error_text("Error: LSP request timed out"));
    assert!(is_error_text("Error:"));
    assert!(!is_error_text("error: lower case"));
    assert!(!is_error_text(" Error: after a space"));
    assert!(!is_error_text("No hover information"));
    assert!(!is_error_text(""));
}

#[test]
fn tool_result_carries_the_text_and_the_error_mark() {
    let result = parse(&tool_result("line one\n\"quoted\""));
    assert_eq!(result["content"][0]["type"], "text");
    assert_eq!(result["content"][0]["text"], "line one\n\"quoted\"");
    assert_eq!(result["isError"], false);
    let failed = parse(&tool_result("Error: LSP not running"));
    assert_eq!(failed["isError"], true);
    assert_eq!(failed["content"][0]["text"], "Error: LSP not running");
}

#[test]
fn finished_tool_call_answers_the_request() {
    let response = finish_tool_call(b"12".to_vec(), "fn main()");
    let encoded = parse(&response.encode());
    assert_eq!(encoded["id"], 12);
    assert_eq!(encoded["result"]["content"][0]["text"], "fn main()");
    assert_eq!(encoded["result"]["isError"], false);
}

#[test]
fn hover_tool_says_text_absence_or_error() {
    let hover = HoverText::Scalar(MarkedText::Plain("docs".to_string()));
    assert_eq!(tool_hover(&Ok(Some(hover))), "docs");
    assert_eq!(tool_hover(&Ok(None)), "No hover information");
    assert_eq!(tool_hover(&Err(ClientError::RequestTimedOut)), "Error: LSP request timed out");
}

#[test]
fn definition_tool_says_places_absence_or_error() {
    let places = vec![Place { uri: "file:///a.rs".to_string(), line: 1, character: 2 }];
    assert_eq!(tool_definition(&Ok(Some(DefinitionTargets::Array(places)))), "file:///a.rs:2:3");
    assert_eq!(tool_definition(&Ok(Some(DefinitionTargets::Link(vec![])))), "");
    assert_eq!(tool_definition(&Ok(None)), "No definition found");
    assert_eq!(
        tool_definition(&Err(ClientError::NoBackendConfigured("file.unknownext".to_string()))),
        "Error: No LSP configured for: file.unknownext"
    );
}

#[test]
fn references_tool_says_places_absence_or_error() {
    let places = vec![Place { uri: "file:///a.rs".to_string(), line: 0, character: 0 }];
    assert_eq!(tool_references(&Ok(Some(places))), "file:///a.rs:1:1");
    assert_eq!(tool_references(&Ok(Some(vec![]))), "No references found");
    assert_eq!(tool_references(&Ok(None)), "No references found");
    assert_eq!(tool_references(&Err(ClientError::TransportClosed)), "Error: LSP not running");
}

#[test]
fn symbols_tool_says_symbols_absence_or_error() {
    assert_eq!(tool_symbols(&Ok(Some(SymbolList::Flat(vec![])))), "");
    assert_eq!(tool_symbols(&Ok(None)), "No symbols found");
    assert_eq!(tool_symbols(&Err(ClientError::SpawnFailed)), "Error: Failed to spawn LSP process");
}

#[test]
fn servers_tool_lists_the_configuration() {
    let server = |command: &str, extensions: &[&str]| ServerConfig {
        command: command.to_string(),
        args: vec![],
        extensions: extensions.iter().map(|e| e.to_string()).collect(),
        root_patterns: vec![],
        timeout_ms: 1,
    };
    let config = Config {
        servers: vec![
            ("rust".to_string(), server("rust-analyzer", &[".rs"])),
            ("web".to_string(), server("tsserver", &[".ts", ".tsx", ".js"])),
            ("none".to_string(), server("idle", &[])),
        ],
    };
    assert_eq!(
        tool_servers(&config),
        "Configured LSP servers:\n  rust -> rust-analyzer (.rs)\n  web -> tsserver (.ts, .tsx, .js)\n  none -> idle ()"
    );
    assert_eq!(tool_servers(&Config { servers: vec![] }), "Configured LSP servers:");
}

#[test]
fn diagnostics_tool_says_none_or_lists_them() {
    assert_eq!(tool_diagnostics(&Ok(vec![])), "No diagnostics");
    assert_eq!(
        tool_diagnostics(&Ok(vec!["{\"a\":1}".to_string(), "{\"b\":2}".to_string()])),
        "[{\"a\":1},{\"b\":2}]"
    );
    assert_eq!(tool_diagnostics(&Ok(vec!["{}".to_string()])), "[{}]");
    assert_eq!(tool_diagnostics(&Err(ClientError::NotInitialized)), "Error: LSP not initialized");
}
