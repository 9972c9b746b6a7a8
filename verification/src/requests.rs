//! The parameters of the requests and notifications that a backend gets,
//! as the JSON text that `lsp_types` and `serde_json` write for them.
//!
//! Each kind of parameters is built from plain values and handed out as
//! JSON text. The text that addresses a document or a position is spelled
//! out here. What the text of the larger parameters is, character by
//! character, is decided by the two crates; it only has a name, so that
//! the requests built from it can be stated exactly.

use lsp_types::{ClientCapabilities, InitializeParams, TextDocumentClientCapabilities};
use vstd::prelude::*;
use vstd::string::StringSliceAdditionalSpecFns;
use crate::decimal::decimal;
use crate::protocol::{json_string, payload_view};
use crate::uri::{uri_fits, valid_uri};

verus! {

/// What a client says that it can do with text documents.
#[derive(Clone, Copy, Debug, PartialEq, Eq, Structural)]
pub struct Capabilities {
    pub hover: bool,
    pub definition: bool,
    pub references: bool,
    pub document_symbol: bool,
    pub completion: bool,
    pub rename: bool,
    pub formatting: bool,
    pub publish_diagnostics: bool,
}

/// The capabilities that this client declares: all of them.
pub open spec fn declared_capabilities() -> Capabilities {
    Capabilities {
        hover: true,
        definition: true,
        references: true,
        document_symbol: true,
        completion: true,
        rename: true,
        formatting: true,
        publish_diagnostics: true,
    }
}

/// Gives the capabilities that this client declares.
pub fn capabilities() -> (out: Capabilities)
    ensures
        out == declared_capabilities(),
{
    Capabilities {
        hover: true,
        definition: true,
        references: true,
        document_symbol: true,
        completion: true,
        rename: true,
        formatting: true,
        publish_diagnostics: true,
    }
}

/// The JSON text of the parameters of `initialize`: the process
/// identifier, the root URI, and the capabilities, each of which is
/// declared at its default where it is declared. `None` where `root_uri`
/// is no URI.
pub uninterp spec fn initialize_params_json(
    process_id: u32,
    root_uri: Seq<char>,
    capabilities: Capabilities,
) -> Option<Seq<u8>>;

/// The JSON text of the parameters of `textDocument/didOpen`. `None` where
/// `uri` is no URI.
pub uninterp spec fn did_open_params_json(
    uri: Seq<char>,
    language_id: Seq<char>,
    version: i32,
    text: Seq<char>,
) -> Option<Seq<u8>>;

/// The member that names a document: `textDocument`, with the URI as a
/// JSON string inside.
pub open spec fn document_member(uri: Seq<char>) -> Seq<u8> {
    "\"textDocument\":{\"uri\":".spec_bytes() + json_string(uri) + "}".spec_bytes()
}

/// The member that names a position: `position`, with the line and the
/// character in decimal.
pub open spec fn position_member(line: u32, character: u32) -> Seq<u8> {
    "\"position\":{\"line\":".spec_bytes() + decimal(line as nat)
        + ",\"character\":".spec_bytes() + decimal(character as nat) + "}".spec_bytes()
}

/// The JSON text that addresses a position in a document.
pub open spec fn position_params(uri: Seq<char>, line: u32, character: u32) -> Seq<u8> {
    "{".spec_bytes() + document_member(uri) + ",".spec_bytes() + position_member(line, character)
        + "}".spec_bytes()
}

/// The JSON text of the parameters of `textDocument/hover`: the document
/// and the position. `None` where `uri` is no URI.
pub open spec fn hover_params_json(uri: Seq<char>, line: u32, character: u32) -> Option<Seq<u8>> {
    if valid_uri(uri) {
        Some(position_params(uri, line, character))
    } else {
        None
    }
}

/// The JSON text of the parameters of `textDocument/definition`: the
/// document and the position. `None` where `uri` is no URI.
pub open spec fn definition_params_json(uri: Seq<char>, line: u32, character: u32) -> Option<
    Seq<u8>,
> {
    if valid_uri(uri) {
        Some(position_params(uri, line, character))
    } else {
        None
    }
}

/// The JSON text of the parameters of `textDocument/references`: the
/// document, the position, and whether the declaration is asked for too.
/// `None` where `uri` is no URI.
pub open spec fn references_params_json(
    uri: Seq<char>,
    line: u32,
    character: u32,
    include_declaration: bool,
) -> Option<Seq<u8>> {
    if valid_uri(uri) {
        Some(
            "{".spec_bytes() + document_member(uri) + ",".spec_bytes() + position_member(
                line,
                character,
            ) + ",\"context\":{\"includeDeclaration\":".spec_bytes() + (if include_declaration {
                "true".spec_bytes()
            } else {
                "false".spec_bytes()
            }) + "}}".spec_bytes(),
        )
    } else {
        None
    }
}

/// The JSON text of the parameters of `textDocument/documentSymbol`: the
/// document. `None` where `uri` is no URI.
pub open spec fn document_symbol_params_json(uri: Seq<char>) -> Option<Seq<u8>> {
    if valid_uri(uri) {
        Some("{".spec_bytes() + document_member(uri) + "}".spec_bytes())
    } else {
        None
    }
}

/// `serde_json::to_vec` of an `lsp_types::InitializeParams` that holds the
/// process identifier, the root URI, and, for each of the eight
/// capabilities that is asked for, that capability at its default; every
/// other field is at its default. The capabilities come one by one, in
/// the order of the fields of `Capabilities`.
#[verifier::external_body]
#[allow(deprecated)]
fn write_initialize_params(
    process_id: u32,
    root_uri: &str,
    h: bool,
    d: bool,
    r: bool,
    s: bool,
    c: bool,
    n: bool,
    f: bool,
    p: bool,
) -> (out: Option<Vec<u8>>)
    requires
        uri_fits(root_uri@),
    ensures
        payload_view(out) == initialize_params_json(
            process_id,
            root_uri@,
            (Capabilities {
                hover: h,
                definition: d,
                references: r,
                document_symbol: s,
                completion: c,
                rename: n,
                formatting: f,
                publish_diagnostics: p,
            }),
        ),
{
    let text_document = TextDocumentClientCapabilities {
        hover: h.then_some(Default::default()), definition: d.then_some(Default::default()),
        references: r.then_some(Default::default()), document_symbol: s.then_some(Default::default()),
        completion: c.then_some(Default::default()), rename: n.then_some(Default::default()),
        formatting: f.then_some(Default::default()), publish_diagnostics: p.then_some(Default::default()),
        ..Default::default()
    };
    let capabilities = ClientCapabilities { text_document: Some(text_document), ..Default::default() };
    let params = InitializeParams { process_id: Some(process_id), root_uri: Some(root_uri.parse().ok()?), capabilities, ..Default::default() };
    serde_json::to_vec(&params).ok()
}

/// Writes the parameters of `initialize` for the process `process_id`,
/// the root `root_uri` and the capabilities `capabilities`.
pub(crate) fn initialize_params(process_id: u32, root_uri: &str, capabilities: Capabilities) -> (out:
    Option<Vec<u8>>)
    requires
        uri_fits(root_uri@),
    ensures
        payload_view(out) == initialize_params_json(process_id, root_uri@, capabilities),
{
    write_initialize_params(
        process_id,
        root_uri,
        capabilities.hover,
        capabilities.definition,
        capabilities.references,
        capabilities.document_symbol,
        capabilities.completion,
        capabilities.rename,
        capabilities.formatting,
        capabilities.publish_diagnostics,
    )
}

/// `serde_json::to_vec` of an `lsp_types::DidOpenTextDocumentParams` whose
/// document has the given URI, language identifier, version and text.
#[verifier::external_body]
pub(crate) fn did_open_params(uri: &str, language_id: &str, version: i32, text: &str) -> (out:
    Option<Vec<u8>>)
    requires
        uri_fits(uri@),
    ensures
        payload_view(out) == did_open_params_json(uri@, language_id@, version, text@),
{
    let text_document = lsp_types::TextDocumentItem {
        uri: uri.parse().ok()?,
        language_id: language_id.to_string(),
        version,
        text: text.to_string(),
    };
    serde_json::to_vec(&lsp_types::DidOpenTextDocumentParams { text_document }).ok()
}

/// `serde_json::to_vec` of an `lsp_types::HoverParams` for the position
/// `line`, `character` in the document `uri`, with no progress token. The
/// URI is parsed first, which fails where the text is none. What is
/// written are the members `textDocument` and `position`, in that order;
/// the token, being absent, is left out.
#[verifier::external_body]
pub(crate) fn hover_params(uri: &str, line: u32, character: u32) -> (out: Option<Vec<u8>>)
    requires
        uri_fits(uri@),
    ensures
        payload_view(out) == hover_params_json(uri@, line, character),
{
    let at = lsp_types::TextDocumentPositionParams {
        text_document: lsp_types::TextDocumentIdentifier { uri: uri.parse().ok()? },
        position: lsp_types::Position { line, character },
    };
    let params = lsp_types::HoverParams {
        text_document_position_params: at,
        work_done_progress_params: Default::default(),
    };
    serde_json::to_vec(&params).ok()
}

/// `serde_json::to_vec` of an `lsp_types::GotoDefinitionParams` for the
/// position `line`, `character` in the document `uri`, with no progress or
/// partial-result token. The URI is parsed first, which fails where the
/// text is none. What is written are the members `textDocument` and
/// `position`, in that order; the tokens, being absent, are left out.
#[verifier::external_body]
pub(crate) fn definition_params(uri: &str, line: u32, character: u32) -> (out: Option<Vec<u8>>)
    requires
        uri_fits(uri@),
    ensures
        payload_view(out) == definition_params_json(uri@, line, character),
{
    let at = lsp_types::TextDocumentPositionParams {
        text_document: lsp_types::TextDocumentIdentifier { uri: uri.parse().ok()? },
        position: lsp_types::Position { line, character },
    };
    let params = lsp_types::GotoDefinitionParams {
        text_document_position_params: at,
        work_done_progress_params: Default::default(),
        partial_result_params: Default::default(),
    };
    serde_json::to_vec(&params).ok()
}

/// `serde_json::to_vec` of an `lsp_types::ReferenceParams` for the
/// position `line`, `character` in the document `uri`, with the given
/// context and no progress or partial-result token. The URI is parsed
/// first, which fails where the text is none. What is written are the
/// members `textDocument`, `position` and `context`, in that order; the
/// tokens, being absent, are left out.
#[verifier::external_body]
pub(crate) fn references_params(
    uri: &str,
    line: u32,
    character: u32,
    include_declaration: bool,
) -> (out: Option<Vec<u8>>)
    requires
        uri_fits(uri@),
    ensures
        payload_view(out) == references_params_json(uri@, line, character, include_declaration),
{
    let at = lsp_types::TextDocumentPositionParams {
        text_document: lsp_types::TextDocumentIdentifier { uri: uri.parse().ok()? },
        position: lsp_types::Position { line, character },
    };
    let params = lsp_types::ReferenceParams {
        text_document_position: at,
        work_done_progress_params: Default::default(),
        partial_result_params: Default::default(),
        context: lsp_types::ReferenceContext { include_declaration },
    };
    serde_json::to_vec(&params).ok()
}

/// `serde_json::to_vec` of an `lsp_types::DocumentSymbolParams` for the
/// document `uri`, with no progress or partial-result token. The URI is
/// parsed first, which fails where the text is none. What is written is
/// the member `textDocument`; the tokens, being absent, are left out.
#[verifier::external_body]
pub(crate) fn document_symbol_params(uri: &str) -> (out: Option<Vec<u8>>)
    requires
        uri_fits(uri@),
    ensures
        payload_view(out) == document_symbol_params_json(uri@),
{
    let params = lsp_types::DocumentSymbolParams {
        text_document: lsp_types::TextDocumentIdentifier { uri: uri.parse().ok()? },
        work_done_progress_params: Default::default(),
        partial_result_params: Default::default(),
    };
    serde_json::to_vec(&params).ok()
}

} // verus!
