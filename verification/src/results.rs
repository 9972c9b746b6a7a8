//! Reading what a backend answered: from the JSON text of a result to the
//! plain values that are shown to the caller.
//!
//! The shapes of the results are those of `lsp_types`, which reads them.
//! What it reads is handed on value for value and shape for shape; what a
//! given text reads as only has a name here. A result of more bytes than
//! the largest `i32` is not read: the URIs in it could not be parsed.

use lsp_types::{
    DocumentSymbolResponse, GotoDefinitionResponse, Hover, HoverContents, Location, MarkedString,
    Position, Uri,
};
use vstd::prelude::*;
use crate::error::{ClientError, ErrorView};
use crate::render::{
    DefinitionTargets, FlatSymbol, HoverText, MarkedText, Place, SymbolList, SymbolTree,
};

verus! {

/// What the JSON text `json` reads as where it is the result of a hover
/// request: the hover text, `None` inside for `null`, `None` outside for
/// text of another shape.
pub uninterp spec fn hover_of_json(json: Seq<u8>) -> Option<Option<HoverText>>;

/// What the JSON text `json` reads as where it is the result of a
/// definition request: the definition in its shape, `None` inside for
/// `null`, `None` outside for text of another shape.
pub uninterp spec fn definition_of_json(json: Seq<u8>) -> Option<Option<DefinitionTargets>>;

/// What the JSON text `json` reads as where it is the result of a
/// references request: the places where the references start, `None`
/// inside for `null`, `None` outside for text of another shape.
pub uninterp spec fn references_of_json(json: Seq<u8>) -> Option<Option<Vec<Place>>>;

/// The symbols that the JSON text `json` reads as where it is a flat list
/// of symbols.
pub uninterp spec fn flat_symbols_of_json(json: Seq<u8>) -> Option<Vec<FlatSymbol>>;

/// The symbols that the JSON text `json` reads as where it is a list of
/// symbol trees.
pub uninterp spec fn symbol_trees_of_json(json: Seq<u8>) -> Option<Vec<SymbolTree>>;

/// A symbol of `lsp_types` with the symbols that it holds, carried as it
/// is.
#[verifier::external_type_specification]
#[verifier::external_body]
pub struct ExDocumentSymbol(lsp_types::DocumentSymbol);

/// `serde_json::from_slice` for an optional `lsp_types::Hover`. Its
/// contents are handed on piece for piece.
#[verifier::external_body]
fn decode_hover(json: &[u8]) -> (out: Option<Option<HoverText>>)
    ensures
        out == hover_of_json(json@),
{
    let marked = |s: MarkedString| match s {
        MarkedString::String(text) => MarkedText::Plain(text),
        MarkedString::LanguageString(code) => MarkedText::Code { language: code.language, value: code.value },
    };
    let hover: Option<Hover> = serde_json::from_slice(json).ok()?;
    Some(hover.map(|h| match h.contents {
        HoverContents::Scalar(s) => HoverText::Scalar(marked(s)),
        HoverContents::Array(a) => HoverText::Array(a.into_iter().map(marked).collect()),
        HoverContents::Markup(m) => HoverText::Markup(m.value),
    }))
}

/// `serde_json::from_slice` for an optional
/// `lsp_types::GotoDefinitionResponse`, shape for shape. Of a location its
/// URI and the start of its range are handed on, of a link its target's
/// URI and the start of the target's selection range. The text is not to
/// have more bytes than the largest `i32`, which the URIs in it may not
/// exceed.
#[verifier::external_body]
fn decode_definition(json: &[u8]) -> (out: Option<Option<DefinitionTargets>>)
    requires
        json@.len() <= i32::MAX,
    ensures
        out == definition_of_json(json@),
{
    let place = |uri: &Uri, at: Position| Place { uri: uri.as_str().to_string(), line: at.line, character: at.character };
    let found: Option<GotoDefinitionResponse> = serde_json::from_slice(json).ok()?;
    Some(found.map(|d| match d {
        GotoDefinitionResponse::Scalar(l) => DefinitionTargets::Scalar(place(&l.uri, l.range.start)),
        GotoDefinitionResponse::Array(a) => DefinitionTargets::Array(a.iter().map(|l| place(&l.uri, l.range.start)).collect()),
        GotoDefinitionResponse::Link(a) => DefinitionTargets::Link(a.iter().map(|l| place(&l.target_uri, l.target_selection_range.start)).collect()),
    }))
}

/// `serde_json::from_slice` for an optional list of `lsp_types::Location`.
/// Of each location its URI and the start of its range are handed on.
#[verifier::external_body]
fn decode_references(json: &[u8]) -> (out: Option<Option<Vec<Place>>>)
    requires
        json@.len() <= i32::MAX,
    ensures
        out == references_of_json(json@),
{
    let found: Option<Vec<Location>> = serde_json::from_slice(json).ok()?;
    Some(found.map(|list| list.iter().map(|l| Place { uri: l.uri.as_str().to_string(), line: l.range.start.line, character: l.range.start.character }).collect()))
}

/// `serde_json::from_slice` for an `lsp_types::DocumentSymbolResponse`,
/// where it reads a flat list. Of each symbol its name, its kind as
/// `lsp_types` writes it for debugging, and the start of its range are
/// handed on.
#[verifier::external_body]
fn decode_flat_symbols(json: &[u8]) -> (out: Option<Vec<FlatSymbol>>)
    requires
        json@.len() <= i32::MAX,
    ensures
        out == flat_symbols_of_json(json@),
{
    let DocumentSymbolResponse::Flat(list) = serde_json::from_slice(json).ok()? else { return None };
    Some(list.iter().map(|s| FlatSymbol { name: s.name.clone(), kind: format!("{:?}", s.kind), line: s.location.range.start.line, character: s.location.range.start.character }).collect())
}

/// The fields of an `lsp_types::DocumentSymbol`, handed on one for one:
/// its name, its kind as `lsp_types` writes it for debugging, its range,
/// and each of its children in the same way. It serves
/// `decode_symbol_trees` alone, which hands it the symbols that
/// `serde_json` has read; their depth is bounded by the reader's.
#[verifier::external_body]
fn symbol_tree(s: &lsp_types::DocumentSymbol) -> (tree: SymbolTree) {
    SymbolTree {
        name: s.name.clone(),
        kind: format!("{:?}", s.kind),
        start_line: s.range.start.line,
        start_character: s.range.start.character,
        end_line: s.range.end.line,
        end_character: s.range.end.character,
        children: s.children.iter().flatten().map(symbol_tree).collect(),
    }
}

/// `serde_json::from_slice` for an `lsp_types::DocumentSymbolResponse`,
/// where it reads a list of trees. The symbols are handed on one for one,
/// each with its children.
#[verifier::external_body]
fn decode_symbol_trees(json: &[u8]) -> (out: Option<Vec<SymbolTree>>)
    requires
        json@.len() <= i32::MAX,
    ensures
        out == symbol_trees_of_json(json@),
{
    let DocumentSymbolResponse::Nested(trees) = serde_json::from_slice(json).ok()? else { return None };
    Some(trees.iter().map(symbol_tree).collect())
}

/// What a result that reads as `read` gives its caller: nothing where
/// there was no result, the value that was read, or `DecodeFailed` where
/// the result has another shape or more bytes than the largest `i32`.
pub open spec fn read_result<T>(result: Option<Seq<u8>>, read: spec_fn(Seq<u8>) -> Option<Option<T>>) -> Result<
    Option<T>,
    ErrorView,
> {
    match result {
        None => Ok(None),
        Some(json) => if json.len() > i32::MAX {
            Err(ErrorView::DecodeFailed)
        } else {
            match read(json) {
                Some(value) => Ok(value),
                None => Err(ErrorView::DecodeFailed),
            }
        },
    }
}

/// The symbols that the JSON text `json` reads as: a flat list where it
/// reads as one, else a tree.
pub open spec fn symbols_of_json(json: Seq<u8>) -> Option<Option<SymbolList>> {
    match flat_symbols_of_json(json) {
        Some(list) => Some(Some(SymbolList::Flat(list))),
        None => match symbol_trees_of_json(json) {
            Some(trees) => Some(Some(SymbolList::Nested(trees))),
            None => None,
        },
    }
}

/// Reads the result of a hover request. No result is no hover text, which
/// is no error.
pub fn hover_result(result: Option<Vec<u8>>) -> (out: Result<Option<HoverText>, ClientError>)
    ensures
        match out {
            Ok(hover) => read_result(
                crate::protocol::payload_view(result),
                |json: Seq<u8>| hover_of_json(json),
            ) == Ok::<Option<HoverText>, ErrorView>(hover),
            Err(e) => read_result(
                crate::protocol::payload_view(result),
                |json: Seq<u8>| hover_of_json(json),
            ) == Err::<Option<HoverText>, ErrorView>(e@),
        },
{
    match result {
        None => Ok(None),
        Some(json) => if json.len() > 0x7fff_ffff {
            Err(ClientError::DecodeFailed)
        } else {
            match decode_hover(json.as_slice()) {
                Some(hover) => Ok(hover),
                None => Err(ClientError::DecodeFailed),
            }
        },
    }
}

/// Reads the result of a definition request.
pub fn definition_result(result: Option<Vec<u8>>) -> (out: Result<
    Option<DefinitionTargets>,
    ClientError,
>)
    ensures
        match out {
            Ok(places) => read_result(
                crate::protocol::payload_view(result),
                |json: Seq<u8>| definition_of_json(json),
            ) == Ok::<Option<DefinitionTargets>, ErrorView>(places),
            Err(e) => read_result(
                crate::protocol::payload_view(result),
                |json: Seq<u8>| definition_of_json(json),
            ) == Err::<Option<DefinitionTargets>, ErrorView>(e@),
        },
{
    match result {
        None => Ok(None),
        Some(json) => if json.len() > 0x7fff_ffff {
            Err(ClientError::DecodeFailed)
        } else {
            match decode_definition(json.as_slice()) {
                Some(places) => Ok(places),
                None => Err(ClientError::DecodeFailed),
            }
        },
    }
}

/// Reads the result of a references request.
pub fn references_result(result: Option<Vec<u8>>) -> (out: Result<Option<Vec<Place>>, ClientError>)
    ensures
        match out {
            Ok(places) => read_result(
                crate::protocol::payload_view(result),
                |json: Seq<u8>| references_of_json(json),
            ) == Ok::<Option<Vec<Place>>, ErrorView>(places),
            Err(e) => read_result(
                crate::protocol::payload_view(result),
                |json: Seq<u8>| references_of_json(json),
            ) == Err::<Option<Vec<Place>>, ErrorView>(e@),
        },
{
    match result {
        None => Ok(None),
        Some(json) => if json.len() > 0x7fff_ffff {
            Err(ClientError::DecodeFailed)
        } else {
            match decode_references(json.as_slice()) {
                Some(places) => Ok(places),
                None => Err(ClientError::DecodeFailed),
            }
        },
    }
}

/// Reads the result of a document-symbols request: a flat list of symbols
/// or a tree of them.
pub fn symbols_result(result: Option<Vec<u8>>) -> (out: Result<Option<SymbolList>, ClientError>)
    ensures
        match out {
            Ok(symbols) => read_result(
                crate::protocol::payload_view(result),
                |json: Seq<u8>| symbols_of_json(json),
            ) == Ok::<Option<SymbolList>, ErrorView>(symbols),
            Err(e) => read_result(
                crate::protocol::payload_view(result),
                |json: Seq<u8>| symbols_of_json(json),
            ) == Err::<Option<SymbolList>, ErrorView>(e@),
        },
{
    let json = match result {
        None => {
            return Ok(None);
        },
        Some(json) => json,
    };
    if json.len() > 0x7fff_ffff {
        return Err(ClientError::DecodeFailed);
    }
    match decode_flat_symbols(json.as_slice()) {
        Some(list) => Ok(Some(SymbolList::Flat(list))),
        None => match decode_symbol_trees(json.as_slice()) {
            Some(trees) => Ok(Some(SymbolList::Nested(trees))),
            None => Err(ClientError::DecodeFailed),
        },
    }
}

} // verus!
