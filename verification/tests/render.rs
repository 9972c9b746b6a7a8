use lsp_mcp_rs::error::ClientError;
use lsp_mcp_rs::render::{
    format_definition, format_error, format_hover, format_references, format_symbols, join_texts,
    DefinitionTargets, FlatSymbol, HoverText, MarkedText, Place, SymbolList, SymbolTree,
};

fn place(uri: &str, line: u32, character: u32) -> Place {
    Place { uri: uri.to_string(), line, character }
}

fn tree(name: &str, kind: &str, range: (u32, u32, u32, u32), children: Vec<SymbolTree>) -> SymbolTree {
    SymbolTree {
        name: name.to_string(),
        kind: kind.to_string(),
        start_line: range.0,
        start_character: range.1,
        end_line: range.2,
        end_character: range.3,
        children,
    }
}

#[test]
fn texts_are_joined_with_the_separator_between_them() {
    let lines = vec!["a".to_string(), "".to_string(), "c".to_string()];
    assert_eq!(join_texts(&lines, ", "), "a, , c");
    assert_eq!(join_texts(&vec!["only".to_string()], "\n"), "only");
    assert_eq!(join_texts(&vec![], "\n"), "");
}

#[test]
fn plain_hover_text_is_shown_as_it_is() {
    let hover = HoverText::Scalar(MarkedText::Plain("fn main()".to_string()));
    assert_eq!(format_hover(&hover), "fn main()");
    assert_eq!(format_hover(&HoverText::Markup("# Title\ntext".to_string())), "# Title\ntext");
}

#[test]
fn code_in_hover_text_is_fenced_with_its_language() {
    let hover = HoverText::Scalar(MarkedText::Code {
        language: "rust".to_string(),
        value: "let x = 1;".to_string(),
    });
    assert_eq!(format_hover(&hover), "```rust\nlet x = 1;\n```");
}

#[test]
fn several_hover_pieces_are_parted_by_an_empty_line() {
    let hover = HoverText::Array(vec![
        MarkedText::Plain("one".to_string()),
        MarkedText::Code { language: "c".to_string(), value: "int x;".to_string() },
        MarkedText::Plain("three".to_string()),
    ]);
    assert_eq!(format_hover(&hover), "one\n\n```c\nint x;\n```\n\nthree");
    assert_eq!(format_hover(&HoverText::Array(vec![])), "");
    assert_eq!(format_hover(&HoverText::Array(vec![MarkedText::Plain("only".to_string())])), "only");
}

#[test]
fn places_are_shown_with_line_and_column_from_one() {
    let places = vec![place("file:///a.rs", 0, 0), place("file:///b.rs", 9, 41)];
    assert_eq!(
        format_definition(&DefinitionTargets::Array(places.clone())),
        "file:///a.rs:1:1\nfile:///b.rs:10:42"
    );
    assert_eq!(
        format_definition(&DefinitionTargets::Link(places)),
        "file:///a.rs:1:1\nfile:///b.rs:10:42"
    );
    assert_eq!(
        format_definition(&DefinitionTargets::Scalar(place("file:///a.rs", 2, 3))),
        "file:///a.rs:3:4"
    );
    assert_eq!(format_definition(&DefinitionTargets::Array(vec![])), "");
}

#[test]
fn largest_line_and_column_do_not_overflow() {
    let places = vec![place("u", u32::MAX, u32::MAX)];
    assert_eq!(format_references(&places), "u:4294967296:4294967296");
}

#[test]
fn references_are_listed_or_said_to_be_none() {
    assert_eq!(format_references(&vec![]), "No references found");
    let places = vec![place("file:///a.rs", 1, 2), place("file:///a.rs", 3, 4)];
    assert_eq!(format_references(&places), "file:///a.rs:2:3\nfile:///a.rs:4:5");
}

#[test]
fn flat_symbols_are_shown_with_kind_and_position() {
    let symbols = SymbolList::Flat(vec![
        FlatSymbol { name: "main".to_string(), kind: "Function".to_string(), line: 0, character: 3 },
        FlatSymbol { name: "Point".to_string(), kind: "Struct".to_string(), line: 11, character: 0 },
    ]);
    assert_eq!(format_symbols(&symbols), "main (Function) at 1:4\nPoint (Struct) at 12:1");
    assert_eq!(format_symbols(&SymbolList::Flat(vec![])), "");
}

#[test]
fn nested_symbols_are_shown_with_dotted_names_and_ranges() {
    let symbols = SymbolList::Nested(vec![
        tree(
            "Point",
            "Struct",
            (0, 0, 9, 1),
            vec![
                tree("new", "Method", (1, 4, 3, 5), vec![tree("x", "Variable", (2, 8, 2, 9), vec![])]),
                tree("len", "Method", (5, 4, 7, 5), vec![]),
            ],
        ),
        tree("main", "Function", (11, 0, 12, 1), vec![]),
    ]);
    assert_eq!(
        format_symbols(&symbols),
        "Point (Struct) 1:1-10:2\n\
         Point.new (Method) 2:5-4:6\n\
         Point.new.x (Variable) 3:9-3:10\n\
         Point.len (Method) 6:5-8:6\n\
         main (Function) 12:1-13:2"
    );
    assert_eq!(format_symbols(&SymbolList::Nested(vec![])), "");
}

#[test]
fn failure_is_shown_as_error_text() {
    assert_eq!(format_error(&ClientError::RequestTimedOut), "Error: LSP request timed out");
    assert_eq!(
        format_error(&ClientError::NoBackendConfigured("/p/file.unknownext".to_string())),
        "Error: No LSP configured for: /p/file.unknownext"
    );
}
