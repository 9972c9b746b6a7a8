use lsp_mcp_rs::error::ClientError;
use lsp_mcp_rs::mcp::{tool_definition, tool_hover, tool_symbols};
use lsp_mcp_rs::render::{
    flatten, DefinitionTargets, FlatSymbol, HoverText, MarkedText, Place, SymbolList, SymbolNode,
    SymbolTree,
};
use lsp_mcp_rs::results::{definition_result, hover_result, references_result, symbols_result};

fn json(text: &str) -> Option<Vec<u8>> {
    Some(text.as_bytes().to_vec())
}

fn place(uri: &str, line: u32, character: u32) -> Place {
    Place { uri: uri.to_string(), line, character }
}

#[test]
fn absent_result_reads_as_nothing() {
    assert_eq!(hover_result(None).unwrap(), None);
    assert_eq!(definition_result(None).unwrap(), None);
    assert_eq!(references_result(None).unwrap(), None);
    assert_eq!(symbols_result(None).unwrap(), None);
}

#[test]
fn null_result_reads_as_nothing() {
    assert_eq!(hover_result(json("null")).unwrap(), None);
    assert_eq!(definition_result(json("null")).unwrap(), None);
    assert_eq!(references_result(json("null")).unwrap(), None);
}

#[test]
fn hover_with_plain_text_is_read() {
    let hover = hover_result(json("{\"contents\":\"some docs\"}")).unwrap().unwrap();
    assert_eq!(hover, HoverText::Scalar(MarkedText::Plain("some docs".to_string())));
}

#[test]
fn hover_with_code_is_read() {
    let hover =
        hover_result(json("{\"contents\":{\"language\":\"rust\",\"value\":\"fn f()\"}}")).unwrap().unwrap();
    assert_eq!(
        hover,
        HoverText::Scalar(MarkedText::Code { language: "rust".to_string(), value: "fn f()".to_string() })
    );
}

#[test]
fn hover_with_several_pieces_is_read() {
    let hover = hover_result(json(
        "{\"contents\":[\"one\",{\"language\":\"c\",\"value\":\"int x;\"}],\"range\":null}",
    ))
    .unwrap()
    .unwrap();
    assert_eq!(
        hover,
        HoverText::Array(vec![
            MarkedText::Plain("one".to_string()),
            MarkedText::Code { language: "c".to_string(), value: "int x;".to_string() },
        ])
    );
}

#[test]
fn hover_with_markup_is_read() {
    let hover =
        hover_result(json("{\"contents\":{\"kind\":\"markdown\",\"value\":\"# Title\"}}")).unwrap().unwrap();
    assert_eq!(hover, HoverText::Markup("# Title".to_string()));
    assert_eq!(tool_hover(&Ok(Some(hover))), "# Title");
}

#[test]
fn result_of_another_shape_fails_to_decode() {
    assert!(matches!(hover_result(json("{\"nothing\":1}")), Err(ClientError::DecodeFailed)));
    assert!(matches!(hover_result(json("not json")), Err(ClientError::DecodeFailed)));
    assert!(matches!(definition_result(json("17")), Err(ClientError::DecodeFailed)));
    assert!(matches!(references_result(json("{\"uri\":\"file:///a\"}")), Err(ClientError::DecodeFailed)));
    assert!(matches!(symbols_result(json("\"text\"")), Err(ClientError::DecodeFailed)));
    assert!(matches!(symbols_result(json("null")), Err(ClientError::DecodeFailed)));
}

const RANGE: &str = "{\"start\":{\"line\":4,\"character\":2},\"end\":{\"line\":4,\"character\":9}}";

#[test]
fn single_definition_is_read() {
    let text = format!("{{\"uri\":\"file:///proj/a.rs\",\"range\":{}}}", RANGE);
    let places = definition_result(json(&text)).unwrap().unwrap();
    assert_eq!(places, DefinitionTargets::Scalar(place("file:///proj/a.rs", 4, 2)));
    assert_eq!(tool_definition(&Ok(Some(places))), "file:///proj/a.rs:5:3");
}

#[test]
fn several_definitions_are_read() {
    let text = format!(
        "[{{\"uri\":\"file:///a.rs\",\"range\":{0}}},{{\"uri\":\"file:///b.rs\",\"range\":{0}}}]",
        RANGE
    );
    let places = definition_result(json(&text)).unwrap().unwrap();
    assert_eq!(
        places,
        DefinitionTargets::Array(vec![place("file:///a.rs", 4, 2), place("file:///b.rs", 4, 2)])
    );
    assert_eq!(definition_result(json("[]")).unwrap().unwrap(), DefinitionTargets::Array(vec![]));
}

#[test]
fn definition_links_are_read_by_their_targets() {
    let text = format!(
        "[{{\"targetUri\":\"file:///t.rs\",\"targetRange\":{0},\
          \"targetSelectionRange\":{{\"start\":{{\"line\":7,\"character\":1}},\"end\":{{\"line\":7,\"character\":3}}}}}}]",
        RANGE
    );
    let places = definition_result(json(&text)).unwrap().unwrap();
    assert_eq!(places, DefinitionTargets::Link(vec![place("file:///t.rs", 7, 1)]));
}

#[test]
fn references_are_read() {
    let text = format!(
        "[{{\"uri\":\"file:///a.rs\",\"range\":{0}}},{{\"uri\":\"file:///a.rs\",\"range\":{0}}}]",
        RANGE
    );
    let places = references_result(json(&text)).unwrap().unwrap();
    assert_eq!(places.len(), 2);
    assert_eq!(places[1], place("file:///a.rs", 4, 2));
    assert_eq!(references_result(json("[]")).unwrap().unwrap(), vec![]);
}

#[test]
fn flat_symbols_are_read_with_their_kind_in_words() {
    let text = format!(
        "[{{\"name\":\"main\",\"kind\":12,\"location\":{{\"uri\":\"file:///a.rs\",\"range\":{}}}}}]",
        RANGE
    );
    let symbols = symbols_result(json(&text)).unwrap().unwrap();
    assert_eq!(
        symbols,
        SymbolList::Flat(vec![FlatSymbol {
            name: "main".to_string(),
            kind: "Function".to_string(),
            line: 4,
            character: 2,
        }])
    );
    assert_eq!(tool_symbols(&Ok(Some(symbols))), "main (Function) at 5:3");
    assert_eq!(symbols_result(json("[]")).unwrap().unwrap(), SymbolList::Flat(vec![]));
}

#[test]
fn nested_symbols_are_read_each_before_its_children() {
    let symbol = |name: &str, kind: u32, children: &str| {
        format!(
            "{{\"name\":\"{}\",\"kind\":{},\"range\":{2},\"selectionRange\":{2},\"children\":[{3}]}}",
            name, kind, RANGE, children
        )
    };
    let x = symbol("x", 13, "");
    let new = symbol("new", 6, &x);
    let len = symbol("len", 6, "");
    let point = symbol("Point", 23, &format!("{},{}", new, len));
    let main = symbol("main", 12, "");
    let text = format!("[{},{}]", point, main);
    let symbols = symbols_result(json(&text)).unwrap().unwrap();
    let tree = |name: &str, kind: &str, children: Vec<SymbolTree>| SymbolTree {
        name: name.to_string(),
        kind: kind.to_string(),
        start_line: 4,
        start_character: 2,
        end_line: 4,
        end_character: 9,
        children,
    };
    let expected = vec![
        tree(
            "Point",
            "Struct",
            vec![
                tree("new", "Method", vec![tree("x", "Variable", vec![])]),
                tree("len", "Method", vec![]),
            ],
        ),
        tree("main", "Function", vec![]),
    ];
    let node = |name: &str, kind: &str, parent: Option<usize>| SymbolNode {
        name: name.to_string(),
        kind: kind.to_string(),
        start_line: 4,
        start_character: 2,
        end_line: 4,
        end_character: 9,
        parent,
    };
    assert_eq!(
        flatten(&expected),
        vec![
            node("Point", "Struct", None),
            node("new", "Method", Some(0)),
            node("x", "Variable", Some(1)),
            node("len", "Method", Some(0)),
            node("main", "Function", None),
        ]
    );
    assert_eq!(flatten(&vec![]), vec![]);
    assert_eq!(symbols, SymbolList::Nested(expected));
    assert_eq!(
        tool_symbols(&Ok(Some(symbols))),
        "Point (Struct) 5:3-5:10\n\
         Point.new (Method) 5:3-5:10\n\
         Point.new.x (Variable) 5:3-5:10\n\
         Point.len (Method) 5:3-5:10\n\
         main (Function) 5:3-5:10"
    );
}
