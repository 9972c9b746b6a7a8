//! What a backend answered, as plain values, and the text that the caller
//! of a tool gets to read for it.
//!
//! Lines and columns are counted from 0 by backends and from 1 in the
//! text.

use vstd::prelude::*;
use vstd::string::StringExecFns;
use crate::decimal::{decimal, write_decimal};
use crate::error::{ClientError, ErrorView};

verus! {

/// A piece of hover text: plain, or code in a named language.
#[derive(Debug, Clone, PartialEq, Eq)]
pub enum MarkedText {
    Plain(String),
    Code { language: String, value: String },
}

/// What a backend says about a position.
#[derive(Debug, Clone, PartialEq, Eq)]
pub enum HoverText {
    /// One piece.
    Scalar(MarkedText),
    /// Several pieces.
    Array(Vec<MarkedText>),
    /// Marked-up text, taken as it is.
    Markup(String),
}

/// A place in a document: where a definition or a reference starts.
#[derive(Debug, Clone, PartialEq, Eq)]
pub struct Place {
    pub uri: String,
    pub line: u32,
    pub character: u32,
}

/// Where a symbol is defined, in the shape in which the backend said it.
#[derive(Debug, Clone, PartialEq, Eq)]
pub enum DefinitionTargets {
    /// One location.
    Scalar(Place),
    /// Several locations.
    Array(Vec<Place>),
    /// Several links, each with the place where its target's name starts.
    Link(Vec<Place>),
}

/// A symbol of a document in a flat list.
#[derive(Debug, Clone, PartialEq, Eq)]
pub struct FlatSymbol {
    pub name: String,
    /// The kind of symbol, in words.
    pub kind: String,
    pub line: u32,
    pub character: u32,
}

/// A symbol of a document with the symbols that it holds.
#[derive(Debug, PartialEq, Eq)]
pub struct SymbolTree {
    pub name: String,
    /// The kind of symbol, in words.
    pub kind: String,
    pub start_line: u32,
    pub start_character: u32,
    pub end_line: u32,
    pub end_character: u32,
    pub children: Vec<SymbolTree>,
}

/// A symbol of a tree in a list in which every symbol stands before the
/// symbols that it holds.
#[derive(Debug, Clone, PartialEq, Eq)]
pub struct SymbolNode {
    pub name: String,
    /// The kind of symbol, in words.
    pub kind: String,
    pub start_line: u32,
    pub start_character: u32,
    pub end_line: u32,
    pub end_character: u32,
    /// The index of the symbol that holds this one, for a symbol that is
    /// not at the top.
    pub parent: Option<usize>,
}

/// The symbols of a document.
#[derive(Debug, PartialEq, Eq)]
pub enum SymbolList {
    Flat(Vec<FlatSymbol>),
    Nested(Vec<SymbolTree>),
}

/// The symbol at the top of `tree` as it stands in a list, held by the
/// symbol at index `parent`.
pub open spec fn node_of(tree: SymbolTree, parent: Option<usize>) -> SymbolNode {
    SymbolNode {
        name: tree.name,
        kind: tree.kind,
        start_line: tree.start_line,
        start_character: tree.start_character,
        end_line: tree.end_line,
        end_character: tree.end_character,
        parent,
    }
}

/// The symbols of the trees `trees[from..]` as a list: each symbol, then
/// the symbols that it holds, then the next tree. The trees are held by
/// the symbol at index `parent`, and the first symbol gets the index
/// `base`.
pub open spec fn flat_from(
    trees: Seq<SymbolTree>,
    from: int,
    parent: Option<usize>,
    base: int,
) -> Seq<SymbolNode>
    decreases trees, trees.len() - from,
{
    if from < 0 || from >= trees.len() {
        Seq::empty()
    } else {
        let inner = flat_from(trees[from].children@, 0, Some(base as usize), base + 1);
        seq![node_of(trees[from], parent)] + inner + flat_from(
            trees,
            from + 1,
            parent,
            base + 1 + inner.len(),
        )
    }
}

/// The symbols of the trees `trees` as a list, each before the symbols
/// that it holds and with the index of the symbol that holds it.
pub open spec fn flat_nodes(trees: Seq<SymbolTree>) -> Seq<SymbolNode> {
    flat_from(trees, 0, None, 0)
}

/// The decimal numeral of `n` as text.
pub open spec fn number(n: nat) -> Seq<char> {
    decimal(n).map_values(|b: u8| b as char)
}

/// The texts `lines`, with `separator` between each two.
pub open spec fn join_with(lines: Seq<Seq<char>>, separator: Seq<char>) -> Seq<char>
    decreases lines.len(),
{
    if lines.len() == 0 {
        Seq::empty()
    } else if lines.len() == 1 {
        lines[0]
    } else {
        join_with(lines.drop_last(), separator) + separator + lines.last()
    }
}

/// A piece of hover text as it is shown: plain text as it is, code inside
/// a fence that names its language.
pub open spec fn marked_text(piece: MarkedText) -> Seq<char> {
    match piece {
        MarkedText::Plain(text) => text@,
        MarkedText::Code { language, value } => "```"@ + language@ + "\n"@ + value@ + "\n```"@,
    }
}

/// Hover text as it is shown: several pieces with an empty line between
/// each two.
pub open spec fn hover_text(hover: HoverText) -> Seq<char> {
    match hover {
        HoverText::Scalar(piece) => marked_text(piece),
        HoverText::Array(pieces) => join_with(
            pieces@.map_values(|piece: MarkedText| marked_text(piece)),
            "\n\n"@,
        ),
        HoverText::Markup(text) => text@,
    }
}

/// A position as it is shown: line and column, counted from 1, with a
/// colon between them.
pub open spec fn position_text(line: u32, character: u32) -> Seq<char> {
    number((line + 1) as nat) + ":"@ + number((character + 1) as nat)
}

/// A place as it is shown: the URI, the line and the column.
pub open spec fn place_text(place: Place) -> Seq<char> {
    place.uri@ + ":"@ + position_text(place.line, place.character)
}

/// Places as they are shown: one to a line.
pub open spec fn places_text(places: Seq<Place>) -> Seq<char> {
    join_with(places.map_values(|place: Place| place_text(place)), "\n"@)
}

/// The places of a definition, whatever its shape.
pub open spec fn definition_places(targets: DefinitionTargets) -> Seq<Place> {
    match targets {
        DefinitionTargets::Scalar(place) => seq![place],
        DefinitionTargets::Array(places) => places@,
        DefinitionTargets::Link(places) => places@,
    }
}

/// A definition as it is shown: its places, one to a line.
pub open spec fn definition_text(targets: DefinitionTargets) -> Seq<char> {
    places_text(definition_places(targets))
}

/// References as they are shown: one to a line, or a sentence that says
/// that there are none.
pub open spec fn references_text(places: Seq<Place>) -> Seq<char> {
    if places.len() == 0 {
        "No references found"@
    } else {
        places_text(places)
    }
}

/// A symbol of a flat list as it is shown.
pub open spec fn flat_symbol_text(symbol: FlatSymbol) -> Seq<char> {
    symbol.name@ + " ("@ + symbol.kind@ + ") at "@ + position_text(symbol.line, symbol.character)
}

/// The name of the symbol at index `i` of a tree together with the names
/// of the symbols that hold it, outermost first, with dots between them. A
/// parent that does not stand before its child counts as none.
pub open spec fn dotted_name(nodes: Seq<SymbolNode>, i: int) -> Seq<char>
    decreases i,
{
    if i < 0 || i >= nodes.len() {
        Seq::empty()
    } else {
        match nodes[i].parent {
            Some(p) => if p < i {
                dotted_name(nodes, p as int) + "."@ + nodes[i].name@
            } else {
                nodes[i].name@
            },
            None => nodes[i].name@,
        }
    }
}

/// A symbol of a tree as it is shown: its dotted name, its kind, and the
/// range that it spans.
pub open spec fn node_text(nodes: Seq<SymbolNode>, i: int) -> Seq<char> {
    dotted_name(nodes, i) + " ("@ + nodes[i].kind@ + ") "@ + position_text(
        nodes[i].start_line,
        nodes[i].start_character,
    ) + "-"@ + position_text(nodes[i].end_line, nodes[i].end_character)
}

/// The symbols of a document as they are shown: one to a line.
pub open spec fn symbols_text(symbols: SymbolList) -> Seq<char> {
    match symbols {
        SymbolList::Flat(list) => join_with(
            list@.map_values(|symbol: FlatSymbol| flat_symbol_text(symbol)),
            "\n"@,
        ),
        SymbolList::Nested(trees) => nodes_text(flat_nodes(trees@)),
    }
}

/// The symbols of a list as they are shown: one to a line.
pub open spec fn nodes_text(nodes: Seq<SymbolNode>) -> Seq<char> {
    join_with(Seq::new(nodes.len(), |i: int| node_text(nodes, i)), "\n"@)
}

/// What the caller of a tool reads for a failure.
pub open spec fn error_text(error: ErrorView) -> Seq<char> {
    "Error: "@ + error.message()
}

/// Appends the decimal numeral of `n` to `out`.
fn push_number(out: &mut String, n: u64)
    ensures
        final(out)@ == old(out)@ + number(n as nat),
{
    let digits = write_decimal(n);
    let mut i: usize = 0;
    while i < digits.len()
        invariant
            0 <= i <= digits.len(),
            digits@ == decimal(n as nat),
            out@ == old(out)@ + number(n as nat).subrange(0, i as int),
        decreases digits.len() - i,
    {
        out.push(digits[i] as char);
        assert(out@ =~= old(out)@ + number(n as nat).subrange(0, i + 1));
        i += 1;
    }
    assert(number(n as nat).subrange(0, i as int) =~= number(n as nat));
}

/// Appends a position, as it is shown, to `out`.
fn push_position(out: &mut String, line: u32, character: u32)
    ensures
        final(out)@ == old(out)@ + position_text(line, character),
{
    push_number(out, line as u64 + 1);
    out.append(":");
    push_number(out, character as u64 + 1);
    assert(out@ =~= old(out)@ + position_text(line, character));
}

/// Whether every symbol of `nodes`, a list whose first symbol has the
/// index `base`, is held by `outer` or by a symbol of the list that stands
/// before it.
pub open spec fn parents_precede(nodes: Seq<SymbolNode>, base: int, outer: Option<usize>) -> bool {
    forall|i: int|
        0 <= i < nodes.len() ==> (#[trigger] nodes[i]).parent == outer || (
        nodes[i].parent matches Some(p) && base <= p < base + i)
}

proof fn lemma_flat_parents(trees: Seq<SymbolTree>, from: int, parent: Option<usize>, base: int)
    requires
        0 <= from <= trees.len(),
        0 <= base,
        base + flat_from(trees, from, parent, base).len() <= usize::MAX,
    ensures
        parents_precede(flat_from(trees, from, parent, base), base, parent),
    decreases trees, trees.len() - from,
{
    if from < trees.len() {
        let whole = flat_from(trees, from, parent, base);
        let inner = flat_from(trees[from].children@, 0, Some(base as usize), base + 1);
        let after = base + 1 + inner.len();
        let rest = flat_from(trees, from + 1, parent, after);
        assert(whole.len() == 1 + inner.len() + rest.len());
        lemma_flat_parents(trees[from].children@, 0, Some(base as usize), base + 1);
        lemma_flat_parents(trees, from + 1, parent, after);
        assert forall|i: int| 0 <= i < whole.len() implies (#[trigger] whole[i]).parent == parent || (
        whole[i].parent matches Some(p) && base <= p < base + i) by {
            if i == 0 {
                assert(whole[0] == node_of(trees[from], parent));
            } else if i < 1 + inner.len() {
                assert(whole[i] == inner[i - 1]);
            } else {
                assert(whole[i] == rest[i - 1 - inner.len()]);
            }
        }
    }
}

/// In the list that a tree is laid out as, every symbol that is held
/// stands after the symbol that holds it, and the symbols at the top are
/// held by none.
pub proof fn lemma_parents_stand_before(trees: Seq<SymbolTree>, i: int)
    requires
        flat_nodes(trees).len() <= usize::MAX,
        0 <= i < flat_nodes(trees).len(),
    ensures
        flat_nodes(trees)[i].parent matches Some(p) ==> p < i,
{
    lemma_flat_parents(trees, 0, None, 0);
}

/// Joins the texts `lines`, with `separator` between each two.
pub fn join_texts(lines: &Vec<String>, separator: &str) -> (out: String)
    ensures
        out@ == join_with(lines@.map_values(|line: String| line@), separator@),
{
    let mut out = String::new();
    let ghost shown = lines@.map_values(|line: String| line@);
    let mut i: usize = 0;
    while i < lines.len()
        invariant
            0 <= i <= lines.len(),
            shown == lines@.map_values(|line: String| line@),
            out@ == join_with(shown.subrange(0, i as int), separator@),
        decreases lines.len() - i,
    {
        let ghost before = out@;
        if i > 0 {
            out.append(separator);
        }
        out.append(lines[i].as_str());
        proof {
            let head = shown.subrange(0, i as int);
            let next = shown.subrange(0, i + 1);
            assert(next.drop_last() =~= head);
            assert(next.last() == lines@[i as int]@);
            if i == 0 {
                assert(before =~= Seq::<char>::empty());
                assert(out@ =~= next[0]);
            }
        }
        i += 1;
    }
    assert(shown.subrange(0, i as int) =~= shown);
    out
}

/// Gives a piece of hover text as it is shown.
fn marked_string(piece: &MarkedText) -> (out: String)
    ensures
        out@ == marked_text(*piece),
{
    let mut out = String::new();
    match piece {
        MarkedText::Plain(text) => {
            out.append(text.as_str());
            assert(out@ =~= marked_text(*piece));
        },
        MarkedText::Code { language, value } => {
            out.append("```");
            out.append(language.as_str());
            out.append("\n");
            out.append(value.as_str());
            out.append("\n```");
            assert(out@ =~= marked_text(*piece));
        },
    }
    out
}

/// Gives hover text as it is shown.
pub fn format_hover(hover: &HoverText) -> (out: String)
    ensures
        out@ == hover_text(*hover),
{
    match hover {
        HoverText::Scalar(piece) => marked_string(piece),
        HoverText::Array(pieces) => {
            let mut lines: Vec<String> = Vec::new();
            let mut i: usize = 0;
            while i < pieces.len()
                invariant
                    0 <= i <= pieces.len(),
                    lines@.len() == i,
                    forall|j: int| 0 <= j < i ==> (#[trigger] lines@[j])@ == marked_text(pieces@[j]),
                decreases pieces.len() - i,
            {
                lines.push(marked_string(&pieces[i]));
                i += 1;
            }
            assert(lines@.map_values(|line: String| line@) =~= pieces@.map_values(
                |piece: MarkedText| marked_text(piece),
            ));
            join_texts(&lines, "\n\n")
        },
        HoverText::Markup(text) => text.clone(),
    }
}

/// Gives a place as it is shown.
fn place_string(place: &Place) -> (out: String)
    ensures
        out@ == place_text(*place),
{
    let mut out = String::new();
    out.append(place.uri.as_str());
    out.append(":");
    push_position(&mut out, place.line, place.character);
    assert(out@ =~= place_text(*place));
    out
}

/// Gives places as they are shown, one to a line.
fn format_places(places: &Vec<Place>) -> (out: String)
    ensures
        out@ == places_text(places@),
{
    let mut lines: Vec<String> = Vec::new();
    let mut i: usize = 0;
    while i < places.len()
        invariant
            0 <= i <= places.len(),
            lines@.len() == i,
            forall|j: int| 0 <= j < i ==> (#[trigger] lines@[j])@ == place_text(places@[j]),
        decreases places.len() - i,
    {
        lines.push(place_string(&places[i]));
        i += 1;
    }
    assert(lines@.map_values(|line: String| line@) =~= places@.map_values(
        |place: Place| place_text(place),
    ));
    join_texts(&lines, "\n")
}

/// Gives a definition as it is shown: its places, one to a line, whatever
/// the shape in which the backend said them.
pub fn format_definition(targets: &DefinitionTargets) -> (out: String)
    ensures
        out@ == definition_text(*targets),
{
    match targets {
        DefinitionTargets::Scalar(place) => {
            let out = place_string(place);
            proof {
                let shown = seq![*place].map_values(|place: Place| place_text(place));
                assert(shown.len() == 1);
                assert(shown[0] == place_text(*place));
            }
            out
        },
        DefinitionTargets::Array(places) => format_places(places),
        DefinitionTargets::Link(places) => format_places(places),
    }
}

/// Gives references as they are shown, one to a line, or says that there
/// are none.
pub fn format_references(places: &Vec<Place>) -> (out: String)
    ensures
        out@ == references_text(places@),
{
    if places.len() == 0 {
        "No references found".to_owned()
    } else {
        format_places(places)
    }
}

/// Gives the symbols of a flat list as they are shown.
fn format_flat(list: &Vec<FlatSymbol>) -> (out: String)
    ensures
        out@ == symbols_text(SymbolList::Flat(*list)),
{
    let mut lines: Vec<String> = Vec::new();
    let mut i: usize = 0;
    while i < list.len()
        invariant
            0 <= i <= list.len(),
            lines@.len() == i,
            forall|j: int| 0 <= j < i ==> (#[trigger] lines@[j])@ == flat_symbol_text(list@[j]),
        decreases list.len() - i,
    {
        let mut line = String::new();
        line.append(list[i].name.as_str());
        line.append(" (");
        line.append(list[i].kind.as_str());
        line.append(") at ");
        push_position(&mut line, list[i].line, list[i].character);
        assert(line@ =~= flat_symbol_text(list@[i as int]));
        lines.push(line);
        i += 1;
    }
    assert(lines@.map_values(|line: String| line@) =~= list@.map_values(
        |symbol: FlatSymbol| flat_symbol_text(symbol),
    ));
    join_texts(&lines, "\n")
}

/// Appends to `out` the symbols of the trees `trees`, which the symbol at
/// index `parent` holds: each symbol, then the symbols that it holds.
fn flatten_into(trees: &Vec<SymbolTree>, parent: Option<usize>, out: &mut Vec<SymbolNode>)
    ensures
        final(out)@ == old(out)@ + flat_from(trees@, 0, parent, old(out)@.len() as int),
    decreases trees,
{
    let mut i: usize = 0;
    while i < trees.len()
        invariant
            0 <= i <= trees.len(),
            out@ + flat_from(trees@, i as int, parent, out@.len() as int) == old(out)@ + flat_from(
                trees@,
                0,
                parent,
                old(out)@.len() as int,
            ),
        decreases trees.len() - i,
    {
        let tree = &trees[i];
        let ghost before = out@;
        let ghost inner = flat_from(
            tree.children@,
            0,
            Some(before.len() as usize),
            before.len() as int + 1,
        );
        let index = out.len();
        out.push(
            SymbolNode {
                name: tree.name.clone(),
                kind: tree.kind.clone(),
                start_line: tree.start_line,
                start_character: tree.start_character,
                end_line: tree.end_line,
                end_character: tree.end_character,
                parent,
            },
        );
        flatten_into(&tree.children, Some(index), out);
        proof {
            assert(out@ =~= before + seq![node_of(*tree, parent)] + inner);
            assert(before + flat_from(trees@, i as int, parent, before.len() as int) =~= out@
                + flat_from(trees@, i + 1, parent, out@.len() as int));
        }
        i += 1;
    }
    assert(flat_from(trees@, i as int, parent, out@.len() as int) =~= Seq::<SymbolNode>::empty());
}

/// Lays the trees `trees` out as a list: each symbol before the symbols
/// that it holds, with the index of the symbol that holds it.
pub fn flatten(trees: &Vec<SymbolTree>) -> (nodes: Vec<SymbolNode>)
    ensures
        nodes@ == flat_nodes(trees@),
{
    let mut nodes: Vec<SymbolNode> = Vec::new();
    flatten_into(trees, None, &mut nodes);
    nodes
}

/// Gives the symbols of a list as they are shown.
fn format_nodes(nodes: &Vec<SymbolNode>) -> (out: String)
    ensures
        out@ == nodes_text(nodes@),
{
    let mut names: Vec<String> = Vec::new();
    let mut lines: Vec<String> = Vec::new();
    let mut i: usize = 0;
    while i < nodes.len()
        invariant
            0 <= i <= nodes.len(),
            names@.len() == i,
            lines@.len() == i,
            forall|j: int| 0 <= j < i ==> (#[trigger] names@[j])@ == dotted_name(nodes@, j),
            forall|j: int| 0 <= j < i ==> (#[trigger] lines@[j])@ == node_text(nodes@, j),
        decreases nodes.len() - i,
    {
        let node = &nodes[i];
        let mut name = String::new();
        match node.parent {
            Some(p) => {
                if p < i {
                    name.append(names[p].as_str());
                    name.append(".");
                }
            },
            None => {},
        }
        name.append(node.name.as_str());
        assert(name@ =~= dotted_name(nodes@, i as int));
        let mut line = String::new();
        line.append(name.as_str());
        line.append(" (");
        line.append(node.kind.as_str());
        line.append(") ");
        push_position(&mut line, node.start_line, node.start_character);
        line.append("-");
        push_position(&mut line, node.end_line, node.end_character);
        assert(line@ =~= node_text(nodes@, i as int));
        names.push(name);
        lines.push(line);
        i += 1;
    }
    assert(lines@.map_values(|line: String| line@) =~= Seq::new(
        nodes@.len(),
        |i: int| node_text(nodes@, i),
    ));
    join_texts(&lines, "\n")
}

/// Gives the symbols of a document as they are shown, one to a line. Of a
/// tree each symbol is shown before the symbols that it holds, under its
/// own name after the names of those that hold it.
pub fn format_symbols(symbols: &SymbolList) -> (out: String)
    ensures
        out@ == symbols_text(*symbols),
{
    match symbols {
        SymbolList::Flat(list) => format_flat(list),
        SymbolList::Nested(trees) => format_nodes(&flatten(trees)),
    }
}

/// Gives what the caller of a tool reads for a failure.
pub fn format_error(error: &ClientError) -> (out: String)
    ensures
        out@ == error_text(error@),
{
    let mut out = "Error: ".to_owned();
    out.append(error.message().as_str());
    out
}

} // verus!
