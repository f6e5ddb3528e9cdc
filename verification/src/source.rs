//! Reading a document from KDL text, with the kdl crate.

use vstd::prelude::*;
use vstd::string::*;
use kdl::{KdlDocument, KdlEntry, KdlError, KdlNode, KdlValue};
use crate::document::{
    entries_view, name_view, nodes_view, nodes_view_at, Document, Entry, EntryView, Node, NodeView,
    Value,
};
use crate::guard::{is_readable, readable};

verus! {

/// kdl's `KdlDocument`: a document, or the block of children of a node.
#[verifier::external_type_specification]
#[verifier::external_body]
pub struct ExKdlDocument(kdl::KdlDocument);

/// kdl's `KdlNode`.
#[verifier::external_type_specification]
#[verifier::external_body]
pub struct ExKdlNode(kdl::KdlNode);

/// kdl's `KdlEntry`: an argument or a property of a node.
#[verifier::external_type_specification]
#[verifier::external_body]
pub struct ExKdlEntry(kdl::KdlEntry);

/// kdl's `KdlError`: why a text did not parse.
#[verifier::external_type_specification]
#[verifier::external_body]
pub struct ExKdlError(kdl::KdlError);

/// Why a text is no document.
#[derive(Clone, Debug, PartialEq, Eq)]
pub struct SyntaxError {
    /// What the parser expected, in its own words.
    pub message: String,
}

/// The nodes that kdl reads from a text, `None` where the text is no document.
pub uninterp spec fn kdl_parse(text: Seq<char>) -> Option<Seq<NodeView>>;

/// The nodes of the document that a text stands for: what kdl reads from it, where it
/// can be given the text.
pub open spec fn document_of(text: Seq<char>) -> Option<Seq<NodeView>> {
    if is_readable(text) {
        kdl_parse(text)
    } else {
        None
    }
}

/// What a kdl document, or a block of children, holds: its nodes in order.
pub uninterp spec fn kdl_document(doc: KdlDocument) -> Seq<NodeView>;

/// What a kdl node holds: its name, its entries in order, and its block of children.
pub uninterp spec fn kdl_node(node: KdlNode) -> NodeView;

/// What a kdl entry holds: the name of a property, and the value.
pub uninterp spec fn kdl_entry(entry: KdlEntry) -> EntryView;

/// What a list of kdl nodes holds.
pub open spec fn kdl_nodes(nodes: Seq<KdlNode>) -> Seq<NodeView> {
    Seq::new(nodes.len(), |i: int| kdl_node(nodes[i]))
}

/// What a list of kdl entries holds.
pub open spec fn kdl_entries(entries: Seq<KdlEntry>) -> Seq<EntryView> {
    Seq::new(entries.len(), |i: int| kdl_entry(entries[i]))
}

/// Parses a text with kdl's `KdlDocument::from_str`. What the parser reads from a text
/// depends on the text alone; `kdl_parse` names it.
///
/// A reserved word as the whole name of a type annotation, `(true)` for one, is an
/// error that the parser words by cutting as many bytes as the word has from the text
/// behind the word. The text behind it must have them, and must have a character
/// boundary there: the parser panics otherwise. `is_readable` leaves these texts out,
/// and no other: a parenthesis in a quoted text, a raw text or a comment opens no
/// annotation, and a parenthesis elsewhere with a reserved word as its whole name is
/// an error in any case.
#[verifier::external_body]
fn parse_kdl(text: &str) -> (parsed: Result<KdlDocument, KdlError>)
    requires
        is_readable(text@),
    ensures
        match parsed {
            Ok(doc) => kdl_parse(text@) == Some(kdl_document(doc)),
            Err(_) => kdl_parse(text@) is None,
        },
{
    text.parse::<KdlDocument>()
}

/// The message of a parse error, as kdl's `Display` for `KdlError` words it.
#[verifier::external_body]
fn error_message(error: &KdlError) -> (message: String) {
    error.to_string()
}

/// The nodes of a document or of a block of children, in order: `KdlDocument::nodes`.
#[verifier::external_body]
fn document_nodes(doc: &KdlDocument) -> (nodes: &[KdlNode])
    ensures
        kdl_nodes(nodes@) == kdl_document(*doc),
{
    doc.nodes()
}

/// The name of a node: `KdlNode::name`, then `KdlIdentifier::value`.
#[verifier::external_body]
fn node_name(node: &KdlNode) -> (name: String)
    ensures
        name@ == kdl_node(*node).name,
{
    node.name().value().to_string()
}

/// The arguments and properties of a node, in order: `KdlNode::entries`.
#[verifier::external_body]
fn node_entries(node: &KdlNode) -> (entries: &[KdlEntry])
    ensures
        kdl_entries(entries@) == kdl_node(*node).entries,
{
    node.entries()
}

/// The block of children of a node, `None` where it has none: `KdlNode::children`.
#[verifier::external_body]
fn node_children(node: &KdlNode) -> (children: Option<&KdlDocument>)
    ensures
        match children {
            Some(block) => kdl_node(*node).children == Some(kdl_document(*block)),
            None => kdl_node(*node).children is None,
        },
{
    node.children()
}

/// The name of a property, `None` for an argument: `KdlEntry::name`, then
/// `KdlIdentifier::value`.
#[verifier::external_body]
fn entry_name(entry: &KdlEntry) -> (name: Option<String>)
    ensures
        name_view(name) == kdl_entry(*entry).name,
{
    match entry.name() {
        Some(name) => Some(name.value().to_string()),
        None => None,
    }
}

/// The value of an entry: `KdlEntry::value`. A text keeps its characters, whether it
/// was written quoted or raw; a number is kept as kdl's `Display` writes it.
#[verifier::external_body]
fn entry_value(entry: &KdlEntry) -> (value: Value)
    ensures
        value@ == kdl_entry(*entry).value,
{
    match entry.value() {
        KdlValue::String(s) | KdlValue::RawString(s) => Value::String(s.clone()),
        KdlValue::Bool(b) => Value::Bool(*b),
        KdlValue::Null => Value::Null,
        number @ (KdlValue::Base2(_)
        | KdlValue::Base8(_)
        | KdlValue::Base10(_)
        | KdlValue::Base10Float(_)
        | KdlValue::Base16(_)) => Value::Number(number.to_string()),
    }
}

/// Copies the entries of a node.
fn convert_entries(entries: &[KdlEntry]) -> (out: Vec<Entry>)
    ensures
        entries_view(out@) == kdl_entries(entries@),
{
    let mut out: Vec<Entry> = Vec::new();
    let mut i: usize = 0;
    while i < entries.len()
        invariant
            i <= entries.len(),
            out@.len() == i,
            forall|k: int| 0 <= k < i ==> (#[trigger] out@[k])@ == kdl_entry(entries@[k]),
        decreases entries.len() - i,
    {
        out.push(Entry { name: entry_name(&entries[i]), value: entry_value(&entries[i]) });
        i += 1;
    }
    assert(entries_view(out@) =~= kdl_entries(entries@));
    out
}

/// Copies nodes with all that is below them.
fn convert_nodes(nodes: &[KdlNode]) -> (out: Vec<Node>)
    ensures
        nodes_view(out@) == kdl_nodes(nodes@),
    decreases kdl_nodes(nodes@),
{
    let mut out: Vec<Node> = Vec::new();
    let mut i: usize = 0;
    while i < nodes.len()
        invariant
            i <= nodes.len(),
            out@.len() == i,
            forall|k: int| 0 <= k < i ==> (#[trigger] out@[k])@ == kdl_node(nodes@[k]),
        decreases nodes.len() - i,
    {
        let node = &nodes[i];
        assert(kdl_nodes(nodes@)[i as int] == kdl_node(*node));
        let children = match node_children(node) {
            Some(block) => {
                let below = document_nodes(block);
                proof {
                    let forest = kdl_nodes(nodes@);
                    let tree = forest[i as int];
                    let blocks = tree.children;
                    assert(blocks == Some(kdl_nodes(below@)));
                    assert(decreases_to!(forest => tree));
                    assert(decreases_to!(tree => blocks));
                    assert(decreases_to!(blocks => blocks->Some_0));
                }
                Some(convert_nodes(below))
            },
            None => None,
        };
        let copy = Node {
            name: node_name(node),
            entries: convert_entries(node_entries(node)),
            children,
        };
        assert(copy@ == kdl_node(*node));
        out.push(copy);
        i += 1;
    }
    proof {
        nodes_view_at(out@);
        assert(nodes_view(out@) =~= kdl_nodes(nodes@));
    }
    out
}

/// Reads a document from KDL text: the nodes that the parser reads from it, or why the
/// text is no document. A text that the parser cannot be given is no document either.
pub fn parse_document(text: &str) -> (parsed: Result<Document, SyntaxError>)
    ensures
        match parsed {
            Ok(doc) => document_of(text@) == Some(doc@),
            Err(_) => document_of(text@) is None,
        },
{
    if !readable(text) {
        return Err(
            SyntaxError {
                message: String::from_str("Expected a type annotation that is no reserved word."),
            },
        );
    }
    match parse_kdl(text) {
        Ok(doc) => Ok(Document { nodes: convert_nodes(document_nodes(&doc)) }),
        Err(error) => Err(SyntaxError { message: error_message(&error) }),
    }
}

} // verus!
