//! The document: an ordered tree of named nodes, each with arguments, properties and,
//! where it has a block, children.

use vstd::prelude::*;
use vstd::string::*;

verus! {

/// What an argument or a property holds.
#[derive(Clone, Debug, PartialEq, Eq)]
pub enum Value {
    /// A text, without the quotes that delimit it in the source.
    String(String),
    /// A number, as the numeral that stands for it in its own base.
    Number(String),
    Bool(bool),
    Null,
}

/// One argument (without a name) or property (with one) of a node.
#[derive(Clone, Debug, PartialEq, Eq)]
pub struct Entry {
    pub name: Option<String>,
    pub value: Value,
}

/// A node of the tree. `children` is `None` where the node has no block at all, and
/// holds an empty list where the block is empty.
#[derive(Debug, PartialEq, Eq)]
pub struct Node {
    pub name: String,
    pub entries: Vec<Entry>,
    pub children: Option<Vec<Node>>,
}

/// A whole document: its top-level nodes in order.
#[derive(Debug, PartialEq, Eq)]
pub struct Document {
    pub nodes: Vec<Node>,
}

/// What an entry of a node is asked for by: its place among the arguments, or the name
/// of a property.
#[derive(Clone, Debug, PartialEq, Eq)]
pub enum NodeKey {
    Index(usize),
    Key(String),
}

/// A `NodeKey` with its name as a sequence of characters.
pub enum KeyView {
    Index(usize),
    Key(Seq<char>),
}

impl View for NodeKey {
    type V = KeyView;

    open spec fn view(&self) -> KeyView {
        match self {
            NodeKey::Index(i) => KeyView::Index(*i),
            NodeKey::Key(k) => KeyView::Key(k@),
        }
    }
}

/// A `Value` with its text as a sequence of characters.
pub enum ValueView {
    String(Seq<char>),
    Number(Seq<char>),
    Bool(bool),
    Null,
}

/// An `Entry` as a mathematical value.
pub struct EntryView {
    pub name: Option<Seq<char>>,
    pub value: ValueView,
}

/// A `Node` as a mathematical value, with all that is below it.
pub struct NodeView {
    pub name: Seq<char>,
    pub entries: Seq<EntryView>,
    pub children: Option<Seq<NodeView>>,
}

impl View for Value {
    type V = ValueView;

    open spec fn view(&self) -> ValueView {
        match self {
            Value::String(s) => ValueView::String(s@),
            Value::Number(n) => ValueView::Number(n@),
            Value::Bool(b) => ValueView::Bool(*b),
            Value::Null => ValueView::Null,
        }
    }
}

/// The view of a name that may be missing.
pub open spec fn name_view(name: Option<String>) -> Option<Seq<char>> {
    match name {
        Some(n) => Some(n@),
        None => None,
    }
}

impl View for Entry {
    type V = EntryView;

    open spec fn view(&self) -> EntryView {
        EntryView { name: name_view(self.name), value: self.value@ }
    }
}

/// The views of a list of entries.
pub open spec fn entries_view(entries: Seq<Entry>) -> Seq<EntryView> {
    Seq::new(entries.len(), |i: int| entries[i]@)
}

/// The view of a node: its name, its entries, and the views of the nodes in its block.
pub open spec fn node_view(node: Node) -> NodeView
    decreases node, 0nat,
{
    NodeView {
        name: node.name@,
        entries: entries_view(node.entries@),
        children: match node.children {
            Some(children) => Some(nodes_view_upto(children@, children@.len())),
            None => None,
        },
    }
}

/// The views of the first `upto` nodes of a list.
pub open spec fn nodes_view_upto(nodes: Seq<Node>, upto: nat) -> Seq<NodeView>
    decreases nodes, upto,
{
    if upto == 0 || upto > nodes.len() {
        Seq::empty()
    } else {
        nodes_view_upto(nodes, (upto - 1) as nat).push(node_view(nodes[upto - 1]))
    }
}

/// The views of a list of nodes.
pub open spec fn nodes_view(nodes: Seq<Node>) -> Seq<NodeView> {
    nodes_view_upto(nodes, nodes.len())
}

impl View for Node {
    type V = NodeView;

    open spec fn view(&self) -> NodeView {
        node_view(*self)
    }
}

impl View for Document {
    type V = Seq<NodeView>;

    open spec fn view(&self) -> Seq<NodeView> {
        nodes_view(self.nodes@)
    }
}

/// The views of the first nodes of a list, one by one.
pub proof fn nodes_view_upto_at(nodes: Seq<Node>, upto: nat)
    requires
        upto <= nodes.len(),
    ensures
        nodes_view_upto(nodes, upto).len() == upto,
        forall|i: int| 0 <= i < upto ==> #[trigger] nodes_view_upto(nodes, upto)[i] == nodes[i]@,
    decreases upto,
{
    if upto > 0 {
        nodes_view_upto_at(nodes, (upto - 1) as nat);
    }
}

/// The views of a list of nodes are the views of its nodes, one by one.
pub proof fn nodes_view_at(nodes: Seq<Node>)
    ensures
        nodes_view(nodes).len() == nodes.len(),
        forall|i: int| 0 <= i < nodes.len() ==> #[trigger] nodes_view(nodes)[i] == nodes[i]@,
{
    nodes_view_upto_at(nodes, nodes.len());
}

/// The index of the first node named `name` at or after `from`.
pub open spec fn first_named(nodes: Seq<NodeView>, name: Seq<char>, from: int) -> Option<int>
    decreases nodes.len() - from,
{
    if from < 0 || from >= nodes.len() {
        None
    } else if nodes[from].name == name {
        Some(from)
    } else {
        first_named(nodes, name, from + 1)
    }
}

/// Whether `entry` is a property named `key`.
pub open spec fn is_property(entry: EntryView, key: Seq<char>) -> bool {
    entry.name == Some(key)
}

/// The index of the last property named `key` among the first `upto` entries.
pub open spec fn last_property(entries: Seq<EntryView>, key: Seq<char>, upto: int) -> Option<int>
    decreases upto,
{
    if upto <= 0 || upto > entries.len() {
        None
    } else if is_property(entries[upto - 1], key) {
        Some(upto - 1)
    } else {
        last_property(entries, key, upto - 1)
    }
}

/// The index of the argument that has `skip` arguments between `from` and itself.
pub open spec fn nth_argument(entries: Seq<EntryView>, skip: nat, from: int) -> Option<int>
    decreases entries.len() - from,
{
    if from < 0 || from >= entries.len() {
        None
    } else if entries[from].name is Some {
        nth_argument(entries, skip, from + 1)
    } else if skip == 0 {
        Some(from)
    } else {
        nth_argument(entries, (skip - 1) as nat, from + 1)
    }
}

/// The index of the entry that `key` asks for: the argument at that place, counting
/// arguments only, or the last property of that name.
pub open spec fn entry_index(entries: Seq<EntryView>, key: KeyView) -> Option<int> {
    match key {
        KeyView::Index(i) => nth_argument(entries, i as nat, 0),
        KeyView::Key(k) => last_property(entries, k, entries.len() as int),
    }
}

/// A value as plain text: a text as it is, without quotes around it; a number as its
/// numeral; `true`, `false` or `null`.
pub open spec fn plain_text(value: ValueView) -> Seq<char> {
    match value {
        ValueView::String(s) => s,
        ValueView::Number(n) => n,
        ValueView::Bool(b) => if b {
            "true"@
        } else {
            "false"@
        },
        ValueView::Null => "null"@,
    }
}

/// The number of arguments among the first `upto` entries.
pub open spec fn arguments_before(entries: Seq<EntryView>, upto: int) -> nat
    decreases upto,
{
    if upto <= 0 || upto > entries.len() {
        0
    } else if entries[upto - 1].name is None {
        arguments_before(entries, upto - 1) + 1
    } else {
        arguments_before(entries, upto - 1)
    }
}

/// What `first_named` finds is a node of that name with no such node between `from`
/// and itself; it finds none only where there is none from `from` on.
pub proof fn first_named_is_first(nodes: Seq<NodeView>, name: Seq<char>, from: int)
    requires
        0 <= from,
    ensures
        match first_named(nodes, name, from) {
            Some(k) => from <= k < nodes.len() && nodes[k].name == name && forall|j: int|
                from <= j < k ==> (#[trigger] nodes[j]).name != name,
            None => forall|j: int| from <= j < nodes.len() ==> (#[trigger] nodes[j]).name != name,
        },
    decreases nodes.len() - from,
{
    if from < nodes.len() && nodes[from].name != name {
        first_named_is_first(nodes, name, from + 1);
    }
}

/// What `last_property` finds is a property of that name with no such property after
/// it; it finds none only where there is none.
pub proof fn last_property_is_last(entries: Seq<EntryView>, key: Seq<char>, upto: int)
    requires
        upto <= entries.len(),
    ensures
        match last_property(entries, key, upto) {
            Some(k) => 0 <= k < upto && is_property(entries[k], key) && forall|j: int|
                k < j < upto ==> !is_property(#[trigger] entries[j], key),
            None => forall|j: int| 0 <= j < upto ==> !is_property(#[trigger] entries[j], key),
        },
    decreases upto,
{
    if upto > 0 && !is_property(entries[upto - 1], key) {
        last_property_is_last(entries, key, upto - 1);
    }
}

/// What `nth_argument` finds is an argument with `skip` arguments between `from` and
/// itself; it finds none only where fewer than `skip + 1` arguments stand from `from` on.
pub proof fn nth_argument_counts(entries: Seq<EntryView>, skip: nat, from: int)
    requires
        0 <= from <= entries.len(),
    ensures
        match nth_argument(entries, skip, from) {
            Some(k) => from <= k < entries.len() && entries[k].name is None
                && arguments_before(entries, k) == arguments_before(entries, from) + skip,
            None => arguments_before(entries, entries.len() as int) <= arguments_before(
                entries,
                from,
            ) + skip,
        },
    decreases entries.len() - from,
{
    if from < entries.len() {
        if entries[from].name is Some {
            nth_argument_counts(entries, skip, from + 1);
        } else if skip > 0 {
            nth_argument_counts(entries, (skip - 1) as nat, from + 1);
        }
    }
}

/// Whether `found` is the node, or the lack of one, that `model` names by its index.
pub open spec fn node_at(found: Option<&Node>, nodes: Seq<NodeView>, model: Option<int>) -> bool {
    match found {
        Some(node) => model matches Some(i) && node@ == nodes[i],
        None => model is None,
    }
}

/// Whether `found` is the entry, or the lack of one, that `model` names by its index.
pub open spec fn entry_at(
    found: Option<&Entry>,
    entries: Seq<EntryView>,
    model: Option<int>,
) -> bool {
    match found {
        Some(entry) => model matches Some(i) && entry@ == entries[i],
        None => model is None,
    }
}

/// The first node of `nodes` that is named `name`.
pub fn find_node<'a>(nodes: &'a Vec<Node>, name: &str) -> (found: Option<&'a Node>)
    ensures
        node_at(found, nodes_view(nodes@), first_named(nodes_view(nodes@), name@, 0)),
{
    let wanted = String::from_str(name);
    let mut i: usize = 0;
    proof {
        nodes_view_at(nodes@);
    }
    while i < nodes.len()
        invariant
            i <= nodes.len(),
            wanted@ == name@,
            nodes_view(nodes@).len() == nodes@.len(),
            forall|k: int| 0 <= k < nodes@.len() ==> #[trigger] nodes_view(nodes@)[k] == nodes@[k]@,
            first_named(nodes_view(nodes@), name@, 0) == first_named(
                nodes_view(nodes@),
                name@,
                i as int,
            ),
        decreases nodes.len() - i,
    {
        if nodes[i].name == wanted {
            return Some(&nodes[i]);
        }
        i += 1;
    }
    None
}

impl Value {
    /// The value as plain text.
    pub fn plain_text(&self) -> (text: String)
        ensures
            text@ == plain_text(self@),
    {
        match self {
            Value::String(s) => s.clone(),
            Value::Number(n) => n.clone(),
            Value::Bool(b) => {
                if *b {
                    String::from_str("true")
                } else {
                    String::from_str("false")
                }
            },
            Value::Null => String::from_str("null"),
        }
    }
}

impl Document {
    /// The first top-level node named `name`.
    pub fn get(&self, name: &str) -> (found: Option<&Node>)
        ensures
            node_at(found, self@, first_named(self@, name@, 0)),
    {
        find_node(&self.nodes, name)
    }
}

impl Node {
    /// The argument at place `index`, counting arguments only.
    pub fn argument(&self, index: usize) -> (found: Option<&Entry>)
        ensures
            entry_at(found, self@.entries, nth_argument(self@.entries, index as nat, 0)),
    {
        let mut skip: usize = index;
        let mut i: usize = 0;
        while i < self.entries.len()
            invariant
                i <= self.entries.len(),
                self@.entries == entries_view(self.entries@),
                nth_argument(self@.entries, index as nat, 0) == nth_argument(
                    self@.entries,
                    skip as nat,
                    i as int,
                ),
            decreases self.entries.len() - i,
        {
            if self.entries[i].name.is_none() {
                if skip == 0 {
                    return Some(&self.entries[i]);
                }
                skip -= 1;
            }
            i += 1;
        }
        None
    }

    /// The last property named `key`.
    pub fn property(&self, key: &str) -> (found: Option<&Entry>)
        ensures
            entry_at(
                found,
                self@.entries,
                last_property(self@.entries, key@, self@.entries.len() as int),
            ),
    {
        let wanted = String::from_str(key);
        let mut found: Option<&Entry> = None;
        let mut i: usize = 0;
        while i < self.entries.len()
            invariant
                i <= self.entries.len(),
                wanted@ == key@,
                self@.entries == entries_view(self.entries@),
                entry_at(found, self@.entries, last_property(self@.entries, key@, i as int)),
            decreases self.entries.len() - i,
        {
            let named = match &self.entries[i].name {
                Some(n) => *n == wanted,
                None => false,
            };
            if named {
                found = Some(&self.entries[i]);
            }
            i += 1;
        }
        found
    }

    /// The entry that `key` asks for.
    pub fn get(&self, key: &NodeKey) -> (found: Option<&Entry>)
        ensures
            entry_at(found, self@.entries, entry_index(self@.entries, key@)),
    {
        match key {
            NodeKey::Index(i) => self.argument(*i),
            NodeKey::Key(k) => self.property(k.as_str()),
        }
    }
}

} // verus!
