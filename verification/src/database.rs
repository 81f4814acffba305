//! The graph store: one tree of nodes, owned through its root.
use crate::database::node::{
    first_match, is_json_of, node_at, with_child, with_node_at, Node, NodeView, Type,
};
use crate::json::{json_compact, json_pretty, value_to_string, value_to_string_pretty};
use serde_json::Value;
use vstd::prelude::*;

pub mod facts;
pub mod node;

verus! {

pub struct Database {
    root: Node,
}

impl View for Database {
    type V = NodeView;

    /// The value of a store is the value of its root.
    closed spec fn view(&self) -> NodeView {
        self.root@
    }
}

impl Database {
    pub fn new(root: Node) -> (db: Database)
        ensures
            db@ == root@,
    {
        Database { root }
    }

    /// The root, to be written through.
    pub fn get_root(&mut self) -> (r: &mut Node)
        ensures
            r@ == old(self)@,
            final(self)@ == final(r)@,
    {
        &mut self.root
    }

    /// The root, to be read.
    pub fn root(&self) -> (r: &Node)
        ensures
            r@ == self@,
    {
        &self.root
    }

    /// The first node in pre-order whose kind and value are the given ones:
    /// the root before its children, and a child's whole subtree before the
    /// next child. `None` where the tree holds no such node. What is written
    /// through the result is written at that place of the tree.
    pub fn search(&mut self, kind: Type, value: String) -> (r: Option<&mut Node>)
        ensures
            r is Some == first_match(old(self)@, kind, value@) is Some,
            r is Some ==> r->0@ == node_at(old(self)@, first_match(old(self)@, kind, value@)->0),
            r is Some ==> final(self)@ == with_node_at(
                old(self)@,
                first_match(old(self)@, kind, value@)->0,
                final(r->0)@,
            ),
            r is None ==> final(self)@ == old(self)@,
    {
        let pattern = Node::new(kind, value);
        self.root.find(&pattern)
    }

    /// The tree as a JSON document.
    pub fn to_json_value(&self) -> (r: Value)
        ensures
            is_json_of(r, self@),
    {
        self.root.to_json_value()
    }

    /// The JSON document of the tree on one line, as `serde_json` writes
    /// it; `None` where that fails.
    pub fn get_as_json(&self) -> (r: Option<String>)
        ensures
            exists|document: Value|
                is_json_of(document, self@) && (r is Some == #[trigger] json_compact(
                    document,
                ) is Some) && (r is Some ==> Some(r->0@) == json_compact(document)),
    {
        let document = self.to_json_value();
        let r = value_to_string(&document);
        assert(is_json_of(document, self@) && (r is Some == json_compact(document) is Some) && (
        r is Some ==> Some(r->0@) == json_compact(document)));
        r
    }

    /// The JSON document of the tree with line breaks and indentation, as
    /// `serde_json` writes it; `None` where that fails.
    pub fn get_as_pretty_json(&self) -> (r: Option<String>)
        ensures
            exists|document: Value|
                is_json_of(document, self@) && (r is Some == #[trigger] json_pretty(
                    document,
                ) is Some) && (r is Some ==> Some(r->0@) == json_pretty(document)),
    {
        let document = self.to_json_value();
        let r = value_to_string_pretty(&document);
        assert(is_json_of(document, self@) && (r is Some == json_pretty(document) is Some) && (r
            is Some ==> Some(r->0@) == json_pretty(document)));
        r
    }

    /// Finds the first node in pre-order of the given kind and value and
    /// appends `node` as its last child, in one step. Says whether there was
    /// such a node; where there was none, the tree stays as it is.
    pub fn attach(&mut self, kind: Type, value: String, node: Node) -> (found: bool)
        ensures
            found == first_match(old(self)@, kind, value@) is Some,
            found ==> final(self)@ == with_node_at(
                old(self)@,
                first_match(old(self)@, kind, value@)->0,
                with_child(node_at(old(self)@, first_match(old(self)@, kind, value@)->0), node@),
            ),
            !found ==> final(self)@ == old(self)@,
    {
        match self.search(kind, value) {
            Some(parent) => {
                parent.connect(node);
                true
            },
            None => false,
        }
    }

    /// Whether the tree holds a node of the given kind and value.
    pub fn contains(&self, kind: Type, value: String) -> (r: bool)
        ensures
            r == first_match(self@, kind, value@) is Some,
    {
        let pattern = Node::new(kind, value);
        self.root.contains(&pattern)
    }
}

} // verus!
