//! The nodes of the graph: a strict tree in which every node owns its children
//! and carries facts under string keys.
use crate::database::facts::{distinct_keys, facts_of, Facts};
use crate::flags;
use crate::flags::{has_flag, mark_of};
use crate::json::{
    json_array, json_number, json_object, json_text, json_u64, value_as_str, value_as_u64,
    value_clone, value_from_string, value_from_u64, value_insert, value_is_object,
    value_new_array, value_new_object, value_push,
};
use serde_json::Value;
use vstd::prelude::*;

verus! {

/// The kind of entity that a node stands for.
#[derive(Clone, Copy, Debug, PartialEq, Eq, Structural)]
pub enum Type {
    Domain,
    Hostname,
    Email,
    File,
}

impl Type {
    /// The lower-case name under which the kind is written in reports.
    pub fn name(&self) -> (r: String)
        ensures
            r@ == self.spec_name(),
    {
        match self {
            Type::Domain => String::from_str("domain"),
            Type::Hostname => String::from_str("hostname"),
            Type::Email => String::from_str("email"),
            Type::File => String::from_str("file"),
        }
    }

    pub open spec fn spec_name(&self) -> Seq<char> {
        match self {
            Type::Domain => "domain"@,
            Type::Hostname => "hostname"@,
            Type::Email => "email"@,
            Type::File => "file"@,
        }
    }
}

/// The mathematical value of a node: its identity, its children in order and
/// its facts.
pub struct NodeView {
    pub kind: Type,
    pub value: Seq<char>,
    pub children: Seq<NodeView>,
    pub facts: Map<Seq<char>, Value>,
}

#[derive(Debug)]
pub struct Node {
    kind: Type,
    value: String,
    connections: Vec<Node>,
    data: Facts,
}

/// The values of a list of nodes, in order.
pub open spec fn views_of(nodes: Seq<Node>) -> Seq<NodeView>
    decreases nodes,
{
    if nodes.len() == 0 {
        Seq::empty()
    } else {
        views_of(nodes.drop_last()).push(nodes.last().view())
    }
}

/// The values of a list of nodes are as many as the nodes, and each is the
/// value of the node at its place.
pub proof fn lemma_views_of(nodes: Seq<Node>)
    ensures
        views_of(nodes).len() == nodes.len(),
        forall|i: int| 0 <= i < nodes.len() ==> (#[trigger] views_of(nodes)[i]) == nodes[i]@,
    decreases nodes.len(),
{
    if nodes.len() > 0 {
        lemma_views_of(nodes.drop_last());
        assert(views_of(nodes) == views_of(nodes.drop_last()).push(nodes.last().view()));
        assert(views_of(nodes).len() == nodes.len());
    } else {
        assert(views_of(nodes).len() == 0);
    }
}

impl View for Node {
    type V = NodeView;

    closed spec fn view(&self) -> NodeView
        decreases self,
    {
        NodeView {
            kind: self.kind,
            value: self.value@,
            children: views_of(self.connections@),
            facts: self.data@,
        }
    }
}

impl Node {
    /// A node without children and without facts.
    pub fn new(kind: Type, value: String) -> (node: Node)
        ensures
            node@.kind == kind,
            node@.value == value@,
            node@.children == Seq::<NodeView>::empty(),
            node@.facts == Map::<Seq<char>, Value>::empty(),
    {
        Node { kind, value, connections: Vec::new(), data: Facts::new() }
    }

    pub fn kind(&self) -> (r: Type)
        ensures
            r == self@.kind,
    {
        self.kind
    }

    pub fn value(&self) -> (r: &String)
        ensures
            r@ == self@.value,
    {
        &self.value
    }

    /// Appends `node` as the last child. Nothing is checked for duplicates.
    pub fn connect(&mut self, node: Node)
        ensures
            final(self)@.kind == old(self)@.kind,
            final(self)@.value == old(self)@.value,
            final(self)@.facts == old(self)@.facts,
            final(self)@.children == old(self)@.children.push(node@),
    {
        proof {
            lemma_views_of(self.connections@);
        }
        self.connections.push(node);
        proof {
            lemma_views_of(self.connections@);
            assert(self@.children =~= old(self)@.children.push(node@));
        }
    }

    /// Appends a fresh node of the given identity as the last child.
    pub fn add(&mut self, kind: Type, value: String)
        ensures
            final(self)@.kind == old(self)@.kind,
            final(self)@.value == old(self)@.value,
            final(self)@.facts == old(self)@.facts,
            final(self)@.children == old(self)@.children.push(
                (NodeView {
                    kind,
                    value: value@,
                    children: Seq::empty(),
                    facts: Map::empty(),
                }),
            ),
    {
        let child = Node::new(kind, value);
        self.connect(child);
    }

    /// Puts `value` under `key`, in place of what was there.
    pub fn add_data(&mut self, key: String, value: Value)
        ensures
            final(self)@.kind == old(self)@.kind,
            final(self)@.value == old(self)@.value,
            final(self)@.children == old(self)@.children,
            final(self)@.facts == old(self)@.facts.insert(key@, value),
    {
        self.data.insert(key, value);
    }

    /// The fact under `key`, if there is one.
    pub fn get_data(&self, key: &str) -> (r: Option<&Value>)
        ensures
            r is Some == self@.facts.contains_key(key@),
            r is Some ==> *r->0 == self@.facts[key@],
    {
        let k = String::from_str(key);
        self.data.get(&k)
    }

    /// Replaces the fact under `key` where there is one, and does nothing
    /// where there is none.
    pub fn edit_data(&mut self, key: String, new_value: Value)
        ensures
            final(self)@.kind == old(self)@.kind,
            final(self)@.value == old(self)@.value,
            final(self)@.children == old(self)@.children,
            final(self)@.facts == if old(self)@.facts.contains_key(key@) {
                old(self)@.facts.insert(key@, new_value)
            } else {
                old(self)@.facts
            },
    {
        if self.data.get(&key).is_some() {
            self.add_data(key, new_value);
        }
    }

    /// Whether the two trees have the same shape: the same identity at every
    /// place, the same number of children, and the children equal in order.
    /// Facts take no part.
    pub fn equals(&self, other: &Node) -> (r: bool)
        ensures
            r == same_shape(self@, other@),
        decreases self,
    {
        proof {
            lemma_views_of(self.connections@);
            lemma_views_of(other.connections@);
        }
        if self.kind != other.kind || self.value != other.value {
            return false;
        }
        let n = self.connections.len();
        if n != other.connections.len() {
            return false;
        }
        let mut i: usize = 0;
        while i < n
            invariant
                i <= n,
                n == self.connections@.len(),
                n == other.connections@.len(),
                self@.children.len() == n,
                other@.children.len() == n,
                forall|j: int|
                    0 <= j < n ==> (#[trigger] self@.children[j]) == self.connections@[j]@,
                forall|j: int|
                    0 <= j < n ==> (#[trigger] other@.children[j]) == other.connections@[j]@,
                forall|j: int|
                    0 <= j < i ==> same_shape(#[trigger] self@.children[j], other@.children[j]),
            decreases n - i,
        {
            if !self.connections[i].equals(&other.connections[i]) {
                assert(!same_shape(self@.children[i as int], other@.children[i as int]));
                return false;
            }
            i += 1;
        }
        true
    }

    /// Whether some node of the tree has the identity of `node`.
    pub fn contains(&self, node: &Node) -> (r: bool)
        ensures
            r == first_match(self@, node@.kind, node@.value) is Some,
        decreases self,
    {
        proof {
            lemma_views_of(self.connections@);
        }
        if self.kind == node.kind && self.value == node.value {
            return true;
        }
        let n = self.connections.len();
        let mut i: usize = 0;
        while i < n
            invariant
                i <= n,
                n == self.connections@.len(),
                self@.children.len() == n,
                !is_match(self@, node@.kind, node@.value),
                forall|j: int|
                    0 <= j < n ==> (#[trigger] self@.children[j]) == self.connections@[j]@,
                first_match_from(self@, node@.kind, node@.value, 0) == first_match_from(
                    self@,
                    node@.kind,
                    node@.value,
                    i as int,
                ),
            decreases n - i,
        {
            if self.connections[i].contains(node) {
                return true;
            }
            i += 1;
        }
        false
    }

    /// The first node in pre-order that has the identity of `node` (its kind
    /// and value; its children and facts take no part): the node itself before
    /// its children, and the whole subtree of a child before the next child.
    /// What the caller writes through the result is written at that place of
    /// the tree, and nowhere else.
    pub fn find(&mut self, node: &Node) -> (r: Option<&mut Node>)
        ensures
            r is Some == first_match(old(self)@, node@.kind, node@.value) is Some,
            r is Some ==> r->0@ == node_at(
                old(self)@,
                first_match(old(self)@, node@.kind, node@.value)->0,
            ),
            r is Some ==> final(self)@ == with_node_at(
                old(self)@,
                first_match(old(self)@, node@.kind, node@.value)->0,
                final(r->0)@,
            ),
            r is None ==> final(self)@ == old(self)@,
        decreases *old(self),
    {
        proof {
            lemma_views_of(self.connections@);
        }
        if self.kind == node.kind && self.value == node.value {
            return Some(self);
        }
        let n = self.connections.len();
        let mut i: usize = 0;
        while i < n
            invariant
                i <= n,
                *self == *old(self),
                n == self.connections@.len(),
                self@.children.len() == n,
                !is_match(self@, node@.kind, node@.value),
                forall|j: int|
                    0 <= j < n ==> (#[trigger] self@.children[j]) == self.connections@[j]@,
                first_match_from(self@, node@.kind, node@.value, 0) == first_match_from(
                    self@,
                    node@.kind,
                    node@.value,
                    i as int,
                ),
            decreases n - i,
        {
            if self.connections[i].contains(node) {
                proof {
                    let top = self@;
                    let inner = first_match(top.children[i as int], node@.kind, node@.value)->0;
                    let path = seq![i as int] + inner;
                    assert(first_match(top, node@.kind, node@.value) == Some(path));
                    assert(path[0] == i as int);
                    assert(path.drop_first() == inner);
                    assert forall|m: NodeView|
                        (NodeView {
                            children: top.children.update(
                                i as int,
                                with_node_at(top.children[i as int], inner, m),
                            ),
                            ..top
                        }) == #[trigger] with_node_at(top, path, m) by {}
                }
                return self.child_mut(i).find(node);
            }
            i += 1;
        }
        None
    }

    /// The child at place `i`, to be written through.
    fn child_mut(&mut self, i: usize) -> (r: &mut Node)
        requires
            i < old(self)@.children.len(),
        ensures
            r@ == old(self)@.children[i as int],
            *r == old(self).connections@[i as int],
            final(self).kind == old(self).kind,
            final(self).value == old(self).value,
            final(self).data == old(self).data,
            final(self).connections@ == old(self).connections@.update(i as int, *final(r)),
            final(self)@.children == views_of(final(self).connections@),
            final(self)@ == (NodeView {
                children: old(self)@.children.update(i as int, final(r)@),
                ..old(self)@
            }),
    {
        proof {
            let before = self.connections@;
            lemma_views_of(before);
            assert forall|x: Node|
                #[trigger] views_of(before.update(i as int, x)) == views_of(before).update(
                    i as int,
                    x@,
                ) by {
                lemma_views_of(before.update(i as int, x));
                assert(views_of(before.update(i as int, x)) =~= views_of(before).update(
                    i as int,
                    x@,
                ));
            }
        }
        &mut self.connections[i]
    }

    /// A copy of the whole tree, facts included.
    pub fn duplicate(&self) -> (r: Node)
        ensures
            r@ == self@,
        decreases self,
    {
        let mut connections: Vec<Node> = Vec::new();
        let n = self.connections.len();
        let mut i: usize = 0;
        while i < n
            invariant
                i <= n,
                n == self.connections@.len(),
                connections@.len() == i,
                forall|j: int| 0 <= j < i ==> (#[trigger] connections@[j])@ == self.connections@[j]@,
            decreases n - i,
        {
            let child = self.connections[i].duplicate();
            connections.push(child);
            i += 1;
        }
        let data = self.data.duplicate();
        let copy = Node { kind: self.kind, value: self.value.clone(), connections, data };
        proof {
            lemma_views_of(self.connections@);
            lemma_views_of(copy.connections@);
            assert(copy@.children =~= self@.children);
        }
        copy
    }

    /// Copies of the children, in order.
    pub fn get_connections(&self) -> (r: Vec<Node>)
        ensures
            views_of(r@) == self@.children,
    {
        let copy = self.duplicate();
        copy.connections
    }

    /// Copies of the facts, each with its key, in the order in which the keys
    /// were first written. No key comes twice.
    pub fn facts(&self) -> (r: Vec<(String, Value)>)
        ensures
            facts_of(r@) == self@.facts,
            distinct_keys(r@),
    {
        self.data.entries()
    }

    /// The number of children.
    pub fn connection_count(&self) -> (r: usize)
        ensures
            r == self@.children.len(),
    {
        proof {
            lemma_views_of(self.connections@);
        }
        self.connections.len()
    }

    /// Whether the fact under `key`, where there is one, is an object.
    pub fn holds_object_or_nothing(&self, key: &str) -> (r: bool)
        ensures
            r == (self@.facts.contains_key(key@) ==> json_object(self@.facts[key@]) is Some),
    {
        match self.get_data(key) {
            Some(value) => value_is_object(value),
            None => true,
        }
    }

    /// A copy of the object under `key`. Where the node has no fact under
    /// `key`, an object without entries is put there first. A fact of
    /// another shape under `key` is not accepted.
    pub fn get_or_init_map(&mut self, key: &str) -> (r: Value)
        requires
            old(self)@.facts.contains_key(key@) ==> json_object(old(self)@.facts[key@]) is Some,
        ensures
            final(self)@.kind == old(self)@.kind,
            final(self)@.value == old(self)@.value,
            final(self)@.children == old(self)@.children,
            json_object(r) is Some,
            final(self)@.facts.contains_key(key@),
            final(self)@.facts[key@] == r,
            old(self)@.facts.contains_key(key@) ==> final(self)@.facts == old(self)@.facts,
            !old(self)@.facts.contains_key(key@) ==> final(self)@.facts == old(self)@.facts.insert(
                key@,
                r,
            ) && json_object(r) == Some(Map::<Seq<char>, Value>::empty()),
    {
        let found = match self.get_data(key) {
            Some(value) => Some(value_clone(value)),
            None => None,
        };
        match found {
            Some(object) => object,
            None => {
                let object = value_new_object();
                self.add_data(String::from_str(key), value_clone(&object));
                object
            },
        }
    }

    /// The tree as a JSON document: for each node an object with its kind
    /// under `type`, its value under `value`, its children in order under
    /// `connections` and its facts under `data`.
    pub fn to_json_value(&self) -> (r: Value)
        ensures
            is_json_of(r, self@),
        decreases self,
    {
        proof {
            lemma_views_of(self.connections@);
        }
        let mut list = value_new_array();
        let n = self.connections.len();
        let mut i: usize = 0;
        while i < n
            invariant
                i <= n,
                n == self.connections@.len(),
                self@.children.len() == n,
                forall|j: int|
                    0 <= j < n ==> (#[trigger] self@.children[j]) == self.connections@[j]@,
                json_array(list) is Some,
                json_array(list)->0.len() == i,
                forall|j: int|
                    0 <= j < i ==> is_json_of(
                        #[trigger] json_array(list)->0[j],
                        self@.children[j],
                    ),
            decreases n - i,
        {
            let child = self.connections[i].to_json_value();
            value_push(&mut list, child);
            i += 1;
        }
        let mut object = value_new_object();
        value_insert(&mut object, String::from_str("type"), value_from_string(self.kind.name()));
        value_insert(&mut object, String::from_str("value"), value_from_string(self.value.clone()));
        value_insert(&mut object, String::from_str("connections"), list);
        value_insert(&mut object, String::from_str("data"), self.data.to_json_value());
        proof {
            reveal_strlit("type");
            reveal_strlit("value");
            reveal_strlit("connections");
            reveal_strlit("data");
            assert("type"@.len() == 4 && "value"@.len() == 5 && "connections"@.len() == 11
                && "data"@.len() == 4);
            assert("type"@[0] == 't' && "data"@[0] == 'd');
            assert("type"@ != "data"@);
            assert(json_object(object)->0.dom() =~= set![
                "type"@,
                "value"@,
                "connections"@,
                "data"@,
            ]);
        }
        object
    }

    /// Whether the tree can be reported on in Markdown.
    pub fn is_renderable(&self) -> (r: bool)
        ensures
            r == renderable(self@),
        decreases self,
    {
        proof {
            lemma_views_of(self.connections@);
        }
        match self.get_data("flags") {
            Some(value) => {
                if value_as_u64(value).is_none() {
                    return false;
                }
            },
            None => {},
        }
        let n = self.connections.len();
        let mut i: usize = 0;
        while i < n
            invariant
                i <= n,
                n == self.connections@.len(),
                self@.children.len() == n,
                forall|j: int|
                    0 <= j < n ==> (#[trigger] self@.children[j]) == self.connections@[j]@,
                forall|j: int| 0 <= j < i ==> renderable(#[trigger] self@.children[j]),
                self@.facts.contains_key("flags"@) ==> json_u64(self@.facts["flags"@]) is Some,
            decreases n - i,
        {
            if !self.connections[i].is_renderable() {
                assert(!renderable(self@.children[i as int]));
                return false;
            }
            i += 1;
        }
        true
    }

    /// The section of the report on the flags of the node.
    fn flags_to_markdown(&self, bits: usize) -> (r: String)
        ensures
            r@ == flags_section(bits, platform_of(self@)),
    {
        let mut r = String::from_str("#### Flags\n");
        r.append("\n- `IS_RECENT` => ");
        r.append(flags::contains_to_markdown(bits, flags::domain::IS_RECENT).as_str());
        r.append("\n- `HAS_EXPIRED` => ");
        r.append(flags::contains_to_markdown(bits, flags::domain::HAS_EXPIRED).as_str());
        r.append("\n- `POSSIBLE_TAKEOVER` => ");
        if flags::contains(bits, flags::domain::POSSIBLE_TAKEOVER) {
            r.append("✅ (Platform: `");
            match self.get_data("possible_takeover") {
                Some(platform) => match value_as_str(platform) {
                    Some(text) => {
                        r.append(text);
                    },
                    None => {
                        assert(r@ + Seq::<char>::empty() =~= r@);
                    },
                },
                None => {
                    r.append("Not set");
                },
            }
            r.append("`)");
        } else {
            r.append("❌");
        }
        r
    }

    /// The report on the tree in Markdown: for each node a heading with its
    /// value, then its flags where it has any, then the reports on its
    /// children in order, with an empty line between any two parts.
    pub fn to_markdown(&self) -> (r: String)
        requires
            renderable(self@),
        ensures
            r@ == markdown_of(self@),
        decreases self,
    {
        proof {
            lemma_views_of(self.connections@);
        }
        let mut r = String::from_str("### ");
        r.append(self.value.as_str());
        match self.get_data("flags") {
            Some(value) => {
                let number = value_as_u64(value);
                #[verifier::truncate]
                let bits = number.unwrap() as usize;
                r.append("\n\n");
                r.append(self.flags_to_markdown(bits).as_str());
            },
            None => {},
        }
        let mut below = String::new();
        let n = self.connections.len();
        let mut i: usize = 0;
        while i < n
            invariant
                i <= n,
                n == self.connections@.len(),
                self@.children.len() == n,
                renderable(self@),
                forall|j: int|
                    0 <= j < n ==> (#[trigger] self@.children[j]) == self.connections@[j]@,
                below@ == children_markdown(self@.children.take(i as int)),
            decreases n - i,
        {
            proof {
                let children = self@.children;
                assert(children.take(i as int + 1).drop_last() =~= children.take(i as int));
                assert(children.take(i as int + 1).last() == children[i as int]);
                assert(renderable(children[i as int]));
            }
            let part = self.connections[i].to_markdown();
            if i > 0 {
                below.append("\n\n");
            }
            below.append(part.as_str());
            proof {
                if i == 0 {
                    assert(Seq::<char>::empty() + part@ =~= part@);
                }
            }
            i += 1;
        }
        assert(self@.children.take(n as int) =~= self@.children);
        if below.as_str().unicode_len() > 0 {
            r.append("\n\n");
            r.append(below.as_str());
        }
        r
    }

    /// The flag bits that the node carries: the number under the key `flags`,
    /// and zero where there is none.
    pub fn flags(&self) -> (r: usize)
        ensures
            r == flags_of(self@),
    {
        match self.get_data("flags") {
            Some(v) => match value_as_u64(v) {
                Some(n) => {
                    #[verifier::truncate]
                    let bits = n as usize;
                    bits
                },
                None => 0,
            },
            None => 0,
        }
    }

    /// Sets the bits of `flag` in the number under the key `flags`, which
    /// starts at zero.
    pub fn add_flag(&mut self, flag: usize)
        ensures
            final(self)@.kind == old(self)@.kind,
            final(self)@.value == old(self)@.value,
            final(self)@.children == old(self)@.children,
            final(self)@.facts == old(self)@.facts.insert(
                "flags"@,
                json_number((flags_of(old(self)@) | flag) as u64),
            ),
            json_u64(final(self)@.facts["flags"@]) == Some((flags_of(old(self)@) | flag) as u64),
    {
        let current = self.flags();
        let bits = (current | flag) as u64;
        self.add_data(String::from_str("flags"), value_from_u64(bits));
    }
}

/// Structural equality of two trees: the same kind and value, the same number
/// of children, and the children structurally equal, each with the one at its
/// place.
pub open spec fn same_shape(a: NodeView, b: NodeView) -> bool
    decreases a,
{
    &&& a.kind == b.kind
    &&& a.value == b.value
    &&& a.children.len() == b.children.len()
    &&& forall|i: int|
        0 <= i < a.children.len() ==> same_shape(#[trigger] a.children[i], b.children[i])
}

/// Whether a node has the identity `(kind, value)`.
pub open spec fn is_match(n: NodeView, kind: Type, value: Seq<char>) -> bool {
    n.kind == kind && n.value == value
}

/// The place of the first node in pre-order that has the identity
/// `(kind, value)`, as the child indices that lead to it from the root.
pub open spec fn first_match(n: NodeView, kind: Type, value: Seq<char>) -> Option<Seq<int>>
    decreases n, n.children.len() + 1,
{
    if is_match(n, kind, value) {
        Some(Seq::empty())
    } else {
        first_match_from(n, kind, value, 0)
    }
}

/// The same, among the subtrees of the children of `n` from the child `from`
/// on.
pub open spec fn first_match_from(n: NodeView, kind: Type, value: Seq<char>, from: int) -> Option<
    Seq<int>,
>
    decreases n, n.children.len() - from,
{
    if from < 0 || from >= n.children.len() {
        None
    } else {
        match first_match(n.children[from], kind, value) {
            Some(path) => Some(seq![from] + path),
            None => first_match_from(n, kind, value, from + 1),
        }
    }
}

/// Whether `path` leads to a node of the tree.
pub open spec fn valid_path(n: NodeView, path: Seq<int>) -> bool
    decreases path.len(),
{
    path.len() == 0 || (0 <= path[0] < n.children.len() && valid_path(
        n.children[path[0]],
        path.drop_first(),
    ))
}

/// The node that `path` leads to.
pub open spec fn node_at(n: NodeView, path: Seq<int>) -> NodeView
    decreases path.len(),
{
    if path.len() == 0 {
        n
    } else {
        node_at(n.children[path[0]], path.drop_first())
    }
}

/// The tree with the subtree at `path` replaced by `m`.
pub open spec fn with_node_at(n: NodeView, path: Seq<int>, m: NodeView) -> NodeView
    decreases path.len(),
{
    if path.len() == 0 {
        m
    } else {
        NodeView {
            children: n.children.update(
                path[0],
                with_node_at(n.children[path[0]], path.drop_first(), m),
            ),
            ..n
        }
    }
}

/// Whether the tree can be reported on: wherever a node has a fact under
/// `flags`, the fact is an unsigned integer.
pub open spec fn renderable(n: NodeView) -> bool
    decreases n,
{
    &&& n.facts.contains_key("flags"@) ==> json_u64(n.facts["flags"@]) is Some
    &&& forall|i: int| 0 <= i < n.children.len() ==> renderable(#[trigger] n.children[i])
}

/// The platform that a report names for a possible takeover: the text
/// under `possible_takeover`; nothing where the fact is no text; `Not set`
/// where there is no such fact.
pub open spec fn platform_of(n: NodeView) -> Seq<char> {
    if n.facts.contains_key("possible_takeover"@) {
        match json_text(n.facts["possible_takeover"@]) {
            Some(text) => text,
            None => Seq::empty(),
        }
    } else {
        "Not set"@
    }
}

/// The section of a report on the flags `bits`: one line for each flag,
/// with a check mark or a cross; a possible takeover names the platform.
pub open spec fn flags_section(bits: usize, platform: Seq<char>) -> Seq<char> {
    "#### Flags\n"@ + "\n- `IS_RECENT` => "@ + mark_of(has_flag(bits, flags::domain::IS_RECENT))
        + "\n- `HAS_EXPIRED` => "@ + mark_of(has_flag(bits, flags::domain::HAS_EXPIRED))
        + "\n- `POSSIBLE_TAKEOVER` => "@ + (if has_flag(bits, flags::domain::POSSIBLE_TAKEOVER) {
        "✅ (Platform: `"@ + platform + "`)"@
    } else {
        "❌"@
    })
}

/// The report on a tree.
pub open spec fn markdown_of(n: NodeView) -> Seq<char>
    decreases n,
{
    let head = "### "@ + n.value;
    let own = if n.facts.contains_key("flags"@) {
        head + "\n\n"@ + flags_section(flags_of(n), platform_of(n))
    } else {
        head
    };
    let below = children_markdown(n.children);
    if below.len() > 0 {
        own + "\n\n"@ + below
    } else {
        own
    }
}

/// The reports on a list of trees, with an empty line between any two.
pub open spec fn children_markdown(children: Seq<NodeView>) -> Seq<char>
    decreases children,
{
    if children.len() == 0 {
        Seq::empty()
    } else if children.len() == 1 {
        markdown_of(children[0])
    } else {
        children_markdown(children.drop_last()) + "\n\n"@ + markdown_of(children.last())
    }
}

/// Whether the place `p` comes no later than the place `q` in pre-order: a
/// node comes before its descendants, and the subtree of a child before the
/// subtrees of the children after it.
pub open spec fn no_later(p: Seq<int>, q: Seq<int>) -> bool
    decreases p.len(),
{
    p.len() == 0 || (q.len() > 0 && (p[0] < q[0] || (p[0] == q[0] && no_later(
        p.drop_first(),
        q.drop_first(),
    ))))
}

/// What a search finds is a node of the tree, and it has the identity that
/// was asked for.
pub proof fn lemma_search_sound(n: NodeView, kind: Type, value: Seq<char>)
    requires
        first_match(n, kind, value) is Some,
    ensures
        valid_path(n, first_match(n, kind, value)->0),
        is_match(node_at(n, first_match(n, kind, value)->0), kind, value),
    decreases n, n.children.len() + 1,
{
    if !is_match(n, kind, value) {
        lemma_search_sound_from(n, kind, value, 0);
    }
}

proof fn lemma_search_sound_from(n: NodeView, kind: Type, value: Seq<char>, from: int)
    requires
        0 <= from,
        first_match_from(n, kind, value, from) is Some,
    ensures
        valid_path(n, first_match_from(n, kind, value, from)->0),
        is_match(node_at(n, first_match_from(n, kind, value, from)->0), kind, value),
    decreases n, n.children.len() - from,
{
    if from < n.children.len() {
        match first_match(n.children[from], kind, value) {
            Some(inner) => {
                lemma_search_sound(n.children[from], kind, value);
                let path = seq![from] + inner;
                assert(path[0] == from);
                assert(path.drop_first() =~= inner);
            },
            None => {
                lemma_search_sound_from(n, kind, value, from + 1);
            },
        }
    }
}

/// A search finds a node wherever the tree holds one of the identity that
/// was asked for, anywhere, and the one it finds comes no later in pre-order
/// than any other such node.
pub proof fn lemma_search_first(n: NodeView, kind: Type, value: Seq<char>, q: Seq<int>)
    requires
        valid_path(n, q),
        is_match(node_at(n, q), kind, value),
    ensures
        first_match(n, kind, value) is Some,
        no_later(first_match(n, kind, value)->0, q),
    decreases n, n.children.len() + 1,
{
    if !is_match(n, kind, value) {
        assert(q.len() > 0);
        lemma_search_first(n.children[q[0]], kind, value, q.drop_first());
        lemma_search_first_from(n, kind, value, 0, q);
    }
}

proof fn lemma_search_first_from(
    n: NodeView,
    kind: Type,
    value: Seq<char>,
    from: int,
    q: Seq<int>,
)
    requires
        q.len() > 0,
        0 <= from <= q[0] < n.children.len(),
        first_match(n.children[q[0]], kind, value) is Some,
        no_later(first_match(n.children[q[0]], kind, value)->0, q.drop_first()),
    ensures
        first_match_from(n, kind, value, from) is Some,
        no_later(first_match_from(n, kind, value, from)->0, q),
    decreases n, n.children.len() - from,
{
    match first_match(n.children[from], kind, value) {
        Some(inner) => {
            let path = seq![from] + inner;
            assert(path[0] == from);
            assert(path.drop_first() =~= inner);
        },
        None => {
            lemma_search_first_from(n, kind, value, from + 1, q);
        },
    }
}

/// Two trees that are each structurally equal to a third are structurally
/// equal to each other.
pub proof fn lemma_same_shape_joins(x: NodeView, y: NodeView, z: NodeView)
    requires
        same_shape(x, z),
        same_shape(y, z),
    ensures
        same_shape(x, y),
    decreases x,
{
    assert forall|i: int| 0 <= i < x.children.len() implies same_shape(
        #[trigger] x.children[i],
        y.children[i],
    ) by {
        lemma_same_shape_joins(x.children[i], y.children[i], z.children[i]);
    }
}

/// One more child on either side breaks structural equality.
pub proof fn lemma_extra_child_breaks_equality(a: NodeView, b: NodeView, extra: NodeView)
    requires
        same_shape(a, b),
    ensures
        !same_shape((NodeView { children: a.children.push(extra), ..a }), b),
        !same_shape(a, (NodeView { children: b.children.push(extra), ..b })),
{
}

/// Two children that are not structurally equal to each other, put at each
/// other's place, break structural equality.
pub proof fn lemma_reordering_breaks_equality(a: NodeView, b: NodeView, i: int, j: int)
    requires
        same_shape(a, b),
        0 <= i < a.children.len(),
        0 <= j < a.children.len(),
        !same_shape(a.children[i], a.children[j]),
    ensures
        !same_shape(
            (NodeView {
                children: a.children.update(i, a.children[j]).update(j, a.children[i]),
                ..a
            }),
            b,
        ),
{
    let swapped = NodeView {
        children: a.children.update(i, a.children[j]).update(j, a.children[i]),
        ..a
    };
    if same_shape(swapped, b) {
        assert(i != j) by {
            if i == j {
                lemma_same_shape_joins(a.children[i], a.children[j], b.children[i]);
            }
        }
        assert(swapped.children[i] == a.children[j]);
        assert(same_shape(swapped.children[i], b.children[i]));
        assert(same_shape(a.children[i], b.children[i]));
        lemma_same_shape_joins(a.children[i], a.children[j], b.children[i]);
    }
}

/// A fact written twice under one key is as the second writing left it.
pub proof fn lemma_fact_overwritten(
    facts: Map<Seq<char>, Value>,
    key: Seq<char>,
    first: Value,
    second: Value,
)
    ensures
        facts.insert(key, first).insert(key, second) == facts.insert(key, second),
        facts.insert(key, first).insert(key, second)[key] == second,
        facts.insert(key, first).insert(key, second).dom() == facts.dom().insert(key),
{
    assert(facts.insert(key, first).insert(key, second) =~= facts.insert(key, second));
    assert(facts.insert(key, second).dom() =~= facts.dom().insert(key));
}

/// Whether a JSON value is the document of a tree: an object with the
/// kind of the root under `type`, its value under `value`, the documents of
/// its children in order under `connections` and its facts under `data`.
pub open spec fn is_json_of(v: Value, n: NodeView) -> bool
    decreases n,
{
    &&& json_object(v) is Some
    &&& json_object(v)->0.dom() == set!["type"@, "value"@, "connections"@, "data"@]
    &&& json_text(json_object(v)->0["type"@]) == Some(n.kind.spec_name())
    &&& json_text(json_object(v)->0["value"@]) == Some(n.value)
    &&& json_object(json_object(v)->0["data"@]) == Some(n.facts)
    &&& json_array(json_object(v)->0["connections"@]) is Some
    &&& json_array(json_object(v)->0["connections"@])->0.len() == n.children.len()
    &&& forall|i: int|
        0 <= i < n.children.len() ==> is_json_of(
            json_array(json_object(v)->0["connections"@])->0[i],
            #[trigger] n.children[i],
        )
}

/// A node with one more child behind those that it has.
pub open spec fn with_child(n: NodeView, child: NodeView) -> NodeView {
    NodeView { children: n.children.push(child), ..n }
}

/// The flag bits of a node: the number under `flags`, zero where there is
/// none or where it is no unsigned integer.
pub open spec fn flags_of(n: NodeView) -> usize {
    if n.facts.contains_key("flags"@) {
        match json_u64(n.facts["flags"@]) {
            Some(bits) => bits as usize,
            None => 0,
        }
    } else {
        0
    }
}

impl Clone for Node {
    fn clone(&self) -> (r: Self)
        ensures
            r@ == self@,
    {
        self.duplicate()
    }
}

} // verus!
