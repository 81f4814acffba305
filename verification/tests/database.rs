use absence::database::node::{Node, Type};
use absence::database::Database;
use absence::flags;
use serde_json::Value;

#[test]
fn create_database() {
    let node = Node::new(Type::Domain, String::from("krypton.ninja"));
    let secondary_node = Node::new(Type::Domain, String::from("go.krypton.ninja"));
    let mut database = Database::new(node.clone());
    assert!(database.get_root().equals(&node));
    assert!(!database.get_root().equals(&secondary_node));
}

#[test]
fn add_node() {
    let node = Node::new(Type::Domain, String::from("krypton.ninja"));
    let mut database = Database::new(node.clone());
    let get_node = database
        .search(Type::Domain, String::from("krypton.ninja"))
        .unwrap();
    get_node.add(Type::Domain, String::from("go.krypton.ninja"));
    get_node.add(Type::Domain, String::from("status.krypton.ninja"));
    assert_eq!(database.get_root().get_connections().len(), 2);
}

#[test]
fn add_node_to_root() {
    let node = Node::new(Type::Domain, String::from("krypton.ninja"));
    let mut database = Database::new(node.clone());
    let root_node = database.get_root();
    root_node.add(Type::Domain, String::from("go.krypton.ninja"));
    root_node.add(Type::Domain, String::from("status.krypton.ninja"));
    assert_eq!(database.get_root().get_connections().len(), 2);
}

#[test]
fn add_node_data() {
    let mut node = Node::new(Type::Domain, String::from("krypton.ninja"));
    node.add_data(String::from("is_root"), Value::Bool(true));
    let mut database = Database::new(node.clone());
    assert!(database.get_root().get_data("is_root").is_some());
    assert!(database.get_root().get_data("test").is_none());
}

#[test]
fn search_node() {
    let node = Node::new(Type::Domain, String::from("krypton.ninja"));
    let mut database = Database::new(node.clone());
    let root_node = database.get_root();
    root_node.add(Type::Domain, String::from("go.krypton.ninja"));
    root_node.add(Type::Domain, String::from("status.krypton.ninja"));
    assert!(database
        .search(Type::Domain, String::from("go.krypton.ninja"))
        .is_some());
    assert!(database
        .search(Type::Domain, String::from("status.krypton.ninja"))
        .is_some());
    assert!(database
        .search(Type::Domain, String::from("www.krypton.ninja"))
        .is_none());
}

#[test]
fn search_node_root() {
    let node = Node::new(Type::Domain, String::from("krypton.ninja"));
    let mut database = Database::new(node.clone());
    assert!(database
        .search(Type::Domain, String::from("krypton.ninja"))
        .is_some());
    assert!(database
        .search(Type::Domain, String::from("go.krypton.ninja"))
        .is_none());
}

#[test]
fn search_finds_first_in_preorder() {
    // root -> [a -> [x(1)], x(2)]: the x below a comes first.
    let mut root = Node::new(Type::Domain, String::from("root"));
    let mut a = Node::new(Type::Domain, String::from("a"));
    let mut deep = Node::new(Type::Hostname, String::from("x"));
    deep.add_data(String::from("where"), Value::from("deep"));
    a.connect(deep);
    root.connect(a);
    let mut shallow = Node::new(Type::Hostname, String::from("x"));
    shallow.add_data(String::from("where"), Value::from("shallow"));
    root.connect(shallow);
    let mut database = Database::new(root);
    let found = database.search(Type::Hostname, String::from("x")).unwrap();
    assert_eq!(found.get_data("where"), Some(&Value::from("deep")));
    found.add_data(String::from("seen"), Value::Bool(true));
    let children = database.root().get_connections();
    assert_eq!(
        children[0].get_connections()[0].get_data("seen"),
        Some(&Value::Bool(true))
    );
    assert_eq!(children[1].get_data("seen"), None);
}

#[test]
fn search_tells_kinds_apart() {
    let mut root = Node::new(Type::Domain, String::from("example.com"));
    root.add(Type::Email, String::from("example.com"));
    let mut database = Database::new(root);
    assert!(database.contains(Type::Email, String::from("example.com")));
    assert!(!database.contains(Type::File, String::from("example.com")));
    let found = database
        .search(Type::Email, String::from("example.com"))
        .unwrap();
    assert_eq!(found.kind(), Type::Email);
    assert_eq!(found.connection_count(), 0);
}

#[test]
fn equality_is_structural() {
    let mut a = Node::new(Type::Domain, String::from("example.com"));
    a.add(Type::Hostname, String::from("www.example.com"));
    a.add(Type::Hostname, String::from("mail.example.com"));
    let mut b = Node::new(Type::Domain, String::from("example.com"));
    b.add(Type::Hostname, String::from("www.example.com"));
    b.add(Type::Hostname, String::from("mail.example.com"));
    assert!(a.equals(&b));
    assert!(b.equals(&a));

    // Facts take no part.
    b.add_data(String::from("ip"), Value::from("127.0.0.1"));
    assert!(a.equals(&b));

    // Another order of the children.
    let mut reordered = Node::new(Type::Domain, String::from("example.com"));
    reordered.add(Type::Hostname, String::from("mail.example.com"));
    reordered.add(Type::Hostname, String::from("www.example.com"));
    assert!(!a.equals(&reordered));

    // One more child, on either side.
    let mut longer = b.clone();
    longer.add(Type::Hostname, String::from("ftp.example.com"));
    assert!(!a.equals(&longer));
    assert!(!longer.equals(&a));

    // Another kind, another value.
    assert!(!Node::new(Type::Domain, String::from("a")).equals(&Node::new(Type::Hostname, String::from("a"))));
    assert!(!Node::new(Type::Domain, String::from("a")).equals(&Node::new(Type::Domain, String::from("b"))));
}

#[test]
fn fact_written_twice_keeps_the_second() {
    let mut node = Node::new(Type::Domain, String::from("example.com"));
    node.add_data(String::from("k"), Value::from(1u64));
    node.add_data(String::from("other"), Value::from("x"));
    node.add_data(String::from("k"), Value::from(2u64));
    assert_eq!(node.get_data("k"), Some(&Value::from(2u64)));
    assert_eq!(node.get_data("other"), Some(&Value::from("x")));
    let keys: Vec<String> = node.facts().into_iter().map(|(k, _)| k).collect();
    assert_eq!(keys, vec![String::from("k"), String::from("other")]);
}

#[test]
fn edit_data_changes_only_what_is_there() {
    let mut node = Node::new(Type::Domain, String::from("example.com"));
    node.edit_data(String::from("k"), Value::from(1u64));
    assert_eq!(node.get_data("k"), None);
    node.add_data(String::from("k"), Value::from(1u64));
    node.edit_data(String::from("k"), Value::from(5u64));
    assert_eq!(node.get_data("k"), Some(&Value::from(5u64)));
}

#[test]
fn flags_accumulate() {
    let mut node = Node::new(Type::Domain, String::from("example.com"));
    assert_eq!(node.flags(), 0);
    node.add_flag(flags::domain::HAS_EXPIRED);
    assert_eq!(node.get_data("flags"), Some(&Value::from(2u64)));
    node.add_flag(flags::domain::POSSIBLE_TAKEOVER);
    assert_eq!(node.get_data("flags"), Some(&Value::from(6u64)));
    node.add_flag(flags::domain::HAS_EXPIRED);
    assert_eq!(node.flags(), 6);
    assert!(flags::contains(node.flags(), flags::domain::HAS_EXPIRED));
    assert!(!flags::contains(node.flags(), flags::domain::IS_RECENT));
    assert_eq!(flags::contains_to_markdown(6, 2), "✅");
    assert_eq!(flags::contains_to_markdown(6, 1), "❌");
    assert!(flags::contains(6, flags::ZERO));
}

#[test]
fn flags_of_another_shape_count_as_zero() {
    let mut node = Node::new(Type::Domain, String::from("example.com"));
    node.add_data(String::from("flags"), Value::from("none"));
    assert_eq!(node.flags(), 0);
    node.add_flag(flags::domain::IS_RECENT);
    assert_eq!(node.get_data("flags"), Some(&Value::from(1u64)));
}

#[test]
fn copies_are_deep() {
    let mut root = Node::new(Type::Domain, String::from("example.com"));
    let mut child = Node::new(Type::Hostname, String::from("www.example.com"));
    child.add_data(String::from("ip"), Value::from("127.0.0.1"));
    root.connect(child);
    let mut copy = root.duplicate();
    assert!(copy.equals(&root));
    assert_eq!(
        copy.get_connections()[0].get_data("ip"),
        Some(&Value::from("127.0.0.1"))
    );
    copy.add(Type::Email, String::from("a@example.com"));
    assert_eq!(root.connection_count(), 1);
    assert_eq!(copy.connection_count(), 2);
    assert_eq!(root.value(), "example.com");
    assert_eq!(Type::Hostname.name(), "hostname");
}

#[test]
fn attach_finds_and_connects_in_one_step() {
    let mut root = Node::new(Type::Domain, String::from("example.com"));
    root.add(Type::Hostname, String::from("www.example.com"));
    let mut database = Database::new(root);
    assert!(database.attach(
        Type::Hostname,
        String::from("www.example.com"),
        Node::new(Type::File, String::from("www.example.com/index.php")),
    ));
    assert!(!database.attach(
        Type::Hostname,
        String::from("mail.example.com"),
        Node::new(Type::File, String::from("mail.example.com/index.php")),
    ));
    let mut expected = Node::new(Type::Domain, String::from("example.com"));
    let mut www = Node::new(Type::Hostname, String::from("www.example.com"));
    www.add(Type::File, String::from("www.example.com/index.php"));
    expected.connect(www);
    assert!(database.root().equals(&expected));
}

#[test]
fn markdown_of_a_tree() {
    let mut root = Node::new(Type::Domain, String::from("example.com"));
    assert_eq!(root.to_markdown(), "### example.com");
    root.add(Type::Domain, String::from("a.example.com"));
    let mut b = Node::new(Type::Domain, String::from("b.example.com"));
    b.add(Type::Domain, String::from("c.b.example.com"));
    b.add_flag(flags::domain::POSSIBLE_TAKEOVER | flags::domain::IS_RECENT);
    root.connect(b);
    assert!(root.is_renderable());
    assert_eq!(
        root.to_markdown(),
        "### example.com\n\n### a.example.com\n\n### b.example.com\n\n#### Flags\n\n- `IS_RECENT` => ✅\n- `HAS_EXPIRED` => ❌\n- `POSSIBLE_TAKEOVER` => ✅ (Platform: `Not set`)\n\n### c.b.example.com"
    );
    let mut odd = Node::new(Type::Domain, String::from("odd.example.com"));
    odd.add_flag(flags::domain::POSSIBLE_TAKEOVER);
    odd.add_data(String::from("possible_takeover"), Value::from(7u64));
    assert_eq!(
        odd.to_markdown(),
        "### odd.example.com\n\n#### Flags\n\n- `IS_RECENT` => ❌\n- `HAS_EXPIRED` => ❌\n- `POSSIBLE_TAKEOVER` => ✅ (Platform: ``)"
    );
    root.add_data(String::from("flags"), Value::Bool(true));
    assert!(!root.is_renderable());
}

#[test]
fn json_document_of_a_tree() {
    let mut root = Node::new(Type::Domain, String::from("example.com"));
    root.add_data(String::from("is_root"), Value::Bool(true));
    let mut www = Node::new(Type::Hostname, String::from("www.example.com"));
    www.add_flag(flags::domain::IS_RECENT);
    root.connect(www);
    root.add(Type::Email, String::from("me@example.com"));
    let database = Database::new(root);

    let mut www_data = serde_json::Map::new();
    www_data.insert(String::from("flags"), Value::from(1u64));
    let mut www_object = serde_json::Map::new();
    www_object.insert(String::from("type"), Value::from("hostname"));
    www_object.insert(String::from("value"), Value::from("www.example.com"));
    www_object.insert(String::from("connections"), Value::Array(vec![]));
    www_object.insert(String::from("data"), Value::Object(www_data));
    let mut me_object = serde_json::Map::new();
    me_object.insert(String::from("type"), Value::from("email"));
    me_object.insert(String::from("value"), Value::from("me@example.com"));
    me_object.insert(String::from("connections"), Value::Array(vec![]));
    me_object.insert(
        String::from("data"),
        Value::Object(serde_json::Map::new()),
    );
    let mut root_data = serde_json::Map::new();
    root_data.insert(String::from("is_root"), Value::Bool(true));
    let mut root_object = serde_json::Map::new();
    root_object.insert(String::from("type"), Value::from("domain"));
    root_object.insert(String::from("value"), Value::from("example.com"));
    root_object.insert(
        String::from("connections"),
        Value::Array(vec![Value::Object(www_object), Value::Object(me_object)]),
    );
    root_object.insert(String::from("data"), Value::Object(root_data));
    let expected = Value::Object(root_object);

    assert_eq!(database.to_json_value(), expected);
    let compact = database.get_as_json().unwrap();
    assert_eq!(serde_json::from_str::<Value>(&compact).unwrap(), expected);
    assert!(!compact.contains('\n'));
    let pretty = database.get_as_pretty_json().unwrap();
    assert_eq!(serde_json::from_str::<Value>(&pretty).unwrap(), expected);
    assert!(pretty.contains('\n'));

    let leaf = Database::new(Node::new(Type::File, String::from("a/b.php")));
    assert_eq!(
        leaf.get_as_json(),
        Some(String::from(
            "{\"connections\":[],\"data\":{},\"type\":\"file\",\"value\":\"a/b.php\"}"
        ))
    );
    assert_eq!(
        leaf.get_as_pretty_json(),
        Some(String::from(
            "{\n  \"connections\": [],\n  \"data\": {},\n  \"type\": \"file\",\n  \"value\": \"a/b.php\"\n}"
        ))
    );
}
