use glib::{
    build_container, get, read_arg, read_container, read_container_list, read_func,
    read_func_list, ContainerKind, Field, InputError, Node,
};

fn text(t: &str) -> Node {
    Node::Text(t.to_string())
}

fn obj(fields: Vec<(&str, Node)>) -> Node {
    Node::Object(fields.into_iter().map(|(k, v)| Field { key: k.to_string(), value: v }).collect())
}

fn list(items: Vec<Node>) -> Node {
    Node::List(items)
}

fn func_node(extra: Vec<(&str, Node)>) -> Node {
    let mut fields = vec![("name", text("f")), ("realms", list(vec![text("client")]))];
    fields.extend(extra);
    obj(fields)
}

#[test]
fn lookup_finds_first_field() {
    let fields = vec![
        Field { key: "a".to_string(), value: text("1") },
        Field { key: "a".to_string(), value: text("2") },
    ];
    assert!(matches!(get(&fields, "a"), Some(Node::Text(t)) if t == "1"));
    assert!(get(&fields, "b").is_none());
}

#[test]
fn reads_argument() {
    let a = read_arg(&obj(vec![("name", text("x")), ("type", text("number"))])).ok().unwrap();
    assert_eq!(a.name, "x");
    assert_eq!(a.t_type, "number");
    assert!(a.description.is_none());
    let b = read_arg(&obj(vec![("name", text("x")), ("type", text("t")), ("description", Node::Other)]))
        .ok()
        .unwrap();
    assert!(b.description.is_none());
}

#[test]
fn argument_errors() {
    assert_eq!(read_arg(&obj(vec![("type", text("t"))])).err(), Some(InputError::MissingField));
    assert_eq!(
        read_arg(&obj(vec![("name", Node::Other), ("type", text("t"))])).err(),
        Some(InputError::TypeMismatch)
    );
    assert_eq!(read_arg(&text("x")).err(), Some(InputError::TypeMismatch));
}

#[test]
fn reads_function() {
    let n = func_node(vec![
        ("description", text("Says hi")),
        ("returnValues", list(vec![obj(vec![("description", Node::Other)])])),
        ("arguments", list(vec![obj(vec![("name", text("x")), ("type", text("number"))])])),
    ]);
    let f = read_func(&n).ok().unwrap();
    assert_eq!(f.name, "f");
    assert_eq!(f.realms, vec!["client".to_string()]);
    assert_eq!(f.description.as_deref(), Some("Says hi"));
    let rv = f.returns.as_ref().unwrap();
    assert!(rv.t_type.is_none());
    assert_eq!(rv.description.as_deref(), Some(""));
    assert_eq!(f.arguments.len(), 1);
    assert_eq!(f.arguments[0].t_type, "number");
}

#[test]
fn function_errors() {
    assert_eq!(read_func(&obj(vec![("name", text("f"))])).err(), Some(InputError::MissingField));
    assert_eq!(
        read_func(&obj(vec![("name", text("f")), ("realms", list(vec![Node::Other]))])).err(),
        Some(InputError::TypeMismatch)
    );
    assert_eq!(
        read_func(&obj(vec![("realms", list(vec![]))])).err(),
        Some(InputError::MissingField)
    );
    assert_eq!(
        read_func(&func_node(vec![("description", Node::Other)])).err(),
        Some(InputError::TypeMismatch)
    );
    assert_eq!(
        read_func(&func_node(vec![("returnValues", list(vec![]))])).err(),
        Some(InputError::MissingField)
    );
    assert_eq!(
        read_func(&func_node(vec![("returnValues", list(vec![text("x")]))])).err(),
        Some(InputError::TypeMismatch)
    );
    assert_eq!(
        read_func(&func_node(vec![("arguments", text("x"))])).err(),
        Some(InputError::TypeMismatch)
    );
    assert_eq!(
        read_func(&func_node(vec![("arguments", list(vec![obj(vec![])]))])).err(),
        Some(InputError::MissingField)
    );
}

#[test]
fn reads_container() {
    let n = obj(vec![
        ("name", text("Obj")),
        ("description", Node::Other),
        ("functions", list(vec![func_node(vec![])])),
    ]);
    let c = read_container(&n).ok().unwrap();
    assert_eq!(c.name, "Obj");
    assert!(c.description.is_none());
    assert_eq!(c.functions.as_ref().unwrap().len(), 1);
    let lib = build_container(&c, ContainerKind::Class).unwrap();
    assert_eq!(lib.funcs[0].params.len(), 1);
    assert_eq!(lib.funcs[0].params[0].data.t_type, "Obj");

    let empty = read_container(&obj(vec![("name", text("E"))])).ok().unwrap();
    assert!(empty.functions.is_none());
}

#[test]
fn container_errors() {
    assert_eq!(read_container(&obj(vec![])).err(), Some(InputError::MissingField));
    assert_eq!(
        read_container(&obj(vec![("name", text("L")), ("functions", text("x"))])).err(),
        Some(InputError::TypeMismatch)
    );
}

#[test]
fn top_level_must_be_a_list() {
    assert_eq!(read_func_list(&text("x")).err(), Some(InputError::MalformedInput));
    assert_eq!(read_container_list(&obj(vec![])).err(), Some(InputError::MalformedInput));
    assert_eq!(read_func_list(&list(vec![func_node(vec![])])).ok().unwrap().len(), 1);
    assert_eq!(
        read_container_list(&list(vec![obj(vec![("name", text("A"))]), text("b")])).err(),
        Some(InputError::TypeMismatch)
    );
    assert!(read_container_list(&list(vec![])).ok().unwrap().is_empty());
}
