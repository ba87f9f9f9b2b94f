//! Decoding of the parsed input tree into records.
use vstd::prelude::*;
use vstd::string::*;

use crate::builder::{ArgRecord, ContainerRecord, FuncRecord, ReturnRecord};

verus! {

/// A node of the parsed input: text, a list, an object, or any other value.
pub enum Node {
    Other,
    Text(String),
    List(Vec<Node>),
    Object(Vec<Field>),
}

/// A key of an object and its value.
pub struct Field {
    pub key: String,
    pub value: Node,
}

/// Why a record could not be read.
#[derive(Clone, Copy, Debug, PartialEq, Eq, Structural)]
pub enum InputError {
    /// A required key is absent.
    MissingField,
    /// A value has the wrong shape.
    TypeMismatch,
    /// The input is not a list of records.
    MalformedInput,
}

/// The value of the first field of `fields` under `key`.
pub open spec fn lookup(fields: Seq<Field>, key: Seq<char>) -> Option<Node>
    decreases fields.len(),
{
    if fields.len() == 0 {
        None
    } else if fields[0].key@ == key {
        Some(fields[0].value)
    } else {
        lookup(fields.drop_first(), key)
    }
}

/// The text of a node, if it is text.
pub open spec fn text_of(n: Node) -> Option<Seq<char>> {
    match n {
        Node::Text(s) => Some(s@),
        _ => None,
    }
}

/// The value under `key` in `fields`.
pub fn get<'a>(fields: &'a Vec<Field>, key: &str) -> (r: Option<&'a Node>)
    ensures
        match r {
            Some(n) => lookup(fields@, key@) == Some(*n),
            None => lookup(fields@, key@) is None,
        },
{
    let k = String::from_str(key);
    let mut i: usize = 0;
    assert(fields@.subrange(0, fields@.len() as int) =~= fields@);
    while i < fields.len()
        invariant
            i <= fields@.len(),
            k@ == key@,
            lookup(fields@, key@) == lookup(fields@.subrange(i as int, fields@.len() as int), key@),
        decreases fields@.len() - i,
    {
        let ghost rest = fields@.subrange(i as int, fields@.len() as int);
        assert(rest[0] == fields@[i as int]);
        if fields[i].key == k {
            return Some(&fields[i].value);
        }
        assert(rest.drop_first() =~= fields@.subrange(i + 1, fields@.len() as int));
        i = i + 1;
    }
    None
}

/// The first of two possible errors.
pub open spec fn first_error(a: Option<InputError>, b: Option<InputError>) -> Option<InputError> {
    if a is Some {
        a
    } else {
        b
    }
}

/// The error of a required text field: absent, or not text.
pub open spec fn required_text_error(fields: Seq<Field>, key: Seq<char>) -> Option<InputError> {
    match lookup(fields, key) {
        None => Some(InputError::MissingField),
        Some(n) => if text_of(n) is Some {
            None
        } else {
            Some(InputError::TypeMismatch)
        },
    }
}

/// The text under `key`, if there is text there.
pub open spec fn text_at(fields: Seq<Field>, key: Seq<char>) -> Option<Seq<char>> {
    match lookup(fields, key) {
        Some(n) => text_of(n),
        None => None,
    }
}

/// The view of optional text.
pub open spec fn opt_view(o: Option<String>) -> Option<Seq<char>> {
    match o {
        Some(s) => Some(s@),
        None => None,
    }
}

/// The error of an argument node: not an object, or a name or type that is
/// absent or not text.
pub open spec fn arg_error(n: Node) -> Option<InputError> {
    match n {
        Node::Object(fs) => first_error(
            required_text_error(fs@, "name"@),
            required_text_error(fs@, "type"@),
        ),
        _ => Some(InputError::TypeMismatch),
    }
}

/// Whether `a` holds what the argument node `n` gives.
pub open spec fn arg_read(n: Node, a: ArgRecord) -> bool {
    match n {
        Node::Object(fs) => {
            &&& text_at(fs@, "name"@) == Some(a.name@)
            &&& text_at(fs@, "type"@) == Some(a.t_type@)
            &&& opt_view(a.description) == text_at(fs@, "description"@)
        },
        _ => false,
    }
}

/// The text under a required key, or its error.
fn required_text(fields: &Vec<Field>, key: &str) -> (r: Result<String, InputError>)
    ensures
        match r {
            Ok(t) => required_text_error(fields@, key@) is None && text_at(fields@, key@) == Some(t@),
            Err(e) => required_text_error(fields@, key@) == Some(e),
        },
{
    match get(fields, key) {
        None => Err(InputError::MissingField),
        Some(Node::Text(t)) => Ok(t.clone()),
        Some(_) => Err(InputError::TypeMismatch),
    }
}

/// The text under `key`, where there is text there.
fn optional_text(fields: &Vec<Field>, key: &str) -> (r: Option<String>)
    ensures
        opt_view(r) == text_at(fields@, key@),
{
    match get(fields, key) {
        Some(Node::Text(t)) => Some(t.clone()),
        _ => None,
    }
}

/// Reads an argument.
pub fn read_arg(n: &Node) -> (r: Result<ArgRecord, InputError>)
    ensures
        match r {
            Ok(a) => arg_error(*n) is None && arg_read(*n, a),
            Err(e) => arg_error(*n) == Some(e),
        },
{
    match n {
        Node::Object(fs) => {
            let name = match required_text(fs, "name") {
                Ok(t) => t,
                Err(e) => return Err(e),
            };
            let t_type = match required_text(fs, "type") {
                Ok(t) => t,
                Err(e) => return Err(e),
            };
            Ok(ArgRecord { name, t_type, description: optional_text(fs, "description") })
        },
        _ => Err(InputError::TypeMismatch),
    }
}

/// The first error among the argument nodes, in order.
pub open spec fn args_error(ns: Seq<Node>) -> Option<InputError>
    decreases ns.len(),
{
    if ns.len() == 0 {
        None
    } else {
        first_error(arg_error(ns[0]), args_error(ns.drop_first()))
    }
}

/// Reads a list of arguments, stopping at the first error.
fn read_args(ns: &Vec<Node>) -> (r: Result<Vec<ArgRecord>, InputError>)
    ensures
        match r {
            Ok(v) => {
                &&& args_error(ns@) is None
                &&& v@.len() == ns@.len()
                &&& forall|i: int| 0 <= i < ns@.len() ==> arg_read(ns@[i], #[trigger] v@[i])
            },
            Err(e) => args_error(ns@) == Some(e),
        },
{
    let mut v: Vec<ArgRecord> = Vec::new();
    assert(ns@.subrange(0, ns@.len() as int) =~= ns@);
    for i in 0..ns.len()
        invariant
            v@.len() == i,
            args_error(ns@) == args_error(ns@.subrange(i as int, ns@.len() as int)),
            forall|j: int| 0 <= j < i ==> arg_read(ns@[j], #[trigger] v@[j]),
    {
        let ghost rest = ns@.subrange(i as int, ns@.len() as int);
        assert(rest[0] == ns@[i as int]);
        assert(rest.drop_first() =~= ns@.subrange(i + 1, ns@.len() as int));
        match read_arg(&ns[i]) {
            Ok(a) => v.push(a),
            Err(e) => return Err(e),
        }
    }
    assert(ns@.subrange(ns@.len() as int, ns@.len() as int) =~= Seq::<Node>::empty());
    Ok(v)
}

/// The error of the realm list of a function.
pub open spec fn realms_error(fields: Seq<Field>) -> Option<InputError> {
    match lookup(fields, "realms"@) {
        None => Some(InputError::MissingField),
        Some(Node::List(v)) => if exists|i: int| 0 <= i < v@.len() && text_of(#[trigger] v@[i]) is None {
            Some(InputError::TypeMismatch)
        } else {
            None
        },
        Some(_) => Some(InputError::TypeMismatch),
    }
}

/// The error of an optional text field: present but not text.
pub open spec fn optional_text_error(fields: Seq<Field>, key: Seq<char>) -> Option<InputError> {
    match lookup(fields, key) {
        Some(n) => if text_of(n) is None {
            Some(InputError::TypeMismatch)
        } else {
            None
        },
        None => None,
    }
}

/// The error of the return values: present but not a list, an empty list, or
/// a first value that is not an object.
pub open spec fn returns_error(fields: Seq<Field>) -> Option<InputError> {
    match lookup(fields, "returnValues"@) {
        None => None,
        Some(Node::List(v)) => if v@.len() == 0 {
            Some(InputError::MissingField)
        } else if v@[0] is Object {
            None
        } else {
            Some(InputError::TypeMismatch)
        },
        Some(_) => Some(InputError::TypeMismatch),
    }
}

/// The error of the arguments: present but not a list, or a bad argument.
pub open spec fn arguments_error(fields: Seq<Field>) -> Option<InputError> {
    match lookup(fields, "arguments"@) {
        None => None,
        Some(Node::List(v)) => args_error(v@),
        Some(_) => Some(InputError::TypeMismatch),
    }
}

/// The error of a function node, the checks taken in the order realms, name,
/// description, return values, arguments.
pub open spec fn func_error(n: Node) -> Option<InputError> {
    match n {
        Node::Object(fs) => first_error(
            realms_error(fs@),
            first_error(
                required_text_error(fs@, "name"@),
                first_error(
                    optional_text_error(fs@, "description"@),
                    first_error(returns_error(fs@), arguments_error(fs@)),
                ),
            ),
        ),
        _ => Some(InputError::TypeMismatch),
    }
}

/// Whether `rv` holds what the return-value object `rfs` gives: its type
/// where it is text, and its description, empty where it is not text.
pub open spec fn return_read(rfs: Seq<Field>, rv: ReturnRecord) -> bool {
    &&& opt_view(rv.t_type) == text_at(rfs, "type"@)
    &&& opt_view(rv.description) == match lookup(rfs, "description"@) {
        None => None,
        Some(d) => Some(
            match text_of(d) {
                Some(t) => t,
                None => Seq::empty(),
            },
        ),
    }
}

/// Whether `rec` holds what the function node `n` gives.
pub open spec fn func_read(n: Node, rec: FuncRecord) -> bool {
    match n {
        Node::Object(fs) => {
            &&& (lookup(fs@, "realms"@) matches Some(Node::List(v)) && rec.realms@.len() == v@.len()
                && forall|i: int|
                0 <= i < v@.len() ==> text_of(#[trigger] v@[i]) == Some(rec.realms@[i]@))
            &&& text_at(fs@, "name"@) == Some(rec.name@)
            &&& opt_view(rec.description) == text_at(fs@, "description"@)
            &&& match lookup(fs@, "returnValues"@) {
                None => rec.returns is None,
                Some(Node::List(v)) => v@.len() > 0 && (v@[0] matches Node::Object(rfs)
                    && rec.returns matches Some(rv) && return_read(rfs@, rv)),
                Some(_) => false,
            }
            &&& match lookup(fs@, "arguments"@) {
                None => rec.arguments@.len() == 0,
                Some(Node::List(v)) => rec.arguments@.len() == v@.len() && forall|i: int|
                    0 <= i < v@.len() ==> arg_read(v@[i], #[trigger] rec.arguments@[i]),
                Some(_) => false,
            }
        },
        _ => false,
    }
}

/// Reads a list of realm tags.
fn read_realms(fields: &Vec<Field>) -> (r: Result<Vec<String>, InputError>)
    ensures
        match r {
            Ok(v) => realms_error(fields@) is None && (lookup(fields@, "realms"@) matches Some(
                Node::List(ns),
            ) && v@.len() == ns@.len() && forall|i: int|
                0 <= i < ns@.len() ==> text_of(#[trigger] ns@[i]) == Some(v@[i]@)),
            Err(e) => realms_error(fields@) == Some(e),
        },
{
    match get(fields, "realms") {
        None => Err(InputError::MissingField),
        Some(Node::List(ns)) => {
            let mut v: Vec<String> = Vec::new();
            for i in 0..ns.len()
                invariant
                    lookup(fields@, "realms"@) == Some(Node::List(*ns)),
                    v@.len() == i,
                    forall|j: int| 0 <= j < i ==> text_of(#[trigger] ns@[j]) == Some(v@[j]@),
            {
                match &ns[i] {
                    Node::Text(t) => v.push(t.clone()),
                    _ => {
                        assert(text_of(ns@[i as int]) is None);
                        return Err(InputError::TypeMismatch);
                    },
                }
            }
            assert(!exists|i: int| 0 <= i < ns@.len() && text_of(#[trigger] ns@[i]) is None);
            Ok(v)
        },
        Some(_) => Err(InputError::TypeMismatch),
    }
}

/// Reads the first return value.
fn read_returns(fields: &Vec<Field>) -> (r: Result<Option<ReturnRecord>, InputError>)
    ensures
        match r {
            Ok(o) => returns_error(fields@) is None && match lookup(fields@, "returnValues"@) {
                None => o is None,
                Some(Node::List(v)) => v@.len() > 0 && (v@[0] matches Node::Object(rfs)
                    && o matches Some(rv) && return_read(rfs@, rv)),
                Some(_) => false,
            },
            Err(e) => returns_error(fields@) == Some(e),
        },
{
    match get(fields, "returnValues") {
        None => Ok(None),
        Some(Node::List(v)) => {
            if v.len() == 0 {
                return Err(InputError::MissingField);
            }
            match &v[0] {
                Node::Object(rfs) => {
                    let description = match get(rfs, "description") {
                        None => None,
                        Some(Node::Text(t)) => Some(t.clone()),
                        Some(_) => Some(String::new()),
                    };
                    Ok(Some(ReturnRecord { t_type: optional_text(rfs, "type"), description }))
                },
                _ => Err(InputError::TypeMismatch),
            }
        },
        Some(_) => Err(InputError::TypeMismatch),
    }
}

/// Reads a function.
pub fn read_func(n: &Node) -> (r: Result<FuncRecord, InputError>)
    ensures
        match r {
            Ok(rec) => func_error(*n) is None && func_read(*n, rec),
            Err(e) => func_error(*n) == Some(e),
        },
{
    let fs = match n {
        Node::Object(fs) => fs,
        _ => return Err(InputError::TypeMismatch),
    };
    let realms = match read_realms(fs) {
        Ok(v) => v,
        Err(e) => return Err(e),
    };
    let name = match required_text(fs, "name") {
        Ok(t) => t,
        Err(e) => return Err(e),
    };
    let description = match get(fs, "description") {
        None => None,
        Some(Node::Text(t)) => Some(t.clone()),
        Some(_) => return Err(InputError::TypeMismatch),
    };
    let ret = match read_returns(fs) {
        Ok(o) => o,
        Err(e) => return Err(e),
    };
    let arguments = match get(fs, "arguments") {
        None => Vec::new(),
        Some(Node::List(v)) => match read_args(v) {
            Ok(a) => a,
            Err(e) => return Err(e),
        },
        Some(_) => return Err(InputError::TypeMismatch),
    };
    Ok(FuncRecord { name, realms, description, returns: ret, arguments })
}

/// The first error among the function nodes, in order.
pub open spec fn funcs_error(ns: Seq<Node>) -> Option<InputError>
    decreases ns.len(),
{
    if ns.len() == 0 {
        None
    } else {
        first_error(func_error(ns[0]), funcs_error(ns.drop_first()))
    }
}

/// Reads a list of functions, stopping at the first error.
fn read_funcs(ns: &Vec<Node>) -> (r: Result<Vec<FuncRecord>, InputError>)
    ensures
        match r {
            Ok(v) => {
                &&& funcs_error(ns@) is None
                &&& v@.len() == ns@.len()
                &&& forall|i: int| 0 <= i < ns@.len() ==> func_read(ns@[i], #[trigger] v@[i])
            },
            Err(e) => funcs_error(ns@) == Some(e),
        },
{
    let mut v: Vec<FuncRecord> = Vec::new();
    assert(ns@.subrange(0, ns@.len() as int) =~= ns@);
    for i in 0..ns.len()
        invariant
            v@.len() == i,
            funcs_error(ns@) == funcs_error(ns@.subrange(i as int, ns@.len() as int)),
            forall|j: int| 0 <= j < i ==> func_read(ns@[j], #[trigger] v@[j]),
    {
        let ghost rest = ns@.subrange(i as int, ns@.len() as int);
        assert(rest[0] == ns@[i as int]);
        assert(rest.drop_first() =~= ns@.subrange(i + 1, ns@.len() as int));
        match read_func(&ns[i]) {
            Ok(f) => v.push(f),
            Err(e) => return Err(e),
        }
    }
    assert(ns@.subrange(ns@.len() as int, ns@.len() as int) =~= Seq::<Node>::empty());
    Ok(v)
}

/// The error of a library or class node: not an object, a name that is
/// absent or not text, or a function list that is not a list or holds a bad
/// function.
pub open spec fn container_error(n: Node) -> Option<InputError> {
    match n {
        Node::Object(fs) => first_error(
            required_text_error(fs@, "name"@),
            match lookup(fs@, "functions"@) {
                None => None,
                Some(Node::List(v)) => funcs_error(v@),
                Some(_) => Some(InputError::TypeMismatch),
            },
        ),
        _ => Some(InputError::TypeMismatch),
    }
}

/// Whether `rec` holds what the library or class node `n` gives.
pub open spec fn container_read(n: Node, rec: ContainerRecord) -> bool {
    match n {
        Node::Object(fs) => {
            &&& text_at(fs@, "name"@) == Some(rec.name@)
            &&& opt_view(rec.description) == text_at(fs@, "description"@)
            &&& match lookup(fs@, "functions"@) {
                None => rec.functions is None,
                Some(Node::List(v)) => rec.functions matches Some(f) && f@.len() == v@.len()
                    && forall|i: int| 0 <= i < v@.len() ==> func_read(v@[i], #[trigger] f@[i]),
                Some(_) => false,
            }
        },
        _ => false,
    }
}

/// Reads a library or class.
pub fn read_container(n: &Node) -> (r: Result<ContainerRecord, InputError>)
    ensures
        match r {
            Ok(rec) => container_error(*n) is None && container_read(*n, rec),
            Err(e) => container_error(*n) == Some(e),
        },
{
    let fs = match n {
        Node::Object(fs) => fs,
        _ => return Err(InputError::TypeMismatch),
    };
    let name = match required_text(fs, "name") {
        Ok(t) => t,
        Err(e) => return Err(e),
    };
    let functions = match get(fs, "functions") {
        None => None,
        Some(Node::List(v)) => match read_funcs(v) {
            Ok(f) => Some(f),
            Err(e) => return Err(e),
        },
        Some(_) => return Err(InputError::TypeMismatch),
    };
    Ok(ContainerRecord { name, description: optional_text(fs, "description"), functions })
}

/// Reads the list of global functions; the input must be a list.
pub fn read_func_list(n: &Node) -> (r: Result<Vec<FuncRecord>, InputError>)
    ensures
        match (*n, r) {
            (Node::List(ns), Ok(v)) => {
                &&& funcs_error(ns@) is None
                &&& v@.len() == ns@.len()
                &&& forall|i: int| 0 <= i < ns@.len() ==> func_read(ns@[i], #[trigger] v@[i])
            },
            (Node::List(ns), Err(e)) => funcs_error(ns@) == Some(e),
            (_, r) => r == Err::<Vec<FuncRecord>, InputError>(InputError::MalformedInput),
        },
{
    match n {
        Node::List(ns) => read_funcs(ns),
        _ => Err(InputError::MalformedInput),
    }
}

/// The first error among the library or class nodes, in order.
pub open spec fn containers_error(ns: Seq<Node>) -> Option<InputError>
    decreases ns.len(),
{
    if ns.len() == 0 {
        None
    } else {
        first_error(container_error(ns[0]), containers_error(ns.drop_first()))
    }
}

/// Reads a list of libraries or classes, stopping at the first error.
fn read_containers(ns: &Vec<Node>) -> (r: Result<Vec<ContainerRecord>, InputError>)
    ensures
        match r {
            Ok(v) => {
                &&& containers_error(ns@) is None
                &&& v@.len() == ns@.len()
                &&& forall|i: int| 0 <= i < ns@.len() ==> container_read(ns@[i], #[trigger] v@[i])
            },
            Err(e) => containers_error(ns@) == Some(e),
        },
{
    let mut v: Vec<ContainerRecord> = Vec::new();
    assert(ns@.subrange(0, ns@.len() as int) =~= ns@);
    for i in 0..ns.len()
        invariant
            v@.len() == i,
            containers_error(ns@) == containers_error(ns@.subrange(i as int, ns@.len() as int)),
            forall|j: int| 0 <= j < i ==> container_read(ns@[j], #[trigger] v@[j]),
    {
        let ghost rest = ns@.subrange(i as int, ns@.len() as int);
        assert(rest[0] == ns@[i as int]);
        assert(rest.drop_first() =~= ns@.subrange(i + 1, ns@.len() as int));
        match read_container(&ns[i]) {
            Ok(c) => v.push(c),
            Err(e) => return Err(e),
        }
    }
    assert(ns@.subrange(ns@.len() as int, ns@.len() as int) =~= Seq::<Node>::empty());
    Ok(v)
}

/// Reads the list of libraries or classes; the input must be a list.
pub fn read_container_list(n: &Node) -> (r: Result<Vec<ContainerRecord>, InputError>)
    ensures
        match (*n, r) {
            (Node::List(ns), Ok(v)) => {
                &&& containers_error(ns@) is None
                &&& v@.len() == ns@.len()
                &&& forall|i: int| 0 <= i < ns@.len() ==> container_read(ns@[i], #[trigger] v@[i])
            },
            (Node::List(ns), Err(e)) => containers_error(ns@) == Some(e),
            (_, r) => r == Err::<Vec<ContainerRecord>, InputError>(InputError::MalformedInput),
        },
{
    match n {
        Node::List(ns) => read_containers(ns),
        _ => Err(InputError::MalformedInput),
    }
}

} // verus!
