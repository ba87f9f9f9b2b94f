use glib::{
    build_container, build_func, build_globals, classify, keyword_pattern, member_pattern,
    parse_description, scope_of_lowered, ArgRecord, ClassGenerable, ContainerKind, ContainerRecord,
    DocGenerable, FuncRecord, GData, GFunc, GLib, GParam, Generable, ReturnRecord, Scope,
    NEWLINE_CHAR,
};

fn s(t: &str) -> String {
    t.to_string()
}

fn data(name: &str, t_type: &str, descr: &str) -> GData {
    GData { name: s(name), t_type: s(t_type), descr: s(descr) }
}

fn param(name: &str, t_type: &str, descr: &str) -> GParam {
    GParam { data: data(name, t_type, descr) }
}

fn func(name: &str, params: Vec<GParam>) -> GFunc {
    GFunc { data: data(name, "", "d"), params }
}

fn lib(name: &str, funcs: Vec<GFunc>) -> GLib {
    GLib { data: data(name, "", ""), funcs }
}

fn record(name: &str, realms: &[&str]) -> FuncRecord {
    FuncRecord {
        name: s(name),
        realms: realms.iter().map(|r| s(r)).collect(),
        description: None,
        returns: None,
        arguments: Vec::new(),
    }
}

fn classify_tags(tags: &[&str]) -> Scope {
    classify(&tags.iter().map(|t| s(t)).collect())
}

#[test]
fn escape_quotes_and_newlines() {
    assert_eq!(parse_description("it's\nok"), "it\\'s\\r\\nok");
    assert_eq!(parse_description("plain text"), "plain text");
    assert_eq!(parse_description(""), "");
    assert_eq!(NEWLINE_CHAR, "\\r\\n");
}

#[test]
fn escape_leaves_no_raw_quote_or_newline() {
    let out = parse_description("a'b\n'c\n\n''");
    assert!(!out.contains('\n'));
    let chars: Vec<char> = out.chars().collect();
    for (i, c) in chars.iter().enumerate() {
        if *c == '\'' {
            assert!(i > 0 && chars[i - 1] == '\\');
        }
    }
}

#[test]
fn escape_is_not_idempotent() {
    let once = parse_description("'");
    assert_eq!(once, "\\'");
    assert_eq!(parse_description(&once), "\\\\'");
}

#[test]
fn classify_labels() {
    assert_eq!(classify_tags(&["client", "server"]).label(), "Shared");
    assert_eq!(classify_tags(&["server"]).label(), "Server");
    assert_eq!(classify_tags(&["client"]).label(), "Client");
    assert_eq!(classify_tags(&[]).label(), "Client");
    assert_eq!(classify_tags(&["menu"]), Scope::Client);
}

#[test]
fn classify_ignores_case() {
    assert_eq!(classify_tags(&["CLIENT", "Server"]), Scope::Shared);
    assert_eq!(classify_tags(&["SERVER"]), Scope::Server);
}

#[test]
fn scope_of_lowered_tags_is_exact() {
    assert_eq!(scope_of_lowered(&vec![s("client"), s("server")]), Scope::Shared);
    assert_eq!(scope_of_lowered(&vec![s("Server")]), Scope::Client);
    assert_eq!(scope_of_lowered(&vec![s("server"), s("menu")]), Scope::Server);
}

#[test]
fn param_rendering() {
    assert_eq!(param("x", "number", "n").generate(), "name = 'x'\ntype = 'number'\ndescription = 'n'");
    assert_eq!(param("", "Obj", "").generate(), "type = 'Obj'");
}

#[test]
fn function_without_params_has_no_arguments_block() {
    let f = func("f", vec![]);
    assert_eq!(f.generate(), "[f]\ndescription = 'd'\n");
}

#[test]
fn function_separators_between_params() {
    let one = func("f", vec![param("a", "number", "")]);
    assert_eq!(one.generate().matches("``````````").count(), 0);
    assert!(one.generate().contains("[[.args]]\n"));
    let three = func("g", vec![param("a", "t", ""), param("b", "t", ""), param("c", "t", "")]);
    let out = three.generate();
    assert_eq!(out.matches("``````````").count(), 2);
    assert_eq!(
        out,
        "[g]\ndescription = 'd'\n[[.args]]\n\
         name = 'a'\ntype = 't'\ndescription = ''\n``````````\n\
         name = 'b'\ntype = 't'\ndescription = ''\n``````````\n\
         name = 'c'\ntype = 't'\ndescription = ''\n"
    );
}

#[test]
fn function_with_return_type() {
    let f = GFunc { data: data("h", "string", "x"), params: vec![] };
    assert_eq!(f.generate(), "[h]\ndescription = 'x'\n[[.returns]]\ntype = 'string'\n");
}

#[test]
fn global_header_text() {
    let mut out = String::from("> ");
    lib("Globals", vec![]).generate_globalheader(&mut out);
    assert_eq!(out, "> <default>\ntype = 'function'\n\n[arg]\ntype = 'table'\n\n");
}

#[test]
fn class_header_has_no_source_section() {
    let mut out = String::new();
    lib("Obj", vec![]).generate_classheader(&mut out);
    assert_eq!(
        out,
        "<default>\ntype = 'function'\n\nparent = {\n\t1 = {\n\t\ttype = 'object',\n\t\tname = 'Obj'\n\t},\n}\n\n"
    );
    assert!(!out.contains("[[.source]]"));
    assert!(!out.contains("type = 'table'"));
}

#[test]
fn library_header_has_two_source_blocks() {
    let mut out = String::new();
    lib("Lib", vec![]).generate_libheader(&mut out);
    assert_eq!(
        out,
        "[Lib]\ntype = 'table'\n[[.source]]\ntype = 'global'\n``````````\ntype = 'library'\nname = 'Lib'\n\
         \n<default>\ntype = 'function'\nparent = {\n\t1 = {\n\t\ttype = 'global',\n\t\tname = 'Lib'\n\t},\n\
         \t2 = {\n\t\ttype = 'library',\n\t\tname = 'Lib'\n\t}\n}\n\n"
    );
    let sources = &out[..out.find("<default>").unwrap()];
    assert_eq!(sources.matches("[[.source]]").count(), 1);
    assert_eq!(sources.matches("``````````").count(), 1);
}

#[test]
fn render_dispatches_on_kind() {
    let l = lib("Obj", vec![func("m", vec![])]);
    let mut header = String::new();
    l.generate_classheader(&mut header);
    assert_eq!(l.render(ContainerKind::Class), format!("{}[m]\ndescription = 'd'\n\n", header));
    let mut g = String::new();
    l.generate_header(ContainerKind::Global, &mut g);
    assert!(g.starts_with("<default>\ntype = 'function'\n\n[arg]"));
}

#[test]
fn container_body_keeps_order() {
    let l = lib("L", vec![func("a", vec![]), func("b", vec![])]);
    assert_eq!(
        Generable::generate(&l),
        "[a]\ndescription = 'd'\n\n[b]\ndescription = 'd'\n\n"
    );
    assert_eq!(
        DocGenerable::generate(&l),
        "[a]\ndescription = 'd'\n\n[b]\ndescription = 'd'\n\n"
    );
}

#[test]
fn library_scenario_output() {
    let mut f = record("f", &["client"]);
    f.arguments.push(ArgRecord { name: s("x"), t_type: s("number"), description: None });
    f.returns = Some(ReturnRecord { t_type: Some(s("string")), description: None });
    let rec = ContainerRecord { name: s("Lib"), description: None, functions: Some(vec![f]) };
    let l = build_container(&rec, ContainerKind::Library).unwrap();
    let out = l.render(ContainerKind::Library);
    assert!(out.contains("[f]"));
    assert!(out.contains("type = 'number'"));
    assert!(out.contains("type = 'string'"));
    assert!(out.contains("**Scope:** Client'"));
    assert_eq!(l.funcs[0].data.descr, "\\r\\n\\r\\n**Scope:** Client");
}

#[test]
fn class_method_gets_receiver() {
    let rec = ContainerRecord {
        name: s("Obj"),
        description: Some(s("an 'object'")),
        functions: Some(vec![record("m", &["server"])]),
    };
    let l = build_container(&rec, ContainerKind::Class).unwrap();
    assert_eq!(l.data.descr, "an \\'object\\'");
    let m = &l.funcs[0];
    assert_eq!(m.params.len(), 1);
    assert_eq!(m.params[0].data.name, "");
    assert_eq!(m.params[0].data.t_type, "Obj");
    assert_eq!(m.params[0].generate(), "type = 'Obj'");
}

#[test]
fn container_without_functions_is_skipped() {
    let rec = ContainerRecord { name: s("Empty"), description: None, functions: None };
    assert!(build_container(&rec, ContainerKind::Library).is_none());
}

#[test]
fn function_description_notes() {
    let mut f = record("f", &["Client", "SERVER"]);
    f.description = Some(s("Does it.\nWell"));
    f.returns = Some(ReturnRecord { t_type: None, description: Some(s("the 'thing'")) });
    f.arguments.push(ArgRecord { name: s("a"), t_type: s("any"), description: Some(s("x'y")) });
    let g = build_func(&f, None);
    assert_eq!(g.data.t_type, "nil");
    assert_eq!(
        g.data.descr,
        "Does it.\\r\\nWell\\r\\n\\r\\n**Returns:** the \\'thing\\'\\r\\n\\r\\n**Scope:** Shared"
    );
    assert_eq!(g.params.len(), 1);
    assert_eq!(g.params[0].data.descr, "x\\'y");
}

#[test]
fn globals_container() {
    let g = build_globals(&vec![record("print", &["client", "server"]), record("Msg", &[])]);
    assert_eq!(g.data.name, "Globals");
    assert_eq!(g.data.descr, "Global functions");
    assert_eq!(g.funcs.len(), 2);
    assert!(g.funcs[0].params.is_empty());
    assert_eq!(g.funcs[1].data.name, "Msg");
}

#[test]
fn keyword_pattern_text() {
    let g = lib("Globals", vec![func("print", vec![]), func("Msg", vec![])]);
    assert_eq!(
        keyword_pattern(&g),
        r#"(?<![^.]\\.|:)\\b(false|nil|true|_ENV|_G|_VERSION|print|Msg\\b|(?<![.])\\.{3}(?!\\.)"#
    );
    assert_eq!(
        keyword_pattern(&lib("Globals", vec![])),
        r#"(?<![^.]\\.|:)\\b(false|nil|true|_ENV|_G|_VERSION\\b|(?<![.])\\.{3}(?!\\.)"#
    );
}

#[test]
fn member_pattern_text() {
    let libs = vec![
        lib("math", vec![func("abs", vec![]), func("floor", vec![])]),
        lib("empty", vec![]),
        lib("net", vec![func("Send", vec![])]),
    ];
    assert_eq!(member_pattern(&libs), r#"\\b(math\\.(abs|floor)|empty\\.()|net\\.(Send))\\b"#);
}

#[test]
fn member_pattern_without_libraries() {
    let out = member_pattern(&vec![]);
    assert_eq!(out, r#"\\b()\\b"#);
    assert_eq!(out.matches('(').count(), out.matches(')').count());
    assert!(out.starts_with(r#"\\b("#) && out.ends_with(r#")\\b"#));
}
