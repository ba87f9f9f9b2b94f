//! Building the data model from input records.
use vstd::prelude::*;
use vstd::string::*;

use crate::escape::{escape_text, parse_description};
use crate::model::{ContainerKind, GData, GFunc, GLib, GParam};
use crate::scope::{classify, lowered_tags, scope_label, scope_of, Scope};

verus! {

/// An argument as the input gives it.
pub struct ArgRecord {
    pub name: String,
    pub t_type: String,
    pub description: Option<String>,
}

/// The first return value as the input gives it; a type that is absent or
/// not text is `None`.
pub struct ReturnRecord {
    pub t_type: Option<String>,
    pub description: Option<String>,
}

/// A function as the input gives it.
pub struct FuncRecord {
    pub name: String,
    pub realms: Vec<String>,
    pub description: Option<String>,
    pub returns: Option<ReturnRecord>,
    pub arguments: Vec<ArgRecord>,
}

/// A library or class as the input gives it; `functions` is `None` where the
/// input has no function list.
pub struct ContainerRecord {
    pub name: String,
    pub description: Option<String>,
    pub functions: Option<Vec<FuncRecord>>,
}

/// Optional text, empty where absent.
pub open spec fn text_or_empty(o: Option<String>) -> Seq<char> {
    match o {
        Some(s) => s@,
        None => Seq::empty(),
    }
}

/// Two escaped line breaks, which start an annotated line of a description.
pub open spec fn break_twice() -> Seq<char> {
    "\\r\\n\\r\\n"@
}

/// The annotated line on what a function returns, where the input describes it.
pub open spec fn returns_note(rec: FuncRecord) -> Seq<char> {
    match rec.returns {
        Some(rv) => match rv.description {
            Some(d) => break_twice() + "**Returns:** "@ + escape_text(d@),
            None => Seq::empty(),
        },
        None => Seq::empty(),
    }
}

/// A function's description: its own escaped text, the note on what it
/// returns, and the line that gives its scope.
pub open spec fn func_description(rec: FuncRecord, scope: Scope) -> Seq<char> {
    escape_text(text_or_empty(rec.description)) + returns_note(rec) + break_twice()
        + "**Scope:** "@ + scope_label(scope)
}

/// A function's return type: none without a return value, `nil` where the
/// return value gives no type.
pub open spec fn return_type(rec: FuncRecord) -> Seq<char> {
    match rec.returns {
        Some(rv) => match rv.t_type {
            Some(t) => t@,
            None => "nil"@,
        },
        None => Seq::empty(),
    }
}

/// Whether `p` is the parameter made from the argument `a`.
pub open spec fn param_of_arg(p: GParam, a: ArgRecord) -> bool {
    &&& p.data.name@ == a.name@
    &&& p.data.t_type@ == a.t_type@
    &&& p.data.descr@ == escape_text(text_or_empty(a.description))
}

/// Whether `p` is the receiver parameter of a method of the class `class_name`.
pub open spec fn is_receiver(p: GParam, class_name: Seq<char>) -> bool {
    &&& p.data.name@.len() == 0
    &&& p.data.t_type@ == class_name
    &&& p.data.descr@.len() == 0
}

/// Whether `f` is the function of `rec` with the given scope, its parameter
/// list led by a receiver of the class `receiver` where there is one.
pub open spec fn func_built(f: GFunc, rec: FuncRecord, scope: Scope, receiver: Option<Seq<char>>) -> bool {
    let off: int = if receiver is Some { 1 } else { 0 };
    &&& f.data.name@ == rec.name@
    &&& f.data.descr@ == func_description(rec, scope)
    &&& f.data.t_type@ == return_type(rec)
    &&& f.params@.len() == off + rec.arguments@.len()
    &&& (receiver matches Some(c) ==> is_receiver(f.params@[0], c))
    &&& forall|i: int|
        0 <= i < rec.arguments@.len() ==> param_of_arg(#[trigger] f.params@[off + i], rec.arguments@[i])
}

/// Optional text, cloned, empty where absent.
fn clone_or_empty(o: &Option<String>) -> (r: String)
    ensures
        r@ == text_or_empty(*o),
{
    match o {
        Some(s) => s.clone(),
        None => String::new(),
    }
}

/// Builds a function from its record and its scope; a method of a class gets
/// the class's receiver as its first parameter.
pub fn assemble_func(rec: &FuncRecord, scope: Scope, receiver: Option<&str>) -> (r: GFunc)
    ensures
        func_built(r, *rec, scope, match receiver { Some(c) => Some(c@), None => None }),
{
    let mut params: Vec<GParam> = Vec::new();
    if let Some(sign) = receiver {
        params.push(GParam {
            data: GData { name: String::new(), descr: String::new(), t_type: String::from_str(sign) },
        });
    }
    let off: usize = params.len();
    let d = clone_or_empty(&rec.description);
    let mut descr = parse_description(d.as_str());
    let mut r_type = String::new();
    proof {
        reveal_strlit("\\r\\n\\r\\n");
    }
    match &rec.returns {
        Some(rv) => {
            match &rv.t_type {
                Some(t) => r_type.append(t.as_str()),
                None => r_type.append("nil"),
            }
            match &rv.description {
                Some(rd) => {
                    descr.append("\\r\\n\\r\\n");
                    descr.append("**Returns:** ");
                    let e = parse_description(rd.as_str());
                    descr.append(e.as_str());
                },
                None => {},
            }
        },
        None => {},
    }
    descr.append("\\r\\n\\r\\n");
    descr.append("**Scope:** ");
    descr.append(scope.label());
    assert(descr@ =~= func_description(*rec, scope));
    assert(r_type@ =~= return_type(*rec));
    for i in 0..rec.arguments.len()
        invariant
            off == (if receiver is Some { 1usize } else { 0usize }),
            params@.len() == off + i,
            receiver matches Some(c) ==> is_receiver(params@[0], c@),
            forall|j: int|
                0 <= j < i ==> param_of_arg(#[trigger] params@[off + j], rec.arguments@[j]),
    {
        let a = &rec.arguments[i];
        let ad = clone_or_empty(&a.description);
        params.push(GParam {
            data: GData { name: a.name.clone(), t_type: a.t_type.clone(), descr: parse_description(ad.as_str()) },
        });
    }
    GFunc { data: GData { name: rec.name.clone(), descr, t_type: r_type }, params }
}

/// Builds a function from its record, its scope classified from its realm tags.
pub fn build_func(rec: &FuncRecord, receiver: Option<&str>) -> (r: GFunc)
    ensures
        func_built(r, *rec, scope_of(lowered_tags(rec.realms@)), match receiver { Some(c) => Some(c@), None => None }),
{
    let scope = classify(&rec.realms);
    assemble_func(rec, scope, receiver)
}

/// Whether `lib` holds the functions of `recs` in order, each a method of
/// the class `receiver` where there is one.
pub open spec fn funcs_built(lib: GLib, recs: Seq<FuncRecord>, receiver: Option<Seq<char>>) -> bool {
    &&& lib.funcs@.len() == recs.len()
    &&& forall|i: int|
        0 <= i < recs.len() ==> func_built(
            #[trigger] lib.funcs@[i],
            recs[i],
            scope_of(lowered_tags(recs[i].realms@)),
            receiver,
        )
}

/// Builds the functions of `recs` in order.
fn build_funcs(recs: &Vec<FuncRecord>, receiver: Option<&str>) -> (r: Vec<GFunc>)
    ensures
        r@.len() == recs@.len(),
        forall|i: int|
            0 <= i < recs@.len() ==> func_built(
                #[trigger] r@[i],
                recs@[i],
                scope_of(lowered_tags(recs@[i].realms@)),
                match receiver { Some(c) => Some(c@), None => None },
            ),
{
    let mut funcs: Vec<GFunc> = Vec::new();
    for i in 0..recs.len()
        invariant
            funcs@.len() == i,
            forall|j: int|
                0 <= j < i ==> func_built(
                    #[trigger] funcs@[j],
                    recs@[j],
                    scope_of(lowered_tags(recs@[j].realms@)),
                    match receiver { Some(c) => Some(c@), None => None },
                ),
    {
        funcs.push(build_func(&recs[i], receiver));
    }
    funcs
}

/// The container of the global functions.
pub fn build_globals(recs: &Vec<FuncRecord>) -> (r: GLib)
    ensures
        r.data.name@ == "Globals"@,
        r.data.descr@ == "Global functions"@,
        r.data.t_type@.len() == 0,
        funcs_built(r, recs@, None),
{
    let funcs = build_funcs(recs, None);
    GLib {
        data: GData {
            name: String::from_str("Globals"),
            descr: String::from_str("Global functions"),
            t_type: String::new(),
        },
        funcs,
    }
}

/// The container of a library or class record, or `None` where the record
/// has no function list. The methods of a class take its receiver first.
pub fn build_container(rec: &ContainerRecord, kind: ContainerKind) -> (r: Option<GLib>)
    ensures
        rec.functions is None <==> r is None,
        r matches Some(lib) ==> {
            &&& lib.data.name@ == rec.name@
            &&& lib.data.descr@ == escape_text(text_or_empty(rec.description))
            &&& lib.data.t_type@.len() == 0
            &&& funcs_built(
                lib,
                rec.functions->0@,
                if kind == ContainerKind::Class { Some(rec.name@) } else { None },
            )
        },
{
    match &rec.functions {
        None => None,
        Some(fs) => {
            let d = clone_or_empty(&rec.description);
            let descr = parse_description(d.as_str());
            let funcs = if kind == ContainerKind::Class {
                build_funcs(fs, Some(rec.name.as_str()))
            } else {
                build_funcs(fs, None)
            };
            Some(GLib { data: GData { name: rec.name.clone(), descr, t_type: String::new() }, funcs })
        },
    }
}

} // verus!
