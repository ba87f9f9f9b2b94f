//! Highlight patterns: regex sources built from the generated names.
//!
//! The backslashes of the fixed parts are doubled on purpose: the consumer of
//! these patterns unescapes them once more.
use vstd::prelude::*;
use vstd::string::*;

use crate::model::{GFunc, GLib};

verus! {

/// The fixed start of the global-keyword pattern: the reserved words.
pub open spec fn keyword_prefix() -> Seq<char> {
    "(?<![^.]\\\\.|:)\\\\b(false|nil|true|_ENV|_G|_VERSION"@
}

/// The fixed end of the global-keyword pattern: the vararg alternative.
pub open spec fn keyword_suffix() -> Seq<char> {
    "\\\\b|(?<![.])\\\\.{3}(?!\\\\.)"@
}

/// One alternative `|<name>` for each function, in order.
pub open spec fn name_branches(fs: Seq<GFunc>) -> Seq<char>
    decreases fs.len(),
{
    if fs.len() == 0 {
        Seq::empty()
    } else {
        name_branches(fs.drop_last()) + "|"@ + fs.last().data.name@
    }
}

/// The functions' names joined by `|`.
pub open spec fn name_alternation(fs: Seq<GFunc>) -> Seq<char>
    decreases fs.len(),
{
    if fs.len() == 0 {
        Seq::empty()
    } else if fs.len() == 1 {
        fs[0].data.name@
    } else {
        name_alternation(fs.drop_last()) + "|"@ + fs.last().data.name@
    }
}

/// The branch `<name>\.(<fn1>|<fn2>|...)` of one library.
pub open spec fn lib_branch(lib: GLib) -> Seq<char> {
    lib.data.name@ + "\\\\.("@ + name_alternation(lib.funcs@) + ")"@
}

/// The libraries' branches joined by `|`.
pub open spec fn lib_alternation(ls: Seq<GLib>) -> Seq<char>
    decreases ls.len(),
{
    if ls.len() == 0 {
        Seq::empty()
    } else if ls.len() == 1 {
        lib_branch(ls[0])
    } else {
        lib_alternation(ls.drop_last()) + "|"@ + lib_branch(ls.last())
    }
}

/// The member-access pattern over `ls`, between word boundaries.
pub open spec fn member_pattern_text(ls: Seq<GLib>) -> Seq<char> {
    "\\\\b("@ + lib_alternation(ls) + ")\\\\b"@
}

/// The global-keyword pattern over the functions of the globals.
pub open spec fn keyword_pattern_text(fs: Seq<GFunc>) -> Seq<char> {
    keyword_prefix() + name_branches(fs) + keyword_suffix()
}

/// The pattern of reserved words and global function names.
pub fn keyword_pattern(globals: &GLib) -> (r: String)
    ensures
        r@ == keyword_pattern_text(globals.funcs@),
{
    let mut r = String::from_str("(?<![^.]\\\\.|:)\\\\b(false|nil|true|_ENV|_G|_VERSION");
    let fs = &globals.funcs;
    for i in 0..fs.len()
        invariant
            fs == &globals.funcs,
            r@ == keyword_prefix() + name_branches(fs@.take(i as int)),
    {
        r.append("|");
        r.append(fs[i].data.name.as_str());
        assert(fs@.take(i + 1).drop_last() =~= fs@.take(i as int));
        assert(r@ =~= keyword_prefix() + name_branches(fs@.take(i + 1)));
    }
    assert(fs@.take(fs.len() as int) =~= fs@);
    r.append("\\\\b|(?<![.])\\\\.{3}(?!\\\\.)");
    r
}

/// The names of `fs` joined by `|`, added to `out`.
fn push_names(out: &mut String, fs: &Vec<GFunc>)
    ensures
        final(out)@ == old(out)@ + name_alternation(fs@),
{
    let ghost start = out@;
    for i in 0..fs.len()
        invariant
            out@ == start + name_alternation(fs@.take(i as int)),
    {
        if i > 0 {
            out.append("|");
        }
        out.append(fs[i].data.name.as_str());
        proof {
            assert(fs@.take(i + 1).drop_last() =~= fs@.take(i as int));
            if i == 0 {
                assert(fs@.take(0) =~= Seq::<GFunc>::empty());
            }
            assert(out@ =~= start + name_alternation(fs@.take(i + 1)));
        }
    }
    assert(fs@.take(fs.len() as int) =~= fs@);
}

/// The pattern of `<library>.<function>` accesses, over the libraries in order.
pub fn member_pattern(libs: &Vec<GLib>) -> (r: String)
    ensures
        r@ == member_pattern_text(libs@),
{
    let mut r = String::from_str("\\\\b(");
    for i in 0..libs.len()
        invariant
            r@ == "\\\\b("@ + lib_alternation(libs@.take(i as int)),
    {
        if i > 0 {
            r.append("|");
        }
        let ghost mid = r@;
        r.append(libs[i].data.name.as_str());
        r.append("\\\\.(");
        push_names(&mut r, &libs[i].funcs);
        r.append(")");
        proof {
            assert(r@ =~= mid + lib_branch(libs@[i as int]));
            assert(libs@.take(i + 1).drop_last() =~= libs@.take(i as int));
            if i == 0 {
                assert(libs@.take(0) =~= Seq::<GLib>::empty());
            }
            assert(r@ =~= "\\\\b("@ + lib_alternation(libs@.take(i + 1)));
        }
    }
    assert(libs@.take(libs.len() as int) =~= libs@);
    r.append(")\\\\b");
    r
}

} // verus!
