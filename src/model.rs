//! The data model and its rendering into the `key = 'value'` markup.
use vstd::prelude::*;
use vstd::string::*;

verus! {

/// A name, a type and a description: the shape shared by a parameter, a
/// return type and a container's own identity.
pub struct GData {
    pub name: String,
    pub t_type: String,
    pub descr: String,
}

/// A parameter; an empty name marks the receiver of a class method.
pub struct GParam {
    pub data: GData,
}

/// A function and its parameters, in declaration order.
pub struct GFunc {
    pub data: GData,
    pub params: Vec<GParam>,
}

/// A container (the globals, a library table or a class) and its functions,
/// in declaration order.
pub struct GLib {
    pub data: GData,
    pub funcs: Vec<GFunc>,
}

/// The shape of a container's header.
#[derive(Clone, Copy, Debug, PartialEq, Eq, Structural)]
pub enum ContainerKind {
    Global,
    Library,
    Class,
}

/// Renders a value into the markup.
pub trait Generable {
    fn generate(&self) -> String;
}

/// Writes the three header shapes of a container.
pub trait ClassGenerable: Generable {
    fn generate_globalheader(&self, gen: &mut String);

    fn generate_libheader(&self, buffer: &mut String);

    fn generate_classheader(&self, buffer: &mut String);
}

/// The token written between two parameters of an arguments block.
pub open spec fn separator() -> Seq<char> {
    "``````````\n"@
}

/// The assignment lines of a parameter: all three for a named one, the type
/// alone for a receiver.
pub open spec fn param_text(p: GParam) -> Seq<char> {
    if p.data.name@.len() > 0 {
        "name = '"@ + p.data.name@ + "'\ntype = '"@ + p.data.t_type@ + "'\ndescription = '"@
            + p.data.descr@ + "'"@
    } else {
        "type = '"@ + p.data.t_type@ + "'"@
    }
}

/// The parameters' lines, each ended by a line feed, with the separator
/// strictly between two of them.
pub open spec fn args_body(ps: Seq<GParam>) -> Seq<char>
    decreases ps.len(),
{
    if ps.len() == 0 {
        Seq::empty()
    } else if ps.len() == 1 {
        param_text(ps[0]) + "\n"@
    } else {
        args_body(ps.drop_last()) + separator() + param_text(ps.last()) + "\n"@
    }
}

/// The line of one parameter, ended by a line feed.
pub open spec fn param_line(p: GParam) -> Seq<char> {
    param_text(p) + "\n"@
}

/// The pieces of an arguments body in the order they are written: the line
/// of each parameter, with a separator piece between two of them.
pub open spec fn arg_pieces(ps: Seq<GParam>) -> Seq<Seq<char>>
    decreases ps.len(),
{
    if ps.len() == 0 {
        Seq::empty()
    } else if ps.len() == 1 {
        seq![param_line(ps[0])]
    } else {
        arg_pieces(ps.drop_last()).push(separator()).push(param_line(ps.last()))
    }
}

/// The pieces written one after the other.
pub open spec fn concat_pieces(pieces: Seq<Seq<char>>) -> Seq<char>
    decreases pieces.len(),
{
    if pieces.len() == 0 {
        Seq::empty()
    } else {
        concat_pieces(pieces.drop_last()) + pieces.last()
    }
}

/// A function without parameters has no arguments block. With `n > 0`
/// parameters the block is the start marker and then `2n - 1` pieces: the
/// even ones are the parameters' lines in order, and the odd ones, exactly
/// `n - 1`, are the separator, so that a separator stands strictly between
/// two parameters and never before the first or after the last.
pub proof fn lemma_separators_between(f: GFunc)
    ensures
        f.params@.len() == 0 ==> func_text(f) == func_head(f) + func_returns(f),
        f.params@.len() > 0 ==> func_args(f) == "[[.args]]\n"@ + concat_pieces(arg_pieces(f.params@)),
        arg_pieces(f.params@).len() == if f.params@.len() == 0 { 0 } else { 2 * f.params@.len() - 1 },
        forall|k: int|
            0 <= k < arg_pieces(f.params@).len() ==> (#[trigger] arg_pieces(f.params@)[k] == separator()
                <==> k % 2 == 1),
        forall|i: int|
            0 <= i < f.params@.len() ==> #[trigger] arg_pieces(f.params@)[2 * i] == param_line(f.params@[i]),
{
    if f.params@.len() == 0 {
        assert(func_args(f) =~= Seq::<char>::empty());
        assert(func_text(f) =~= func_head(f) + func_returns(f));
    }
    lemma_arg_pieces(f.params@);
}

/// The pieces of `ps` make its arguments body, and a piece is a separator
/// exactly at the odd places.
proof fn lemma_arg_pieces(ps: Seq<GParam>)
    ensures
        args_body(ps) == concat_pieces(arg_pieces(ps)),
        arg_pieces(ps).len() == if ps.len() == 0 { 0 } else { 2 * ps.len() - 1 },
        forall|k: int|
            0 <= k < arg_pieces(ps).len() ==> (#[trigger] arg_pieces(ps)[k] == separator() <==> k % 2 == 1),
        forall|i: int| 0 <= i < ps.len() ==> #[trigger] arg_pieces(ps)[2 * i] == param_line(ps[i]),
    decreases ps.len(),
{
    reveal_strlit("``````````\n");
    reveal_strlit("\n");
    reveal_strlit("'");
    if ps.len() == 1 {
        lemma_line_not_separator(ps[0]);
        let pc = arg_pieces(ps);
        assert(pc.drop_last() =~= Seq::<Seq<char>>::empty());
        assert(concat_pieces(pc.drop_last()) =~= Seq::<char>::empty());
        assert(concat_pieces(pc) == concat_pieces(pc.drop_last()) + pc.last());
        assert(concat_pieces(pc) =~= args_body(ps));
    } else if ps.len() > 1 {
        let prev = ps.drop_last();
        lemma_arg_pieces(prev);
        lemma_line_not_separator(ps.last());
        let a = arg_pieces(prev);
        let b = a.push(separator());
        let c = b.push(param_line(ps.last()));
        assert(c.drop_last() =~= b);
        assert(b.drop_last() =~= a);
        assert(concat_pieces(c) == concat_pieces(b) + param_line(ps.last()));
        assert(concat_pieces(b) == concat_pieces(a) + separator());
        assert(concat_pieces(c) =~= args_body(ps));
        assert forall|k: int| 0 <= k < c.len() implies (#[trigger] c[k] == separator() <==> k % 2
            == 1) by {
            if k < a.len() {
                assert(c[k] == a[k]);
            }
        }
        assert forall|i: int| 0 <= i < ps.len() implies #[trigger] c[2 * i] == param_line(ps[i]) by {
            if i < prev.len() {
                assert(c[2 * i] == a[2 * i]);
                assert(prev[i] == ps[i]);
            }
        }
    }
}

/// A parameter's line is never the separator: its next-to-last character is
/// a quote, where the separator's is a backtick.
proof fn lemma_line_not_separator(p: GParam)
    ensures
        param_line(p) != separator(),
{
    reveal_strlit("``````````\n");
    reveal_strlit("\n");
    reveal_strlit("'");
    let l = param_line(p);
    let t = param_text(p);
    assert(t.last() == '\'');
    assert(l[l.len() - 2] == t.last());
    assert(separator()[separator().len() - 2] == '`');
}

/// The section header and description line of a function.
pub open spec fn func_head(f: GFunc) -> Seq<char> {
    "["@ + f.data.name@ + "]\ndescription = '"@ + f.data.descr@ + "'\n"@
}

/// The arguments block: absent without parameters.
pub open spec fn func_args(f: GFunc) -> Seq<char> {
    if f.params@.len() > 0 {
        "[[.args]]\n"@ + args_body(f.params@)
    } else {
        Seq::empty()
    }
}

/// The returns block: absent without a return type.
pub open spec fn func_returns(f: GFunc) -> Seq<char> {
    if f.data.t_type@.len() > 0 {
        "[[.returns]]\n"@ + "type = '"@ + f.data.t_type@ + "'\n"@
    } else {
        Seq::empty()
    }
}

/// The whole section of a function.
pub open spec fn func_text(f: GFunc) -> Seq<char> {
    func_head(f) + func_args(f) + func_returns(f)
}

/// The functions' sections in order, each followed by a blank line.
pub open spec fn body_text(fs: Seq<GFunc>) -> Seq<char>
    decreases fs.len(),
{
    if fs.len() == 0 {
        Seq::empty()
    } else {
        body_text(fs.drop_last()) + func_text(fs.last()) + "\n"@
    }
}

/// The header of the globals: unqualified calls are functions that take a table.
pub open spec fn global_header() -> Seq<char> {
    "<default>\n"@ + "type = 'function'\n\n"@ + "[arg]\n"@ + "type = 'table'\n\n"@
}

/// The header of a class: one parent context, the object type `name`.
pub open spec fn class_header(name: Seq<char>) -> Seq<char> {
    "<default>\n"@ + "type = 'function'\n\n"@ + "parent = {\n"@ + "\t1 = {\n"@
        + "\t\ttype = 'object',\n\t\t"@ + ("name = '"@ + name + "'\n"@) + "\t},\n"@ + "}\n\n"@
}

/// The two source sub-blocks of a library: reachable as a global and as a
/// library, both named `name`.
pub open spec fn lib_sources(name: Seq<char>) -> Seq<char> {
    "[[.source]]\n"@ + "type = 'global'\n"@ + separator() + "type = 'library'\n"@ + ("name = '"@
        + name + "'\n"@)
}

/// The default block of a library: two parent contexts named `name`, a
/// global and a library.
pub open spec fn lib_default(name: Seq<char>) -> Seq<char> {
    "\n<default>\n"@ + "type = 'function'\n"@ + "parent = {\n"@ + "\t1 = {\n"@
        + "\t\ttype = 'global',\n\t\t"@ + ("name = '"@ + name + "'\n"@) + "\t},\n"@ + "\t2 = {\n"@
        + "\t\ttype = 'library',\n\t\t"@ + ("name = '"@ + name + "'\n"@) + "\t}\n"@ + "}\n\n"@
}

/// The header of a library: a table section with its sources, then the
/// default block.
pub open spec fn lib_header(name: Seq<char>) -> Seq<char> {
    "["@ + name + "]\n"@ + "type = 'table'\n"@ + lib_sources(name) + lib_default(name)
}

/// Whether `c` is absent from `s`.
pub open spec fn lacks_char(s: Seq<char>, c: char) -> bool {
    forall|i: int| 0 <= i < s.len() ==> s[i] != c
}

proof fn lemma_lacks_char_concat(a: Seq<char>, b: Seq<char>, c: char)
    requires
        lacks_char(a, c),
        lacks_char(b, c),
    ensures
        lacks_char(a + b, c),
{
    assert forall|i: int| 0 <= i < (a + b).len() implies (a + b)[i] != c by {
        if i < a.len() {
            assert((a + b)[i] == a[i]);
        } else {
            assert((a + b)[i] == b[i - a.len()]);
        }
    }
}

/// A class header has no section of its own and no source sub-block: where
/// the class's name holds no `[`, neither does its header, so it has neither
/// a `[name]` table section nor a `[[.source]]` marker.
pub proof fn lemma_class_header_has_no_section(name: Seq<char>)
    requires
        lacks_char(name, '['),
    ensures
        lacks_char(class_header(name), '['),
{
    reveal_strlit("<default>\n");
    reveal_strlit("type = 'function'\n\n");
    reveal_strlit("parent = {\n");
    reveal_strlit("\t1 = {\n");
    reveal_strlit("\t\ttype = 'object',\n\t\t");
    reveal_strlit("name = '");
    reveal_strlit("'\n");
    reveal_strlit("\t},\n");
    reveal_strlit("}\n\n");
    let marker = "<default>\n"@;
    let kind_line = "type = 'function'\n\n"@;
    let parent_open = "parent = {\n"@;
    let first_open = "\t1 = {\n"@;
    let object_line = "\t\ttype = 'object',\n\t\t"@;
    let name_open = "name = '"@;
    let name_close = "'\n"@;
    let first_close = "\t},\n"@;
    let parent_close = "}\n\n"@;
    assert(lacks_char(marker, '['));
    assert(lacks_char(kind_line, '['));
    assert(lacks_char(parent_open, '['));
    assert(lacks_char(first_open, '['));
    assert(lacks_char(object_line, '['));
    assert(lacks_char(name_open, '['));
    assert(lacks_char(name_close, '['));
    assert(lacks_char(first_close, '['));
    assert(lacks_char(parent_close, '['));
    let line = name_open + name + name_close;
    lemma_lacks_char_concat(name_open, name, '[');
    lemma_lacks_char_concat(name_open + name, name_close, '[');
    let a1 = marker + kind_line;
    lemma_lacks_char_concat(marker, kind_line, '[');
    let a2 = a1 + parent_open;
    lemma_lacks_char_concat(a1, parent_open, '[');
    let a3 = a2 + first_open;
    lemma_lacks_char_concat(a2, first_open, '[');
    let a4 = a3 + object_line;
    lemma_lacks_char_concat(a3, object_line, '[');
    let a5 = a4 + line;
    lemma_lacks_char_concat(a4, line, '[');
    let a6 = a5 + first_close;
    lemma_lacks_char_concat(a5, first_close, '[');
    lemma_lacks_char_concat(a6, parent_close, '[');
    assert(class_header(name) == a6 + parent_close);
}

/// The source sub-block that makes a library reachable as a global.
pub open spec fn global_source() -> Seq<char> {
    "type = 'global'\n"@
}

/// The source sub-block that makes a library reachable as the library `name`.
pub open spec fn library_source(name: Seq<char>) -> Seq<char> {
    "type = 'library'\n"@ + ("name = '"@ + name + "'\n"@)
}

/// A library header has exactly two source sub-blocks: after the source
/// marker come the global block and the library block with one separator
/// between them, and where the library's name holds no backtick neither block
/// holds one, so no further separator splits off a third.
pub proof fn lemma_library_header_has_two_sources(name: Seq<char>)
    requires
        lacks_char(name, '`'),
    ensures
        lib_header(name) == "["@ + name + "]\n"@ + "type = 'table'\n"@ + "[[.source]]\n"@
            + global_source() + separator() + library_source(name) + lib_default(name),
        lacks_char(global_source(), '`'),
        lacks_char(library_source(name), '`'),
{
    reveal_strlit("type = 'global'\n");
    reveal_strlit("type = 'library'\n");
    reveal_strlit("name = '");
    reveal_strlit("'\n");
    assert(lacks_char("type = 'global'\n"@, '`'));
    assert(lacks_char("type = 'library'\n"@, '`'));
    assert(lacks_char("name = '"@, '`'));
    assert(lacks_char("'\n"@, '`'));
    lemma_lacks_char_concat("name = '"@, name, '`');
    lemma_lacks_char_concat("name = '"@ + name, "'\n"@, '`');
    lemma_lacks_char_concat("type = 'library'\n"@, "name = '"@ + name + "'\n"@, '`');
    assert(lib_header(name) =~= "["@ + name + "]\n"@ + "type = 'table'\n"@ + "[[.source]]\n"@
        + global_source() + separator() + library_source(name) + lib_default(name));
}

/// The header of a container of the given kind.
pub open spec fn header_text(kind: ContainerKind, name: Seq<char>) -> Seq<char> {
    match kind {
        ContainerKind::Global => global_header(),
        ContainerKind::Library => lib_header(name),
        ContainerKind::Class => class_header(name),
    }
}

impl Generable for GParam {
    fn generate(&self) -> (r: String)
        ensures
            r@ == param_text(*self),
    {
        let mut gen = String::new();
        if !self.data.name.as_str().is_empty() {
            gen.append("name = '");
            gen.append(self.data.name.as_str());
            gen.append("'\ntype = '");
            gen.append(self.data.t_type.as_str());
            gen.append("'\ndescription = '");
            gen.append(self.data.descr.as_str());
            gen.append("'");
        } else {
            gen.append("type = '");
            gen.append(self.data.t_type.as_str());
            gen.append("'");
        }
        assert(gen@ =~= param_text(*self));
        gen
    }
}

impl Generable for GFunc {
    fn generate(&self) -> (r: String)
        ensures
            r@ == func_text(*self),
    {
        let mut gen = String::new();
        gen.append("[");
        gen.append(self.data.name.as_str());
        gen.append("]\ndescription = '");
        gen.append(self.data.descr.as_str());
        gen.append("'\n");
        assert(gen@ =~= func_head(*self));
        let ghost head = gen@;
        if self.params.len() > 0 {
            gen.append("[[.args]]\n");
            for i in 0..self.params.len()
                invariant
                    gen@ == head + "[[.args]]\n"@ + args_body(self.params@.take(i as int)),
            {
                if i >= 1 {
                    gen.append("``````````\n");
                }
                let p = self.params[i].generate();
                gen.append(p.as_str());
                gen.append("\n");
                proof {
                    let ps = self.params@.take(i + 1);
                    assert(ps.drop_last() =~= self.params@.take(i as int));
                    assert(ps.last() == self.params@[i as int]);
                    if i == 0 {
                        assert(self.params@.take(0) =~= Seq::<GParam>::empty());
                    }
                    assert(gen@ =~= head + "[[.args]]\n"@ + args_body(ps));
                }
            }
            assert(self.params@.take(self.params.len() as int) =~= self.params@);
        }
        assert(gen@ =~= func_head(*self) + func_args(*self));
        if !self.data.t_type.as_str().is_empty() {
            gen.append("[[.returns]]\n");
            gen.append("type = '");
            gen.append(self.data.t_type.as_str());
            gen.append("'\n");
        }
        assert(gen@ =~= func_text(*self));
        gen
    }
}

impl GLib {
    /// The header of this container for the given kind, added to `buffer`.
    pub fn generate_header(&self, kind: ContainerKind, buffer: &mut String)
        ensures
            final(buffer)@ == old(buffer)@ + header_text(kind, self.data.name@),
    {
        match kind {
            ContainerKind::Global => self.generate_globalheader(buffer),
            ContainerKind::Library => self.generate_libheader(buffer),
            ContainerKind::Class => self.generate_classheader(buffer),
        }
    }

    /// The whole descriptor of this container: its header, then its functions.
    pub fn render(&self, kind: ContainerKind) -> (r: String)
        ensures
            r@ == header_text(kind, self.data.name@) + body_text(self.funcs@),
    {
        let mut out = String::new();
        self.generate_header(kind, &mut out);
        let body = Generable::generate(self);
        out.append(body.as_str());
        assert(out@ =~= header_text(kind, self.data.name@) + body_text(self.funcs@));
        out
    }
}

impl Generable for GLib {
    fn generate(&self) -> (r: String)
        ensures
            r@ == body_text(self.funcs@),
    {
        let mut gen = String::new();
        for i in 0..self.funcs.len()
            invariant
                gen@ == body_text(self.funcs@.take(i as int)),
        {
            let f = self.funcs[i].generate();
            gen.append(f.as_str());
            gen.append("\n");
            assert(self.funcs@.take(i + 1).drop_last() =~= self.funcs@.take(i as int));
        }
        assert(self.funcs@.take(self.funcs.len() as int) =~= self.funcs@);
        gen
    }
}

impl ClassGenerable for GLib {
    fn generate_globalheader(&self, gen: &mut String)
        ensures
            final(gen)@ == old(gen)@ + global_header(),
    {
        gen.append("<default>\n");
        gen.append("type = 'function'\n\n");
        gen.append("[arg]\n");
        gen.append("type = 'table'\n\n");
        assert(gen@ =~= old(gen)@ + global_header());
    }

    fn generate_classheader(&self, gen: &mut String)
        ensures
            final(gen)@ == old(gen)@ + class_header(self.data.name@),
    {
        let formatted_name = name_line(&self.data.name);
        gen.append("<default>\n");
        gen.append("type = 'function'\n\n");
        gen.append("parent = {\n");
        gen.append("\t1 = {\n");
        gen.append("\t\ttype = 'object',\n\t\t");
        gen.append(formatted_name.as_str());
        gen.append("\t},\n");
        gen.append("}\n\n");
        assert(gen@ =~= old(gen)@ + class_header(self.data.name@));
    }

    fn generate_libheader(&self, gen: &mut String)
        ensures
            final(gen)@ == old(gen)@ + lib_header(self.data.name@),
    {
        let formatted_name = name_line(&self.data.name);
        gen.append("[");
        gen.append(self.data.name.as_str());
        gen.append("]\n");
        gen.append("type = 'table'\n");
        gen.append("[[.source]]\n");
        gen.append("type = 'global'\n");
        gen.append("``````````\n");
        gen.append("type = 'library'\n");
        gen.append(formatted_name.as_str());
        gen.append("\n<default>\n");
        gen.append("type = 'function'\n");
        gen.append("parent = {\n");
        gen.append("\t1 = {\n");
        gen.append("\t\ttype = 'global',\n\t\t");
        gen.append(formatted_name.as_str());
        gen.append("\t},\n");
        gen.append("\t2 = {\n");
        gen.append("\t\ttype = 'library',\n\t\t");
        gen.append(formatted_name.as_str());
        gen.append("\t}\n");
        gen.append("}\n\n");
        assert(gen@ =~= old(gen)@ + lib_header(self.data.name@));
    }
}

/// The line `name = '<name>'` of a parent context.
fn name_line(name: &String) -> (r: String)
    ensures
        r@ == "name = '"@ + name@ + "'\n"@,
{
    let mut r = String::new();
    r.append("name = '");
    r.append(name.as_str());
    r.append("'\n");
    assert(r@ =~= "name = '"@ + name@ + "'\n"@);
    r
}

} // verus!
