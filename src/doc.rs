//! A short listing of a container's functions, with their descriptions only.
use vstd::prelude::*;
use vstd::string::*;

use crate::model::{GFunc, GLib};

verus! {

/// Renders a short listing of a container's functions.
pub trait DocGenerable {
    fn generate(&self) -> String;
}

/// The short listing of functions: a section with the description alone.
pub open spec fn doc_text(fs: Seq<GFunc>) -> Seq<char>
    decreases fs.len(),
{
    if fs.len() == 0 {
        Seq::empty()
    } else {
        doc_text(fs.drop_last()) + "["@ + fs.last().data.name@ + "]\ndescription = '"@
            + fs.last().data.descr@ + "'\n\n"@
    }
}

impl DocGenerable for GLib {
    fn generate(&self) -> (r: String)
        ensures
            r@ == doc_text(self.funcs@),
    {
        let mut gen = String::new();
        for i in 0..self.funcs.len()
            invariant
                gen@ == doc_text(self.funcs@.take(i as int)),
        {
            gen.append("[");
            gen.append(self.funcs[i].data.name.as_str());
            gen.append("]\ndescription = '");
            gen.append(self.funcs[i].data.descr.as_str());
            gen.append("'\n\n");
            assert(self.funcs@.take(i + 1).drop_last() =~= self.funcs@.take(i as int));
            assert(gen@ =~= doc_text(self.funcs@.take(i + 1)));
        }
        assert(self.funcs@.take(self.funcs.len() as int) =~= self.funcs@);
        gen
    }
}

} // verus!
