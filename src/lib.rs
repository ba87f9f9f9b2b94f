//! Generation of autocomplete descriptor files and highlight patterns for a
//! scripting language's global functions, library tables and object classes.
pub mod builder;
pub mod doc;
pub mod escape;
pub mod input;
pub mod model;
pub mod pattern;
pub mod scope;

pub use builder::{
    assemble_func, build_container, build_func, build_globals, ArgRecord, ContainerRecord,
    FuncRecord, ReturnRecord,
};
pub use doc::DocGenerable;
pub use escape::{parse_description, NEWLINE_CHAR};
pub use input::{
    get, read_arg, read_container, read_container_list, read_func, read_func_list, Field,
    InputError, Node,
};
pub use model::{ClassGenerable, ContainerKind, GData, GFunc, GLib, GParam, Generable};
pub use pattern::{keyword_pattern, member_pattern};
pub use scope::{classify, scope_of_lowered, Scope};
