//! Classification of a function's realm tags into a scope label.
use vstd::prelude::*;
use vstd::string::*;

verus! {

/// Where a function is available.
#[derive(Clone, Copy, Debug, PartialEq, Eq, Structural)]
pub enum Scope {
    Client,
    Server,
    Shared,
}

/// What `str::to_lowercase` makes of a text.
pub uninterp spec fn lower_of(s: Seq<char>) -> Seq<char>;

/// Relies on str::to_lowercase: the result depends on the characters alone.
#[verifier::external_body]
fn lowercase(s: &str) -> (r: String)
    ensures
        r@ == lower_of(s@),
{
    s.to_lowercase()
}

/// The realm tags, each in lower case.
pub open spec fn lowered_tags(realms: Seq<String>) -> Seq<Seq<char>> {
    realms.map_values(|t: String| lower_of(t@))
}

/// Whether a tag among `tags` is exactly `tag`.
pub open spec fn has_tag(tags: Seq<Seq<char>>, tag: Seq<char>) -> bool {
    exists|i: int| 0 <= i < tags.len() && #[trigger] tags[i] == tag
}

/// The scope of lower-case tags: both sides make it shared, the server side
/// alone makes it server-only, and anything else (the client side alone, or
/// no known tag) falls to the client.
pub open spec fn scope_of(tags: Seq<Seq<char>>) -> Scope {
    let client = has_tag(tags, "client"@);
    let server = has_tag(tags, "server"@);
    if client && server {
        Scope::Shared
    } else if server {
        Scope::Server
    } else {
        Scope::Client
    }
}

/// The label written for a scope.
pub open spec fn scope_label(s: Scope) -> Seq<char> {
    match s {
        Scope::Client => "Client"@,
        Scope::Server => "Server"@,
        Scope::Shared => "Shared"@,
    }
}

impl Scope {
    /// The label written for this scope.
    pub fn label(&self) -> (r: &'static str)
        ensures
            r@ == scope_label(*self),
    {
        match self {
            Scope::Client => "Client",
            Scope::Server => "Server",
            Scope::Shared => "Shared",
        }
    }
}

/// Scope of tags that are already in lower case.
pub fn scope_of_lowered(tags: &Vec<String>) -> (r: Scope)
    ensures
        r == scope_of(tags@.map_values(|t: String| t@)),
{
    let client = String::from_str("client");
    let server = String::from_str("server");
    let ghost views = tags@.map_values(|t: String| t@);
    let mut has_client = false;
    let mut has_server = false;
    for i in 0..tags.len()
        invariant
            views == tags@.map_values(|t: String| t@),
            client@ == "client"@,
            server@ == "server"@,
            has_client == exists|j: int| 0 <= j < i && #[trigger] views[j] == "client"@,
            has_server == exists|j: int| 0 <= j < i && #[trigger] views[j] == "server"@,
    {
        if tags[i] == client {
            has_client = true;
        }
        if tags[i] == server {
            has_server = true;
        }
        assert(views[i as int] == tags@[i as int]@);
    }
    if has_client && has_server {
        Scope::Shared
    } else if has_server {
        Scope::Server
    } else {
        Scope::Client
    }
}

/// Scope of realm tags, compared without regard to case.
pub fn classify(realms: &Vec<String>) -> (r: Scope)
    ensures
        r == scope_of(lowered_tags(realms@)),
{
    let mut tags: Vec<String> = Vec::new();
    for i in 0..realms.len()
        invariant
            tags@.len() == i,
            forall|j: int| 0 <= j < i ==> #[trigger] tags@[j]@ == lower_of(realms@[j]@),
    {
        let t = lowercase(realms[i].as_str());
        tags.push(t);
    }
    let r = scope_of_lowered(&tags);
    assert(tags@.map_values(|t: String| t@) == lowered_tags(realms@));
    r
}

} // verus!
