//! A URL shortener: identifier generation, URL validation, the error
//! taxonomy and the request-handling decisions, with a model of the
//! mapping table that the handlers are proved against.
use vstd::prelude::*;

pub mod db;
pub mod errors;
pub mod handler;
pub mod ident;
pub mod store;
pub mod validation;

verus! {

/// The root under which short links are published, such as
/// `http://localhost`.
#[derive(Debug, Clone)]
pub struct RootUrl {
    pub url: String,
}

impl RootUrl {
    pub fn new(url: String) -> (r: RootUrl)
        ensures
            r.url@ == url@,
    {
        RootUrl { url }
    }

    /// The full short link for `id`: the root, a slash, then the identifier.
    pub fn short_link(&self, id: &str) -> (r: String)
        ensures
            r@ == short_link_of(self.url@, id@),
    {
        join_link(&self.url, id)
    }
}

/// `root`, a slash, then `id`.
pub fn join_link(root: &String, id: &str) -> (r: String)
    ensures
        r@ == short_link_of(root@, id@),
{
    let mut r = root.clone();
    r.append("/");
    proof {
        reveal_strlit("/");
    }
    r.append(id);
    r
}

/// `root + "/" + id`.
pub open spec fn short_link_of(root: Seq<char>, id: Seq<char>) -> Seq<char> {
    root + seq!['/'] + id
}

} // verus!
