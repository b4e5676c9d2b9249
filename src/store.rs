//! The operations that the handlers ask of the mapping table, the answers
//! they get back, and a model of the table that says what each operation
//! does to it.
use vstd::prelude::*;
use crate::errors::{AppError, ErrorKind, kind_of};

verus! {

/// One statement against the mapping table.
pub enum StoreOp {
    /// Look up the URL stored under an identifier.
    FindUrl(String),
    /// Look up the identifier stored for a URL.
    FindId(String),
    /// Store a new mapping: identifier, then URL.
    Insert(String, String),
    /// Add one to the hit counter of an identifier.
    AddHit(String),
}

/// What the table answered.
pub enum StoreAnswer {
    /// The result of a lookup.
    Found(Option<String>),
    /// A write went through.
    Done,
    /// The statement, or taking a connection for it, failed.
    Failed(AppError),
}

pub enum OpModel {
    FindUrl(Seq<char>),
    FindId(Seq<char>),
    Insert(Seq<char>, Seq<char>),
    AddHit(Seq<char>),
}

pub enum AnswerModel {
    Found(Option<Seq<char>>),
    Done,
    Failed(ErrorKind),
}

pub open spec fn option_view(o: Option<String>) -> Option<Seq<char>> {
    match o {
        Some(s) => Some(s@),
        None => None,
    }
}

impl View for StoreOp {
    type V = OpModel;

    open spec fn view(&self) -> OpModel {
        match self {
            StoreOp::FindUrl(id) => OpModel::FindUrl(id@),
            StoreOp::FindId(url) => OpModel::FindId(url@),
            StoreOp::Insert(id, url) => OpModel::Insert(id@, url@),
            StoreOp::AddHit(id) => OpModel::AddHit(id@),
        }
    }
}

impl View for StoreAnswer {
    type V = AnswerModel;

    open spec fn view(&self) -> AnswerModel {
        match self {
            StoreAnswer::Found(o) => AnswerModel::Found(option_view(*o)),
            StoreAnswer::Done => AnswerModel::Done,
            StoreAnswer::Failed(e) => AnswerModel::Failed(kind_of(*e)),
        }
    }
}

/// A row of the table: the stored URL and its hit count.
pub struct Row {
    pub url: Seq<char>,
    pub hits: nat,
}

/// The mapping table, keyed by identifier.
pub type Table = Map<Seq<char>, Row>;

/// Whether `id` is stored under `url`.
pub open spec fn maps_to(t: Table, id: Seq<char>, url: Seq<char>) -> bool {
    t.contains_key(id) && t[id].url == url
}

/// Whether some row holds `url`.
pub open spec fn has_url(t: Table, url: Seq<char>) -> bool {
    exists|id: Seq<char>| #[trigger] maps_to(t, id, url)
}

/// The table's uniqueness constraint on URLs.
pub open spec fn table_wf(t: Table) -> bool {
    forall|a: Seq<char>, b: Seq<char>, u: Seq<char>|
        #[trigger] maps_to(t, a, u) && #[trigger] maps_to(t, b, u) ==> a == b
}

/// Exactly one row holds `url`.
pub open spec fn single_row(t: Table, url: Seq<char>) -> bool {
    exists|id: Seq<char>|
        #[trigger] maps_to(t, id, url) && forall|k: Seq<char>| #[trigger] maps_to(t, k, url) ==> k == id
}

/// What a statement does to the table and what it answers, for a table
/// whose identifiers and URLs are unique: lookups change nothing; an
/// insert fails on a taken identifier or URL; a hit on an unknown
/// identifier changes no row and still succeeds.
pub open spec fn apply(t: Table, op: OpModel) -> (Table, AnswerModel) {
    match op {
        OpModel::FindUrl(id) => (
            t,
            AnswerModel::Found(if t.contains_key(id) { Some(t[id].url) } else { None }),
        ),
        OpModel::FindId(url) => (
            t,
            AnswerModel::Found(
                if has_url(t, url) { Some(choose|id: Seq<char>| maps_to(t, id, url)) } else { None },
            ),
        ),
        OpModel::Insert(id, url) => if t.contains_key(id) || has_url(t, url) {
            (t, AnswerModel::Failed(ErrorKind::Sql))
        } else {
            (t.insert(id, Row { url, hits: 0 }), AnswerModel::Done)
        },
        OpModel::AddHit(id) => (
            if t.contains_key(id) {
                t.insert(id, Row { url: t[id].url, hits: t[id].hits + 1 })
            } else {
                t
            },
            AnswerModel::Done,
        ),
    }
}

} // verus!
