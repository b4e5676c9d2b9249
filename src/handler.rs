//! The two request handlers as decision steps. Creating a mapping is a
//! short exchange with the table: each step takes the table's last answer
//! and says which statement to run next or what to reply. The caller runs
//! the statements; the decisions are proved here against the model of
//! `store`.
use vstd::prelude::*;
use crate::db::run;
use crate::errors::{AppError, ErrorKind, error_status, kind_of};
use crate::ident::{generate_id, is_identifier};
use crate::store::{AnswerModel, OpModel, StoreAnswer, StoreOp, Table, apply, has_url, maps_to, single_row, table_wf};
use crate::validation::{is_url_failure, is_valid_url, validate_url_field};
use crate::{RootUrl, join_link, short_link_of};

verus! {

/// The response to a request.
pub enum Reply {
    /// 201, with the full short link as the body.
    Created(String),
    /// 302, redirecting to the stored URL.
    Redirect(String),
    /// 404, with an empty body.
    NotFound,
    /// 400 or 500, as the error says.
    Error(AppError),
}

/// What a handler wants done next.
pub enum Next {
    Run(StoreOp),
    Respond(Reply),
}

pub enum ReplyModel {
    Created(Seq<char>),
    Redirect(Seq<char>),
    NotFound,
    Error(ErrorKind),
}

pub enum NextModel {
    Run(OpModel),
    Respond(ReplyModel),
}

impl View for Reply {
    type V = ReplyModel;

    open spec fn view(&self) -> ReplyModel {
        match self {
            Reply::Created(b) => ReplyModel::Created(b@),
            Reply::Redirect(u) => ReplyModel::Redirect(u@),
            Reply::NotFound => ReplyModel::NotFound,
            Reply::Error(e) => ReplyModel::Error(kind_of(*e)),
        }
    }
}

impl View for Next {
    type V = NextModel;

    open spec fn view(&self) -> NextModel {
        match self {
            Next::Run(op) => NextModel::Run(op@),
            Next::Respond(r) => NextModel::Respond(r@),
        }
    }
}

pub const CREATED: u16 = 201;

pub const FOUND: u16 = 302;

pub const NOT_FOUND: u16 = 404;

/// The status code of a reply.
pub open spec fn reply_status(r: Reply) -> u16 {
    match r {
        Reply::Created(_) => CREATED,
        Reply::Redirect(_) => FOUND,
        Reply::NotFound => NOT_FOUND,
        Reply::Error(e) => error_status(e),
    }
}

impl Reply {
    pub fn status(&self) -> (r: u16)
        ensures
            r == reply_status(*self),
    {
        match self {
            Reply::Created(_) => CREATED,
            Reply::Redirect(_) => FOUND,
            Reply::NotFound => NOT_FOUND,
            Reply::Error(e) => e.status_code(),
        }
    }
}

/// The reply to a lookup by identifier: a redirect to the stored URL, or
/// not-found.
pub open spec fn redirect_reply(a: AnswerModel) -> ReplyModel {
    match a {
        AnswerModel::Found(Some(url)) => ReplyModel::Redirect(url),
        AnswerModel::Found(None) => ReplyModel::NotFound,
        AnswerModel::Failed(k) => ReplyModel::Error(k),
        AnswerModel::Done => ReplyModel::NotFound,
    }
}

/// Resolving: the statement that looks the identifier up.
pub fn resolve_lookup(id: String) -> (r: StoreOp)
    ensures
        r@ == OpModel::FindUrl(id@),
{
    StoreOp::FindUrl(id)
}

/// Resolving: the reply to the table's answer to `resolve_lookup`.
pub fn resolve_reply(a: StoreAnswer) -> (r: Reply)
    requires
        !(a is Done),
    ensures
        r@ == redirect_reply(a@),
        a is Failed ==> r == Reply::Error(a->Failed_0),
{
    match a {
        StoreAnswer::Found(Some(url)) => Reply::Redirect(url),
        StoreAnswer::Found(None) => Reply::NotFound,
        StoreAnswer::Failed(e) => Reply::Error(e),
        StoreAnswer::Done => Reply::NotFound,
    }
}

/// Where a create-mapping exchange stands.
pub enum AddStage {
    /// Waiting for the identifier already stored for the URL, if any.
    Lookup,
    /// Waiting for the insert of a new mapping under this identifier.
    Inserting(String),
    /// Waiting for the hit counter of this identifier to be raised.
    Counting(String),
    /// The reply has been given.
    Finished,
}

pub enum StageModel {
    Lookup,
    Inserting(Seq<char>),
    Counting(Seq<char>),
    Finished,
}

pub struct AddModel {
    pub root: Seq<char>,
    pub url: Seq<char>,
    pub stage: StageModel,
}

/// A create-mapping exchange for one submitted URL.
pub struct AddUrl {
    pub root: String,
    pub url: String,
    pub stage: AddStage,
}

impl View for AddStage {
    type V = StageModel;

    open spec fn view(&self) -> StageModel {
        match self {
            AddStage::Lookup => StageModel::Lookup,
            AddStage::Inserting(id) => StageModel::Inserting(id@),
            AddStage::Counting(id) => StageModel::Counting(id@),
            AddStage::Finished => StageModel::Finished,
        }
    }
}

impl View for AddUrl {
    type V = AddModel;

    open spec fn view(&self) -> AddModel {
        AddModel { root: self.root@, url: self.url@, stage: self.stage@ }
    }
}

/// The first step: a malformed URL is refused at once; a valid one is
/// looked up.
pub open spec fn add_start(root: Seq<char>, url: Seq<char>) -> (AddModel, NextModel) {
    if is_valid_url(url) {
        (AddModel { root, url, stage: StageModel::Lookup }, NextModel::Run(OpModel::FindId(url)))
    } else {
        (AddModel { root, url, stage: StageModel::Finished }, NextModel::Respond(ReplyModel::Error(ErrorKind::Validation)))
    }
}

/// Whether an answer is one the table can give in this stage.
pub open spec fn answer_fits(s: StageModel, a: AnswerModel) -> bool {
    match s {
        StageModel::Lookup => !(a is Done),
        StageModel::Inserting(_) | StageModel::Counting(_) => !(a is Found),
        StageModel::Finished => false,
    }
}

/// The next step on the table's answer; `fresh` is the identifier that a
/// new mapping gets. A stored identifier is reused; otherwise a new mapping
/// is inserted; then the hit counter is raised; then the short link is the
/// reply. Any failure ends the exchange with that failure.
pub open spec fn add_step(m: AddModel, a: AnswerModel, fresh: Seq<char>) -> (AddModel, NextModel) {
    let finish = |r: ReplyModel| (AddModel { stage: StageModel::Finished, ..m }, NextModel::Respond(r));
    if let AnswerModel::Failed(k) = a {
        finish(ReplyModel::Error(k))
    } else {
        match m.stage {
            StageModel::Lookup => match a {
                AnswerModel::Found(Some(id)) => (
                    AddModel { stage: StageModel::Counting(id), ..m },
                    NextModel::Run(OpModel::AddHit(id)),
                ),
                _ => (
                    AddModel { stage: StageModel::Inserting(fresh), ..m },
                    NextModel::Run(OpModel::Insert(fresh, m.url)),
                ),
            },
            StageModel::Inserting(id) => (
                AddModel { stage: StageModel::Counting(id), ..m },
                NextModel::Run(OpModel::AddHit(id)),
            ),
            StageModel::Counting(id) => finish(ReplyModel::Created(short_link_of(m.root, id))),
            StageModel::Finished => finish(ReplyModel::NotFound),
        }
    }
}

/// The identifier of a new mapping that a step asks to insert.
pub open spec fn inserted_id(n: NextModel) -> Seq<char> {
    match n {
        NextModel::Run(OpModel::Insert(id, _)) => id,
        _ => Seq::empty(),
    }
}

impl AddUrl {
    /// Starts the exchange for a submitted URL under `root`.
    pub fn start(root: &RootUrl, url: String) -> (r: (AddUrl, Next))
        ensures
            (r.0@, r.1@) == add_start(root.url@, url@),
            !is_valid_url(url@) ==> (r.1 matches Next::Respond(Reply::Error(e)) && e is ValidationErrors
                && is_url_failure(e->ValidationErrors_0)),
    {
        let root_url = root.url.clone();
        match validate_url_field(url.as_str()) {
            Ok(()) => {
                let op = StoreOp::FindId(url.clone());
                (AddUrl { root: root_url, url, stage: AddStage::Lookup }, Next::Run(op))
            },
            Err(e) => (
                AddUrl { root: root_url, url, stage: AddStage::Finished },
                Next::Respond(Reply::Error(e)),
            ),
        }
    }

    /// Takes the table's answer to the last statement and decides the next
    /// one, or the reply.
    pub fn step(&mut self, a: StoreAnswer) -> (n: Next)
        requires
            answer_fits(old(self).stage@, a@),
        ensures
            (final(self)@, n@) == add_step(old(self)@, a@, inserted_id(n@)),
            n@ matches NextModel::Run(OpModel::Insert(_, _)) ==> is_identifier(inserted_id(n@)),
            a is Failed ==> n == Next::Respond(Reply::Error(a->Failed_0)),
    {
        match a {
            StoreAnswer::Failed(e) => {
                self.stage = AddStage::Finished;
                Next::Respond(Reply::Error(e))
            },
            StoreAnswer::Found(found) => {
                match found {
                    Some(id) => {
                        self.stage = AddStage::Counting(id.clone());
                        Next::Run(StoreOp::AddHit(id))
                    },
                    None => {
                        let id = generate_id();
                        self.stage = AddStage::Inserting(id.clone());
                        Next::Run(StoreOp::Insert(id, self.url.clone()))
                    },
                }
            },
            StoreAnswer::Done => {
                match &self.stage {
                    AddStage::Inserting(id) => {
                        let id = id.clone();
                        self.stage = AddStage::Counting(id.clone());
                        Next::Run(StoreOp::AddHit(id))
                    },
                    AddStage::Counting(id) => {
                        let link = join_link(&self.root, id.as_str());
                        self.stage = AddStage::Finished;
                        Next::Respond(Reply::Created(link))
                    },
                    _ => Next::Respond(Reply::NotFound),
                }
            },
        }
    }
}

/// How many steps an exchange may still take from a stage.
pub open spec fn rank(s: StageModel) -> nat {
    match s {
        StageModel::Lookup => 3,
        StageModel::Inserting(_) => 2,
        StageModel::Counting(_) => 1,
        StageModel::Finished => 0,
    }
}

/// Whether a stage waits for the answer to `op`.
pub open spec fn expects(s: StageModel, op: OpModel) -> bool {
    match s {
        StageModel::Lookup => op is FindId,
        StageModel::Inserting(_) => op is Insert,
        StageModel::Counting(_) => op is AddHit,
        StageModel::Finished => false,
    }
}

/// The replies that a create-mapping request for a valid URL can end in:
/// the short link of some identifier, or a storage error.
pub open spec fn created_or_failed(root: Seq<char>, r: ReplyModel) -> bool {
    r == ReplyModel::Error(ErrorKind::Sql) || exists|id: Seq<char>|
        r == ReplyModel::Created(#[trigger] short_link_of(root, id))
}

/// Handles a create-mapping request against the database: a malformed URL
/// is refused; otherwise the stored identifier is reused or a new mapping
/// is inserted, its hit counter is raised, and the reply is its short
/// link, unless a statement fails.
pub fn add_url(conn: &rusqlite::Connection, root: &RootUrl, url: String) -> (r: Reply)
    ensures
        !is_valid_url(url@) ==> (r matches Reply::Error(e) && e is ValidationErrors && is_url_failure(
            e->ValidationErrors_0,
        )),
        is_valid_url(url@) ==> created_or_failed(root.url@, r@),
{
    let ghost u = url@;
    let (mut flow, mut next) = AddUrl::start(root, url);
    loop
        invariant
            u == url@,
            !is_valid_url(u) ==> (next matches Next::Respond(Reply::Error(e)) && e is ValidationErrors
                && is_url_failure(e->ValidationErrors_0)),
            is_valid_url(u) ==> flow@.root == root.url@,
            is_valid_url(u) ==> match next@ {
                NextModel::Run(op) => expects(flow@.stage, op),
                NextModel::Respond(r) => created_or_failed(root.url@, r),
            },
        decreases rank(flow@.stage),
    {
        match next {
            Next::Respond(r) => {
                return r;
            },
            Next::Run(op) => {
                let a = run(conn, op);
                next = flow.step(a);
            },
        }
    }
}

/// Handles a resolve request against the database: a redirect to the URL
/// stored under `id`, not-found when there is none, or a storage error.
pub fn get_url(conn: &rusqlite::Connection, id: String) -> (r: Reply)
    ensures
        r@ is Redirect || r@ is NotFound || r@ == ReplyModel::Error(ErrorKind::Sql),
{
    let op = resolve_lookup(id);
    let a = run(conn, op);
    resolve_reply(a)
}

/// Runs an exchange against the table model: each statement is applied,
/// and its answer fed to the next step, until a reply or the fuel runs out.
pub open spec fn drive(t: Table, m: AddModel, n: NextModel, fresh: Seq<char>, fuel: nat) -> (
    Table,
    ReplyModel,
)
    decreases fuel,
{
    match n {
        NextModel::Respond(r) => (t, r),
        NextModel::Run(op) => if fuel == 0 {
            (t, ReplyModel::NotFound)
        } else {
            let (t2, a) = apply(t, op);
            let (m2, n2) = add_step(m, a, fresh);
            drive(t2, m2, n2, fresh, (fuel - 1) as nat)
        },
    }
}

/// A whole create-mapping request for `url` against table `t`, where a
/// new mapping would get the identifier `fresh`: the table after it and
/// the reply.
pub open spec fn submit(t: Table, root: Seq<char>, url: Seq<char>, fresh: Seq<char>) -> (Table, ReplyModel) {
    let (m, n) = add_start(root, url);
    drive(t, m, n, fresh, 3)
}

/// A whole resolve request for `id` against table `t`.
pub open spec fn resolve(t: Table, id: Seq<char>) -> ReplyModel {
    redirect_reply(apply(t, OpModel::FindUrl(id)).1)
}

/// What a create-mapping request does to the table, for a valid URL and a
/// fresh identifier: the stored identifier is reused, or a row is added
/// under `fresh`; either way that row's URL is `url`, the table stays
/// well formed, and the reply is the short link of that identifier.
proof fn lemma_submit_valid(t: Table, root: Seq<char>, url: Seq<char>, fresh: Seq<char>) -> (id: Seq<char>)
    requires
        table_wf(t),
        is_valid_url(url),
        !t.contains_key(fresh),
    ensures
        maps_to(submit(t, root, url, fresh).0, id, url),
        table_wf(submit(t, root, url, fresh).0),
        submit(t, root, url, fresh).1 == ReplyModel::Created(short_link_of(root, id)),
        has_url(t, url) ==> maps_to(t, id, url),
        !has_url(t, url) ==> id == fresh,
        forall|k: Seq<char>, u: Seq<char>| k != id ==> (maps_to(t, k, u) <==> #[trigger] maps_to(submit(t, root, url, fresh).0, k, u)),
{
    reveal_with_fuel(drive, 4);
    let (m, n) = add_start(root, url);
    let (t1, a1) = apply(t, OpModel::FindId(url));
    if has_url(t, url) {
        let id = choose|id: Seq<char>| maps_to(t, id, url);
        let t2 = t.insert(id, crate::store::Row { url: t[id].url, hits: t[id].hits + 1 });
        assert(submit(t, root, url, fresh).0 == t2);
        assert forall|a: Seq<char>, b: Seq<char>, u: Seq<char>|
            #[trigger] maps_to(t2, a, u) && #[trigger] maps_to(t2, b, u) implies a == b by {
            assert(maps_to(t, a, u) && maps_to(t, b, u));
        }
        id
    } else {
        let t2 = t.insert(fresh, crate::store::Row { url, hits: 0 });
        let t3 = t2.insert(fresh, crate::store::Row { url, hits: 1 });
        assert(submit(t, root, url, fresh).0 == t3);
        assert forall|a: Seq<char>, b: Seq<char>, u: Seq<char>|
            #[trigger] maps_to(t3, a, u) && #[trigger] maps_to(t3, b, u) implies a == b by {
            if a != fresh && b != fresh {
                assert(maps_to(t, a, u) && maps_to(t, b, u));
            } else if a != fresh {
                assert(maps_to(t, a, url));
            } else if b != fresh {
                assert(maps_to(t, b, url));
            }
        }
        fresh
    }
}

/// Submitting the same valid URL twice gives the same short link both
/// times, and afterwards exactly one row holds the URL. The identifier
/// that the first request would give a new mapping must be free.
pub proof fn lemma_resubmit_same_id(
    t: Table,
    root: Seq<char>,
    url: Seq<char>,
    fresh1: Seq<char>,
    fresh2: Seq<char>,
)
    requires
        table_wf(t),
        is_valid_url(url),
        !t.contains_key(fresh1),
    ensures
        submit(t, root, url, fresh1).1 is Created,
        submit(submit(t, root, url, fresh1).0, root, url, fresh2).1 == submit(t, root, url, fresh1).1,
        single_row(submit(submit(t, root, url, fresh1).0, root, url, fresh2).0, url),
{
    let id1 = lemma_submit_valid(t, root, url, fresh1);
    let t1 = submit(t, root, url, fresh1).0;
    reveal_with_fuel(drive, 4);
    let id = choose|id: Seq<char>| maps_to(t1, id, url);
    assert(id == id1);
    let t2 = t1.insert(id, crate::store::Row { url: t1[id].url, hits: t1[id].hits + 1 });
    assert(submit(t1, root, url, fresh2).0 == t2);
    assert forall|k: Seq<char>| #[trigger] maps_to(t2, k, url) implies k == id1 by {
        assert(maps_to(t1, k, url));
    }
    assert(maps_to(t2, id1, url));
}

/// A malformed URL is refused with a validation error and leaves the
/// table unchanged.
pub proof fn lemma_invalid_url_refused(t: Table, root: Seq<char>, url: Seq<char>, fresh: Seq<char>)
    requires
        !is_valid_url(url),
    ensures
        submit(t, root, url, fresh) == (t, ReplyModel::Error(ErrorKind::Validation)),
{
}

/// The identifier in a short link that a create-mapping request returned
/// resolves to the submitted URL.
pub proof fn lemma_created_id_resolves(
    t: Table,
    root: Seq<char>,
    url: Seq<char>,
    fresh: Seq<char>,
    id: Seq<char>,
)
    requires
        table_wf(t),
        submit(t, root, url, fresh).1 == ReplyModel::Created(short_link_of(root, id)),
    ensures
        resolve(submit(t, root, url, fresh).0, id) == ReplyModel::Redirect(url),
{
    reveal_with_fuel(drive, 4);
    if !is_valid_url(url) {
        lemma_invalid_url_refused(t, root, url, fresh);
    } else if has_url(t, url) {
        let k = choose|k: Seq<char>| maps_to(t, k, url);
        assert(submit(t, root, url, fresh).1 == ReplyModel::Created(short_link_of(root, k)));
        lemma_link_injective(root, id, k);
    } else if t.contains_key(fresh) {
        assert(submit(t, root, url, fresh).1 is Error);
    } else {
        let k = lemma_submit_valid(t, root, url, fresh);
        lemma_link_injective(root, id, k);
    }
}

/// An identifier that the table never stored does not resolve.
pub proof fn lemma_unknown_id_not_found(t: Table, id: Seq<char>)
    requires
        !t.contains_key(id),
    ensures
        resolve(t, id) == ReplyModel::NotFound,
{
}

/// A short link under a given root names one identifier.
proof fn lemma_link_injective(root: Seq<char>, a: Seq<char>, b: Seq<char>)
    requires
        short_link_of(root, a) == short_link_of(root, b),
    ensures
        a == b,
{
    let n = root.len() as int + 1;
    assert(a =~= short_link_of(root, a).subrange(n, short_link_of(root, a).len() as int));
    assert(b =~= short_link_of(root, b).subrange(n, short_link_of(root, b).len() as int));
}

} // verus!
