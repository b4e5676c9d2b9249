use shorust::errors::{AppError, FieldError};
use shorust::handler::{resolve_lookup, resolve_reply, AddStage, AddUrl, Next, Reply};
use shorust::ident::generate_id;
use shorust::store::{StoreAnswer, StoreOp};
use shorust::validation::validate_url_field;
use shorust::{join_link, RootUrl};
use std::collections::HashMap;

/// A table in memory that answers statements as the SQL table does.
struct MemTable {
    rows: HashMap<String, (String, u64)>,
}

impl MemTable {
    fn new() -> MemTable {
        MemTable { rows: HashMap::new() }
    }

    fn run(&mut self, op: StoreOp) -> StoreAnswer {
        match op {
            StoreOp::FindUrl(id) => StoreAnswer::Found(self.rows.get(&id).map(|r| r.0.clone())),
            StoreOp::FindId(url) => {
                StoreAnswer::Found(self.rows.iter().find(|(_, r)| r.0 == url).map(|(k, _)| k.clone()))
            }
            StoreOp::Insert(id, url) => {
                if self.rows.contains_key(&id) || self.rows.values().any(|r| r.0 == url) {
                    StoreAnswer::Failed(AppError::SqlError("UNIQUE constraint failed".to_string()))
                } else {
                    self.rows.insert(id, (url, 0));
                    StoreAnswer::Done
                }
            }
            StoreOp::AddHit(id) => {
                if let Some(r) = self.rows.get_mut(&id) {
                    r.1 += 1;
                }
                StoreAnswer::Done
            }
        }
    }

    fn rows_for(&self, url: &str) -> usize {
        self.rows.values().filter(|r| r.0 == url).count()
    }
}

fn localhost() -> RootUrl {
    RootUrl::new("http://localhost".to_owned())
}

fn submit(t: &mut MemTable, root: &RootUrl, url: &str) -> Reply {
    let (mut flow, mut next) = AddUrl::start(root, url.to_string());
    loop {
        match next {
            Next::Run(op) => {
                let answer = t.run(op);
                next = flow.step(answer);
            }
            Next::Respond(r) => return r,
        }
    }
}

fn resolve(t: &mut MemTable, id: &str) -> Reply {
    let op = resolve_lookup(id.to_string());
    resolve_reply(t.run(op))
}

fn created_body(r: &Reply) -> String {
    match r {
        Reply::Created(b) => b.clone(),
        _ => panic!("expected a created reply"),
    }
}

fn is_identifier(s: &str) -> bool {
    s.chars().count() == 6 && s.chars().all(|c| c.is_ascii_alphanumeric())
}

#[test]
fn generated_ids_are_six_alphanumerics() {
    for _ in 0..1000 {
        let id = generate_id();
        assert!(is_identifier(&id), "bad identifier {:?}", id);
    }
}

#[test]
fn submitting_twice_gives_one_row_and_one_id() {
    let mut t = MemTable::new();
    let root = localhost();
    let first = created_body(&submit(&mut t, &root, "http://example.com/a"));
    let second = created_body(&submit(&mut t, &root, "http://example.com/a"));
    assert_eq!(first, second);
    assert_eq!(t.rows_for("http://example.com/a"), 1);
    assert_eq!(t.rows.len(), 1);
    let id = first.replace("http://localhost/", "");
    assert_eq!(t.rows[&id].1, 2);
}

#[test]
fn malformed_url_inserts_nothing() {
    let mut t = MemTable::new();
    let resp = submit(&mut t, &localhost(), "example.com");
    assert_eq!(resp.status(), 400);
    assert!(t.rows.is_empty());
}

#[test]
fn created_id_resolves_to_submitted_url() {
    let mut t = MemTable::new();
    let body = created_body(&submit(&mut t, &localhost(), "https://rust-lang.org/learn"));
    let id = body.replace("http://localhost/", "");
    match resolve(&mut t, &id) {
        Reply::Redirect(u) => assert_eq!(u, "https://rust-lang.org/learn"),
        _ => panic!("expected a redirect"),
    }
}

#[test]
fn never_issued_id_is_not_found() {
    let mut t = MemTable::new();
    submit(&mut t, &localhost(), "http://example.com");
    let resp = resolve(&mut t, "zzzzzz");
    assert!(matches!(resp, Reply::NotFound));
    assert_eq!(resp.status(), 404);
}

#[test]
fn missing_scheme_names_url_field() {
    let mut t = MemTable::new();
    let resp = submit(&mut t, &localhost(), "twitter.com");
    assert_eq!(resp.status(), 400);
    match resp {
        Reply::Error(AppError::ValidationErrors(v)) => {
            assert_eq!(v.len(), 1);
            assert_eq!(v[0].field, "url");
            assert_eq!(v[0].code, "url");
        }
        _ => panic!("expected a validation error"),
    }
}

#[test]
fn url_field_validation() {
    assert!(validate_url_field("http://twitter.com").is_ok());
    assert!(validate_url_field("https://example.com:8080/path?q=1").is_ok());
    assert!(validate_url_field("twitter.com").is_err());
    assert!(validate_url_field("").is_err());
}

#[test]
fn error_status_codes() {
    assert_eq!(AppError::PoolError("timed out".to_string()).status_code(), 500);
    assert_eq!(AppError::SqlError("locked".to_string()).status_code(), 500);
    let v = vec![FieldError { field: "url".to_string(), code: "url".to_string() }];
    let e = AppError::ValidationErrors(v);
    assert_eq!(e.status_code(), 400);
    assert_eq!(AppError::internal_message(), "Internal server error.");
}

#[test]
fn short_link_joins_root_and_id() {
    assert_eq!(localhost().short_link("abc123"), "http://localhost/abc123");
    assert_eq!(join_link(&"https://s.io".to_string(), "Zz09aA"), "https://s.io/Zz09aA");
}

#[test]
fn store_failure_becomes_server_error() {
    let (mut flow, next) = AddUrl::start(&localhost(), "http://a.com".to_string());
    assert!(matches!(next, Next::Run(StoreOp::FindId(ref u)) if u == "http://a.com"));
    let next = flow.step(StoreAnswer::Failed(AppError::PoolError("no connection".to_string())));
    match next {
        Next::Respond(r) => {
            assert_eq!(r.status(), 500);
            assert!(matches!(r, Reply::Error(AppError::PoolError(_))));
        }
        _ => panic!("expected a reply"),
    }
    assert!(matches!(flow.stage, AddStage::Finished));
}

#[test]
fn lookup_miss_inserts_fresh_identifier() {
    let (mut flow, _) = AddUrl::start(&localhost(), "http://b.com".to_string());
    let next = flow.step(StoreAnswer::Found(None));
    let id = match next {
        Next::Run(StoreOp::Insert(id, url)) => {
            assert_eq!(url, "http://b.com");
            id
        }
        _ => panic!("expected an insert"),
    };
    assert!(is_identifier(&id));
    match flow.step(StoreAnswer::Done) {
        Next::Run(StoreOp::AddHit(h)) => assert_eq!(h, id),
        _ => panic!("expected a hit"),
    }
    match flow.step(StoreAnswer::Done) {
        Next::Respond(Reply::Created(b)) => assert_eq!(b, format!("http://localhost/{}", id)),
        _ => panic!("expected the short link"),
    }
}

#[test]
fn insert_collision_is_server_error() {
    let (mut flow, _) = AddUrl::start(&localhost(), "http://c.com".to_string());
    flow.step(StoreAnswer::Found(None));
    let next = flow.step(StoreAnswer::Failed(AppError::SqlError("UNIQUE".to_string())));
    match next {
        Next::Respond(r) => assert_eq!(r.status(), 500),
        _ => panic!("expected a reply"),
    }
}

#[test]
fn lookup_hit_reuses_identifier() {
    let (mut flow, _) = AddUrl::start(&localhost(), "http://d.com".to_string());
    match flow.step(StoreAnswer::Found(Some("Ab12Cd".to_string()))) {
        Next::Run(StoreOp::AddHit(h)) => assert_eq!(h, "Ab12Cd"),
        _ => panic!("expected a hit"),
    }
    match flow.step(StoreAnswer::Done) {
        Next::Respond(Reply::Created(b)) => assert_eq!(b, "http://localhost/Ab12Cd"),
        _ => panic!("expected the short link"),
    }
}

#[test]
fn resolve_failure_is_server_error() {
    let r = resolve_reply(StoreAnswer::Failed(AppError::SqlError("io".to_string())));
    assert_eq!(r.status(), 500);
}
