//! Whole requests, answered from tables in memory.

use rustdesk_api::api::ab::{
    peer_add, peer_delete, peer_update, peers, personal, tag_delete, tag_put, tag_rename, tags,
    PageQuery, PeerPayload, TagPayload, TagRenamePayload, SHARED_GUID,
};
use rustdesk_api::api::device::{heartbeat, sysinfo};
use rustdesk_api::api::misc::health;
use rustdesk_api::api::user::{current_user, login, logout, LoginRequest};
use rustdesk_api::api::{group, resume, Body, Response, Step};
use rustdesk_api::cli::{go_on, run_device, run_user, DeviceAction, Event, Turn, UserAction};
use rustdesk_api::db::{
    delete_ab_tags, device_row, get_or_create_personal_ab, new_token, new_user, rename_ab_tag,
    stale_cutoff, AbPeer, AbTag, BookPlan, Device, NewBook, NewToken, User,
};
use rustdesk_api::config::Config;
use rustdesk_api::json::Json;
use rustdesk_api::query::{Query, Reply};
use rustdesk_api::startup::{bootstrap_admin, serve, Boot};
use serde_json::Value;
use std::collections::BTreeMap;

fn value(json: &Json) -> Value {
    match json {
        Json::Null => Value::Null,
        Json::Bool(b) => Value::Bool(*b),
        Json::Int(n) => Value::from(*n),
        Json::Count(n) => Value::from(*n),
        Json::Text(s) => Value::String(s.clone()),
        Json::Raw(s) => serde_json::from_str(s).expect("a stored document"),
        Json::List(items) => Value::Array(items.iter().map(value).collect()),
        Json::Object(members) => {
            Value::Object(members.iter().map(|(k, v)| (k.clone(), value(v))).collect())
        }
    }
}

fn parsed(text: &str) -> Value {
    serde_json::from_str(text).expect("valid JSON")
}

fn body(response: &Response) -> Value {
    match &response.body {
        Body::Json(json) => value(json),
        _ => panic!("no JSON"),
    }
}

/// A database that keeps its tables in memory and its own clock.
struct Memory {
    now: i64,
    next_id: i64,
    users: Vec<User>,
    tokens: Vec<NewToken>,
    devices: Vec<Device>,
    books: Vec<NewBook>,
    peers: BTreeMap<(String, String), AbPeer>,
    tags: BTreeMap<(String, String), i64>,
}

impl Memory {
    fn new() -> Memory {
        Memory {
            now: 1_000_000,
            next_id: 1,
            users: Vec::new(),
            tokens: Vec::new(),
            devices: Vec::new(),
            books: Vec::new(),
            peers: BTreeMap::new(),
            tags: BTreeMap::new(),
        }
    }

    fn user(&self, name: &str) -> Option<usize> {
        self.users.iter().position(|u| u.name.eq_ignore_ascii_case(name))
    }

    fn has_book(&self, guid: &str) -> bool {
        self.books.iter().any(|b| b.guid == guid)
    }

    /// The ids of the peers of a book with their stored tag lists.
    fn rows(&self, guid: &str) -> Vec<(String, String)> {
        self.peers
            .iter()
            .filter(|(key, _)| key.0 == guid)
            .map(|(key, peer)| (key.1.clone(), peer.tags.clone()))
            .collect()
    }

    fn write_back(&mut self, guid: &str, updates: Vec<(String, String)>) {
        for (id, text) in updates {
            if let Some(peer) = self.peers.get_mut(&(guid.to_string(), id)) {
                peer.tags = text;
            }
        }
    }

    fn serve(&mut self, query: Query) -> Reply {
        match query {
            Query::FindUserByName { name } => {
                Reply::User(self.user(&name).map(|i| self.users[i].clone()))
            }
            Query::CreateUser { name, password_hash, email, is_admin } => {
                if self.user(&name).is_some() {
                    return Reply::Failed;
                }
                let row = new_user(name, password_hash, email, is_admin, self.now);
                let id = self.next_id;
                self.next_id += 1;
                self.users.push(User {
                    id,
                    name: row.name,
                    password_hash: row.password_hash,
                    email: row.email,
                    note: String::new(),
                    is_admin: row.is_admin,
                    status: row.status,
                    created_at: row.created_at,
                });
                Reply::Count(id)
            }
            Query::CountUsers => Reply::Count(self.users.len() as i64),
            Query::ListUsers => Reply::Users(self.users.clone()),
            Query::SetPassword { name, password_hash } => match self.user(&name) {
                Some(i) => {
                    self.users[i].password_hash = password_hash;
                    let id = self.users[i].id;
                    self.tokens.retain(|t| t.user_id != id);
                    Reply::Count(1)
                }
                None => Reply::Count(0),
            },
            Query::DeleteUser { name } => match self.user(&name) {
                Some(i) => {
                    let id = self.users.remove(i).id;
                    self.tokens.retain(|t| t.user_id != id);
                    let gone: Vec<String> = self
                        .books
                        .iter()
                        .filter(|b| b.owner_id == id)
                        .map(|b| b.guid.clone())
                        .collect();
                    self.books.retain(|b| b.owner_id != id);
                    self.peers.retain(|key, _| !gone.contains(&key.0));
                    self.tags.retain(|key, _| !gone.contains(&key.0));
                    Reply::Count(1)
                }
                None => Reply::Count(0),
            },
            Query::CreateToken { token, user_id, device_id, device_uuid, ttl } => {
                self.tokens.push(new_token(token, user_id, device_id, device_uuid, ttl, self.now));
                Reply::Done
            }
            Query::UserForToken { token } => Reply::User(
                self.tokens
                    .iter()
                    .find(|t| t.token == token && t.expires_at > self.now)
                    .and_then(|t| self.users.iter().find(|u| u.id == t.user_id))
                    .cloned(),
            ),
            Query::DeleteToken { token } => {
                self.tokens.retain(|t| t.token != token);
                Reply::Done
            }
            Query::PurgeExpiredTokens => {
                let before = self.tokens.len();
                let now = self.now;
                self.tokens.retain(|t| t.expires_at > now);
                Reply::Count((before - self.tokens.len()) as i64)
            }
            Query::UpsertDevice { report } => {
                let mut row = device_row(report, self.now);
                if let Some(i) = self.devices.iter().position(|d| d.id == row.id) {
                    row.first_seen = self.devices[i].first_seen;
                    self.devices[i] = row;
                } else {
                    self.devices.push(row);
                }
                Reply::Done
            }
            Query::TouchDevice { id } => {
                let now = self.now;
                match self.devices.iter_mut().find(|d| d.id == id) {
                    Some(device) => {
                        device.last_seen = now;
                        Reply::Flag(true)
                    }
                    None => Reply::Flag(false),
                }
            }
            Query::ListDevices { stale_days } => {
                let oldest = stale_cutoff(stale_days, self.now).unwrap_or(i64::MIN);
                let mut list: Vec<Device> =
                    self.devices.iter().filter(|d| d.last_seen >= oldest).cloned().collect();
                list.sort_by(|a, b| (&a.hostname, &a.id).cmp(&(&b.hostname, &b.id)));
                Reply::Devices(list)
            }
            Query::DeleteDevice { id } => {
                let before = self.devices.len();
                self.devices.retain(|d| d.id != id);
                Reply::Count((before - self.devices.len()) as i64)
            }
            Query::GetOrCreatePersonalAb { user_id } => {
                let found =
                    self.books.iter().find(|b| b.owner_id == user_id).map(|b| b.guid.clone());
                match get_or_create_personal_ab(found, user_id) {
                    BookPlan::Use(guid) => Reply::Guid(guid),
                    BookPlan::Create(book) => {
                        let guid = book.guid.clone();
                        self.books.push(book);
                        Reply::Guid(guid)
                    }
                }
            }
            Query::OwnsAb { guid, user_id } => {
                Reply::Flag(self.books.iter().any(|b| b.guid == guid && b.owner_id == user_id))
            }
            Query::ListAbPeers { guid } => Reply::Peers(
                self.peers.iter().filter(|(k, _)| k.0 == guid).map(|(_, p)| p.clone()).collect(),
            ),
            Query::GetAbPeer { guid, id } => Reply::Peer(self.peers.get(&(guid, id)).cloned()),
            Query::PutAbPeer { guid, peer } => {
                if !self.has_book(&guid) {
                    return Reply::Failed;
                }
                self.peers.insert((guid, peer.id.clone()), peer);
                Reply::Done
            }
            Query::DeleteAbPeers { guid, ids } => {
                self.peers.retain(|key, _| key.0 != guid || !ids.contains(&key.1));
                Reply::Done
            }
            Query::ListAbTags { guid } => Reply::Tags(
                self.tags
                    .iter()
                    .filter(|(k, _)| k.0 == guid)
                    .map(|(k, color)| AbTag { name: k.1.clone(), color: *color })
                    .collect(),
            ),
            Query::PutAbTag { guid, name, color } => {
                if !self.has_book(&guid) {
                    return Reply::Failed;
                }
                self.tags.insert((guid, name), color);
                Reply::Done
            }
            Query::RenameAbTag { guid, old, new } => {
                if let Some(color) = self.tags.remove(&(guid.clone(), old.clone())) {
                    self.tags.insert((guid.clone(), new.clone()), color);
                }
                let updates = rename_ab_tag(self.rows(&guid), &old, &new);
                self.write_back(&guid, updates);
                Reply::Done
            }
            Query::DeleteAbTags { guid, names } => {
                self.tags.retain(|key, _| key.0 != guid || !names.contains(&key.1));
                let updates = delete_ab_tags(self.rows(&guid), &names);
                self.write_back(&guid, updates);
                Reply::Done
            }
        }
    }

    fn answer(&mut self, mut step: Step) -> Response {
        loop {
            match step {
                Step::Done(response) => return response,
                Step::Ask(query, pending) => {
                    let reply = self.serve(query);
                    step = resume(pending, reply);
                }
            }
        }
    }

    fn command(&mut self, mut turn: Turn) -> Result<Vec<String>, String> {
        loop {
            match turn {
                Turn::Ask(query, wait) => {
                    let reply = self.serve(query);
                    turn = go_on(wait, Event::Reply(reply));
                }
                Turn::Prompt(..) => panic!("nobody is typing"),
                Turn::Print(lines) => return Ok(lines),
                Turn::Refuse(message) => return Err(message),
                Turn::Fail => panic!("the tables are never down"),
            }
        }
    }

    fn add(&mut self, name: &str, password: &str) -> Result<Vec<String>, String> {
        self.command(run_user(UserAction::Add {
            name: name.to_string(),
            admin: false,
            email: String::new(),
            password: Some(password.to_string()),
        }))
    }

    fn try_login(&mut self, name: &str, password: &str) -> Value {
        let req = LoginRequest {
            username: Some(name.to_string()),
            password: Some(password.to_string()),
            id: None,
            uuid: None,
        };
        let response = self.answer(login(req, 100));
        assert_eq!(response.status, 200);
        body(&response)
    }

    /// Logs in and hands back the header for further requests.
    fn login(&mut self, name: &str, password: &str) -> Option<String> {
        let answer = self.try_login(name, password);
        Some(format!("Bearer {}", answer["access_token"].as_str().expect("a token")))
    }

    fn register(&mut self, id: &str, hostname: &str) {
        let text = format!(r#"{{"id":"{id}","hostname":"{hostname}","os":"Linux"}}"#);
        let response = self.answer(sysinfo(&text));
        assert!(matches!(response.body, Body::Text(s) if s == "SYSINFO_UPDATED"));
    }

    fn shared(&mut self, header: &Option<String>, stale_days: i64) -> Value {
        let page = PageQuery { current: None, page_size: None, ab: Some(SHARED_GUID.to_string()) };
        body(&self.answer(peers(header.clone(), page, stale_days)))
    }

    fn guid(&mut self, header: &Option<String>) -> String {
        let answer = body(&self.answer(personal(header.clone())));
        answer["guid"].as_str().expect("a guid").to_string()
    }

    fn book(&mut self, header: &Option<String>, ab: Option<String>) -> Value {
        let page = PageQuery { current: None, page_size: None, ab };
        body(&self.answer(peers(header.clone(), page, 0)))
    }
}

fn payload(id: &str, tags: &[&str]) -> PeerPayload {
    PeerPayload {
        id: Some(id.to_string()),
        alias: None,
        tags: Some(tags.iter().map(|s| s.to_string()).collect()),
        hash: None,
        password: None,
        note: None,
        username: None,
        hostname: None,
        platform: None,
    }
}

fn is_empty_ok(response: &Response) -> bool {
    response.status == 200 && matches!(response.body, Body::Empty)
}

fn ids(page: &Value) -> Vec<String> {
    let data = page["data"].as_array().expect("a page");
    data.iter().map(|p| p["id"].as_str().expect("an id").to_string()).collect()
}

fn two_users() -> (Memory, Option<String>, Option<String>) {
    let mut db = Memory::new();
    db.add("ann", "pa").expect("an account");
    db.add("bob", "pb").expect("an account");
    let ann = db.login("ann", "pa");
    let bob = db.login("BOB", "pb");
    (db, ann, bob)
}

#[test]
fn every_registered_device_is_in_everyones_address_book() {
    let (mut db, ann, bob) = two_users();
    assert_eq!(ids(&db.shared(&ann, 0)), Vec::<String>::new());
    db.register("2", "beta");
    db.register("1", "gamma");
    db.register("3", "alpha");
    let page = db.shared(&ann, 0);
    assert_eq!(page["total"], Value::from(3));
    assert_eq!(ids(&page), vec!["3", "2", "1"]);
    assert_eq!(page, db.shared(&bob, 0));
    let all = PageQuery { current: None, page_size: None, ab: None };
    let accessible = body(&db.answer(group::peers(ann.clone(), all, 0)));
    assert_eq!(ids(&accessible), vec!["3", "2", "1"]);
    let healthy = body(&db.answer(health(0)));
    assert_eq!(healthy, parsed(r#"{"status":"ok","devices":3}"#));
}

#[test]
fn the_shared_book_is_read_page_by_page() {
    let (mut db, ann, _) = two_users();
    for (id, hostname) in [("1", "c"), ("2", "a"), ("3", "b")] {
        db.register(id, hostname);
    }
    let mut read: Vec<String> = Vec::new();
    for current in 1..=2 {
        let page = PageQuery {
            current: Some(current),
            page_size: Some(2),
            ab: Some(SHARED_GUID.to_string()),
        };
        let answer = body(&db.answer(peers(ann.clone(), page, 0)));
        assert_eq!(answer["total"], Value::from(3));
        read.extend(ids(&answer));
    }
    assert_eq!(read, vec!["2", "3", "1"]);
}

#[test]
fn a_restart_drops_only_what_has_run_out() {
    let (mut db, ann, bob) = two_users();
    db.register("1", "pc");
    let guid = db.guid(&ann);
    db.answer(peer_add(ann.clone(), guid, payload("5", &["t"])));
    db.now += 60;
    let fresh = db.login("bob", "pb");
    db.now += 50;
    let config = Config {
        bind: String::new(),
        database_url: String::new(),
        token_ttl: 100,
        device_stale_days: 0,
        admin_user: Some("root".to_string()),
        admin_password: Some("pw".to_string()),
    };
    let mut boot = bootstrap_admin(&config);
    while let Boot::Ask(query, wait) = boot {
        let reply = db.serve(query);
        boot = serve(wait, reply);
    }
    assert!(matches!(boot, Boot::Listen { deserted: false }));
    assert_eq!((db.users.len(), db.tokens.len()), (2, 1));
    assert_eq!((db.devices.len(), db.books.len(), db.peers.len()), (1, 1, 1));
    assert_eq!(db.answer(current_user(fresh)).status, 200);
    assert_eq!(db.answer(current_user(ann)).status, 401);
    assert_eq!(db.answer(current_user(bob)).status, 401);
}

#[test]
fn registering_again_keeps_when_a_device_was_first_seen() {
    let mut db = Memory::new();
    db.register("1", "old");
    db.now += 500;
    db.register("1", "new");
    assert_eq!(db.devices.len(), 1);
    assert_eq!(db.devices[0].hostname, "new");
    assert_eq!((db.devices[0].first_seen, db.devices[0].last_seen), (1_000_000, 1_000_500));
}

#[test]
fn a_removed_device_returns_when_it_reports() {
    let (mut db, ann, _) = two_users();
    db.register("1", "pc");
    let beat = |db: &mut Memory| body(&db.answer(heartbeat(r#"{"id":"1"}"#)));
    assert_eq!(beat(&mut db), parsed("{}"));
    db.command(run_device(DeviceAction::Rm { id: "1".to_string() })).expect("removed");
    assert_eq!(ids(&db.shared(&ann, 0)), Vec::<String>::new());
    assert_eq!(beat(&mut db), parsed(r#"{"sysinfo":""}"#));
    assert!(db.devices.is_empty());
    db.register("1", "pc");
    assert_eq!(ids(&db.shared(&ann, 0)), vec!["1"]);
    assert_eq!(
        db.command(run_device(DeviceAction::Rm { id: "9".to_string() })),
        Err("no such device: 9".to_string())
    );
}

#[test]
fn stale_devices_are_hidden_but_not_from_the_command_line() {
    let (mut db, _, _) = two_users();
    db.register("1", "pc");
    db.now += 86_400;
    db.register("2", "fresh");
    let ann = db.login("ann", "pa");
    assert_eq!(ids(&db.shared(&ann, 1)), vec!["2", "1"]);
    db.now += 1;
    assert_eq!(ids(&db.shared(&ann, 1)), vec!["2"]);
    assert_eq!(ids(&db.shared(&ann, 0)), vec!["2", "1"]);
    let lines = db.command(run_device(DeviceAction::List)).expect("a list");
    assert_eq!(lines.len(), 3);
    db.answer(heartbeat(r#"{"id":"1"}"#));
    assert_eq!(ids(&db.shared(&ann, 1)), vec!["2", "1"]);
}

#[test]
fn a_session_lasts_its_time() {
    let (mut db, ann, _) = two_users();
    let status = |db: &mut Memory| db.answer(current_user(ann.clone())).status;
    db.now += 99;
    assert_eq!(status(&mut db), 200);
    assert!(matches!(db.serve(Query::PurgeExpiredTokens), Reply::Count(0)));
    db.now += 1;
    assert_eq!(status(&mut db), 401);
    assert!(matches!(db.serve(Query::PurgeExpiredTokens), Reply::Count(2)));
}

#[test]
fn logging_out_ends_only_that_session() {
    let (mut db, ann, bob) = two_users();
    let other = db.login("ann", "pa");
    db.answer(logout(ann.clone()));
    assert_eq!(db.answer(current_user(ann)).status, 401);
    assert_eq!(db.answer(current_user(other)).status, 200);
    assert_eq!(db.answer(current_user(bob)).status, 200);
}

#[test]
fn names_differ_by_more_than_case() {
    let (mut db, _, _) = two_users();
    assert_eq!(db.add("ANN", "x"), Err("user \"ANN\" already exists".to_string()));
    assert_eq!(db.users.len(), 2);
}

#[test]
fn a_new_password_counts_at_once() {
    let (mut db, ann, bob) = two_users();
    let second = db.login("ann", "pa");
    assert_eq!(db.answer(current_user(ann.clone())).status, 200);
    let lines = db.command(run_user(UserAction::Passwd {
        name: "Ann".to_string(),
        password: Some("changed".to_string()),
    }));
    assert_eq!(lines, Ok(vec!["password updated for \"Ann\"".to_string()]));
    // Sessions that were opened with the old password have ended, and only those.
    assert_eq!(db.answer(current_user(ann)).status, 401);
    assert_eq!(db.answer(current_user(second)).status, 401);
    assert_eq!(db.answer(current_user(bob)).status, 200);
    assert_eq!(db.try_login("ann", "pa"), parsed(r#"{"error":"Wrong username or password"}"#));
    assert!(db.login("ann", "changed").is_some());
    assert!(db.login("bob", "pb").is_some());
}

#[test]
fn a_deleted_user_is_gone_with_everything() {
    let (mut db, ann, bob) = two_users();
    let guid = db.guid(&ann);
    let other = db.guid(&bob);
    for (header, guid) in [(&ann, &guid), (&bob, &other)] {
        db.answer(peer_add(header.clone(), guid.clone(), payload("1", &["t"])));
        let tag = TagPayload { name: "t".to_string(), color: None };
        db.answer(tag_put(header.clone(), guid.clone(), tag));
    }
    db.command(run_user(UserAction::Rm { name: "ANN".to_string() })).expect("removed");
    assert_eq!(db.answer(current_user(ann)).status, 401);
    assert_eq!(db.try_login("ann", "pa"), parsed(r#"{"error":"Wrong username or password"}"#));
    assert!(!db.has_book(&guid));
    assert_eq!(db.peers.len(), 1);
    assert_eq!(db.tags.len(), 1);
    assert_eq!(ids(&db.book(&bob, None)), vec!["1"]);
    assert_eq!(db.answer(current_user(bob)).status, 200);
}

#[test]
fn a_personal_book_is_private_and_stable() {
    let (mut db, ann, bob) = two_users();
    let guid = db.guid(&ann);
    assert_eq!(db.guid(&ann), guid);
    assert_ne!(db.guid(&bob), guid);
    assert!(is_empty_ok(&db.answer(peer_add(ann.clone(), guid.clone(), payload("5", &[])))));
    assert_eq!(ids(&db.book(&ann, None)), vec!["5"]);
    assert_eq!(db.book(&ann, None), db.book(&ann, Some(guid.clone())));
    let missing = parsed(r#"{"error":"Address book not found"}"#);
    assert_eq!(db.book(&bob, Some(guid.clone())), missing);
    assert_eq!(body(&db.answer(peer_delete(bob.clone(), guid.clone(), vec!["5".to_string()]))), missing);
    assert_eq!(body(&db.answer(tags(bob, guid.clone()))), missing);
    assert_eq!(ids(&db.book(&ann, Some(guid))), vec!["5"]);
}

#[test]
fn what_is_put_in_is_read_back() {
    let (mut db, ann, _) = two_users();
    let guid = db.guid(&ann);
    let mut sent = payload("5", &["home", "a \"b\""]);
    sent.alias = Some("desk".to_string());
    sent.password = Some("secret".to_string());
    assert!(is_empty_ok(&db.answer(peer_add(ann.clone(), guid.clone(), sent))));
    let page = db.book(&ann, None);
    assert_eq!(page["total"], Value::from(1));
    let peer = &page["data"][0];
    assert_eq!(peer["alias"], Value::from("desk"));
    assert_eq!(peer["password"], Value::from("secret"));
    assert_eq!(peer["tags"], parsed(r#"["home","a \"b\""]"#));
    assert_eq!(peer["note"], Value::from(""));

    let mut sparse = payload("5", &[]);
    sparse.tags = None;
    sparse.note = Some("by the door".to_string());
    assert!(is_empty_ok(&db.answer(peer_update(ann.clone(), guid.clone(), sparse))));
    let peer = db.book(&ann, None)["data"][0].clone();
    assert_eq!(peer["note"], Value::from("by the door"));
    assert_eq!(peer["alias"], Value::from("desk"));
    assert_eq!(peer["tags"], parsed(r#"["home","a \"b\""]"#));

    assert!(is_empty_ok(&db.answer(peer_update(ann.clone(), guid.clone(), payload("6", &[])))));
    assert_eq!(ids(&db.book(&ann, None)), vec!["5"]);
    assert!(is_empty_ok(&db.answer(peer_add(ann.clone(), guid.clone(), payload("6", &[])))));
    let some = vec!["5".to_string(), "7".to_string()];
    assert!(is_empty_ok(&db.answer(peer_delete(ann.clone(), guid, some))));
    assert_eq!(ids(&db.book(&ann, None)), vec!["6"]);
}

#[test]
fn renaming_and_deleting_tags_reaches_every_peer() {
    let (mut db, ann, bob) = two_users();
    let guid = db.guid(&ann);
    let other = db.guid(&bob);
    db.answer(peer_add(ann.clone(), guid.clone(), payload("1", &["a", "b"])));
    db.answer(peer_add(ann.clone(), guid.clone(), payload("2", &["c"])));
    db.answer(peer_add(bob.clone(), other.clone(), payload("1", &["a"])));
    for (name, color) in [("a", 1), ("b", 2), ("c", 3)] {
        let tag = TagPayload { name: name.to_string(), color: Some(color) };
        assert!(is_empty_ok(&db.answer(tag_put(ann.clone(), guid.clone(), tag))));
    }
    let rename = TagRenamePayload { old: "a".to_string(), new: "b".to_string() };
    assert!(is_empty_ok(&db.answer(tag_rename(ann.clone(), guid.clone(), rename))));
    assert_eq!(
        body(&db.answer(tags(ann.clone(), guid.clone()))),
        parsed(r#"[{"name":"b","color":1},{"name":"c","color":3}]"#)
    );
    let page = db.book(&ann, None);
    assert_eq!(page["data"][0]["tags"], parsed(r#"["b"]"#));
    assert_eq!(page["data"][1]["tags"], parsed(r#"["c"]"#));
    let gone = vec!["b".to_string()];
    assert!(is_empty_ok(&db.answer(tag_delete(ann.clone(), guid.clone(), gone))));
    assert_eq!(
        body(&db.answer(tags(ann.clone(), guid))),
        parsed(r#"[{"name":"c","color":3}]"#)
    );
    assert_eq!(db.book(&ann, None)["data"][0]["tags"], parsed("[]"));
    assert_eq!(db.book(&bob, None)["data"][0]["tags"], parsed(r#"["a"]"#));
}

#[test]
fn strangers_get_nothing_but_a_401() {
    let (mut db, ann, _) = two_users();
    let guid = db.guid(&ann);
    for header in [None, Some("Bearer nonsense".to_string()), Some("nonsense".to_string())] {
        assert_eq!(db.answer(current_user(header.clone())).status, 401);
        assert_eq!(db.answer(personal(header.clone())).status, 401);
        assert_eq!(db.answer(group::users(header.clone())).status, 401);
        let response = db.answer(peer_add(header, guid.clone(), payload("1", &[])));
        assert_eq!(response.status, 401);
    }
    assert!(db.peers.is_empty());
    db.users[0].status = 0;
    assert_eq!(db.answer(current_user(ann)).status, 401);
    assert_eq!(db.try_login("ann", "pa"), parsed(r#"{"error":"Account is disabled"}"#));
}
