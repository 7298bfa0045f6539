use rustdesk_api::api::ab::{
    action_error, book_peers_known, book_tags_known, ok_empty, peer_add, peer_to_add, peer_to_update,
    peers, personal, personal_known, resolve_ab, settings, shared_peers_known, shared_profiles,
    stored_peer_json, tag_delete, tag_put, tag_rename, tags, written, BookUse, Change, PageQuery,
    PeerPayload, TagPayload, TagRenamePayload, DEFAULT_TAG_COLOR, SHARED_GUID, SHARED_NAME,
};
use rustdesk_api::api::{resume, Body, Pending, Response, Step};
use rustdesk_api::db::{AbPeer, AbTag, User};
use rustdesk_api::json::Json;
use rustdesk_api::query::{Query, Reply};
use serde_json::Value;

fn value(json: &Json) -> Value {
    match json {
        Json::Null => Value::Null,
        Json::Bool(b) => Value::Bool(*b),
        Json::Int(n) => Value::from(*n),
        Json::Count(n) => Value::from(*n),
        Json::Text(s) => Value::String(s.clone()),
        Json::Raw(s) => serde_json::from_str(s).expect("a stored document"),
        Json::List(items) => Value::Array(items.iter().map(value).collect()),
        Json::Object(members) => {
            Value::Object(members.iter().map(|(k, v)| (k.clone(), value(v))).collect())
        }
    }
}

fn parsed(text: &str) -> Value {
    serde_json::from_str(text).expect("valid JSON")
}

fn done(step: Step) -> Response {
    match step {
        Step::Done(response) => response,
        Step::Ask(..) => panic!("still waiting"),
    }
}

fn asked(step: Step) -> (Query, Pending) {
    match step {
        Step::Ask(query, pending) => (query, pending),
        Step::Done(_) => panic!("already answered"),
    }
}

fn body(response: &Response) -> Value {
    match &response.body {
        Body::Json(json) => value(json),
        _ => panic!("no JSON"),
    }
}

fn user() -> User {
    User {
        id: 7,
        name: "ann".to_string(),
        password_hash: String::new(),
        email: String::new(),
        note: String::new(),
        is_admin: 0,
        status: 1,
        created_at: 0,
    }
}

fn header() -> Option<String> {
    Some("Bearer t0".to_string())
}

fn page(ab: Option<&str>) -> PageQuery {
    PageQuery { current: None, page_size: None, ab: ab.map(|s| s.to_string()) }
}

fn payload(id: Option<&str>) -> PeerPayload {
    PeerPayload {
        id: id.map(|s| s.to_string()),
        alias: None,
        tags: None,
        hash: None,
        password: None,
        note: None,
        username: None,
        hostname: None,
        platform: None,
    }
}

fn stored(tags: &str) -> AbPeer {
    AbPeer {
        id: "9".to_string(),
        alias: "a".to_string(),
        tags: tags.to_string(),
        hash: "h".to_string(),
        password: "p".to_string(),
        note: "n".to_string(),
        username: "u".to_string(),
        hostname: "hn".to_string(),
        platform: "pl".to_string(),
    }
}

/// Logs the user in and hands back the next step.
fn logged_in(step: Step) -> Step {
    let (query, pending) = asked(step);
    assert!(matches!(query, Query::UserForToken { token } if token == "t0"));
    resume(pending, Reply::User(Some(user())))
}

/// Logs the user in, confirms that the book is theirs, and hands back the next step.
fn owned(step: Step) -> Step {
    let (query, pending) = asked(logged_in(step));
    assert!(matches!(query, Query::OwnsAb { guid, user_id: 7 } if guid == "g1"));
    resume(pending, Reply::Flag(true))
}

fn error(response: &Response) -> String {
    assert_eq!(response.status, 200);
    body(response)["error"].as_str().expect("an error").to_string()
}

#[test]
fn settings_have_no_cap() {
    let response = done(logged_in(settings(header())));
    assert_eq!(body(&response), parsed(r#"{"max_peer_one_ab":0}"#));
}

#[test]
fn the_one_shared_profile() {
    assert_eq!((SHARED_GUID, SHARED_NAME), ("all-workstations", "All Workstations"));
    let response = done(logged_in(shared_profiles(header(), page(None))));
    assert_eq!(
        body(&response),
        parsed(
            r#"{"total":1,"data":[{"guid":"all-workstations","name":"All Workstations",
            "owner":"system",
            "note":"Automatically maintained: every workstation registered with this server.",
            "rule":1,"info":null}]}"#
        )
    );
}

#[test]
fn the_personal_guid() {
    let (query, pending) = asked(logged_in(personal(header())));
    assert!(matches!(query, Query::GetOrCreatePersonalAb { user_id: 7 }));
    let response = done(resume(pending, Reply::Guid("g1".to_string())));
    assert_eq!(body(&response), parsed(r#"{"guid":"g1"}"#));
    assert_eq!(error(&personal_known(Reply::Failed)), "Internal error");
}

#[test]
fn peers_of_the_shared_book_are_the_devices() {
    let step = logged_in(peers(header(), page(Some(SHARED_GUID)), 3));
    let (query, pending) = asked(step);
    assert!(matches!(query, Query::ListDevices { stale_days: 3 }));
    let response = done(resume(pending, Reply::Devices(Vec::new())));
    assert_eq!(body(&response), parsed(r#"{"total":0,"data":[]}"#));
    assert_eq!(error(&shared_peers_known(&page(None), Reply::Failed)), "Internal error");
}

#[test]
fn peers_of_a_book_by_guid() {
    let (query, pending) = asked(owned(peers(header(), page(Some("g1")), 0)));
    assert!(matches!(query, Query::ListAbPeers { guid } if guid == "g1"));
    let response = done(resume(pending, Reply::Peers(vec![stored("[]")])));
    assert_eq!(body(&response)["total"], Value::from(1));
    assert_eq!(error(&book_peers_known(&page(None), Reply::Failed)), "Internal error");
}

#[test]
fn an_absent_or_empty_ab_means_the_personal_book() {
    for ab in [None, Some("")] {
        let (query, pending) = asked(logged_in(peers(header(), page(ab), 0)));
        assert!(matches!(query, Query::GetOrCreatePersonalAb { user_id: 7 }));
        let (query, pending) = asked(resume(pending, Reply::Guid("g1".to_string())));
        assert!(matches!(query, Query::OwnsAb { guid, user_id: 7 } if guid == "g1"));
        let (query, _) = asked(resume(pending, Reply::Flag(true)));
        assert!(matches!(query, Query::ListAbPeers { guid } if guid == "g1"));
    }
    let (_, pending) = asked(logged_in(peers(header(), page(None), 0)));
    assert_eq!(error(&done(resume(pending, Reply::Failed))), "Internal error");
}

#[test]
fn a_foreign_book_is_not_found() {
    for step in [
        peers(header(), page(Some("g1")), 0),
        tags(header(), "g1".to_string()),
        peer_add(header(), "g1".to_string(), payload(Some("1"))),
        tag_delete(header(), "g1".to_string(), Vec::new()),
    ] {
        let (_, pending) = asked(logged_in(step));
        assert_eq!(error(&done(resume(pending, Reply::Flag(false)))), "Address book not found");
    }
    let (_, pending) = asked(logged_in(tags(header(), "g1".to_string())));
    assert_eq!(error(&done(resume(pending, Reply::Failed))), "Internal error");
}

#[test]
fn tags_are_a_bare_array() {
    let (query, pending) = asked(owned(tags(header(), "g1".to_string())));
    assert!(matches!(query, Query::ListAbTags { guid } if guid == "g1"));
    let tag = AbTag { name: "work".to_string(), color: 4278190335 };
    let response = done(resume(pending, Reply::Tags(vec![tag])));
    assert_eq!(body(&response), parsed(r#"[{"name":"work","color":4278190335}]"#));
    let shared = done(logged_in(tags(header(), SHARED_GUID.to_string())));
    assert_eq!(body(&shared), parsed("[]"));
    assert_eq!(error(&book_tags_known(Reply::Failed)), "Internal error");
}

#[test]
fn the_shared_book_is_read_only() {
    let shared = || SHARED_GUID.to_string();
    let rename = TagRenamePayload { old: "a".to_string(), new: "b".to_string() };
    for step in [
        peer_add(header(), shared(), payload(Some("1"))),
        rustdesk_api::api::ab::peer_update(header(), shared(), payload(Some("1"))),
        rustdesk_api::api::ab::peer_delete(header(), shared(), vec!["1".to_string()]),
        tag_put(header(), shared(), TagPayload { name: "t".to_string(), color: None }),
        tag_rename(header(), shared(), rename),
        tag_delete(header(), shared(), vec!["t".to_string()]),
    ] {
        assert_eq!(
            error(&done(logged_in(step))),
            "\"All Workstations\" is read-only; it is maintained automatically"
        );
    }
}

#[test]
fn a_peer_on_the_wire() {
    assert_eq!(
        value(&stored_peer_json(&stored(r#"["x","y"]"#))),
        parsed(
            r#"{"id":"9","username":"u","hostname":"hn","platform":"pl","alias":"a",
            "tags":["x","y"],"note":"n","hash":"h","password":"p","forceAlwaysRelay":"false",
            "rdpPort":"","rdpUsername":"","loginName":"","device_group_name":"",
            "same_server":true}"#
        )
    );
}

#[test]
fn odd_stored_tags() {
    let sent = |tags: &str| value(&stored_peer_json(&stored(tags)))["tags"].clone();
    assert_eq!(sent("[]"), parsed("[]"));
    assert_eq!(sent("null"), parsed("[]"));
    assert_eq!(sent(""), parsed("[]"));
    assert_eq!(sent("[1,"), parsed("[]"));
    assert_eq!(sent("[1, 2]"), parsed("[1,2]"));
    assert_eq!(sent("7"), parsed("7"));
}

#[test]
fn a_peer_that_is_added() {
    let mut sent = payload(Some("9"));
    sent.alias = Some("desk".to_string());
    sent.tags = Some(vec!["a\"b".to_string(), "c".to_string()]);
    let peer = peer_to_add(sent);
    assert_eq!(peer.id, "9");
    assert_eq!(peer.alias, "desk");
    assert_eq!(peer.tags, r#"["a\"b","c"]"#);
    assert_eq!((peer.hash.as_str(), peer.password.as_str(), peer.note.as_str()), ("", "", ""));
    assert_eq!(peer_to_add(payload(Some("9"))).tags, "[]");
}

#[test]
fn adding_a_peer() {
    let (query, pending) =
        asked(owned(peer_add(header(), "g1".to_string(), payload(Some("9")))));
    match query {
        Query::PutAbPeer { guid, peer } => {
            assert_eq!((guid.as_str(), peer.id.as_str()), ("g1", "9"));
        }
        _ => panic!("another query"),
    }
    let response = done(resume(pending, Reply::Done));
    assert_eq!(response.status, 200);
    assert!(matches!(response.body, Body::Empty));
    for id in [None, Some("")] {
        let response = done(owned(peer_add(header(), "g1".to_string(), payload(id))));
        assert_eq!(error(&response), "Peer id is required");
    }
    assert_eq!(error(&written(Reply::Failed)), "Internal error");
}

#[test]
fn a_sparse_update_keeps_the_rest() {
    let mut sent = payload(Some("9"));
    sent.note = Some("new".to_string());
    sent.alias = Some(String::new());
    let peer = peer_to_update(stored(r#"["x"]"#), sent);
    assert_eq!(peer.note, "new");
    assert_eq!(peer.alias, "");
    assert_eq!(peer.tags, r#"["x"]"#);
    assert_eq!((peer.hash.as_str(), peer.password.as_str()), ("h", "p"));
    assert_eq!(
        (peer.username.as_str(), peer.hostname.as_str(), peer.platform.as_str()),
        ("u", "hn", "pl")
    );
    let mut sent = payload(Some("9"));
    sent.tags = Some(vec!["z".to_string()]);
    let peer = peer_to_update(stored(r#"["x"]"#), sent);
    assert_eq!(peer.tags, r#"["z"]"#);
    assert_eq!(peer.note, "n");
}

#[test]
fn updating_a_peer() {
    let start = || {
        let mut sent = payload(Some("9"));
        sent.hostname = Some("renamed".to_string());
        asked(owned(rustdesk_api::api::ab::peer_update(header(), "g1".to_string(), sent)))
    };
    let (query, pending) = start();
    assert!(matches!(query, Query::GetAbPeer { guid, id } if guid == "g1" && id == "9"));
    let (query, pending) = asked(resume(pending, Reply::Peer(Some(stored("[]")))));
    match query {
        Query::PutAbPeer { guid, peer } => {
            assert_eq!(guid, "g1");
            assert_eq!((peer.hostname.as_str(), peer.alias.as_str()), ("renamed", "a"));
        }
        _ => panic!("another query"),
    }
    assert!(matches!(done(resume(pending, Reply::Done)).body, Body::Empty));
    // An unknown peer is not made.
    let (_, pending) = start();
    assert!(matches!(done(resume(pending, Reply::Peer(None))).body, Body::Empty));
    let (_, pending) = start();
    assert_eq!(error(&done(resume(pending, Reply::Failed))), "Internal error");
    let step = rustdesk_api::api::ab::peer_update(header(), "g1".to_string(), payload(None));
    assert_eq!(error(&done(owned(step))), "Peer id is required");
}

#[test]
fn deleting_peers_and_tags() {
    let two = || vec!["1".to_string(), "2".to_string()];
    let step = rustdesk_api::api::ab::peer_delete(header(), "g1".to_string(), two());
    let (query, _) = asked(owned(step));
    assert!(matches!(query, Query::DeleteAbPeers { guid, ids } if guid == "g1" && ids == two()));
    let (query, _) = asked(owned(tag_delete(header(), "g1".to_string(), two())));
    assert!(matches!(query, Query::DeleteAbTags { guid, names } if guid == "g1" && names == two()));
}

#[test]
fn putting_a_tag() {
    let put = |name: &str, color| {
        owned(tag_put(header(), "g1".to_string(), TagPayload { name: name.to_string(), color }))
    };
    let (query, _) = asked(put("work", Some(5)));
    assert!(matches!(query, Query::PutAbTag { guid, name, color: 5 } if guid == "g1" && name == "work"));
    let (query, _) = asked(put("work", None));
    assert!(matches!(query, Query::PutAbTag { color: 4288585374, .. }));
    assert_eq!(DEFAULT_TAG_COLOR, 4288585374);
    assert_eq!(error(&done(put("", Some(5)))), "Tag name is required");
}

#[test]
fn renaming_a_tag() {
    let rename = |old: &str, new: &str| {
        let payload = TagRenamePayload { old: old.to_string(), new: new.to_string() };
        owned(tag_rename(header(), "g1".to_string(), payload))
    };
    let (query, _) = asked(rename("a", "b"));
    assert!(
        matches!(query, Query::RenameAbTag { guid, old, new } if guid == "g1" && old == "a" && new == "b")
    );
    for step in [rename("", "b"), rename("a", ""), rename("", "")] {
        assert_eq!(error(&done(step)), "Both old and new tag names are required");
    }
}

#[test]
fn a_book_is_resolved_by_its_guid() {
    let step = resolve_ab(SHARED_GUID.to_string(), 7, BookUse::Write(Change::PeerDelete(Vec::new())));
    assert!(matches!(step, Step::Done(_)));
    let (query, _) = asked(resolve_ab("all-workstation".to_string(), 7, BookUse::Tags));
    assert!(matches!(query, Query::OwnsAb { .. }));
}

#[test]
fn the_answers_to_a_change() {
    let ok = ok_empty();
    assert_eq!(ok.status, 200);
    assert!(matches!(ok.body, Body::Empty));
    let failed = action_error("No");
    assert_eq!((failed.status, body(&failed)), (200, parsed(r#"{"error":"No"}"#)));
}
