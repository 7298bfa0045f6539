use rustdesk_api::api::ab::{device_peer_json, PageQuery};
use rustdesk_api::api::device::{
    beat, heartbeat, platform_from_os, register, registered, sysinfo, sysinfo_ver, touched,
};
use rustdesk_api::api::group::{accessible_known, device_json, groups_page, no_users, os_field};
use rustdesk_api::api::misc::{audit_ok, health, health_known, not_found};
use rustdesk_api::api::{Body, Pending, Response, Step};
use rustdesk_api::db::{device_row, stale_cutoff, Device, DeviceReport};
use rustdesk_api::json::Json;
use rustdesk_api::query::{Query, Reply};
use serde_json::Value;

fn value(json: &Json) -> Value {
    match json {
        Json::Null => Value::Null,
        Json::Bool(b) => Value::Bool(*b),
        Json::Int(n) => Value::from(*n),
        Json::Count(n) => Value::from(*n),
        Json::Text(s) => Value::String(s.clone()),
        Json::Raw(s) => serde_json::from_str(s).expect("a stored document"),
        Json::List(items) => Value::Array(items.iter().map(value).collect()),
        Json::Object(members) => {
            Value::Object(members.iter().map(|(k, v)| (k.clone(), value(v))).collect())
        }
    }
}

fn parsed(text: &str) -> Value {
    serde_json::from_str(text).expect("valid JSON")
}

fn done(step: Step) -> Response {
    match step {
        Step::Done(response) => response,
        Step::Ask(..) => panic!("still waiting"),
    }
}

fn asked(step: Step) -> (Query, Pending) {
    match step {
        Step::Ask(query, pending) => (query, pending),
        Step::Done(_) => panic!("already answered"),
    }
}

fn body(response: &Response) -> Value {
    match &response.body {
        Body::Json(json) => value(json),
        _ => panic!("no JSON"),
    }
}

fn text(response: &Response) -> &str {
    match &response.body {
        Body::Text(s) => s,
        _ => panic!("no plain text"),
    }
}

fn device(platform: &str, os: &str) -> Device {
    Device {
        id: "123".to_string(),
        uuid: "u".to_string(),
        hostname: "host".to_string(),
        username: "ann".to_string(),
        platform: platform.to_string(),
        os: os.to_string(),
        version: "1.4.9".to_string(),
        cpu: "c".to_string(),
        memory: "m".to_string(),
        first_seen: 1,
        last_seen: 2,
    }
}

fn everything() -> PageQuery {
    PageQuery { current: None, page_size: None, ab: None }
}

#[test]
fn platforms() {
    assert_eq!(platform_from_os("Windows 11 Pro"), "Windows");
    assert_eq!(platform_from_os("WINDOWS"), "Windows");
    assert_eq!(platform_from_os("Android 14"), "Android");
    assert_eq!(platform_from_os("iOS 17"), "iOS");
    assert_eq!(platform_from_os("macOS 14.1"), "Mac OS");
    assert_eq!(platform_from_os("Darwin"), "Mac OS");
    assert_eq!(platform_from_os("debian / Linux 13"), "Linux");
    assert_eq!(platform_from_os("FreeBSD"), "");
    assert_eq!(platform_from_os(""), "");
    // The first match wins.
    assert_eq!(platform_from_os("linux on windows"), "Windows");
    // "ios" stands in many words.
    assert_eq!(platform_from_os("NetBIOS Linux"), "iOS");
}

#[test]
fn a_full_registration() {
    let body = r#"{"id":"42","uuid":"u-1","hostname":"pc","username":"ann","os":"debian / Linux 13",
        "version":"1.4.9","cpu":"x86","memory":"16GB","extra":7}"#;
    let (query, pending) = asked(sysinfo(body));
    match query {
        Query::UpsertDevice { report } => {
            assert_eq!(report.id, "42");
            assert_eq!(report.uuid, "u-1");
            assert_eq!(report.hostname, "pc");
            assert_eq!(report.username, "ann");
            assert_eq!(report.platform, "Linux");
            assert_eq!(report.os, "debian / Linux 13");
            assert_eq!(report.version, "1.4.9");
            assert_eq!(report.cpu, "x86");
            assert_eq!(report.memory, "16GB");
        }
        _ => panic!("another query"),
    }
    assert!(matches!(pending, Pending::Registered));
}

#[test]
fn missing_and_odd_fields_are_empty() {
    let (query, _) = asked(sysinfo(r#"{"id":"42","hostname":5,"os":null}"#));
    match query {
        Query::UpsertDevice { report } => {
            assert_eq!(report.hostname, "");
            assert_eq!(report.os, "");
            assert_eq!(report.platform, "");
            assert_eq!(report.uuid, "");
        }
        _ => panic!("another query"),
    }
}

#[test]
fn registration_without_an_id_is_not_found() {
    for body in ["", "no json", "{}", r#"{"id":""}"#, r#"{"id":42}"#, "[]", "null", r#""42""#] {
        let response = done(sysinfo(body));
        assert_eq!(response.status, 200);
        assert_eq!(text(&response), "ID_NOT_FOUND", "{body:?}");
    }
    assert_eq!(text(&done(register(None))), "ID_NOT_FOUND");
}

#[test]
fn registration_replies() {
    assert_eq!(text(&registered(Reply::Done)), "SYSINFO_UPDATED");
    assert_eq!(text(&registered(Reply::Failed)), "ERROR");
    assert_eq!(text(&sysinfo_ver()), "1");
}

#[test]
fn heartbeats() {
    let (query, pending) = asked(heartbeat(r#"{"id":"42","ver":1}"#));
    assert!(matches!(query, Query::TouchDevice { id } if id == "42"));
    assert!(matches!(pending, Pending::Touched));
    for text in ["", "{", "{}", r#"{"id":""}"#, r#"{"id":[]}"#] {
        assert_eq!(body(&done(heartbeat(text))), parsed("{}"), "{text:?}");
    }
    assert_eq!(body(&done(beat(None))), parsed("{}"));
    assert_eq!(body(&touched(Reply::Flag(true))), parsed("{}"));
    assert_eq!(body(&touched(Reply::Flag(false))), parsed(r#"{"sysinfo":""}"#));
    assert_eq!(body(&touched(Reply::Failed)), parsed("{}"));
}

#[test]
fn the_row_of_a_report() {
    let report = DeviceReport {
        id: "7".to_string(),
        uuid: String::new(),
        hostname: "h".to_string(),
        username: String::new(),
        platform: "Linux".to_string(),
        os: "Linux".to_string(),
        version: "1".to_string(),
        cpu: String::new(),
        memory: String::new(),
    };
    let row = device_row(report, 99);
    assert_eq!((row.id.as_str(), row.hostname.as_str(), row.platform.as_str()), ("7", "h", "Linux"));
    assert_eq!((row.first_seen, row.last_seen), (99, 99));
}

#[test]
fn stale_cutoffs() {
    assert_eq!(stale_cutoff(0, 1_000_000), None);
    assert_eq!(stale_cutoff(-3, 1_000_000), None);
    assert_eq!(stale_cutoff(1, 1_000_000), Some(913_600));
    assert_eq!(stale_cutoff(10, 1_000_000), Some(136_000));
}

#[test]
fn os_fields_start_with_the_icon_word() {
    assert_eq!(os_field(&device("Windows", "Windows 11")), "windows / Windows 11");
    assert_eq!(os_field(&device("Linux", "debian / Linux 13")), "linux / debian / Linux 13");
    assert_eq!(os_field(&device("Mac OS", "")), "macos");
    assert_eq!(os_field(&device("Android", "Android 14")), "android / Android 14");
    assert_eq!(os_field(&device("iOS", "iOS 17")), "iOS 17");
    assert_eq!(os_field(&device("", "FreeBSD")), "FreeBSD");
    assert_eq!(os_field(&device("", "")), "");
}

#[test]
fn an_accessible_device() {
    assert_eq!(
        value(&device_json(&device("Linux", "Linux 6"))),
        parsed(
            r#"{"id":"123","user":"","user_name":"","device_group_name":"All Workstations",
            "note":"","status":1,
            "info":{"device_name":"host","os":"linux / Linux 6","username":"ann"}}"#
        )
    );
}

#[test]
fn a_device_in_the_shared_book() {
    assert_eq!(
        value(&device_peer_json(&device("Linux", "Linux 6"))),
        parsed(
            r#"{"id":"123","username":"ann","hostname":"host","platform":"Linux","alias":"",
            "tags":[],"note":"","hash":"","password":"","forceAlwaysRelay":"false","rdpPort":"",
            "rdpUsername":"","loginName":"","device_group_name":"","same_server":true}"#
        )
    );
}

#[test]
fn the_accessible_page() {
    let reply = Reply::Devices(vec![device("Linux", ""), device("", "x")]);
    let page = body(&accessible_known(&everything(), reply));
    assert_eq!(page["total"], Value::from(2));
    assert_eq!(page["data"][0]["info"]["os"], Value::from("linux"));
    assert_eq!(page["data"][1]["info"]["os"], Value::from("x"));
    let second = PageQuery { current: Some(2), page_size: Some(1), ab: None };
    let reply = Reply::Devices(vec![device("Linux", ""), device("", "x")]);
    let page = body(&accessible_known(&second, reply));
    assert_eq!(page["total"], Value::from(2));
    assert_eq!(page["data"].as_array().map(|d| d.len()), Some(1));
    assert_eq!(
        body(&accessible_known(&everything(), Reply::Failed)),
        parsed(r#"{"total":0,"data":[]}"#)
    );
}

#[test]
fn groups_and_users() {
    assert_eq!(
        value(&groups_page(&everything())),
        parsed(r#"{"total":1,"data":[{"name":"All Workstations"}]}"#)
    );
    let beyond = PageQuery { current: Some(2), page_size: Some(5), ab: None };
    assert_eq!(value(&groups_page(&beyond)), parsed(r#"{"total":1,"data":[]}"#));
    assert_eq!(value(&no_users()), parsed(r#"{"total":0,"data":[]}"#));
}

#[test]
fn health_checks() {
    let (query, _) = asked(health(7));
    assert!(matches!(query, Query::ListDevices { stale_days: 7 }));
    let up = health_known(Reply::Devices(vec![device("", "")]));
    assert_eq!((up.status, body(&up)), (200, parsed(r#"{"status":"ok","devices":1}"#)));
    let down = health_known(Reply::Failed);
    assert_eq!((down.status, body(&down)), (500, parsed(r#"{"error":"database unavailable"}"#)));
}

#[test]
fn sinks_and_the_unknown() {
    let audit = audit_ok();
    assert_eq!(audit.status, 200);
    assert!(matches!(audit.body, Body::Empty));
    let unknown = not_found();
    assert_eq!((unknown.status, body(&unknown)), (404, parsed(r#"{"error":"Not found"}"#)));
}
