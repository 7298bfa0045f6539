use rustdesk_api::api::ab::settings;
use rustdesk_api::api::user::{
    current_user, login, login_error, login_options, login_token_stored, login_user_known,
    login_verified, logout, LoginRequest,
};
use rustdesk_api::api::{error_json, resume, Body, Pending, Response, Step};
use rustdesk_api::auth::{
    asks_too_much, bearer_token, generate_token, hash_password, verify_password,
};
use rustdesk_api::db::{
    get_or_create_personal_ab, new_book, new_guid, new_token, new_user, now, stamp, to_hex, BookPlan,
    User,
};
use rustdesk_api::json::Json;
use rustdesk_api::query::{Query, Reply};
use serde_json::Value;

fn value(json: &Json) -> Value {
    match json {
        Json::Null => Value::Null,
        Json::Bool(b) => Value::Bool(*b),
        Json::Int(n) => Value::from(*n),
        Json::Count(n) => Value::from(*n),
        Json::Text(s) => Value::String(s.clone()),
        Json::Raw(s) => serde_json::from_str(s).expect("a stored document"),
        Json::List(items) => Value::Array(items.iter().map(value).collect()),
        Json::Object(members) => {
            Value::Object(members.iter().map(|(k, v)| (k.clone(), value(v))).collect())
        }
    }
}

fn parsed(text: &str) -> Value {
    serde_json::from_str(text).expect("valid JSON")
}

fn done(step: Step) -> Response {
    match step {
        Step::Done(response) => response,
        Step::Ask(..) => panic!("still waiting"),
    }
}

fn asked(step: Step) -> (Query, Pending) {
    match step {
        Step::Ask(query, pending) => (query, pending),
        Step::Done(_) => panic!("already answered"),
    }
}

fn body(response: &Response) -> Value {
    match &response.body {
        Body::Json(json) => value(json),
        _ => panic!("no JSON"),
    }
}

fn user(status: i64, password_hash: &str) -> User {
    User {
        id: 7,
        name: "ann".to_string(),
        password_hash: password_hash.to_string(),
        email: "ann@example.com".to_string(),
        note: "n".to_string(),
        is_admin: 1,
        status,
        created_at: 5,
    }
}

fn request(username: Option<&str>, password: Option<&str>) -> LoginRequest {
    LoginRequest {
        username: username.map(|s| s.to_string()),
        password: password.map(|s| s.to_string()),
        id: Some("123".to_string()),
        uuid: None,
    }
}

fn is_lower_hex(s: &str, len: usize) -> bool {
    s.len() == len && s.chars().all(|c| c.is_ascii_digit() || ('a'..='f').contains(&c))
}

fn given(response: &Response) -> (u16, Value) {
    (response.status, body(response))
}

#[test]
fn bearer_tokens() {
    let token = |s: &str| bearer_token(Some(s.to_string()));
    assert_eq!(token("Bearer abc").as_deref(), Some("abc"));
    assert_eq!(token("Bearer ").as_deref(), Some(""));
    assert_eq!(token("Bearer a b").as_deref(), Some("a b"));
    assert_eq!(token("bearer abc"), None);
    assert_eq!(token("Bearer"), None);
    assert_eq!(token("Basic abc"), None);
    assert_eq!(token(""), None);
    assert_eq!(bearer_token(None), None);
}

#[test]
fn tokens_are_fresh_hex() {
    let a = generate_token();
    let b = generate_token();
    assert!(is_lower_hex(&a, 64));
    assert!(is_lower_hex(&b, 64));
    assert_ne!(a, b);
    let guid = new_guid();
    assert!(is_lower_hex(&guid, 32));
    assert_ne!(guid, new_guid());
}

#[test]
fn hexadecimal() {
    assert_eq!(to_hex(&vec![]), "");
    assert_eq!(to_hex(&vec![0x00, 0x0f, 0xa9, 0xff]), "000fa9ff");
}

#[test]
fn clock_readings() {
    assert_eq!(stamp(None), 0);
    assert_eq!(stamp(Some(1_700_000_000)), 1_700_000_000);
    assert!(now() > 1_600_000_000);
}

#[test]
fn user_payload() {
    assert_eq!(
        value(&user(1, "").payload()),
        parsed(
            r#"{"name":"ann","email":"ann@example.com","note":"n","status":1,"is_admin":true,
            "info":{}}"#
        )
    );
}

#[test]
fn rows_that_are_created() {
    let row = new_user("a".to_string(), "h".to_string(), "e".to_string(), true, 9);
    assert_eq!((row.is_admin, row.status, row.created_at), (1, 1, 9));
    assert_eq!((row.name.as_str(), row.password_hash.as_str(), row.email.as_str()), ("a", "h", "e"));
    let row = new_user("a".to_string(), "h".to_string(), "e".to_string(), false, 9);
    assert_eq!(row.is_admin, 0);
    let row = new_token("t".to_string(), 7, "d".to_string(), "u".to_string(), 86_400, 1_000);
    assert_eq!((row.created_at, row.expires_at, row.user_id), (1_000, 87_400, 7));
    assert_eq!((row.token.as_str(), row.device_id.as_str(), row.device_uuid.as_str()), ("t", "d", "u"));
    let row = new_book(7, "g".to_string(), 3);
    assert_eq!((row.guid.as_str(), row.owner_id, row.created_at), ("g", 7, 3));
    assert_eq!(row.name, "My address book");
}

#[test]
fn a_personal_book_is_made_only_where_there_is_none() {
    match get_or_create_personal_ab(Some("g1".to_string()), 7) {
        BookPlan::Use(guid) => assert_eq!(guid, "g1"),
        BookPlan::Create(_) => panic!("a second book"),
    }
    match get_or_create_personal_ab(None, 7) {
        BookPlan::Create(book) => {
            assert!(is_lower_hex(&book.guid, 32));
            assert_eq!((book.owner_id, book.name.as_str()), (7, "My address book"));
        }
        BookPlan::Use(_) => panic!("no book to use"),
    }
}

#[test]
fn passwords_are_hashed_with_argon2id() {
    let hash = hash_password("correct horse").expect("a hash");
    assert!(hash.starts_with("$argon2id$"));
    assert_ne!(hash_password("correct horse"), Some(hash.clone()));
    let step = |password: &str, hash: &str| {
        login_user_known(
            password.to_string(),
            String::new(),
            String::new(),
            60,
            Reply::User(Some(user(1, hash))),
            "t".to_string(),
        )
    };
    assert!(matches!(step("correct horse", &hash), Step::Ask(..)));
    assert!(matches!(step("Correct horse", &hash), Step::Done(_)));
    assert!(matches!(step("correct horse", "no hash"), Step::Done(_)));
    assert!(matches!(step("", &hash), Step::Done(_)));
}

#[test]
fn a_hash_that_asks_for_too_much_lets_nobody_through() {
    let with = |p: &str| format!("$argon2id$v=19$m=64,t=1,p={p}$c2FsdHNhbHRzYWx0$aGFzaGhhc2hoYXNoaGFzaA");
    for p in ["100000000", "536870912", "4294967295", "99999999999"] {
        assert!(asks_too_much(&with(p)));
        assert!(!verify_password("pw", &with(p)));
        let step = login_user_known(
            "pw".to_string(),
            String::new(),
            String::new(),
            60,
            Reply::User(Some(user(1, &with(p)))),
            "t".to_string(),
        );
        assert_eq!(
            given(&done(step)),
            (200, parsed(r#"{"error":"Wrong username or password"}"#))
        );
    }
    for p in ["1", "16777215", "99999999", "12345678a", ""] {
        assert!(!asks_too_much(&with(p)));
    }
    assert!(!verify_password("pw", &with("99999999")));
    assert!(!asks_too_much(""));
    assert!(!asks_too_much("p=12345678"));
    assert!(asks_too_much("p=123456789"));
    assert!(asks_too_much("pp=123456789"));
    assert!(!asks_too_much(&hash_password("pw").expect("a hash")));
}

#[test]
fn passwords_are_verified() {
    let hash = hash_password("pw").expect("a hash");
    assert!(verify_password("pw", &hash));
    assert!(!verify_password("pW", &hash));
    assert!(!verify_password("pw", ""));
    assert!(!verify_password(&hash, "pw"));
}

#[test]
fn a_login_needs_both_name_and_password() {
    for req in [
        request(None, None),
        request(Some("ann"), None),
        request(None, Some("pw")),
        request(Some(""), Some("pw")),
        request(Some("ann"), Some("")),
    ] {
        assert_eq!(
            given(&done(login(req, 60))),
            (200, parsed(r#"{"error":"Username and password are required"}"#))
        );
    }
}

#[test]
fn a_login_from_end_to_end() {
    let hash = hash_password("pw").expect("a hash");
    let (query, pending) = asked(login(request(Some("Ann"), Some("pw")), 60));
    assert!(matches!(query, Query::FindUserByName { name } if name == "Ann"));
    let (query, pending) = asked(resume(pending, Reply::User(Some(user(1, &hash)))));
    let issued = match query {
        Query::CreateToken { token, user_id: 7, device_id, device_uuid, ttl: 60 } => {
            assert_eq!((device_id.as_str(), device_uuid.as_str()), ("123", ""));
            assert!(is_lower_hex(&token, 64));
            token
        }
        _ => panic!("another query"),
    };
    let response = done(resume(pending, Reply::Done));
    assert_eq!(response.status, 200);
    let answer = body(&response);
    assert_eq!(answer["type"], Value::from("access_token"));
    assert_eq!(answer["access_token"], Value::from(issued));
    assert_eq!(answer["user"], value(&user(1, "").payload()));
}

#[test]
fn a_wrong_password_and_an_unknown_name_look_alike() {
    let hash = hash_password("pw").expect("a hash");
    let start = || asked(login(request(Some("ann"), Some("other")), 60)).1;
    let wrong = given(&done(resume(start(), Reply::User(Some(user(1, &hash))))));
    let unknown = given(&done(resume(start(), Reply::User(None))));
    assert_eq!(wrong, (200, parsed(r#"{"error":"Wrong username or password"}"#)));
    assert_eq!(wrong, unknown);
}

#[test]
fn a_disabled_account_is_told_so_only_with_the_right_password() {
    let step = |matches| {
        login_verified(
            user(0, ""),
            matches,
            String::new(),
            String::new(),
            60,
            "t".to_string(),
        )
    };
    assert_eq!(given(&done(step(true))), (200, parsed(r#"{"error":"Account is disabled"}"#)));
    assert_eq!(
        given(&done(step(false))),
        (200, parsed(r#"{"error":"Wrong username or password"}"#))
    );
}

#[test]
fn a_login_that_the_database_fails() {
    let failed = (500, parsed(r#"{"error":"Internal error"}"#));
    let (_, pending) = asked(login(request(Some("ann"), Some("pw")), 60));
    assert_eq!(given(&done(resume(pending, Reply::Failed))), failed);
    assert_eq!(given(&login_token_stored("t".to_string(), user(1, ""), Reply::Failed)), failed);
}

#[test]
fn sessions_are_required() {
    assert_eq!(
        given(&done(settings(None))),
        (401, parsed(r#"{"error":"Not authenticated"}"#))
    );
    let start = || asked(settings(Some("Bearer t".to_string()))).1;
    assert_eq!(
        given(&done(resume(start(), Reply::User(None)))),
        (401, parsed(r#"{"error":"Invalid token"}"#))
    );
    assert_eq!(
        given(&done(resume(start(), Reply::User(Some(user(0, "")))))),
        (401, parsed(r#"{"error":"Account is disabled"}"#))
    );
    assert_eq!(
        given(&done(resume(start(), Reply::Failed))),
        (500, parsed(r#"{"error":"Internal error"}"#))
    );
    assert_eq!(done(resume(start(), Reply::User(Some(user(1, ""))))).status, 200);
}

#[test]
fn the_current_user_is_a_bare_payload() {
    let (query, pending) = asked(current_user(Some("Bearer t".to_string())));
    assert!(matches!(query, Query::UserForToken { token } if token == "t"));
    let response = done(resume(pending, Reply::User(Some(user(1, "")))));
    assert_eq!(body(&response), value(&user(1, "").payload()));
}

#[test]
fn logging_out() {
    let (query, pending) = asked(logout(Some("Bearer t".to_string())));
    assert!(matches!(query, Query::DeleteToken { token } if token == "t"));
    assert_eq!(given(&done(resume(pending, Reply::Done))), (200, parsed("{}")));
    let (_, pending) = asked(logout(Some("Bearer t".to_string())));
    assert_eq!(given(&done(resume(pending, Reply::Failed))), (200, parsed("{}")));
    assert_eq!(given(&done(logout(None))), (200, parsed("{}")));
}

#[test]
fn no_login_options() {
    assert_eq!(given(&login_options()), (200, parsed("[]")));
    assert_eq!(given(&login_error("No")), (200, parsed(r#"{"error":"No"}"#)));
    assert_eq!(given(&error_json(418, "Teapot")), (418, parsed(r#"{"error":"Teapot"}"#)));
}

#[test]
fn a_reply_of_another_kind_is_a_failure() {
    let (_, pending) = asked(settings(Some("Bearer t".to_string())));
    assert_eq!(done(resume(pending, Reply::Count(1))).status, 500);
    assert!(matches!(
        done(resume(Pending::Written, Reply::Flag(true))).body,
        Body::Json(_)
    ));
}
