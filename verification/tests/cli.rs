use rustdesk_api::cli::{
    ago, go_on, is_blank, run_device, run_user, take_turn, truncate, write_devices, write_users,
    DeviceAction, Event, Purpose, Turn, UserAction, Wait,
};
use rustdesk_api::db::{Device, User};
use rustdesk_api::query::{Query, Reply};

fn asked(turn: Turn) -> (Query, Wait) {
    match turn {
        Turn::Ask(query, wait) => (query, wait),
        _ => panic!("no query"),
    }
}

fn prompted(turn: Turn) -> (String, Wait) {
    match turn {
        Turn::Prompt(prompt, wait) => (prompt, wait),
        _ => panic!("no prompt"),
    }
}

fn printed(turn: Turn) -> Vec<String> {
    match turn {
        Turn::Print(lines) => lines,
        _ => panic!("nothing printed"),
    }
}

fn refused(turn: Turn) -> String {
    match turn {
        Turn::Refuse(message) => message,
        _ => panic!("not refused"),
    }
}

fn user(name: &str, email: &str, is_admin: i64, status: i64) -> User {
    User {
        id: 1,
        name: name.to_string(),
        password_hash: String::new(),
        email: email.to_string(),
        note: String::new(),
        is_admin,
        status,
        created_at: 0,
    }
}

fn device(id: &str, hostname: &str, last_seen: i64) -> Device {
    Device {
        id: id.to_string(),
        uuid: String::new(),
        hostname: hostname.to_string(),
        username: String::new(),
        platform: "Linux".to_string(),
        os: String::new(),
        version: "1.4.9".to_string(),
        cpu: String::new(),
        memory: String::new(),
        first_seen: 0,
        last_seen,
    }
}

fn add(name: &str, admin: bool, password: Option<&str>) -> Turn {
    run_user(UserAction::Add {
        name: name.to_string(),
        admin,
        email: "e@x".to_string(),
        password: password.map(|s| s.to_string()),
    })
}

fn passwd(name: &str, password: Option<&str>) -> Turn {
    run_user(UserAction::Passwd {
        name: name.to_string(),
        password: password.map(|s| s.to_string()),
    })
}

fn reply(reply: Reply) -> Event {
    Event::Reply(reply)
}

#[test]
fn blank_names() {
    for s in ["", " ", "\t\n ", "\u{00A0}\u{3000}"] {
        assert!(is_blank(s));
        assert_eq!(refused(add(s, false, Some("pw"))), "username cannot be empty");
    }
    assert!(!is_blank(" a "));
}

#[test]
fn white_space_is_what_unicode_says() {
    let listed: Vec<char> = ('\u{0009}'..='\u{000D}')
        .chain(['\u{0020}', '\u{0085}', '\u{00A0}', '\u{1680}'])
        .chain('\u{2000}'..='\u{200A}')
        .chain(['\u{2028}', '\u{2029}', '\u{202F}', '\u{205F}', '\u{3000}'])
        .collect();
    assert_eq!(listed.len(), 25);
    let found: Vec<char> =
        ('\u{0000}'..=char::MAX).filter(|c| is_blank(c.encode_utf8(&mut [0; 4]))).collect();
    assert_eq!(found, listed);
}

#[test]
fn an_account_is_added() {
    let (query, wait) = asked(add("ann", true, Some("pw")));
    assert!(matches!(query, Query::FindUserByName { name } if name == "ann"));
    let (query, wait) = asked(go_on(wait, reply(Reply::User(None))));
    match query {
        Query::CreateUser { name, password_hash, email, is_admin } => {
            assert_eq!((name.as_str(), email.as_str(), is_admin), ("ann", "e@x", true));
            assert!(password_hash.starts_with("$argon2id$"));
        }
        _ => panic!("another query"),
    }
    assert_eq!(
        printed(go_on(wait, reply(Reply::Count(1)))),
        vec!["created user \"ann\" (admin)".to_string()]
    );
}

#[test]
fn an_ordinary_account_is_added_under_a_given_hash() {
    let (_, wait) = asked(add("a\"b", false, Some("pw")));
    let (query, wait) =
        asked(take_turn(wait, reply(Reply::User(None)), Some("hash".to_string()), 0));
    assert!(
        matches!(query, Query::CreateUser { password_hash, is_admin: false, .. } if password_hash == "hash")
    );
    assert_eq!(
        printed(take_turn(wait, reply(Reply::Count(9)), None, 0)),
        vec!["created user \"a\\\"b\"".to_string()]
    );
}

#[test]
fn a_name_that_is_taken_is_refused() {
    let (_, wait) = asked(add("ann", false, Some("pw")));
    let turn = go_on(wait, reply(Reply::User(Some(user("Ann", "", 0, 1)))));
    assert_eq!(refused(turn), "user \"ann\" already exists");
}

#[test]
fn empty_passwords_are_refused() {
    let (_, wait) = asked(add("ann", false, Some("")));
    assert_eq!(refused(go_on(wait, reply(Reply::User(None)))), "password cannot be empty");
    let (_, wait) = asked(add("ann", false, None));
    let (_, wait) = prompted(go_on(wait, reply(Reply::User(None))));
    assert_eq!(
        refused(go_on(wait, Event::Entered(String::new()))),
        "password cannot be empty"
    );
}

#[test]
fn a_password_is_typed_twice() {
    let first = || {
        let (_, wait) = asked(passwd("ann", None));
        let (prompt, wait) = prompted(go_on(wait, reply(Reply::User(Some(user("ann", "", 0, 1))))));
        assert_eq!(prompt, "Password: ");
        let (prompt, wait) = prompted(go_on(wait, Event::Entered("new".to_string())));
        assert_eq!(prompt, "Confirm password: ");
        wait
    };
    assert_eq!(
        refused(go_on(first(), Event::Entered("now".to_string()))),
        "passwords do not match"
    );
    let (query, wait) = asked(go_on(first(), Event::Entered("new".to_string())));
    assert!(
        matches!(query, Query::SetPassword { name, password_hash } if name == "ann" && password_hash.starts_with("$argon2id$"))
    );
    assert_eq!(
        printed(go_on(wait, reply(Reply::Count(1)))),
        vec!["password updated for \"ann\"".to_string()]
    );
}

#[test]
fn a_password_for_nobody_is_refused() {
    let (_, wait) = asked(passwd("bob", Some("pw")));
    assert_eq!(refused(go_on(wait, reply(Reply::User(None)))), "no such user: bob");
}

#[test]
fn a_password_without_a_hash_is_refused() {
    let wait = Wait::Confirm {
        purpose: Purpose::Passwd { name: "ann".to_string() },
        password: "pw".to_string(),
    };
    let turn = take_turn(wait, Event::Entered("pw".to_string()), None, 0);
    assert_eq!(refused(turn), "password is too long");
}

#[test]
fn accounts_are_removed() {
    let start = || {
        let (query, wait) = asked(run_user(UserAction::Rm { name: "ann".to_string() }));
        assert!(matches!(query, Query::DeleteUser { name } if name == "ann"));
        wait
    };
    assert_eq!(printed(go_on(start(), reply(Reply::Count(1)))), vec!["deleted user \"ann\"".to_string()]);
    assert_eq!(refused(go_on(start(), reply(Reply::Count(0)))), "no such user: ann");
}

#[test]
fn devices_are_removed() {
    let start = || {
        let (query, wait) = asked(run_device(DeviceAction::Rm { id: "42".to_string() }));
        assert!(matches!(query, Query::DeleteDevice { id } if id == "42"));
        wait
    };
    assert_eq!(printed(go_on(start(), reply(Reply::Count(1)))), vec!["deleted device \"42\"".to_string()]);
    assert_eq!(refused(go_on(start(), reply(Reply::Count(0)))), "no such device: 42");
}

#[test]
fn failures_end_a_command() {
    let (_, wait) = asked(add("ann", false, Some("pw")));
    assert!(matches!(go_on(wait, reply(Reply::Failed)), Turn::Fail));
    let (_, wait) = asked(passwd("ann", None));
    let (_, wait) = prompted(go_on(wait, reply(Reply::User(Some(user("ann", "", 0, 1))))));
    assert!(matches!(go_on(wait, Event::Unreadable), Turn::Fail));
    let (_, wait) = asked(run_user(UserAction::List));
    assert!(matches!(go_on(wait, reply(Reply::Failed)), Turn::Fail));
    let (_, wait) = asked(run_device(DeviceAction::List));
    assert!(matches!(go_on(wait, reply(Reply::Failed)), Turn::Fail));
}

#[test]
fn the_table_of_accounts() {
    let (query, wait) = asked(run_user(UserAction::List));
    assert!(matches!(query, Query::ListUsers));
    let users = vec![user("ann", "ann@example.com", 1, 1), user("bob", "", 0, 0)];
    let lines = printed(go_on(wait, reply(Reply::Users(users))));
    assert_eq!(
        lines,
        vec![
            format!("{:<24} {:<28} {:<7} STATUS", "NAME", "EMAIL", "ADMIN"),
            format!("{:<24} {:<28} {:<7} {}", "ann", "ann@example.com", "yes", "active"),
            format!("{:<24} {:<28} {:<7} {}", "bob", "-", "no", "disabled"),
        ]
    );
    assert_eq!(
        write_users(&vec![]),
        vec!["no users yet \u{2014} create one with: rustdesk-api user add <name>".to_string()]
    );
}

#[test]
fn the_table_of_devices() {
    let (query, _) = asked(run_device(DeviceAction::List));
    assert!(matches!(query, Query::ListDevices { stale_days: 0 }));
    let long = "a-host-name-that-is-far-too-long";
    let lines = write_devices(&vec![device("1", "pc", 1_000), device("2", long, -9_000)], 1_089);
    assert_eq!(
        lines,
        vec![
            format!("{:<12} {:<24} {:<10} {:<10} LAST SEEN", "ID", "HOSTNAME", "PLATFORM", "VERSION"),
            format!("{:<12} {:<24} {:<10} {:<10} {}", "1", "pc", "Linux", "1.4.9", "just now"),
            format!(
                "{:<12} {:<24} {:<10} {:<10} {}",
                "2", "a-host-name-that-is-far\u{2026}", "Linux", "1.4.9", "2h ago"
            ),
        ]
    );
    assert_eq!(
        write_devices(&vec![], 0),
        vec!["no workstations have registered yet".to_string()]
    );
}

#[test]
fn a_listing_reads_the_clock() {
    let (_, wait) = asked(run_device(DeviceAction::List));
    let lines = printed(go_on(wait, reply(Reply::Devices(vec![device("1", "pc", 0)]))));
    assert!(lines[1].ends_with("d ago"));
}

#[test]
fn truncation() {
    assert_eq!(truncate("abc", 3), "abc");
    assert_eq!(truncate("abcd", 3), "ab\u{2026}");
    assert_eq!(truncate("\u{00E9}\u{00E9}\u{00E9}", 2), "\u{00E9}\u{2026}");
    assert_eq!(truncate("abc", 1), "\u{2026}");
    assert_eq!(truncate("abc", 0), "\u{2026}");
    assert_eq!(truncate("", 0), "");
}

#[test]
fn how_long_ago() {
    assert_eq!(ago(1_000, 1_000), "just now");
    assert_eq!(ago(1_000, 1_089), "just now");
    assert_eq!(ago(1_000, 1_090), "1m ago");
    assert_eq!(ago(0, 3_599), "59m ago");
    assert_eq!(ago(0, 3_600), "1h ago");
    assert_eq!(ago(0, 86_399), "23h ago");
    assert_eq!(ago(0, 86_400), "1d ago");
    assert_eq!(ago(0, 864_000), "10d ago");
    // A time stamp in the future.
    assert_eq!(ago(2_000, 1_000), "just now");
}
