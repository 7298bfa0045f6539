use rustdesk_api::config::Config;
use rustdesk_api::query::{Query, Reply};
use rustdesk_api::startup::{boot_step, bootstrap_admin, serve, Boot, BootWait};

fn config(user: Option<&str>, password: Option<&str>) -> Config {
    Config {
        bind: String::new(),
        database_url: String::new(),
        token_ttl: 86_400,
        device_stale_days: 0,
        admin_user: user.map(|s| s.to_string()),
        admin_password: password.map(|s| s.to_string()),
    }
}

fn asked(boot: Boot) -> (Query, BootWait) {
    match boot {
        Boot::Ask(query, wait) => (query, wait),
        _ => panic!("no query"),
    }
}

/// The rest of the start, from the purge of old sessions on.
fn rest(boot: Boot, purged: Reply, count: i64) -> Boot {
    let (query, wait) = asked(boot);
    assert!(matches!(query, Query::PurgeExpiredTokens));
    let (query, wait) = asked(serve(wait, purged));
    assert!(matches!(query, Query::CountUsers));
    serve(wait, Reply::Count(count))
}

#[test]
fn no_first_account_is_configured() {
    for config in [config(None, None), config(Some("a"), None), config(None, Some("p"))] {
        let end = rest(bootstrap_admin(&config), Reply::Count(0), 0);
        assert!(matches!(end, Boot::Listen { deserted: true }));
    }
}

#[test]
fn the_first_account_is_made() {
    let (query, wait) = asked(bootstrap_admin(&config(Some("root"), Some("pw"))));
    assert!(matches!(query, Query::CountUsers));
    let (query, wait) = asked(serve(wait, Reply::Count(0)));
    match query {
        Query::CreateUser { name, password_hash, email, is_admin } => {
            assert_eq!((name.as_str(), email.as_str(), is_admin), ("root", "", true));
            assert!(password_hash.starts_with("$argon2id$"));
        }
        _ => panic!("another query"),
    }
    let end = rest(serve(wait, Reply::Count(1)), Reply::Count(3), 1);
    assert!(matches!(end, Boot::Listen { deserted: false }));
}

#[test]
fn existing_accounts_are_spared() {
    let (_, wait) = asked(bootstrap_admin(&config(Some("root"), Some("pw"))));
    let end = rest(serve(wait, Reply::Count(2)), Reply::Count(0), 2);
    assert!(matches!(end, Boot::Listen { deserted: false }));
}

#[test]
fn a_failed_purge_does_not_stop_the_server() {
    let end = rest(bootstrap_admin(&config(None, None)), Reply::Failed, 1);
    assert!(matches!(end, Boot::Listen { deserted: false }));
}

#[test]
fn other_failures_do() {
    let (_, wait) = asked(bootstrap_admin(&config(Some("root"), Some("pw"))));
    assert!(matches!(serve(wait, Reply::Failed), Boot::Fail));
    assert!(matches!(serve(BootWait::Created, Reply::Failed), Boot::Fail));
    assert!(matches!(serve(BootWait::LastCount, Reply::Failed), Boot::Fail));
}

#[test]
fn a_password_that_cannot_be_hashed_stops_the_server() {
    let (_, wait) = asked(bootstrap_admin(&config(Some("root"), Some("pw"))));
    assert!(matches!(boot_step(wait, Reply::Count(0), None), Boot::BadPassword));
}
