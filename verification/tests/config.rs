use rustdesk_api::config::{env_or, env_parse, parse_i64, Config, Environment};

fn unset() -> Environment {
    Environment {
        bind: None,
        db: None,
        token_ttl_days: None,
        device_stale_days: None,
        admin_user: None,
        admin_password: None,
    }
}

#[test]
fn defaults() {
    let config = Config::from_env(unset());
    assert_eq!(config.bind, "0.0.0.0:21114");
    assert_eq!(config.database_url, "sqlite://rustdesk-api.db");
    assert_eq!(config.token_ttl, 30 * 86_400);
    assert_eq!(config.device_stale_days, 0);
    assert_eq!(config.admin_user, None);
    assert_eq!(config.admin_password, None);
}

#[test]
fn everything_set() {
    let config = Config::from_env(Environment {
        bind: Some("127.0.0.1:80".to_string()),
        db: Some("sqlite:///data/x.db".to_string()),
        token_ttl_days: Some("7".to_string()),
        device_stale_days: Some("14".to_string()),
        admin_user: Some("root".to_string()),
        admin_password: Some("secret".to_string()),
    });
    assert_eq!(config.bind, "127.0.0.1:80");
    assert_eq!(config.database_url, "sqlite:///data/x.db");
    assert_eq!(config.token_ttl, 604_800);
    assert_eq!(config.device_stale_days, 14);
    assert_eq!(config.admin_user.as_deref(), Some("root"));
    assert_eq!(config.admin_password.as_deref(), Some("secret"));
}

#[test]
fn empty_values_count_as_unset() {
    let config = Config::from_env(Environment {
        bind: Some(String::new()),
        db: Some(String::new()),
        token_ttl_days: Some(String::new()),
        device_stale_days: Some(String::new()),
        admin_user: Some(String::new()),
        admin_password: Some(String::new()),
    });
    assert_eq!(config.bind, "0.0.0.0:21114");
    assert_eq!(config.database_url, "sqlite://rustdesk-api.db");
    assert_eq!(config.token_ttl, 2_592_000);
    assert_eq!(config.device_stale_days, 0);
    assert!(config.admin_user.is_none());
    assert!(config.admin_password.is_none());
}

#[test]
fn numbers_are_kept_in_bounds() {
    let with = |ttl: &str, stale: &str| {
        let mut env = unset();
        env.token_ttl_days = Some(ttl.to_string());
        env.device_stale_days = Some(stale.to_string());
        let config = Config::from_env(env);
        (config.token_ttl, config.device_stale_days)
    };
    assert_eq!(with("0", "-1"), (86_400, 0));
    assert_eq!(with("-30", "-9223372036854775808"), (86_400, 0));
    assert_eq!(with("1", "1"), (86_400, 1));
    assert_eq!(with("many", "few"), (2_592_000, 0));
}

#[test]
fn numbers_are_read_as_str_parse_reads_them() {
    for s in [
        "", "+", "-", "0", "-0", "+0", "7", "+7", "-7", "007", "9223372036854775807",
        "9223372036854775808", "-9223372036854775808", "-9223372036854775809",
        "99999999999999999999999999", "1 ", " 1", "1_000", "0x10", "--1", "+-1", "1.0", "\u{0663}",
        "12a", "a12", "1e3",
    ] {
        assert_eq!(parse_i64(s), s.parse::<i64>().ok(), "{s:?}");
    }
}

#[test]
fn variables_fall_back() {
    assert_eq!(env_or(None, "x"), "x");
    assert_eq!(env_or(Some(String::new()), "x"), "x");
    assert_eq!(env_or(Some("y".to_string()), "x"), "y");
    assert_eq!(env_parse(None, 5), 5);
    assert_eq!(env_parse(Some("no".to_string()), 5), 5);
    assert_eq!(env_parse(Some("-3".to_string()), 5), -3);
}
