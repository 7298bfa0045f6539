use rustdesk_api::api::router::{router, Endpoint, Method};

fn endpoint(method: Method, path: &str) -> Option<Endpoint> {
    router().into_iter().find(|r| r.method == method && r.path == path).map(|r| r.endpoint)
}

#[test]
fn the_table_has_no_row_twice() {
    let rows = router();
    assert_eq!(rows.len(), 36);
    for (i, a) in rows.iter().enumerate() {
        for b in &rows[..i] {
            assert!(a.method != b.method || a.path != b.path, "{} twice", a.path);
        }
    }
}

#[test]
fn account_routes() {
    assert_eq!(endpoint(Method::Post, "/api/login"), Some(Endpoint::Login));
    assert_eq!(endpoint(Method::Get, "/api/login"), None);
    assert_eq!(endpoint(Method::Post, "/api/logout"), Some(Endpoint::Logout));
    assert_eq!(endpoint(Method::Post, "/api/currentUser"), Some(Endpoint::CurrentUser));
    assert_eq!(endpoint(Method::Get, "/api/login-options"), Some(Endpoint::LoginOptions));
    assert_eq!(endpoint(Method::Post, "/api/login-options"), Some(Endpoint::LoginOptions));
}

#[test]
fn registration_routes() {
    assert_eq!(endpoint(Method::Post, "/api/sysinfo"), Some(Endpoint::Sysinfo));
    assert_eq!(endpoint(Method::Post, "/api/sysinfo_ver"), Some(Endpoint::SysinfoVer));
    assert_eq!(endpoint(Method::Post, "/api/heartbeat"), Some(Endpoint::Heartbeat));
}

#[test]
fn address_book_routes() {
    for (path, expected) in [
        ("/api/ab/personal", Endpoint::Personal),
        ("/api/ab/settings", Endpoint::Settings),
        ("/api/ab/shared/profiles", Endpoint::SharedProfiles),
        ("/api/ab/peers", Endpoint::Peers),
        ("/api/ab/tags/{guid}", Endpoint::Tags),
    ] {
        assert_eq!(endpoint(Method::Get, path), Some(expected));
        assert_eq!(endpoint(Method::Post, path), Some(expected));
        assert_eq!(endpoint(Method::Put, path), None);
    }
    assert_eq!(endpoint(Method::Post, "/api/ab/peer/add/{guid}"), Some(Endpoint::PeerAdd));
    assert_eq!(endpoint(Method::Put, "/api/ab/peer/update/{guid}"), Some(Endpoint::PeerUpdate));
    assert_eq!(endpoint(Method::Delete, "/api/ab/peer/{guid}"), Some(Endpoint::PeerDelete));
    assert_eq!(endpoint(Method::Post, "/api/ab/tag/add/{guid}"), Some(Endpoint::TagPut));
    assert_eq!(endpoint(Method::Put, "/api/ab/tag/update/{guid}"), Some(Endpoint::TagPut));
    assert_eq!(endpoint(Method::Put, "/api/ab/tag/rename/{guid}"), Some(Endpoint::TagRename));
    assert_eq!(endpoint(Method::Delete, "/api/ab/tag/{guid}"), Some(Endpoint::TagDelete));
}

#[test]
fn other_routes() {
    assert_eq!(endpoint(Method::Post, "/api/audit/conn"), Some(Endpoint::Audit));
    assert_eq!(endpoint(Method::Post, "/api/audit/file"), Some(Endpoint::Audit));
    assert_eq!(endpoint(Method::Post, "/api/audit/alarm"), Some(Endpoint::Audit));
    assert_eq!(endpoint(Method::Put, "/api/audit"), Some(Endpoint::Audit));
    assert_eq!(endpoint(Method::Post, "/api/audit"), None);
    assert_eq!(endpoint(Method::Get, "/api/users"), Some(Endpoint::Users));
    assert_eq!(endpoint(Method::Post, "/api/peers"), Some(Endpoint::AccessiblePeers));
    assert_eq!(endpoint(Method::Get, "/api/device-group/accessible"), Some(Endpoint::DeviceGroups));
    assert_eq!(endpoint(Method::Get, "/health"), Some(Endpoint::Health));
    assert_eq!(endpoint(Method::Post, "/health"), None);
    assert_eq!(endpoint(Method::Get, "/api/ab"), None);
}
