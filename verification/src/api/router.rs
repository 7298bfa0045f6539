//! Which endpoint serves which request.

use vstd::prelude::*;

verus! {

/// The methods that requests are served for.
#[derive(Debug, Clone, Copy, PartialEq, Eq, Structural)]
pub enum Method {
    Get,
    Post,
    Put,
    Delete,
}

/// What answers a request.
#[derive(Debug, Clone, Copy, PartialEq, Eq, Structural)]
pub enum Endpoint {
    /// `user::login`
    Login,
    /// `user::logout`
    Logout,
    /// `user::current_user`
    CurrentUser,
    /// `user::login_options`
    LoginOptions,
    /// `device::sysinfo`
    Sysinfo,
    /// `device::sysinfo_ver`
    SysinfoVer,
    /// `device::heartbeat`
    Heartbeat,
    /// `ab::personal`
    Personal,
    /// `ab::settings`
    Settings,
    /// `ab::shared_profiles`
    SharedProfiles,
    /// `ab::peers`
    Peers,
    /// `ab::tags`
    Tags,
    /// `ab::peer_add`
    PeerAdd,
    /// `ab::peer_update`
    PeerUpdate,
    /// `ab::peer_delete`
    PeerDelete,
    /// `ab::tag_put`
    TagPut,
    /// `ab::tag_rename`
    TagRename,
    /// `ab::tag_delete`
    TagDelete,
    /// `misc::audit_ok`
    Audit,
    /// `group::users`
    Users,
    /// `group::peers`
    AccessiblePeers,
    /// `group::device_groups`
    DeviceGroups,
    /// `misc::health`
    Health,
}

/// One row of the routing table.
#[derive(Debug, Clone)]
pub struct Route {
    pub method: Method,
    /// The path; a segment in braces stands for any one segment.
    pub path: String,
    pub endpoint: Endpoint,
}

/// What a [`Route`] holds.
pub struct RouteView {
    pub method: Method,
    pub path: Seq<char>,
    pub endpoint: Endpoint,
}

impl View for Route {
    type V = RouteView;

    open spec fn view(&self) -> RouteView {
        RouteView { method: self.method, path: self.path@, endpoint: self.endpoint }
    }
}

impl DeepView for Route {
    type V = RouteView;

    open spec fn deep_view(&self) -> RouteView {
        self@
    }
}

/// The endpoint for requests with `method` to `path`, written as in the table. A request to a
/// path that the table does not have gets `misc::not_found`; one to a path that it has for
/// other methods only is turned away by the HTTP server itself, with status 405.
pub open spec fn served_by(method: Method, path: Seq<char>) -> Option<Endpoint> {
    match method {
        Method::Get => if path == "/api/login-options"@ {
            Some(Endpoint::LoginOptions)
        } else if path == "/api/ab/personal"@ {
            Some(Endpoint::Personal)
        } else if path == "/api/ab/settings"@ {
            Some(Endpoint::Settings)
        } else if path == "/api/ab/shared/profiles"@ {
            Some(Endpoint::SharedProfiles)
        } else if path == "/api/ab/peers"@ {
            Some(Endpoint::Peers)
        } else if path == "/api/ab/tags/{guid}"@ {
            Some(Endpoint::Tags)
        } else if path == "/api/users"@ {
            Some(Endpoint::Users)
        } else if path == "/api/peers"@ {
            Some(Endpoint::AccessiblePeers)
        } else if path == "/api/device-group/accessible"@ {
            Some(Endpoint::DeviceGroups)
        } else if path == "/health"@ {
            Some(Endpoint::Health)
        } else {
            None
        },
        Method::Post => if path == "/api/login"@ {
            Some(Endpoint::Login)
        } else if path == "/api/logout"@ {
            Some(Endpoint::Logout)
        } else if path == "/api/currentUser"@ {
            Some(Endpoint::CurrentUser)
        } else if path == "/api/login-options"@ {
            Some(Endpoint::LoginOptions)
        } else if path == "/api/sysinfo"@ {
            Some(Endpoint::Sysinfo)
        } else if path == "/api/sysinfo_ver"@ {
            Some(Endpoint::SysinfoVer)
        } else if path == "/api/heartbeat"@ {
            Some(Endpoint::Heartbeat)
        } else if path == "/api/ab/personal"@ {
            Some(Endpoint::Personal)
        } else if path == "/api/ab/settings"@ {
            Some(Endpoint::Settings)
        } else if path == "/api/ab/shared/profiles"@ {
            Some(Endpoint::SharedProfiles)
        } else if path == "/api/ab/peers"@ {
            Some(Endpoint::Peers)
        } else if path == "/api/ab/tags/{guid}"@ {
            Some(Endpoint::Tags)
        } else if path == "/api/ab/peer/add/{guid}"@ {
            Some(Endpoint::PeerAdd)
        } else if path == "/api/ab/tag/add/{guid}"@ {
            Some(Endpoint::TagPut)
        } else if path == "/api/audit/conn"@ {
            Some(Endpoint::Audit)
        } else if path == "/api/audit/file"@ {
            Some(Endpoint::Audit)
        } else if path == "/api/audit/alarm"@ {
            Some(Endpoint::Audit)
        } else if path == "/api/users"@ {
            Some(Endpoint::Users)
        } else if path == "/api/peers"@ {
            Some(Endpoint::AccessiblePeers)
        } else if path == "/api/device-group/accessible"@ {
            Some(Endpoint::DeviceGroups)
        } else {
            None
        },
        Method::Put => if path == "/api/ab/peer/update/{guid}"@ {
            Some(Endpoint::PeerUpdate)
        } else if path == "/api/ab/tag/update/{guid}"@ {
            Some(Endpoint::TagPut)
        } else if path == "/api/ab/tag/rename/{guid}"@ {
            Some(Endpoint::TagRename)
        } else if path == "/api/audit"@ {
            Some(Endpoint::Audit)
        } else {
            None
        },
        Method::Delete => if path == "/api/ab/peer/{guid}"@ {
            Some(Endpoint::PeerDelete)
        } else if path == "/api/ab/tag/{guid}"@ {
            Some(Endpoint::TagDelete)
        } else {
            None
        },
    }
}

/// The position in the table of the row for `method` and `path`; -1 where there is none.
#[verifier::opaque]
spec fn place(method: Method, path: Seq<char>) -> int {
    match method {
        Method::Get => if path == "/api/login-options"@ {
            3
        } else if path == "/api/ab/personal"@ {
            9
        } else if path == "/api/ab/settings"@ {
            11
        } else if path == "/api/ab/shared/profiles"@ {
            13
        } else if path == "/api/ab/peers"@ {
            15
        } else if path == "/api/ab/tags/{guid}"@ {
            17
        } else if path == "/api/users"@ {
            29
        } else if path == "/api/peers"@ {
            31
        } else if path == "/api/device-group/accessible"@ {
            33
        } else if path == "/health"@ {
            35
        } else {
            -1
        },
        Method::Post => if path == "/api/login"@ {
            0
        } else if path == "/api/logout"@ {
            1
        } else if path == "/api/currentUser"@ {
            2
        } else if path == "/api/login-options"@ {
            4
        } else if path == "/api/sysinfo"@ {
            5
        } else if path == "/api/sysinfo_ver"@ {
            6
        } else if path == "/api/heartbeat"@ {
            7
        } else if path == "/api/ab/personal"@ {
            8
        } else if path == "/api/ab/settings"@ {
            10
        } else if path == "/api/ab/shared/profiles"@ {
            12
        } else if path == "/api/ab/peers"@ {
            14
        } else if path == "/api/ab/tags/{guid}"@ {
            16
        } else if path == "/api/ab/peer/add/{guid}"@ {
            18
        } else if path == "/api/ab/tag/add/{guid}"@ {
            21
        } else if path == "/api/audit/conn"@ {
            25
        } else if path == "/api/audit/file"@ {
            26
        } else if path == "/api/audit/alarm"@ {
            27
        } else if path == "/api/users"@ {
            30
        } else if path == "/api/peers"@ {
            32
        } else if path == "/api/device-group/accessible"@ {
            34
        } else {
            -1
        },
        Method::Put => if path == "/api/ab/peer/update/{guid}"@ {
            19
        } else if path == "/api/ab/tag/update/{guid}"@ {
            22
        } else if path == "/api/ab/tag/rename/{guid}"@ {
            23
        } else if path == "/api/audit"@ {
            28
        } else {
            -1
        },
        Method::Delete => if path == "/api/ab/peer/{guid}"@ {
            20
        } else if path == "/api/ab/tag/{guid}"@ {
            24
        } else {
            -1
        },
    }
}

/// `rows` are the first rows of the table.
spec fn begins_table(rows: Seq<RouteView>) -> bool {
    &&& forall|i: int|
        0 <= i < rows.len() ==> {
            &&& place((#[trigger] rows[i]).method, rows[i].path) == i
            &&& served_by(rows[i].method, rows[i].path) == Some(rows[i].endpoint)
        }
    &&& forall|method: Method, path: Seq<char>|
        0 <= #[trigger] place(method, path) < rows.len() ==> rows[place(method, path)].method
            == method && rows[place(method, path)].path == path
}

/// `rows` serve every method and path as [`served_by`] says, and no two rows share both.
pub open spec fn is_table(rows: Seq<RouteView>) -> bool {
    &&& forall|i: int, j: int|
        0 <= i < j < rows.len() ==> (#[trigger] rows[i]).method != (#[trigger] rows[j]).method
            || rows[i].path != rows[j].path
    &&& forall|method: Method, path: Seq<char>, endpoint: Endpoint|
        served_by(method, path) == Some(endpoint) <==> #[trigger] rows.contains(
            RouteView { method, path, endpoint },
        )
}

/// Where each row stands.
proof fn lemma_places()
    ensures
        place(Method::Post, "/api/login"@) == 0,
        served_by(Method::Post, "/api/login"@) == Some(Endpoint::Login),
        place(Method::Post, "/api/logout"@) == 1,
        served_by(Method::Post, "/api/logout"@) == Some(Endpoint::Logout),
        place(Method::Post, "/api/currentUser"@) == 2,
        served_by(Method::Post, "/api/currentUser"@) == Some(Endpoint::CurrentUser),
        place(Method::Get, "/api/login-options"@) == 3,
        served_by(Method::Get, "/api/login-options"@) == Some(Endpoint::LoginOptions),
        place(Method::Post, "/api/login-options"@) == 4,
        served_by(Method::Post, "/api/login-options"@) == Some(Endpoint::LoginOptions),
        place(Method::Post, "/api/sysinfo"@) == 5,
        served_by(Method::Post, "/api/sysinfo"@) == Some(Endpoint::Sysinfo),
        place(Method::Post, "/api/sysinfo_ver"@) == 6,
        served_by(Method::Post, "/api/sysinfo_ver"@) == Some(Endpoint::SysinfoVer),
        place(Method::Post, "/api/heartbeat"@) == 7,
        served_by(Method::Post, "/api/heartbeat"@) == Some(Endpoint::Heartbeat),
        place(Method::Post, "/api/ab/personal"@) == 8,
        served_by(Method::Post, "/api/ab/personal"@) == Some(Endpoint::Personal),
        place(Method::Get, "/api/ab/personal"@) == 9,
        served_by(Method::Get, "/api/ab/personal"@) == Some(Endpoint::Personal),
        place(Method::Post, "/api/ab/settings"@) == 10,
        served_by(Method::Post, "/api/ab/settings"@) == Some(Endpoint::Settings),
        place(Method::Get, "/api/ab/settings"@) == 11,
        served_by(Method::Get, "/api/ab/settings"@) == Some(Endpoint::Settings),
        place(Method::Post, "/api/ab/shared/profiles"@) == 12,
        served_by(Method::Post, "/api/ab/shared/profiles"@) == Some(Endpoint::SharedProfiles),
        place(Method::Get, "/api/ab/shared/profiles"@) == 13,
        served_by(Method::Get, "/api/ab/shared/profiles"@) == Some(Endpoint::SharedProfiles),
        place(Method::Post, "/api/ab/peers"@) == 14,
        served_by(Method::Post, "/api/ab/peers"@) == Some(Endpoint::Peers),
        place(Method::Get, "/api/ab/peers"@) == 15,
        served_by(Method::Get, "/api/ab/peers"@) == Some(Endpoint::Peers),
        place(Method::Post, "/api/ab/tags/{guid}"@) == 16,
        served_by(Method::Post, "/api/ab/tags/{guid}"@) == Some(Endpoint::Tags),
        place(Method::Get, "/api/ab/tags/{guid}"@) == 17,
        served_by(Method::Get, "/api/ab/tags/{guid}"@) == Some(Endpoint::Tags),
        place(Method::Post, "/api/ab/peer/add/{guid}"@) == 18,
        served_by(Method::Post, "/api/ab/peer/add/{guid}"@) == Some(Endpoint::PeerAdd),
        place(Method::Put, "/api/ab/peer/update/{guid}"@) == 19,
        served_by(Method::Put, "/api/ab/peer/update/{guid}"@) == Some(Endpoint::PeerUpdate),
        place(Method::Delete, "/api/ab/peer/{guid}"@) == 20,
        served_by(Method::Delete, "/api/ab/peer/{guid}"@) == Some(Endpoint::PeerDelete),
        place(Method::Post, "/api/ab/tag/add/{guid}"@) == 21,
        served_by(Method::Post, "/api/ab/tag/add/{guid}"@) == Some(Endpoint::TagPut),
        place(Method::Put, "/api/ab/tag/update/{guid}"@) == 22,
        served_by(Method::Put, "/api/ab/tag/update/{guid}"@) == Some(Endpoint::TagPut),
        place(Method::Put, "/api/ab/tag/rename/{guid}"@) == 23,
        served_by(Method::Put, "/api/ab/tag/rename/{guid}"@) == Some(Endpoint::TagRename),
        place(Method::Delete, "/api/ab/tag/{guid}"@) == 24,
        served_by(Method::Delete, "/api/ab/tag/{guid}"@) == Some(Endpoint::TagDelete),
        place(Method::Post, "/api/audit/conn"@) == 25,
        served_by(Method::Post, "/api/audit/conn"@) == Some(Endpoint::Audit),
        place(Method::Post, "/api/audit/file"@) == 26,
        served_by(Method::Post, "/api/audit/file"@) == Some(Endpoint::Audit),
        place(Method::Post, "/api/audit/alarm"@) == 27,
        served_by(Method::Post, "/api/audit/alarm"@) == Some(Endpoint::Audit),
        place(Method::Put, "/api/audit"@) == 28,
        served_by(Method::Put, "/api/audit"@) == Some(Endpoint::Audit),
        place(Method::Get, "/api/users"@) == 29,
        served_by(Method::Get, "/api/users"@) == Some(Endpoint::Users),
        place(Method::Post, "/api/users"@) == 30,
        served_by(Method::Post, "/api/users"@) == Some(Endpoint::Users),
        place(Method::Get, "/api/peers"@) == 31,
        served_by(Method::Get, "/api/peers"@) == Some(Endpoint::AccessiblePeers),
        place(Method::Post, "/api/peers"@) == 32,
        served_by(Method::Post, "/api/peers"@) == Some(Endpoint::AccessiblePeers),
        place(Method::Get, "/api/device-group/accessible"@) == 33,
        served_by(Method::Get, "/api/device-group/accessible"@) == Some(Endpoint::DeviceGroups),
        place(Method::Post, "/api/device-group/accessible"@) == 34,
        served_by(Method::Post, "/api/device-group/accessible"@) == Some(Endpoint::DeviceGroups),
        place(Method::Get, "/health"@) == 35,
        served_by(Method::Get, "/health"@) == Some(Endpoint::Health),
{
    reveal(place);
    reveal_strlit("/api/login");
    reveal_strlit("/api/logout");
    reveal_strlit("/api/currentUser");
    reveal_strlit("/api/login-options");
    reveal_strlit("/api/sysinfo");
    reveal_strlit("/api/sysinfo_ver");
    reveal_strlit("/api/heartbeat");
    reveal_strlit("/api/ab/personal");
    reveal_strlit("/api/ab/settings");
    reveal_strlit("/api/ab/shared/profiles");
    reveal_strlit("/api/ab/peers");
    reveal_strlit("/api/ab/tags/{guid}");
    reveal_strlit("/api/ab/peer/add/{guid}");
    reveal_strlit("/api/ab/peer/update/{guid}");
    reveal_strlit("/api/ab/peer/{guid}");
    reveal_strlit("/api/ab/tag/add/{guid}");
    reveal_strlit("/api/ab/tag/update/{guid}");
    reveal_strlit("/api/ab/tag/rename/{guid}");
    reveal_strlit("/api/ab/tag/{guid}");
    reveal_strlit("/api/audit/conn");
    reveal_strlit("/api/audit/file");
    reveal_strlit("/api/audit/alarm");
    reveal_strlit("/api/audit");
    reveal_strlit("/api/users");
    reveal_strlit("/api/peers");
    reveal_strlit("/api/device-group/accessible");
    reveal_strlit("/health");
    assert("/api/login"@.len() == 10);
    assert("/api/logout"@.len() == 11);
    assert("/api/currentUser"@.len() == 16);
    assert("/api/login-options"@.len() == 18);
    assert("/api/sysinfo"@.len() == 12);
    assert("/api/sysinfo_ver"@.len() == 16);
    assert("/api/heartbeat"@.len() == 14);
    assert("/api/ab/personal"@.len() == 16);
    assert("/api/ab/settings"@.len() == 16);
    assert("/api/ab/shared/profiles"@.len() == 23);
    assert("/api/ab/peers"@.len() == 13);
    assert("/api/ab/tags/{guid}"@.len() == 19);
    assert("/api/ab/peer/add/{guid}"@.len() == 23);
    assert("/api/ab/peer/update/{guid}"@.len() == 26);
    assert("/api/ab/peer/{guid}"@.len() == 19);
    assert("/api/ab/tag/add/{guid}"@.len() == 22);
    assert("/api/ab/tag/update/{guid}"@.len() == 25);
    assert("/api/ab/tag/rename/{guid}"@.len() == 25);
    assert("/api/ab/tag/{guid}"@.len() == 18);
    assert("/api/audit/conn"@.len() == 15);
    assert("/api/audit/file"@.len() == 15);
    assert("/api/audit/alarm"@.len() == 16);
    assert("/api/audit"@.len() == 10);
    assert("/api/users"@.len() == 10);
    assert("/api/peers"@.len() == 10);
    assert("/api/device-group/accessible"@.len() == 28);
    assert("/health"@.len() == 7);
    assert("/api/login"@[5] == 'l');
    assert("/api/audit"@[5] == 'a');
    assert("/api/users"@[5] == 'u');
    assert("/api/peers"@[5] == 'p');
    assert("/api/audit/conn"@[11] == 'c');
    assert("/api/audit/file"@[11] == 'f');
    assert("/api/currentUser"@[5] == 'c');
    assert("/api/currentUser"@[8] == 'r');
    assert("/api/sysinfo_ver"@[5] == 's');
    assert("/api/sysinfo_ver"@[8] == 'i');
    assert("/api/ab/personal"@[5] == 'a');
    assert("/api/ab/personal"@[8] == 'p');
    assert("/api/ab/settings"@[5] == 'a');
    assert("/api/ab/settings"@[8] == 's');
    assert("/api/audit/alarm"@[5] == 'a');
    assert("/api/audit/alarm"@[8] == 'i');
    assert("/api/login-options"@[5] == 'l');
    assert("/api/ab/tag/{guid}"@[5] == 'a');
    assert("/api/ab/tags/{guid}"@[8] == 't');
    assert("/api/ab/peer/{guid}"@[8] == 'p');
    assert("/api/ab/shared/profiles"@[8] == 's');
    assert("/api/ab/peer/add/{guid}"@[8] == 'p');
    assert("/api/ab/tag/update/{guid}"@[12] == 'u');
    assert("/api/ab/tag/rename/{guid}"@[12] == 'r');
}

/// Adds the next row of the table.
fn add_route(rows: &mut Vec<Route>, method: Method, path: &str, endpoint: Endpoint)
    requires
        begins_table(old(rows).deep_view()),
        place(method, path@) == old(rows)@.len(),
        served_by(method, path@) == Some(endpoint),
    ensures
        begins_table(final(rows).deep_view()),
        final(rows)@.len() == old(rows)@.len() + 1,
{
    let ghost before = rows.deep_view();
    proof {
        reveal(place);
    }
    rows.push(Route { method, path: path.to_owned(), endpoint });
    proof {
        assert(rows.deep_view() =~= before.push(RouteView { method, path: path@, endpoint }));
    }
}

/// The routing table.
pub fn router() -> (r: Vec<Route>)
    ensures
        is_table(r.deep_view()),
{
    proof {
        lemma_places();
    }
    let mut r: Vec<Route> = Vec::new();
    proof {
        assert(r.deep_view() =~= Seq::empty());
    }
    // account
    add_route(&mut r, Method::Post, "/api/login", Endpoint::Login);
    add_route(&mut r, Method::Post, "/api/logout", Endpoint::Logout);
    add_route(&mut r, Method::Post, "/api/currentUser", Endpoint::CurrentUser);
    // Also the TLS-detection probe the client hits before anything else, so it must
    // answer properly rather than 404.
    add_route(&mut r, Method::Get, "/api/login-options", Endpoint::LoginOptions);
    add_route(&mut r, Method::Post, "/api/login-options", Endpoint::LoginOptions);
    // device self-registration (unauthenticated by design)
    add_route(&mut r, Method::Post, "/api/sysinfo", Endpoint::Sysinfo);
    add_route(&mut r, Method::Post, "/api/sysinfo_ver", Endpoint::SysinfoVer);
    add_route(&mut r, Method::Post, "/api/heartbeat", Endpoint::Heartbeat);
    // address book
    // Reads arrive as POST with an empty body from the client, and as GET from RustDesk's
    // own command line tooling.
    add_route(&mut r, Method::Post, "/api/ab/personal", Endpoint::Personal);
    add_route(&mut r, Method::Get, "/api/ab/personal", Endpoint::Personal);
    add_route(&mut r, Method::Post, "/api/ab/settings", Endpoint::Settings);
    add_route(&mut r, Method::Get, "/api/ab/settings", Endpoint::Settings);
    add_route(&mut r, Method::Post, "/api/ab/shared/profiles", Endpoint::SharedProfiles);
    add_route(&mut r, Method::Get, "/api/ab/shared/profiles", Endpoint::SharedProfiles);
    add_route(&mut r, Method::Post, "/api/ab/peers", Endpoint::Peers);
    add_route(&mut r, Method::Get, "/api/ab/peers", Endpoint::Peers);
    add_route(&mut r, Method::Post, "/api/ab/tags/{guid}", Endpoint::Tags);
    add_route(&mut r, Method::Get, "/api/ab/tags/{guid}", Endpoint::Tags);
    add_route(&mut r, Method::Post, "/api/ab/peer/add/{guid}", Endpoint::PeerAdd);
    add_route(&mut r, Method::Put, "/api/ab/peer/update/{guid}", Endpoint::PeerUpdate);
    add_route(&mut r, Method::Delete, "/api/ab/peer/{guid}", Endpoint::PeerDelete);
    add_route(&mut r, Method::Post, "/api/ab/tag/add/{guid}", Endpoint::TagPut);
    add_route(&mut r, Method::Put, "/api/ab/tag/update/{guid}", Endpoint::TagPut);
    add_route(&mut r, Method::Put, "/api/ab/tag/rename/{guid}", Endpoint::TagRename);
    add_route(&mut r, Method::Delete, "/api/ab/tag/{guid}", Endpoint::TagDelete);
    // fire-and-forget audit sinks
    add_route(&mut r, Method::Post, "/api/audit/conn", Endpoint::Audit);
    add_route(&mut r, Method::Post, "/api/audit/file", Endpoint::Audit);
    add_route(&mut r, Method::Post, "/api/audit/alarm", Endpoint::Audit);
    add_route(&mut r, Method::Put, "/api/audit", Endpoint::Audit);
    // the "Accessible devices" tab
    add_route(&mut r, Method::Get, "/api/users", Endpoint::Users);
    add_route(&mut r, Method::Post, "/api/users", Endpoint::Users);
    add_route(&mut r, Method::Get, "/api/peers", Endpoint::AccessiblePeers);
    add_route(&mut r, Method::Post, "/api/peers", Endpoint::AccessiblePeers);
    add_route(&mut r, Method::Get, "/api/device-group/accessible", Endpoint::DeviceGroups);
    add_route(&mut r, Method::Post, "/api/device-group/accessible", Endpoint::DeviceGroups);
    // operational
    add_route(&mut r, Method::Get, "/health", Endpoint::Health);
    proof {
        let rows = r.deep_view();
        assert forall|method: Method, path: Seq<char>, endpoint: Endpoint|
            served_by(method, path) == Some(endpoint) implies #[trigger] rows.contains(
            RouteView { method, path, endpoint },
        ) by {
            reveal(place);
            assert(0 <= place(method, path) < rows.len());
            assert(rows[place(method, path)] == RouteView { method, path, endpoint });
        }
    }
    r
}

/// The endpoint reads an address book, a tab of the client, or the login options.
pub open spec fn is_read(endpoint: Endpoint) -> bool {
    match endpoint {
        Endpoint::LoginOptions => true,
        Endpoint::Personal => true,
        Endpoint::Settings => true,
        Endpoint::SharedProfiles => true,
        Endpoint::Peers => true,
        Endpoint::Tags => true,
        Endpoint::Users => true,
        Endpoint::AccessiblePeers => true,
        Endpoint::DeviceGroups => true,
        _ => false,
    }
}

/// Reads are served for GET and for POST alike: clients send the one or the other.
pub proof fn law_reads_take_both_methods(path: Seq<char>, endpoint: Endpoint)
    requires
        is_read(endpoint),
    ensures
        served_by(Method::Get, path) == Some(endpoint) <==> served_by(Method::Post, path) == Some(
            endpoint,
        ),
{
    lemma_places();
}

} // verus!
