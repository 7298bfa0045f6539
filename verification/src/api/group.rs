//! The client's "Accessible devices" tab.
//!
//! The client builds this tab from three endpoints and joins them **by string name**, not by
//! id: a peer belongs to a device group when its `device_group_name` exactly equals that
//! group's `name`, and to a user when its `user_name` equals that user's `name`.
//!
//! Devices here aren't owned by individual accounts (every account sees every machine), so all
//! workstations go into a single device group sharing the address book's name, and the user
//! list is left empty. Returning accounts would render rows that select down to nothing, since
//! no peer can be attributed to one.
//!
//! Protocol notes:
//!   * `total` is **required**, and must be a JSON *number*.
//!   * an `error` key on a 200 response counts as failure, and a failing `/api/users` or
//!     `/api/peers` aborts the whole pull, blanking the tab.

use crate::api::ab::{paged, paged_json, PageQuery, PageQueryView, SHARED_NAME};
use crate::api::{
    json, json_view, require_user, require_user_view, Action, ActionView, Response, ResponseView, Step,
};
use crate::db::{Device, DeviceView};
use crate::json::{no_members, object, page, page_view, text, Json, JsonView};
use crate::query::{Reply, ReplyView};
use crate::text::join;
use vstd::prelude::*;

verus! {

/// The device group that holds every workstation.
pub open spec fn group_view() -> JsonView {
    no_members().with("name"@, JsonView::Text(SHARED_NAME@))
}

/// The page of device groups that `q` asks for: there is one.
pub fn groups_page(q: &PageQuery) -> (r: Json)
    ensures
        r@ == paged(seq![group_view()], q@),
{
    let mut groups: Vec<Json> = Vec::new();
    groups.push(object().with("name", text(SHARED_NAME)));
    proof {
        assert(groups.deep_view() =~= seq![group_view()]);
    }
    paged_json(groups, q)
}

/// `GET /api/device-group/accessible`: the client reads exactly one field per item, `name`,
/// and treats it as the group's primary key.
pub fn device_groups(header: Option<String>, page: PageQuery) -> (r: Step)
    ensures
        r@ == require_user_view(header.deep_view(), ActionView::DeviceGroups { page: page@ }),
{
    require_user(header, Action::DeviceGroups { page })
}

/// The empty list of users.
pub fn no_users() -> (r: Json)
    ensures
        r@ == page_view(0, Seq::empty()),
{
    let data: Vec<Json> = Vec::new();
    proof {
        assert(data.deep_view() =~= Seq::empty());
    }
    page(0, data)
}

/// `GET /api/users?accessible&status=1`: intentionally empty; see the module documentation.
///
/// This must still succeed: a failure here aborts the client's whole pull and blanks the tab,
/// device groups included.
pub fn users(header: Option<String>) -> (r: Step)
    ensures
        r@ == require_user_view(header.deep_view(), ActionView::Users),
{
    require_user(header, Action::Users)
}

/// `GET /api/peers?accessible&status=1`: every registered workstation.
pub fn peers(header: Option<String>, page: PageQuery, stale_days: i64) -> (r: Step)
    ensures
        r@ == require_user_view(
            header.deep_view(),
            ActionView::Accessible { page: page@, stale_days },
        ),
{
    require_user(header, Action::Accessible { page, stale_days })
}

/// The response that lists the workstations; an `error` key would abort the client's pull,
/// so a failure is an empty but valid page.
pub open spec fn accessible_view(page: PageQueryView, reply: ReplyView) -> ResponseView {
    match reply {
        ReplyView::Devices(devices) => json_view(paged(device_views(devices), page)),
        _ => json_view(page_view(0, Seq::empty())),
    }
}

/// The response that lists the workstations.
pub fn accessible_known(page: &PageQuery, reply: Reply) -> (r: Response)
    ensures
        r@ == accessible_view(page@, reply@),
{
    match reply {
        Reply::Devices(devices) => {
            let mut items: Vec<Json> = Vec::new();
            let mut i: usize = 0;
            while i < devices.len()
                invariant
                    i <= devices@.len(),
                    items.deep_view() == device_views(devices.deep_view()).take(i as int),
                decreases devices@.len() - i,
            {
                let ghost before = items.deep_view();
                items.push(device_json(&devices[i]));
                proof {
                    assert(items.deep_view() =~= before.push(device_view(devices@[i as int]@)));
                }
                i = i + 1;
            }
            proof {
                assert(items.deep_view() =~= device_views(devices.deep_view()));
            }
            json(paged_json(items, page))
        },
        _ => json(no_users()),
    }
}

/// The word that the client picks an icon by for a platform; `None` where it has no icon for
/// it.
pub open spec fn icon_of(platform: Seq<char>) -> Option<Seq<char>> {
    if platform == "Windows"@ {
        Some("windows"@)
    } else if platform == "Linux"@ {
        Some("linux"@)
    } else if platform == "Mac OS"@ {
        Some("macos"@)
    } else if platform == "Android"@ {
        Some("android"@)
    } else {
        None
    }
}

/// The `os` string of a device as the client gets it.
pub open spec fn os_of(device: DeviceView) -> Seq<char> {
    match icon_of(device.platform) {
        Some(token) => if device.os.len() == 0 {
            token
        } else {
            token + " / "@ + device.os
        },
        None => device.os,
    }
}

/// The client picks a platform icon by splitting `info.os` on `" / "`, lowercasing element 0
/// and matching `windows`/`linux`/`macos`/`android`.
///
/// The raw string a client reports doesn't reliably start with one of those: Debian reports
/// `"debian / Linux 13 …"`, which matches nothing and yields a generic icon. Prefixing the
/// platform already derived at registration makes element 0 always match, while keeping the
/// detailed string after it.
pub fn os_field(device: &Device) -> (r: String)
    ensures
        r@ == os_of(device@),
{
    let token = if device.platform == "Windows".to_owned() {
        "windows"
    } else if device.platform == "Linux".to_owned() {
        "linux"
    } else if device.platform == "Mac OS".to_owned() {
        "macos"
    } else if device.platform == "Android".to_owned() {
        "android"
    } else {
        return device.os.clone();
    };
    if device.os.as_str().is_empty() {
        token.to_owned()
    } else {
        let prefix = join(token, " / ");
        join(prefix.as_str(), device.os.as_str())
    }
}

/// A workstation as the "Accessible devices" tab gets it. The `info` object uses different
/// keys from the address book's peer shape: `device_name`, NOT `hostname`.
pub open spec fn device_view(device: DeviceView) -> JsonView {
    no_members()
        .with("id"@, JsonView::Text(device.id))
        .with("user"@, JsonView::Text(""@))
        .with("user_name"@, JsonView::Text(""@))
        .with("device_group_name"@, JsonView::Text(SHARED_NAME@))
        .with("note"@, JsonView::Text(""@))
        .with("status"@, JsonView::Int(1))
        .with(
            "info"@,
            no_members()
                .with("device_name"@, JsonView::Text(device.hostname))
                .with("os"@, JsonView::Text(os_of(device)))
                .with("username"@, JsonView::Text(device.username)),
        )
}

/// The workstations as the tab gets them, in their order.
pub open spec fn device_views(devices: Seq<DeviceView>) -> Seq<JsonView> {
    devices.map_values(|d: DeviceView| device_view(d))
}

/// A workstation as the "Accessible devices" tab gets it.
pub fn device_json(device: &Device) -> (r: Json)
    ensures
        r@ == device_view(device@),
{
    object()
        .with("id", text(device.id.as_str()))
        // Parsed by the client but never read.
        .with("user", text(""))
        // Would nest this peer under a user of the same name. No machine belongs to an
        // account, so it stays empty and the group link does the work.
        .with("user_name", text(""))
        .with("device_group_name", text(SHARED_NAME))
        .with("note", text(""))
        // Parsed and discarded by the client: online state comes from the ID server.
        .with("status", Json::Int(1))
        .with(
            "info",
            object()
                .with("device_name", text(device.hostname.as_str()))
                .with("os", text(os_field(device).as_str()))
                .with("username", text(device.username.as_str())),
        )
}

} // verus!
