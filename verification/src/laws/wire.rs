//! What clients read: the members of the objects that the server sends.

use crate::api::ab::{
    device_peer_view, device_peers, ok_empty_view, page_of, paged, peer_view, profile_view,
    settings_view, stored_peer_view, stored_peers, tag_view, tag_views, PageQueryView,
    DEFAULT_TAG_COLOR, SHARED_GUID, SHARED_NAME,
};
use crate::api::group::{device_view, device_views, group_view};
use crate::api::misc::health_view;
use crate::api::user::login_token_view;
use crate::api::{
    error_view, json_view, plain_view, BodyView, INTERNAL_SERVER_ERROR, NOT_FOUND, OK, UNAUTHORIZED,
};
use crate::db::{new_user_view, payload_view, AbPeerView, AbTagView, DeviceView, UserView};
use crate::document::parsed_document;
use crate::json::{no_members, page_view, JsonView};
use crate::query::ReplyView;
use crate::tables::account;
use vstd::prelude::*;

verus! {

/// `j` is an object with a member `key` that has this value.
pub open spec fn says(j: JsonView, key: Seq<char>, value: JsonView) -> bool {
    j matches JsonView::Object(members) && members.contains((key, value))
}

/// How many members the object `j` has.
pub open spec fn members_of(j: JsonView) -> nat {
    j->Object_0.len()
}

/// A member in its place is a member.
proof fn lemma_says(j: JsonView, i: int, key: Seq<char>, value: JsonView)
    requires
        j is Object,
        0 <= i < j->Object_0.len(),
        j->Object_0[i] == (key, value),
    ensures
        says(j, key, value),
{
}

/// An object grows member by member: it keeps what it says and says what is added, and the
/// empty one says nothing.
pub proof fn law_objects_grow(
    j: JsonView,
    key: Seq<char>,
    value: JsonView,
    other: Seq<char>,
    kept: JsonView,
)
    requires
        j is Object,
    ensures
        members_of(no_members()) == 0,
        members_of(j.with(key, value)) == members_of(j) + 1,
        says(j.with(key, value), key, value),
        says(j, other, kept) ==> says(j.with(key, value), other, kept),
{
    let members = j->Object_0;
    let more = members.push((key, value));
    assert(more[members.len() as int] == (key, value));
    if says(j, other, kept) {
        let i = choose|i: int| 0 <= i < members.len() && members[i] == (other, kept);
        assert(more[i] == (other, kept));
    }
}

// ---------------------------------------------------------------------------
// Responses
// ---------------------------------------------------------------------------

/// The status codes are those that HTTP gives these names.
pub proof fn law_statuses()
    ensures
        OK == 200,
        UNAUTHORIZED == 401,
        NOT_FOUND == 404,
        INTERNAL_SERVER_ERROR == 500,
{
}

/// A JSON response, a plain one and the one to a change that was carried out have the status
/// 200 and the body that was given, the last one none at all. An error has the status that was
/// given and a body with its message as the one member, `error`.
pub proof fn law_responses_hold_their_body(
    body: JsonView,
    text: Seq<char>,
    status: u16,
    message: Seq<char>,
)
    ensures
        json_view(body).status == 200,
        json_view(body).body == BodyView::Json(body),
        plain_view(text).status == 200,
        plain_view(text).body == BodyView::Text(text),
        ok_empty_view().status == 200,
        ok_empty_view().body == BodyView::Empty,
        error_view(status, message).status == status,
        error_view(status, message).body matches BodyView::Json(error) && members_of(error) == 1
            && says(error, "error"@, JsonView::Text(message)),
{
    lemma_says(error_view(status, message).body->Json_0, 0, "error"@, JsonView::Text(message));
}

/// A page tells how many items there are in all, and holds those that were asked for.
pub proof fn law_page_tells_the_total(items: Seq<JsonView>, q: PageQueryView)
    ensures
        members_of(paged(items, q)) == 2,
        says(paged(items, q), "total"@, JsonView::Int(items.len() as int)),
        says(paged(items, q), "data"@, JsonView::List(page_of(items, q))),
{
    lemma_says(paged(items, q), 0, "total"@, JsonView::Int(items.len() as int));
    lemma_says(paged(items, q), 1, "data"@, JsonView::List(page_of(items, q)));
}

/// A page says no more than its number of items and the items themselves.
pub proof fn law_page_members(total: int, data: Seq<JsonView>)
    ensures
        members_of(page_view(total, data)) == 2,
        says(page_view(total, data), "total"@, JsonView::Int(total)),
        says(page_view(total, data), "data"@, JsonView::List(data)),
{
    lemma_says(page_view(total, data), 0, "total"@, JsonView::Int(total));
    lemma_says(page_view(total, data), 1, "data"@, JsonView::List(data));
}

// ---------------------------------------------------------------------------
// Accounts
// ---------------------------------------------------------------------------

/// A client is told of an account its name, email, note and status, each as it is stored, and that
/// it is an administrator exactly if the account is marked as one, whatever its status. Nothing
/// else is told, the password hash least of all.
pub proof fn law_payload_tells_the_account(user: UserView)
    ensures
        members_of(payload_view(user)) == 6,
        says(payload_view(user), "name"@, JsonView::Text(user.name)),
        says(payload_view(user), "email"@, JsonView::Text(user.email)),
        says(payload_view(user), "note"@, JsonView::Text(user.note)),
        says(payload_view(user), "status"@, JsonView::Int(user.status as int)),
        says(payload_view(user), "is_admin"@, JsonView::Bool(user.is_admin != 0)),
        says(payload_view(user), "info"@, no_members()),
{
    let j = payload_view(user);
    lemma_says(j, 0, "name"@, JsonView::Text(user.name));
    lemma_says(j, 1, "email"@, JsonView::Text(user.email));
    lemma_says(j, 2, "note"@, JsonView::Text(user.note));
    lemma_says(j, 3, "status"@, JsonView::Int(user.status as int));
    lemma_says(j, 4, "is_admin"@, JsonView::Bool(user.is_admin != 0));
    lemma_says(j, 5, "info"@, no_members());
}

/// An account that was created with the rank of an administrator is told so, and one that was
/// created without it is told that it has none; both are active.
pub proof fn law_new_account_is_told_its_rank(
    id: i64,
    name: Seq<char>,
    password_hash: Seq<char>,
    email: Seq<char>,
    is_admin: bool,
    now: i64,
)
    ensures
        ({
            let told = payload_view(
                account(id, new_user_view(name, password_hash, email, is_admin, now)),
            );
            &&& says(told, "name"@, JsonView::Text(name))
            &&& says(told, "email"@, JsonView::Text(email))
            &&& says(told, "note"@, JsonView::Text(Seq::empty()))
            &&& says(told, "status"@, JsonView::Int(1))
            &&& says(told, "is_admin"@, JsonView::Bool(is_admin))
        }),
{
    law_payload_tells_the_account(
        account(id, new_user_view(name, password_hash, email, is_admin, now)),
    );
}

/// Whoever logs in gets the token of the session, the word that the client looks for, and what
/// is told of the account.
pub proof fn law_login_hands_out_the_token(token: Seq<char>, user: UserView)
    ensures
        login_token_view(token, user, ReplyView::Done).status == 200,
        login_token_view(token, user, ReplyView::Done).body matches BodyView::Json(answer) && {
            &&& members_of(answer) == 3
            &&& says(answer, "access_token"@, JsonView::Text(token))
            &&& says(answer, "type"@, JsonView::Text("access_token"@))
            &&& says(answer, "user"@, payload_view(user))
        },
{
    let answer = login_token_view(token, user, ReplyView::Done).body->Json_0;
    lemma_says(answer, 0, "access_token"@, JsonView::Text(token));
    lemma_says(answer, 1, "type"@, JsonView::Text("access_token"@));
    lemma_says(answer, 2, "user"@, payload_view(user));
}

// ---------------------------------------------------------------------------
// Peers
// ---------------------------------------------------------------------------

/// A peer goes to the client with each column under its own name, with the tags that are given,
/// and with what the client expects besides.
pub proof fn law_peer_members(peer: AbPeerView, tags: JsonView)
    ensures
        members_of(peer_view(peer, tags)) == 15,
        says(peer_view(peer, tags), "id"@, JsonView::Text(peer.id)),
        says(peer_view(peer, tags), "username"@, JsonView::Text(peer.username)),
        says(peer_view(peer, tags), "hostname"@, JsonView::Text(peer.hostname)),
        says(peer_view(peer, tags), "platform"@, JsonView::Text(peer.platform)),
        says(peer_view(peer, tags), "alias"@, JsonView::Text(peer.alias)),
        says(peer_view(peer, tags), "tags"@, tags),
        says(peer_view(peer, tags), "note"@, JsonView::Text(peer.note)),
        says(peer_view(peer, tags), "hash"@, JsonView::Text(peer.hash)),
        says(peer_view(peer, tags), "password"@, JsonView::Text(peer.password)),
        says(peer_view(peer, tags), "forceAlwaysRelay"@, JsonView::Text("false"@)),
        says(peer_view(peer, tags), "rdpPort"@, JsonView::Text(""@)),
        says(peer_view(peer, tags), "rdpUsername"@, JsonView::Text(""@)),
        says(peer_view(peer, tags), "loginName"@, JsonView::Text(""@)),
        says(peer_view(peer, tags), "device_group_name"@, JsonView::Text(""@)),
        says(peer_view(peer, tags), "same_server"@, JsonView::Bool(true)),
{
    let j = peer_view(peer, tags);
    lemma_says(j, 0, "id"@, JsonView::Text(peer.id));
    lemma_says(j, 1, "username"@, JsonView::Text(peer.username));
    lemma_says(j, 2, "hostname"@, JsonView::Text(peer.hostname));
    lemma_says(j, 3, "platform"@, JsonView::Text(peer.platform));
    lemma_says(j, 4, "alias"@, JsonView::Text(peer.alias));
    lemma_says(j, 5, "tags"@, tags);
    lemma_says(j, 6, "note"@, JsonView::Text(peer.note));
    lemma_says(j, 7, "hash"@, JsonView::Text(peer.hash));
    lemma_says(j, 8, "password"@, JsonView::Text(peer.password));
    lemma_says(j, 9, "forceAlwaysRelay"@, JsonView::Text("false"@));
    lemma_says(j, 10, "rdpPort"@, JsonView::Text(""@));
    lemma_says(j, 11, "rdpUsername"@, JsonView::Text(""@));
    lemma_says(j, 12, "loginName"@, JsonView::Text(""@));
    lemma_says(j, 13, "device_group_name"@, JsonView::Text(""@));
    lemma_says(j, 14, "same_server"@, JsonView::Bool(true));
}

/// A workstation goes to the client, in the shared book, with what it reported of itself under
/// its own name each, and without alias, tags, note or credentials.
pub proof fn law_device_peer_members(device: DeviceView)
    ensures
        members_of(device_peer_view(device)) == 15,
        says(device_peer_view(device), "id"@, JsonView::Text(device.id)),
        says(device_peer_view(device), "username"@, JsonView::Text(device.username)),
        says(device_peer_view(device), "hostname"@, JsonView::Text(device.hostname)),
        says(device_peer_view(device), "platform"@, JsonView::Text(device.platform)),
        says(device_peer_view(device), "alias"@, JsonView::Text(Seq::empty())),
        says(device_peer_view(device), "tags"@, JsonView::List(Seq::empty())),
        says(device_peer_view(device), "note"@, JsonView::Text(Seq::empty())),
        says(device_peer_view(device), "hash"@, JsonView::Text(Seq::empty())),
        says(device_peer_view(device), "password"@, JsonView::Text(Seq::empty())),
        says(device_peer_view(device), "forceAlwaysRelay"@, JsonView::Text("false"@)),
        says(device_peer_view(device), "rdpPort"@, JsonView::Text(""@)),
        says(device_peer_view(device), "rdpUsername"@, JsonView::Text(""@)),
        says(device_peer_view(device), "loginName"@, JsonView::Text(""@)),
        says(device_peer_view(device), "device_group_name"@, JsonView::Text(""@)),
        says(device_peer_view(device), "same_server"@, JsonView::Bool(true)),
{
    let j = device_peer_view(device);
    lemma_says(j, 0, "id"@, JsonView::Text(device.id));
    lemma_says(j, 1, "username"@, JsonView::Text(device.username));
    lemma_says(j, 2, "hostname"@, JsonView::Text(device.hostname));
    lemma_says(j, 3, "platform"@, JsonView::Text(device.platform));
    lemma_says(j, 4, "alias"@, JsonView::Text(Seq::empty()));
    lemma_says(j, 5, "tags"@, JsonView::List(Seq::empty()));
    lemma_says(j, 6, "note"@, JsonView::Text(Seq::empty()));
    lemma_says(j, 7, "hash"@, JsonView::Text(Seq::empty()));
    lemma_says(j, 8, "password"@, JsonView::Text(Seq::empty()));
    lemma_says(j, 9, "forceAlwaysRelay"@, JsonView::Text("false"@));
    lemma_says(j, 10, "rdpPort"@, JsonView::Text(""@));
    lemma_says(j, 11, "rdpUsername"@, JsonView::Text(""@));
    lemma_says(j, 12, "loginName"@, JsonView::Text(""@));
    lemma_says(j, 13, "device_group_name"@, JsonView::Text(""@));
    lemma_says(j, 14, "same_server"@, JsonView::Bool(true));
}

/// The tag list of a stored peer goes to the client as it is stored where that is a document
/// other than `null`, and as an empty list otherwise; the rest is as for any peer.
pub proof fn law_stored_peer_members(peer: AbPeerView)
    ensures
        parsed_document(peer.tags) matches Some((_, false)) ==> stored_peer_view(peer) == peer_view(
            peer,
            JsonView::Raw(peer.tags),
        ),
        !(parsed_document(peer.tags) matches Some((_, false))) ==> stored_peer_view(peer)
            == peer_view(peer, JsonView::List(Seq::empty())),
{
}

/// A tag goes to the client with its name and its colour.
pub proof fn law_tag_members(tag: AbTagView)
    ensures
        members_of(tag_view(tag)) == 2,
        says(tag_view(tag), "name"@, JsonView::Text(tag.name)),
        says(tag_view(tag), "color"@, JsonView::Int(tag.color as int)),
{
    let j = tag_view(tag);
    lemma_says(j, 0, "name"@, JsonView::Text(tag.name));
    lemma_says(j, 1, "color"@, JsonView::Int(tag.color as int));
}

/// The default colour is opaque grey.
pub proof fn law_default_colour_is_grey()
    ensures
        DEFAULT_TAG_COLOR == 0xFF9E9E9E,
{
}

/// The details of a workstation in the "Accessible devices" tab.
pub open spec fn device_info(device: DeviceView) -> JsonView {
    device_view(device)->Object_0[6].1
}

/// In the "Accessible devices" tab a workstation has its id, belongs to no user, to the one group
/// and is active, and its details stand under `info`.
pub proof fn law_device_members(device: DeviceView)
    ensures
        members_of(device_view(device)) == 7,
        says(device_view(device), "id"@, JsonView::Text(device.id)),
        says(device_view(device), "user"@, JsonView::Text(""@)),
        says(device_view(device), "user_name"@, JsonView::Text(""@)),
        says(device_view(device), "device_group_name"@, JsonView::Text(SHARED_NAME@)),
        says(device_view(device), "note"@, JsonView::Text(""@)),
        says(device_view(device), "status"@, JsonView::Int(1)),
        says(device_view(device), "info"@, device_info(device)),
{
    let j = device_view(device);
    lemma_says(j, 0, "id"@, JsonView::Text(device.id));
    lemma_says(j, 1, "user"@, JsonView::Text(""@));
    lemma_says(j, 2, "user_name"@, JsonView::Text(""@));
    lemma_says(j, 3, "device_group_name"@, JsonView::Text(SHARED_NAME@));
    lemma_says(j, 4, "note"@, JsonView::Text(""@));
    lemma_says(j, 5, "status"@, JsonView::Int(1));
    lemma_says(j, 6, "info"@, device_info(device));
}

/// The details of a workstation are its host name, its `os` string and the name of its user.
pub proof fn law_device_details(device: DeviceView)
    ensures
        members_of(device_info(device)) == 3,
        says(device_info(device), "device_name"@, JsonView::Text(device.hostname)),
        says(device_info(device), "os"@, JsonView::Text(crate::api::group::os_of(device))),
        says(device_info(device), "username"@, JsonView::Text(device.username)),
{
    let j = device_info(device);
    lemma_says(j, 0, "device_name"@, JsonView::Text(device.hostname));
    lemma_says(j, 1, "os"@, JsonView::Text(crate::api::group::os_of(device)));
    lemma_says(j, 2, "username"@, JsonView::Text(device.username));
}

// ---------------------------------------------------------------------------
// Books and groups
// ---------------------------------------------------------------------------

/// The shared book and the group have the guid and the name that clients know them by.
pub proof fn law_shared_names()
    ensures
        SHARED_GUID@ == "all-workstations"@,
        SHARED_NAME@ == "All Workstations"@,
{
}

/// The shared book is announced under its guid and name, as one that the system owns and that
/// can only be read.
pub proof fn law_profile_members()
    ensures
        members_of(profile_view()) == 6,
        says(profile_view(), "guid"@, JsonView::Text(SHARED_GUID@)),
        says(profile_view(), "name"@, JsonView::Text(SHARED_NAME@)),
        says(profile_view(), "owner"@, JsonView::Text("system"@)),
        says(profile_view(), "note"@, JsonView::Text(
                "Automatically maintained: every workstation registered with this server."@,
            )),
        says(profile_view(), "rule"@, JsonView::Int(1)),
        says(profile_view(), "info"@, JsonView::Null),
{
    let j = profile_view();
    lemma_says(j, 0, "guid"@, JsonView::Text(SHARED_GUID@));
    lemma_says(j, 1, "name"@, JsonView::Text(SHARED_NAME@));
    lemma_says(j, 2, "owner"@, JsonView::Text("system"@));
    lemma_says(j, 3, "note"@, JsonView::Text(
                "Automatically maintained: every workstation registered with this server."@,
            ));
    lemma_says(j, 4, "rule"@, JsonView::Int(1));
    lemma_says(j, 5, "info"@, JsonView::Null);
}

/// A book may hold any number of peers.
pub proof fn law_settings_members()
    ensures
        members_of(settings_view()) == 1,
        says(settings_view(), "max_peer_one_ab"@, JsonView::Int(0)),
{
    let j = settings_view();
    lemma_says(j, 0, "max_peer_one_ab"@, JsonView::Int(0));
}

/// The group that holds every workstation is named like the shared book.
pub proof fn law_group_members()
    ensures
        members_of(group_view()) == 1,
        says(group_view(), "name"@, JsonView::Text(SHARED_NAME@)),
{
    let j = group_view();
    lemma_says(j, 0, "name"@, JsonView::Text(SHARED_NAME@));
}

/// A health check tells that the server is well and how many workstations it knows, and
/// otherwise that the database is not there.
pub proof fn law_health_members(devices: Seq<DeviceView>, reply: ReplyView)
    ensures
        health_view(ReplyView::Devices(devices)).status == 200,
        health_view(ReplyView::Devices(devices)).body matches BodyView::Json(answer) && {
            &&& members_of(answer) == 2
            &&& says(answer, "status"@, JsonView::Text("ok"@))
            &&& says(answer, "devices"@, JsonView::Int(devices.len() as int))
        },
        !(reply is Devices) ==> health_view(reply).status == 500 && (
        health_view(reply).body matches BodyView::Json(answer) && says(
            answer,
            "error"@,
            JsonView::Text("database unavailable"@),
        )),
{
    let answer = health_view(ReplyView::Devices(devices)).body->Json_0;
    lemma_says(answer, 0, "status"@, JsonView::Text("ok"@));
    lemma_says(answer, 1, "devices"@, JsonView::Int(devices.len() as int));
    if !(reply is Devices) {
        lemma_says(
            health_view(reply).body->Json_0,
            0,
            "error"@,
            JsonView::Text("database unavailable"@),
        );
    }
}

// ---------------------------------------------------------------------------
// Lists
// ---------------------------------------------------------------------------

/// Lists keep their items: as many as there are rows, in the order of the rows, each what the
/// client gets for the row in that place.
pub proof fn law_lists_keep_their_items(
    devices: Seq<DeviceView>,
    peers: Seq<AbPeerView>,
    tags: Seq<AbTagView>,
)
    ensures
        device_peers(devices).len() == devices.len(),
        forall|i: int|
            0 <= i < devices.len() ==> #[trigger] device_peers(devices)[i] == device_peer_view(
                devices[i],
            ),
        device_views(devices).len() == devices.len(),
        forall|i: int|
            0 <= i < devices.len() ==> #[trigger] device_views(devices)[i] == device_view(devices[i]),
        stored_peers(peers).len() == peers.len(),
        forall|i: int|
            0 <= i < peers.len() ==> #[trigger] stored_peers(peers)[i] == stored_peer_view(peers[i]),
        tag_views(tags).len() == tags.len(),
        forall|i: int| 0 <= i < tags.len() ==> #[trigger] tag_views(tags)[i] == tag_view(tags[i]),
{
}

} // verus!
