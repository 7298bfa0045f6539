//! What views show of the values that they are taken of: every item under its own name.

use crate::api::{
    Action, ActionView, Body, BodyView, Pending, PendingView, Response, Step, StepView,
};
use crate::api::ab::{
    BookUse, BookUseView, Change, ChangeView, PageQuery, PeerPayload, TagPayload, TagRenamePayload,
};
use crate::api::router::Route;
use crate::api::user::LoginRequest;
use crate::cli::{
    DeviceAction, DeviceActionView, Event, EventView, Purpose, PurposeView, Turn, TurnView,
    UserAction, UserActionView, Wait, WaitView,
};
use crate::config::{Config, Environment};
use crate::db::{AbPeer, AbTag, Device, DeviceReport, NewBook, NewToken, NewUser, User};
use crate::json::{Json, JsonView};
use crate::query::{Query, QueryView, Reply, ReplyView};
use crate::shim::{LinkAction, LinkActionView, LinkEvent, LinkEventView};
use crate::startup::{Boot, BootView, BootWait, BootWaitView};
use vstd::prelude::*;

verus! {

/// The view of a [`User`] shows what it holds.
pub proof fn law_user_is_seen(x: User)
    ensures
        x@.id == x.id,
        x@.name == x.name@,
        x@.password_hash == x.password_hash@,
        x@.email == x.email@,
        x@.note == x.note@,
        x@.is_admin == x.is_admin,
        x@.status == x.status,
        x@.created_at == x.created_at,
        x.deep_view() == x@,
{
}

/// The view of a [`Device`] shows what it holds.
pub proof fn law_device_is_seen(x: Device)
    ensures
        x@.id == x.id@,
        x@.uuid == x.uuid@,
        x@.hostname == x.hostname@,
        x@.username == x.username@,
        x@.platform == x.platform@,
        x@.os == x.os@,
        x@.version == x.version@,
        x@.cpu == x.cpu@,
        x@.memory == x.memory@,
        x@.first_seen == x.first_seen,
        x@.last_seen == x.last_seen,
        x.deep_view() == x@,
{
}

/// The view of an [`AbPeer`] shows what it holds.
pub proof fn law_ab_peer_is_seen(x: AbPeer)
    ensures
        x@.id == x.id@,
        x@.alias == x.alias@,
        x@.tags == x.tags@,
        x@.hash == x.hash@,
        x@.password == x.password@,
        x@.note == x.note@,
        x@.username == x.username@,
        x@.hostname == x.hostname@,
        x@.platform == x.platform@,
        x.deep_view() == x@,
{
}

/// The view of an [`AbTag`] shows what it holds.
pub proof fn law_ab_tag_is_seen(x: AbTag)
    ensures
        x@.name == x.name@,
        x@.color == x.color,
        x.deep_view() == x@,
{
}

/// The view of a [`DeviceReport`] shows what it holds.
pub proof fn law_device_report_is_seen(x: DeviceReport)
    ensures
        x@.id == x.id@,
        x@.uuid == x.uuid@,
        x@.hostname == x.hostname@,
        x@.username == x.username@,
        x@.platform == x.platform@,
        x@.os == x.os@,
        x@.version == x.version@,
        x@.cpu == x.cpu@,
        x@.memory == x.memory@,
        x.deep_view() == x@,
{
}

/// The view of a [`NewUser`] shows what it holds.
pub proof fn law_new_user_is_seen(x: NewUser)
    ensures
        x@.name == x.name@,
        x@.password_hash == x.password_hash@,
        x@.email == x.email@,
        x@.is_admin == x.is_admin,
        x@.status == x.status,
        x@.created_at == x.created_at,
        x.deep_view() == x@,
{
}

/// The view of a [`NewToken`] shows what it holds.
pub proof fn law_new_token_is_seen(x: NewToken)
    ensures
        x@.token == x.token@,
        x@.user_id == x.user_id,
        x@.device_id == x.device_id@,
        x@.device_uuid == x.device_uuid@,
        x@.created_at == x.created_at,
        x@.expires_at == x.expires_at,
        x.deep_view() == x@,
{
}

/// The view of a [`NewBook`] shows what it holds.
pub proof fn law_new_book_is_seen(x: NewBook)
    ensures
        x@.guid == x.guid@,
        x@.owner_id == x.owner_id,
        x@.name == x.name@,
        x@.created_at == x.created_at,
        x.deep_view() == x@,
{
}

/// The view of a [`Query`] shows what it holds.
pub proof fn law_query_is_seen(x: Query)
    ensures
        x matches Query::FindUserByName { name } ==> x@ == (QueryView::FindUserByName {
            name: name@,
        }),
        x matches Query::CreateUser { name, password_hash, email, is_admin } ==> x@ == (QueryView::CreateUser {
            name: name@,
            password_hash: password_hash@,
            email: email@,
            is_admin,
        }),
        x is CountUsers ==> x@ == QueryView::CountUsers,
        x is ListUsers ==> x@ == QueryView::ListUsers,
        x matches Query::SetPassword { name, password_hash } ==> x@ == (QueryView::SetPassword {
            name: name@,
            password_hash: password_hash@,
        }),
        x matches Query::DeleteUser { name } ==> x@ == (QueryView::DeleteUser { name: name@ }),
        x matches Query::CreateToken { token, user_id, device_id, device_uuid, ttl } ==> x@ == (QueryView::CreateToken {
            token: token@,
            user_id,
            device_id: device_id@,
            device_uuid: device_uuid@,
            ttl,
        }),
        x matches Query::UserForToken { token } ==> x@ == (QueryView::UserForToken {
            token: token@,
        }),
        x matches Query::DeleteToken { token } ==> x@ == (QueryView::DeleteToken { token: token@ }),
        x is PurgeExpiredTokens ==> x@ == QueryView::PurgeExpiredTokens,
        x matches Query::UpsertDevice { report } ==> x@ == (QueryView::UpsertDevice {
            report: report@,
        }),
        x matches Query::TouchDevice { id } ==> x@ == (QueryView::TouchDevice { id: id@ }),
        x matches Query::ListDevices { stale_days } ==> x@ == (QueryView::ListDevices {
            stale_days,
        }),
        x matches Query::DeleteDevice { id } ==> x@ == (QueryView::DeleteDevice { id: id@ }),
        x matches Query::GetOrCreatePersonalAb { user_id } ==> x@ == (QueryView::GetOrCreatePersonalAb {
            user_id,
        }),
        x matches Query::OwnsAb { guid, user_id } ==> x@ == (QueryView::OwnsAb {
            guid: guid@,
            user_id,
        }),
        x matches Query::ListAbPeers { guid } ==> x@ == (QueryView::ListAbPeers { guid: guid@ }),
        x matches Query::GetAbPeer { guid, id } ==> x@ == (QueryView::GetAbPeer {
            guid: guid@,
            id: id@,
        }),
        x matches Query::PutAbPeer { guid, peer } ==> x@ == (QueryView::PutAbPeer {
            guid: guid@,
            peer: peer@,
        }),
        x matches Query::DeleteAbPeers { guid, ids } ==> x@ == (QueryView::DeleteAbPeers {
            guid: guid@,
            ids: ids.deep_view(),
        }),
        x matches Query::ListAbTags { guid } ==> x@ == (QueryView::ListAbTags { guid: guid@ }),
        x matches Query::PutAbTag { guid, name, color } ==> x@ == (QueryView::PutAbTag {
            guid: guid@,
            name: name@,
            color,
        }),
        x matches Query::RenameAbTag { guid, old, new } ==> x@ == (QueryView::RenameAbTag {
            guid: guid@,
            old: old@,
            new: new@,
        }),
        x matches Query::DeleteAbTags { guid, names } ==> x@ == (QueryView::DeleteAbTags {
            guid: guid@,
            names: names.deep_view(),
        }),
{
}

/// The view of a [`Reply`] shows what it holds.
pub proof fn law_reply_is_seen(x: Reply)
    ensures
        x is Failed ==> x@ == ReplyView::Failed,
        x is Done ==> x@ == ReplyView::Done,
        x matches Reply::Flag(flag) ==> x@ == ReplyView::Flag(flag),
        x matches Reply::Count(count) ==> x@ == ReplyView::Count(count),
        x matches Reply::User(user) ==> x@ == ReplyView::User(user.deep_view()),
        x matches Reply::Users(users) ==> x@ == ReplyView::Users(users.deep_view()),
        x matches Reply::Devices(devices) ==> x@ == ReplyView::Devices(devices.deep_view()),
        x matches Reply::Guid(guid) ==> x@ == ReplyView::Guid(guid@),
        x matches Reply::Peer(peer) ==> x@ == ReplyView::Peer(peer.deep_view()),
        x matches Reply::Peers(peers) ==> x@ == ReplyView::Peers(peers.deep_view()),
        x matches Reply::Tags(tags) ==> x@ == ReplyView::Tags(tags.deep_view()),
{
}

/// The view of an [`Environment`] shows what it holds.
pub proof fn law_environment_is_seen(x: Environment)
    ensures
        x@.bind == x.bind.deep_view(),
        x@.db == x.db.deep_view(),
        x@.token_ttl_days == x.token_ttl_days.deep_view(),
        x@.device_stale_days == x.device_stale_days.deep_view(),
        x@.admin_user == x.admin_user.deep_view(),
        x@.admin_password == x.admin_password.deep_view(),
{
}

/// The view of a [`Config`] shows what it holds.
pub proof fn law_config_is_seen(x: Config)
    ensures
        x@.bind == x.bind@,
        x@.database_url == x.database_url@,
        x@.token_ttl == x.token_ttl,
        x@.device_stale_days == x.device_stale_days,
        x@.admin_user == x.admin_user.deep_view(),
        x@.admin_password == x.admin_password.deep_view(),
{
}

/// The view of a [`UserAction`] shows what it holds.
pub proof fn law_user_action_is_seen(x: UserAction)
    ensures
        x matches UserAction::Add { name, admin, email, password } ==> x@ == (UserActionView::Add {
            name: name@,
            admin,
            email: email@,
            password: password.deep_view(),
        }),
        x is List ==> x@ == UserActionView::List,
        x matches UserAction::Passwd { name, password } ==> x@ == (UserActionView::Passwd {
            name: name@,
            password: password.deep_view(),
        }),
        x matches UserAction::Rm { name } ==> x@ == (UserActionView::Rm { name: name@ }),
{
}

/// The view of a [`DeviceAction`] shows what it holds.
pub proof fn law_device_action_is_seen(x: DeviceAction)
    ensures
        x is List ==> x@ == DeviceActionView::List,
        x matches DeviceAction::Rm { id } ==> x@ == (DeviceActionView::Rm { id: id@ }),
{
}

/// The view of a [`Purpose`] shows what it holds.
pub proof fn law_purpose_is_seen(x: Purpose)
    ensures
        x matches Purpose::Add { name, admin, email } ==> x@ == (PurposeView::Add {
            name: name@,
            admin,
            email: email@,
        }),
        x matches Purpose::Passwd { name } ==> x@ == (PurposeView::Passwd { name: name@ }),
{
}

/// The view of a [`Wait`] shows what it holds.
pub proof fn law_wait_is_seen(x: Wait)
    ensures
        x matches Wait::Lookup { purpose, password } ==> x@ == (WaitView::Lookup {
            purpose: purpose@,
            password: password.deep_view(),
        }),
        x matches Wait::Password { purpose } ==> x@ == (WaitView::Password { purpose: purpose@ }),
        x matches Wait::Confirm { purpose, password } ==> x@ == (WaitView::Confirm {
            purpose: purpose@,
            password: password@,
        }),
        x matches Wait::Stored { purpose } ==> x@ == (WaitView::Stored { purpose: purpose@ }),
        x is Users ==> x@ == WaitView::Users,
        x matches Wait::UserRemoved { name } ==> x@ == (WaitView::UserRemoved { name: name@ }),
        x is Devices ==> x@ == WaitView::Devices,
        x matches Wait::DeviceRemoved { id } ==> x@ == (WaitView::DeviceRemoved { id: id@ }),
{
}

/// The view of a [`Turn`] shows what it holds.
pub proof fn law_turn_is_seen(x: Turn)
    ensures
        x matches Turn::Ask(query, wait) ==> x@ == TurnView::Ask(query@, wait@),
        x matches Turn::Prompt(prompt, wait) ==> x@ == TurnView::Prompt(prompt@, wait@),
        x matches Turn::Print(lines) ==> x@ == TurnView::Print(lines.deep_view()),
        x matches Turn::Refuse(message) ==> x@ == TurnView::Refuse(message@),
        x is Fail ==> x@ == TurnView::Fail,
{
}

/// The view of an [`Event`] shows what it holds.
pub proof fn law_event_is_seen(x: Event)
    ensures
        x matches Event::Reply(reply) ==> x@ == EventView::Reply(reply@),
        x matches Event::Entered(s) ==> x@ == EventView::Entered(s@),
        x is Unreadable ==> x@ == EventView::Unreadable,
{
}

/// The view of a [`BootWait`] shows what it holds.
pub proof fn law_boot_wait_is_seen(x: BootWait)
    ensures
        x matches BootWait::FirstCount { name, password } ==> x@ == (BootWaitView::FirstCount {
            name: name@,
            password: password@,
        }),
        x is Created ==> x@ == BootWaitView::Created,
        x is Purged ==> x@ == BootWaitView::Purged,
        x is LastCount ==> x@ == BootWaitView::LastCount,
{
}

/// The view of a [`Boot`] shows what it holds.
pub proof fn law_boot_is_seen(x: Boot)
    ensures
        x matches Boot::Ask(query, wait) ==> x@ == BootView::Ask(query@, wait@),
        x matches Boot::Listen { deserted } ==> x@ == (BootView::Listen { deserted }),
        x is Fail ==> x@ == BootView::Fail,
        x is BadPassword ==> x@ == BootView::BadPassword,
{
}

/// The view of a [`LinkEvent`] shows what it holds.
pub proof fn law_link_event_is_seen(x: LinkEvent)
    ensures
        x is Accepted ==> x@ == LinkEventView::Accepted,
        x matches LinkEvent::Reached(Ok(_)) ==> x@ == LinkEventView::Reached(Ok(())),
        x matches LinkEvent::Reached(Err(e)) ==> x@ == LinkEventView::Reached(Err(e@)),
        x matches LinkEvent::Greeted(Ok(_)) ==> x@ == LinkEventView::Greeted(Ok(())),
        x matches LinkEvent::Greeted(Err(e)) ==> x@ == LinkEventView::Greeted(Err(e@)),
        x matches LinkEvent::Split(done) ==> x@ == LinkEventView::Split(done),
{
}

/// The view of a [`LinkAction`] shows what it holds.
pub proof fn law_link_action_is_seen(x: LinkAction)
    ensures
        x is Connect ==> x@ == LinkActionView::Connect,
        x matches LinkAction::Greet(bytes) ==> x@ == LinkActionView::Greet(bytes@),
        x is Split ==> x@ == LinkActionView::Split,
        x is Pipe ==> x@ == LinkActionView::Pipe,
        x matches LinkAction::GiveUp(message) ==> x@ == LinkActionView::GiveUp(message@),
{
}

/// The view of a [`Body`] shows what it holds.
pub proof fn law_body_is_seen(x: Body)
    ensures
        x is Empty ==> x@ == BodyView::Empty,
        x matches Body::Text(s) ==> x@ == BodyView::Text(s@),
        x matches Body::Json(j) ==> x@ == BodyView::Json(j@),
{
}

/// The view of a [`Response`] shows what it holds.
pub proof fn law_response_is_seen(x: Response)
    ensures
        x@.status == x.status,
        x@.body == x.body@,
{
}

/// The view of an [`Action`] shows what it holds.
pub proof fn law_action_is_seen(x: Action)
    ensures
        x is CurrentUser ==> x@ == ActionView::CurrentUser,
        x is Personal ==> x@ == ActionView::Personal,
        x is Settings ==> x@ == ActionView::Settings,
        x matches Action::SharedProfiles { page } ==> x@ == (ActionView::SharedProfiles {
            page: page@,
        }),
        x matches Action::Peers { page, stale_days } ==> x@ == (ActionView::Peers {
            page: page@,
            stale_days,
        }),
        x matches Action::Book { guid, usage } ==> x@ == (ActionView::Book {
            guid: guid@,
            usage: usage@,
        }),
        x matches Action::DeviceGroups { page } ==> x@ == (ActionView::DeviceGroups {
            page: page@,
        }),
        x is Users ==> x@ == ActionView::Users,
        x matches Action::Accessible { page, stale_days } ==> x@ == (ActionView::Accessible {
            page: page@,
            stale_days,
        }),
{
}

/// The view of a [`Pending`] shows what it holds.
pub proof fn law_pending_is_seen(x: Pending)
    ensures
        x matches Pending::Session { action } ==> x@ == (PendingView::Session { action: action@ }),
        x is PersonalGuid ==> x@ == PendingView::PersonalGuid,
        x matches Pending::PersonalPeers { user_id, page, stale_days } ==> x@ == (PendingView::PersonalPeers {
            user_id,
            page: page@,
            stale_days,
        }),
        x matches Pending::Ownership { guid, usage } ==> x@ == (PendingView::Ownership {
            guid: guid@,
            usage: usage@,
        }),
        x matches Pending::SharedPeers { page } ==> x@ == (PendingView::SharedPeers {
            page: page@,
        }),
        x matches Pending::BookPeers { page } ==> x@ == (PendingView::BookPeers { page: page@ }),
        x is BookTags ==> x@ == PendingView::BookTags,
        x matches Pending::ExistingPeer { guid, payload } ==> x@ == (PendingView::ExistingPeer {
            guid: guid@,
            payload: payload@,
        }),
        x is Written ==> x@ == PendingView::Written,
        x matches Pending::AccessiblePeers { page } ==> x@ == (PendingView::AccessiblePeers {
            page: page@,
        }),
        x matches Pending::LoginUser { password, device_id, device_uuid, ttl } ==> x@ == (PendingView::LoginUser {
            password: password@,
            device_id: device_id@,
            device_uuid: device_uuid@,
            ttl,
        }),
        x matches Pending::LoginToken { token, user } ==> x@ == (PendingView::LoginToken {
            token: token@,
            user: user@,
        }),
        x is LoggedOut ==> x@ == PendingView::LoggedOut,
        x is Registered ==> x@ == PendingView::Registered,
        x is Touched ==> x@ == PendingView::Touched,
        x is HealthCount ==> x@ == PendingView::HealthCount,
{
}

/// The view of a [`Step`] shows what it holds.
pub proof fn law_step_is_seen(x: Step)
    ensures
        x matches Step::Done(response) ==> x@ == StepView::Done(response@),
        x matches Step::Ask(query, pending) ==> x@ == StepView::Ask(query@, pending@),
{
}

/// The view of a [`PageQuery`] shows what it holds.
pub proof fn law_page_query_is_seen(x: PageQuery)
    ensures
        x@.current == x.current,
        x@.page_size == x.page_size,
        x@.ab == x.ab.deep_view(),
        x.deep_view() == x@,
{
}

/// The view of a [`PeerPayload`] shows what it holds.
pub proof fn law_peer_payload_is_seen(x: PeerPayload)
    ensures
        x@.id == x.id.deep_view(),
        x@.alias == x.alias.deep_view(),
        x@.tags == x.tags.deep_view(),
        x@.hash == x.hash.deep_view(),
        x@.password == x.password.deep_view(),
        x@.note == x.note.deep_view(),
        x@.username == x.username.deep_view(),
        x@.hostname == x.hostname.deep_view(),
        x@.platform == x.platform.deep_view(),
        x.deep_view() == x@,
{
}

/// The view of a [`TagPayload`] shows what it holds.
pub proof fn law_tag_payload_is_seen(x: TagPayload)
    ensures
        x@.name == x.name@,
        x@.color == x.color,
        x.deep_view() == x@,
{
}

/// The view of a [`TagRenamePayload`] shows what it holds.
pub proof fn law_tag_rename_payload_is_seen(x: TagRenamePayload)
    ensures
        x@.old == x.old@,
        x@.new == x.new@,
        x.deep_view() == x@,
{
}

/// The view of a [`Change`] shows what it holds.
pub proof fn law_change_is_seen(x: Change)
    ensures
        x matches Change::PeerAdd(payload) ==> x@ == ChangeView::PeerAdd(payload@),
        x matches Change::PeerUpdate(payload) ==> x@ == ChangeView::PeerUpdate(payload@),
        x matches Change::PeerDelete(ids) ==> x@ == ChangeView::PeerDelete(ids.deep_view()),
        x matches Change::TagPut(payload) ==> x@ == ChangeView::TagPut(payload@),
        x matches Change::TagRename(payload) ==> x@ == ChangeView::TagRename(payload@),
        x matches Change::TagDelete(names) ==> x@ == ChangeView::TagDelete(names.deep_view()),
{
}

/// The view of a [`BookUse`] shows what it holds.
pub proof fn law_book_use_is_seen(x: BookUse)
    ensures
        x matches BookUse::Peers { page, stale_days } ==> x@ == (BookUseView::Peers {
            page: page@,
            stale_days,
        }),
        x is Tags ==> x@ == BookUseView::Tags,
        x matches BookUse::Write(change) ==> x@ == BookUseView::Write(change@),
{
}

/// The view of a [`LoginRequest`] shows what it holds.
pub proof fn law_login_request_is_seen(x: LoginRequest)
    ensures
        x@.username == x.username.deep_view(),
        x@.password == x.password.deep_view(),
        x@.id == x.id.deep_view(),
        x@.uuid == x.uuid.deep_view(),
        x.deep_view() == x@,
{
}

/// The view of a [`Route`] shows what it holds.
pub proof fn law_route_is_seen(x: Route)
    ensures
        x@.method == x.method,
        x@.path == x.path@,
        x@.endpoint == x.endpoint,
        x.deep_view() == x@,
{
}

/// The view of a [`Json`] value shows what it holds: a list and an object show their items in
/// their order, and a number of things is a number.
pub proof fn law_json_is_seen(x: Json)
    ensures
        x is Null ==> x@ == JsonView::Null,
        x matches Json::Bool(b) ==> x@ == JsonView::Bool(b),
        x matches Json::Int(n) ==> x@ == JsonView::Int(n as int),
        x matches Json::Count(n) ==> x@ == JsonView::Int(n as int),
        x matches Json::Text(s) ==> x@ == JsonView::Text(s@),
        x matches Json::Raw(s) ==> x@ == JsonView::Raw(s@),
        x matches Json::List(items) ==> x@ is List && x@->List_0.len() == items@.len() && forall|
            i: int,
        |
            0 <= i < items@.len() ==> #[trigger] x@->List_0[i] == items@[i]@,
        x matches Json::Object(members) ==> x@ is Object && x@->Object_0.len() == members@.len()
            && forall|i: int|
            0 <= i < members@.len() ==> #[trigger] x@->Object_0[i] == (
                members@[i].0@,
                members@[i].1@,
            ),
        x.deep_view() == x@,
{
}

} // verus!
