//! What the server asks of its database, and what it gets back.

use crate::db::{
    AbPeer, AbPeerView, AbTag, AbTagView, Device, DeviceReport, DeviceReportView, DeviceView, User,
    UserView,
};
use vstd::prelude::*;

verus! {

/// A request to the database.
pub enum Query {
    /// The account of this name.
    FindUserByName { name: String },
    /// Create an account.
    CreateUser { name: String, password_hash: String, email: String, is_admin: bool },
    /// How many accounts there are.
    CountUsers,
    /// All accounts, by name.
    ListUsers,
    /// Replace the password hash of an account and close its sessions.
    SetPassword { name: String, password_hash: String },
    /// Delete an account with its sessions and its address book.
    DeleteUser { name: String },
    /// Open a session that lasts `ttl` seconds.
    CreateToken { token: String, user_id: i64, device_id: String, device_uuid: String, ttl: u64 },
    /// The account of a session that has not run out.
    UserForToken { token: String },
    /// Close a session.
    DeleteToken { token: String },
    /// Drop the sessions that have run out.
    PurgeExpiredTokens,
    /// Register a workstation, or bring its row up to date.
    UpsertDevice { report: DeviceReport },
    /// Note that a workstation was seen now; tells whether it is known.
    TouchDevice { id: String },
    /// The workstations seen within `stale_days` days, by host name; all for 0.
    ListDevices { stale_days: i64 },
    /// Remove a workstation.
    DeleteDevice { id: String },
    /// The guid of the personal address book of a user, made on first use.
    GetOrCreatePersonalAb { user_id: i64 },
    /// Whether the address book belongs to the user.
    OwnsAb { guid: String, user_id: i64 },
    /// The peers in an address book, by id.
    ListAbPeers { guid: String },
    /// One peer of an address book.
    GetAbPeer { guid: String, id: String },
    /// Insert or replace a peer.
    PutAbPeer { guid: String, peer: AbPeer },
    /// Remove peers.
    DeleteAbPeers { guid: String, ids: Vec<String> },
    /// The tags of an address book, by name.
    ListAbTags { guid: String },
    /// Create or repaint a tag.
    PutAbTag { guid: String, name: String, color: i64 },
    /// Rename a tag, also inside the tag lists of the peers.
    RenameAbTag { guid: String, old: String, new: String },
    /// Delete tags, also from the tag lists of the peers.
    DeleteAbTags { guid: String, names: Vec<String> },
}

/// What a [`Query`] asks.
pub enum QueryView {
    FindUserByName { name: Seq<char> },
    CreateUser { name: Seq<char>, password_hash: Seq<char>, email: Seq<char>, is_admin: bool },
    CountUsers,
    ListUsers,
    SetPassword { name: Seq<char>, password_hash: Seq<char> },
    DeleteUser { name: Seq<char> },
    CreateToken { token: Seq<char>, user_id: i64, device_id: Seq<char>, device_uuid: Seq<char>, ttl: u64 },
    UserForToken { token: Seq<char> },
    DeleteToken { token: Seq<char> },
    PurgeExpiredTokens,
    UpsertDevice { report: DeviceReportView },
    TouchDevice { id: Seq<char> },
    ListDevices { stale_days: i64 },
    DeleteDevice { id: Seq<char> },
    GetOrCreatePersonalAb { user_id: i64 },
    OwnsAb { guid: Seq<char>, user_id: i64 },
    ListAbPeers { guid: Seq<char> },
    GetAbPeer { guid: Seq<char>, id: Seq<char> },
    PutAbPeer { guid: Seq<char>, peer: AbPeerView },
    DeleteAbPeers { guid: Seq<char>, ids: Seq<Seq<char>> },
    ListAbTags { guid: Seq<char> },
    PutAbTag { guid: Seq<char>, name: Seq<char>, color: i64 },
    RenameAbTag { guid: Seq<char>, old: Seq<char>, new: Seq<char> },
    DeleteAbTags { guid: Seq<char>, names: Seq<Seq<char>> },
}

impl View for Query {
    type V = QueryView;

    open spec fn view(&self) -> QueryView {
        match self {
            Query::FindUserByName { name } => QueryView::FindUserByName { name: name@ },
            Query::CreateUser { name, password_hash, email, is_admin } => QueryView::CreateUser {
                name: name@,
                password_hash: password_hash@,
                email: email@,
                is_admin: *is_admin,
            },
            Query::CountUsers => QueryView::CountUsers,
            Query::ListUsers => QueryView::ListUsers,
            Query::SetPassword { name, password_hash } => QueryView::SetPassword {
                name: name@,
                password_hash: password_hash@,
            },
            Query::DeleteUser { name } => QueryView::DeleteUser { name: name@ },
            Query::CreateToken { token, user_id, device_id, device_uuid, ttl } => QueryView::CreateToken {
                token: token@,
                user_id: *user_id,
                device_id: device_id@,
                device_uuid: device_uuid@,
                ttl: *ttl,
            },
            Query::UserForToken { token } => QueryView::UserForToken { token: token@ },
            Query::DeleteToken { token } => QueryView::DeleteToken { token: token@ },
            Query::PurgeExpiredTokens => QueryView::PurgeExpiredTokens,
            Query::UpsertDevice { report } => QueryView::UpsertDevice { report: report@ },
            Query::TouchDevice { id } => QueryView::TouchDevice { id: id@ },
            Query::ListDevices { stale_days } => QueryView::ListDevices { stale_days: *stale_days },
            Query::DeleteDevice { id } => QueryView::DeleteDevice { id: id@ },
            Query::GetOrCreatePersonalAb { user_id } => QueryView::GetOrCreatePersonalAb {
                user_id: *user_id,
            },
            Query::OwnsAb { guid, user_id } => QueryView::OwnsAb { guid: guid@, user_id: *user_id },
            Query::ListAbPeers { guid } => QueryView::ListAbPeers { guid: guid@ },
            Query::GetAbPeer { guid, id } => QueryView::GetAbPeer { guid: guid@, id: id@ },
            Query::PutAbPeer { guid, peer } => QueryView::PutAbPeer { guid: guid@, peer: peer@ },
            Query::DeleteAbPeers { guid, ids } => QueryView::DeleteAbPeers {
                guid: guid@,
                ids: ids.deep_view(),
            },
            Query::ListAbTags { guid } => QueryView::ListAbTags { guid: guid@ },
            Query::PutAbTag { guid, name, color } => QueryView::PutAbTag {
                guid: guid@,
                name: name@,
                color: *color,
            },
            Query::RenameAbTag { guid, old, new } => QueryView::RenameAbTag {
                guid: guid@,
                old: old@,
                new: new@,
            },
            Query::DeleteAbTags { guid, names } => QueryView::DeleteAbTags {
                guid: guid@,
                names: names.deep_view(),
            },
        }
    }
}

/// What the database answers.
pub enum Reply {
    /// The request failed.
    Failed,
    /// The request was carried out.
    Done,
    /// Yes or no.
    Flag(bool),
    /// The number of rows, or the id of the row that was made.
    Count(i64),
    User(Option<User>),
    Users(Vec<User>),
    Devices(Vec<Device>),
    Guid(String),
    Peer(Option<AbPeer>),
    Peers(Vec<AbPeer>),
    Tags(Vec<AbTag>),
}

/// What a [`Reply`] says.
pub enum ReplyView {
    Failed,
    Done,
    Flag(bool),
    Count(i64),
    User(Option<UserView>),
    Users(Seq<UserView>),
    Devices(Seq<DeviceView>),
    Guid(Seq<char>),
    Peer(Option<AbPeerView>),
    Peers(Seq<AbPeerView>),
    Tags(Seq<AbTagView>),
}

impl View for Reply {
    type V = ReplyView;

    open spec fn view(&self) -> ReplyView {
        match self {
            Reply::Failed => ReplyView::Failed,
            Reply::Done => ReplyView::Done,
            Reply::Flag(flag) => ReplyView::Flag(*flag),
            Reply::Count(count) => ReplyView::Count(*count),
            Reply::User(user) => ReplyView::User(user.deep_view()),
            Reply::Users(users) => ReplyView::Users(users.deep_view()),
            Reply::Devices(devices) => ReplyView::Devices(devices.deep_view()),
            Reply::Guid(guid) => ReplyView::Guid(guid@),
            Reply::Peer(peer) => ReplyView::Peer(peer.deep_view()),
            Reply::Peers(peers) => ReplyView::Peers(peers.deep_view()),
            Reply::Tags(tags) => ReplyView::Tags(tags.deep_view()),
        }
    }
}

impl QueryView {
    /// The request changes the address book `guid`.
    pub open spec fn writes_book(self, guid: Seq<char>) -> bool {
        match self {
            QueryView::PutAbPeer { guid: g, .. } => g == guid,
            QueryView::DeleteAbPeers { guid: g, .. } => g == guid,
            QueryView::PutAbTag { guid: g, .. } => g == guid,
            QueryView::RenameAbTag { guid: g, .. } => g == guid,
            QueryView::DeleteAbTags { guid: g, .. } => g == guid,
            _ => false,
        }
    }

    /// The request reads what the address book `guid` holds.
    pub open spec fn reads_book(self, guid: Seq<char>) -> bool {
        match self {
            QueryView::ListAbPeers { guid: g } => g == guid,
            QueryView::GetAbPeer { guid: g, .. } => g == guid,
            QueryView::ListAbTags { guid: g } => g == guid,
            _ => false,
        }
    }
}

} // verus!
