//! Address book endpoints (RustDesk 1.2.4+ "shared address book" protocol).
//!
//! Two books are exposed to every user:
//!
//!   * their **personal** book: writable, stored per user;
//!   * **"All Workstations"**: a shared book with `rule: 1` (read-only), generated live from
//!     the registered devices, so that every machine that has reported in shows up for
//!     everybody.
//!
//! Protocol notes that are easy to get wrong:
//!   * paged responses must carry `total` or the client discards `data`.
//!   * the tags of a book are a *bare array*; every other read returns an object.
//!   * successful mutations must return 200 with a **zero-length** body: any body at all is
//!     stringified into a user-visible error toast.

use crate::api::{
    error_json, error_view, json, json_view, require_user, require_user_view, Action, ActionView, Body,
    BodyView, Pending, PendingView, Response, ResponseView, Step, StepView, OK,
};
use crate::db::{AbPeer, AbPeerView, AbTag, AbTagView, Device, DeviceView};
use crate::document::{has_value, is_null, parse_document, strings_text, tags_of, write_tags};
use crate::json::{list, no_members, object, page, page_view, text, Json, JsonView};
use crate::query::{Query, QueryView, Reply, ReplyView};
use vstd::prelude::*;

verus! {

/// Stable guid of the auto-populated, read-only shared address book.
pub const SHARED_GUID: &'static str = "all-workstations";

/// Name of the shared address book, and of the group that holds every device.
pub const SHARED_NAME: &'static str = "All Workstations";

/// Which part of a list a client wants to see.
#[derive(Debug, Clone)]
pub struct PageQuery {
    /// The page, counted from 1.
    pub current: Option<i64>,
    /// The number of items on a page.
    pub page_size: Option<i64>,
    /// Which address book to read peers from.
    pub ab: Option<String>,
}

/// What a [`PageQuery`] holds.
pub struct PageQueryView {
    pub current: Option<i64>,
    pub page_size: Option<i64>,
    pub ab: Option<Seq<char>>,
}

impl View for PageQuery {
    type V = PageQueryView;

    open spec fn view(&self) -> PageQueryView {
        PageQueryView {
            current: self.current,
            page_size: self.page_size,
            ab: self.ab.deep_view(),
        }
    }
}

impl DeepView for PageQuery {
    type V = PageQueryView;

    open spec fn deep_view(&self) -> PageQueryView {
        self@
    }
}

/// A peer as a client sends it. What is left out was not sent.
#[derive(Debug, Clone)]
pub struct PeerPayload {
    pub id: Option<String>,
    pub alias: Option<String>,
    pub tags: Option<Vec<String>>,
    pub hash: Option<String>,
    pub password: Option<String>,
    pub note: Option<String>,
    pub username: Option<String>,
    pub hostname: Option<String>,
    pub platform: Option<String>,
}

/// What a [`PeerPayload`] holds.
pub struct PeerPayloadView {
    pub id: Option<Seq<char>>,
    pub alias: Option<Seq<char>>,
    pub tags: Option<Seq<Seq<char>>>,
    pub hash: Option<Seq<char>>,
    pub password: Option<Seq<char>>,
    pub note: Option<Seq<char>>,
    pub username: Option<Seq<char>>,
    pub hostname: Option<Seq<char>>,
    pub platform: Option<Seq<char>>,
}

impl View for PeerPayload {
    type V = PeerPayloadView;

    open spec fn view(&self) -> PeerPayloadView {
        PeerPayloadView {
            id: self.id.deep_view(),
            alias: self.alias.deep_view(),
            tags: self.tags.deep_view(),
            hash: self.hash.deep_view(),
            password: self.password.deep_view(),
            note: self.note.deep_view(),
            username: self.username.deep_view(),
            hostname: self.hostname.deep_view(),
            platform: self.platform.deep_view(),
        }
    }
}

impl DeepView for PeerPayload {
    type V = PeerPayloadView;

    open spec fn deep_view(&self) -> PeerPayloadView {
        self@
    }
}

/// A tag as a client sends it.
#[derive(Debug, Clone)]
pub struct TagPayload {
    pub name: String,
    /// ARGB colour as a 32-bit integer (0xAARRGGBB in decimal).
    pub color: Option<i64>,
}

/// What a [`TagPayload`] holds.
pub struct TagPayloadView {
    pub name: Seq<char>,
    pub color: Option<i64>,
}

impl View for TagPayload {
    type V = TagPayloadView;

    open spec fn view(&self) -> TagPayloadView {
        TagPayloadView {
            name: self.name@,
            color: self.color,
        }
    }
}

impl DeepView for TagPayload {
    type V = TagPayloadView;

    open spec fn deep_view(&self) -> TagPayloadView {
        self@
    }
}

/// A new name for a tag.
#[derive(Debug, Clone)]
pub struct TagRenamePayload {
    pub old: String,
    pub new: String,
}

/// What a [`TagRenamePayload`] holds.
pub struct TagRenamePayloadView {
    pub old: Seq<char>,
    pub new: Seq<char>,
}

impl View for TagRenamePayload {
    type V = TagRenamePayloadView;

    open spec fn view(&self) -> TagRenamePayloadView {
        TagRenamePayloadView {
            old: self.old@,
            new: self.new@,
        }
    }
}

impl DeepView for TagRenamePayload {
    type V = TagRenamePayloadView;

    open spec fn deep_view(&self) -> TagRenamePayloadView {
        self@
    }
}

/// A change of a personal address book.
pub enum Change {
    PeerAdd(PeerPayload),
    PeerUpdate(PeerPayload),
    PeerDelete(Vec<String>),
    TagPut(TagPayload),
    TagRename(TagRenamePayload),
    TagDelete(Vec<String>),
}

/// What a [`Change`] says.
pub enum ChangeView {
    PeerAdd(PeerPayloadView),
    PeerUpdate(PeerPayloadView),
    PeerDelete(Seq<Seq<char>>),
    TagPut(TagPayloadView),
    TagRename(TagRenamePayloadView),
    TagDelete(Seq<Seq<char>>),
}

impl View for Change {
    type V = ChangeView;

    open spec fn view(&self) -> ChangeView {
        match self {
            Change::PeerAdd(payload) => ChangeView::PeerAdd(payload@),
            Change::PeerUpdate(payload) => ChangeView::PeerUpdate(payload@),
            Change::PeerDelete(ids) => ChangeView::PeerDelete(ids.deep_view()),
            Change::TagPut(payload) => ChangeView::TagPut(payload@),
            Change::TagRename(payload) => ChangeView::TagRename(payload@),
            Change::TagDelete(names) => ChangeView::TagDelete(names.deep_view()),
        }
    }
}

/// What an address book is used for.
pub enum BookUse {
    Peers { page: PageQuery, stale_days: i64 },
    Tags,
    Write(Change),
}

/// What a [`BookUse`] says.
pub enum BookUseView {
    Peers { page: PageQueryView, stale_days: i64 },
    Tags,
    Write(ChangeView),
}

impl View for BookUse {
    type V = BookUseView;

    open spec fn view(&self) -> BookUseView {
        match self {
            BookUse::Peers { page, stale_days } => BookUseView::Peers {
                page: page@,
                stale_days: *stale_days,
            },
            BookUse::Tags => BookUseView::Tags,
            BookUse::Write(change) => BookUseView::Write(change@),
        }
    }
}

// ---------------------------------------------------------------------------
// Responses
// ---------------------------------------------------------------------------

/// The response to a change that was carried out.
pub open spec fn ok_empty_view() -> ResponseView {
    ResponseView { status: OK, body: BodyView::Empty }
}

/// Mutations signal success with 200 and an empty body.
pub fn ok_empty() -> (r: Response)
    ensures
        r@ == ok_empty_view(),
{
    Response { status: OK, body: Body::Empty }
}

/// Mutations signal failure with an `{"error": ...}` body, which the client surfaces as a
/// toast. Deliberately not 401: that would log the user out.
pub fn action_error(message: &str) -> (r: Response)
    ensures
        r@ == error_view(OK, message@),
{
    error_json(OK, message)
}

// ---------------------------------------------------------------------------
// Pages
// ---------------------------------------------------------------------------

/// `n` within the positions of a list of `len` items.
pub open spec fn clip(n: int, len: int) -> int {
    if n < 0 {
        0
    } else if n > len {
        len
    } else {
        n
    }
}

/// The query asks for one page rather than for everything: both numbers are given and
/// positive.
pub open spec fn is_paged(q: PageQueryView) -> bool {
    q.current is Some && q.page_size is Some && q.current->0 > 0 && q.page_size->0 > 0
}

/// Where the page that `q` asks for begins. The product wraps where it leaves the range of
/// `i64`.
pub open spec fn page_start(q: PageQueryView) -> int {
    ((q.current->0 - 1) as i64).wrapping_mul(q.page_size->0) as int
}

/// The part of `items` that `q` asks for.
pub open spec fn page_of<T>(items: Seq<T>, q: PageQueryView) -> Seq<T> {
    if is_paged(q) {
        let from = clip(page_start(q), items.len() as int);
        items.subrange(from, clip(from + q.page_size->0, items.len() as int))
    } else {
        items
    }
}

/// Cuts the page that `q` asks for out of `items`; the first result is the number of all
/// items.
pub fn paginate<T>(items: Vec<T>, q: &PageQuery) -> (r: (usize, Vec<T>))
    ensures
        r.0 == items@.len(),
        r.1@ == page_of(items@, q@),
{
    let total: usize = items.len();
    let page_size: i64 = match q.page_size {
        Some(n) => n,
        None => 0,
    };
    let current: i64 = match q.current {
        Some(n) => n,
        None => 0,
    };
    if page_size <= 0 || current <= 0 {
        return (total, items);
    }
    let start: i64 = (current - 1).wrapping_mul(page_size);
    let skip: usize = if start <= 0 {
        0
    } else if start as u64 >= total as u64 {
        total
    } else {
        start as usize
    };
    let mut rest = items;
    let mut page = rest.split_off(skip);
    if (page_size as u64) < page.len() as u64 {
        page.truncate(page_size as usize);
    }
    proof {
        assert(page@ =~= page_of(items@, q@));
    }
    (total, page)
}

/// The page of `items` that `q` asks for, with the number of all items.
pub open spec fn paged(items: Seq<JsonView>, q: PageQueryView) -> JsonView {
    page_view(items.len() as int, page_of(items, q))
}

/// The page of `items` that `q` asks for, with the number of all items.
pub fn paged_json(items: Vec<Json>, q: &PageQuery) -> (r: Json)
    ensures
        r@ == paged(items.deep_view(), q@),
{
    let (total, data) = paginate(items, q);
    proof {
        assert(data.deep_view() =~= page_of(items.deep_view(), q@));
    }
    page(total, data)
}

// ---------------------------------------------------------------------------
// Peers on the wire
// ---------------------------------------------------------------------------

/// A peer as the client's `Peer.fromJson` expects it.
///
/// The mixed casing below (`forceAlwaysRelay` next to `device_group_name`) is the real wire
/// format, not a typo, and `forceAlwaysRelay` is compared against the *string* `"true"` on the
/// client, hence the quoted value.
pub open spec fn peer_view(peer: AbPeerView, tags: JsonView) -> JsonView {
    no_members()
        .with("id"@, JsonView::Text(peer.id))
        .with("username"@, JsonView::Text(peer.username))
        .with("hostname"@, JsonView::Text(peer.hostname))
        .with("platform"@, JsonView::Text(peer.platform))
        .with("alias"@, JsonView::Text(peer.alias))
        .with("tags"@, tags)
        .with("note"@, JsonView::Text(peer.note))
        .with("hash"@, JsonView::Text(peer.hash))
        .with("password"@, JsonView::Text(peer.password))
        .with("forceAlwaysRelay"@, JsonView::Text("false"@))
        .with("rdpPort"@, JsonView::Text(""@))
        .with("rdpUsername"@, JsonView::Text(""@))
        .with("loginName"@, JsonView::Text(""@))
        .with("device_group_name"@, JsonView::Text(""@))
        .with("same_server"@, JsonView::Bool(true))
}

/// Writes a peer for the wire; its stored tag list is not read, `tags` takes its place.
fn peer_json(peer: &AbPeer, tags: Json) -> (r: Json)
    ensures
        r@ == peer_view(peer@, tags@),
{
    object()
        .with("id", text(peer.id.as_str()))
        .with("username", text(peer.username.as_str()))
        .with("hostname", text(peer.hostname.as_str()))
        .with("platform", text(peer.platform.as_str()))
        .with("alias", text(peer.alias.as_str()))
        .with("tags", tags)
        .with("note", text(peer.note.as_str()))
        .with("hash", text(peer.hash.as_str()))
        .with("password", text(peer.password.as_str()))
        .with("forceAlwaysRelay", text("false"))
        .with("rdpPort", text(""))
        .with("rdpUsername", text(""))
        .with("loginName", text(""))
        .with("device_group_name", text(""))
        .with("same_server", Json::Bool(true))
}

/// The stored tag list as the client gets it: the document itself, and an empty list where
/// it is `null` or no JSON.
pub open spec fn tags_view(stored: Seq<char>) -> JsonView {
    if has_value(stored) {
        JsonView::Raw(stored)
    } else {
        JsonView::List(Seq::empty())
    }
}

/// What the client gets for a peer of a personal book.
pub open spec fn stored_peer_view(peer: AbPeerView) -> JsonView {
    peer_view(peer, tags_view(peer.tags))
}

/// What the client gets for a peer of a personal book.
pub fn stored_peer_json(peer: &AbPeer) -> (r: Json)
    ensures
        r@ == stored_peer_view(peer@),
{
    let known = match parse_document(peer.tags.as_str()) {
        Ok(value) => !is_null(&value),
        Err(_) => false,
    };
    peer_with_tags(peer, known)
}

/// Writes a peer for the wire. Its stored tag list is passed on where `known` says that it is
/// a document other than `null`; otherwise the list is empty.
pub fn peer_with_tags(peer: &AbPeer, known: bool) -> (r: Json)
    ensures
        r@ == peer_view(
            peer@,
            if known {
                JsonView::Raw(peer.tags@)
            } else {
                JsonView::List(Seq::empty())
            },
        ),
{
    let tags = if known {
        Json::Raw(peer.tags.clone())
    } else {
        let tags = list(Vec::new());
        proof {
            assert(tags@->List_0 =~= Seq::empty());
        }
        tags
    };
    peer_json(peer, tags)
}

/// The peer that stands for a device: devices carry no alias, tags, note or saved
/// credentials.
pub open spec fn device_peer(device: DeviceView) -> AbPeerView {
    AbPeerView {
        id: device.id,
        alias: Seq::empty(),
        tags: Seq::empty(),
        hash: Seq::empty(),
        password: Seq::empty(),
        note: Seq::empty(),
        username: device.username,
        hostname: device.hostname,
        platform: device.platform,
    }
}

/// What the client gets for a device in the shared book.
pub open spec fn device_peer_view(device: DeviceView) -> JsonView {
    peer_view(device_peer(device), JsonView::List(Seq::empty()))
}

/// Devices come straight from the registration table, so they carry no alias, tags, note or
/// saved credentials: those live in a user's personal book.
pub fn device_peer_json(device: &Device) -> (r: Json)
    ensures
        r@ == device_peer_view(device@),
{
    let peer = AbPeer {
        id: device.id.clone(),
        alias: String::new(),
        tags: String::new(),
        hash: String::new(),
        password: String::new(),
        note: String::new(),
        username: device.username.clone(),
        hostname: device.hostname.clone(),
        platform: device.platform.clone(),
    };
    let tags = list(Vec::new());
    proof {
        assert(tags@->List_0 =~= Seq::empty());
    }
    peer_json(&peer, tags)
}

/// The devices as peers of the shared book, in their order.
pub open spec fn device_peers(devices: Seq<DeviceView>) -> Seq<JsonView> {
    devices.map_values(|d: DeviceView| device_peer_view(d))
}

/// The stored peers as the client gets them, in their order.
pub open spec fn stored_peers(peers: Seq<AbPeerView>) -> Seq<JsonView> {
    peers.map_values(|p: AbPeerView| stored_peer_view(p))
}

/// A tag as the client gets it.
pub open spec fn tag_view(tag: AbTagView) -> JsonView {
    no_members().with("name"@, JsonView::Text(tag.name)).with(
        "color"@,
        JsonView::Int(tag.color as int),
    )
}

/// The tags as the client gets them, in their order.
pub open spec fn tag_views(tags: Seq<AbTagView>) -> Seq<JsonView> {
    tags.map_values(|t: AbTagView| tag_view(t))
}

// ---------------------------------------------------------------------------
// Reads
// ---------------------------------------------------------------------------

/// `POST /api/ab/personal`: returning a guid here is what selects the modern protocol. (A 404
/// would drop the client into legacy mode instead.)
pub fn personal(header: Option<String>) -> (r: Step)
    ensures
        r@ == require_user_view(header.deep_view(), ActionView::Personal),
{
    require_user(header, Action::Personal)
}

/// The response once the guid of the personal book is looked up.
pub open spec fn personal_view(reply: ReplyView) -> ResponseView {
    match reply {
        ReplyView::Guid(guid) => json_view(no_members().with("guid"@, JsonView::Text(guid))),
        _ => error_view(OK, "Internal error"@),
    }
}

/// The response once the guid of the personal book is looked up.
pub fn personal_known(reply: Reply) -> (r: Response)
    ensures
        r@ == personal_view(reply@),
{
    match reply {
        Reply::Guid(guid) => json(object().with("guid", text(guid.as_str()))),
        _ => action_error("Internal error"),
    }
}

/// The address book settings.
pub open spec fn settings_view() -> JsonView {
    no_members().with("max_peer_one_ab"@, JsonView::Int(0))
}

/// The address book settings: `0` means no cap on peers per address book.
pub fn settings_json() -> (r: Json)
    ensures
        r@ == settings_view(),
{
    object().with("max_peer_one_ab", Json::Int(0))
}

/// `POST /api/ab/settings`
pub fn settings(header: Option<String>) -> (r: Step)
    ensures
        r@ == require_user_view(header.deep_view(), ActionView::Settings),
{
    require_user(header, Action::Settings)
}

/// The profile of the shared book. Rule 1 is read-only, 2 read/write, 3 full control.
pub open spec fn profile_view() -> JsonView {
    no_members()
        .with("guid"@, JsonView::Text(SHARED_GUID@))
        .with("name"@, JsonView::Text(SHARED_NAME@))
        .with("owner"@, JsonView::Text("system"@))
        .with(
            "note"@,
            JsonView::Text(
                "Automatically maintained: every workstation registered with this server."@,
            ),
        )
        .with("rule"@, JsonView::Int(1))
        .with("info"@, JsonView::Null)
}

/// The page of shared books that `q` asks for: there is one, the read-only shared book.
pub fn profiles_page(q: &PageQuery) -> (r: Json)
    ensures
        r@ == paged(seq![profile_view()], q@),
{
    let profile = object()
        .with("guid", text(SHARED_GUID))
        .with("name", text(SHARED_NAME))
        .with("owner", text("system"))
        .with(
            "note",
            text("Automatically maintained: every workstation registered with this server."),
        )
        .with("rule", Json::Int(1))
        .with("info", Json::Null);
    let mut profiles: Vec<Json> = Vec::new();
    profiles.push(profile);
    proof {
        assert(profiles.deep_view() =~= seq![profile_view()]);
    }
    paged_json(profiles, q)
}

/// `POST /api/ab/shared/profiles`: the personal book must NOT be listed here; the client
/// prepends it itself.
pub fn shared_profiles(header: Option<String>, page: PageQuery) -> (r: Step)
    ensures
        r@ == require_user_view(header.deep_view(), ActionView::SharedProfiles { page: page@ }),
{
    require_user(header, Action::SharedProfiles { page })
}

/// `POST /api/ab/peers?ab={guid}`: note that `ab` is a query parameter, not a path segment.
pub fn peers(header: Option<String>, page: PageQuery, stale_days: i64) -> (r: Step)
    ensures
        r@ == require_user_view(
            header.deep_view(),
            ActionView::Peers { page: page@, stale_days },
        ),
{
    require_user(header, Action::Peers { page, stale_days })
}

/// An absent or empty `ab` means the personal book.
pub open spec fn peers_view(user_id: i64, page: PageQueryView, stale_days: i64) -> StepView {
    if page.ab is Some && page.ab->0.len() > 0 {
        resolve_view(page.ab->0, user_id, BookUseView::Peers { page, stale_days })
    } else {
        StepView::Ask(
            QueryView::GetOrCreatePersonalAb { user_id },
            PendingView::PersonalPeers { user_id, page, stale_days },
        )
    }
}

/// Finds the book whose peers a user wants to read.
pub fn begin_peers(user_id: i64, page: PageQuery, stale_days: i64) -> (r: Step)
    ensures
        r@ == peers_view(user_id, page@, stale_days),
{
    match &page.ab {
        Some(guid) => {
            if !guid.as_str().is_empty() {
                let guid = guid.clone();
                return resolve_ab(guid, user_id, BookUse::Peers { page, stale_days });
            }
        },
        None => {},
    }
    Step::Ask(
        Query::GetOrCreatePersonalAb { user_id },
        Pending::PersonalPeers { user_id, page, stale_days },
    )
}

/// What follows the look-up of the personal book.
pub open spec fn personal_peers_view(
    user_id: i64,
    page: PageQueryView,
    stale_days: i64,
    reply: ReplyView,
) -> StepView {
    match reply {
        ReplyView::Guid(guid) => resolve_view(
            guid,
            user_id,
            BookUseView::Peers { page, stale_days },
        ),
        _ => StepView::Done(error_view(OK, "Internal error"@)),
    }
}

/// What follows the look-up of the personal book.
pub fn personal_peers_known(user_id: i64, page: PageQuery, stale_days: i64, reply: Reply) -> (r:
    Step)
    ensures
        r@ == personal_peers_view(user_id, page@, stale_days, reply@),
{
    match reply {
        Reply::Guid(guid) => resolve_ab(guid, user_id, BookUse::Peers { page, stale_days }),
        _ => Step::Done(action_error("Internal error")),
    }
}

/// `POST /api/ab/tags/{guid}`: responds with a bare JSON array.
pub fn tags(header: Option<String>, guid: String) -> (r: Step)
    ensures
        r@ == require_user_view(
            header.deep_view(),
            ActionView::Book { guid: guid@, usage: BookUseView::Tags },
        ),
{
    require_user(header, Action::Book { guid, usage: BookUse::Tags })
}

// ---------------------------------------------------------------------------
// Which book a guid refers to
// ---------------------------------------------------------------------------

/// The message for an attempt to change the shared book.
pub open spec fn read_only_message() -> Seq<char> {
    "\"All Workstations\" is read-only; it is maintained automatically"@
}

/// The shared book is read from the devices, carries no tags, and takes no change; any other
/// book has to belong to the user.
pub open spec fn resolve_view(guid: Seq<char>, user_id: i64, usage: BookUseView) -> StepView {
    if guid == SHARED_GUID@ {
        match usage {
            BookUseView::Peers { page, stale_days } => StepView::Ask(
                QueryView::ListDevices { stale_days },
                PendingView::SharedPeers { page },
            ),
            BookUseView::Tags => StepView::Done(json_view(JsonView::List(Seq::empty()))),
            BookUseView::Write(_) => StepView::Done(error_view(OK, read_only_message())),
        }
    } else {
        StepView::Ask(QueryView::OwnsAb { guid, user_id }, PendingView::Ownership { guid, usage })
    }
}

/// Finds out which book `guid` refers to, and whether `usage` is open to the user.
pub fn resolve_ab(guid: String, user_id: i64, usage: BookUse) -> (r: Step)
    ensures
        r@ == resolve_view(guid@, user_id, usage@),
{
    if guid == SHARED_GUID.to_owned() {
        match usage {
            BookUse::Peers { page, stale_days } => Step::Ask(
                Query::ListDevices { stale_days },
                Pending::SharedPeers { page },
            ),
            // The shared book carries no tags; users tag peers in their own book.
            BookUse::Tags => {
                let tags = list(Vec::new());
                proof {
                    assert(tags@->List_0 =~= Seq::empty());
                }
                Step::Done(json(tags))
            },
            BookUse::Write(_) => Step::Done(
                action_error("\"All Workstations\" is read-only; it is maintained automatically"),
            ),
        }
    } else {
        let asked = guid.clone();
        Step::Ask(Query::OwnsAb { guid: asked, user_id }, Pending::Ownership { guid, usage })
    }
}

/// What follows the check that the book belongs to the user.
pub open spec fn ownership_view(guid: Seq<char>, usage: BookUseView, reply: ReplyView) -> StepView {
    match reply {
        ReplyView::Flag(true) => match usage {
            BookUseView::Peers { page, .. } => StepView::Ask(
                QueryView::ListAbPeers { guid },
                PendingView::BookPeers { page },
            ),
            BookUseView::Tags => StepView::Ask(
                QueryView::ListAbTags { guid },
                PendingView::BookTags,
            ),
            BookUseView::Write(change) => change_view(guid, change),
        },
        ReplyView::Flag(false) => StepView::Done(error_view(OK, "Address book not found"@)),
        _ => StepView::Done(error_view(OK, "Internal error"@)),
    }
}

/// What follows the check that the book belongs to the user.
pub fn ownership_known(guid: String, usage: BookUse, reply: Reply) -> (r: Step)
    ensures
        r@ == ownership_view(guid@, usage@, reply@),
{
    match reply {
        Reply::Flag(true) => match usage {
            BookUse::Peers { page, .. } => Step::Ask(
                Query::ListAbPeers { guid },
                Pending::BookPeers { page },
            ),
            BookUse::Tags => Step::Ask(Query::ListAbTags { guid }, Pending::BookTags),
            BookUse::Write(change) => apply_change(guid, change),
        },
        Reply::Flag(false) => Step::Done(action_error("Address book not found")),
        _ => Step::Done(action_error("Internal error")),
    }
}

/// The response that lists the shared book.
pub open spec fn shared_peers_view(page: PageQueryView, reply: ReplyView) -> ResponseView {
    match reply {
        ReplyView::Devices(devices) => json_view(paged(device_peers(devices), page)),
        _ => error_view(OK, "Internal error"@),
    }
}

/// The response that lists the shared book.
pub fn shared_peers_known(page: &PageQuery, reply: Reply) -> (r: Response)
    ensures
        r@ == shared_peers_view(page@, reply@),
{
    match reply {
        Reply::Devices(devices) => {
            let mut items: Vec<Json> = Vec::new();
            let mut i: usize = 0;
            while i < devices.len()
                invariant
                    i <= devices@.len(),
                    items.deep_view() == device_peers(devices.deep_view()).take(i as int),
                decreases devices@.len() - i,
            {
                let ghost before = items.deep_view();
                items.push(device_peer_json(&devices[i]));
                proof {
                    assert(items.deep_view() =~= before.push(device_peer_view(devices@[i as int]@)));
                }
                i = i + 1;
            }
            proof {
                assert(items.deep_view() =~= device_peers(devices.deep_view()));
            }
            json(paged_json(items, page))
        },
        _ => action_error("Internal error"),
    }
}

/// The response that lists the peers of a personal book.
pub open spec fn book_peers_view(page: PageQueryView, reply: ReplyView) -> ResponseView {
    match reply {
        ReplyView::Peers(peers) => json_view(paged(stored_peers(peers), page)),
        _ => error_view(OK, "Internal error"@),
    }
}

/// The response that lists the peers of a personal book.
pub fn book_peers_known(page: &PageQuery, reply: Reply) -> (r: Response)
    ensures
        r@ == book_peers_view(page@, reply@),
{
    match reply {
        Reply::Peers(peers) => {
            let mut items: Vec<Json> = Vec::new();
            let mut i: usize = 0;
            while i < peers.len()
                invariant
                    i <= peers@.len(),
                    items.deep_view() == stored_peers(peers.deep_view()).take(i as int),
                decreases peers@.len() - i,
            {
                let ghost before = items.deep_view();
                items.push(stored_peer_json(&peers[i]));
                proof {
                    assert(items.deep_view() =~= before.push(stored_peer_view(peers@[i as int]@)));
                }
                i = i + 1;
            }
            proof {
                assert(items.deep_view() =~= stored_peers(peers.deep_view()));
            }
            json(paged_json(items, page))
        },
        _ => action_error("Internal error"),
    }
}

/// The response that lists the tags of a personal book.
pub open spec fn book_tags_view(reply: ReplyView) -> ResponseView {
    match reply {
        ReplyView::Tags(tags) => json_view(JsonView::List(tag_views(tags))),
        _ => error_view(OK, "Internal error"@),
    }
}

fn tag_json(tag: &AbTag) -> (r: Json)
    ensures
        r@ == tag_view(tag@),
{
    object().with("name", text(tag.name.as_str())).with("color", Json::Int(tag.color))
}

/// The response that lists the tags of a personal book.
pub fn book_tags_known(reply: Reply) -> (r: Response)
    ensures
        r@ == book_tags_view(reply@),
{
    match reply {
        Reply::Tags(tags) => {
            let mut items: Vec<Json> = Vec::new();
            let mut i: usize = 0;
            while i < tags.len()
                invariant
                    i <= tags@.len(),
                    items.deep_view() == tag_views(tags.deep_view()).take(i as int),
                decreases tags@.len() - i,
            {
                let ghost before = items.deep_view();
                items.push(tag_json(&tags[i]));
                proof {
                    assert(items.deep_view() =~= before.push(tag_view(tags@[i as int]@)));
                }
                i = i + 1;
            }
            proof {
                assert(items.deep_view() =~= tag_views(tags.deep_view()));
            }
            json(list(items))
        },
        _ => action_error("Internal error"),
    }
}

// ---------------------------------------------------------------------------
// Changes
// ---------------------------------------------------------------------------

/// `value`, or the empty text where it was not sent.
pub open spec fn or_empty(value: Option<Seq<char>>) -> Seq<char> {
    or_kept(value, Seq::empty())
}

/// `value`, or `kept` where it was not sent.
pub open spec fn or_kept(value: Option<Seq<char>>, kept: Seq<char>) -> Seq<char> {
    match value {
        Some(s) => s,
        None => kept,
    }
}

fn take_or(value: Option<String>, kept: String) -> (r: String)
    ensures
        r@ == or_kept(value.deep_view(), kept@),
{
    match value {
        Some(s) => s,
        None => kept,
    }
}

/// The payload names a peer.
pub open spec fn has_id(payload: PeerPayloadView) -> bool {
    payload.id is Some && payload.id->0.len() > 0
}

/// The peer that a payload adds: what was not sent is empty.
pub open spec fn added_peer(payload: PeerPayloadView) -> AbPeerView {
    AbPeerView {
        id: or_empty(payload.id),
        alias: or_empty(payload.alias),
        tags: strings_text(
            match payload.tags {
                Some(tags) => tags,
                None => Seq::empty(),
            },
        ),
        hash: or_empty(payload.hash),
        password: or_empty(payload.password),
        note: or_empty(payload.note),
        username: or_empty(payload.username),
        hostname: or_empty(payload.hostname),
        platform: or_empty(payload.platform),
    }
}

/// `existing` after the sparse update `payload`: what was not sent stays.
pub open spec fn updated_peer(existing: AbPeerView, payload: PeerPayloadView) -> AbPeerView {
    AbPeerView {
        id: or_empty(payload.id),
        alias: or_kept(payload.alias, existing.alias),
        tags: match payload.tags {
            Some(tags) => strings_text(tags),
            None => existing.tags,
        },
        hash: or_kept(payload.hash, existing.hash),
        password: or_kept(payload.password, existing.password),
        note: or_kept(payload.note, existing.note),
        username: or_kept(payload.username, existing.username),
        hostname: or_kept(payload.hostname, existing.hostname),
        platform: or_kept(payload.platform, existing.platform),
    }
}

/// The peer that a payload adds.
pub fn peer_to_add(payload: PeerPayload) -> (r: AbPeer)
    ensures
        r@ == added_peer(payload@),
        tags_of(r.tags@) == (match payload@.tags {
            Some(tags) => tags,
            None => Seq::empty(),
        }),
        has_value(r.tags@),
{
    let tags = match payload.tags {
        Some(tags) => tags,
        None => Vec::new(),
    };
    let ghost sent = match payload@.tags {
        Some(tags) => tags,
        None => Seq::empty(),
    };
    proof {
        assert(tags.deep_view() =~= sent);
    }
    AbPeer {
        id: take_or(payload.id, String::new()),
        alias: take_or(payload.alias, String::new()),
        tags: write_tags(&tags),
        hash: take_or(payload.hash, String::new()),
        password: take_or(payload.password, String::new()),
        note: take_or(payload.note, String::new()),
        username: take_or(payload.username, String::new()),
        hostname: take_or(payload.hostname, String::new()),
        platform: take_or(payload.platform, String::new()),
    }
}

/// A stored peer after a sparse update.
pub fn peer_to_update(existing: AbPeer, payload: PeerPayload) -> (r: AbPeer)
    ensures
        r@ == updated_peer(existing@, payload@),
        payload@.tags is Some ==> tags_of(r.tags@) == payload@.tags->0 && has_value(r.tags@),
{
    AbPeer {
        id: take_or(payload.id, String::new()),
        alias: take_or(payload.alias, existing.alias),
        tags: match payload.tags {
            Some(tags) => write_tags(&tags),
            None => existing.tags,
        },
        hash: take_or(payload.hash, existing.hash),
        password: take_or(payload.password, existing.password),
        note: take_or(payload.note, existing.note),
        username: take_or(payload.username, existing.username),
        hostname: take_or(payload.hostname, existing.hostname),
        platform: take_or(payload.platform, existing.platform),
    }
}

/// The colour of a tag for which the client sends none.
pub const DEFAULT_TAG_COLOR: i64 = 4288585374;

/// What a change of the user's own book `guid` leads to.
pub open spec fn change_view(guid: Seq<char>, change: ChangeView) -> StepView {
    match change {
        ChangeView::PeerAdd(payload) => if has_id(payload) {
            StepView::Ask(
                QueryView::PutAbPeer { guid, peer: added_peer(payload) },
                PendingView::Written,
            )
        } else {
            StepView::Done(error_view(OK, "Peer id is required"@))
        },
        ChangeView::PeerUpdate(payload) => if has_id(payload) {
            StepView::Ask(
                QueryView::GetAbPeer { guid, id: payload.id->0 },
                PendingView::ExistingPeer { guid, payload },
            )
        } else {
            StepView::Done(error_view(OK, "Peer id is required"@))
        },
        ChangeView::PeerDelete(ids) => StepView::Ask(
            QueryView::DeleteAbPeers { guid, ids },
            PendingView::Written,
        ),
        ChangeView::TagPut(payload) => if payload.name.len() > 0 {
            StepView::Ask(
                QueryView::PutAbTag {
                    guid,
                    name: payload.name,
                    color: match payload.color {
                        Some(color) => color,
                        None => DEFAULT_TAG_COLOR,
                    },
                },
                PendingView::Written,
            )
        } else {
            StepView::Done(error_view(OK, "Tag name is required"@))
        },
        ChangeView::TagRename(payload) => if payload.old.len() > 0 && payload.new.len() > 0 {
            StepView::Ask(
                QueryView::RenameAbTag { guid, old: payload.old, new: payload.new },
                PendingView::Written,
            )
        } else {
            StepView::Done(error_view(OK, "Both old and new tag names are required"@))
        },
        ChangeView::TagDelete(names) => StepView::Ask(
            QueryView::DeleteAbTags { guid, names },
            PendingView::Written,
        ),
    }
}

/// Starts a change of the user's own book `guid`.
pub fn apply_change(guid: String, change: Change) -> (r: Step)
    ensures
        r@ == change_view(guid@, change@),
{
    match change {
        Change::PeerAdd(payload) => {
            if names_peer(&payload) {
                let peer = peer_to_add(payload);
                Step::Ask(Query::PutAbPeer { guid, peer }, Pending::Written)
            } else {
                Step::Done(action_error("Peer id is required"))
            }
        },
        Change::PeerUpdate(payload) => {
            if names_peer(&payload) {
                let asked = guid.clone();
                let id = take_or(payload.id.clone(), String::new());
                Step::Ask(
                    Query::GetAbPeer { guid: asked, id },
                    Pending::ExistingPeer { guid, payload },
                )
            } else {
                Step::Done(action_error("Peer id is required"))
            }
        },
        Change::PeerDelete(ids) => Step::Ask(Query::DeleteAbPeers { guid, ids }, Pending::Written),
        Change::TagPut(payload) => {
            if payload.name.as_str().is_empty() {
                Step::Done(action_error("Tag name is required"))
            } else {
                let color: i64 = match payload.color {
                    Some(color) => color,
                    None => DEFAULT_TAG_COLOR,
                };
                Step::Ask(Query::PutAbTag { guid, name: payload.name, color }, Pending::Written)
            }
        },
        Change::TagRename(payload) => {
            if payload.old.as_str().is_empty() || payload.new.as_str().is_empty() {
                Step::Done(action_error("Both old and new tag names are required"))
            } else {
                Step::Ask(
                    Query::RenameAbTag { guid, old: payload.old, new: payload.new },
                    Pending::Written,
                )
            }
        },
        Change::TagDelete(names) => Step::Ask(
            Query::DeleteAbTags { guid, names },
            Pending::Written,
        ),
    }
}

fn names_peer(payload: &PeerPayload) -> (r: bool)
    ensures
        r == has_id(payload@),
{
    match &payload.id {
        Some(id) => !id.as_str().is_empty(),
        None => false,
    }
}

/// What follows the look-up of the peer that an update changes. Unknown peers are ignored
/// rather than created.
pub open spec fn existing_view(
    guid: Seq<char>,
    payload: PeerPayloadView,
    reply: ReplyView,
) -> StepView {
    match reply {
        ReplyView::Peer(Some(existing)) => StepView::Ask(
            QueryView::PutAbPeer { guid, peer: updated_peer(existing, payload) },
            PendingView::Written,
        ),
        ReplyView::Peer(None) => StepView::Done(ok_empty_view()),
        _ => StepView::Done(error_view(OK, "Internal error"@)),
    }
}

/// What follows the look-up of the peer that an update changes.
pub fn existing_known(guid: String, payload: PeerPayload, reply: Reply) -> (r: Step)
    ensures
        r@ == existing_view(guid@, payload@, reply@),
{
    match reply {
        Reply::Peer(Some(existing)) => {
            let peer = peer_to_update(existing, payload);
            Step::Ask(Query::PutAbPeer { guid, peer }, Pending::Written)
        },
        Reply::Peer(None) => Step::Done(ok_empty()),
        _ => Step::Done(action_error("Internal error")),
    }
}

/// The response once a change was carried out, or not.
pub open spec fn written_view(reply: ReplyView) -> ResponseView {
    match reply {
        ReplyView::Done => ok_empty_view(),
        _ => error_view(OK, "Internal error"@),
    }
}

/// The response once a change was carried out, or not.
pub fn written(reply: Reply) -> (r: Response)
    ensures
        r@ == written_view(reply@),
{
    match reply {
        Reply::Done => ok_empty(),
        _ => action_error("Internal error"),
    }
}

/// The first step of a change of the book `guid`.
pub open spec fn write_view(
    header: Option<Seq<char>>,
    guid: Seq<char>,
    change: ChangeView,
) -> StepView {
    require_user_view(header, ActionView::Book { guid, usage: BookUseView::Write(change) })
}

/// `POST /api/ab/peer/add/{guid}`: one peer per request.
pub fn peer_add(header: Option<String>, guid: String, payload: PeerPayload) -> (r: Step)
    ensures
        r@ == write_view(header.deep_view(), guid@, ChangeView::PeerAdd(payload@)),
{
    require_user(header, Action::Book { guid, usage: BookUse::Write(Change::PeerAdd(payload)) })
}

/// `PUT /api/ab/peer/update/{guid}`: a *sparse* update keyed on `id`; only the changed fields
/// are sent. Unknown peers are ignored rather than created, matching the client's assumption
/// that it only updates peers already present.
pub fn peer_update(header: Option<String>, guid: String, payload: PeerPayload) -> (r: Step)
    ensures
        r@ == write_view(header.deep_view(), guid@, ChangeView::PeerUpdate(payload@)),
{
    require_user(header, Action::Book { guid, usage: BookUse::Write(Change::PeerUpdate(payload)) })
}

/// `DELETE /api/ab/peer/{guid}`: the body is a bare array of peer ids.
pub fn peer_delete(header: Option<String>, guid: String, ids: Vec<String>) -> (r: Step)
    ensures
        r@ == write_view(header.deep_view(), guid@, ChangeView::PeerDelete(ids.deep_view())),
{
    require_user(header, Action::Book { guid, usage: BookUse::Write(Change::PeerDelete(ids)) })
}

/// `POST /api/ab/tag/add/{guid}` and `PUT /api/ab/tag/update/{guid}`: add creates, update
/// repaints; an upsert serves both.
pub fn tag_put(header: Option<String>, guid: String, payload: TagPayload) -> (r: Step)
    ensures
        r@ == write_view(header.deep_view(), guid@, ChangeView::TagPut(payload@)),
{
    require_user(header, Action::Book { guid, usage: BookUse::Write(Change::TagPut(payload)) })
}

/// `PUT /api/ab/tag/rename/{guid}`
pub fn tag_rename(header: Option<String>, guid: String, payload: TagRenamePayload) -> (r: Step)
    ensures
        r@ == write_view(header.deep_view(), guid@, ChangeView::TagRename(payload@)),
{
    require_user(header, Action::Book { guid, usage: BookUse::Write(Change::TagRename(payload)) })
}

/// `DELETE /api/ab/tag/{guid}`: the body is a bare array of tag names.
pub fn tag_delete(header: Option<String>, guid: String, names: Vec<String>) -> (r: Step)
    ensures
        r@ == write_view(header.deep_view(), guid@, ChangeView::TagDelete(names.deep_view())),
{
    require_user(header, Action::Book { guid, usage: BookUse::Write(Change::TagDelete(names)) })
}

} // verus!
