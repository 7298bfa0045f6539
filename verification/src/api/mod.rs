//! The HTTP interface, as a sequence of decisions.
//!
//! Answering a request takes turns between this library and the database. Every endpoint is a
//! function that returns the first [`Step`]: either the response, or a [`Query`] together with
//! a [`Pending`] state. Whoever runs the server carries the query out and hands the reply to
//! [`resume`], which returns the next step.

pub mod ab;
pub mod device;
pub mod group;
pub mod misc;
pub mod router;
pub mod user;

use crate::api::ab::{BookUse, BookUseView, PageQuery, PageQueryView, PeerPayload, PeerPayloadView};
use crate::auth::{bearer_token, generate_token, token_of};
use crate::db::{is_hex, User, UserView};
use crate::json::{no_members, object, text, Json, JsonView};
use crate::query::{Query, QueryView, Reply, ReplyView};
use vstd::prelude::*;

verus! {

// ---------------------------------------------------------------------------
// Responses
// ---------------------------------------------------------------------------

/// The body of a response.
pub enum Body {
    /// No bytes at all.
    Empty,
    /// Plain text.
    Text(String),
    Json(Json),
}

/// What a [`Body`] says.
pub enum BodyView {
    Empty,
    Text(Seq<char>),
    Json(JsonView),
}

impl View for Body {
    type V = BodyView;

    open spec fn view(&self) -> BodyView {
        match self {
            Body::Empty => BodyView::Empty,
            Body::Text(s) => BodyView::Text(s@),
            Body::Json(j) => BodyView::Json(j@),
        }
    }
}

/// An HTTP response.
pub struct Response {
    pub status: u16,
    pub body: Body,
}

/// What a [`Response`] says.
pub struct ResponseView {
    pub status: u16,
    pub body: BodyView,
}

impl View for Response {
    type V = ResponseView;

    open spec fn view(&self) -> ResponseView {
        ResponseView { status: self.status, body: self.body@ }
    }
}

/// The request was served.
pub const OK: u16 = 200;

/// The session is not valid (any more): the client drops its token and logs out.
pub const UNAUTHORIZED: u16 = 401;

/// There is no such endpoint.
pub const NOT_FOUND: u16 = 404;

/// The database let the server down.
pub const INTERNAL_SERVER_ERROR: u16 = 500;

/// A JSON response with status 200.
pub open spec fn json_view(body: JsonView) -> ResponseView {
    ResponseView { status: OK, body: BodyView::Json(body) }
}

/// A JSON response with status 200.
pub fn json(body: Json) -> (r: Response)
    ensures
        r@ == json_view(body@),
{
    Response { status: OK, body: Body::Json(body) }
}

/// A plain text response with status 200.
pub open spec fn plain_view(body: Seq<char>) -> ResponseView {
    ResponseView { status: OK, body: BodyView::Text(body) }
}

/// A plain text response with status 200.
pub fn plain(body: &str) -> (r: Response)
    ensures
        r@ == plain_view(body@),
{
    Response { status: OK, body: Body::Text(body.to_owned()) }
}

/// A response with an `error` message.
pub open spec fn error_view(status: u16, message: Seq<char>) -> ResponseView {
    ResponseView {
        status,
        body: BodyView::Json(no_members().with("error"@, JsonView::Text(message))),
    }
}

/// The client expects `{"error": "..."}` with a string value, and the body must be valid JSON
/// even on failure: a body that is no JSON makes the client throw during decode, leaving the
/// user with a bare HTTP status.
pub fn error_json(status: u16, message: &str) -> (r: Response)
    ensures
        r@ == error_view(status, message@),
{
    Response { status, body: Body::Json(object().with("error", text(message))) }
}

// ---------------------------------------------------------------------------
// Steps
// ---------------------------------------------------------------------------

/// What a user asks for, once it is known who they are.
pub enum Action {
    CurrentUser,
    Personal,
    Settings,
    SharedProfiles { page: PageQuery },
    /// Read peers, from the book that the query names or from the personal one.
    Peers { page: PageQuery, stale_days: i64 },
    /// Work with the address book `guid`.
    Book { guid: String, usage: BookUse },
    DeviceGroups { page: PageQuery },
    Users,
    Accessible { page: PageQuery, stale_days: i64 },
}

/// What an [`Action`] says.
pub enum ActionView {
    CurrentUser,
    Personal,
    Settings,
    SharedProfiles { page: PageQueryView },
    Peers { page: PageQueryView, stale_days: i64 },
    Book { guid: Seq<char>, usage: BookUseView },
    DeviceGroups { page: PageQueryView },
    Users,
    Accessible { page: PageQueryView, stale_days: i64 },
}

impl View for Action {
    type V = ActionView;

    open spec fn view(&self) -> ActionView {
        match self {
            Action::CurrentUser => ActionView::CurrentUser,
            Action::Personal => ActionView::Personal,
            Action::Settings => ActionView::Settings,
            Action::SharedProfiles { page } => ActionView::SharedProfiles { page: page@ },
            Action::Peers { page, stale_days } => ActionView::Peers {
                page: page@,
                stale_days: *stale_days,
            },
            Action::Book { guid, usage } => ActionView::Book { guid: guid@, usage: usage@ },
            Action::DeviceGroups { page } => ActionView::DeviceGroups { page: page@ },
            Action::Users => ActionView::Users,
            Action::Accessible { page, stale_days } => ActionView::Accessible {
                page: page@,
                stale_days: *stale_days,
            },
        }
    }
}

/// What an endpoint waits for.
pub enum Pending {
    /// The account behind the session token.
    Session { action: Action },
    /// The guid of the personal book, to report it.
    PersonalGuid,
    /// The guid of the personal book, to list its peers.
    PersonalPeers { user_id: i64, page: PageQuery, stale_days: i64 },
    /// Whether the book belongs to the user.
    Ownership { guid: String, usage: BookUse },
    /// The workstations, to list them as the shared book.
    SharedPeers { page: PageQuery },
    /// The peers of a personal book.
    BookPeers { page: PageQuery },
    /// The tags of a personal book.
    BookTags,
    /// The stored peer that an update changes.
    ExistingPeer { guid: String, payload: PeerPayload },
    /// That a change of a book was carried out.
    Written,
    /// The workstations, to list them as accessible devices.
    AccessiblePeers { page: PageQuery },
    /// The account that wants to log in.
    LoginUser { password: String, device_id: String, device_uuid: String, ttl: u64 },
    /// That the new session was stored.
    LoginToken { token: String, user: User },
    /// That the session was closed.
    LoggedOut,
    /// That the workstation was registered.
    Registered,
    /// Whether the workstation is known.
    Touched,
    /// The workstations, to count them.
    HealthCount,
}

/// What a [`Pending`] says.
pub enum PendingView {
    Session { action: ActionView },
    PersonalGuid,
    PersonalPeers { user_id: i64, page: PageQueryView, stale_days: i64 },
    Ownership { guid: Seq<char>, usage: BookUseView },
    SharedPeers { page: PageQueryView },
    BookPeers { page: PageQueryView },
    BookTags,
    ExistingPeer { guid: Seq<char>, payload: PeerPayloadView },
    Written,
    AccessiblePeers { page: PageQueryView },
    LoginUser { password: Seq<char>, device_id: Seq<char>, device_uuid: Seq<char>, ttl: u64 },
    LoginToken { token: Seq<char>, user: UserView },
    LoggedOut,
    Registered,
    Touched,
    HealthCount,
}

impl View for Pending {
    type V = PendingView;

    open spec fn view(&self) -> PendingView {
        match self {
            Pending::Session { action } => PendingView::Session { action: action@ },
            Pending::PersonalGuid => PendingView::PersonalGuid,
            Pending::PersonalPeers { user_id, page, stale_days } => PendingView::PersonalPeers {
                user_id: *user_id,
                page: page@,
                stale_days: *stale_days,
            },
            Pending::Ownership { guid, usage } => PendingView::Ownership {
                guid: guid@,
                usage: usage@,
            },
            Pending::SharedPeers { page } => PendingView::SharedPeers { page: page@ },
            Pending::BookPeers { page } => PendingView::BookPeers { page: page@ },
            Pending::BookTags => PendingView::BookTags,
            Pending::ExistingPeer { guid, payload } => PendingView::ExistingPeer {
                guid: guid@,
                payload: payload@,
            },
            Pending::Written => PendingView::Written,
            Pending::AccessiblePeers { page } => PendingView::AccessiblePeers { page: page@ },
            Pending::LoginUser { password, device_id, device_uuid, ttl } => PendingView::LoginUser {
                password: password@,
                device_id: device_id@,
                device_uuid: device_uuid@,
                ttl: *ttl,
            },
            Pending::LoginToken { token, user } => PendingView::LoginToken {
                token: token@,
                user: user@,
            },
            Pending::LoggedOut => PendingView::LoggedOut,
            Pending::Registered => PendingView::Registered,
            Pending::Touched => PendingView::Touched,
            Pending::HealthCount => PendingView::HealthCount,
        }
    }
}

/// Where an endpoint stands: answered, or waiting for the database.
pub enum Step {
    Done(Response),
    Ask(Query, Pending),
}

/// What a [`Step`] says.
pub enum StepView {
    Done(ResponseView),
    Ask(QueryView, PendingView),
}

impl View for Step {
    type V = StepView;

    open spec fn view(&self) -> StepView {
        match self {
            Step::Done(response) => StepView::Done(response@),
            Step::Ask(query, pending) => StepView::Ask(query@, pending@),
        }
    }
}

// ---------------------------------------------------------------------------
// Sessions
// ---------------------------------------------------------------------------

/// An endpoint for logged-in users starts by looking the session token up.
pub open spec fn require_user_view(header: Option<Seq<char>>, action: ActionView) -> StepView {
    match token_of(header) {
        Some(token) => StepView::Ask(
            QueryView::UserForToken { token },
            PendingView::Session { action },
        ),
        None => StepView::Done(error_view(UNAUTHORIZED, "Not authenticated"@)),
    }
}

/// Resolves the bearer token to a user and goes on with `action`, or answers right away.
///
/// 401 here is deliberate and load-bearing: on 401 the client wipes its token and logs the
/// user out, which is exactly right for an expired or unknown token. Never use 401 for mere
/// permission failures.
pub fn require_user(header: Option<String>, action: Action) -> (r: Step)
    ensures
        r@ == require_user_view(header.deep_view(), action@),
{
    match bearer_token(header) {
        Some(token) => Step::Ask(Query::UserForToken { token }, Pending::Session { action }),
        None => Step::Done(error_json(UNAUTHORIZED, "Not authenticated")),
    }
}

/// What follows the look-up of a session token.
pub open spec fn session_view(action: ActionView, reply: ReplyView) -> StepView {
    match reply {
        ReplyView::User(Some(user)) => if user.status != 0 {
            begin_view(user, action)
        } else {
            StepView::Done(error_view(UNAUTHORIZED, "Account is disabled"@))
        },
        ReplyView::User(None) => StepView::Done(error_view(UNAUTHORIZED, "Invalid token"@)),
        _ => StepView::Done(error_view(INTERNAL_SERVER_ERROR, "Internal error"@)),
    }
}

/// What follows the look-up of a session token.
pub fn session_known(action: Action, reply: Reply) -> (r: Step)
    ensures
        r@ == session_view(action@, reply@),
{
    match reply {
        Reply::User(Some(user)) => if user.status != 0 {
            begin(user, action)
        } else {
            Step::Done(error_json(UNAUTHORIZED, "Account is disabled"))
        },
        Reply::User(None) => Step::Done(error_json(UNAUTHORIZED, "Invalid token")),
        _ => Step::Done(error_json(INTERNAL_SERVER_ERROR, "Internal error")),
    }
}

/// What `user`, who is logged in, gets for `action`.
pub open spec fn begin_view(user: UserView, action: ActionView) -> StepView {
    match action {
        ActionView::CurrentUser => StepView::Done(json_view(crate::db::payload_view(user))),
        ActionView::Personal => StepView::Ask(
            QueryView::GetOrCreatePersonalAb { user_id: user.id },
            PendingView::PersonalGuid,
        ),
        ActionView::Settings => StepView::Done(json_view(ab::settings_view())),
        ActionView::SharedProfiles { page } => StepView::Done(
            json_view(ab::paged(seq![ab::profile_view()], page)),
        ),
        ActionView::Peers { page, stale_days } => ab::peers_view(user.id, page, stale_days),
        ActionView::Book { guid, usage } => ab::resolve_view(guid, user.id, usage),
        ActionView::DeviceGroups { page } => StepView::Done(
            json_view(ab::paged(seq![group::group_view()], page)),
        ),
        ActionView::Users => StepView::Done(json_view(crate::json::page_view(0, Seq::empty()))),
        ActionView::Accessible { page, stale_days } => StepView::Ask(
            QueryView::ListDevices { stale_days },
            PendingView::AccessiblePeers { page },
        ),
    }
}

/// What `user`, who is logged in, gets for `action`.
pub fn begin(user: User, action: Action) -> (r: Step)
    ensures
        r@ == begin_view(user@, action@),
{
    match action {
        Action::CurrentUser => Step::Done(json(user.payload())),
        Action::Personal => Step::Ask(
            Query::GetOrCreatePersonalAb { user_id: user.id },
            Pending::PersonalGuid,
        ),
        Action::Settings => Step::Done(json(ab::settings_json())),
        Action::SharedProfiles { page } => Step::Done(json(ab::profiles_page(&page))),
        Action::Peers { page, stale_days } => ab::begin_peers(user.id, page, stale_days),
        Action::Book { guid, usage } => ab::resolve_ab(guid, user.id, usage),
        Action::DeviceGroups { page } => Step::Done(json(group::groups_page(&page))),
        Action::Users => Step::Done(json(group::no_users())),
        Action::Accessible { page, stale_days } => Step::Ask(
            Query::ListDevices { stale_days },
            Pending::AccessiblePeers { page },
        ),
    }
}

// ---------------------------------------------------------------------------
// Going on
// ---------------------------------------------------------------------------

/// The step that follows `reply`, where `token` is the session token drawn for a login. A
/// reply of a kind that was not asked for counts as a failure.
pub open spec fn next(pending: PendingView, reply: ReplyView, token: Seq<char>) -> StepView {
    match pending {
        PendingView::Session { action } => session_view(action, reply),
        PendingView::PersonalGuid => StepView::Done(ab::personal_view(reply)),
        PendingView::PersonalPeers { user_id, page, stale_days } => ab::personal_peers_view(
            user_id,
            page,
            stale_days,
            reply,
        ),
        PendingView::Ownership { guid, usage } => ab::ownership_view(guid, usage, reply),
        PendingView::SharedPeers { page } => StepView::Done(ab::shared_peers_view(page, reply)),
        PendingView::BookPeers { page } => StepView::Done(ab::book_peers_view(page, reply)),
        PendingView::BookTags => StepView::Done(ab::book_tags_view(reply)),
        PendingView::ExistingPeer { guid, payload } => ab::existing_view(guid, payload, reply),
        PendingView::Written => StepView::Done(ab::written_view(reply)),
        PendingView::AccessiblePeers { page } => StepView::Done(
            group::accessible_view(page, reply),
        ),
        PendingView::LoginUser { password, device_id, device_uuid, ttl } => user::login_user_view(
            password,
            device_id,
            device_uuid,
            ttl,
            reply,
            token,
        ),
        PendingView::LoginToken { token: issued, user } => StepView::Done(
            user::login_token_view(issued, user, reply),
        ),
        PendingView::LoggedOut => StepView::Done(json_view(no_members())),
        PendingView::Registered => StepView::Done(device::registered_view(reply)),
        PendingView::Touched => StepView::Done(device::touched_view(reply)),
        PendingView::HealthCount => StepView::Done(misc::health_view(reply)),
    }
}

/// The step that follows `reply`, where `token` is the session token drawn for a login.
pub fn advance(pending: Pending, reply: Reply, token: String) -> (r: Step)
    ensures
        r@ == next(pending@, reply@, token@),
{
    match pending {
        Pending::Session { action } => session_known(action, reply),
        Pending::PersonalGuid => Step::Done(ab::personal_known(reply)),
        Pending::PersonalPeers { user_id, page, stale_days } => ab::personal_peers_known(
            user_id,
            page,
            stale_days,
            reply,
        ),
        Pending::Ownership { guid, usage } => ab::ownership_known(guid, usage, reply),
        Pending::SharedPeers { page } => Step::Done(ab::shared_peers_known(&page, reply)),
        Pending::BookPeers { page } => Step::Done(ab::book_peers_known(&page, reply)),
        Pending::BookTags => Step::Done(ab::book_tags_known(reply)),
        Pending::ExistingPeer { guid, payload } => ab::existing_known(guid, payload, reply),
        Pending::Written => Step::Done(ab::written(reply)),
        Pending::AccessiblePeers { page } => Step::Done(group::accessible_known(&page, reply)),
        Pending::LoginUser { password, device_id, device_uuid, ttl } => user::login_user_known(
            password,
            device_id,
            device_uuid,
            ttl,
            reply,
            token,
        ),
        Pending::LoginToken { token: issued, user } => Step::Done(
            user::login_token_stored(issued, user, reply),
        ),
        Pending::LoggedOut => Step::Done(json(object())),
        Pending::Registered => Step::Done(device::registered(reply)),
        Pending::Touched => Step::Done(device::touched(reply)),
        Pending::HealthCount => Step::Done(misc::health_known(reply)),
    }
}

/// The step that follows `reply`. A login that gets through draws a fresh session token.
pub fn resume(pending: Pending, reply: Reply) -> (r: Step)
    ensures
        pending@ is LoginUser ==> exists|token: Seq<char>|
            is_hex(token, 64) && r@ == #[trigger] next(pending@, reply@, token),
        !(pending@ is LoginUser) ==> r@ == next(pending@, reply@, Seq::empty()),
{
    let token = match pending {
        Pending::LoginUser { .. } => generate_token(),
        _ => String::new(),
    };
    advance(pending, reply, token)
}

} // verus!
