//! Logging in and out.

use crate::api::{
    error_json, error_view, json, json_view, require_user, require_user_view, Action, ActionView,
    Pending, PendingView, Response, ResponseView, Step, StepView, INTERNAL_SERVER_ERROR, OK,
};
use crate::auth::{bearer_token, password_accepted, token_of, verify_password};
use crate::db::{payload_view, User, UserView};
use crate::json::{list, no_members, object, text, JsonView};
use crate::query::{Query, QueryView, Reply, ReplyView};
use vstd::prelude::*;

verus! {

/// What a client sends to log in.
#[derive(Debug, Clone)]
pub struct LoginRequest {
    pub username: Option<String>,
    pub password: Option<String>,
    /// The RustDesk ID of the machine performing the login.
    pub id: Option<String>,
    pub uuid: Option<String>,
}

/// What a [`LoginRequest`] holds.
pub struct LoginRequestView {
    pub username: Option<Seq<char>>,
    pub password: Option<Seq<char>>,
    pub id: Option<Seq<char>>,
    pub uuid: Option<Seq<char>>,
}

impl View for LoginRequest {
    type V = LoginRequestView;

    open spec fn view(&self) -> LoginRequestView {
        LoginRequestView {
            username: self.username.deep_view(),
            password: self.password.deep_view(),
            id: self.id.deep_view(),
            uuid: self.uuid.deep_view(),
        }
    }
}

impl DeepView for LoginRequest {
    type V = LoginRequestView;

    open spec fn deep_view(&self) -> LoginRequestView {
        self@
    }
}

/// Login failures are returned as HTTP 200 with an `{"error": ...}` body.
///
/// The client checks `body['error']` on 200 responses as well as on failures, so this displays
/// the message correctly, and it avoids any chance of a 401 on the login path being confused
/// with the session-expiry 401 handling.
pub fn login_error(message: &str) -> (r: Response)
    ensures
        r@ == error_view(OK, message@),
{
    error_json(OK, message)
}

fn or_empty(value: Option<String>) -> (r: String)
    ensures
        r@ == crate::api::ab::or_empty(value.deep_view()),
{
    match value {
        Some(s) => s,
        None => String::new(),
    }
}

/// The first step of a login, for a session of `ttl` seconds.
pub open spec fn login_view(req: LoginRequestView, ttl: u64) -> StepView {
    let username = crate::api::ab::or_empty(req.username);
    let password = crate::api::ab::or_empty(req.password);
    if username.len() == 0 || password.len() == 0 {
        StepView::Done(error_view(OK, "Username and password are required"@))
    } else {
        StepView::Ask(
            QueryView::FindUserByName { name: username },
            PendingView::LoginUser {
                password,
                device_id: crate::api::ab::or_empty(req.id),
                device_uuid: crate::api::ab::or_empty(req.uuid),
                ttl,
            },
        )
    }
}

/// `POST /api/login`, where `ttl` is how many seconds a session lasts.
pub fn login(req: LoginRequest, ttl: u64) -> (r: Step)
    ensures
        r@ == login_view(req@, ttl),
{
    let username = or_empty(req.username);
    let password = or_empty(req.password);
    if username.as_str().is_empty() || password.as_str().is_empty() {
        return Step::Done(login_error("Username and password are required"));
    }
    Step::Ask(
        Query::FindUserByName { name: username },
        Pending::LoginUser {
            password,
            device_id: or_empty(req.id),
            device_uuid: or_empty(req.uuid),
            ttl,
        },
    )
}

/// What a user gets whose password was compared with the stored hash; `token` is the token
/// of the session to open.
pub open spec fn login_verified_view(
    user: UserView,
    matches: bool,
    device_id: Seq<char>,
    device_uuid: Seq<char>,
    ttl: u64,
    token: Seq<char>,
) -> StepView {
    if !matches {
        StepView::Done(error_view(OK, "Wrong username or password"@))
    } else if user.status == 0 {
        StepView::Done(error_view(OK, "Account is disabled"@))
    } else {
        StepView::Ask(
            QueryView::CreateToken { token, user_id: user.id, device_id, device_uuid, ttl },
            PendingView::LoginToken { token, user },
        )
    }
}

/// What a user gets whose password was compared with the stored hash.
pub fn login_verified(
    user: User,
    matches: bool,
    device_id: String,
    device_uuid: String,
    ttl: u64,
    token: String,
) -> (r: Step)
    ensures
        r@ == login_verified_view(user@, matches, device_id@, device_uuid@, ttl, token@),
{
    if !matches {
        Step::Done(login_error("Wrong username or password"))
    } else if user.status == 0 {
        Step::Done(login_error("Account is disabled"))
    } else {
        let stored = token.clone();
        Step::Ask(
            Query::CreateToken { token: stored, user_id: user.id, device_id, device_uuid, ttl },
            Pending::LoginToken { token, user },
        )
    }
}

/// What follows the look-up of the account that wants to log in.
pub open spec fn login_user_view(
    password: Seq<char>,
    device_id: Seq<char>,
    device_uuid: Seq<char>,
    ttl: u64,
    reply: ReplyView,
    token: Seq<char>,
) -> StepView {
    match reply {
        ReplyView::User(Some(user)) => login_verified_view(
            user,
            password_accepted(password, user.password_hash),
            device_id,
            device_uuid,
            ttl,
            token,
        ),
        ReplyView::User(None) => StepView::Done(error_view(OK, "Wrong username or password"@)),
        _ => StepView::Done(error_view(INTERNAL_SERVER_ERROR, "Internal error"@)),
    }
}

/// What follows the look-up of the account that wants to log in.
pub fn login_user_known(
    password: String,
    device_id: String,
    device_uuid: String,
    ttl: u64,
    reply: Reply,
    token: String,
) -> (r: Step)
    ensures
        r@ == login_user_view(password@, device_id@, device_uuid@, ttl, reply@, token@),
{
    match reply {
        Reply::User(Some(user)) => {
            let matches = verify_password(password.as_str(), user.password_hash.as_str());
            login_verified(user, matches, device_id, device_uuid, ttl, token)
        },
        Reply::User(None) => Step::Done(login_error("Wrong username or password")),
        _ => Step::Done(error_json(INTERNAL_SERVER_ERROR, "Internal error")),
    }
}

/// The response to a login whose session was to be stored.
pub open spec fn login_token_view(
    token: Seq<char>,
    user: UserView,
    reply: ReplyView,
) -> ResponseView {
    match reply {
        ReplyView::Done => json_view(
            no_members()
                .with("access_token"@, JsonView::Text(token))
                .with("type"@, JsonView::Text("access_token"@))
                .with("user"@, payload_view(user)),
        ),
        _ => error_view(INTERNAL_SERVER_ERROR, "Internal error"@),
    }
}

/// The response to a login whose session was to be stored. `type` must be exactly
/// "access_token": the client checks it verbatim.
pub fn login_token_stored(token: String, user: User, reply: Reply) -> (r: Response)
    ensures
        r@ == login_token_view(token@, user@, reply@),
{
    match reply {
        Reply::Done => json(
            object()
                .with("access_token", text(token.as_str()))
                .with("type", text("access_token"))
                .with("user", user.payload()),
        ),
        _ => error_json(INTERNAL_SERVER_ERROR, "Internal error"),
    }
}

/// `POST /api/currentUser`: returns a *bare* user payload, not wrapped in a `user` key.
pub fn current_user(header: Option<String>) -> (r: Step)
    ensures
        r@ == require_user_view(header.deep_view(), ActionView::CurrentUser),
{
    require_user(header, Action::CurrentUser)
}

/// The first step of a logout.
pub open spec fn logout_view(header: Option<Seq<char>>) -> StepView {
    match token_of(header) {
        Some(token) => StepView::Ask(QueryView::DeleteToken { token }, PendingView::LoggedOut),
        None => StepView::Done(json_view(no_members())),
    }
}

/// `POST /api/logout`: the client ignores the body and resets local state regardless of the
/// outcome, and gives up after 2 seconds. Keep it cheap.
pub fn logout(header: Option<String>) -> (r: Step)
    ensures
        r@ == logout_view(header.deep_view()),
{
    match bearer_token(header) {
        Some(token) => Step::Ask(Query::DeleteToken { token }, Pending::LoggedOut),
        None => Step::Done(json(object())),
    }
}

/// `GET /api/login-options`: no OIDC/SSO providers are offered, so the list is empty.
pub fn login_options() -> (r: Response)
    ensures
        r@ == json_view(JsonView::List(Seq::empty())),
{
    let options = list(Vec::new());
    proof {
        assert(options@->List_0 =~= Seq::empty());
    }
    json(options)
}

} // verus!
