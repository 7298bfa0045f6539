//! Logging in, staying logged in, and being logged out.

use crate::api::ab::or_empty;
use crate::api::user::{login_token_view, login_view, logout_view, LoginRequestView};
use crate::api::{
    error_view, json_view, require_user_view, ActionView, ResponseView, OK, UNAUTHORIZED,
};
use crate::auth::{password_accepted, token_of};
use crate::db::{new_token_view, payload_view};
use crate::json::no_members;
use crate::query::{QueryView, ReplyView};
use crate::tables::{answered, served, with_password, without_user, Tables};
use vstd::prelude::*;

verus! {

/// What a login asks for: both a name and a password are given.
pub open spec fn is_complete(req: LoginRequestView) -> bool {
    or_empty(req.username).len() > 0 && or_empty(req.password).len() > 0
}

/// Someone who gives the name of an account that is not disabled, in upper or lower case, and
/// a password that matches, is logged in: the response carries the token of a new session,
/// and the session belongs to the account from then on for as long as sessions last.
pub proof fn law_login_opens_session(
    req: LoginRequestView,
    ttl: u64,
    times: Seq<i64>,
    token: Seq<char>,
    before: Tables,
    response: ResponseView,
    after: Tables,
    id: i64,
)
    requires
        before.valid(),
        answered(login_view(req, ttl), times, token, before, response, after),
        is_complete(req),
        before.named(id, or_empty(req.username)),
        password_accepted(or_empty(req.password), before.users[id].password_hash),
        before.users[id].status != 0,
        !before.tokens.contains_key(token),
    ensures
        response == login_token_view(token, before.users[id], ReplyView::Done),
        times.len() == 2,
        after == (Tables {
            tokens: before.tokens.insert(
                token,
                new_token_view(
                    token,
                    id,
                    or_empty(req.id),
                    or_empty(req.uuid),
                    ttl,
                    times[1],
                ),
            ),
            ..before
        }),
{
    reveal_with_fuel(answered, 4);
    assert(before.is_taken(or_empty(req.username)));
}

/// A wrong password and an unknown name are answered alike, and neither opens a session.
pub proof fn law_login_refused(
    req: LoginRequestView,
    ttl: u64,
    times: Seq<i64>,
    token: Seq<char>,
    before: Tables,
    response: ResponseView,
    after: Tables,
)
    requires
        before.valid(),
        answered(login_view(req, ttl), times, token, before, response, after),
        is_complete(req),
        forall|id: i64| #[trigger]
            before.named(id, or_empty(req.username)) ==> !password_accepted(
                or_empty(req.password),
                before.users[id].password_hash,
            ),
    ensures
        response == error_view(OK, "Wrong username or password"@),
        after == before,
{
    reveal_with_fuel(answered, 4);
}

/// A disabled account cannot log in, not even with the right password.
pub proof fn law_disabled_account_cannot_log_in(
    req: LoginRequestView,
    ttl: u64,
    times: Seq<i64>,
    token: Seq<char>,
    before: Tables,
    response: ResponseView,
    after: Tables,
    id: i64,
)
    requires
        before.valid(),
        answered(login_view(req, ttl), times, token, before, response, after),
        before.named(id, or_empty(req.username)),
        before.users[id].status == 0,
    ensures
        after == before,
        is_complete(req) && password_accepted(
            or_empty(req.password),
            before.users[id].password_hash,
        ) ==> response == error_view(OK, "Account is disabled"@),
{
    reveal_with_fuel(answered, 4);
    assert(before.is_taken(or_empty(req.username)));
}

/// A session that is opened at `issued` for `ttl` seconds is valid until then and no longer,
/// as long as that time can be counted.
pub proof fn law_session_lasts_its_time(
    before: Tables,
    token: Seq<char>,
    user_id: i64,
    device_id: Seq<char>,
    device_uuid: Seq<char>,
    ttl: u64,
    issued: i64,
    reply: ReplyView,
    after: Tables,
    now: i64,
)
    requires
        before.valid(),
        served(
            before,
            QueryView::CreateToken { token, user_id, device_id, device_uuid, ttl },
            issued,
            reply,
            after,
        ),
        reply == ReplyView::Done,
        issued + ttl <= i64::MAX,
        ttl <= i64::MAX,
    ensures
        now < issued + ttl ==> after.session(token, now) == Some(before.users[user_id]),
        now >= issued + ttl ==> after.session(token, now) is None,
{
}

/// The header that a client sends with the token of its session.
pub open spec fn bearer(token: Seq<char>) -> Option<Seq<char>> {
    Some("Bearer "@ + token)
}

/// The token in the header of a client is the token it was given.
pub proof fn law_bearer_round_trip(token: Seq<char>)
    ensures
        token_of(bearer(token)) == Some(token),
{
    reveal_strlit("Bearer ");
    let value = "Bearer "@ + token;
    assert(value.take(7) =~= "Bearer "@);
    assert(value.skip(7) =~= token);
}

/// A client with a valid session is told whose it is: the bare payload of the account.
pub proof fn law_current_user_is_the_session_user(
    header: Option<Seq<char>>,
    times: Seq<i64>,
    token: Seq<char>,
    before: Tables,
    response: ResponseView,
    after: Tables,
)
    requires
        answered(
            require_user_view(header, ActionView::CurrentUser),
            times,
            token,
            before,
            response,
            after,
        ),
    ensures
        after == before,
        times.len() > 0 && (before.active_user(header, times[0]) matches Some(user)) ==> response
            == json_view(payload_view(before.active_user(header, times[0])->0)),
        times.len() > 0 && before.active_user(header, times[0]) is None ==> response.status
            == UNAUTHORIZED,
        times.len() == 0 ==> response.status == UNAUTHORIZED && token_of(header) is None,
{
    reveal_with_fuel(answered, 3);
}

/// Without a valid session every endpoint that needs one answers 401, and nothing changes.
pub proof fn law_stranger_changes_nothing(
    header: Option<Seq<char>>,
    action: ActionView,
    times: Seq<i64>,
    token: Seq<char>,
    before: Tables,
    response: ResponseView,
    after: Tables,
)
    requires
        answered(require_user_view(header, action), times, token, before, response, after),
        times.len() > 0 ==> before.active_user(header, times[0]) is None,
    ensures
        response.status == UNAUTHORIZED,
        after == before,
{
    reveal_with_fuel(answered, 3);
}

/// Logging out ends the session at once and no other, and is always answered with an empty
/// object.
pub proof fn law_logout_ends_the_session(
    header: Option<Seq<char>>,
    times: Seq<i64>,
    token: Seq<char>,
    before: Tables,
    response: ResponseView,
    after: Tables,
    now: i64,
)
    requires
        answered(logout_view(header), times, token, before, response, after),
    ensures
        response == json_view(no_members()),
        after.active_user(header, now) is None,
        forall|other: Seq<char>|
            token_of(header) != Some(other) ==> #[trigger] after.session(other, now)
                == before.session(other, now),
        after.users == before.users,
        after.devices == before.devices,
        after.books == before.books,
        after.peers == before.peers,
        after.tags == before.tags,
{
    reveal_with_fuel(answered, 3);
}

/// Dropping the sessions that have run out changes nothing for anybody: what is valid stays
/// valid, and what is not stays invalid.
pub proof fn law_purge_keeps_valid_sessions(
    before: Tables,
    now: i64,
    reply: ReplyView,
    after: Tables,
    token: Seq<char>,
    later: i64,
)
    requires
        served(before, QueryView::PurgeExpiredTokens, now, reply, after),
        now <= later,
    ensures
        after.session(token, later) == before.session(token, later),
        after.users == before.users,
{
}

/// A new password takes effect at once: the account is logged into with it, and with no
/// password that does not match it; every session of the account ends; and nothing changes for
/// anybody else.
pub proof fn law_new_password_is_effective(
    before: Tables,
    name: Seq<char>,
    password_hash: Seq<char>,
    now: i64,
    reply: ReplyView,
    after: Tables,
    id: i64,
)
    requires
        before.valid(),
        served(before, QueryView::SetPassword { name, password_hash }, now, reply, after),
        before.named(id, name),
    ensures
        reply == ReplyView::Count(1),
        after == with_password(before, id, password_hash),
        after.named(id, name),
        after.users[id].password_hash == password_hash,
        forall|token: Seq<char>, later: i64|
            {
                let was = before.session(token, later);
                #[trigger] after.session(token, later) == (if was matches Some(user) && user.id
                    == id {
                    None
                } else {
                    was
                })
            },
{
    assert(before.is_taken(name));
    assert forall|token: Seq<char>, later: i64|
        {
            let was = before.session(token, later);
            #[trigger] after.session(token, later) == (if was matches Some(user) && user.id == id {
                None
            } else {
                was
            })
        } by {
        if before.tokens.contains_key(token) {
            assert(before.users.contains_key(before.tokens[token].user_id));
        }
    }
}

/// A client whose session was open when the password was changed is logged out: whatever it
/// asks for with that session is answered with 401, and changes nothing.
pub proof fn law_new_password_logs_clients_out(
    before: Tables,
    name: Seq<char>,
    password_hash: Seq<char>,
    now: i64,
    reply: ReplyView,
    between: Tables,
    id: i64,
    header: Option<Seq<char>>,
    action: ActionView,
    times: Seq<i64>,
    token: Seq<char>,
    response: ResponseView,
    after: Tables,
)
    requires
        before.valid(),
        served(before, QueryView::SetPassword { name, password_hash }, now, reply, between),
        before.named(id, name),
        before.active_user(header, now) matches Some(user) && user.id == id,
        answered(require_user_view(header, action), times, token, between, response, after),
    ensures
        response.status == UNAUTHORIZED,
        after == between,
{
    law_new_password_is_effective(before, name, password_hash, now, reply, between, id);
    let sent = token_of(header)->0;
    assert(before.session(sent, now) is Some);
    assert(before.users.contains_key(before.tokens[sent].user_id));
    assert(!between.tokens.contains_key(sent));
    law_stranger_changes_nothing(header, action, times, token, between, response, after);
}

/// Deleting an account takes effect at once: its name is free, its sessions and its address
/// book are gone with everything in it, and everybody else keeps what they have.
pub proof fn law_deleted_user_is_gone(
    before: Tables,
    name: Seq<char>,
    now: i64,
    reply: ReplyView,
    after: Tables,
    id: i64,
)
    requires
        before.valid(),
        served(before, QueryView::DeleteUser { name }, now, reply, after),
        before.named(id, name),
    ensures
        reply == ReplyView::Count(1),
        !after.is_taken(name),
        !after.users.contains_key(id),
        forall|token: Seq<char>, later: i64|
            {
                let was = before.session(token, later);
                #[trigger] after.session(token, later) == (if was matches Some(user) && user.id
                    == id {
                    None
                } else {
                    was
                })
            },
        !after.has_book(id),
        forall|key: (Seq<char>, Seq<char>)| #[trigger]
            after.peers.contains_key(key) <==> before.peers.contains_key(key) && !before.owns(
                id,
                key.0,
            ),
        forall|key: (Seq<char>, Seq<char>)| #[trigger]
            after.tags.contains_key(key) <==> before.tags.contains_key(key) && !before.owns(
                id,
                key.0,
            ),
        forall|other: i64, guid: Seq<char>|
            other != id ==> (#[trigger] after.owns(other, guid) <==> before.owns(other, guid)),
        forall|key: (Seq<char>, Seq<char>)| #[trigger]
            after.peers.contains_key(key) ==> after.peers[key] == before.peers[key],
        forall|key: (Seq<char>, Seq<char>)| #[trigger]
            after.tags.contains_key(key) ==> after.tags[key] == before.tags[key],
        after.devices == before.devices,
{
    assert(before.is_taken(name));
    assert(after == without_user(before, id));
    assert forall|other: i64| !#[trigger] after.named(other, name) by {
        if after.named(other, name) {
            assert(before.named(other, name));
        }
    }
    assert forall|guid: Seq<char>| !#[trigger] after.owns(id, guid) by {}
    assert forall|token: Seq<char>, later: i64|
        {
            let was = before.session(token, later);
            #[trigger] after.session(token, later) == (if was matches Some(user) && user.id == id {
                None
            } else {
                was
            })
        } by {
        if before.tokens.contains_key(token) {
            assert(before.users.contains_key(before.tokens[token].user_id));
        }
    }
}

} // verus!
