//! Who gets at what. These laws hold whatever the database replies, failures included.

use crate::api::ab::{
    read_only_message, resolve_view, write_view, BookUseView, ChangeView, SHARED_GUID,
};
use crate::api::device::{beat_view, register_view};
use crate::api::misc::health_step;
use crate::api::user::{login_view, logout_view, LoginRequestView};
use crate::api::{
    begin_view, error_view, next, require_user_view, session_view, ActionView, BodyView, PendingView,
    ResponseView, StepView, OK, UNAUTHORIZED,
};
use crate::auth::token_of;
use crate::db::DeviceReportView;
use crate::json::JsonView;
use crate::query::{QueryView, ReplyView};
use vstd::prelude::*;

verus! {

/// Where a request stands that began at `step` and got `replies` one after the other; `token`
/// is the session token drawn for a login.
pub open spec fn after(step: StepView, replies: Seq<ReplyView>, token: Seq<char>) -> StepView
    decreases replies.len(),
{
    match step {
        StepView::Done(_) => step,
        StepView::Ask(_, pending) => if replies.len() == 0 {
            step
        } else {
            after(next(pending, replies[0], token), replies.drop_first(), token)
        },
    }
}

/// The query that a request makes which began at `step` and got the first `n` of `replies`.
pub open spec fn query_at(
    step: StepView,
    replies: Seq<ReplyView>,
    token: Seq<char>,
    n: int,
) -> Option<QueryView>
    decreases replies.len(),
{
    match step {
        StepView::Done(_) => None,
        StepView::Ask(query, pending) => if n <= 0 {
            Some(query)
        } else if replies.len() == 0 {
            None
        } else {
            query_at(next(pending, replies[0], token), replies.drop_first(), token, n - 1)
        },
    }
}

/// The query reads or changes what the book `guid` holds.
pub open spec fn touches(query: QueryView, guid: Seq<char>) -> bool {
    query.reads_book(guid) || query.writes_book(guid)
}

/// A use of the book `named` that touches a book touches no other, and only after the
/// database confirmed that it belongs to the user.
proof fn lemma_use_is_checked(
    named: Seq<char>,
    user_id: i64,
    usage: BookUseView,
    replies: Seq<ReplyView>,
    token: Seq<char>,
    n: int,
    guid: Seq<char>,
)
    requires
        n >= 0,
        query_at(resolve_view(named, user_id, usage), replies, token, n) matches Some(query)
            && touches(query, guid),
    ensures
        n > 0,
        replies.len() > 0,
        guid == named,
        guid != SHARED_GUID@,
        query_at(resolve_view(named, user_id, usage), replies, token, 0) == Some(
            QueryView::OwnsAb { guid, user_id },
        ),
        replies[0] == ReplyView::Flag(true),
{
    reveal_with_fuel(query_at, 4);
}

/// What stands in a personal address book is only read or changed for a user who is logged in
/// with a valid session of an account that is not disabled, and only after the database
/// confirmed that the book belongs to that user.
pub proof fn law_books_are_private(
    header: Option<Seq<char>>,
    action: ActionView,
    replies: Seq<ReplyView>,
    token: Seq<char>,
    n: int,
    guid: Seq<char>,
)
    requires
        n >= 0,
        query_at(require_user_view(header, action), replies, token, n) matches Some(query)
            && touches(query, guid),
    ensures
        guid != SHARED_GUID@,
        token_of(header) is Some,
        query_at(require_user_view(header, action), replies, token, 0) == Some(
            QueryView::UserForToken { token: token_of(header)->0 },
        ),
        replies.len() > 0,
        replies[0] matches ReplyView::User(Some(user)) && user.status != 0 && exists|k: int|
            0 < k < n && k < replies.len() && replies[k] == ReplyView::Flag(true)
                && #[trigger] query_at(require_user_view(header, action), replies, token, k)
                == Some(QueryView::OwnsAb { guid, user_id: user.id }),
{
    let start = require_user_view(header, action);
    assert(n > 0);
    let rest = replies.drop_first();
    assert(query_at(start, replies, token, n) == query_at(
        session_view(action, replies[0]),
        rest,
        token,
        n - 1,
    ));
    let user = replies[0]->User_0->0;
    match action {
        ActionView::Book { guid: named, usage } => {
            lemma_use_is_checked(named, user.id, usage, rest, token, n - 1, guid);
            assert(query_at(start, replies, token, 1) == query_at(
                begin_view(user, action),
                rest,
                token,
                0,
            ));
            assert(replies[1] == rest[0]);
        },
        ActionView::Peers { page, stale_days } => {
            let usage = BookUseView::Peers { page, stale_days };
            if page.ab is Some && page.ab->0.len() > 0 {
                lemma_use_is_checked(page.ab->0, user.id, usage, rest, token, n - 1, guid);
                assert(query_at(start, replies, token, 1) == query_at(
                    begin_view(user, action),
                    rest,
                    token,
                    0,
                ));
                assert(replies[1] == rest[0]);
            } else {
                assert(n > 1);
                let last = rest.drop_first();
                assert(rest[0] == replies[1]);
                let found = next(
                    PendingView::PersonalPeers { user_id: user.id, page, stale_days },
                    rest[0],
                    token,
                );
                assert(query_at(begin_view(user, action), rest, token, n - 1) == query_at(
                    found,
                    last,
                    token,
                    n - 2,
                ));
                lemma_use_is_checked(rest[0]->Guid_0, user.id, usage, last, token, n - 2, guid);
                assert(query_at(start, replies, token, 2) == query_at(
                    begin_view(user, action),
                    rest,
                    token,
                    1,
                ));
                assert(query_at(begin_view(user, action), rest, token, 1) == query_at(
                    found,
                    last,
                    token,
                    0,
                ));
                assert(replies[2] == last[0]);
            }
        },
        ActionView::Accessible { .. } => {
            reveal_with_fuel(query_at, 3);
        },
        ActionView::Personal => {
            reveal_with_fuel(query_at, 3);
        },
        _ => {},
    }
}

/// The first step of an endpoint that needs no session: logging in and out, registration,
/// heartbeats and the health check.
pub open spec fn is_open(step: StepView) -> bool {
    ||| exists|req: LoginRequestView, ttl: u64| step == #[trigger] login_view(req, ttl)
    ||| exists|header: Option<Seq<char>>| step == #[trigger] logout_view(header)
    ||| exists|report: Option<DeviceReportView>| step == #[trigger] register_view(report)
    ||| exists|id: Option<Seq<char>>| step == #[trigger] beat_view(id)
    ||| exists|stale_days: i64| step == #[trigger] health_step(stale_days)
}

/// The endpoints that need no session touch no address book.
pub proof fn law_open_endpoints_touch_no_book(
    step: StepView,
    replies: Seq<ReplyView>,
    token: Seq<char>,
    n: int,
    guid: Seq<char>,
)
    requires
        is_open(step),
        n >= 0,
    ensures
        query_at(step, replies, token, n) matches Some(query) ==> !touches(query, guid),
{
    reveal_with_fuel(query_at, 4);
}

/// The shared book takes no change: whoever asks, and whatever they ask for, nothing but the
/// session is looked up, and a user who is logged in is told that the book is read-only.
pub proof fn law_shared_book_is_read_only(
    header: Option<Seq<char>>,
    change: ChangeView,
    replies: Seq<ReplyView>,
    token: Seq<char>,
    n: int,
)
    requires
        n >= 0,
    ensures
        query_at(write_view(header, SHARED_GUID@, change), replies, token, n) matches Some(query)
            ==> n == 0 && query is UserForToken,
        token_of(header) is Some && replies.len() > 0 && (replies[0] matches ReplyView::User(
            Some(user),
        ) && user.status != 0) ==> after(
            write_view(header, SHARED_GUID@, change),
            replies,
            token,
        ) == StepView::Done(error_view(OK, read_only_message())),
{
    reveal_with_fuel(query_at, 3);
    reveal_with_fuel(after, 3);
}

/// There is no valid session: no token was sent, or the database knows none, or it belongs to
/// a disabled account.
pub open spec fn is_stranger(header: Option<Seq<char>>, replies: Seq<ReplyView>) -> bool {
    ||| token_of(header) is None
    ||| replies.len() > 0 && match replies[0] {
        ReplyView::User(Some(user)) => user.status == 0,
        ReplyView::User(None) => true,
        _ => false,
    }
}

/// The status 401, on which a client logs its user out, is given for exactly one reason: that
/// there is no valid session.
pub proof fn law_unauthorized_means_no_session(
    header: Option<Seq<char>>,
    action: ActionView,
    replies: Seq<ReplyView>,
    token: Seq<char>,
    response: ResponseView,
)
    requires
        after(require_user_view(header, action), replies, token) == StepView::Done(response),
    ensures
        response.status == UNAUTHORIZED <==> is_stranger(header, replies),
{
    reveal_with_fuel(after, 3);
    if token_of(header) is Some {
        let rest = replies.drop_first();
        let user = replies[0]->User_0->0;
        if !is_stranger(header, replies) && replies[0] is User {
            lemma_no_later_unauthorized(begin_view(user, action), rest, token, response);
        }
    }
}

/// Nothing that a user who is logged in can run into is answered with 401.
proof fn lemma_no_later_unauthorized(
    step: StepView,
    replies: Seq<ReplyView>,
    token: Seq<char>,
    response: ResponseView,
)
    requires
        step matches StepView::Ask(_, pending) ==> !(pending is Session),
        step matches StepView::Done(done) ==> done.status != UNAUTHORIZED,
        after(step, replies, token) == StepView::Done(response),
    ensures
        response.status != UNAUTHORIZED,
    decreases replies.len(),
{
    if let StepView::Ask(_, pending) = step {
        lemma_no_later_unauthorized(
            next(pending, replies[0], token),
            replies.drop_first(),
            token,
            response,
        );
    }
}

/// The endpoints that need no session never answer with 401; a failed login, above all, is
/// answered with status 200.
pub proof fn law_open_endpoints_never_unauthorized(
    step: StepView,
    replies: Seq<ReplyView>,
    token: Seq<char>,
    response: ResponseView,
)
    requires
        is_open(step),
        after(step, replies, token) == StepView::Done(response),
    ensures
        response.status != UNAUTHORIZED,
{
    lemma_no_later_unauthorized(step, replies, token, response);
}

/// The body is an object with the one member `error`, a text.
pub open spec fn is_error(response: ResponseView) -> bool {
    &&& response.body matches BodyView::Json(JsonView::Object(members))
    &&& members.len() == 1
    &&& members[0].0 == "error"@
    &&& members[0].1 is Text
}

/// A change of an address book is answered with status 200 and an empty body when it went
/// through or had nothing to do, and otherwise with an error that the client can show; so a
/// body, where there is one, always is an object with the one member `error`.
pub proof fn law_changes_answer_empty_or_error(
    header: Option<Seq<char>>,
    guid: Seq<char>,
    change: ChangeView,
    replies: Seq<ReplyView>,
    token: Seq<char>,
    response: ResponseView,
)
    requires
        after(write_view(header, guid, change), replies, token) == StepView::Done(response),
    ensures
        response.body is Empty ==> response.status == OK,
        !(response.body is Empty) ==> is_error(response),
{
    reveal_with_fuel(after, 6);
}

} // verus!
