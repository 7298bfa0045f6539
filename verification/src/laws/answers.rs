//! What a request is answered with, above all when something is wrong with it or with the
//! database.

use crate::api::ab::{
    paged, profile_view, read_only_message, resolve_view, settings_view, write_view, BookUseView,
    ChangeView, PageQueryView, PeerPayloadView, SHARED_GUID,
};
use crate::api::device::{beat_view, register_view};
use crate::api::group::group_view;
use crate::api::user::{login_view, LoginRequestView};
use crate::api::{
    error_view, json_view, next, plain_view, require_user_view, ActionView, PendingView,
    ResponseView, StepView,
};
use crate::auth::token_of;
use crate::db::{DeviceReportView, UserView};
use crate::json::{no_members, page_view, JsonView};
use crate::laws::access::after;
use crate::laws::books::{holds, lemma_change_starts};
use crate::query::{QueryView, ReplyView};
use crate::tables::{answered, Tables};
use vstd::prelude::*;

verus! {

// ---------------------------------------------------------------------------
// Sessions
// ---------------------------------------------------------------------------

/// Whoever asks for something that needs a session is told what is wrong with theirs: that they
/// sent no token, that the token is of no valid session, that the account is disabled; or else
/// that the server failed to look.
pub proof fn law_stranger_is_told_why(
    header: Option<Seq<char>>,
    action: ActionView,
    replies: Seq<ReplyView>,
    token: Seq<char>,
)
    ensures
        token_of(header) is None ==> after(require_user_view(header, action), replies, token)
            == StepView::Done(error_view(401, "Not authenticated"@)),
        token_of(header) is Some && replies.len() > 0 ==> {
            let end = after(require_user_view(header, action), replies, token);
            &&& replies[0] == ReplyView::User(None) ==> end == StepView::Done(
                error_view(401, "Invalid token"@),
            )
            &&& replies[0] matches ReplyView::User(Some(user)) ==> user.status == 0 ==> end
                == StepView::Done(error_view(401, "Account is disabled"@))
            &&& !(replies[0] is User) ==> end == StepView::Done(
                error_view(500, "Internal error"@),
            )
        },
{
    reveal_with_fuel(after, 3);
}

/// A header carries a token exactly if it begins with `Bearer `, and the token is what follows:
/// nothing is cut off, and no other header carries one.
pub proof fn law_token_follows_the_word(header: Option<Seq<char>>, token: Seq<char>)
    ensures
        token_of(header) == Some(token) <==> header == Some("Bearer "@ + token),
{
    reveal_strlit("Bearer ");
    let value = "Bearer "@ + token;
    assert("Bearer "@.len() == 7);
    assert(value.take(7) =~= "Bearer "@);
    assert(value.skip(7) =~= token);
    if let Some(sent) = header {
        if sent.len() >= 7 {
            assert(sent =~= sent.take(7) + sent.skip(7));
        }
    }
}

/// The settings, the shared books, the device groups and the users are the same for everybody
/// who is logged in, and looking at them changes nothing.
pub proof fn law_fixed_answers(
    header: Option<Seq<char>>,
    action: ActionView,
    times: Seq<i64>,
    token: Seq<char>,
    before: Tables,
    response: ResponseView,
    after: Tables,
)
    requires
        answered(require_user_view(header, action), times, token, before, response, after),
        times.len() > 0,
        before.active_user(header, times[0]) is Some,
    ensures
        action is Settings ==> response == json_view(settings_view()) && after == before,
        action matches ActionView::SharedProfiles { page } ==> response == json_view(
            paged(seq![profile_view()], page),
        ) && after == before,
        action matches ActionView::DeviceGroups { page } ==> response == json_view(
            paged(seq![group_view()], page),
        ) && after == before,
        action is Users ==> response == json_view(page_view(0, Seq::empty())) && after == before,
{
    reveal_with_fuel(answered, 3);
}

// ---------------------------------------------------------------------------
// Logging in
// ---------------------------------------------------------------------------

/// A login without a name or without a password, be it left out or empty, is refused before
/// anything is looked up; any other looks up the account of exactly that name.
pub proof fn law_login_needs_name_and_password(req: LoginRequestView, ttl: u64)
    ensures
        ({
            let named = req.username matches Some(name) && name.len() > 0;
            let locked = req.password matches Some(password) && password.len() > 0;
            &&& !(named && locked) ==> login_view(req, ttl) == StepView::Done(
                error_view(200, "Username and password are required"@),
            )
            &&& named && locked ==> (login_view(req, ttl) matches StepView::Ask(query, pending)
                && query == QueryView::FindUserByName { name: req.username->0 } && (
            pending matches PendingView::LoginUser { password, device_id, device_uuid, ttl: kept }
                && password == req.password->0 && kept == ttl && (req.id matches Some(
                id,
            ) ==> device_id == id) && (req.id is None ==> device_id.len() == 0) && (
            req.uuid matches Some(uuid) ==> device_uuid == uuid) && (req.uuid is None
                ==> device_uuid.len() == 0)))
        }),
{
}

/// A login fails where the account cannot be looked up or the session cannot be stored, and is
/// refused where there is no such account.
pub proof fn law_login_failures(
    password: Seq<char>,
    device_id: Seq<char>,
    device_uuid: Seq<char>,
    ttl: u64,
    issued: Seq<char>,
    user: UserView,
    reply: ReplyView,
    token: Seq<char>,
)
    ensures
        ({
            let pending = PendingView::LoginUser { password, device_id, device_uuid, ttl };
            &&& !(reply is User) ==> next(pending, reply, token) == StepView::Done(
                error_view(500, "Internal error"@),
            )
            &&& next(pending, ReplyView::User(None), token) == StepView::Done(
                error_view(200, "Wrong username or password"@),
            )
        }),
        !(reply is Done) ==> next(PendingView::LoginToken { token: issued, user }, reply, token)
            == StepView::Done(error_view(500, "Internal error"@)),
        next(PendingView::LoggedOut, reply, token) == StepView::Done(json_view(no_members())),
{
}

// ---------------------------------------------------------------------------
// Workstations
// ---------------------------------------------------------------------------

/// Only a workstation that gives its id is registered, and only one that gives its id counts as
/// alive: without it nothing is asked of the database, and the client tries again.
pub proof fn law_workstation_needs_an_id(
    report: Option<DeviceReportView>,
    id: Option<Seq<char>>,
)
    ensures
        (report matches Some(r) && r.id.len() > 0) ==> (register_view(report) matches StepView::Ask(
            query,
            pending,
        ) && query == QueryView::UpsertDevice { report: report->0 } && pending is Registered),
        !(report matches Some(r) && r.id.len() > 0) ==> register_view(report) == StepView::Done(
            plain_view("ID_NOT_FOUND"@),
        ),
        (id matches Some(i) && i.len() > 0) ==> (beat_view(id) matches StepView::Ask(query, pending)
            && query == QueryView::TouchDevice { id: id->0 } && pending is Touched),
        !(id matches Some(i) && i.len() > 0) ==> beat_view(id) == StepView::Done(
            json_view(no_members()),
        ),
{
}

/// A client whose registration was not stored is not told that it was; one whose heartbeat
/// could not be noted is not asked to register.
pub proof fn law_workstation_failures(reply: ReplyView, token: Seq<char>)
    ensures
        next(PendingView::Registered, ReplyView::Done, token) == StepView::Done(
            plain_view("SYSINFO_UPDATED"@),
        ),
        !(reply is Done) ==> next(PendingView::Registered, reply, token) == StepView::Done(
            plain_view("ERROR"@),
        ),
        reply != ReplyView::Flag(false) ==> next(PendingView::Touched, reply, token)
            == StepView::Done(json_view(no_members())),
{
}

// ---------------------------------------------------------------------------
// Address books
// ---------------------------------------------------------------------------

/// Where the database fails, or replies what was not asked for, the client is told so in a way
/// that does not log it out; the "Accessible devices" tab gets an empty page, which it can
/// show.
pub proof fn law_book_failures(
    user_id: i64,
    page: PageQueryView,
    stale_days: i64,
    guid: Seq<char>,
    usage: BookUseView,
    payload: PeerPayloadView,
    reply: ReplyView,
    token: Seq<char>,
)
    ensures
        ({
            let failed = StepView::Done(error_view(200, "Internal error"@));
            let of_user = PendingView::PersonalPeers { user_id, page, stale_days };
            &&& !(reply is Guid) ==> next(PendingView::PersonalGuid, reply, token) == failed
            &&& !(reply is Guid) ==> next(of_user, reply, token) == failed
            &&& !(reply is Flag) ==> next(PendingView::Ownership { guid, usage }, reply, token)
                == failed
            &&& !(reply is Devices) ==> next(PendingView::SharedPeers { page }, reply, token)
                == failed
            &&& !(reply is Peers) ==> next(PendingView::BookPeers { page }, reply, token) == failed
            &&& !(reply is Tags) ==> next(PendingView::BookTags, reply, token) == failed
            &&& !(reply is Peer) ==> next(
                PendingView::ExistingPeer { guid, payload },
                reply,
                token,
            ) == failed
            &&& !(reply is Done) ==> next(PendingView::Written, reply, token) == failed
            &&& !(reply is Devices) ==> next(PendingView::AccessiblePeers { page }, reply, token)
                == StepView::Done(json_view(page_view(0, Seq::empty())))
        }),
{
}

/// Changes that leave out what they need are refused with the reason, and change nothing: a
/// peer is updated only under its id, and a tag is renamed only from a name and to a name.
pub proof fn law_incomplete_changes_are_refused(
    header: Option<Seq<char>>,
    guid: Seq<char>,
    change: ChangeView,
    times: Seq<i64>,
    token: Seq<char>,
    before: Tables,
    response: ResponseView,
    after: Tables,
)
    requires
        before.valid(),
        answered(write_view(header, guid, change), times, token, before, response, after),
        times.len() > 0,
        holds(before, header, times[0], guid),
    ensures
        change matches ChangeView::PeerUpdate(payload) ==> !(payload.id matches Some(id) && id.len()
            > 0) ==> response == error_view(200, "Peer id is required"@) && after == before,
        change matches ChangeView::PeerAdd(payload) ==> !(payload.id matches Some(id) && id.len()
            > 0) ==> response == error_view(200, "Peer id is required"@) && after == before,
        change matches ChangeView::TagPut(payload) ==> payload.name.len() == 0 ==> response
            == error_view(200, "Tag name is required"@) && after == before,
        change matches ChangeView::TagRename(payload) ==> payload.old.len() == 0
            || payload.new.len() == 0 ==> response == error_view(
            200,
            "Both old and new tag names are required"@,
        ) && after == before,
{
    lemma_change_starts(header, guid, change, times, token, before, response, after);
    reveal_with_fuel(answered, 2);
}

/// What the shared book is used for decides what happens, whoever uses it: its peers are the
/// workstations, it has no tags, and it takes no change.
pub proof fn law_shared_book_uses(user_id: i64, usage: BookUseView)
    ensures
        usage matches BookUseView::Peers { page, stale_days } ==> resolve_view(
            SHARED_GUID@,
            user_id,
            usage,
        ) == StepView::Ask(QueryView::ListDevices { stale_days }, PendingView::SharedPeers { page }),
        usage is Tags ==> resolve_view(SHARED_GUID@, user_id, usage) == StepView::Done(
            json_view(JsonView::List(Seq::empty())),
        ),
        usage is Write ==> resolve_view(SHARED_GUID@, user_id, usage) == StepView::Done(
            error_view(200, "\"All Workstations\" is read-only; it is maintained automatically"@),
        ),
        read_only_message() == "\"All Workstations\" is read-only; it is maintained automatically"@,
{
}

} // verus!
