//! The turns that commands, the start and the shim take, also when something goes wrong.

use crate::cli::{
    blank, next_turn, password_to_store, quotation, run_device_view, run_user_view, stored_line,
    user_lines, DeviceActionView, EventView, PurposeView, TurnView, UserActionView, WaitView,
};
use crate::config::ConfigView;
use crate::db::{new_user_view, UserView};
use crate::laws::commands::ran;
use crate::query::{QueryView, ReplyView};
use crate::shim::{
    greeting_view, handle_view, pipe_view, LinkActionView, LinkEventView, PipeAction, PipeEvent,
};
use crate::startup::{bootstrap_view, first_password, next_boot, BootView, BootWaitView};
use crate::tables::{account, is_listing, served, text_leq, with_password, Tables};
use crate::text::lower;
use vstd::prelude::*;

verus! {

// ---------------------------------------------------------------------------
// Passwords
// ---------------------------------------------------------------------------

/// The password `password` is the one that `wait` is about, and `event` does not speak against
/// it: it was given with the command, or it was typed in and now again.
pub open spec fn is_settled(wait: WaitView, event: EventView, password: Seq<char>) -> bool {
    match wait {
        WaitView::Lookup { password: given, .. } => given == Some(password) && password.len() > 0,
        WaitView::Confirm { password: typed, .. } => typed == password && event
            == EventView::Entered(password),
        _ => false,
    }
}

/// What a command with this purpose stores under `hash`.
pub open spec fn stores(query: QueryView, purpose: PurposeView, hash: Seq<char>) -> bool {
    match query {
        QueryView::CreateUser { name, password_hash, email, is_admin } => purpose
            == PurposeView::Add { name, admin: is_admin, email } && password_hash == hash,
        QueryView::SetPassword { name, password_hash } => purpose == PurposeView::Passwd { name }
            && password_hash == hash,
        _ => false,
    }
}

/// A command stores a password only where it is settled which one, and then stores the hash of
/// that one, for the account that the command is about. So the password that is hashed is the
/// one that was given, or typed in twice alike.
pub proof fn law_settled_password_is_stored(
    wait: WaitView,
    event: EventView,
    hash: Option<Seq<char>>,
    now: i64,
)
    ensures
        password_to_store(wait, event) matches Some(password) ==> is_settled(wait, event, password),
        next_turn(wait, event, hash, now) matches TurnView::Ask(query, after) ==> {
            &&& password_to_store(wait, event) is Some
            &&& hash is Some
            &&& after matches WaitView::Stored { purpose } && stores(query, purpose, hash->0)
                && match wait {
                WaitView::Lookup { purpose: asked, .. } => purpose == asked,
                WaitView::Confirm { purpose: asked, .. } => purpose == asked,
                _ => false,
            }
        },
        password_to_store(wait, event) is Some ==> match hash {
            Some(_) => next_turn(wait, event, hash, now) is Ask,
            None => next_turn(wait, event, hash, now) == TurnView::Refuse("password is too long"@),
        },
{
}

/// A password that is typed in has to be typed in twice alike, and must not be empty; one that
/// is given with the command must not be empty either.
pub proof fn law_typed_password_is_confirmed(
    purpose: PurposeView,
    password: Seq<char>,
    again: Seq<char>,
    user: Option<UserView>,
    hash: Option<Seq<char>>,
    now: i64,
)
    ensures
        password.len() == 0 ==> next_turn(
            WaitView::Password { purpose },
            EventView::Entered(password),
            hash,
            now,
        ) == TurnView::Refuse("password cannot be empty"@),
        password.len() > 0 ==> next_turn(
            WaitView::Password { purpose },
            EventView::Entered(password),
            hash,
            now,
        ) == TurnView::Prompt("Confirm password: "@, WaitView::Confirm { purpose, password }),
        password != again ==> next_turn(
            WaitView::Confirm { purpose, password },
            EventView::Entered(again),
            hash,
            now,
        ) == TurnView::Refuse("passwords do not match"@),
        password_to_store(
            WaitView::Confirm { purpose, password },
            EventView::Entered(password),
        ) == Some(password),
        (user is Some <==> purpose is Passwd) ==> {
            let found = EventView::Reply(ReplyView::User(user));
            &&& next_turn(WaitView::Lookup { purpose, password: None }, found, hash, now)
                == TurnView::Prompt("Password: "@, WaitView::Password { purpose })
            &&& password.len() == 0 ==> next_turn(
                WaitView::Lookup { purpose, password: Some(password) },
                found,
                hash,
                now,
            ) == TurnView::Refuse("password cannot be empty"@)
            &&& password.len() > 0 ==> password_to_store(
                WaitView::Lookup { purpose, password: Some(password) },
                found,
            ) == Some(password)
        },
{
}

/// An account whose password is typed in twice alike is made just as if the password had been
/// given with the command.
pub proof fn law_typed_password_makes_the_account(
    name: Seq<char>,
    admin: bool,
    email: Seq<char>,
    times: Seq<i64>,
    entries: Seq<Seq<char>>,
    hash: Seq<char>,
    before: Tables,
    end: TurnView,
    after: Tables,
) -> (id: i64)
    requires
        ran(
            run_user_view(UserActionView::Add { name, admin, email, password: None }),
            times,
            entries,
            Some(hash),
            before,
            end,
            after,
        ),
        !blank(name),
        !before.is_taken(name),
        entries.len() > 0 && entries[0].len() > 0,
        entries.len() > 1 ==> entries[1] == entries[0],
    ensures
        end == TurnView::Print(seq![stored_line(PurposeView::Add { name, admin, email })]),
        entries.len() == 2,
        times.len() == 2,
        !before.users.contains_key(id),
        after == (Tables {
            users: before.users.insert(
                id,
                account(id, new_user_view(name, hash, email, admin, times[1])),
            ),
            ..before
        }),
{
    reveal_with_fuel(ran, 6);
    let purpose = PurposeView::Add { name, admin, email };
    let rest = times.drop_first();
    let query = QueryView::CreateUser { name, password_hash: hash, email, is_admin: admin };
    let wait = WaitView::Stored { purpose };
    let left = entries.drop_first().drop_first();
    assert(ran(TurnView::Ask(query, wait), rest, left, Some(hash), before, end, after));
    let (reply, between) = choose|reply: ReplyView, between: Tables| #[trigger]
        served(before, query, rest[0], reply, between) && ran(
            next_turn(wait, EventView::Reply(reply), Some(hash), rest[0]),
            rest.drop_first(),
            left,
            Some(hash),
            between,
            end,
            after,
        );
    reply->Count_0
}

/// A password that is typed in twice alike replaces the old one just as if it had been given
/// with the command.
pub proof fn law_typed_password_is_changed(
    name: Seq<char>,
    times: Seq<i64>,
    entries: Seq<Seq<char>>,
    hash: Seq<char>,
    before: Tables,
    end: TurnView,
    after: Tables,
    id: i64,
)
    requires
        before.valid(),
        ran(
            run_user_view(UserActionView::Passwd { name, password: None }),
            times,
            entries,
            Some(hash),
            before,
            end,
            after,
        ),
        before.named(id, name),
        entries.len() > 0 && entries[0].len() > 0,
        entries.len() > 1 ==> entries[1] == entries[0],
    ensures
        end == TurnView::Print(seq!["password updated for "@ + quotation(name)]),
        after == with_password(before, id, hash),
{
    assert(before.is_taken(name));
    reveal_with_fuel(ran, 6);
}

// ---------------------------------------------------------------------------
// Commands
// ---------------------------------------------------------------------------

/// A name of nothing but white space is refused, and no other is refused unseen.
pub proof fn law_blank_name_is_refused(
    name: Seq<char>,
    admin: bool,
    email: Seq<char>,
    password: Option<Seq<char>>,
)
    ensures
        blank(name) ==> run_user_view(UserActionView::Add { name, admin, email, password })
            == TurnView::Refuse("username cannot be empty"@),
        !blank(name) ==> (run_user_view(
            UserActionView::Add { name, admin, email, password },
        ) matches TurnView::Ask(query, _) && query == QueryView::FindUserByName { name }),
{
}

/// A password is not changed for a name that no account has.
pub proof fn law_no_password_for_nobody(
    name: Seq<char>,
    password: Option<Seq<char>>,
    times: Seq<i64>,
    entries: Seq<Seq<char>>,
    hash: Option<Seq<char>>,
    before: Tables,
    end: TurnView,
    after: Tables,
)
    requires
        ran(
            run_user_view(UserActionView::Passwd { name, password }),
            times,
            entries,
            hash,
            before,
            end,
            after,
        ),
        !before.is_taken(name),
    ensures
        end == TurnView::Refuse("no such user: "@ + name),
        after == before,
{
    reveal_with_fuel(ran, 3);
}

/// The list of accounts holds every account, by name.
pub proof fn law_command_line_lists_every_account(
    times: Seq<i64>,
    entries: Seq<Seq<char>>,
    hash: Option<Seq<char>>,
    before: Tables,
    end: TurnView,
    after: Tables,
) -> (list: Seq<UserView>)
    requires
        ran(run_user_view(UserActionView::List), times, entries, hash, before, end, after),
    ensures
        is_listing(
            list,
            |u: UserView| before.users.contains_key(u.id) && before.users[u.id] == u,
            |a: UserView, b: UserView| text_leq(lower(a.name), lower(b.name)),
        ),
        end == TurnView::Print(user_lines(list)),
        after == before,
{
    reveal_with_fuel(ran, 3);
    let (reply, between) = choose|reply: ReplyView, between: Tables| #[trigger]
        served(before, QueryView::ListUsers, times[0], reply, between) && ran(
            next_turn(WaitView::Users, EventView::Reply(reply), hash, times[0]),
            times.drop_first(),
            entries,
            hash,
            between,
            end,
            after,
        );
    reply->Users_0
}

/// Removing a workstation removes it and nothing else; one that is not registered is refused.
pub proof fn law_device_is_removed(
    id: Seq<char>,
    times: Seq<i64>,
    entries: Seq<Seq<char>>,
    hash: Option<Seq<char>>,
    before: Tables,
    end: TurnView,
    after: Tables,
)
    requires
        ran(
            run_device_view(DeviceActionView::Rm { id }),
            times,
            entries,
            hash,
            before,
            end,
            after,
        ),
    ensures
        after == (Tables { devices: before.devices.remove(id), ..before }),
        before.devices.contains_key(id) ==> end == TurnView::Print(
            seq!["deleted device "@ + quotation(id)],
        ),
        !before.devices.contains_key(id) ==> end == TurnView::Refuse("no such device: "@ + id),
{
    reveal_with_fuel(ran, 3);
}

/// What was not asked for counts as a failure: a reply of another kind, a reply in place of
/// something typed in, something typed in in place of a reply.
pub proof fn law_unexpected_events_fail(
    purpose: PurposeView,
    password: Option<Seq<char>>,
    typed: Seq<char>,
    name: Seq<char>,
    event: EventView,
    hash: Option<Seq<char>>,
    now: i64,
)
    ensures
        !(event matches EventView::Reply(ReplyView::User(_))) ==> next_turn(
            WaitView::Lookup { purpose, password },
            event,
            hash,
            now,
        ) == TurnView::Fail,
        !(event is Entered) ==> {
            &&& next_turn(WaitView::Password { purpose }, event, hash, now) == TurnView::Fail
            &&& next_turn(WaitView::Confirm { purpose, password: typed }, event, hash, now)
                == TurnView::Fail
        },
        !(event matches EventView::Reply(ReplyView::Count(_))) ==> {
            &&& next_turn(WaitView::Stored { purpose }, event, hash, now) == TurnView::Fail
            &&& next_turn(WaitView::UserRemoved { name }, event, hash, now) == TurnView::Fail
            &&& next_turn(WaitView::DeviceRemoved { id: name }, event, hash, now) == TurnView::Fail
        },
        !(event matches EventView::Reply(ReplyView::Users(_))) ==> next_turn(
            WaitView::Users,
            event,
            hash,
            now,
        ) == TurnView::Fail,
        !(event matches EventView::Reply(ReplyView::Devices(_))) ==> next_turn(
            WaitView::Devices,
            event,
            hash,
            now,
        ) == TurnView::Fail,
{
}

// ---------------------------------------------------------------------------
// The start
// ---------------------------------------------------------------------------

/// The first account is seen to only where the configuration gives both its name and its
/// password, and with exactly these.
pub proof fn law_first_account_needs_both(config: ConfigView)
    ensures
        (config.admin_user matches Some(name) && config.admin_password matches Some(password)
            && bootstrap_view(config) == BootView::Ask(
            QueryView::CountUsers,
            BootWaitView::FirstCount { name, password },
        )) || ((config.admin_user is None || config.admin_password is None) && bootstrap_view(config)
            == BootView::Ask(QueryView::PurgeExpiredTokens, BootWaitView::Purged)),
{
}

/// The password that is hashed for the first account is the one in the configuration, and only
/// while there are no accounts; without a hash the server does not start.
pub proof fn law_first_password_is_the_configured_one(
    name: Seq<char>,
    password: Seq<char>,
    n: i64,
    hash: Option<Seq<char>>,
)
    ensures
        ({
            let wait = BootWaitView::FirstCount { name, password };
            let reply = ReplyView::Count(n);
            &&& n > 0 ==> first_password(wait, reply) is None && next_boot(wait, reply, hash)
                == BootView::Ask(QueryView::PurgeExpiredTokens, BootWaitView::Purged)
            &&& n <= 0 ==> first_password(wait, reply) == Some(password) && match hash {
                Some(password_hash) => next_boot(wait, reply, hash) == BootView::Ask(
                    QueryView::CreateUser { name, password_hash, email: ""@, is_admin: true },
                    BootWaitView::Created,
                ),
                None => next_boot(wait, reply, hash) == BootView::BadPassword,
            }
        }),
{
}

/// The server does not start where the database fails to count the accounts or to make the
/// first one, and starts nevertheless where it fails to drop the sessions that have run out.
pub proof fn law_start_failures(
    name: Seq<char>,
    password: Seq<char>,
    reply: ReplyView,
    hash: Option<Seq<char>>,
)
    ensures
        !(reply is Count) ==> {
            &&& next_boot(BootWaitView::FirstCount { name, password }, reply, hash) == BootView::Fail
            &&& next_boot(BootWaitView::Created, reply, hash) == BootView::Fail
            &&& next_boot(BootWaitView::LastCount, reply, hash) == BootView::Fail
            &&& first_password(BootWaitView::FirstCount { name, password }, reply) is None
        },
        next_boot(BootWaitView::Purged, reply, hash) == BootView::Ask(
            QueryView::CountUsers,
            BootWaitView::LastCount,
        ),
        reply matches ReplyView::Count(n) ==> {
            &&& next_boot(BootWaitView::Created, reply, hash) == BootView::Ask(
                QueryView::PurgeExpiredTokens,
                BootWaitView::Purged,
            )
            &&& next_boot(BootWaitView::LastCount, reply, hash) == BootView::Listen {
                deserted: n == 0,
            }
        },
{
}

// ---------------------------------------------------------------------------
// The shim
// ---------------------------------------------------------------------------

/// A connection is taken from step to step while all goes well, and given up with the reason
/// as soon as something does not; the report begins with the peer.
pub proof fn law_link_goes_on_or_is_given_up(
    peer: Seq<char>,
    upstream: Seq<char>,
    error: Seq<char>,
)
    ensures
        handle_view(LinkEventView::Accepted, peer, upstream) == LinkActionView::Connect,
        handle_view(LinkEventView::Reached(Ok(())), peer, upstream) == LinkActionView::Greet(
            greeting_view(),
        ),
        handle_view(LinkEventView::Greeted(Ok(())), peer, upstream) == LinkActionView::Split,
        handle_view(LinkEventView::Split(true), peer, upstream) == LinkActionView::Pipe,
        handle_view(LinkEventView::Reached(Err(error)), peer, upstream) == LinkActionView::GiveUp(
            peer + (": cannot reach hbbs at "@ + (upstream + (": "@ + error))),
        ),
        handle_view(LinkEventView::Greeted(Err(error)), peer, upstream) == LinkActionView::GiveUp(
            peer + (": failed to send greeting: "@ + error),
        ),
        handle_view(LinkEventView::Split(false), peer, upstream) == LinkActionView::GiveUp(
            peer + ": failed to duplicate sockets"@,
        ),
{
    assert(peer + ": cannot reach hbbs at "@ + upstream + ": "@ + error =~= peer + (
    ": cannot reach hbbs at "@ + (upstream + (": "@ + error))));
    assert(peer + ": failed to send greeting: "@ + error =~= peer + (": failed to send greeting: "@
        + error));
}

/// Copying goes on until the stream ends or fails: what was read is written, all of it, then
/// more is read, and an interrupted read is tried again.
pub proof fn law_copying_goes_on_until_the_end(event: PipeEvent)
    ensures
        pipe_view(event) == PipeAction::Close <==> (event == PipeEvent::Read(0) || event
            == PipeEvent::ReadFailed || event == PipeEvent::WriteFailed),
        pipe_view(event) == PipeAction::Read <==> (event == PipeEvent::Written || event
            == PipeEvent::Interrupted),
        forall|n: usize| pipe_view(event) == PipeAction::Write(n) <==> n > 0 && event
            == PipeEvent::Read(n),
{
}

} // verus!
