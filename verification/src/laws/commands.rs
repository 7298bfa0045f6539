//! The command line, and the first account.

use crate::api::ab::or_empty;
use crate::api::user::{login_token_view, login_view, LoginRequestView};
use crate::api::{error_view, ResponseView, OK};
use crate::auth::{hashes_to, password_accepted};
use crate::cli::{
    blank, device_lines, next_turn, quotation, run_device_view, run_user_view, stored_line,
    DeviceActionView, EventView, PurposeView, TurnView, UserActionView, WaitView,
};
use crate::config::ConfigView;
use crate::db::{expiry, new_user_view, DeviceView, UserView};
use crate::laws::devices::lists_devices;
use crate::laws::sessions::{is_complete, law_login_opens_session, law_login_refused};
use crate::laws::state::law_queries_keep_tables_valid;
use crate::query::{QueryView, ReplyView};
use crate::startup::{bootstrap_view, next_boot, BootView, BootWaitView};
use crate::tables::{
    account, answered, live_tokens, served, with_password, without_user, Tables,
};
use crate::text::{lower, spaces};
use vstd::prelude::*;

verus! {

/// A command that stands at `turn` ends in `end`: its queries are answered at the clock
/// readings `times`, `entries` are typed in at its prompts, `hash` is the hash of the password
/// that it stores, and it turns `before` into `after`.
pub open spec fn ran(
    turn: TurnView,
    times: Seq<i64>,
    entries: Seq<Seq<char>>,
    hash: Option<Seq<char>>,
    before: Tables,
    end: TurnView,
    after: Tables,
) -> bool
    decreases times.len() + entries.len(),
{
    match turn {
        TurnView::Ask(query, wait) => {
            &&& times.len() > 0
            &&& exists|reply: ReplyView, between: Tables| #[trigger]
                served(before, query, times[0], reply, between) && ran(
                    next_turn(wait, EventView::Reply(reply), hash, times[0]),
                    times.drop_first(),
                    entries,
                    hash,
                    between,
                    end,
                    after,
                )
        },
        TurnView::Prompt(_, wait) => {
            &&& entries.len() > 0
            &&& ran(
                next_turn(wait, EventView::Entered(entries[0]), hash, 0),
                times,
                entries.drop_first(),
                hash,
                before,
                end,
                after,
            )
        },
        _ => times.len() == 0 && entries.len() == 0 && end == turn && after == before,
    }
}

/// Every command leaves the tables in order.
pub proof fn law_commands_keep_tables_valid(
    turn: TurnView,
    times: Seq<i64>,
    entries: Seq<Seq<char>>,
    hash: Option<Seq<char>>,
    before: Tables,
    end: TurnView,
    after: Tables,
)
    requires
        before.valid(),
        ran(turn, times, entries, hash, before, end, after),
    ensures
        after.valid(),
    decreases times.len() + entries.len(),
{
    match turn {
        TurnView::Ask(query, wait) => {
            let (reply, between) = choose|reply: ReplyView, between: Tables| #[trigger]
                served(before, query, times[0], reply, between) && ran(
                    next_turn(wait, EventView::Reply(reply), hash, times[0]),
                    times.drop_first(),
                    entries,
                    hash,
                    between,
                    end,
                    after,
                );
            law_queries_keep_tables_valid(before, query, times[0], reply, between);
            law_commands_keep_tables_valid(
                next_turn(wait, EventView::Reply(reply), hash, times[0]),
                times.drop_first(),
                entries,
                hash,
                between,
                end,
                after,
            );
        },
        TurnView::Prompt(_, wait) => {
            law_commands_keep_tables_valid(
                next_turn(wait, EventView::Entered(entries[0]), hash, 0),
                times,
                entries.drop_first(),
                hash,
                before,
                end,
                after,
            );
        },
        _ => {},
    }
}

/// Adding an account under a name that is not taken makes it: with the hash of the password,
/// active, and an administrator if that was asked for.
pub proof fn law_account_is_created(
    name: Seq<char>,
    admin: bool,
    email: Seq<char>,
    password: Seq<char>,
    times: Seq<i64>,
    entries: Seq<Seq<char>>,
    hash: Seq<char>,
    before: Tables,
    end: TurnView,
    after: Tables,
) -> (id: i64)
    requires
        ran(
            run_user_view(UserActionView::Add { name, admin, email, password: Some(password) }),
            times,
            entries,
            Some(hash),
            before,
            end,
            after,
        ),
        !blank(name),
        !before.is_taken(name),
        password.len() > 0,
    ensures
        end == TurnView::Print(seq![stored_line(PurposeView::Add { name, admin, email })]),
        times.len() == 2,
        !before.users.contains_key(id),
        after == (Tables {
            users: before.users.insert(
                id,
                account(id, new_user_view(name, hash, email, admin, times[1])),
            ),
            ..before
        }),
{
    reveal_with_fuel(ran, 4);
    let purpose = PurposeView::Add { name, admin, email };
    let rest = times.drop_first();
    let query = QueryView::CreateUser { name, password_hash: hash, email, is_admin: admin };
    let wait = WaitView::Stored { purpose };
    assert(ran(TurnView::Ask(query, wait), rest, entries, Some(hash), before, end, after));
    let (reply, between) = choose|reply: ReplyView, between: Tables| #[trigger]
        served(before, query, rest[0], reply, between) && ran(
            next_turn(wait, EventView::Reply(reply), Some(hash), rest[0]),
            rest.drop_first(),
            entries,
            Some(hash),
            between,
            end,
            after,
        );
    reply->Count_0
}

/// There is no second account of a name, in upper or lower case.
pub proof fn law_no_second_account_of_a_name(
    name: Seq<char>,
    admin: bool,
    email: Seq<char>,
    password: Option<Seq<char>>,
    times: Seq<i64>,
    entries: Seq<Seq<char>>,
    hash: Option<Seq<char>>,
    before: Tables,
    end: TurnView,
    after: Tables,
)
    requires
        ran(
            run_user_view(UserActionView::Add { name, admin, email, password }),
            times,
            entries,
            hash,
            before,
            end,
            after,
        ),
        before.is_taken(name),
        !blank(name),
    ensures
        end == TurnView::Refuse("user "@ + quotation(name) + " already exists"@),
        after == before,
{
    reveal_with_fuel(ran, 4);
}

/// A name of nothing but spaces is refused.
pub proof fn law_name_of_spaces_is_refused(
    n: nat,
    admin: bool,
    email: Seq<char>,
    password: Option<Seq<char>>,
)
    ensures
        run_user_view(UserActionView::Add { name: spaces(n), admin, email, password })
            == TurnView::Refuse("username cannot be empty"@),
{
}

/// A password that is typed in counts only if it is typed in twice alike.
pub proof fn law_typed_passwords_must_agree(
    name: Seq<char>,
    times: Seq<i64>,
    entries: Seq<Seq<char>>,
    hash: Option<Seq<char>>,
    before: Tables,
    end: TurnView,
    after: Tables,
)
    requires
        ran(
            run_user_view(UserActionView::Passwd { name, password: None }),
            times,
            entries,
            hash,
            before,
            end,
            after,
        ),
        before.is_taken(name),
        entries.len() > 0 && entries[0].len() > 0,
        entries.len() > 1 ==> entries[0] != entries[1],
    ensures
        end == TurnView::Refuse("passwords do not match"@),
        after == before,
{
    reveal_with_fuel(ran, 5);
}

/// Changing a password stores the hash of the new one for the account of that name and ends
/// the sessions of the account, and changes nothing else.
pub proof fn law_password_is_changed(
    name: Seq<char>,
    password: Seq<char>,
    times: Seq<i64>,
    entries: Seq<Seq<char>>,
    hash: Seq<char>,
    before: Tables,
    end: TurnView,
    after: Tables,
    id: i64,
)
    requires
        before.valid(),
        ran(
            run_user_view(UserActionView::Passwd { name, password: Some(password) }),
            times,
            entries,
            Some(hash),
            before,
            end,
            after,
        ),
        before.named(id, name),
        password.len() > 0,
    ensures
        end == TurnView::Print(seq!["password updated for "@ + quotation(name)]),
        after == with_password(before, id, hash),
        forall|token: Seq<char>, later: i64|
            (before.session(token, later) matches Some(user) && user.id == id)
                ==> #[trigger] after.session(token, later) is None,
{
    assert(before.is_taken(name));
    reveal_with_fuel(ran, 4);
    assert forall|token: Seq<char>, later: i64|
        (before.session(token, later) matches Some(user) && user.id
            == id) implies #[trigger] after.session(token, later) is None by {
        assert(before.users.contains_key(before.tokens[token].user_id));
    }
}

/// An account that was added can be logged into with its password.
pub proof fn law_new_account_can_log_in(
    name: Seq<char>,
    admin: bool,
    email: Seq<char>,
    password: Seq<char>,
    times: Seq<i64>,
    entries: Seq<Seq<char>>,
    hash: Seq<char>,
    before: Tables,
    end: TurnView,
    between: Tables,
    req: LoginRequestView,
    ttl: u64,
    login_times: Seq<i64>,
    token: Seq<char>,
    response: ResponseView,
    after: Tables,
) -> (id: i64)
    requires
        before.valid(),
        ran(
            run_user_view(UserActionView::Add { name, admin, email, password: Some(password) }),
            times,
            entries,
            Some(hash),
            before,
            end,
            between,
        ),
        hashes_to(password, Some(hash)),
        !blank(name),
        !before.is_taken(name),
        password.len() > 0,
        req.username == Some(name),
        req.password == Some(password),
        answered(login_view(req, ttl), login_times, token, between, response, after),
        !between.tokens.contains_key(token),
    ensures
        between.named(id, name),
        response == login_token_view(token, between.users[id], ReplyView::Done),
        login_times.len() == 2,
        login_times[1] < expiry(login_times[1], ttl) ==> after.session(token, login_times[1])
            == Some(between.users[id]),
{
    let id = law_account_is_created(
        name,
        admin,
        email,
        password,
        times,
        entries,
        hash,
        before,
        end,
        between,
    );
    assert(blank(Seq::empty()));
    assert(name.len() > 0) by {
        if name.len() == 0 {
            assert(name =~= Seq::empty());
        }
    }
    let query = QueryView::CreateUser { name, password_hash: hash, email, is_admin: admin };
    assert(served(before, query, times[1], ReplyView::Count(id), between));
    law_queries_keep_tables_valid(before, query, times[1], ReplyView::Count(id), between);
    assert(between.named(id, name));
    law_login_opens_session(req, ttl, login_times, token, between, response, after, id);
    id
}

/// Once a password is changed the old one is of no use, unless it matches the new hash too.
pub proof fn law_old_password_is_refused(
    name: Seq<char>,
    password: Seq<char>,
    times: Seq<i64>,
    entries: Seq<Seq<char>>,
    hash: Seq<char>,
    before: Tables,
    end: TurnView,
    between: Tables,
    id: i64,
    req: LoginRequestView,
    ttl: u64,
    login_times: Seq<i64>,
    token: Seq<char>,
    response: ResponseView,
    after: Tables,
)
    requires
        before.valid(),
        ran(
            run_user_view(UserActionView::Passwd { name, password: Some(password) }),
            times,
            entries,
            Some(hash),
            before,
            end,
            between,
        ),
        before.named(id, name),
        password.len() > 0,
        is_complete(req),
        lower(or_empty(req.username)) == lower(name),
        !password_accepted(or_empty(req.password), hash),
        answered(login_view(req, ttl), login_times, token, between, response, after),
    ensures
        response == error_view(OK, "Wrong username or password"@),
        after == between,
{
    law_password_is_changed(name, password, times, entries, hash, before, end, between, id);
    assert(between.users.dom() =~= before.users.dom());
    assert forall|other: i64| #[trigger]
        between.named(other, or_empty(req.username)) implies !password_accepted(
        or_empty(req.password),
        between.users[other].password_hash,
    ) by {
        assert(before.named(other, name));
    }
    let query = QueryView::SetPassword { name, password_hash: hash };
    assert(before.is_taken(name));
    assert(served(before, query, 0, ReplyView::Count(1), between));
    law_queries_keep_tables_valid(before, query, 0, ReplyView::Count(1), between);
    law_login_refused(req, ttl, login_times, token, between, response, after);
}

/// Removing an account removes it with its sessions and its address book; a name that no
/// account has is refused.
pub proof fn law_account_is_removed(
    name: Seq<char>,
    times: Seq<i64>,
    entries: Seq<Seq<char>>,
    hash: Option<Seq<char>>,
    before: Tables,
    end: TurnView,
    after: Tables,
    id: i64,
)
    requires
        before.valid(),
        ran(
            run_user_view(UserActionView::Rm { name }),
            times,
            entries,
            hash,
            before,
            end,
            after,
        ),
    ensures
        before.named(id, name) ==> end == TurnView::Print(
            seq!["deleted user "@ + quotation(name)],
        ) && after == without_user(before, id),
        !before.is_taken(name) ==> end == TurnView::Refuse("no such user: "@ + name) && after
            == before,
{
    reveal_with_fuel(ran, 3);
}

/// A command that is refused changes nothing.
pub proof fn law_refused_command_changes_nothing(
    turn: TurnView,
    times: Seq<i64>,
    entries: Seq<Seq<char>>,
    hash: Option<Seq<char>>,
    before: Tables,
    message: Seq<char>,
    after: Tables,
)
    requires
        ran(turn, times, entries, hash, before, TurnView::Refuse(message), after),
        (exists|action: UserActionView| turn == #[trigger] run_user_view(action)) || (exists|
            action: DeviceActionView,
        |
            turn == #[trigger] run_device_view(action)),
    ensures
        after == before,
{
    reveal_with_fuel(ran, 6);
    if let TurnView::Ask(QueryView::DeleteDevice { id }, _) = turn {
        assert(before.devices.remove(id) =~= before.devices || before.devices.contains_key(id));
    }
}

/// The list of workstations on the command line holds every one that is registered, however
/// long ago it was seen: one line each, under a title.
pub proof fn law_command_line_lists_every_device(
    times: Seq<i64>,
    entries: Seq<Seq<char>>,
    hash: Option<Seq<char>>,
    before: Tables,
    end: TurnView,
    after: Tables,
) -> (list: Seq<DeviceView>)
    requires
        ran(
            run_device_view(DeviceActionView::List),
            times,
            entries,
            hash,
            before,
            end,
            after,
        ),
    ensures
        lists_devices(before, list, 0, times[0]),
        forall|device: DeviceView| #[trigger]
            list.contains(device) <==> before.devices.contains_key(device.id)
                && before.devices[device.id] == device,
        end == TurnView::Print(device_lines(list, times[0])),
        end->Print_0.len() == list.len() + 1,
        after == before,
{
    reveal_with_fuel(ran, 3);
    let query = QueryView::ListDevices { stale_days: 0 };
    let (reply, between) = choose|reply: ReplyView, between: Tables| #[trigger]
        served(before, query, times[0], reply, between) && ran(
            next_turn(WaitView::Devices, EventView::Reply(reply), hash, times[0]),
            times.drop_first(),
            entries,
            hash,
            between,
            end,
            after,
        );
    let list = reply->Devices_0;
    assert forall|device: DeviceView| #[trigger] list.contains(device) <==> (
    before.devices.contains_key(device.id) && before.devices[device.id] == device) by {
        assert(list.contains(device) <==> before.lists_device(device, 0, times[0]));
    }
    list
}

// ---------------------------------------------------------------------------
// The first account
// ---------------------------------------------------------------------------

/// The start of the server that stands at `boot` ends in `end`: its queries are answered at
/// the clock readings `times`, `hash` is the hash of the first account's password, and it
/// turns `before` into `after`.
pub open spec fn booted(
    boot: BootView,
    times: Seq<i64>,
    hash: Option<Seq<char>>,
    before: Tables,
    end: BootView,
    after: Tables,
) -> bool
    decreases times.len(),
{
    match boot {
        BootView::Ask(query, wait) => {
            &&& times.len() > 0
            &&& exists|reply: ReplyView, between: Tables| #[trigger]
                served(before, query, times[0], reply, between) && booted(
                    next_boot(wait, reply, hash),
                    times.drop_first(),
                    hash,
                    between,
                    end,
                    after,
                )
        },
        _ => times.len() == 0 && end == boot && after == before,
    }
}

/// Starting the server leaves the tables in order.
pub proof fn law_start_keeps_tables_valid(
    boot: BootView,
    times: Seq<i64>,
    hash: Option<Seq<char>>,
    before: Tables,
    end: BootView,
    after: Tables,
)
    requires
        before.valid(),
        booted(boot, times, hash, before, end, after),
    ensures
        after.valid(),
    decreases times.len(),
{
    if let BootView::Ask(query, wait) = boot {
        let (reply, between) = choose|reply: ReplyView, between: Tables| #[trigger]
            served(before, query, times[0], reply, between) && booted(
                next_boot(wait, reply, hash),
                times.drop_first(),
                hash,
                between,
                end,
                after,
            );
        law_queries_keep_tables_valid(before, query, times[0], reply, between);
        law_start_keeps_tables_valid(
            next_boot(wait, reply, hash),
            times.drop_first(),
            hash,
            between,
            end,
            after,
        );
    }
}

/// Once there is an account, starting the server makes none and changes none, whatever the
/// configuration says: it drops the sessions that have run out and nothing else, and starts.
pub proof fn law_bootstrap_spares_existing_accounts(
    config: ConfigView,
    times: Seq<i64>,
    hash: Option<Seq<char>>,
    before: Tables,
    end: BootView,
    after: Tables,
)
    requires
        before.users.len() > 0,
        booted(bootstrap_view(config), times, hash, before, end, after),
    ensures
        times.len() >= 2,
        after == (Tables { tokens: live_tokens(before, times[times.len() - 2]), ..before }),
        end == (BootView::Listen { deserted: false }),
{
    reveal_with_fuel(booted, 5);
}

/// While there is no account, and the configuration names one with its password, starting the
/// server makes exactly that one, an administrator, drops the sessions that have run out, and
/// changes nothing else.
pub proof fn law_bootstrap_makes_the_first_account(
    config: ConfigView,
    times: Seq<i64>,
    hash: Seq<char>,
    before: Tables,
    end: BootView,
    after: Tables,
    name: Seq<char>,
) -> (id: i64)
    requires
        before.valid(),
        before.users.len() == 0,
        config.admin_user == Some(name),
        config.admin_password is Some,
        booted(bootstrap_view(config), times, Some(hash), before, end, after),
    ensures
        times.len() == 4,
        after == (Tables {
            users: Map::<i64, UserView>::empty().insert(
                id,
                account(id, new_user_view(name, hash, ""@, true, times[1])),
            ),
            tokens: live_tokens(before, times[2]),
            ..before
        }),
        end == (BootView::Listen { deserted: false }),
{
    reveal_with_fuel(booted, 6);
    assert(before.users.dom() =~= Set::empty());
    assert(before.users =~= Map::empty());
    let rest = times.drop_first();
    let query = QueryView::CreateUser { name, password_hash: hash, email: ""@, is_admin: true };
    let boot = BootView::Ask(query, BootWaitView::Created);
    assert(booted(boot, rest, Some(hash), before, end, after));
    let (reply, between) = choose|reply: ReplyView, between: Tables| #[trigger]
        served(before, query, rest[0], reply, between) && booted(
            next_boot(BootWaitView::Created, reply, Some(hash)),
            rest.drop_first(),
            Some(hash),
            between,
            end,
            after,
        );
    assert(!before.is_taken(name));
    assert(between.users.len() == 1);
    reply->Count_0
}

/// Without an account in the configuration the start makes none: it drops the sessions that
/// have run out and changes nothing else.
pub proof fn law_start_makes_no_account_unasked(
    config: ConfigView,
    times: Seq<i64>,
    hash: Option<Seq<char>>,
    before: Tables,
    end: BootView,
    after: Tables,
)
    requires
        config.admin_user is None || config.admin_password is None,
        booted(bootstrap_view(config), times, hash, before, end, after),
    ensures
        times.len() == 2,
        after == (Tables { tokens: live_tokens(before, times[0]), ..before }),
        end == (BootView::Listen { deserted: before.users.len() == 0 }),
{
    reveal_with_fuel(booted, 4);
}

} // verus!
