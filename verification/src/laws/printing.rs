//! What the command line prints.

use crate::cli::{
    ago_view, device_line, device_lines, elapsed, quotation, stored_line, truncated, user_line,
    user_lines, PurposeView,
};
use crate::db::{DeviceView, UserView};
use crate::text::{decimal, padded};
use vstd::prelude::*;

verus! {

/// `text` stands in `line` from the position `at` on.
pub open spec fn stands(line: Seq<char>, at: int, text: Seq<char>) -> bool {
    &&& 0 <= at
    &&& at + text.len() <= line.len()
    &&& line.subrange(at, at + text.len()) == text
}

/// Nothing but spaces stands in `line` from `from` up to `to`.
pub open spec fn is_gap(line: Seq<char>, from: int, to: int) -> bool {
    forall|i: int| from <= i < to ==> #[trigger] line[i] == ' '
}

/// Where the column after `text` begins that begins at `at` and is `width` characters wide: a
/// space later than the column ends, or the text if that is longer.
pub open spec fn after_column(at: int, text: Seq<char>, width: int) -> int {
    at + (if text.len() > width {
        text.len() as int
    } else {
        width
    }) + 1
}

/// A column of a line that goes on behind it: the text stands where the column begins, and
/// spaces follow up to the next one.
proof fn lemma_column(before: Seq<char>, text: Seq<char>, width: nat, rest: Seq<char>)
    ensures
        ({
            let line = before + padded(text, width) + " "@ + rest;
            let next = after_column(before.len() as int, text, width as int);
            &&& stands(line, before.len() as int, text)
            &&& is_gap(line, (before.len() + text.len()) as int, next)
            &&& (before + padded(text, width) + " "@).len() == next
            &&& stands(line, next, rest)
            &&& line.len() == next + rest.len()
        }),
{
    reveal_strlit(" ");
    assert(" "@.len() == 1 && " "@[0] == ' ');
    let line = before + padded(text, width) + " "@ + rest;
    let at = before.len() as int;
    let next = after_column(at, text, width as int);
    assert(line.subrange(at, at + text.len()) =~= text);
    assert(line.subrange(next, next + rest.len()) =~= rest);
}

/// A row of the table of accounts has the name in its first column, the email or a dash in the
/// second, whether the account is an administrator in the third, and at its end whether it is
/// active. Columns are 24, 28 and 7 characters wide; longer text pushes the others along.
pub proof fn law_user_line_columns(
    user: UserView,
    email: Seq<char>,
    admin: Seq<char>,
    status: Seq<char>,
)
    requires
        user.email.len() > 0 ==> email == user.email,
        user.email.len() == 0 ==> email == "-"@,
        user.is_admin != 0 ==> admin == "yes"@,
        user.is_admin == 0 ==> admin == "no"@,
        user.status != 0 ==> status == "active"@,
        user.status == 0 ==> status == "disabled"@,
    ensures
        ({
            let line = user_line(user);
            let second = after_column(0, user.name, 24);
            let third = after_column(second, email, 28);
            let last = after_column(third, admin, 7);
            &&& stands(line, 0, user.name)
            &&& is_gap(line, user.name.len() as int, second)
            &&& stands(line, second, email)
            &&& is_gap(line, second + email.len(), third)
            &&& stands(line, third, admin)
            &&& is_gap(line, third + admin.len(), last)
            &&& stands(line, last, status)
            &&& line.len() == last + status.len()
        }),
{
    let empty = Seq::<char>::empty();
    let one = empty + padded(user.name, 24) + " "@;
    let two = one + padded(email, 28) + " "@;
    let line = two + padded(admin, 7) + " "@ + status;
    assert(line =~= user_line(user));
    let rest_two = padded(admin, 7) + " "@ + status;
    let rest_one = padded(email, 28) + " "@ + rest_two;
    assert(line =~= one + rest_one);
    assert(line =~= two + rest_two);
    lemma_column(empty, user.name, 24, rest_one);
    lemma_column(one, email, 28, rest_two);
    lemma_column(two, admin, 7, status);
}

/// The table of accounts has a title with the names of the columns in their places and one line
/// for each account, in the order of the list; without accounts it says how to make one.
pub proof fn law_user_table(users: Seq<UserView>)
    ensures
        users.len() == 0 ==> user_lines(users).len() == 1 && user_lines(users)[0]
            == "no users yet \u{2014} create one with: rustdesk-api user add <name>"@,
        users.len() > 0 ==> {
            &&& user_lines(users).len() == users.len() + 1
            &&& stands(user_lines(users)[0], 0, "NAME"@)
            &&& stands(user_lines(users)[0], 25, "EMAIL"@)
            &&& stands(user_lines(users)[0], 54, "ADMIN"@)
            &&& stands(user_lines(users)[0], 62, "STATUS"@)
            &&& user_lines(users)[0].len() == 68
            &&& forall|i: int|
                0 <= i < users.len() ==> #[trigger] user_lines(users)[i + 1] == user_line(users[i])
        },
{
    if users.len() > 0 {
        reveal_strlit("NAME");
        reveal_strlit("EMAIL");
        reveal_strlit("ADMIN");
        reveal_strlit("STATUS");
        assert("NAME"@.len() == 4);
        assert("EMAIL"@.len() == 5);
        assert("ADMIN"@.len() == 5);
        assert("STATUS"@.len() == 6);
        let empty = Seq::<char>::empty();
        let one = empty + padded("NAME"@, 24) + " "@;
        let two = one + padded("EMAIL"@, 28) + " "@;
        let line = two + padded("ADMIN"@, 7) + " "@ + "STATUS"@;
        assert(line =~= user_lines(users)[0]);
        let rest_two = padded("ADMIN"@, 7) + " "@ + "STATUS"@;
        let rest_one = padded("EMAIL"@, 28) + " "@ + rest_two;
        assert(line =~= one + rest_one);
        assert(line =~= two + rest_two);
        lemma_column(empty, "NAME"@, 24, rest_one);
        lemma_column(one, "EMAIL"@, 28, rest_two);
        lemma_column(two, "ADMIN"@, 7, "STATUS"@);
        assert forall|i: int| 0 <= i < users.len() implies #[trigger] user_lines(users)[i + 1]
            == user_line(users[i]) by {}
    }
}

/// A row of the table of workstations has the id, the host name, cut to 24 characters, the
/// platform and the version in its columns, which are 12, 24, 10 and 10 characters wide, and at
/// its end how long ago the workstation was seen.
pub proof fn law_device_line_columns(device: DeviceView, now: i64)
    ensures
        ({
            let line = device_line(device, now);
            let host = truncated(device.hostname, 24);
            let second = after_column(0, device.id, 12);
            let third = after_column(second, host, 24);
            let fourth = after_column(third, device.platform, 10);
            let last = after_column(fourth, device.version, 10);
            &&& stands(line, 0, device.id)
            &&& is_gap(line, device.id.len() as int, second)
            &&& stands(line, second, host)
            &&& is_gap(line, second + host.len(), third)
            &&& stands(line, third, device.platform)
            &&& is_gap(line, third + device.platform.len(), fourth)
            &&& stands(line, fourth, device.version)
            &&& is_gap(line, fourth + device.version.len(), last)
            &&& stands(line, last, ago_view(device.last_seen, now))
            &&& line.len() == last + ago_view(device.last_seen, now).len()
        }),
{
    let host = truncated(device.hostname, 24);
    let ago = ago_view(device.last_seen, now);
    let empty = Seq::<char>::empty();
    let one = empty + padded(device.id, 12) + " "@;
    let two = one + padded(host, 24) + " "@;
    let three = two + padded(device.platform, 10) + " "@;
    let line = three + padded(device.version, 10) + " "@ + ago;
    assert(line =~= device_line(device, now));
    let rest_three = padded(device.version, 10) + " "@ + ago;
    let rest_two = padded(device.platform, 10) + " "@ + rest_three;
    let rest_one = padded(host, 24) + " "@ + rest_two;
    assert(line =~= one + rest_one);
    assert(line =~= two + rest_two);
    assert(line =~= three + rest_three);
    lemma_column(empty, device.id, 12, rest_one);
    lemma_column(one, host, 24, rest_two);
    lemma_column(two, device.platform, 10, rest_three);
    lemma_column(three, device.version, 10, ago);
}

/// The table of workstations has a title with the names of the columns in their places and one
/// line for each workstation, in the order of the list; without workstations it says so.
pub proof fn law_device_table(devices: Seq<DeviceView>, now: i64)
    ensures
        devices.len() == 0 ==> device_lines(devices, now).len() == 1 && device_lines(
            devices,
            now,
        )[0] == "no workstations have registered yet"@,
        devices.len() > 0 ==> {
            let title = device_lines(devices, now)[0];
            &&& device_lines(devices, now).len() == devices.len() + 1
            &&& stands(title, 0, "ID"@)
            &&& stands(title, 13, "HOSTNAME"@)
            &&& stands(title, 38, "PLATFORM"@)
            &&& stands(title, 49, "VERSION"@)
            &&& stands(title, 60, "LAST SEEN"@)
            &&& title.len() == 69
            &&& forall|i: int|
                0 <= i < devices.len() ==> #[trigger] device_lines(devices, now)[i + 1]
                    == device_line(devices[i], now)
        },
{
    if devices.len() > 0 {
        reveal_strlit("ID");
        reveal_strlit("HOSTNAME");
        reveal_strlit("PLATFORM");
        reveal_strlit("VERSION");
        reveal_strlit("LAST SEEN");
        assert("ID"@.len() == 2);
        assert("HOSTNAME"@.len() == 8);
        assert("PLATFORM"@.len() == 8);
        assert("VERSION"@.len() == 7);
        assert("LAST SEEN"@.len() == 9);
        let empty = Seq::<char>::empty();
        let one = empty + padded("ID"@, 12) + " "@;
        let two = one + padded("HOSTNAME"@, 24) + " "@;
        let three = two + padded("PLATFORM"@, 10) + " "@;
        let line = three + padded("VERSION"@, 10) + " "@ + "LAST SEEN"@;
        assert(line =~= device_lines(devices, now)[0]);
        let rest_three = padded("VERSION"@, 10) + " "@ + "LAST SEEN"@;
        let rest_two = padded("PLATFORM"@, 10) + " "@ + rest_three;
        let rest_one = padded("HOSTNAME"@, 24) + " "@ + rest_two;
        assert(line =~= one + rest_one);
        assert(line =~= two + rest_two);
        assert(line =~= three + rest_three);
        lemma_column(empty, "ID"@, 12, rest_one);
        lemma_column(one, "HOSTNAME"@, 24, rest_two);
        lemma_column(two, "PLATFORM"@, 10, rest_three);
        lemma_column(three, "VERSION"@, 10, "LAST SEEN"@);
        assert forall|i: int| 0 <= i < devices.len() implies #[trigger] device_lines(
            devices,
            now,
        )[i + 1] == device_line(devices[i], now) by {}
    }
}

/// How long ago something was is told in whole minutes, hours or days, the largest of them of
/// which one has passed, and not at all where it is less than 90 seconds.
pub proof fn law_ago_counts_whole_units(timestamp: i64, now: i64, n: nat)
    ensures
        ({
            let s = elapsed(timestamp, now);
            &&& s < 90 ==> ago_view(timestamp, now) == "just now"@
            &&& 90 <= s < 3_600 && n * 60 <= s < (n + 1) * 60 ==> ago_view(timestamp, now)
                == decimal(n) + "m ago"@
            &&& 3_600 <= s < 86_400 && n * 3_600 <= s < (n + 1) * 3_600 ==> ago_view(timestamp, now)
                == decimal(n) + "h ago"@
            &&& 86_400 <= s && n * 86_400 <= s < (n + 1) * 86_400 ==> ago_view(timestamp, now)
                == decimal(n) + "d ago"@
        }),
{
}

/// A command that stored a password says for whom, and of a new administrator that it is one.
pub proof fn law_stored_line_names_the_account(name: Seq<char>, email: Seq<char>)
    ensures
        stored_line(PurposeView::Add { name, admin: false, email }) == "created user "@ + quotation(
            name,
        ),
        stored_line(PurposeView::Add { name, admin: true, email }) == "created user "@ + quotation(
            name,
        ) + " (admin)"@,
        stored_line(PurposeView::Passwd { name }) == "password updated for "@ + quotation(name),
{
    reveal_strlit("");
    assert(""@ =~= Seq::empty());
    let line = "created user "@ + quotation(name);
    assert(line + ""@ =~= line);
}

} // verus!
