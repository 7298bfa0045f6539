//! Account and device management from the command line.
//!
//! Everything runs against the same database the server uses, so it can be run alongside a
//! live server. As with the HTTP interface, a command takes turns with the outside: it returns
//! a [`Turn`], and [`go_on`] takes what came back.

use crate::auth::{hash_password, hashes_to};
use crate::db::{is_clock_time, now, Device, DeviceView, User, UserView};
use crate::query::{Query, QueryView, Reply, ReplyView};
use crate::text::{chars, collect, decimal, join, pad, padded, to_decimal};
use vstd::prelude::*;
use vstd::string::StringExecFns;

verus! {

// ---------------------------------------------------------------------------
// Commands
// ---------------------------------------------------------------------------

/// What to do with accounts.
#[derive(Debug, Clone)]
pub enum UserAction {
    /// Create a user account.
    Add {
        name: String,
        /// Mark the account as an administrator.
        admin: bool,
        /// Optional email, shown in the client's account panel.
        email: String,
        /// The password, instead of prompting for it.
        password: Option<String>,
    },
    /// List all accounts.
    List,
    /// Change an account's password.
    Passwd { name: String, password: Option<String> },
    /// Delete an account and all of its sessions and address book entries.
    Rm { name: String },
}

/// What to do with workstations.
#[derive(Debug, Clone)]
pub enum DeviceAction {
    /// List every registered workstation.
    List,
    /// Remove a workstation. It reappears if that machine reports in again.
    Rm { id: String },
}

/// What a [`UserAction`] says.
pub enum UserActionView {
    Add { name: Seq<char>, admin: bool, email: Seq<char>, password: Option<Seq<char>> },
    List,
    Passwd { name: Seq<char>, password: Option<Seq<char>> },
    Rm { name: Seq<char> },
}

impl View for UserAction {
    type V = UserActionView;

    open spec fn view(&self) -> UserActionView {
        match self {
            UserAction::Add { name, admin, email, password } => UserActionView::Add {
                name: name@,
                admin: *admin,
                email: email@,
                password: password.deep_view(),
            },
            UserAction::List => UserActionView::List,
            UserAction::Passwd { name, password } => UserActionView::Passwd {
                name: name@,
                password: password.deep_view(),
            },
            UserAction::Rm { name } => UserActionView::Rm { name: name@ },
        }
    }
}

/// What a [`DeviceAction`] says.
pub enum DeviceActionView {
    List,
    Rm { id: Seq<char> },
}

impl View for DeviceAction {
    type V = DeviceActionView;

    open spec fn view(&self) -> DeviceActionView {
        match self {
            DeviceAction::List => DeviceActionView::List,
            DeviceAction::Rm { id } => DeviceActionView::Rm { id: id@ },
        }
    }
}

// ---------------------------------------------------------------------------
// Turns
// ---------------------------------------------------------------------------

/// What a password is for.
pub enum Purpose {
    /// The account that is to be created.
    Add { name: String, admin: bool, email: String },
    /// The account whose password is to be changed.
    Passwd { name: String },
}

/// What a [`Purpose`] says.
pub enum PurposeView {
    Add { name: Seq<char>, admin: bool, email: Seq<char> },
    Passwd { name: Seq<char> },
}

impl View for Purpose {
    type V = PurposeView;

    open spec fn view(&self) -> PurposeView {
        match self {
            Purpose::Add { name, admin, email } => PurposeView::Add {
                name: name@,
                admin: *admin,
                email: email@,
            },
            Purpose::Passwd { name } => PurposeView::Passwd { name: name@ },
        }
    }
}

/// What a command waits for.
pub enum Wait {
    /// Whether the account exists.
    Lookup { purpose: Purpose, password: Option<String> },
    /// The password, typed in.
    Password { purpose: Purpose },
    /// The password, typed in again.
    Confirm { purpose: Purpose, password: String },
    /// That the password was stored.
    Stored { purpose: Purpose },
    /// The accounts.
    Users,
    /// How many accounts were deleted.
    UserRemoved { name: String },
    /// The workstations.
    Devices,
    /// How many workstations were removed.
    DeviceRemoved { id: String },
}

/// What a [`Wait`] says.
pub enum WaitView {
    Lookup { purpose: PurposeView, password: Option<Seq<char>> },
    Password { purpose: PurposeView },
    Confirm { purpose: PurposeView, password: Seq<char> },
    Stored { purpose: PurposeView },
    Users,
    UserRemoved { name: Seq<char> },
    Devices,
    DeviceRemoved { id: Seq<char> },
}

impl View for Wait {
    type V = WaitView;

    open spec fn view(&self) -> WaitView {
        match self {
            Wait::Lookup { purpose, password } => WaitView::Lookup {
                purpose: purpose@,
                password: password.deep_view(),
            },
            Wait::Password { purpose } => WaitView::Password { purpose: purpose@ },
            Wait::Confirm { purpose, password } => WaitView::Confirm {
                purpose: purpose@,
                password: password@,
            },
            Wait::Stored { purpose } => WaitView::Stored { purpose: purpose@ },
            Wait::Users => WaitView::Users,
            Wait::UserRemoved { name } => WaitView::UserRemoved { name: name@ },
            Wait::Devices => WaitView::Devices,
            Wait::DeviceRemoved { id } => WaitView::DeviceRemoved { id: id@ },
        }
    }
}

/// Where a command stands.
pub enum Turn {
    /// Ask the database.
    Ask(Query, Wait),
    /// Read a line from the terminal without showing it, behind this prompt.
    Prompt(String, Wait),
    /// Print these lines: the command is done.
    Print(Vec<String>),
    /// The command is refused with this message.
    Refuse(String),
    /// The database or the terminal failed; the message is theirs.
    Fail,
}

/// What a [`Turn`] says.
pub enum TurnView {
    Ask(QueryView, WaitView),
    Prompt(Seq<char>, WaitView),
    Print(Seq<Seq<char>>),
    Refuse(Seq<char>),
    Fail,
}

impl View for Turn {
    type V = TurnView;

    open spec fn view(&self) -> TurnView {
        match self {
            Turn::Ask(query, wait) => TurnView::Ask(query@, wait@),
            Turn::Prompt(prompt, wait) => TurnView::Prompt(prompt@, wait@),
            Turn::Print(lines) => TurnView::Print(lines.deep_view()),
            Turn::Refuse(message) => TurnView::Refuse(message@),
            Turn::Fail => TurnView::Fail,
        }
    }
}

/// What comes back from the outside.
pub enum Event {
    /// The answer of the database.
    Reply(Reply),
    /// What was typed in.
    Entered(String),
    /// The terminal could not be read.
    Unreadable,
}

/// What an [`Event`] says.
pub enum EventView {
    Reply(ReplyView),
    Entered(Seq<char>),
    Unreadable,
}

impl View for Event {
    type V = EventView;

    open spec fn view(&self) -> EventView {
        match self {
            Event::Reply(reply) => EventView::Reply(reply@),
            Event::Entered(s) => EventView::Entered(s@),
            Event::Unreadable => EventView::Unreadable,
        }
    }
}

// ---------------------------------------------------------------------------
// Text
// ---------------------------------------------------------------------------

/// `c` has the Unicode property White_Space.
pub open spec fn white_space(c: char) -> bool {
    ||| '\u{0009}' <= c && c <= '\u{000D}'
    ||| c == '\u{0020}'
    ||| c == '\u{0085}'
    ||| c == '\u{00A0}'
    ||| c == '\u{1680}'
    ||| '\u{2000}' <= c && c <= '\u{200A}'
    ||| c == '\u{2028}'
    ||| c == '\u{2029}'
    ||| c == '\u{202F}'
    ||| c == '\u{205F}'
    ||| c == '\u{3000}'
}

/// `char::is_whitespace` tells whether a character has the property White_Space: those are the
/// characters that the Unicode Character Database lists for it.
pub assume_specification[ char::is_whitespace ](c: char) -> (r: bool)
    ensures
        r == white_space(c),
;

/// `s` in quotes, with its special characters escaped.
pub uninterp spec fn quotation(s: Seq<char>) -> Seq<char>;

/// Calls `format!` with the `Debug` form of a text. Claimed: the result depends on the text
/// alone.
#[verifier::external_body]
fn quoted(s: &str) -> (r: String)
    ensures
        r@ == quotation(s@),
{
    format!("{s:?}")
}

/// `s` holds nothing but white space.
pub open spec fn blank(s: Seq<char>) -> bool {
    forall|i: int| 0 <= i < s.len() ==> white_space(#[trigger] s[i])
}

/// Whether `s` holds nothing but white space.
pub fn is_blank(s: &str) -> (r: bool)
    ensures
        r == blank(s@),
{
    for c in it: s.chars()
        invariant
            it.seq() == s@,
            forall|i: int| 0 <= i < it.index() ==> white_space(#[trigger] s@[i]),
    {
        if !c.is_whitespace() {
            return false;
        }
    }
    true
}

/// `value` cut to `max` characters, the last of them an ellipsis where something was cut off.
pub open spec fn truncated(value: Seq<char>, max: nat) -> Seq<char> {
    if value.len() <= max {
        value
    } else {
        value.take(if max > 0 { max - 1 } else { 0 }).push('\u{2026}')
    }
}

/// Cuts `value` to `max` characters; only for `max` 0 the ellipsis is one too many.
pub fn truncate(value: &str, max: usize) -> (r: String)
    ensures
        r@ == truncated(value@, max as nat),
        max > 0 ==> r@.len() <= max,
{
    let all = chars(value);
    if all.len() <= max {
        return value.to_owned();
    }
    let kept: usize = if max > 0 {
        max - 1
    } else {
        0
    };
    let mut r = collect(&all, 0, kept);
    r.push('\u{2026}');
    proof {
        assert(value@.subrange(0, kept as int) =~= value@.take(kept as int));
    }
    r
}

/// The time between two time stamps, 0 where the second comes first. The difference wraps
/// where it leaves the range of a time stamp.
pub open spec fn elapsed(timestamp: i64, now: i64) -> int {
    let seconds = now.wrapping_sub(timestamp);
    if seconds < 0 {
        0
    } else {
        seconds as int
    }
}

/// How long before `now` the time `timestamp` was.
pub open spec fn ago_view(timestamp: i64, now: i64) -> Seq<char> {
    let s = elapsed(timestamp, now);
    if s < 90 {
        "just now"@
    } else if s < 3_600 {
        decimal((s / 60) as nat) + "m ago"@
    } else if s < 86_400 {
        decimal((s / 3_600) as nat) + "h ago"@
    } else {
        decimal((s / 86_400) as nat) + "d ago"@
    }
}

/// Says how long before `now` the time `timestamp` was.
pub fn ago(timestamp: i64, now: i64) -> (r: String)
    ensures
        r@ == ago_view(timestamp, now),
{
    let difference: i64 = now.wrapping_sub(timestamp);
    let seconds: i64 = if difference < 0 {
        0
    } else {
        difference
    };
    if seconds < 90 {
        "just now".to_owned()
    } else if seconds < 3_600 {
        join(to_decimal((seconds / 60) as u64).as_str(), "m ago")
    } else if seconds < 86_400 {
        join(to_decimal((seconds / 3_600) as u64).as_str(), "h ago")
    } else {
        join(to_decimal((seconds / 86_400) as u64).as_str(), "d ago")
    }
}

/// The columns of a table row, each filled up to its width and followed by a space; the last
/// one stands as it is.
pub open spec fn user_line(user: UserView) -> Seq<char> {
    padded(user.name, 24) + " "@
        + padded(if user.email.len() == 0 { "-"@ } else { user.email }, 28) + " "@
        + padded(if user.is_admin != 0 { "yes"@ } else { "no"@ }, 7) + " "@
        + (if user.status == 0 { "disabled"@ } else { "active"@ })
}

/// The table of accounts.
pub open spec fn user_lines(users: Seq<UserView>) -> Seq<Seq<char>> {
    if users.len() == 0 {
        seq!["no users yet \u{2014} create one with: rustdesk-api user add <name>"@]
    } else {
        seq![
            padded("NAME"@, 24) + " "@ + padded("EMAIL"@, 28) + " "@ + padded("ADMIN"@, 7) + " "@
                + "STATUS"@,
        ] + users.map_values(|u: UserView| user_line(u))
    }
}

/// A row of the table of workstations.
pub open spec fn device_line(device: DeviceView, now: i64) -> Seq<char> {
    padded(device.id, 12) + " "@ + padded(truncated(device.hostname, 24), 24) + " "@
        + padded(device.platform, 10) + " "@ + padded(device.version, 10) + " "@
        + ago_view(device.last_seen, now)
}

/// The table of workstations.
pub open spec fn device_lines(devices: Seq<DeviceView>, now: i64) -> Seq<Seq<char>> {
    if devices.len() == 0 {
        seq!["no workstations have registered yet"@]
    } else {
        seq![
            padded("ID"@, 12) + " "@ + padded("HOSTNAME"@, 24) + " "@ + padded("PLATFORM"@, 10)
                + " "@ + padded("VERSION"@, 10) + " "@ + "LAST SEEN"@,
        ] + devices.map_values(|d: DeviceView| device_line(d, now))
    }
}

/// Appends the column `s`, filled up to `width`, and a space.
fn column(line: &mut String, s: &str, width: usize)
    ensures
        final(line)@ == old(line)@ + padded(s@, width as nat) + " "@,
{
    let filled = pad(s, width);
    line.append(filled.as_str());
    line.append(" ");
}

/// Writes a row of the table of accounts.
fn write_user(user: &User) -> (r: String)
    ensures
        r@ == user_line(user@),
{
    let mut line = String::new();
    column(&mut line, user.name.as_str(), 24);
    column(
        &mut line,
        if user.email.as_str().is_empty() {
            "-"
        } else {
            user.email.as_str()
        },
        28,
    );
    column(
        &mut line,
        if user.is_admin != 0 {
            "yes"
        } else {
            "no"
        },
        7,
    );
    line.append(
        if user.status == 0 {
            "disabled"
        } else {
            "active"
        },
    );
    proof {
        assert(line@ =~= user_line(user@));
    }
    line
}

/// Writes the table of accounts.
pub fn write_users(users: &Vec<User>) -> (r: Vec<String>)
    ensures
        r.deep_view() == user_lines(users.deep_view()),
{
    let mut lines: Vec<String> = Vec::new();
    if users.len() == 0 {
        lines.push(
            "no users yet \u{2014} create one with: rustdesk-api user add <name>".to_owned(),
        );
        proof {
            assert(lines.deep_view() =~= user_lines(users.deep_view()));
        }
        return lines;
    }
    let mut head = String::new();
    column(&mut head, "NAME", 24);
    column(&mut head, "EMAIL", 28);
    column(&mut head, "ADMIN", 7);
    head.append("STATUS");
    let ghost title = padded("NAME"@, 24) + " "@ + padded("EMAIL"@, 28) + " "@ + padded("ADMIN"@, 7)
        + " "@ + "STATUS"@;
    proof {
        assert(head@ =~= title);
    }
    lines.push(head);
    let ghost rows = users.deep_view().map_values(|u: UserView| user_line(u));
    proof {
        assert(lines.deep_view() =~= seq![title] + rows.take(0));
    }
    let mut i: usize = 0;
    while i < users.len()
        invariant
            i <= users@.len(),
            rows == users.deep_view().map_values(|u: UserView| user_line(u)),
            lines.deep_view() == seq![title] + rows.take(i as int),
        decreases users@.len() - i,
    {
        let ghost before = lines.deep_view();
        lines.push(write_user(&users[i]));
        proof {
            assert(lines.deep_view() =~= before.push(rows[i as int]));
            assert(rows.take(i + 1) =~= rows.take(i as int).push(rows[i as int]));
        }
        i = i + 1;
    }
    proof {
        assert(rows.take(users@.len() as int) =~= rows);
    }
    lines
}

/// Writes a row of the table of workstations.
fn write_device(device: &Device, now: i64) -> (r: String)
    ensures
        r@ == device_line(device@, now),
{
    let mut line = String::new();
    column(&mut line, device.id.as_str(), 12);
    column(&mut line, truncate(device.hostname.as_str(), 24).as_str(), 24);
    column(&mut line, device.platform.as_str(), 10);
    column(&mut line, device.version.as_str(), 10);
    line.append(ago(device.last_seen, now).as_str());
    proof {
        assert(line@ =~= device_line(device@, now));
    }
    line
}

/// Writes the table of workstations, as of `now`.
pub fn write_devices(devices: &Vec<Device>, now: i64) -> (r: Vec<String>)
    ensures
        r.deep_view() == device_lines(devices.deep_view(), now),
{
    let mut lines: Vec<String> = Vec::new();
    if devices.len() == 0 {
        lines.push("no workstations have registered yet".to_owned());
        proof {
            assert(lines.deep_view() =~= device_lines(devices.deep_view(), now));
        }
        return lines;
    }
    let mut head = String::new();
    column(&mut head, "ID", 12);
    column(&mut head, "HOSTNAME", 24);
    column(&mut head, "PLATFORM", 10);
    column(&mut head, "VERSION", 10);
    head.append("LAST SEEN");
    let ghost title = padded("ID"@, 12) + " "@ + padded("HOSTNAME"@, 24) + " "@ + padded(
        "PLATFORM"@,
        10,
    ) + " "@ + padded("VERSION"@, 10) + " "@ + "LAST SEEN"@;
    proof {
        assert(head@ =~= title);
    }
    lines.push(head);
    let ghost rows = devices.deep_view().map_values(|d: DeviceView| device_line(d, now));
    proof {
        assert(lines.deep_view() =~= seq![title] + rows.take(0));
    }
    let mut i: usize = 0;
    while i < devices.len()
        invariant
            i <= devices@.len(),
            rows == devices.deep_view().map_values(|d: DeviceView| device_line(d, now)),
            lines.deep_view() == seq![title] + rows.take(i as int),
        decreases devices@.len() - i,
    {
        let ghost before = lines.deep_view();
        lines.push(write_device(&devices[i], now));
        proof {
            assert(lines.deep_view() =~= before.push(rows[i as int]));
            assert(rows.take(i + 1) =~= rows.take(i as int).push(rows[i as int]));
        }
        i = i + 1;
    }
    proof {
        assert(rows.take(devices@.len() as int) =~= rows);
    }
    lines
}

// ---------------------------------------------------------------------------
// Running a command
// ---------------------------------------------------------------------------

/// The first turn of a command on accounts.
pub open spec fn run_user_view(action: UserActionView) -> TurnView {
    match action {
        UserActionView::Add { name, admin, email, password } => if blank(name) {
            TurnView::Refuse("username cannot be empty"@)
        } else {
            TurnView::Ask(
                QueryView::FindUserByName { name },
                WaitView::Lookup { purpose: PurposeView::Add { name, admin, email }, password },
            )
        },
        UserActionView::List => TurnView::Ask(QueryView::ListUsers, WaitView::Users),
        UserActionView::Passwd { name, password } => TurnView::Ask(
            QueryView::FindUserByName { name },
            WaitView::Lookup { purpose: PurposeView::Passwd { name }, password },
        ),
        UserActionView::Rm { name } => TurnView::Ask(
            QueryView::DeleteUser { name },
            WaitView::UserRemoved { name },
        ),
    }
}

/// Starts a command on accounts.
pub fn run_user(action: UserAction) -> (r: Turn)
    ensures
        r@ == run_user_view(action@),
{
    match action {
        UserAction::Add { name, admin, email, password } => {
            if is_blank(name.as_str()) {
                return Turn::Refuse("username cannot be empty".to_owned());
            }
            let wanted = name.clone();
            Turn::Ask(
                Query::FindUserByName { name: wanted },
                Wait::Lookup { purpose: Purpose::Add { name, admin, email }, password },
            )
        },
        UserAction::List => Turn::Ask(Query::ListUsers, Wait::Users),
        UserAction::Passwd { name, password } => {
            let wanted = name.clone();
            Turn::Ask(
                Query::FindUserByName { name: wanted },
                Wait::Lookup { purpose: Purpose::Passwd { name }, password },
            )
        },
        UserAction::Rm { name } => {
            let unwanted = name.clone();
            Turn::Ask(Query::DeleteUser { name: unwanted }, Wait::UserRemoved { name })
        },
    }
}

/// The first turn of a command on workstations. The list is not limited to those that were
/// seen lately: it includes machines the address book currently filters out.
pub open spec fn run_device_view(action: DeviceActionView) -> TurnView {
    match action {
        DeviceActionView::List => TurnView::Ask(
            QueryView::ListDevices { stale_days: 0 },
            WaitView::Devices,
        ),
        DeviceActionView::Rm { id } => TurnView::Ask(
            QueryView::DeleteDevice { id },
            WaitView::DeviceRemoved { id },
        ),
    }
}

/// Starts a command on workstations.
pub fn run_device(action: DeviceAction) -> (r: Turn)
    ensures
        r@ == run_device_view(action@),
{
    match action {
        DeviceAction::List => Turn::Ask(Query::ListDevices { stale_days: 0 }, Wait::Devices),
        DeviceAction::Rm { id } => {
            let unwanted = id.clone();
            Turn::Ask(Query::DeleteDevice { id: unwanted }, Wait::DeviceRemoved { id })
        },
    }
}

/// What stores a password under its hash; there is no hash for a password that is too long.
pub open spec fn store_view(purpose: PurposeView, hash: Option<Seq<char>>) -> TurnView {
    match hash {
        None => TurnView::Refuse("password is too long"@),
        Some(password_hash) => TurnView::Ask(
            match purpose {
                PurposeView::Add { name, admin, email } => QueryView::CreateUser {
                    name,
                    password_hash,
                    email,
                    is_admin: admin,
                },
                PurposeView::Passwd { name } => QueryView::SetPassword { name, password_hash },
            },
            WaitView::Stored { purpose },
        ),
    }
}

/// Stores a password under its hash.
pub fn store(purpose: Purpose, hash: Option<String>) -> (r: Turn)
    ensures
        r@ == store_view(purpose@, hash.deep_view()),
{
    match hash {
        None => Turn::Refuse("password is too long".to_owned()),
        Some(password_hash) => {
            let query = match &purpose {
                Purpose::Add { name, admin, email } => Query::CreateUser {
                    name: name.clone(),
                    password_hash,
                    email: email.clone(),
                    is_admin: *admin,
                },
                Purpose::Passwd { name } => Query::SetPassword { name: name.clone(), password_hash },
            };
            Turn::Ask(query, Wait::Stored { purpose })
        },
    }
}

/// What follows once it is clear that a password is wanted: `hash` is that of the one that
/// was provided.
pub open spec fn resolve_view(
    provided: Option<Seq<char>>,
    purpose: PurposeView,
    hash: Option<Seq<char>>,
) -> TurnView {
    match provided {
        Some(password) => if password.len() == 0 {
            TurnView::Refuse("password cannot be empty"@)
        } else {
            store_view(purpose, hash)
        },
        None => TurnView::Prompt("Password: "@, WaitView::Password { purpose }),
    }
}

/// Prompts for the password, twice, so that the two entries can be compared, unless it was
/// `provided`; `hash` is the hash of the one provided.
pub fn resolve_password(provided: Option<String>, purpose: Purpose, hash: Option<String>) -> (r:
    Turn)
    ensures
        r@ == resolve_view(provided.deep_view(), purpose@, hash.deep_view()),
{
    match provided {
        Some(password) => {
            if password.as_str().is_empty() {
                Turn::Refuse("password cannot be empty".to_owned())
            } else {
                store(purpose, hash)
            }
        },
        None => Turn::Prompt("Password: ".to_owned(), Wait::Password { purpose }),
    }
}

/// What follows the look-up of the account: a new one must not be there yet, one whose
/// password is to change must.
pub open spec fn lookup_view(
    purpose: PurposeView,
    password: Option<Seq<char>>,
    event: EventView,
    hash: Option<Seq<char>>,
) -> TurnView {
    match (purpose, event) {
        (PurposeView::Add { name, .. }, EventView::Reply(ReplyView::User(Some(_)))) => {
            TurnView::Refuse("user "@ + quotation(name) + " already exists"@)
        },
        (PurposeView::Add { .. }, EventView::Reply(ReplyView::User(None))) => resolve_view(
            password,
            purpose,
            hash,
        ),
        (PurposeView::Passwd { .. }, EventView::Reply(ReplyView::User(Some(_)))) => resolve_view(
            password,
            purpose,
            hash,
        ),
        (PurposeView::Passwd { name }, EventView::Reply(ReplyView::User(None))) => {
            TurnView::Refuse("no such user: "@ + name)
        },
        _ => TurnView::Fail,
    }
}

/// Goes on from the look-up of the account.
pub fn looked_up(purpose: Purpose, password: Option<String>, event: Event, hash: Option<String>) -> (r:
    Turn)
    ensures
        r@ == lookup_view(purpose@, password.deep_view(), event@, hash.deep_view()),
{
    let found = match event {
        Event::Reply(Reply::User(user)) => user.is_some(),
        _ => return Turn::Fail,
    };
    match (&purpose, found) {
        (Purpose::Add { name, .. }, true) => {
            let message = join("user ", quoted(name.as_str()).as_str());
            Turn::Refuse(join(message.as_str(), " already exists"))
        },
        (Purpose::Passwd { name }, false) => Turn::Refuse(join("no such user: ", name.as_str())),
        _ => resolve_password(password, purpose, hash),
    }
}

/// What is printed once the password was stored.
pub open spec fn stored_line(purpose: PurposeView) -> Seq<char> {
    match purpose {
        PurposeView::Add { name, admin, .. } => "created user "@ + quotation(name) + (if admin {
            " (admin)"@
        } else {
            ""@
        }),
        PurposeView::Passwd { name } => "password updated for "@ + quotation(name),
    }
}

fn write_stored(purpose: &Purpose) -> (r: String)
    ensures
        r@ == stored_line(purpose@),
{
    match purpose {
        Purpose::Add { name, admin, .. } => {
            let line = join("created user ", quoted(name.as_str()).as_str());
            join(
                line.as_str(),
                if *admin {
                    " (admin)"
                } else {
                    ""
                },
            )
        },
        Purpose::Passwd { name } => join("password updated for ", quoted(name.as_str()).as_str()),
    }
}

fn print(line: String) -> (r: Turn)
    ensures
        r@ == TurnView::Print(seq![line@]),
{
    let mut lines: Vec<String> = Vec::new();
    lines.push(line);
    proof {
        assert(lines.deep_view() =~= seq![line@]);
    }
    Turn::Print(lines)
}

/// The turn that follows `event`. `hash` is the hash of the password that is to be stored, if
/// the turn stores one, and `now` the time as of which workstations are listed. An event of a
/// kind that was not asked for counts as a failure.
pub open spec fn next_turn(
    wait: WaitView,
    event: EventView,
    hash: Option<Seq<char>>,
    now: i64,
) -> TurnView {
    match wait {
        WaitView::Lookup { purpose, password } => lookup_view(purpose, password, event, hash),
        WaitView::Password { purpose } => match event {
            EventView::Entered(password) => if password.len() == 0 {
                TurnView::Refuse("password cannot be empty"@)
            } else {
                TurnView::Prompt("Confirm password: "@, WaitView::Confirm { purpose, password })
            },
            _ => TurnView::Fail,
        },
        WaitView::Confirm { purpose, password } => match event {
            EventView::Entered(confirm) => if password == confirm {
                store_view(purpose, hash)
            } else {
                TurnView::Refuse("passwords do not match"@)
            },
            _ => TurnView::Fail,
        },
        WaitView::Stored { purpose } => match event {
            EventView::Reply(ReplyView::Count(_)) => TurnView::Print(seq![stored_line(purpose)]),
            _ => TurnView::Fail,
        },
        WaitView::Users => match event {
            EventView::Reply(ReplyView::Users(users)) => TurnView::Print(user_lines(users)),
            _ => TurnView::Fail,
        },
        WaitView::UserRemoved { name } => match event {
            EventView::Reply(ReplyView::Count(n)) => if n == 0 {
                TurnView::Refuse("no such user: "@ + name)
            } else {
                TurnView::Print(seq!["deleted user "@ + quotation(name)])
            },
            _ => TurnView::Fail,
        },
        WaitView::Devices => match event {
            EventView::Reply(ReplyView::Devices(devices)) => TurnView::Print(
                device_lines(devices, now),
            ),
            _ => TurnView::Fail,
        },
        WaitView::DeviceRemoved { id } => match event {
            EventView::Reply(ReplyView::Count(n)) => if n == 0 {
                TurnView::Refuse("no such device: "@ + id)
            } else {
                TurnView::Print(seq!["deleted device "@ + quotation(id)])
            },
            _ => TurnView::Fail,
        },
    }
}

/// The turn that follows `event`, for a given hash and time.
pub fn take_turn(wait: Wait, event: Event, hash: Option<String>, now: i64) -> (r: Turn)
    ensures
        r@ == next_turn(wait@, event@, hash.deep_view(), now),
{
    match wait {
        Wait::Lookup { purpose, password } => looked_up(purpose, password, event, hash),
        Wait::Password { purpose } => match event {
            Event::Entered(password) => {
                if password.as_str().is_empty() {
                    Turn::Refuse("password cannot be empty".to_owned())
                } else {
                    Turn::Prompt(
                        "Confirm password: ".to_owned(),
                        Wait::Confirm { purpose, password },
                    )
                }
            },
            _ => Turn::Fail,
        },
        Wait::Confirm { purpose, password } => match event {
            Event::Entered(confirm) => {
                if password == confirm {
                    store(purpose, hash)
                } else {
                    Turn::Refuse("passwords do not match".to_owned())
                }
            },
            _ => Turn::Fail,
        },
        Wait::Stored { purpose } => match event {
            Event::Reply(Reply::Count(_)) => print(write_stored(&purpose)),
            _ => Turn::Fail,
        },
        Wait::Users => match event {
            Event::Reply(Reply::Users(users)) => Turn::Print(write_users(&users)),
            _ => Turn::Fail,
        },
        Wait::UserRemoved { name } => match event {
            Event::Reply(Reply::Count(n)) => {
                if n == 0 {
                    Turn::Refuse(join("no such user: ", name.as_str()))
                } else {
                    print(join("deleted user ", quoted(name.as_str()).as_str()))
                }
            },
            _ => Turn::Fail,
        },
        Wait::Devices => match event {
            Event::Reply(Reply::Devices(devices)) => Turn::Print(write_devices(&devices, now)),
            _ => Turn::Fail,
        },
        Wait::DeviceRemoved { id } => match event {
            Event::Reply(Reply::Count(n)) => {
                if n == 0 {
                    Turn::Refuse(join("no such device: ", id.as_str()))
                } else {
                    print(join("deleted device ", quoted(id.as_str()).as_str()))
                }
            },
            _ => Turn::Fail,
        },
    }
}

/// The password that the next turn stores, if it stores one.
pub open spec fn password_to_store(wait: WaitView, event: EventView) -> Option<Seq<char>> {
    match (wait, event) {
        (
            WaitView::Lookup { purpose, password: Some(password) },
            EventView::Reply(ReplyView::User(user)),
        ) => if password.len() > 0 && (user is Some <==> purpose is Passwd) {
            Some(password)
        } else {
            None
        },
        (WaitView::Confirm { password, .. }, EventView::Entered(confirm)) => if password
            == confirm {
            Some(password)
        } else {
            None
        },
        _ => None,
    }
}

fn find_password(wait: &Wait, event: &Event) -> (r: Option<String>)
    ensures
        r.deep_view() == password_to_store(wait@, event@),
{
    match (wait, event) {
        (
            Wait::Lookup { purpose, password: Some(password) },
            Event::Reply(Reply::User(user)),
        ) => {
            let changes = match purpose {
                Purpose::Passwd { .. } => true,
                Purpose::Add { .. } => false,
            };
            if !password.as_str().is_empty() && user.is_some() == changes {
                Some(password.clone())
            } else {
                None
            }
        },
        (Wait::Confirm { password, .. }, Event::Entered(confirm)) => {
            if *password == *confirm {
                Some(password.clone())
            } else {
                None
            }
        },
        _ => None,
    }
}

/// Goes on with a command. A password that is to be stored is hashed, with a fresh salt, and
/// workstations are listed as of the current time.
pub fn go_on(wait: Wait, event: Event) -> (r: Turn)
    ensures
        exists|hash: Option<Seq<char>>, now: i64|
            {
                &&& r@ == #[trigger] next_turn(wait@, event@, hash, now)
                &&& password_to_store(wait@, event@) matches Some(password) ==> hashes_to(
                    password,
                    hash,
                )
                &&& wait@ is Devices ==> is_clock_time(now)
            },
{
    let hash = match find_password(&wait, &event) {
        Some(password) => hash_password(password.as_str()),
        None => None,
    };
    let time: i64 = match wait {
        Wait::Devices => now(),
        _ => 0,
    };
    take_turn(wait, event, hash, time)
}

} // verus!
