//! Rows of the database, and what the server computes around reading and writing them.

use crate::document::{read_tags, strings_text, tags_of, write_tags};
use crate::json::{no_members, object, text, Json, JsonView};
use crate::laws::tags::{
    law_deletion_shortens, law_delete_strips_the_tags, law_rename_replaces_the_tag,
};
use rand_core::RngCore;
use vstd::prelude::*;

verus! {

/// A user account.
#[derive(Debug, Clone)]
pub struct User {
    pub id: i64,
    pub name: String,
    pub password_hash: String,
    pub email: String,
    pub note: String,
    pub is_admin: i64,
    /// `0` where the account is disabled.
    pub status: i64,
    pub created_at: i64,
}

/// What a [`User`] holds.
pub struct UserView {
    pub id: i64,
    pub name: Seq<char>,
    pub password_hash: Seq<char>,
    pub email: Seq<char>,
    pub note: Seq<char>,
    pub is_admin: i64,
    pub status: i64,
    pub created_at: i64,
}

impl View for User {
    type V = UserView;

    open spec fn view(&self) -> UserView {
        UserView {
            id: self.id,
            name: self.name@,
            password_hash: self.password_hash@,
            email: self.email@,
            note: self.note@,
            is_admin: self.is_admin,
            status: self.status,
            created_at: self.created_at,
        }
    }
}

impl DeepView for User {
    type V = UserView;

    open spec fn deep_view(&self) -> UserView {
        self@
    }
}

/// A workstation that has reported in.
#[derive(Debug, Clone)]
pub struct Device {
    pub id: String,
    pub uuid: String,
    pub hostname: String,
    pub username: String,
    pub platform: String,
    pub os: String,
    pub version: String,
    pub cpu: String,
    pub memory: String,
    pub first_seen: i64,
    pub last_seen: i64,
}

/// What a [`Device`] holds.
pub struct DeviceView {
    pub id: Seq<char>,
    pub uuid: Seq<char>,
    pub hostname: Seq<char>,
    pub username: Seq<char>,
    pub platform: Seq<char>,
    pub os: Seq<char>,
    pub version: Seq<char>,
    pub cpu: Seq<char>,
    pub memory: Seq<char>,
    pub first_seen: i64,
    pub last_seen: i64,
}

impl View for Device {
    type V = DeviceView;

    open spec fn view(&self) -> DeviceView {
        DeviceView {
            id: self.id@,
            uuid: self.uuid@,
            hostname: self.hostname@,
            username: self.username@,
            platform: self.platform@,
            os: self.os@,
            version: self.version@,
            cpu: self.cpu@,
            memory: self.memory@,
            first_seen: self.first_seen,
            last_seen: self.last_seen,
        }
    }
}

impl DeepView for Device {
    type V = DeviceView;

    open spec fn deep_view(&self) -> DeviceView {
        self@
    }
}

/// A peer in a personal address book.
#[derive(Debug, Clone)]
pub struct AbPeer {
    pub id: String,
    pub alias: String,
    /// JSON array of tag names, as stored.
    pub tags: String,
    pub hash: String,
    pub password: String,
    pub note: String,
    pub username: String,
    pub hostname: String,
    pub platform: String,
}

/// What an [`AbPeer`] holds.
pub struct AbPeerView {
    pub id: Seq<char>,
    pub alias: Seq<char>,
    pub tags: Seq<char>,
    pub hash: Seq<char>,
    pub password: Seq<char>,
    pub note: Seq<char>,
    pub username: Seq<char>,
    pub hostname: Seq<char>,
    pub platform: Seq<char>,
}

impl View for AbPeer {
    type V = AbPeerView;

    open spec fn view(&self) -> AbPeerView {
        AbPeerView {
            id: self.id@,
            alias: self.alias@,
            tags: self.tags@,
            hash: self.hash@,
            password: self.password@,
            note: self.note@,
            username: self.username@,
            hostname: self.hostname@,
            platform: self.platform@,
        }
    }
}

impl DeepView for AbPeer {
    type V = AbPeerView;

    open spec fn deep_view(&self) -> AbPeerView {
        self@
    }
}

/// A tag of a personal address book.
#[derive(Debug, Clone)]
pub struct AbTag {
    pub name: String,
    pub color: i64,
}

/// What an [`AbTag`] holds.
pub struct AbTagView {
    pub name: Seq<char>,
    pub color: i64,
}

impl View for AbTag {
    type V = AbTagView;

    open spec fn view(&self) -> AbTagView {
        AbTagView {
            name: self.name@,
            color: self.color,
        }
    }
}

impl DeepView for AbTag {
    type V = AbTagView;

    open spec fn deep_view(&self) -> AbTagView {
        self@
    }
}

/// What a workstation says of itself when it registers.
#[derive(Debug, Clone)]
pub struct DeviceReport {
    pub id: String,
    pub uuid: String,
    pub hostname: String,
    pub username: String,
    pub platform: String,
    pub os: String,
    pub version: String,
    pub cpu: String,
    pub memory: String,
}

/// What a [`DeviceReport`] holds.
pub struct DeviceReportView {
    pub id: Seq<char>,
    pub uuid: Seq<char>,
    pub hostname: Seq<char>,
    pub username: Seq<char>,
    pub platform: Seq<char>,
    pub os: Seq<char>,
    pub version: Seq<char>,
    pub cpu: Seq<char>,
    pub memory: Seq<char>,
}

impl View for DeviceReport {
    type V = DeviceReportView;

    open spec fn view(&self) -> DeviceReportView {
        DeviceReportView {
            id: self.id@,
            uuid: self.uuid@,
            hostname: self.hostname@,
            username: self.username@,
            platform: self.platform@,
            os: self.os@,
            version: self.version@,
            cpu: self.cpu@,
            memory: self.memory@,
        }
    }
}

impl DeepView for DeviceReport {
    type V = DeviceReportView;

    open spec fn deep_view(&self) -> DeviceReportView {
        self@
    }
}

/// The row of an account that is about to be created.
#[derive(Debug, Clone)]
pub struct NewUser {
    pub name: String,
    pub password_hash: String,
    pub email: String,
    pub is_admin: i64,
    pub status: i64,
    pub created_at: i64,
}

/// What a [`NewUser`] holds.
pub struct NewUserView {
    pub name: Seq<char>,
    pub password_hash: Seq<char>,
    pub email: Seq<char>,
    pub is_admin: i64,
    pub status: i64,
    pub created_at: i64,
}

impl View for NewUser {
    type V = NewUserView;

    open spec fn view(&self) -> NewUserView {
        NewUserView {
            name: self.name@,
            password_hash: self.password_hash@,
            email: self.email@,
            is_admin: self.is_admin,
            status: self.status,
            created_at: self.created_at,
        }
    }
}

impl DeepView for NewUser {
    type V = NewUserView;

    open spec fn deep_view(&self) -> NewUserView {
        self@
    }
}

/// The row of a session that is about to be created.
#[derive(Debug, Clone)]
pub struct NewToken {
    pub token: String,
    pub user_id: i64,
    pub device_id: String,
    pub device_uuid: String,
    pub created_at: i64,
    pub expires_at: i64,
}

/// What a [`NewToken`] holds.
pub struct NewTokenView {
    pub token: Seq<char>,
    pub user_id: i64,
    pub device_id: Seq<char>,
    pub device_uuid: Seq<char>,
    pub created_at: i64,
    pub expires_at: i64,
}

impl View for NewToken {
    type V = NewTokenView;

    open spec fn view(&self) -> NewTokenView {
        NewTokenView {
            token: self.token@,
            user_id: self.user_id,
            device_id: self.device_id@,
            device_uuid: self.device_uuid@,
            created_at: self.created_at,
            expires_at: self.expires_at,
        }
    }
}

impl DeepView for NewToken {
    type V = NewTokenView;

    open spec fn deep_view(&self) -> NewTokenView {
        self@
    }
}

/// The row of a personal address book that is about to be created.
#[derive(Debug, Clone)]
pub struct NewBook {
    pub guid: String,
    pub owner_id: i64,
    pub name: String,
    pub created_at: i64,
}

/// What a [`NewBook`] holds.
pub struct NewBookView {
    pub guid: Seq<char>,
    pub owner_id: i64,
    pub name: Seq<char>,
    pub created_at: i64,
}

impl View for NewBook {
    type V = NewBookView;

    open spec fn view(&self) -> NewBookView {
        NewBookView {
            guid: self.guid@,
            owner_id: self.owner_id,
            name: self.name@,
            created_at: self.created_at,
        }
    }
}

impl DeepView for NewBook {
    type V = NewBookView;

    open spec fn deep_view(&self) -> NewBookView {
        self@
    }
}

// ---------------------------------------------------------------------------
// Clock and chance
// ---------------------------------------------------------------------------

/// A reading of the system clock.
#[verifier::external_type_specification]
#[verifier::external_body]
pub struct ExSystemTime(std::time::SystemTime);

/// `std::time::SystemTime::now` reads the system clock. Nothing is claimed of the reading.
pub assume_specification[ std::time::SystemTime::now ]() -> (r: std::time::SystemTime)
;

/// The whole seconds from the Unix epoch to `reading`; `None` for a reading before the epoch.
pub uninterp spec fn seconds_since_epoch(reading: std::time::SystemTime) -> Option<u64>;

/// Calls `std::time::SystemTime::duration_since` with the Unix epoch. Claimed: the whole
/// seconds that come back depend on the reading alone; `None` stands for a reading before the
/// epoch.
#[verifier::external_body]
fn since_epoch(reading: std::time::SystemTime) -> (r: Option<u64>)
    ensures
        r == seconds_since_epoch(reading),
{
    reading.duration_since(std::time::UNIX_EPOCH).ok().map(|d| d.as_secs())
}

/// The time stamp for a clock reading: its whole seconds, and 0 for a clock before the epoch.
pub open spec fn time_stamp(elapsed: Option<u64>) -> i64 {
    match elapsed {
        Some(seconds) => seconds as i64,
        None => 0,
    }
}

/// The time stamp for a clock reading.
pub fn stamp(elapsed: Option<u64>) -> (r: i64)
    ensures
        r == time_stamp(elapsed),
{
    match elapsed {
        Some(seconds) => seconds as i64,
        None => 0,
    }
}

/// `time` is the time stamp of a reading of the system clock.
pub open spec fn is_clock_time(time: i64) -> bool {
    exists|reading: std::time::SystemTime|
        time == time_stamp(#[trigger] seconds_since_epoch(reading))
}

/// The current time in seconds since the Unix epoch.
pub fn now() -> (r: i64)
    ensures
        is_clock_time(r),
{
    let elapsed = since_epoch(std::time::SystemTime::now());
    stamp(elapsed)
}

/// Calls `fill_bytes` of `rand_core::OsRng` on `len` bytes, which panics where the operating
/// system gives no randomness. Claimed: that many bytes come back; which ones is left to chance.
#[verifier::external_body]
pub(crate) fn random_bytes(len: usize) -> (r: Vec<u8>)
    ensures
        r@.len() == len,
{
    let mut bytes = vec![0u8; len];
    rand_core::OsRng.fill_bytes(&mut bytes);
    bytes
}

/// The lower-case hexadecimal digit of `d`.
pub open spec fn hex_digit(d: int) -> char
    recommends
        0 <= d < 16,
{
    if d < 10 {
        (('0' as u8) + d) as char
    } else {
        (('a' as u8) + (d - 10)) as char
    }
}

/// `bytes` in lower-case hexadecimal, two digits for each byte.
pub open spec fn hex(bytes: Seq<u8>) -> Seq<char> {
    Seq::new(
        2 * bytes.len(),
        |i: int|
            if i % 2 == 0 {
                hex_digit(bytes[i / 2] as int / 16)
            } else {
                hex_digit(bytes[i / 2] as int % 16)
            },
    )
}

/// `s` is made of `n` lower-case hexadecimal digits.
pub open spec fn is_hex(s: Seq<char>, n: nat) -> bool {
    &&& s.len() == n
    &&& forall|i: int|
        0 <= i < s.len() ==> ('0' <= #[trigger] s[i] && s[i] <= '9') || ('a' <= s[i] && s[i] <= 'f')
}

fn write_hex_digit(d: u8) -> (r: char)
    requires
        d < 16,
    ensures
        r == hex_digit(d as int),
{
    if d < 10 {
        ('0' as u8 + d) as char
    } else {
        ('a' as u8 + (d - 10)) as char
    }
}

/// Writes `bytes` in hexadecimal.
pub fn to_hex(bytes: &Vec<u8>) -> (r: String)
    ensures
        r@ == hex(bytes@),
        is_hex(r@, 2 * bytes@.len()),
{
    let mut r = String::new();
    let mut i: usize = 0;
    while i < bytes.len()
        invariant
            i <= bytes@.len(),
            r@ == hex(bytes@.take(i as int)),
            is_hex(r@, 2 * i as nat),
        decreases bytes@.len() - i,
    {
        let ghost before = r@;
        r.push(write_hex_digit(bytes[i] / 16));
        r.push(write_hex_digit(bytes[i] % 16));
        proof {
            let next = hex(bytes@.take(i + 1));
            assert forall|k: int| 0 <= k < 2 * i implies #[trigger] next[k] == before[k] by {
                assert(bytes@.take(i + 1)[k / 2] == bytes@.take(i as int)[k / 2]);
            }
            assert(r@ =~= next);
        }
        i = i + 1;
    }
    proof {
        assert(bytes@.take(bytes@.len() as int) == bytes@);
    }
    r
}

/// Random 128-bit identifier, hex encoded. Used for address book guids.
pub fn new_guid() -> (r: String)
    ensures
        is_hex(r@, 32),
{
    let bytes = random_bytes(16);
    to_hex(&bytes)
}

// ---------------------------------------------------------------------------
// Accounts and sessions
// ---------------------------------------------------------------------------

/// What clients are told of an account.
pub open spec fn payload_view(user: UserView) -> JsonView {
    no_members()
        .with("name"@, JsonView::Text(user.name))
        .with("email"@, JsonView::Text(user.email))
        .with("note"@, JsonView::Text(user.note))
        .with("status"@, JsonView::Int(user.status as int))
        .with("is_admin"@, JsonView::Bool(user.is_admin != 0))
        .with("info"@, no_members())
}

impl User {
    /// The `UserPayload` shape the RustDesk client parses. `info` must be present (the
    /// client's deserializer has no default for it) and `is_admin` must be a real JSON
    /// boolean.
    pub fn payload(&self) -> (r: Json)
        ensures
            r@ == payload_view(self@),
    {
        object()
            .with("name", text(self.name.as_str()))
            .with("email", text(self.email.as_str()))
            .with("note", text(self.note.as_str()))
            .with("status", Json::Int(self.status))
            .with("is_admin", Json::Bool(self.is_admin != 0))
            .with("info", object())
    }
}

/// The row of a new account: active, and created at `now`.
pub open spec fn new_user_view(
    name: Seq<char>,
    password_hash: Seq<char>,
    email: Seq<char>,
    is_admin: bool,
    now: i64,
) -> NewUserView {
    NewUserView {
        name,
        password_hash,
        email,
        is_admin: if is_admin {
            1
        } else {
            0
        },
        status: 1,
        created_at: now,
    }
}

/// The row that creates an account.
pub fn new_user(name: String, password_hash: String, email: String, is_admin: bool, now: i64) -> (r:
    NewUser)
    ensures
        r@ == new_user_view(name@, password_hash@, email@, is_admin, now),
{
    NewUser {
        name,
        password_hash,
        email,
        is_admin: if is_admin {
            1
        } else {
            0
        },
        status: 1,
        created_at: now,
    }
}

/// When a session that is issued at `issued` for `ttl` seconds runs out. The sum wraps where
/// it leaves the range of a time stamp.
pub open spec fn expiry(issued: i64, ttl: u64) -> i64 {
    issued.wrapping_add(ttl as i64)
}

/// The row of a session that is issued at `now` for `ttl` seconds.
pub open spec fn new_token_view(
    token: Seq<char>,
    user_id: i64,
    device_id: Seq<char>,
    device_uuid: Seq<char>,
    ttl: u64,
    now: i64,
) -> NewTokenView {
    NewTokenView {
        token,
        user_id,
        device_id,
        device_uuid,
        created_at: now,
        expires_at: expiry(now, ttl),
    }
}

/// The row that creates a session.
pub fn new_token(
    token: String,
    user_id: i64,
    device_id: String,
    device_uuid: String,
    ttl: u64,
    now: i64,
) -> (r: NewToken)
    ensures
        r@ == new_token_view(token@, user_id, device_id@, device_uuid@, ttl, now),
{
    NewToken {
        token,
        user_id,
        device_id,
        device_uuid,
        created_at: now,
        expires_at: now.wrapping_add(ttl as i64),
    }
}

// ---------------------------------------------------------------------------
// Devices
// ---------------------------------------------------------------------------

/// The row of a workstation that registers for the first time, at `now`.
pub open spec fn first_report(report: DeviceReportView, now: i64) -> DeviceView {
    DeviceView {
        id: report.id,
        uuid: report.uuid,
        hostname: report.hostname,
        username: report.username,
        platform: report.platform,
        os: report.os,
        version: report.version,
        cpu: report.cpu,
        memory: report.memory,
        first_seen: now,
        last_seen: now,
    }
}

/// The row to insert for a report. Where the workstation is already known its `first_seen`
/// stays and the other columns take the new values.
pub fn device_row(report: DeviceReport, now: i64) -> (r: Device)
    ensures
        r@ == first_report(report@, now),
{
    Device {
        id: report.id,
        uuid: report.uuid,
        hostname: report.hostname,
        username: report.username,
        platform: report.platform,
        os: report.os,
        version: report.version,
        cpu: report.cpu,
        memory: report.memory,
        first_seen: now,
        last_seen: now,
    }
}

/// The oldest `last_seen` that is still listed; `None` lists every device. The difference
/// wraps where it leaves the range of a time stamp.
pub open spec fn cutoff(stale_days: i64, now: i64) -> Option<i64> {
    if stale_days > 0 {
        Some(now.wrapping_sub(stale_days.wrapping_mul(86_400)))
    } else {
        None
    }
}

/// The oldest `last_seen` that is still listed.
pub fn stale_cutoff(stale_days: i64, now: i64) -> (r: Option<i64>)
    ensures
        r == cutoff(stale_days, now),
{
    if stale_days > 0 {
        Some(now.wrapping_sub(stale_days.wrapping_mul(86_400)))
    } else {
        None
    }
}

// ---------------------------------------------------------------------------
// Address books
// ---------------------------------------------------------------------------

/// The row of the personal address book of `owner_id`.
pub open spec fn new_book_view(owner_id: i64, guid: Seq<char>, now: i64) -> NewBookView {
    NewBookView { guid, owner_id, name: "My address book"@, created_at: now }
}

/// The row that creates the personal address book of `owner_id`.
pub fn new_book(owner_id: i64, guid: String, now: i64) -> (r: NewBook)
    ensures
        r@ == new_book_view(owner_id, guid@, now),
{
    NewBook { guid, owner_id, name: "My address book".to_owned(), created_at: now }
}

/// What to do for a user whose personal address book was looked up.
pub enum BookPlan {
    /// The book is there.
    Use(String),
    /// Insert this row unless the user has got a book meanwhile, then look again.
    Create(NewBook),
}

/// Decides on the personal address book of `user_id`, of which `found` is the guid so far.
pub fn get_or_create_personal_ab(found: Option<String>, user_id: i64) -> (r: BookPlan)
    ensures
        match found {
            Some(guid) => r == BookPlan::Use(guid),
            None => r matches BookPlan::Create(book) && is_hex(book.guid@, 32) && book@
                == new_book_view(user_id, book.guid@, book.created_at) && is_clock_time(
                book.created_at,
            ),
        },
{
    match found {
        Some(guid) => BookPlan::Use(guid),
        None => {
            let guid = new_guid();
            let created = now();
            BookPlan::Create(new_book(user_id, guid, created))
        },
    }
}

/// `s` without those elements that equal the element before them.
pub open spec fn deduped(s: Seq<Seq<char>>) -> Seq<Seq<char>>
    decreases s.len(),
{
    if s.len() < 2 {
        s
    } else {
        let rest = deduped(s.drop_last());
        if s[s.len() - 2] == s.last() {
            rest
        } else {
            rest.push(s.last())
        }
    }
}

/// The tag list `tags` with `new` in every place of `old`.
pub open spec fn replaced(tags: Seq<Seq<char>>, old: Seq<char>, new: Seq<char>) -> Seq<Seq<char>> {
    tags.map_values(|t: Seq<char>| if t == old { new } else { t })
}

/// The tag list `tags` after `old` was renamed to `new`: repetitions that then stand side by
/// side are dropped.
pub open spec fn renamed(tags: Seq<Seq<char>>, old: Seq<char>, new: Seq<char>) -> Seq<Seq<char>> {
    deduped(replaced(tags, old, new))
}

/// The tag list `tags` without the `names`.
pub open spec fn without(tags: Seq<Seq<char>>, names: Seq<Seq<char>>) -> Seq<Seq<char>> {
    tags.filter(|t: Seq<char>| !names.contains(t))
}

/// The stored tag list `text` after `old` was renamed to `new`; a list that does not hold
/// `old` stays as it is.
pub open spec fn renamed_text(text: Seq<char>, old: Seq<char>, new: Seq<char>) -> Seq<char> {
    if tags_of(text).contains(old) {
        strings_text(renamed(tags_of(text), old, new))
    } else {
        text
    }
}

/// The stored tag list `text` after the tags `names` were deleted; a list that holds none of
/// them stays as it is.
pub open spec fn stripped_text(text: Seq<char>, names: Seq<Seq<char>>) -> Seq<char> {
    if without(tags_of(text), names).len() == tags_of(text).len() {
        text
    } else {
        strings_text(without(tags_of(text), names))
    }
}

/// The rows among `peers`, pairs of a peer's id and its stored tag list, that a rename
/// changes, with their new tag lists.
pub open spec fn rename_updates(
    peers: Seq<(Seq<char>, Seq<char>)>,
    old: Seq<char>,
    new: Seq<char>,
) -> Seq<(Seq<char>, Seq<char>)>
    decreases peers.len(),
{
    if peers.len() == 0 {
        Seq::empty()
    } else {
        let before = rename_updates(peers.drop_last(), old, new);
        let (id, text) = peers.last();
        if tags_of(text).contains(old) {
            before.push((id, renamed_text(text, old, new)))
        } else {
            before
        }
    }
}

/// The rows among `peers`, pairs of a peer's id and its stored tag list, that a deletion of
/// tags changes, with their new tag lists.
pub open spec fn delete_updates(
    peers: Seq<(Seq<char>, Seq<char>)>,
    names: Seq<Seq<char>>,
) -> Seq<(Seq<char>, Seq<char>)>
    decreases peers.len(),
{
    if peers.len() == 0 {
        Seq::empty()
    } else {
        let before = delete_updates(peers.drop_last(), names);
        let (id, text) = peers.last();
        if without(tags_of(text), names).len() == tags_of(text).len() {
            before
        } else {
            before.push((id, stripped_text(text, names)))
        }
    }
}

/// The stored tag list `text` reads as a list that holds one of the `names`.
pub open spec fn holds_any(text: Seq<char>, names: Seq<Seq<char>>) -> bool {
    exists|name: Seq<char>| #[trigger]
        tags_of(text).contains(name) && names.contains(name)
}

/// `updates` are for the peers of `rows` whose stored list holds one of the `names`, one for each
/// and in their order: `from` are their places. Each gives its peer a list that reads as its
/// tags without the `names`.
pub open spec fn strips(
    updates: Seq<(Seq<char>, Seq<char>)>,
    rows: Seq<(Seq<char>, Seq<char>)>,
    names: Seq<Seq<char>>,
    from: Seq<int>,
) -> bool {
    &&& updates.len() == from.len()
    &&& forall|j: int, k: int| 0 <= j < k < from.len() ==> from[j] < from[k]
    &&& forall|j: int|
        0 <= j < from.len() ==> 0 <= #[trigger] from[j] < rows.len() && updates[j].0
            == rows[from[j]].0 && holds_any(rows[from[j]].1, names) && tags_of(updates[j].1)
            == without(tags_of(rows[from[j]].1), names)
    &&& forall|k: int|
        0 <= k < rows.len() && holds_any((#[trigger] rows[k]).1, names) ==> from.contains(k)
}

/// `updates` are for the peers of `rows` whose stored list holds `old`, one for each and in
/// their order: `from` are their places. Each gives its peer a list that reads as its tags after
/// `old` was renamed to `new`.
pub open spec fn renames(
    updates: Seq<(Seq<char>, Seq<char>)>,
    rows: Seq<(Seq<char>, Seq<char>)>,
    old: Seq<char>,
    new: Seq<char>,
    from: Seq<int>,
) -> bool {
    &&& updates.len() == from.len()
    &&& forall|j: int, k: int| 0 <= j < k < from.len() ==> from[j] < from[k]
    &&& forall|j: int|
        0 <= j < from.len() ==> 0 <= #[trigger] from[j] < rows.len() && updates[j].0
            == rows[from[j]].0 && tags_of(rows[from[j]].1).contains(old) && tags_of(updates[j].1)
            == renamed(tags_of(rows[from[j]].1), old, new)
    &&& forall|k: int|
        0 <= k < rows.len() && tags_of((#[trigger] rows[k]).1).contains(old) ==> from.contains(k)
}

/// What `strips` says grows with one row more.
proof fn lemma_strips_one_more(
    updates: Seq<(Seq<char>, Seq<char>)>,
    rows: Seq<(Seq<char>, Seq<char>)>,
    names: Seq<Seq<char>>,
    from: Seq<int>,
    row: (Seq<char>, Seq<char>),
    text: Seq<char>,
)
    requires
        strips(updates, rows, names, from),
    ensures
        !holds_any(row.1, names) ==> strips(updates, rows.push(row), names, from),
        holds_any(row.1, names) && tags_of(text) == without(tags_of(row.1), names) ==> strips(
            updates.push((row.0, text)),
            rows.push(row),
            names,
            from.push(rows.len() as int),
        ),
{
    let more = rows.push(row);
    let places = from.push(rows.len() as int);
    assert forall|k: int|
        0 <= k < more.len() && holds_any((#[trigger] more[k]).1, names) implies places.contains(
        k,
    ) && (k < rows.len() ==> from.contains(k)) by {
        if k < rows.len() {
            assert(rows[k] == more[k]);
            let j = choose|j: int| 0 <= j < from.len() && from[j] == k;
            assert(places[j] == k);
        } else {
            assert(places[from.len() as int] == k);
        }
    }
    assert forall|j: int| 0 <= j < from.len() implies #[trigger] from[j] < rows.len() && more[from[j]]
        == rows[from[j]] by {}
}

/// What `renames` says grows with one row more.
proof fn lemma_renames_one_more(
    updates: Seq<(Seq<char>, Seq<char>)>,
    rows: Seq<(Seq<char>, Seq<char>)>,
    old: Seq<char>,
    new: Seq<char>,
    from: Seq<int>,
    row: (Seq<char>, Seq<char>),
    text: Seq<char>,
)
    requires
        renames(updates, rows, old, new, from),
    ensures
        !tags_of(row.1).contains(old) ==> renames(updates, rows.push(row), old, new, from),
        tags_of(row.1).contains(old) && tags_of(text) == renamed(tags_of(row.1), old, new)
            ==> renames(
            updates.push((row.0, text)),
            rows.push(row),
            old,
            new,
            from.push(rows.len() as int),
        ),
{
    let more = rows.push(row);
    let places = from.push(rows.len() as int);
    assert forall|k: int|
        0 <= k < more.len() && tags_of((#[trigger] more[k]).1).contains(
            old,
        ) implies places.contains(k) && (k < rows.len() ==> from.contains(k)) by {
        if k < rows.len() {
            assert(rows[k] == more[k]);
            let j = choose|j: int| 0 <= j < from.len() && from[j] == k;
            assert(places[j] == k);
        } else {
            assert(places[from.len() as int] == k);
        }
    }
    assert forall|j: int| 0 <= j < from.len() implies #[trigger] from[j] < rows.len() && more[from[j]]
        == rows[from[j]] by {}
}

/// Whether `name` is among `names`.
pub fn is_among(names: &Vec<String>, name: &String) -> (r: bool)
    ensures
        r == names.deep_view().contains(name@),
{
    let mut i: usize = 0;
    while i < names.len()
        invariant
            i <= names@.len(),
            forall|j: int| 0 <= j < i ==> names@[j]@ != name@,
        decreases names@.len() - i,
    {
        if names[i] == *name {
            proof {
                assert(names.deep_view()[i as int] == name@);
            }
            return true;
        }
        i = i + 1;
    }
    proof {
        if names.deep_view().contains(name@) {
            let j = choose|j: int|
                0 <= j < names.deep_view().len() && names.deep_view()[j] == name@;
            assert(names@[j]@ == name@);
        }
    }
    false
}

/// Renames `old` to `new` in a tag list and drops the repetitions that then stand side by side.
pub fn rename_in(tags: Vec<String>, old: &String, new: &String) -> (r: Vec<String>)
    ensures
        r.deep_view() == renamed(tags.deep_view(), old@, new@),
{
    let ghost mapped = replaced(tags.deep_view(), old@, new@);
    let mut r: Vec<String> = Vec::new();
    let mut i: usize = 0;
    while i < tags.len()
        invariant
            i <= tags@.len(),
            mapped == replaced(tags.deep_view(), old@, new@),
            r.deep_view() == deduped(mapped.take(i as int)),
            i == 0 ==> r@.len() == 0,
            i > 0 ==> r@.len() > 0 && r@.last()@ == mapped[i - 1],
        decreases tags@.len() - i,
    {
        let tag = if tags[i] == *old {
            new.clone()
        } else {
            tags[i].clone()
        };
        proof {
            assert(tag@ == mapped[i as int]);
            assert(mapped.take(i + 1).drop_last() =~= mapped.take(i as int));
            assert(mapped.take(i + 1).last() == mapped[i as int]);
        }
        if r.len() > 0 && r[r.len() - 1] == tag {
        } else {
            let ghost before = r.deep_view();
            r.push(tag);
            proof {
                assert(r.deep_view() =~= before.push(tag@));
            }
        }
        i = i + 1;
    }
    proof {
        assert(mapped.take(tags@.len() as int) =~= mapped);
    }
    r
}

/// Drops the `names` from a tag list.
pub fn strip(tags: &Vec<String>, names: &Vec<String>) -> (r: Vec<String>)
    ensures
        r.deep_view() == without(tags.deep_view(), names.deep_view()),
{
    let ghost all = tags.deep_view();
    let ghost keep = |t: Seq<char>| !names.deep_view().contains(t);
    let mut r: Vec<String> = Vec::new();
    let mut i: usize = 0;
    while i < tags.len()
        invariant
            i <= tags@.len(),
            all == tags.deep_view(),
            keep == (|t: Seq<char>| !names.deep_view().contains(t)),
            r.deep_view() == all.take(i as int).filter(keep),
        decreases tags@.len() - i,
    {
        let ghost before = r.deep_view();
        proof {
            reveal(Seq::filter);
            assert(all.take(i + 1).drop_last() =~= all.take(i as int));
            assert(all.take(i + 1).last() == all[i as int]);
        }
        if !is_among(names, &tags[i]) {
            r.push(tags[i].clone());
            proof {
                assert(r.deep_view() =~= before.push(all[i as int]));
            }
        }
        i = i + 1;
    }
    proof {
        assert(all.take(tags@.len() as int) =~= all);
    }
    r
}

/// Renames a tag inside every peer's tag list: of `peers`, pairs of an id and the stored tag
/// list, it returns those to write back. Those are the peers that have the tag, each with a list
/// that reads as its tags after the rename: it holds the new name and no longer the old one.
pub fn rename_ab_tag(peers: Vec<(String, String)>, old: &String, new: &String) -> (r: Vec<
    (String, String),
>)
    ensures
        r.deep_view() == rename_updates(peers.deep_view(), old@, new@),
        forall|i: int|
            0 <= i < r@.len() ==> tags_of(#[trigger] r@[i].1@).contains(new@) && (old@ != new@
                ==> !tags_of(r@[i].1@).contains(old@)),
        exists|from: Seq<int>| #[trigger]
            renames(r.deep_view(), peers.deep_view(), old@, new@, from),
{
    let ghost rows = peers.deep_view();
    let ghost mut from: Seq<int> = Seq::empty();
    let mut r: Vec<(String, String)> = Vec::new();
    let mut i: usize = 0;
    while i < peers.len()
        invariant
            i <= peers@.len(),
            rows == peers.deep_view(),
            r.deep_view() == rename_updates(rows.take(i as int), old@, new@),
            forall|k: int|
                0 <= k < r@.len() ==> tags_of(#[trigger] r@[k].1@).contains(new@) && (old@ != new@
                    ==> !tags_of(r@[k].1@).contains(old@)),
            renames(r.deep_view(), rows.take(i as int), old@, new@, from),
        decreases peers@.len() - i,
    {
        let ghost before = r.deep_view();
        proof {
            assert(rows.take(i + 1).drop_last() =~= rows.take(i as int));
            assert(rows.take(i + 1).last() == rows[i as int]);
            assert(rows.take(i + 1) =~= rows.take(i as int).push(rows[i as int]));
            lemma_renames_one_more(
                before,
                rows.take(i as int),
                old@,
                new@,
                from,
                rows[i as int],
                renamed_text(rows[i as int].1, old@, new@),
            );
        }
        let tags = read_tags(peers[i].1.as_str());
        if is_among(&tags, old) {
            proof {
                law_rename_replaces_the_tag(tags.deep_view(), old@, new@, old@);
            }
            let tags = rename_in(tags, old, new);
            r.push((peers[i].0.clone(), write_tags(&tags)));
            proof {
                assert(r.deep_view() =~= before.push(
                    (rows[i as int].0, renamed_text(rows[i as int].1, old@, new@)),
                ));
                from = from.push(i as int);
            }
        }
        i = i + 1;
    }
    proof {
        assert(rows.take(peers@.len() as int) =~= rows);
    }
    r
}

/// Strips tags from every peer's tag list: of `peers`, pairs of an id and the stored tag
/// list, it returns those to write back. Those are the peers that have one of the tags, each
/// with a list that reads as its other tags.
pub fn delete_ab_tags(peers: Vec<(String, String)>, names: &Vec<String>) -> (r: Vec<
    (String, String),
>)
    ensures
        r.deep_view() == delete_updates(peers.deep_view(), names.deep_view()),
        forall|i: int, name: Seq<char>|
            0 <= i < r@.len() && #[trigger] tags_of(r@[i].1@).contains(name)
                ==> !names.deep_view().contains(name),
        exists|from: Seq<int>| #[trigger]
            strips(r.deep_view(), peers.deep_view(), names.deep_view(), from),
{
    let ghost rows = peers.deep_view();
    let ghost mut from: Seq<int> = Seq::empty();
    let mut r: Vec<(String, String)> = Vec::new();
    let mut i: usize = 0;
    while i < peers.len()
        invariant
            i <= peers@.len(),
            rows == peers.deep_view(),
            r.deep_view() == delete_updates(rows.take(i as int), names.deep_view()),
            forall|k: int, name: Seq<char>|
                0 <= k < r@.len() && #[trigger] tags_of(r@[k].1@).contains(name)
                    ==> !names.deep_view().contains(name),
            strips(r.deep_view(), rows.take(i as int), names.deep_view(), from),
        decreases peers@.len() - i,
    {
        let ghost before = r.deep_view();
        proof {
            assert(rows.take(i + 1).drop_last() =~= rows.take(i as int));
            assert(rows.take(i + 1).last() == rows[i as int]);
            assert(rows.take(i + 1) =~= rows.take(i as int).push(rows[i as int]));
            lemma_strips_one_more(
                before,
                rows.take(i as int),
                names.deep_view(),
                from,
                rows[i as int],
                stripped_text(rows[i as int].1, names.deep_view()),
            );
        }
        let tags = read_tags(peers[i].1.as_str());
        let kept = strip(&tags, names);
        proof {
            assert(kept.deep_view().len() == kept@.len());
            assert(tags.deep_view().len() == tags@.len());
            assert forall|name: Seq<char>| kept.deep_view().contains(name) implies !names.deep_view().contains(
                name,
            ) by {
                law_delete_strips_the_tags(tags.deep_view(), names.deep_view(), name);
            }
            law_deletion_shortens(tags.deep_view(), names.deep_view());
        }
        if kept.len() != tags.len() {
            r.push((peers[i].0.clone(), write_tags(&kept)));
            proof {
                assert(r.deep_view() =~= before.push(
                    (rows[i as int].0, stripped_text(rows[i as int].1, names.deep_view())),
                ));
                from = from.push(i as int);
            }
        }
        i = i + 1;
    }
    proof {
        assert(rows.take(peers@.len() as int) =~= rows);
    }
    r
}

} // verus!
