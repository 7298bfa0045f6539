//! What the server relies on its database for.
//!
//! The tables are modelled as maps, and [`served`] says what each [`Query`](crate::query::Query)
//! does to them and which replies it can get. Nothing here is executed: it is what the laws
//! about whole requests are stated over.

use crate::api::{next, ResponseView, StepView};
use crate::auth::token_of;
use crate::db::{
    cutoff, first_report, is_hex, new_book_view, new_token_view, new_user_view, renamed_text,
    stripped_text, AbPeerView, AbTagView, DeviceReportView, DeviceView, NewBookView, NewTokenView,
    NewUserView, UserView,
};
use crate::query::{QueryView, ReplyView};
use crate::text::lower;
use vstd::prelude::*;
use vstd::relations::sorted_by;

verus! {

/// The contents of the database.
#[verifier::ext_equal]
pub struct Tables {
    /// The accounts, by id.
    pub users: Map<i64, UserView>,
    /// The sessions, by token.
    pub tokens: Map<Seq<char>, NewTokenView>,
    /// The workstations, by id.
    pub devices: Map<Seq<char>, DeviceView>,
    /// The personal address books, by guid.
    pub books: Map<Seq<char>, NewBookView>,
    /// The peers, by the guid of their book and their id.
    pub peers: Map<(Seq<char>, Seq<char>), AbPeerView>,
    /// The colours of the tags, by the guid of their book and their name.
    pub tags: Map<(Seq<char>, Seq<char>), i64>,
}

// ---------------------------------------------------------------------------
// Order
// ---------------------------------------------------------------------------

/// `a` comes before `b` in the order of text, character by character, or is the same.
pub open spec fn text_leq(a: Seq<char>, b: Seq<char>) -> bool
    decreases a.len(),
{
    if a.len() == 0 {
        true
    } else if b.len() == 0 {
        false
    } else if a[0] != b[0] {
        a[0] < b[0]
    } else {
        text_leq(a.drop_first(), b.drop_first())
    }
}

/// Workstations are listed by host name, then by id.
pub open spec fn device_leq(a: DeviceView, b: DeviceView) -> bool {
    if a.hostname == b.hostname {
        text_leq(a.id, b.id)
    } else {
        text_leq(a.hostname, b.hostname)
    }
}

/// `list` holds the rows that `among` picks, each once, in the order `leq`.
pub open spec fn is_listing<T>(
    list: Seq<T>,
    among: spec_fn(T) -> bool,
    leq: spec_fn(T, T) -> bool,
) -> bool {
    &&& list.no_duplicates()
    &&& forall|row: T| #[trigger] list.contains(row) <==> among(row)
    &&& sorted_by(list, leq)
}

// ---------------------------------------------------------------------------
// Rows
// ---------------------------------------------------------------------------

impl Tables {
    /// The account `id` has the name `name`; upper and lower case make no difference.
    pub open spec fn named(self, id: i64, name: Seq<char>) -> bool {
        self.users.contains_key(id) && lower(self.users[id].name) == lower(name)
    }

    /// The name is taken.
    pub open spec fn is_taken(self, name: Seq<char>) -> bool {
        exists|id: i64| #[trigger] self.named(id, name)
    }

    /// The account of the session `token`, if the session has not run out at `now`.
    pub open spec fn session(self, token: Seq<char>, now: i64) -> Option<UserView> {
        if self.tokens.contains_key(token) && self.tokens[token].expires_at > now {
            Some(self.users[self.tokens[token].user_id])
        } else {
            None
        }
    }

    /// The user that a request with the `Authorization` header `header` is served for at
    /// `now`: it carries the token of a session that has not run out, of an account that is
    /// not disabled.
    pub open spec fn active_user(self, header: Option<Seq<char>>, now: i64) -> Option<UserView> {
        match token_of(header) {
            Some(token) => match self.session(token, now) {
                Some(user) => if user.status != 0 {
                    Some(user)
                } else {
                    None
                },
                None => None,
            },
            None => None,
        }
    }

    /// The book `guid` belongs to the account `user_id`.
    pub open spec fn owns(self, user_id: i64, guid: Seq<char>) -> bool {
        self.books.contains_key(guid) && self.books[guid].owner_id == user_id
    }

    /// The account `user_id` has a book.
    pub open spec fn has_book(self, user_id: i64) -> bool {
        exists|guid: Seq<char>| #[trigger] self.owns(user_id, guid)
    }

    /// `device` is registered, and was seen within `stale_days` days of `now`.
    pub open spec fn lists_device(self, device: DeviceView, stale_days: i64, now: i64) -> bool {
        &&& self.devices.contains_key(device.id)
        &&& self.devices[device.id] == device
        &&& match cutoff(stale_days, now) {
            Some(oldest) => device.last_seen >= oldest,
            None => true,
        }
    }

    /// `peer` stands in the book `guid`.
    pub open spec fn lists_peer(self, guid: Seq<char>, peer: AbPeerView) -> bool {
        self.peers.contains_key((guid, peer.id)) && self.peers[(guid, peer.id)] == peer
    }

    /// `tag` belongs to the book `guid`.
    pub open spec fn lists_tag(self, guid: Seq<char>, tag: AbTagView) -> bool {
        self.tags.contains_key((guid, tag.name)) && self.tags[(guid, tag.name)] == tag.color
    }

    /// What the tables promise: rows stand under their keys, account names differ by more than
    /// case, an account has at most one book, and sessions, books, peers and tags belong to
    /// accounts and books that are there.
    pub open spec fn valid(self) -> bool {
        &&& self.users.dom().finite()
        &&& forall|id: i64| #[trigger] self.users.contains_key(id) ==> self.users[id].id == id
        &&& forall|a: i64, b: i64, name: Seq<char>|
            #[trigger] self.named(a, name) && #[trigger] self.named(b, name) ==> a == b
        &&& forall|token: Seq<char>| #[trigger]
            self.tokens.contains_key(token) ==> self.tokens[token].token == token
                && self.users.contains_key(self.tokens[token].user_id)
        &&& forall|id: Seq<char>| #[trigger]
            self.devices.contains_key(id) ==> self.devices[id].id == id
        &&& forall|guid: Seq<char>| #[trigger]
            self.books.contains_key(guid) ==> self.books[guid].guid == guid
                && self.users.contains_key(self.books[guid].owner_id) && is_hex(guid, 32)
        &&& forall|user_id: i64, a: Seq<char>, b: Seq<char>|
            #[trigger] self.owns(user_id, a) && #[trigger] self.owns(user_id, b) ==> a == b
        &&& forall|key: (Seq<char>, Seq<char>)| #[trigger]
            self.peers.contains_key(key) ==> self.peers[key].id == key.1
                && self.books.contains_key(key.0)
        &&& forall|key: (Seq<char>, Seq<char>)| #[trigger]
            self.tags.contains_key(key) ==> self.books.contains_key(key.0)
    }
}

/// The database as it is first set up.
pub open spec fn no_tables() -> Tables {
    Tables {
        users: Map::empty(),
        tokens: Map::empty(),
        devices: Map::empty(),
        books: Map::empty(),
        peers: Map::empty(),
        tags: Map::empty(),
    }
}

/// The row that stands for a new account under the id `id`.
pub open spec fn account(id: i64, row: NewUserView) -> UserView {
    UserView {
        id,
        name: row.name,
        password_hash: row.password_hash,
        email: row.email,
        note: Seq::empty(),
        is_admin: row.is_admin,
        status: row.status,
        created_at: row.created_at,
    }
}

/// The row of a workstation after `report`: a known one keeps when it was first seen.
pub open spec fn reported(
    devices: Map<Seq<char>, DeviceView>,
    report: DeviceReportView,
    now: i64,
) -> DeviceView {
    if devices.contains_key(report.id) {
        DeviceView {
            first_seen: devices[report.id].first_seen,
            ..first_report(report, now)
        }
    } else {
        first_report(report, now)
    }
}

/// The tables after `book` was inserted, unless its owner has a book, or its guid is taken.
pub open spec fn with_book(t: Tables, book: NewBookView) -> Tables {
    if t.has_book(book.owner_id) || t.books.contains_key(book.guid) {
        t
    } else {
        Tables { books: t.books.insert(book.guid, book), ..t }
    }
}

/// The sessions of every account but `id`.
pub open spec fn tokens_of_others(t: Tables, id: i64) -> Map<Seq<char>, NewTokenView> {
    Map::new(
        |token: Seq<char>| t.tokens.contains_key(token) && t.tokens[token].user_id != id,
        |token: Seq<char>| t.tokens[token],
    )
}

/// The sessions that have not run out at `now`.
pub open spec fn live_tokens(t: Tables, now: i64) -> Map<Seq<char>, NewTokenView> {
    Map::new(
        |token: Seq<char>| t.tokens.contains_key(token) && t.tokens[token].expires_at > now,
        |token: Seq<char>| t.tokens[token],
    )
}

/// The tables after the account `id` got the password hash `password_hash`: its sessions,
/// which were opened with the old password, are closed.
pub open spec fn with_password(t: Tables, id: i64, password_hash: Seq<char>) -> Tables {
    Tables {
        users: t.users.insert(id, UserView { password_hash, ..t.users[id] }),
        tokens: tokens_of_others(t, id),
        ..t
    }
}

/// The tables without the account `id`, its sessions, its book and what stands in it.
pub open spec fn without_user(t: Tables, id: i64) -> Tables {
    Tables {
        users: t.users.remove(id),
        tokens: tokens_of_others(t, id),
        books: Map::new(
            |guid: Seq<char>| t.books.contains_key(guid) && t.books[guid].owner_id != id,
            |guid: Seq<char>| t.books[guid],
        ),
        peers: Map::new(
            |key: (Seq<char>, Seq<char>)| t.peers.contains_key(key) && !t.owns(id, key.0),
            |key: (Seq<char>, Seq<char>)| t.peers[key],
        ),
        tags: Map::new(
            |key: (Seq<char>, Seq<char>)| t.tags.contains_key(key) && !t.owns(id, key.0),
            |key: (Seq<char>, Seq<char>)| t.tags[key],
        ),
        ..t
    }
}

/// The peers after the stored tag lists of the book `guid` were rewritten.
pub open spec fn retagged(
    peers: Map<(Seq<char>, Seq<char>), AbPeerView>,
    guid: Seq<char>,
    rewrite: spec_fn(Seq<char>) -> Seq<char>,
) -> Map<(Seq<char>, Seq<char>), AbPeerView> {
    peers.map_entries(
        |key: (Seq<char>, Seq<char>), peer: AbPeerView|
            if key.0 == guid {
                AbPeerView { tags: rewrite(peer.tags), ..peer }
            } else {
                peer
            },
    )
}

/// The tags after `old` was renamed to `new` in the book `guid`; a tag of the new name gives
/// way.
pub open spec fn tag_renamed(
    tags: Map<(Seq<char>, Seq<char>), i64>,
    guid: Seq<char>,
    old: Seq<char>,
    new: Seq<char>,
) -> Map<(Seq<char>, Seq<char>), i64> {
    if tags.contains_key((guid, old)) {
        tags.remove((guid, old)).insert((guid, new), tags[(guid, old)])
    } else {
        tags
    }
}

// ---------------------------------------------------------------------------
// Queries
// ---------------------------------------------------------------------------

/// The database, which held `before`, answers `query` at the time `now` with `reply` and then
/// holds `after`. Where chance decides, about the id of a new account and the guid of a new
/// book, any value that is not in use may come.
pub open spec fn served(
    before: Tables,
    query: QueryView,
    now: i64,
    reply: ReplyView,
    after: Tables,
) -> bool {
    match query {
        QueryView::FindUserByName { name } => {
            &&& after == before
            &&& match reply {
                ReplyView::User(Some(user)) => before.named(user.id, name) && before.users[user.id]
                    == user,
                ReplyView::User(None) => !before.is_taken(name),
                _ => false,
            }
        },
        QueryView::CreateUser { name, password_hash, email, is_admin } => if before.is_taken(name) {
            reply == ReplyView::Failed && after == before
        } else {
            reply matches ReplyView::Count(id) && !before.users.contains_key(id) && after == (Tables {
                users: before.users.insert(
                    id,
                    account(id, new_user_view(name, password_hash, email, is_admin, now)),
                ),
                ..before
            })
        },
        QueryView::CountUsers => {
            &&& reply matches ReplyView::Count(n) && n == before.users.len()
            &&& after == before
        },
        QueryView::ListUsers => {
            &&& reply matches ReplyView::Users(list) && is_listing(
                list,
                |u: UserView| before.users.contains_key(u.id) && before.users[u.id] == u,
                |a: UserView, b: UserView| text_leq(lower(a.name), lower(b.name)),
            )
            &&& after == before
        },
        QueryView::SetPassword { name, password_hash } => if before.is_taken(name) {
            &&& reply == ReplyView::Count(1)
            &&& exists|id: i64| #[trigger]
                before.named(id, name) && after == with_password(before, id, password_hash)
        } else {
            reply == ReplyView::Count(0) && after == before
        },
        QueryView::DeleteUser { name } => if before.is_taken(name) {
            &&& reply == ReplyView::Count(1)
            &&& exists|id: i64| #[trigger] before.named(id, name) && after == without_user(before, id)
        } else {
            reply == ReplyView::Count(0) && after == before
        },
        QueryView::CreateToken { token, user_id, device_id, device_uuid, ttl } => if before.tokens.contains_key(
            token,
        ) || !before.users.contains_key(user_id) {
            reply == ReplyView::Failed && after == before
        } else {
            reply == ReplyView::Done && after == (Tables {
                tokens: before.tokens.insert(
                    token,
                    new_token_view(token, user_id, device_id, device_uuid, ttl, now),
                ),
                ..before
            })
        },
        QueryView::UserForToken { token } => {
            reply == ReplyView::User(before.session(token, now)) && after == before
        },
        QueryView::DeleteToken { token } => {
            reply == ReplyView::Done && after == (Tables {
                tokens: before.tokens.remove(token),
                ..before
            })
        },
        QueryView::PurgeExpiredTokens => {
            reply is Count && after == (Tables {
                tokens: live_tokens(before, now),
                ..before
            })
        },
        QueryView::UpsertDevice { report } => {
            reply == ReplyView::Done && after == (Tables {
                devices: before.devices.insert(report.id, reported(before.devices, report, now)),
                ..before
            })
        },
        QueryView::TouchDevice { id } => if before.devices.contains_key(id) {
            reply == ReplyView::Flag(true) && after == (Tables {
                devices: before.devices.insert(
                    id,
                    DeviceView { last_seen: now, ..before.devices[id] },
                ),
                ..before
            })
        } else {
            reply == ReplyView::Flag(false) && after == before
        },
        QueryView::ListDevices { stale_days } => {
            &&& reply matches ReplyView::Devices(list) && is_listing(
                list,
                |d: DeviceView| before.lists_device(d, stale_days, now),
                |a: DeviceView, b: DeviceView| device_leq(a, b),
            )
            &&& after == before
        },
        QueryView::DeleteDevice { id } => {
            &&& reply == ReplyView::Count(
                if before.devices.contains_key(id) {
                    1
                } else {
                    0
                },
            )
            &&& after == (Tables { devices: before.devices.remove(id), ..before })
        },
        QueryView::GetOrCreatePersonalAb { user_id } => if before.has_book(user_id) {
            &&& reply matches ReplyView::Guid(guid) && before.owns(user_id, guid)
            &&& after == before
        } else if before.users.contains_key(user_id) {
            reply matches ReplyView::Guid(guid) && !before.books.contains_key(guid) && is_hex(guid, 32)
                && after == with_book(before, new_book_view(user_id, guid, now))
        } else {
            reply == ReplyView::Failed && after == before
        },
        QueryView::OwnsAb { guid, user_id } => {
            reply == ReplyView::Flag(before.owns(user_id, guid)) && after == before
        },
        QueryView::ListAbPeers { guid } => {
            &&& reply matches ReplyView::Peers(list) && is_listing(
                list,
                |p: AbPeerView| before.lists_peer(guid, p),
                |a: AbPeerView, b: AbPeerView| text_leq(a.id, b.id),
            )
            &&& after == before
        },
        QueryView::GetAbPeer { guid, id } => {
            &&& reply == ReplyView::Peer(
                if before.peers.contains_key((guid, id)) {
                    Some(before.peers[(guid, id)])
                } else {
                    None
                },
            )
            &&& after == before
        },
        QueryView::PutAbPeer { guid, peer } => if before.books.contains_key(guid) {
            reply == ReplyView::Done && after == (Tables {
                peers: before.peers.insert((guid, peer.id), peer),
                ..before
            })
        } else {
            reply == ReplyView::Failed && after == before
        },
        QueryView::DeleteAbPeers { guid, ids } => {
            reply == ReplyView::Done && after == (Tables {
                peers: Map::new(
                    |key: (Seq<char>, Seq<char>)|
                        before.peers.contains_key(key) && !(key.0 == guid && ids.contains(key.1)),
                    |key: (Seq<char>, Seq<char>)| before.peers[key],
                ),
                ..before
            })
        },
        QueryView::ListAbTags { guid } => {
            &&& reply matches ReplyView::Tags(list) && is_listing(
                list,
                |t: AbTagView| before.lists_tag(guid, t),
                |a: AbTagView, b: AbTagView| text_leq(a.name, b.name),
            )
            &&& after == before
        },
        QueryView::PutAbTag { guid, name, color } => if before.books.contains_key(guid) {
            reply == ReplyView::Done && after == (Tables {
                tags: before.tags.insert((guid, name), color),
                ..before
            })
        } else {
            reply == ReplyView::Failed && after == before
        },
        QueryView::RenameAbTag { guid, old, new } => {
            reply == ReplyView::Done && after == (Tables {
                tags: tag_renamed(before.tags, guid, old, new),
                peers: retagged(
                    before.peers,
                    guid,
                    |text: Seq<char>| renamed_text(text, old, new),
                ),
                ..before
            })
        },
        QueryView::DeleteAbTags { guid, names } => {
            reply == ReplyView::Done && after == (Tables {
                tags: Map::new(
                    |key: (Seq<char>, Seq<char>)|
                        before.tags.contains_key(key) && !(key.0 == guid && names.contains(key.1)),
                    |key: (Seq<char>, Seq<char>)| before.tags[key],
                ),
                peers: retagged(before.peers, guid, |text: Seq<char>| stripped_text(text, names)),
                ..before
            })
        },
    }
}

/// A request that stands at `step` ends in `response`: its queries are answered one by one,
/// at the clock readings `times`, and turn `before` into `after`. `token` is the session token
/// drawn in case the request is a login. No other request changes the tables in between.
pub open spec fn answered(
    step: StepView,
    times: Seq<i64>,
    token: Seq<char>,
    before: Tables,
    response: ResponseView,
    after: Tables,
) -> bool
    decreases times.len(),
{
    match step {
        StepView::Done(done) => times.len() == 0 && response == done && after == before,
        StepView::Ask(query, pending) => {
            &&& times.len() > 0
            &&& exists|reply: ReplyView, between: Tables| #[trigger]
                served(before, query, times[0], reply, between) && answered(
                    next(pending, reply, token),
                    times.drop_first(),
                    token,
                    between,
                    response,
                    after,
                )
        },
    }
}

} // verus!
