//! What the server does before it listens.

use crate::auth::{hash_password, hashes_to};
use crate::config::{Config, ConfigView};
use crate::query::{Query, QueryView, Reply, ReplyView};
use vstd::prelude::*;

verus! {

/// What the start waits for.
pub enum BootWait {
    /// Whether there are accounts, before the first one is made.
    FirstCount { name: String, password: String },
    /// That the first account was made.
    Created,
    /// That the sessions that ran out were dropped.
    Purged,
    /// Whether there are accounts.
    LastCount,
}

/// What a [`BootWait`] says.
pub enum BootWaitView {
    FirstCount { name: Seq<char>, password: Seq<char> },
    Created,
    Purged,
    LastCount,
}

impl View for BootWait {
    type V = BootWaitView;

    open spec fn view(&self) -> BootWaitView {
        match self {
            BootWait::FirstCount { name, password } => BootWaitView::FirstCount {
                name: name@,
                password: password@,
            },
            BootWait::Created => BootWaitView::Created,
            BootWait::Purged => BootWaitView::Purged,
            BootWait::LastCount => BootWaitView::LastCount,
        }
    }
}

/// Where the start stands.
pub enum Boot {
    Ask(Query, BootWait),
    /// Listen for requests; `deserted` where nobody can log in because there are no accounts.
    Listen { deserted: bool },
    /// The server cannot start: the database failed.
    Fail,
    /// The server cannot start: the password of the first account cannot be hashed.
    BadPassword,
}

/// What a [`Boot`] says.
pub enum BootView {
    Ask(QueryView, BootWaitView),
    Listen { deserted: bool },
    Fail,
    BadPassword,
}

impl View for Boot {
    type V = BootView;

    open spec fn view(&self) -> BootView {
        match self {
            Boot::Ask(query, wait) => BootView::Ask(query@, wait@),
            Boot::Listen { deserted } => BootView::Listen { deserted: *deserted },
            Boot::Fail => BootView::Fail,
            Boot::BadPassword => BootView::BadPassword,
        }
    }
}

/// The step after the first account was seen to: drop the sessions that have run out.
pub open spec fn purge_view() -> BootView {
    BootView::Ask(QueryView::PurgeExpiredTokens, BootWaitView::Purged)
}

/// The first step of the start: the configuration may name a first account.
pub open spec fn bootstrap_view(config: ConfigView) -> BootView {
    match (config.admin_user, config.admin_password) {
        (Some(name), Some(password)) => BootView::Ask(
            QueryView::CountUsers,
            BootWaitView::FirstCount { name, password },
        ),
        _ => purge_view(),
    }
}

/// Creates the first account from the configuration, but only while no users exist, so
/// restarting a running deployment with the variables still set will not resurrect or reset
/// an account.
pub fn bootstrap_admin(config: &Config) -> (r: Boot)
    ensures
        r@ == bootstrap_view(config@),
{
    match (&config.admin_user, &config.admin_password) {
        (Some(name), Some(password)) => Boot::Ask(
            Query::CountUsers,
            BootWait::FirstCount { name: name.clone(), password: password.clone() },
        ),
        _ => Boot::Ask(Query::PurgeExpiredTokens, BootWait::Purged),
    }
}

/// What makes the first account, an administrator without an email, under the hash of its
/// password.
pub open spec fn first_account_view(name: Seq<char>, hash: Option<Seq<char>>) -> BootView {
    match hash {
        Some(password_hash) => BootView::Ask(
            QueryView::CreateUser { name, password_hash, email: ""@, is_admin: true },
            BootWaitView::Created,
        ),
        None => BootView::BadPassword,
    }
}

/// The step that follows `reply`; `hash` is the hash of the first account's password. A
/// failure to drop old sessions does not stop the server.
pub open spec fn next_boot(
    wait: BootWaitView,
    reply: ReplyView,
    hash: Option<Seq<char>>,
) -> BootView {
    match wait {
        BootWaitView::FirstCount { name, .. } => match reply {
            ReplyView::Count(n) => if n > 0 {
                purge_view()
            } else {
                first_account_view(name, hash)
            },
            _ => BootView::Fail,
        },
        BootWaitView::Created => match reply {
            ReplyView::Count(_) => purge_view(),
            _ => BootView::Fail,
        },
        BootWaitView::Purged => BootView::Ask(QueryView::CountUsers, BootWaitView::LastCount),
        BootWaitView::LastCount => match reply {
            ReplyView::Count(n) => BootView::Listen { deserted: n == 0 },
            _ => BootView::Fail,
        },
    }
}

/// The step that follows `reply`, for a given hash of the first account's password.
pub fn boot_step(wait: BootWait, reply: Reply, hash: Option<String>) -> (r: Boot)
    ensures
        r@ == next_boot(wait@, reply@, hash.deep_view()),
{
    match wait {
        BootWait::FirstCount { name, .. } => match reply {
            Reply::Count(n) => {
                if n > 0 {
                    Boot::Ask(Query::PurgeExpiredTokens, BootWait::Purged)
                } else {
                    match hash {
                        Some(password_hash) => Boot::Ask(
                            Query::CreateUser {
                                name,
                                password_hash,
                                email: "".to_owned(),
                                is_admin: true,
                            },
                            BootWait::Created,
                        ),
                        None => Boot::BadPassword,
                    }
                }
            },
            _ => Boot::Fail,
        },
        BootWait::Created => match reply {
            Reply::Count(_) => Boot::Ask(Query::PurgeExpiredTokens, BootWait::Purged),
            _ => Boot::Fail,
        },
        BootWait::Purged => Boot::Ask(Query::CountUsers, BootWait::LastCount),
        BootWait::LastCount => match reply {
            Reply::Count(n) => Boot::Listen { deserted: n == 0 },
            _ => Boot::Fail,
        },
    }
}

/// The password that the step after `reply` stores for the first account, if it makes one.
pub open spec fn first_password(wait: BootWaitView, reply: ReplyView) -> Option<Seq<char>> {
    match (wait, reply) {
        (BootWaitView::FirstCount { password, .. }, ReplyView::Count(n)) => if n > 0 {
            None
        } else {
            Some(password)
        },
        _ => None,
    }
}

/// Goes on with the start. The password of the first account is hashed with a fresh salt.
pub fn serve(wait: BootWait, reply: Reply) -> (r: Boot)
    ensures
        exists|hash: Option<Seq<char>>|
            {
                &&& r@ == #[trigger] next_boot(wait@, reply@, hash)
                &&& first_password(wait@, reply@) matches Some(password) ==> hashes_to(
                    password,
                    hash,
                )
            },
{
    let hash = match (&wait, &reply) {
        (BootWait::FirstCount { password, .. }, Reply::Count(n)) => if *n > 0 {
            None
        } else {
            hash_password(password.as_str())
        },
        _ => None,
    };
    boot_step(wait, reply, hash)
}

} // verus!
