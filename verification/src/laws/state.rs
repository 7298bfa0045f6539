//! What every request keeps.

use crate::api::{next, ResponseView, StepView};
use crate::query::{QueryView, ReplyView};
use crate::tables::{answered, no_tables, served, Tables};
use vstd::prelude::*;

verus! {

/// The database is in order when it is first set up.
pub proof fn law_no_tables_are_valid()
    ensures
        no_tables().valid(),
{
}

/// Every query leaves the tables in order.
pub proof fn law_queries_keep_tables_valid(
    before: Tables,
    query: QueryView,
    now: i64,
    reply: ReplyView,
    after: Tables,
)
    requires
        before.valid(),
        served(before, query, now, reply, after),
    ensures
        after.valid(),
{
    match query {
        QueryView::CreateUser { name, .. } => {
            if !before.is_taken(name) {
                lemma_new_user(before, query, now, reply, after);
            }
        },
        QueryView::SetPassword { name, .. } => {
            if before.is_taken(name) {
                lemma_new_password(before, query, now, reply, after);
            }
        },
        QueryView::DeleteUser { name } => {
            if before.is_taken(name) {
                lemma_user_removed(before, query, now, reply, after);
            }
        },
        QueryView::GetOrCreatePersonalAb { user_id } => {
            if !before.has_book(user_id) && before.users.contains_key(user_id) {
                lemma_new_book(before, query, now, reply, after);
            }
        },
        _ => {
            lemma_same_people(before, query, now, reply, after);
        },
    }
}

/// A query that neither makes nor removes accounts and books.
proof fn lemma_same_people(
    before: Tables,
    query: QueryView,
    now: i64,
    reply: ReplyView,
    after: Tables,
)
    requires
        before.valid(),
        served(before, query, now, reply, after),
        !(query is CreateUser),
        !(query is SetPassword),
        !(query is DeleteUser),
        !(query is GetOrCreatePersonalAb),
    ensures
        after.valid(),
{
    assert(after.users == before.users);
    assert(after.books == before.books);
    assert forall|a: i64, b: i64, name: Seq<char>|
        #[trigger] after.named(a, name) && #[trigger] after.named(b, name) implies a == b by {
        assert(before.named(a, name) && before.named(b, name));
    }
    assert forall|user_id: i64, a: Seq<char>, b: Seq<char>|
        #[trigger] after.owns(user_id, a) && #[trigger] after.owns(user_id, b) implies a == b by {
        assert(before.owns(user_id, a) && before.owns(user_id, b));
    }
}

proof fn lemma_new_user(
    before: Tables,
    query: QueryView,
    now: i64,
    reply: ReplyView,
    after: Tables,
)
    requires
        before.valid(),
        served(before, query, now, reply, after),
        query matches QueryView::CreateUser { name, .. } && !before.is_taken(name),
    ensures
        after.valid(),
{
    let taken = query->CreateUser_name;
    let id = reply->Count_0;
    assert forall|a: i64, b: i64, name: Seq<char>|
        #[trigger] after.named(a, name) && #[trigger] after.named(b, name) implies a == b by {
        if a != id && b != id {
            assert(before.named(a, name) && before.named(b, name));
        } else if a != id {
            assert(before.named(a, taken));
        } else if b != id {
            assert(before.named(b, taken));
        }
    }
    assert forall|user_id: i64, a: Seq<char>, b: Seq<char>|
        #[trigger] after.owns(user_id, a) && #[trigger] after.owns(user_id, b) implies a == b by {
        assert(before.owns(user_id, a) && before.owns(user_id, b));
    }
}

proof fn lemma_new_password(
    before: Tables,
    query: QueryView,
    now: i64,
    reply: ReplyView,
    after: Tables,
)
    requires
        before.valid(),
        served(before, query, now, reply, after),
        query matches QueryView::SetPassword { name, .. } && before.is_taken(name),
    ensures
        after.valid(),
{
    assert(after.users.dom() =~= before.users.dom());
    assert forall|a: i64, b: i64, name: Seq<char>|
        #[trigger] after.named(a, name) && #[trigger] after.named(b, name) implies a == b by {
        assert(before.named(a, name) && before.named(b, name));
    }
    assert forall|user_id: i64, a: Seq<char>, b: Seq<char>|
        #[trigger] after.owns(user_id, a) && #[trigger] after.owns(user_id, b) implies a == b by {
        assert(before.owns(user_id, a) && before.owns(user_id, b));
    }
}

proof fn lemma_user_removed(
    before: Tables,
    query: QueryView,
    now: i64,
    reply: ReplyView,
    after: Tables,
)
    requires
        before.valid(),
        served(before, query, now, reply, after),
        query matches QueryView::DeleteUser { name } && before.is_taken(name),
    ensures
        after.valid(),
{
    assert forall|a: i64, b: i64, name: Seq<char>|
        #[trigger] after.named(a, name) && #[trigger] after.named(b, name) implies a == b by {
        assert(before.named(a, name) && before.named(b, name));
    }
    assert forall|user_id: i64, a: Seq<char>, b: Seq<char>|
        #[trigger] after.owns(user_id, a) && #[trigger] after.owns(user_id, b) implies a == b by {
        assert(before.owns(user_id, a) && before.owns(user_id, b));
    }
}

proof fn lemma_new_book(
    before: Tables,
    query: QueryView,
    now: i64,
    reply: ReplyView,
    after: Tables,
)
    requires
        before.valid(),
        served(before, query, now, reply, after),
        query matches QueryView::GetOrCreatePersonalAb { user_id } && !before.has_book(user_id)
            && before.users.contains_key(user_id),
    ensures
        after.valid(),
{
    let owner = query->GetOrCreatePersonalAb_user_id;
    let guid = reply->Guid_0;
    assert forall|a: i64, b: i64, name: Seq<char>|
        #[trigger] after.named(a, name) && #[trigger] after.named(b, name) implies a == b by {
        assert(before.named(a, name) && before.named(b, name));
    }
    assert forall|user_id: i64, a: Seq<char>, b: Seq<char>|
        #[trigger] after.owns(user_id, a) && #[trigger] after.owns(user_id, b) implies a == b by {
        if a != guid && b != guid {
            assert(before.owns(user_id, a) && before.owns(user_id, b));
        } else if a != guid {
            assert(before.owns(owner, a));
        } else if b != guid {
            assert(before.owns(owner, b));
        }
    }
}

/// Every request leaves the tables in order.
pub proof fn law_requests_keep_tables_valid(
    step: StepView,
    times: Seq<i64>,
    token: Seq<char>,
    before: Tables,
    response: ResponseView,
    after: Tables,
)
    requires
        before.valid(),
        answered(step, times, token, before, response, after),
    ensures
        after.valid(),
    decreases times.len(),
{
    if let StepView::Ask(query, pending) = step {
        let (reply, between) = choose|reply: ReplyView, between: Tables| #[trigger]
            served(before, query, times[0], reply, between) && answered(
                next(pending, reply, token),
                times.drop_first(),
                token,
                between,
                response,
                after,
            );
        law_queries_keep_tables_valid(before, query, times[0], reply, between);
        law_requests_keep_tables_valid(
            next(pending, reply, token),
            times.drop_first(),
            token,
            between,
            response,
            after,
        );
    }
}

} // verus!
