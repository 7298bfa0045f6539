//! Personal address books.

use crate::api::ab::{
    added_peer, has_id, is_paged, ok_empty_view, paged, peer_view, stored_peer_view,
    stored_peers, tag_views, updated_peer, write_view, BookUseView, ChangeView, PageQueryView,
    PeerPayloadView, TagPayloadView, DEFAULT_TAG_COLOR, SHARED_GUID,
};
use crate::api::{
    error_view, json_view, next, require_user_view, ActionView, PendingView, ResponseView, StepView,
    OK,
};
use crate::db::{is_hex, AbPeerView, AbTagView, NewBookView};
use crate::document::{has_value, strings_text};
use crate::json::{no_members, page_view, JsonView};
use crate::laws::rows::is_sent_or;
use crate::laws::state::{law_queries_keep_tables_valid, law_requests_keep_tables_valid};
use crate::query::{QueryView, ReplyView};
use crate::tables::{answered, is_listing, served, text_leq, with_book, Tables};
use vstd::prelude::*;

verus! {

/// A guid that is drawn is never that of the shared book.
pub proof fn law_shared_guid_is_never_drawn(guid: Seq<char>)
    requires
        is_hex(guid, 32),
    ensures
        guid != SHARED_GUID@,
{
    reveal_strlit("all-workstations");
    assert(SHARED_GUID@.len() == 16);
}

/// The personal book is made once: every later look-up gives the same guid, and the book is
/// the user's own and not the shared one.
pub proof fn law_personal_book_is_stable(
    before: Tables,
    user_id: i64,
    first_at: i64,
    first: ReplyView,
    between: Tables,
    second_at: i64,
    second: ReplyView,
    after: Tables,
)
    requires
        before.valid(),
        before.users.contains_key(user_id),
        served(before, QueryView::GetOrCreatePersonalAb { user_id }, first_at, first, between),
        served(between, QueryView::GetOrCreatePersonalAb { user_id }, second_at, second, after),
    ensures
        first matches ReplyView::Guid(guid) && between.owns(user_id, guid) && guid != SHARED_GUID@,
        second == first,
        after == between,
{
    law_queries_keep_tables_valid(
        before,
        QueryView::GetOrCreatePersonalAb { user_id },
        first_at,
        first,
        between,
    );
    let guid = first->Guid_0;
    if before.has_book(user_id) {
        assert(before.owns(user_id, guid));
    }
    assert(between.owns(user_id, guid));
    law_shared_guid_is_never_drawn(guid);
}

/// Two requests that find no book for a user at the same time, and both insert one, make one
/// book between them: the second insertion does nothing, and both find the first book.
pub proof fn law_concurrent_requests_make_one_book(
    before: Tables,
    first: NewBookView,
    second: NewBookView,
    guid: Seq<char>,
)
    requires
        !before.has_book(first.owner_id),
        !before.books.contains_key(first.guid),
        second.owner_id == first.owner_id,
    ensures
        with_book(with_book(before, first), second) == with_book(before, first),
        with_book(before, first).owns(first.owner_id, guid) <==> guid == first.guid,
{
    let after = with_book(before, first);
    assert(after.owns(first.owner_id, first.guid));
    if after.owns(first.owner_id, guid) && guid != first.guid {
        assert(before.owns(first.owner_id, guid));
    }
}

/// A client that asks for its personal book gets the guid of a book that belongs to it.
pub proof fn law_personal_book_is_reported(
    header: Option<Seq<char>>,
    times: Seq<i64>,
    token: Seq<char>,
    before: Tables,
    response: ResponseView,
    after: Tables,
) -> (guid: Seq<char>)
    requires
        before.valid(),
        answered(
            require_user_view(header, ActionView::Personal),
            times,
            token,
            before,
            response,
            after,
        ),
        times.len() > 0,
        before.active_user(header, times[0]) is Some,
    ensures
        response == json_view(no_members().with("guid"@, JsonView::Text(guid))),
        after.owns(before.active_user(header, times[0])->0.id, guid),
{
    reveal_with_fuel(answered, 4);
    let user = before.active_user(header, times[0])->0;
    let rest = times.drop_first();
    let found = next(
        PendingView::Session { action: ActionView::Personal },
        ReplyView::User(Some(user)),
        token,
    );
    assert(answered(found, rest, token, before, response, after));
    let (reply, between) = choose|reply: ReplyView, between: Tables| #[trigger]
        served(
            before,
            QueryView::GetOrCreatePersonalAb { user_id: user.id },
            rest[0],
            reply,
            between,
        ) && answered(
            next(PendingView::PersonalGuid, reply, token),
            rest.drop_first(),
            token,
            between,
            response,
            after,
        );
    reply->Guid_0
}

/// The user who sent `header` at the time `now` has the book `guid`.
pub open spec fn holds(t: Tables, header: Option<Seq<char>>, now: i64, guid: Seq<char>) -> bool {
    t.active_user(header, now) matches Some(user) && t.owns(user.id, guid)
}

/// `list` holds the peers of the book `guid`, in their order.
pub open spec fn lists_peers(t: Tables, list: Seq<AbPeerView>, guid: Seq<char>) -> bool {
    is_listing(
        list,
        |p: AbPeerView| t.lists_peer(guid, p),
        |a: AbPeerView, b: AbPeerView| text_leq(a.id, b.id),
    )
}

/// A user who reads their own book, by its guid or by naming none, gets the peers that stand
/// in it, and reading changes nothing.
pub proof fn law_own_book_lists_its_peers(
    header: Option<Seq<char>>,
    page: PageQueryView,
    stale_days: i64,
    times: Seq<i64>,
    token: Seq<char>,
    before: Tables,
    response: ResponseView,
    after: Tables,
    guid: Seq<char>,
) -> (list: Seq<AbPeerView>)
    requires
        before.valid(),
        answered(
            require_user_view(header, ActionView::Peers { page, stale_days }),
            times,
            token,
            before,
            response,
            after,
        ),
        times.len() > 0,
        holds(before, header, times[0], guid),
        page.ab matches Some(named) ==> named.len() == 0 || named == guid,
    ensures
        lists_peers(before, list, guid),
        response == json_view(paged(stored_peers(list), page)),
        after == before,
{
    reveal_with_fuel(answered, 5);
    law_shared_guid_is_never_drawn(guid);
    let user = before.active_user(header, times[0])->0;
    assert(before.has_book(user.id));
    let action = ActionView::Peers { page, stale_days };
    let rest = times.drop_first();
    let found = next(PendingView::Session { action }, ReplyView::User(Some(user)), token);
    assert(answered(found, rest, token, before, response, after));
    let usage = BookUseView::Peers { page, stale_days };
    let checked = StepView::Ask(
        QueryView::OwnsAb { guid, user_id: user.id },
        PendingView::Ownership { guid, usage },
    );
    let left = if found == checked {
        rest
    } else {
        rest.drop_first()
    };
    assert(answered(checked, left, token, before, response, after));
    let listing = StepView::Ask(QueryView::ListAbPeers { guid }, PendingView::BookPeers { page });
    let last = left.drop_first();
    assert(answered(listing, last, token, before, response, after));
    let (reply, between) = choose|reply: ReplyView, between: Tables| #[trigger]
        served(before, QueryView::ListAbPeers { guid }, last[0], reply, between) && answered(
            next(PendingView::BookPeers { page }, reply, token),
            last.drop_first(),
            token,
            between,
            response,
            after,
        );
    reply->Peers_0
}

/// A user who reads the tags of their own book gets a bare array of them.
pub proof fn law_own_book_lists_its_tags(
    header: Option<Seq<char>>,
    times: Seq<i64>,
    token: Seq<char>,
    before: Tables,
    response: ResponseView,
    after: Tables,
    guid: Seq<char>,
) -> (list: Seq<AbTagView>)
    requires
        before.valid(),
        answered(
            require_user_view(header, ActionView::Book { guid, usage: BookUseView::Tags }),
            times,
            token,
            before,
            response,
            after,
        ),
        times.len() > 0,
        holds(before, header, times[0], guid),
    ensures
        is_listing(
            list,
            |t: AbTagView| before.lists_tag(guid, t),
            |a: AbTagView, b: AbTagView| text_leq(a.name, b.name),
        ),
        response == json_view(JsonView::List(tag_views(list))),
        after == before,
{
    reveal_with_fuel(answered, 5);
    law_shared_guid_is_never_drawn(guid);
    let user = before.active_user(header, times[0])->0;
    let action = ActionView::Book { guid, usage: BookUseView::Tags };
    let rest = times.drop_first();
    let checked = next(PendingView::Session { action }, ReplyView::User(Some(user)), token);
    assert(answered(checked, rest, token, before, response, after));
    let listing = StepView::Ask(QueryView::ListAbTags { guid }, PendingView::BookTags);
    let last = rest.drop_first();
    assert(answered(listing, last, token, before, response, after));
    let (reply, between) = choose|reply: ReplyView, between: Tables| #[trigger]
        served(before, QueryView::ListAbTags { guid }, last[0], reply, between) && answered(
            next(PendingView::BookTags, reply, token),
            last.drop_first(),
            token,
            between,
            response,
            after,
        );
    reply->Tags_0
}

/// The shared book carries no tags.
pub proof fn law_shared_book_has_no_tags(
    header: Option<Seq<char>>,
    times: Seq<i64>,
    token: Seq<char>,
    before: Tables,
    response: ResponseView,
    after: Tables,
)
    requires
        answered(
            require_user_view(
                header,
                ActionView::Book { guid: SHARED_GUID@, usage: BookUseView::Tags },
            ),
            times,
            token,
            before,
            response,
            after,
        ),
        times.len() > 0,
        before.active_user(header, times[0]) is Some,
    ensures
        response == json_view(JsonView::List(Seq::empty())),
        after == before,
{
    reveal_with_fuel(answered, 3);
}

/// A book that belongs to somebody else, or to nobody, is not found: nothing of it is shown
/// and nothing is changed.
pub proof fn law_foreign_book_is_not_found(
    header: Option<Seq<char>>,
    guid: Seq<char>,
    usage: BookUseView,
    times: Seq<i64>,
    token: Seq<char>,
    before: Tables,
    response: ResponseView,
    after: Tables,
)
    requires
        answered(
            require_user_view(header, ActionView::Book { guid, usage }),
            times,
            token,
            before,
            response,
            after,
        ),
        times.len() > 0,
        before.active_user(header, times[0]) is Some,
        guid != SHARED_GUID@,
        !before.owns(before.active_user(header, times[0])->0.id, guid),
    ensures
        response == error_view(OK, "Address book not found"@),
        after == before,
{
    reveal_with_fuel(answered, 4);
}

/// The same for reading peers by guid.
pub proof fn law_foreign_peers_are_not_found(
    header: Option<Seq<char>>,
    page: PageQueryView,
    stale_days: i64,
    times: Seq<i64>,
    token: Seq<char>,
    before: Tables,
    response: ResponseView,
    after: Tables,
)
    requires
        answered(
            require_user_view(header, ActionView::Peers { page, stale_days }),
            times,
            token,
            before,
            response,
            after,
        ),
        times.len() > 0,
        before.active_user(header, times[0]) is Some,
        page.ab matches Some(guid) && guid.len() > 0 && guid != SHARED_GUID@ && !before.owns(
            before.active_user(header, times[0])->0.id,
            guid,
        ),
    ensures
        response == error_view(OK, "Address book not found"@),
        after == before,
{
    reveal_with_fuel(answered, 4);
}

/// A user whose book it is gets the change as far as the decision what to do.
pub(crate) proof fn lemma_change_starts(
    header: Option<Seq<char>>,
    guid: Seq<char>,
    change: ChangeView,
    times: Seq<i64>,
    token: Seq<char>,
    before: Tables,
    response: ResponseView,
    after: Tables,
)
    requires
        before.valid(),
        answered(write_view(header, guid, change), times, token, before, response, after),
        times.len() > 0,
        holds(before, header, times[0], guid),
    ensures
        times.len() > 1,
        answered(
            crate::api::ab::change_view(guid, change),
            times.drop_first().drop_first(),
            token,
            before,
            response,
            after,
        ),
{
    reveal_with_fuel(answered, 4);
    law_shared_guid_is_never_drawn(guid);
}

/// A peer that a user adds to their book stands in it afterwards, with what was sent; nothing
/// else changes. A peer without an id is refused.
pub proof fn law_added_peer_is_stored(
    header: Option<Seq<char>>,
    guid: Seq<char>,
    payload: PeerPayloadView,
    times: Seq<i64>,
    token: Seq<char>,
    before: Tables,
    response: ResponseView,
    after: Tables,
)
    requires
        before.valid(),
        answered(
            write_view(header, guid, ChangeView::PeerAdd(payload)),
            times,
            token,
            before,
            response,
            after,
        ),
        times.len() > 0,
        holds(before, header, times[0], guid),
    ensures
        has_id(payload) ==> response == ok_empty_view() && after == (Tables {
            peers: before.peers.insert((guid, payload.id->0), added_peer(payload)),
            ..before
        }) && after.lists_peer(guid, added_peer(payload)),
        has_id(payload) ==> {
            let row = after.peers[(guid, payload.id->0)];
            &&& row.id == payload.id->0
            &&& is_sent_or(row.alias, payload.alias, Seq::empty())
            &&& is_sent_or(row.hash, payload.hash, Seq::empty())
            &&& is_sent_or(row.password, payload.password, Seq::empty())
            &&& is_sent_or(row.note, payload.note, Seq::empty())
            &&& is_sent_or(row.username, payload.username, Seq::empty())
            &&& is_sent_or(row.hostname, payload.hostname, Seq::empty())
            &&& is_sent_or(row.platform, payload.platform, Seq::empty())
            &&& payload.tags matches Some(tags) ==> row.tags == strings_text(tags)
            &&& payload.tags is None ==> row.tags == strings_text(Seq::empty())
        },
        !has_id(payload) ==> response == error_view(OK, "Peer id is required"@) && after == before,
{
    lemma_change_starts(
        header,
        guid,
        ChangeView::PeerAdd(payload),
        times,
        token,
        before,
        response,
        after,
    );
    reveal_with_fuel(answered, 3);
}

/// `peer` is among the peers that a client is sent. Where its stored tag list is a document the
/// client gets that document; `peer_to_add` and `peer_to_update` ensure that it is one, and that
/// it reads as the tags that were sent.
pub open spec fn is_among_peers(data: Seq<JsonView>, peer: AbPeerView) -> bool {
    &&& data.contains(stored_peer_view(peer))
    &&& has_value(peer.tags) ==> data.contains(peer_view(peer, JsonView::Raw(peer.tags)))
}

/// What a user puts into their book they get back: a peer that was added is among the peers
/// that the book lists, by any session of theirs, as it was sent. `data` is the whole book, of
/// which the response holds the page that was asked for.
pub proof fn law_added_peer_is_read_back(
    header: Option<Seq<char>>,
    guid: Seq<char>,
    payload: PeerPayloadView,
    times: Seq<i64>,
    token: Seq<char>,
    before: Tables,
    response: ResponseView,
    between: Tables,
    read_header: Option<Seq<char>>,
    page: PageQueryView,
    stale_days: i64,
    read_times: Seq<i64>,
    read_response: ResponseView,
    after: Tables,
) -> (data: Seq<JsonView>)
    requires
        before.valid(),
        answered(
            write_view(header, guid, ChangeView::PeerAdd(payload)),
            times,
            token,
            before,
            response,
            between,
        ),
        times.len() > 0,
        holds(before, header, times[0], guid),
        has_id(payload),
        answered(
            require_user_view(read_header, ActionView::Peers { page, stale_days }),
            read_times,
            token,
            between,
            read_response,
            after,
        ),
        read_times.len() > 0,
        holds(between, read_header, read_times[0], guid),
        page.ab matches Some(named) ==> named.len() == 0 || named == guid,
    ensures
        read_response == json_view(paged(data, page)),
        !is_paged(page) ==> read_response == json_view(page_view(data.len() as int, data)),
        is_among_peers(data, added_peer(payload)),
{
    let change = ChangeView::PeerAdd(payload);
    law_requests_keep_tables_valid(
        write_view(header, guid, change),
        times,
        token,
        before,
        response,
        between,
    );
    law_added_peer_is_stored(header, guid, payload, times, token, before, response, between);
    let list = law_own_book_lists_its_peers(
        read_header,
        page,
        stale_days,
        read_times,
        token,
        between,
        read_response,
        after,
        guid,
    );
    let peer = added_peer(payload);
    assert(between.lists_peer(guid, peer));
    assert(list.contains(peer));
    let i = choose|i: int| 0 <= i < list.len() && list[i] == peer;
    let data = stored_peers(list);
    assert(data[i] == stored_peer_view(peer));
    data
}

/// An update changes what was sent of a peer and keeps the rest; an unknown peer is not made;
/// nothing else changes.
pub proof fn law_update_is_sparse(
    header: Option<Seq<char>>,
    guid: Seq<char>,
    payload: PeerPayloadView,
    times: Seq<i64>,
    token: Seq<char>,
    before: Tables,
    response: ResponseView,
    after: Tables,
)
    requires
        before.valid(),
        answered(
            write_view(header, guid, ChangeView::PeerUpdate(payload)),
            times,
            token,
            before,
            response,
            after,
        ),
        times.len() > 0,
        holds(before, header, times[0], guid),
        has_id(payload),
    ensures
        response == ok_empty_view(),
        ({
            let key = (guid, payload.id->0);
            if before.peers.contains_key(key) {
                let was = before.peers[key];
                let row = after.peers[key];
                &&& after == (Tables {
                    peers: before.peers.insert(key, updated_peer(was, payload)),
                    ..before
                })
                &&& row.id == was.id
                &&& is_sent_or(row.alias, payload.alias, was.alias)
                &&& payload.tags matches Some(tags) ==> row.tags == strings_text(tags)
                &&& payload.tags is None ==> row.tags == was.tags
                &&& is_sent_or(row.hash, payload.hash, was.hash)
                &&& is_sent_or(row.password, payload.password, was.password)
                &&& is_sent_or(row.note, payload.note, was.note)
                &&& is_sent_or(row.username, payload.username, was.username)
                &&& is_sent_or(row.hostname, payload.hostname, was.hostname)
                &&& is_sent_or(row.platform, payload.platform, was.platform)
            } else {
                after == before
            }
        }),
{
    lemma_change_starts(
        header,
        guid,
        ChangeView::PeerUpdate(payload),
        times,
        token,
        before,
        response,
        after,
    );
    reveal_with_fuel(answered, 4);
}

/// What a user changes of a peer they get back, with what was kept: a peer that was updated is
/// among the peers that the book lists, by any session of theirs.
pub proof fn law_updated_peer_is_read_back(
    header: Option<Seq<char>>,
    guid: Seq<char>,
    payload: PeerPayloadView,
    times: Seq<i64>,
    token: Seq<char>,
    before: Tables,
    response: ResponseView,
    between: Tables,
    read_header: Option<Seq<char>>,
    page: PageQueryView,
    stale_days: i64,
    read_times: Seq<i64>,
    read_response: ResponseView,
    after: Tables,
) -> (data: Seq<JsonView>)
    requires
        before.valid(),
        answered(
            write_view(header, guid, ChangeView::PeerUpdate(payload)),
            times,
            token,
            before,
            response,
            between,
        ),
        times.len() > 0,
        holds(before, header, times[0], guid),
        has_id(payload),
        before.peers.contains_key((guid, payload.id->0)),
        answered(
            require_user_view(read_header, ActionView::Peers { page, stale_days }),
            read_times,
            token,
            between,
            read_response,
            after,
        ),
        read_times.len() > 0,
        holds(between, read_header, read_times[0], guid),
        page.ab matches Some(named) ==> named.len() == 0 || named == guid,
    ensures
        read_response == json_view(paged(data, page)),
        !is_paged(page) ==> read_response == json_view(page_view(data.len() as int, data)),
        is_among_peers(data, updated_peer(before.peers[(guid, payload.id->0)], payload)),
{
    let change = ChangeView::PeerUpdate(payload);
    law_requests_keep_tables_valid(
        write_view(header, guid, change),
        times,
        token,
        before,
        response,
        between,
    );
    law_update_is_sparse(header, guid, payload, times, token, before, response, between);
    let list = law_own_book_lists_its_peers(
        read_header,
        page,
        stale_days,
        read_times,
        token,
        between,
        read_response,
        after,
        guid,
    );
    let peer = updated_peer(before.peers[(guid, payload.id->0)], payload);
    assert(between.lists_peer(guid, peer));
    assert(list.contains(peer));
    let i = choose|i: int| 0 <= i < list.len() && list[i] == peer;
    let data = stored_peers(list);
    assert(data[i] == stored_peer_view(peer));
    data
}

/// Deleting peers removes exactly those that are named, from this book only.
pub proof fn law_delete_removes_the_named_peers(
    header: Option<Seq<char>>,
    guid: Seq<char>,
    ids: Seq<Seq<char>>,
    times: Seq<i64>,
    token: Seq<char>,
    before: Tables,
    response: ResponseView,
    after: Tables,
    key: (Seq<char>, Seq<char>),
)
    requires
        before.valid(),
        answered(
            write_view(header, guid, ChangeView::PeerDelete(ids)),
            times,
            token,
            before,
            response,
            after,
        ),
        times.len() > 0,
        holds(before, header, times[0], guid),
    ensures
        response == ok_empty_view(),
        after.peers.contains_key(key) <==> before.peers.contains_key(key) && !(key.0 == guid
            && ids.contains(key.1)),
        after.peers.contains_key(key) ==> after.peers[key] == before.peers[key],
        after == (Tables { peers: after.peers, ..before }),
{
    lemma_change_starts(
        header,
        guid,
        ChangeView::PeerDelete(ids),
        times,
        token,
        before,
        response,
        after,
    );
    reveal_with_fuel(answered, 3);
}

/// A tag that is added, or repainted, has the colour that was sent, or the default where none
/// was; nothing else changes.
pub proof fn law_tag_has_its_colour(
    header: Option<Seq<char>>,
    guid: Seq<char>,
    payload: TagPayloadView,
    times: Seq<i64>,
    token: Seq<char>,
    before: Tables,
    response: ResponseView,
    after: Tables,
)
    requires
        before.valid(),
        answered(
            write_view(header, guid, ChangeView::TagPut(payload)),
            times,
            token,
            before,
            response,
            after,
        ),
        times.len() > 0,
        holds(before, header, times[0], guid),
    ensures
        payload.name.len() > 0 ==> response == ok_empty_view() && after == (Tables {
            tags: before.tags.insert(
                (guid, payload.name),
                match payload.color {
                    Some(color) => color,
                    None => DEFAULT_TAG_COLOR,
                },
            ),
            ..before
        }),
        payload.name.len() == 0 ==> response == error_view(OK, "Tag name is required"@) && after
            == before,
{
    lemma_change_starts(
        header,
        guid,
        ChangeView::TagPut(payload),
        times,
        token,
        before,
        response,
        after,
    );
    reveal_with_fuel(answered, 3);
}

/// Whoever asks for a change of the book `guid`, and whatever comes of it, no other book, no
/// account, no session and no workstation changes.
pub proof fn law_change_stays_within_the_book(
    header: Option<Seq<char>>,
    guid: Seq<char>,
    change: ChangeView,
    times: Seq<i64>,
    token: Seq<char>,
    before: Tables,
    response: ResponseView,
    after: Tables,
    key: (Seq<char>, Seq<char>),
)
    requires
        answered(write_view(header, guid, change), times, token, before, response, after),
        key.0 != guid,
    ensures
        after.users == before.users,
        after.tokens == before.tokens,
        after.devices == before.devices,
        after.books == before.books,
        after.peers.contains_key(key) == before.peers.contains_key(key),
        after.peers.contains_key(key) ==> after.peers[key] == before.peers[key],
        after.tags.contains_key(key) == before.tags.contains_key(key),
        after.tags.contains_key(key) ==> after.tags[key] == before.tags[key],
{
    reveal_with_fuel(answered, 5);
}

} // verus!
