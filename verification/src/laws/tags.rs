//! Renaming and deleting tags.

use crate::api::ab::{ok_empty_view, write_view, ChangeView, TagRenamePayloadView};
use crate::api::ResponseView;
use crate::db::{
    deduped, delete_updates, holds_any, rename_updates, renamed, renamed_text, replaced,
    stripped_text, without, AbPeerView,
};
use crate::document::{strings_text, tags_of};
use crate::laws::books::holds;
use crate::tables::{answered, retagged, tag_renamed, Tables};
use vstd::prelude::*;

verus! {

// ---------------------------------------------------------------------------
// Tag lists
// ---------------------------------------------------------------------------

/// Dropping repetitions loses no tag.
proof fn lemma_deduped_keeps_tags(s: Seq<Seq<char>>)
    ensures
        forall|t: Seq<char>| #[trigger] deduped(s).contains(t) <==> s.contains(t),
        s.len() > 0 ==> deduped(s).len() > 0 && deduped(s).last() == s.last(),
    decreases s.len(),
{
    if s.len() >= 2 {
        let rest = s.drop_last();
        lemma_deduped_keeps_tags(rest);
        assert forall|t: Seq<char>| #[trigger] deduped(s).contains(t) <==> s.contains(t) by {
            assert(s =~= rest.push(s.last()));
            if s.contains(t) {
                let i = choose|i: int| 0 <= i < s.len() && s[i] == t;
                if i < rest.len() {
                    assert(rest[i] == t);
                    assert(rest.contains(t));
                    assert(deduped(rest).contains(t));
                    let j = choose|j: int| 0 <= j < deduped(rest).len() && deduped(rest)[j] == t;
                    assert(deduped(s)[j] == t);
                } else {
                    assert(rest.last() == s[s.len() - 2]);
                    assert(deduped(s)[deduped(s).len() - 1] == t);
                }
            }
            if deduped(s).contains(t) {
                let j = choose|j: int| 0 <= j < deduped(s).len() && deduped(s)[j] == t;
                if j < deduped(rest).len() {
                    assert(deduped(rest)[j] == t);
                    assert(deduped(rest).contains(t));
                    let i = choose|i: int| 0 <= i < rest.len() && rest[i] == t;
                    assert(s[i] == t);
                } else {
                    assert(s[s.len() - 1] == t);
                }
            }
        }
        assert(rest.last() == s[s.len() - 2]);
    }
}

/// After a rename a tag list holds the new name in place of the old one, and otherwise the
/// same tags.
pub proof fn law_rename_replaces_the_tag(
    tags: Seq<Seq<char>>,
    old: Seq<char>,
    new: Seq<char>,
    tag: Seq<char>,
)
    ensures
        old != new ==> !renamed(tags, old, new).contains(old),
        renamed(tags, old, new).contains(new) <==> tags.contains(old) || tags.contains(new),
        tag != old && tag != new ==> (renamed(tags, old, new).contains(tag) <==> tags.contains(tag)),
{
    let mapped = replaced(tags, old, new);
    lemma_deduped_keeps_tags(mapped);
    assert forall|t: Seq<char>| #[trigger] mapped.contains(t) implies exists|i: int|
        0 <= i < tags.len() && (#[trigger] tags[i] == t || (tags[i] == old && t == new)) by {
        let i = choose|i: int| 0 <= i < mapped.len() && mapped[i] == t;
        assert(tags[i] == t || (tags[i] == old && t == new));
    }
    if tags.contains(old) {
        let i = choose|i: int| 0 <= i < tags.len() && tags[i] == old;
        assert(mapped[i] == new);
    }
    if tags.contains(new) {
        let i = choose|i: int| 0 <= i < tags.len() && tags[i] == new;
        assert(mapped[i] == new);
    }
    if tags.contains(tag) && tag != old {
        let i = choose|i: int| 0 <= i < tags.len() && tags[i] == tag;
        assert(mapped[i] == tag);
    }
    if old != new && mapped.contains(old) {
        let i = choose|i: int| 0 <= i < mapped.len() && mapped[i] == old;
        assert(tags[i] != old);
    }
}

/// Renaming a tag to a name that stands beside it leaves no repetition there: of the tags of a
/// renamed list no two that stand side by side are the same.
pub proof fn law_rename_leaves_no_neighbours_alike(
    tags: Seq<Seq<char>>,
    old: Seq<char>,
    new: Seq<char>,
    i: int,
)
    requires
        0 < i < renamed(tags, old, new).len(),
    ensures
        renamed(tags, old, new)[i - 1] != renamed(tags, old, new)[i],
{
    lemma_deduped_neighbours(replaced(tags, old, new), i);
}

proof fn lemma_deduped_neighbours(s: Seq<Seq<char>>, i: int)
    requires
        0 < i < deduped(s).len(),
    ensures
        deduped(s)[i - 1] != deduped(s)[i],
    decreases s.len(),
{
    if s.len() >= 2 {
        let rest = s.drop_last();
        lemma_deduped_keeps_tags(rest);
        assert(rest.last() == s[s.len() - 2]);
        if i < deduped(rest).len() {
            lemma_deduped_neighbours(rest, i);
        }
    }
}

/// After tags are deleted a tag list holds none of them, and all the others.
pub proof fn law_delete_strips_the_tags(
    tags: Seq<Seq<char>>,
    names: Seq<Seq<char>>,
    tag: Seq<char>,
)
    ensures
        without(tags, names).contains(tag) <==> tags.contains(tag) && !names.contains(tag),
{
    let keep = |t: Seq<char>| !names.contains(t);
    broadcast use vstd::seq_lib::group_filter_ensures;

    if without(tags, names).contains(tag) {
        let i = choose|i: int| 0 <= i < tags.filter(keep).len() && tags.filter(keep)[i] == tag;
        assert(keep(tags.filter(keep)[i]));
        tags.lemma_filter_contains_rev(keep, tag);
    }
    if tags.contains(tag) && !names.contains(tag) {
        let i = choose|i: int| 0 <= i < tags.len() && tags[i] == tag;
        tags.lemma_filter_contains(keep, i);
    }
}

/// Deleting tags from a list is deleting them from its parts, and of a single tag nothing is
/// left exactly if it is among the deleted: so the other tags stay, as often as they stood
/// there and in their order.
pub proof fn law_deletion_goes_part_by_part(
    a: Seq<Seq<char>>,
    b: Seq<Seq<char>>,
    tag: Seq<char>,
    names: Seq<Seq<char>>,
)
    ensures
        without(a + b, names) == without(a, names) + without(b, names),
        without(seq![tag], names) == if names.contains(tag) {
            Seq::<Seq<char>>::empty()
        } else {
            seq![tag]
        },
        without(Seq::empty(), names) == Seq::<Seq<char>>::empty(),
{
    let keep = |t: Seq<char>| !names.contains(t);
    Seq::filter_distributes_over_add(a, b, keep);
    reveal_with_fuel(Seq::filter, 3);
    assert(seq![tag].drop_last() =~= Seq::empty());
}

/// A list gets shorter by a deletion exactly if it holds one of the deleted tags, and stays the
/// same otherwise.
pub proof fn law_deletion_shortens(tags: Seq<Seq<char>>, names: Seq<Seq<char>>)
    ensures
        without(tags, names).len() <= tags.len(),
        without(tags, names).len() < tags.len() <==> exists|name: Seq<char>| #[trigger]
            tags.contains(name) && names.contains(name),
        without(tags, names).len() == tags.len() ==> without(tags, names) == tags,
    decreases tags.len(),
{
    reveal(Seq::filter);
    let keep = |t: Seq<char>| !names.contains(t);
    if tags.len() > 0 {
        let rest = tags.drop_last();
        law_deletion_shortens(rest, names);
        assert(tags =~= rest.push(tags.last()));
        if exists|name: Seq<char>| #[trigger] tags.contains(name) && names.contains(name) {
            let name = choose|name: Seq<char>| #[trigger]
                tags.contains(name) && names.contains(name);
            let i = choose|i: int| 0 <= i < tags.len() && tags[i] == name;
            if i < rest.len() {
                assert(rest[i] == name);
                assert(rest.contains(name));
            }
        }
        if exists|name: Seq<char>| #[trigger] rest.contains(name) && names.contains(name) {
            let name = choose|name: Seq<char>| #[trigger]
                rest.contains(name) && names.contains(name);
            let i = choose|i: int| 0 <= i < rest.len() && rest[i] == name;
            assert(tags[i] == name);
            assert(tags.contains(name));
        }
        if names.contains(tags.last()) {
            assert(tags[tags.len() - 1] == tags.last());
            assert(tags.contains(tags.last()));
        }
    } else {
        assert forall|name: Seq<char>| !#[trigger] tags.contains(name) by {}
    }
}

/// Where a rename makes no two neighbours alike, every tag stays in its place, the renamed one
/// under its new name.
pub proof fn law_rename_keeps_places(
    tags: Seq<Seq<char>>,
    old: Seq<char>,
    new: Seq<char>,
)
    requires
        forall|i: int|
            0 < i < tags.len() ==> (if #[trigger] tags[i] == old {
                new
            } else {
                tags[i]
            }) != (if tags[i - 1] == old {
                new
            } else {
                tags[i - 1]
            }),
    ensures
        renamed(tags, old, new).len() == tags.len(),
        forall|i: int|
            0 <= i < tags.len() ==> #[trigger] renamed(tags, old, new)[i] == if tags[i] == old {
                new
            } else {
                tags[i]
            },
    decreases tags.len(),
{
    let mapped = replaced(tags, old, new);
    if tags.len() >= 2 {
        let rest = tags.drop_last();
        assert forall|i: int| 0 < i < rest.len() implies (if #[trigger] rest[i] == old {
            new
        } else {
            rest[i]
        }) != (if rest[i - 1] == old {
            new
        } else {
            rest[i - 1]
        }) by {
            assert(tags[i] == rest[i]);
        }
        law_rename_keeps_places(rest, old, new);
        assert(mapped.drop_last() =~= replaced(rest, old, new));
        assert(tags[tags.len() - 1] == tags.last());
        assert(mapped[mapped.len() - 2] != mapped.last());
        assert(renamed(tags, old, new) =~= renamed(rest, old, new).push(mapped.last()));
    }
}

/// Of two neighbours that a rename makes alike one is dropped, whatever stands around them.
pub proof fn law_rename_drops_a_repetition(
    a: Seq<Seq<char>>,
    one: Seq<char>,
    other: Seq<char>,
    b: Seq<Seq<char>>,
    old: Seq<char>,
    new: Seq<char>,
)
    requires
        (if one == old {
            new
        } else {
            one
        }) == (if other == old {
            new
        } else {
            other
        }),
    ensures
        renamed(a.push(one).push(other) + b, old, new) == renamed(a.push(one) + b, old, new),
    decreases b.len(),
{
    let x = a.push(one).push(other) + b;
    let y = a.push(one) + b;
    let mx = replaced(x, old, new);
    let my = replaced(y, old, new);
    if b.len() == 0 {
        assert(x.drop_last() =~= y);
        assert(mx.drop_last() =~= my);
        assert(mx[mx.len() - 2] == mx.last());
    } else {
        let c = b.drop_last();
        law_rename_drops_a_repetition(a, one, other, c, old, new);
        assert(mx.drop_last() =~= replaced(a.push(one).push(other) + c, old, new));
        assert(my.drop_last() =~= replaced(a.push(one) + c, old, new));
        assert(mx.last() == my.last());
        if my.len() >= 2 {
            assert(mx[mx.len() - 2] == my[my.len() - 2]);
        }
    }
}

/// Deleting tags changes how every stored list reads, whether it is written anew or left alone:
/// it reads as its tags without the deleted ones. Where the list is written anew this takes
/// that the text reads back as it was written, as `write_tags` ensures.
pub proof fn law_deletion_reaches_the_stored_list(text: Seq<char>, names: Seq<Seq<char>>)
    requires
        tags_of(strings_text(without(tags_of(text), names))) == without(tags_of(text), names),
    ensures
        tags_of(stripped_text(text, names)) == without(tags_of(text), names),
        !holds_any(stripped_text(text, names), names),
        !holds_any(text, names) ==> stripped_text(text, names) == text,
{
    law_deletion_shortens(tags_of(text), names);
    assert forall|name: Seq<char>|
        !(#[trigger] tags_of(stripped_text(text, names)).contains(name) && names.contains(name)) by {
        law_delete_strips_the_tags(tags_of(text), names, name);
    }
}

/// Renaming a tag changes how every stored list reads, whether it is written anew or left
/// alone: the old name is gone, the new one is there exactly if one of the two was, and every
/// other tag is there exactly if it was. Where the list is written anew this takes that the
/// text reads back as it was written, as `write_tags` ensures.
pub proof fn law_rename_reaches_the_stored_list(
    text: Seq<char>,
    old: Seq<char>,
    new: Seq<char>,
    tag: Seq<char>,
)
    requires
        tags_of(strings_text(renamed(tags_of(text), old, new))) == renamed(
            tags_of(text),
            old,
            new,
        ),
    ensures
        tags_of(text).contains(old) ==> tags_of(renamed_text(text, old, new)) == renamed(
            tags_of(text),
            old,
            new,
        ),
        !tags_of(text).contains(old) ==> renamed_text(text, old, new) == text,
        old != new ==> !tags_of(renamed_text(text, old, new)).contains(old),
        tags_of(renamed_text(text, old, new)).contains(new) <==> tags_of(text).contains(old)
            || tags_of(text).contains(new),
        tag != old && tag != new ==> (tags_of(renamed_text(text, old, new)).contains(tag)
            <==> tags_of(text).contains(tag)),
{
    law_rename_replaces_the_tag(tags_of(text), old, new, tag);
}

// ---------------------------------------------------------------------------
// Peers
// ---------------------------------------------------------------------------

/// `rows` are the ids of the peers of the book `guid` with their stored tag lists, each peer
/// once.
pub open spec fn are_rows(
    rows: Seq<(Seq<char>, Seq<char>)>,
    peers: Map<(Seq<char>, Seq<char>), AbPeerView>,
    guid: Seq<char>,
) -> bool {
    &&& forall|i: int|
        0 <= i < rows.len() ==> peers.contains_key((guid, (#[trigger] rows[i]).0)) && peers[(
            guid,
            rows[i].0,
        )].tags == rows[i].1
    &&& forall|i: int, j: int|
        0 <= i < j < rows.len() ==> (#[trigger] rows[i]).0 != (#[trigger] rows[j]).0
    &&& forall|id: Seq<char>| #[trigger]
        peers.contains_key((guid, id)) ==> exists|i: int|
            0 <= i < rows.len() && (#[trigger] rows[i]).0 == id
}

/// The peers after the tag lists of `updates` were written back.
pub open spec fn written_back(
    peers: Map<(Seq<char>, Seq<char>), AbPeerView>,
    guid: Seq<char>,
    updates: Seq<(Seq<char>, Seq<char>)>,
) -> Map<(Seq<char>, Seq<char>), AbPeerView>
    decreases updates.len(),
{
    if updates.len() == 0 {
        peers
    } else {
        let before = written_back(peers, guid, updates.drop_last());
        let (id, tags) = updates.last();
        before.insert((guid, id), AbPeerView { tags, ..before[(guid, id)] })
    }
}

/// The peers of the book `guid` that are among `rows` have got their tag lists rewritten, and
/// the others are as before.
spec fn partly_retagged(
    peers: Map<(Seq<char>, Seq<char>), AbPeerView>,
    guid: Seq<char>,
    rows: Seq<(Seq<char>, Seq<char>)>,
    rewrite: spec_fn(Seq<char>) -> Seq<char>,
) -> Map<(Seq<char>, Seq<char>), AbPeerView> {
    peers.map_entries(
        |key: (Seq<char>, Seq<char>), peer: AbPeerView|
            if key.0 == guid && exists|i: int|
                0 <= i < rows.len() && (#[trigger] rows[i]).0 == key.1 {
                AbPeerView { tags: rewrite(peer.tags), ..peer }
            } else {
                peer
            },
    )
}

/// One more row, rewritten or left alone because nothing changes.
proof fn lemma_one_more_row(
    peers: Map<(Seq<char>, Seq<char>), AbPeerView>,
    guid: Seq<char>,
    rows: Seq<(Seq<char>, Seq<char>)>,
    rewrite: spec_fn(Seq<char>) -> Seq<char>,
    n: int,
)
    requires
        are_rows(rows, peers, guid),
        0 <= n < rows.len(),
    ensures
        ({
            let before = partly_retagged(peers, guid, rows.take(n), rewrite);
            let (id, text) = rows[n];
            let key = (guid, id);
            let after = partly_retagged(peers, guid, rows.take(n + 1), rewrite);
            &&& before[key] == peers[key]
            &&& peers[key].tags == text
            &&& after == before.insert(key, AbPeerView { tags: rewrite(text), ..before[key] })
            &&& rewrite(text) == text ==> after == before
        }),
{
    let (id, text) = rows[n];
    let key = (guid, id);
    let before = partly_retagged(peers, guid, rows.take(n), rewrite);
    let after = partly_retagged(peers, guid, rows.take(n + 1), rewrite);
    assert(peers.contains_key((guid, rows[n].0)));
    assert forall|i: int| 0 <= i < n implies (#[trigger] rows.take(n)[i]).0 != id by {
        assert(rows[i].0 != rows[n].0);
    }
    assert(before[key] == peers[key]);
    assert forall|k: (Seq<char>, Seq<char>)| k.0 == guid && k != key implies ((exists|i: int|
        0 <= i < rows.take(n).len() && (#[trigger] rows.take(n)[i]).0 == k.1) <==> (exists|i: int|
        0 <= i < rows.take(n + 1).len() && (#[trigger] rows.take(n + 1)[i]).0 == k.1)) by {
        if exists|i: int| 0 <= i < rows.take(n).len() && (#[trigger] rows.take(n)[i]).0 == k.1 {
            let i = choose|i: int|
                0 <= i < rows.take(n).len() && (#[trigger] rows.take(n)[i]).0 == k.1;
            assert(rows.take(n + 1)[i].0 == k.1);
        }
        if exists|i: int|
            0 <= i < rows.take(n + 1).len() && (#[trigger] rows.take(n + 1)[i]).0 == k.1 {
            let i = choose|i: int|
                0 <= i < rows.take(n + 1).len() && (#[trigger] rows.take(n + 1)[i]).0 == k.1;
            assert(i < n);
            assert(rows.take(n)[i].0 == k.1);
        }
    }
    assert(rows.take(n + 1)[n].0 == id);
    assert(after =~= before.insert(key, AbPeerView { tags: rewrite(text), ..before[key] }));
    if rewrite(text) == text {
        assert(AbPeerView { tags: rewrite(text), ..before[key] } == before[key]);
        assert(after =~= before);
    }
}

proof fn lemma_rename_rows(
    peers: Map<(Seq<char>, Seq<char>), AbPeerView>,
    guid: Seq<char>,
    rows: Seq<(Seq<char>, Seq<char>)>,
    old: Seq<char>,
    new: Seq<char>,
    n: int,
)
    requires
        are_rows(rows, peers, guid),
        0 <= n <= rows.len(),
    ensures
        written_back(peers, guid, rename_updates(rows.take(n), old, new)) == partly_retagged(
            peers,
            guid,
            rows.take(n),
            |text: Seq<char>| renamed_text(text, old, new),
        ),
    decreases n,
{
    let rewrite = |text: Seq<char>| renamed_text(text, old, new);
    if n > 0 {
        lemma_rename_rows(peers, guid, rows, old, new, n - 1);
        lemma_one_more_row(peers, guid, rows, rewrite, n - 1);
        assert(rows.take(n).drop_last() =~= rows.take(n - 1));
        let before = rename_updates(rows.take(n - 1), old, new);
        let (id, text) = rows[n - 1];
        if tags_of(text).contains(old) {
            let updates = before.push((id, renamed_text(text, old, new)));
            assert(updates.drop_last() =~= before);
        }
    } else {
        assert(partly_retagged(peers, guid, rows.take(0), rewrite) =~= peers);
    }
}

proof fn lemma_delete_rows(
    peers: Map<(Seq<char>, Seq<char>), AbPeerView>,
    guid: Seq<char>,
    rows: Seq<(Seq<char>, Seq<char>)>,
    names: Seq<Seq<char>>,
    n: int,
)
    requires
        are_rows(rows, peers, guid),
        0 <= n <= rows.len(),
    ensures
        written_back(peers, guid, delete_updates(rows.take(n), names)) == partly_retagged(
            peers,
            guid,
            rows.take(n),
            |text: Seq<char>| stripped_text(text, names),
        ),
    decreases n,
{
    let rewrite = |text: Seq<char>| stripped_text(text, names);
    if n > 0 {
        lemma_delete_rows(peers, guid, rows, names, n - 1);
        lemma_one_more_row(peers, guid, rows, rewrite, n - 1);
        assert(rows.take(n).drop_last() =~= rows.take(n - 1));
        let before = delete_updates(rows.take(n - 1), names);
        let (id, text) = rows[n - 1];
        if without(tags_of(text), names).len() != tags_of(text).len() {
            let updates = before.push((id, stripped_text(text, names)));
            assert(updates.drop_last() =~= before);
        }
    } else {
        assert(partly_retagged(peers, guid, rows.take(0), rewrite) =~= peers);
    }
}

/// All rows together are the whole book.
proof fn lemma_all_rows(
    peers: Map<(Seq<char>, Seq<char>), AbPeerView>,
    guid: Seq<char>,
    rows: Seq<(Seq<char>, Seq<char>)>,
    rewrite: spec_fn(Seq<char>) -> Seq<char>,
)
    requires
        are_rows(rows, peers, guid),
    ensures
        partly_retagged(peers, guid, rows, rewrite) == retagged(peers, guid, rewrite),
{
    assert forall|key: (Seq<char>, Seq<char>)| #[trigger]
        peers.contains_key(key) && key.0 == guid implies exists|i: int|
        0 <= i < rows.len() && (#[trigger] rows[i]).0 == key.1 by {
        assert(peers.contains_key((guid, key.1)));
    }
    assert(partly_retagged(peers, guid, rows, rewrite) =~= retagged(peers, guid, rewrite));
}

/// Writing back the rows that a rename yields rewrites the tag list of every peer of the book
/// and touches no other peer.
pub proof fn law_rename_rewrites_every_peer(
    peers: Map<(Seq<char>, Seq<char>), AbPeerView>,
    guid: Seq<char>,
    rows: Seq<(Seq<char>, Seq<char>)>,
    old: Seq<char>,
    new: Seq<char>,
)
    requires
        are_rows(rows, peers, guid),
    ensures
        written_back(peers, guid, rename_updates(rows, old, new)) == retagged(
            peers,
            guid,
            |text: Seq<char>| renamed_text(text, old, new),
        ),
{
    assert(rows.take(rows.len() as int) =~= rows);
    lemma_rename_rows(peers, guid, rows, old, new, rows.len() as int);
    lemma_all_rows(peers, guid, rows, |text: Seq<char>| renamed_text(text, old, new));
}

/// Writing back the rows that a deletion of tags yields strips the tag list of every peer of
/// the book and touches no other peer.
pub proof fn law_delete_strips_every_peer(
    peers: Map<(Seq<char>, Seq<char>), AbPeerView>,
    guid: Seq<char>,
    rows: Seq<(Seq<char>, Seq<char>)>,
    names: Seq<Seq<char>>,
)
    requires
        are_rows(rows, peers, guid),
    ensures
        written_back(peers, guid, delete_updates(rows, names)) == retagged(
            peers,
            guid,
            |text: Seq<char>| stripped_text(text, names),
        ),
{
    assert(rows.take(rows.len() as int) =~= rows);
    lemma_delete_rows(peers, guid, rows, names, rows.len() as int);
    lemma_all_rows(peers, guid, rows, |text: Seq<char>| stripped_text(text, names));
}

// ---------------------------------------------------------------------------
// Requests
// ---------------------------------------------------------------------------

/// A user who renames a tag of their book renames it in the book's tags and in the tag list
/// of every peer of the book; nothing else changes. How a list reads that was written anew is
/// stated where the text of its tags reads back, as `write_tags` ensures.
pub proof fn law_tag_rename_reaches_every_peer(
    header: Option<Seq<char>>,
    guid: Seq<char>,
    payload: TagRenamePayloadView,
    times: Seq<i64>,
    token: Seq<char>,
    before: Tables,
    response: ResponseView,
    after: Tables,
    id: Seq<char>,
)
    requires
        before.valid(),
        answered(
            write_view(header, guid, ChangeView::TagRename(payload)),
            times,
            token,
            before,
            response,
            after,
        ),
        times.len() > 0,
        holds(before, header, times[0], guid),
        payload.old.len() > 0,
        payload.new.len() > 0,
    ensures
        response == ok_empty_view(),
        after.tags == tag_renamed(before.tags, guid, payload.old, payload.new),
        payload.old != payload.new ==> !after.tags.contains_key((guid, payload.old)),
        before.tags.contains_key((guid, payload.old)) ==> after.tags.contains_key(
            (guid, payload.new),
        ) && after.tags[(guid, payload.new)] == before.tags[(guid, payload.old)],
        after.peers.contains_key((guid, id)) == before.peers.contains_key((guid, id)),
        after.peers.contains_key((guid, id)) ==> after.peers[(guid, id)] == (AbPeerView {
            tags: renamed_text(before.peers[(guid, id)].tags, payload.old, payload.new),
            ..before.peers[(guid, id)]
        }),
        after.peers.contains_key((guid, id)) ==> ({
            let was = tags_of(before.peers[(guid, id)].tags);
            let new = renamed(was, payload.old, payload.new);
            &&& !was.contains(payload.old) ==> after.peers[(guid, id)] == before.peers[(guid, id)]
            &&& was.contains(payload.old) && tags_of(strings_text(new)) == new ==> tags_of(
                after.peers[(guid, id)].tags,
            ) == new
        }),
        after == (Tables { tags: after.tags, peers: after.peers, ..before }),
{
    crate::laws::books::lemma_change_starts(
        header,
        guid,
        ChangeView::TagRename(payload),
        times,
        token,
        before,
        response,
        after,
    );
    reveal_with_fuel(answered, 3);
}

/// A user who deletes tags of their book deletes exactly those, from the book's tags and from
/// the tag list of every peer of the book, which then reads as its other tags, in their order;
/// nothing else changes. How a list reads that was written anew is stated where the text of its
/// tags reads back, as `write_tags` ensures.
pub proof fn law_tag_deletion_reaches_every_peer(
    header: Option<Seq<char>>,
    guid: Seq<char>,
    names: Seq<Seq<char>>,
    times: Seq<i64>,
    token: Seq<char>,
    before: Tables,
    response: ResponseView,
    after: Tables,
    id: Seq<char>,
)
    requires
        before.valid(),
        answered(
            write_view(header, guid, ChangeView::TagDelete(names)),
            times,
            token,
            before,
            response,
            after,
        ),
        times.len() > 0,
        holds(before, header, times[0], guid),
    ensures
        response == ok_empty_view(),
        after.tags.contains_key((guid, id)) <==> before.tags.contains_key((guid, id))
            && !names.contains(id),
        after.tags.contains_key((guid, id)) ==> after.tags[(guid, id)] == before.tags[(guid, id)],
        after.peers.contains_key((guid, id)) == before.peers.contains_key((guid, id)),
        after.peers.contains_key((guid, id)) ==> after.peers[(guid, id)] == (AbPeerView {
            tags: stripped_text(before.peers[(guid, id)].tags, names),
            ..before.peers[(guid, id)]
        }),
        after.peers.contains_key((guid, id)) ==> ({
            let kept = without(tags_of(before.peers[(guid, id)].tags), names);
            tags_of(strings_text(kept)) == kept ==> tags_of(after.peers[(guid, id)].tags) == kept
                && !holds_any(after.peers[(guid, id)].tags, names)
        }),
        after == (Tables { tags: after.tags, peers: after.peers, ..before }),
{
    crate::laws::books::lemma_change_starts(
        header,
        guid,
        ChangeView::TagDelete(names),
        times,
        token,
        before,
        response,
        after,
    );
    reveal_with_fuel(answered, 3);
    let text = before.peers[(guid, id)].tags;
    let kept = without(tags_of(text), names);
    if tags_of(strings_text(kept)) == kept {
        law_deletion_reaches_the_stored_list(text, names);
    }
}

} // verus!
