//! What is stored: the rows that reports, payloads and requests turn into.

use crate::api::ab::{added_peer, has_id, or_empty, or_kept, updated_peer, PeerPayloadView};
use crate::api::device::{id_in, report_in, report_of, with_platform};
use crate::db::{
    expiry, first_report, new_book_view, new_token_view, new_user_view, AbPeerView,
    DeviceReportView, DeviceView,
};
use crate::document::{field_of, has_value, parsed_document, parsed_strings, strings_text, tags_of};
use crate::tables::{account, reported};
use vstd::prelude::*;

verus! {

// ---------------------------------------------------------------------------
// Workstations
// ---------------------------------------------------------------------------

/// The row `row` holds what `report` says, every item in the column of its own name.
pub open spec fn holds_report(row: DeviceView, report: DeviceReportView) -> bool {
    &&& row.id == report.id
    &&& row.uuid == report.uuid
    &&& row.hostname == report.hostname
    &&& row.username == report.username
    &&& row.platform == report.platform
    &&& row.os == report.os
    &&& row.version == report.version
    &&& row.cpu == report.cpu
    &&& row.memory == report.memory
}

/// A workstation that registers gets a row with what it reported, seen first and last at that
/// time; a known one takes all of the report over and keeps when it was first seen.
pub proof fn law_report_is_stored(
    devices: Map<Seq<char>, DeviceView>,
    report: DeviceReportView,
    now: i64,
)
    ensures
        holds_report(first_report(report, now), report),
        first_report(report, now).first_seen == now,
        first_report(report, now).last_seen == now,
        holds_report(reported(devices, report, now), report),
        reported(devices, report, now).last_seen == now,
        devices.contains_key(report.id) ==> reported(devices, report, now).first_seen
            == devices[report.id].first_seen,
        !devices.contains_key(report.id) ==> reported(devices, report, now).first_seen == now,
{
}

/// `value` is the member `key`, or empty where there is none.
pub open spec fn is_member(
    members: Map<Seq<char>, Seq<char>>,
    key: Seq<char>,
    value: Seq<char>,
) -> bool {
    if members.contains_key(key) {
        value == members[key]
    } else {
        value.len() == 0
    }
}

/// A registration says of a workstation what the members of these names say, and nothing where
/// there is no such member; the platform follows from the `os` member alone.
pub proof fn law_report_holds_the_members(members: Map<Seq<char>, Seq<char>>)
    ensures
        is_member(members, "id"@, report_of(members).id),
        is_member(members, "uuid"@, report_of(members).uuid),
        is_member(members, "hostname"@, report_of(members).hostname),
        is_member(members, "username"@, report_of(members).username),
        is_member(members, "os"@, report_of(members).os),
        is_member(members, "version"@, report_of(members).version),
        is_member(members, "cpu"@, report_of(members).cpu),
        is_member(members, "memory"@, report_of(members).memory),
        report_of(members).platform == crate::api::device::platform_of(report_of(members).os),
{
}

/// Any member is read under its name, and as empty text where it is missing.
pub proof fn law_field_is_the_member(members: Map<Seq<char>, Seq<char>>, key: Seq<char>)
    ensures
        is_member(members, key, field_of(members, key)),
{
}

/// The platform of a report is the only thing that is filled in.
pub proof fn law_platform_is_filled_in(report: DeviceReportView)
    ensures
        ({
            let filled = with_platform(report);
            &&& filled.id == report.id
            &&& filled.uuid == report.uuid
            &&& filled.hostname == report.hostname
            &&& filled.username == report.username
            &&& filled.os == report.os
            &&& filled.version == report.version
            &&& filled.cpu == report.cpu
            &&& filled.memory == report.memory
        }),
{
}

/// A body is read exactly if it is one JSON document, and then by its string members.
pub proof fn law_body_is_read_by_its_members(body: Seq<char>)
    ensures
        report_in(body) is Some <==> parsed_document(body) is Some,
        id_in(body) is Some <==> parsed_document(body) is Some,
        parsed_document(body) matches Some((members, _)) ==> {
            &&& report_in(body) == Some(report_of(members))
            &&& is_member(members, "id"@, id_in(body)->0)
        },
{
}

// ---------------------------------------------------------------------------
// Accounts, sessions and books
// ---------------------------------------------------------------------------

/// A new account has the name, the password hash and the email that were given; it is an
/// administrator exactly if that was asked for, it is active, and it was created now. The row
/// that stands for it holds the same under the id that it got, and no note.
pub proof fn law_new_account_row(
    id: i64,
    name: Seq<char>,
    password_hash: Seq<char>,
    email: Seq<char>,
    is_admin: bool,
    now: i64,
)
    ensures
        ({
            let row = new_user_view(name, password_hash, email, is_admin, now);
            &&& row.name == name
            &&& row.password_hash == password_hash
            &&& row.email == email
            &&& row.is_admin != 0 <==> is_admin
            &&& row.is_admin == 0 || row.is_admin == 1
            &&& row.status == 1
            &&& row.created_at == now
            &&& account(id, row).id == id
            &&& account(id, row).name == name
            &&& account(id, row).password_hash == password_hash
            &&& account(id, row).email == email
            &&& account(id, row).note.len() == 0
            &&& account(id, row).is_admin == row.is_admin
            &&& account(id, row).status != 0
            &&& account(id, row).created_at == now
        }),
{
}

/// A new session belongs to the account and to the machine that logged in, was created now, and
/// runs out after its time, as long as that can be counted.
pub proof fn law_new_session_row(
    token: Seq<char>,
    user_id: i64,
    device_id: Seq<char>,
    device_uuid: Seq<char>,
    ttl: u64,
    now: i64,
)
    ensures
        ({
            let row = new_token_view(token, user_id, device_id, device_uuid, ttl, now);
            &&& row.token == token
            &&& row.user_id == user_id
            &&& row.device_id == device_id
            &&& row.device_uuid == device_uuid
            &&& row.created_at == now
            &&& ttl <= i64::MAX && now + ttl <= i64::MAX ==> row.expires_at == now + ttl
            &&& row.expires_at == expiry(now, ttl)
        }),
{
}

/// A new book has the guid that was drawn and belongs to its owner.
pub proof fn law_new_book_row(owner_id: i64, guid: Seq<char>, now: i64)
    ensures
        new_book_view(owner_id, guid, now).guid == guid,
        new_book_view(owner_id, guid, now).owner_id == owner_id,
        new_book_view(owner_id, guid, now).name == "My address book"@,
        new_book_view(owner_id, guid, now).created_at == now,
{
}

// ---------------------------------------------------------------------------
// Peers
// ---------------------------------------------------------------------------

/// `stored` is what was sent, or `otherwise` where nothing was.
pub open spec fn is_sent_or(
    stored: Seq<char>,
    sent: Option<Seq<char>>,
    otherwise: Seq<char>,
) -> bool {
    &&& forall|value: Seq<char>| sent == Some(value) ==> stored == value
    &&& sent is None ==> stored == otherwise
}

/// What was sent counts, and what was not sent stays as it is, or empty where nothing is there.
pub proof fn law_sent_values_count(sent: Option<Seq<char>>, kept: Seq<char>)
    ensures
        is_sent_or(or_kept(sent, kept), sent, kept),
        is_sent_or(or_empty(sent), sent, Seq::empty()),
{
}

/// A payload names a peer exactly if it carries an id that is not empty.
pub proof fn law_peer_is_named_by_its_id(payload: PeerPayloadView)
    ensures
        has_id(payload) <==> payload.id is Some && payload.id != Some(Seq::<char>::empty()),
{
    if payload.id is Some && payload.id->0.len() == 0 {
        assert(payload.id->0 =~= Seq::empty());
    }
}

/// A peer that is added has every value that was sent in the column of its own name; what was
/// not sent is empty. Its tag list is the text of the tags that were sent.
pub proof fn law_added_peer_holds_what_was_sent(payload: PeerPayloadView)
    ensures
        ({
            let peer = added_peer(payload);
            &&& is_sent_or(peer.id, payload.id, Seq::empty())
            &&& is_sent_or(peer.alias, payload.alias, Seq::empty())
            &&& is_sent_or(peer.hash, payload.hash, Seq::empty())
            &&& is_sent_or(peer.password, payload.password, Seq::empty())
            &&& is_sent_or(peer.note, payload.note, Seq::empty())
            &&& is_sent_or(peer.username, payload.username, Seq::empty())
            &&& is_sent_or(peer.hostname, payload.hostname, Seq::empty())
            &&& is_sent_or(peer.platform, payload.platform, Seq::empty())
            &&& payload.tags matches Some(tags) ==> peer.tags == strings_text(tags)
            &&& payload.tags is None ==> peer.tags == strings_text(Seq::empty())
        }),
{
}

/// A peer that is updated has every value that was sent in the column of its own name and keeps
/// the others. Its tag list is the text of the tags that were sent, or stays.
pub proof fn law_updated_peer_holds_what_was_sent(existing: AbPeerView, payload: PeerPayloadView)
    ensures
        ({
            let peer = updated_peer(existing, payload);
            &&& is_sent_or(peer.id, payload.id, Seq::empty())
            &&& is_sent_or(peer.alias, payload.alias, existing.alias)
            &&& is_sent_or(peer.hash, payload.hash, existing.hash)
            &&& is_sent_or(peer.password, payload.password, existing.password)
            &&& is_sent_or(peer.note, payload.note, existing.note)
            &&& is_sent_or(peer.username, payload.username, existing.username)
            &&& is_sent_or(peer.hostname, payload.hostname, existing.hostname)
            &&& is_sent_or(peer.platform, payload.platform, existing.platform)
            &&& payload.tags matches Some(tags) ==> peer.tags == strings_text(tags)
            &&& payload.tags is None ==> peer.tags == existing.tags
        }),
{
}

/// Adding a peer anew with everything that was sent before, or updating it with that, makes no
/// difference: an update that sends everything is an addition.
pub proof fn law_full_update_is_an_addition(existing: AbPeerView, payload: PeerPayloadView)
    requires
        payload.alias is Some,
        payload.tags is Some,
        payload.hash is Some,
        payload.password is Some,
        payload.note is Some,
        payload.username is Some,
        payload.hostname is Some,
        payload.platform is Some,
    ensures
        updated_peer(existing, payload) == added_peer(payload),
{
}

// ---------------------------------------------------------------------------
// Stored documents
// ---------------------------------------------------------------------------

/// A stored tag list reads as the strings of the array that it is, and as no tags where it is
/// no array of strings; it has a value exactly if it is a document other than `null`.
pub proof fn law_stored_list_reads_as_its_strings(text: Seq<char>)
    ensures
        parsed_strings(text) matches Some(strings) ==> tags_of(text) == strings,
        parsed_strings(text) is None ==> tags_of(text).len() == 0,
        has_value(text) <==> (parsed_document(text) matches Some((_, null)) && !null),
{
}

} // verus!
