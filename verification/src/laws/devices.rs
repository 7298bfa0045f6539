//! Workstations register themselves, and everyone sees them.

use crate::api::ab::{
    device_peer_view, device_peers, is_paged, paged, PageQueryView, SHARED_GUID, SHARED_NAME,
};
use crate::api::device::{beat_view, platform_of, register_view};
use crate::api::group::{device_view, device_views, group_view, icon_of, os_of};
use crate::api::misc::health_step;
use crate::api::{
    json_view, next, plain_view, require_user_view, ActionView, PendingView, ResponseView,
};
use crate::db::{cutoff, DeviceReportView, DeviceView};
use crate::json::{no_members, page_view, JsonView};
use crate::laws::listings::law_device_listing_is_unique;
use crate::laws::rows::holds_report;
use crate::query::{QueryView, ReplyView};
use crate::tables::{answered, device_leq, is_listing, reported, served, Tables};
use vstd::prelude::*;

verus! {

/// `list` holds the workstations that are listed at `now`, in their order.
pub open spec fn lists_devices(
    t: Tables,
    list: Seq<DeviceView>,
    stale_days: i64,
    now: i64,
) -> bool {
    is_listing(
        list,
        |d: DeviceView| t.lists_device(d, stale_days, now),
        |a: DeviceView, b: DeviceView| device_leq(a, b),
    )
}

/// The query asks for the shared book.
pub open spec fn asks_shared(page: PageQueryView) -> bool {
    page.ab == Some(SHARED_GUID@)
}

/// The shared book, read by any user who is logged in, is the list of the registered
/// workstations, no more and no less, and reading it changes nothing.
pub proof fn law_shared_book_is_the_device_list(
    header: Option<Seq<char>>,
    page: PageQueryView,
    stale_days: i64,
    times: Seq<i64>,
    token: Seq<char>,
    before: Tables,
    response: ResponseView,
    after: Tables,
) -> (list: Seq<DeviceView>)
    requires
        answered(
            require_user_view(header, ActionView::Peers { page, stale_days }),
            times,
            token,
            before,
            response,
            after,
        ),
        asks_shared(page),
        times.len() > 0,
        before.active_user(header, times[0]) is Some,
    ensures
        times.len() == 2,
        lists_devices(before, list, stale_days, times[1]),
        response == json_view(paged(device_peers(list), page)),
        after == before,
{
    reveal_with_fuel(answered, 4);
    reveal_strlit("all-workstations");
    let user = before.active_user(header, times[0])->0;
    let found = next(
        PendingView::Session { action: ActionView::Peers { page, stale_days } },
        ReplyView::User(Some(user)),
        token,
    );
    let rest = times.drop_first();
    assert(answered(found, rest, token, before, response, after));
    let (reply, between) = choose|reply: ReplyView, between: Tables| #[trigger]
        served(before, QueryView::ListDevices { stale_days }, rest[0], reply, between) && answered(
            next(PendingView::SharedPeers { page }, reply, token),
            rest.drop_first(),
            token,
            between,
            response,
            after,
        );
    reply->Devices_0
}

/// A workstation that registers is in the address book of every user who is logged in, with
/// what it reported, unless it has not been seen for longer than stale workstations are kept.
/// `data` is the whole book, of which the response holds the page that was asked for.
pub proof fn law_registered_device_is_in_every_address_book(
    unregistered: Tables,
    report: DeviceReportView,
    registered_at: i64,
    before: Tables,
    header: Option<Seq<char>>,
    page: PageQueryView,
    stale_days: i64,
    times: Seq<i64>,
    token: Seq<char>,
    response: ResponseView,
    after: Tables,
) -> (data: Seq<JsonView>)
    requires
        served(
            unregistered,
            QueryView::UpsertDevice { report },
            registered_at,
            ReplyView::Done,
            before,
        ),
        answered(
            require_user_view(header, ActionView::Peers { page, stale_days }),
            times,
            token,
            before,
            response,
            after,
        ),
        asks_shared(page),
        times.len() > 0,
        before.active_user(header, times[0]) is Some,
        times.len() > 1 ==> (cutoff(stale_days, times[1]) matches Some(oldest) ==> oldest
            <= registered_at),
    ensures
        response == json_view(paged(data, page)),
        !is_paged(page) ==> response == json_view(page_view(data.len() as int, data)),
        data.contains(device_peer_view(reported(unregistered.devices, report, registered_at))),
        holds_report(reported(unregistered.devices, report, registered_at), report),
{
    let list = law_shared_book_is_the_device_list(
        header,
        page,
        stale_days,
        times,
        token,
        before,
        response,
        after,
    );
    let row = reported(unregistered.devices, report, registered_at);
    assert(before.lists_device(row, stale_days, times[1]));
    assert(list.contains(row));
    let i = choose|i: int| 0 <= i < list.len() && list[i] == row;
    let data = device_peers(list);
    assert(data[i] == device_peer_view(row));
    data
}

/// The shared book is the same for every user: two users who read the same part of it at the
/// same time get the same response.
pub proof fn law_shared_book_is_the_same_for_everyone(
    one: Option<Seq<char>>,
    other: Option<Seq<char>>,
    page: PageQueryView,
    stale_days: i64,
    one_times: Seq<i64>,
    other_times: Seq<i64>,
    token: Seq<char>,
    before: Tables,
    one_response: ResponseView,
    other_response: ResponseView,
    one_after: Tables,
    other_after: Tables,
)
    requires
        before.valid(),
        answered(
            require_user_view(one, ActionView::Peers { page, stale_days }),
            one_times,
            token,
            before,
            one_response,
            one_after,
        ),
        answered(
            require_user_view(other, ActionView::Peers { page, stale_days }),
            other_times,
            token,
            before,
            other_response,
            other_after,
        ),
        asks_shared(page),
        one_times.len() > 0,
        other_times.len() > 0,
        before.active_user(one, one_times[0]) is Some,
        before.active_user(other, other_times[0]) is Some,
        one_times.len() == 2 && other_times.len() == 2 && stale_days > 0 ==> one_times[1]
            == other_times[1],
    ensures
        one_response == other_response,
{
    let x = law_shared_book_is_the_device_list(
        one,
        page,
        stale_days,
        one_times,
        token,
        before,
        one_response,
        one_after,
    );
    let y = law_shared_book_is_the_device_list(
        other,
        page,
        stale_days,
        other_times,
        token,
        before,
        other_response,
        other_after,
    );
    assert((|d: DeviceView| before.lists_device(d, stale_days, one_times[1])) =~= (|d: DeviceView|
        before.lists_device(d, stale_days, other_times[1])));
    law_device_listing_is_unique(before, x, y, stale_days, one_times[1]);
}

/// The "Accessible devices" tab shows the registered workstations, the same set as the shared
/// book.
pub proof fn law_accessible_devices_are_the_device_list(
    header: Option<Seq<char>>,
    page: PageQueryView,
    stale_days: i64,
    times: Seq<i64>,
    token: Seq<char>,
    before: Tables,
    response: ResponseView,
    after: Tables,
) -> (list: Seq<DeviceView>)
    requires
        answered(
            require_user_view(header, ActionView::Accessible { page, stale_days }),
            times,
            token,
            before,
            response,
            after,
        ),
        times.len() > 0,
        before.active_user(header, times[0]) is Some,
    ensures
        times.len() == 2,
        lists_devices(before, list, stale_days, times[1]),
        response == json_view(paged(device_views(list), page)),
        after == before,
{
    reveal_with_fuel(answered, 4);
    let user = before.active_user(header, times[0])->0;
    let found = next(
        PendingView::Session { action: ActionView::Accessible { page, stale_days } },
        ReplyView::User(Some(user)),
        token,
    );
    let rest = times.drop_first();
    assert(answered(found, rest, token, before, response, after));
    let (reply, between) = choose|reply: ReplyView, between: Tables| #[trigger]
        served(before, QueryView::ListDevices { stale_days }, rest[0], reply, between) && answered(
            next(PendingView::AccessiblePeers { page }, reply, token),
            rest.drop_first(),
            token,
            between,
            response,
            after,
        );
    reply->Devices_0
}

/// In the "Accessible devices" tab every workstation belongs to the one device group, since
/// it carries the group's name, and to no user, since it carries no user's name and the list
/// of users is empty.
pub proof fn law_devices_join_the_group_by_name(device: DeviceView)
    ensures
        group_view() == JsonView::Object(seq![("name"@, JsonView::Text(SHARED_NAME@))]),
        device_view(device)->Object_0.contains(("device_group_name"@, JsonView::Text(SHARED_NAME@))),
        device_view(device)->Object_0.contains(("user_name"@, JsonView::Text(""@))),
{
    let members = device_view(device)->Object_0;
    assert(members[3] == ("device_group_name"@, JsonView::Text(SHARED_NAME@)));
    assert(members[2] == ("user_name"@, JsonView::Text(""@)));
}

/// A health check reports how many workstations are listed.
pub proof fn law_health_counts_the_devices(
    stale_days: i64,
    times: Seq<i64>,
    token: Seq<char>,
    before: Tables,
    response: ResponseView,
    after: Tables,
) -> (list: Seq<DeviceView>)
    requires
        answered(health_step(stale_days), times, token, before, response, after),
    ensures
        times.len() == 1,
        lists_devices(before, list, stale_days, times[0]),
        response == json_view(
            no_members().with("status"@, JsonView::Text("ok"@)).with(
                "devices"@,
                JsonView::Int(list.len() as int),
            ),
        ),
        after == before,
{
    reveal_with_fuel(answered, 3);
    let (reply, between) = choose|reply: ReplyView, between: Tables| #[trigger]
        served(before, QueryView::ListDevices { stale_days }, times[0], reply, between) && answered(
            next(PendingView::HealthCount, reply, token),
            times.drop_first(),
            token,
            between,
            response,
            after,
        );
    reply->Devices_0
}

/// With a limit of so many days, a workstation is listed exactly if it was seen within them;
/// without one, every registered workstation is. This holds as long as the limit can be
/// counted in seconds.
pub proof fn law_stale_devices_are_hidden(t: Tables, device: DeviceView, stale_days: i64, now: i64)
    requires
        stale_days * 86_400 <= i64::MAX,
        now - stale_days * 86_400 >= i64::MIN,
    ensures
        t.lists_device(device, stale_days, now) <==> {
            &&& t.devices.contains_key(device.id)
            &&& t.devices[device.id] == device
            &&& stale_days <= 0 || device.last_seen >= now - stale_days * 86_400
        },
{
}

/// A registration is carried out for every workstation that gives its id: the row holds what
/// it reported, a known workstation keeps when it was first seen, and nothing else changes.
pub proof fn law_registration_updates_one_device(
    report: DeviceReportView,
    times: Seq<i64>,
    token: Seq<char>,
    before: Tables,
    response: ResponseView,
    after: Tables,
)
    requires
        answered(register_view(Some(report)), times, token, before, response, after),
        report.id.len() > 0,
    ensures
        response == plain_view("SYSINFO_UPDATED"@),
        times.len() == 1,
        after == (Tables {
            devices: before.devices.insert(
                report.id,
                reported(before.devices, report, times[0]),
            ),
            ..before
        }),
        after.devices[report.id].last_seen == times[0],
        after.devices[report.id].first_seen == if before.devices.contains_key(report.id) {
            before.devices[report.id].first_seen
        } else {
            times[0]
        },
        holds_report(after.devices[report.id], report),
{
    reveal_with_fuel(answered, 3);
}

/// A heartbeat of a registered workstation notes that it was seen and nothing else; a
/// workstation that is not registered is asked to register, and nothing is noted.
pub proof fn law_heartbeat_asks_unknown_devices_to_register(
    id: Seq<char>,
    times: Seq<i64>,
    token: Seq<char>,
    before: Tables,
    response: ResponseView,
    after: Tables,
)
    requires
        answered(beat_view(Some(id)), times, token, before, response, after),
        id.len() > 0,
    ensures
        times.len() == 1,
        before.devices.contains_key(id) ==> response == json_view(no_members()) && after
            == (Tables {
            devices: before.devices.insert(
                id,
                DeviceView { last_seen: times[0], ..before.devices[id] },
            ),
            ..before
        }),
        !before.devices.contains_key(id) ==> response == json_view(
            no_members().with("sysinfo"@, JsonView::Text(""@)),
        ) && after == before,
{
    reveal_with_fuel(answered, 3);
}

/// A workstation that is removed is not listed, is asked to register at its next heartbeat,
/// and is listed again once it does.
pub proof fn law_removed_device_returns_when_it_reports(
    before: Tables,
    report: DeviceReportView,
    removed_at: i64,
    removed: Tables,
    reply: ReplyView,
    beat_times: Seq<i64>,
    token: Seq<char>,
    beat_response: ResponseView,
    beaten: Tables,
    times: Seq<i64>,
    response: ResponseView,
    after: Tables,
)
    requires
        served(before, QueryView::DeleteDevice { id: report.id }, removed_at, reply, removed),
        answered(
            beat_view(Some(report.id)),
            beat_times,
            token,
            removed,
            beat_response,
            beaten,
        ),
        answered(register_view(Some(report)), times, token, beaten, response, after),
        report.id.len() > 0,
    ensures
        forall|device: DeviceView, stale_days: i64, now: i64|
            device.id == report.id ==> !#[trigger] removed.lists_device(device, stale_days, now),
        beat_response == json_view(no_members().with("sysinfo"@, JsonView::Text(""@))),
        response == plain_view("SYSINFO_UPDATED"@),
        after.lists_device(after.devices[report.id], 0, times[0]),
        after.devices[report.id].first_seen == times[0],
{
    law_heartbeat_asks_unknown_devices_to_register(
        report.id,
        beat_times,
        token,
        removed,
        beat_response,
        beaten,
    );
    law_registration_updates_one_device(report, times, token, beaten, response, after);
}

/// What the client shows an icon for stands first: for a platform that has an icon the `os`
/// string is the icon's word, alone or followed by `" / "`.
pub proof fn law_os_starts_with_the_icon_word(device: DeviceView)
    ensures
        icon_of(device.platform) matches Some(word) ==> {
            ||| os_of(device) == word
            ||| os_of(device) == word + (" / "@ + device.os)
        },
        icon_of(device.platform) is None ==> os_of(device) == device.os,
        icon_of(platform_of(device.os)) is None ==> platform_of(device.os) == "iOS"@
            || platform_of(device.os) == ""@,
{
    if let Some(word) = icon_of(device.platform) {
        assert(word + " / "@ + device.os =~= word + (" / "@ + device.os));
    }
}

} // verus!
