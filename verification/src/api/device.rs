//! Device self-registration.
//!
//! These endpoints are what make the address book fill itself in. They are
//! **unauthenticated**: the RustDesk client sends them with no `Authorization` header, before
//! and independently of any user login, so none of them looks at a session.

use crate::api::{
    json, json_view, plain, plain_view, Pending, PendingView, Response, ResponseView, Step, StepView,
};
use crate::db::{DeviceReport, DeviceReportView};
use crate::document::{field, field_of, parse_document, parsed_document};
use crate::json::{no_members, object, text, JsonView};
use crate::query::{Query, QueryView, Reply, ReplyView};
use crate::text::{contains, has, lower, to_lower};
use vstd::prelude::*;

verus! {

/// The platform name for the `os` string that a client reports.
pub open spec fn platform_of(os: Seq<char>) -> Seq<char> {
    let name = lower(os);
    if has(name, "windows"@) {
        "Windows"@
    } else if has(name, "android"@) {
        "Android"@
    } else if has(name, "ios"@) {
        "iOS"@
    } else if has(name, "mac"@) || has(name, "darwin"@) {
        "Mac OS"@
    } else if has(name, "linux"@) {
        "Linux"@
    } else {
        ""@
    }
}

/// Maps the client's `os` string onto the platform names the client's own peer cards have
/// icons for. Anything unrecognised gets a generic icon.
pub fn platform_from_os(os: &str) -> (r: String)
    ensures
        r@ == platform_of(os@),
{
    let name = to_lower(os);
    if contains(&name, "windows") {
        "Windows".to_owned()
    } else if contains(&name, "android") {
        "Android".to_owned()
    } else if contains(&name, "ios") {
        "iOS".to_owned()
    } else if contains(&name, "mac") || contains(&name, "darwin") {
        "Mac OS".to_owned()
    } else if contains(&name, "linux") {
        "Linux".to_owned()
    } else {
        "".to_owned()
    }
}

/// `report` with the platform that its `os` string tells.
pub open spec fn with_platform(report: DeviceReportView) -> DeviceReportView {
    DeviceReportView { platform: platform_of(report.os), ..report }
}

/// Fills in the platform of a report from its `os` string.
pub fn fill_platform(report: DeviceReport) -> (r: DeviceReport)
    ensures
        r@ == with_platform(report@),
{
    let platform = platform_from_os(report.os.as_str());
    DeviceReport { platform, ..report }
}

/// What the string members of a registration payload say of the workstation.
pub open spec fn report_of(members: Map<Seq<char>, Seq<char>>) -> DeviceReportView {
    with_platform(
        DeviceReportView {
            id: field_of(members, "id"@),
            uuid: field_of(members, "uuid"@),
            hostname: field_of(members, "hostname"@),
            username: field_of(members, "username"@),
            platform: Seq::empty(),
            os: field_of(members, "os"@),
            version: field_of(members, "version"@),
            cpu: field_of(members, "cpu"@),
            memory: field_of(members, "memory"@),
        },
    )
}

/// What a registration body says of the workstation; `None` where it is no JSON.
pub open spec fn report_in(body: Seq<char>) -> Option<DeviceReportView> {
    match parsed_document(body) {
        Some((members, _)) => Some(report_of(members)),
        None => None,
    }
}

fn read_report(body: &str) -> (r: Option<DeviceReport>)
    ensures
        r.deep_view() == report_in(body@),
{
    match parse_document(body) {
        Ok(info) => Some(
            fill_platform(
                DeviceReport {
                    id: field(&info, "id"),
                    uuid: field(&info, "uuid"),
                    hostname: field(&info, "hostname"),
                    username: field(&info, "username"),
                    platform: String::new(),
                    os: field(&info, "os"),
                    version: field(&info, "version"),
                    cpu: field(&info, "cpu"),
                    memory: field(&info, "memory"),
                },
            ),
        ),
        Err(_) => None,
    }
}

/// What a registration leads to: only a workstation that gives its id is stored.
pub open spec fn register_view(report: Option<DeviceReportView>) -> StepView {
    match report {
        Some(report) => if report.id.len() > 0 {
            StepView::Ask(QueryView::UpsertDevice { report }, PendingView::Registered)
        } else {
            StepView::Done(plain_view("ID_NOT_FOUND"@))
        },
        None => StepView::Done(plain_view("ID_NOT_FOUND"@)),
    }
}

/// Registers the workstation that `report` describes; `None` stands for an unreadable body.
pub fn register(report: Option<DeviceReport>) -> (r: Step)
    ensures
        r@ == register_view(report.deep_view()),
{
    match report {
        Some(report) => {
            if report.id.as_str().is_empty() {
                Step::Done(plain("ID_NOT_FOUND"))
            } else {
                Step::Ask(Query::UpsertDevice { report }, Pending::Registered)
            }
        },
        None => Step::Done(plain("ID_NOT_FOUND")),
    }
}

/// `POST /api/sysinfo`: the full registration payload.
///
/// The response is **plain text, not JSON**, and the exact string matters: `SYSINFO_UPDATED`
/// marks the upload complete, `ID_NOT_FOUND` makes the client retry on its next heartbeat, and
/// anything else triggers a 120-second backoff.
pub fn sysinfo(body: &str) -> (r: Step)
    ensures
        r@ == register_view(report_in(body@)),
{
    register(read_report(body))
}

/// The response once a workstation was registered, or not.
pub open spec fn registered_view(reply: ReplyView) -> ResponseView {
    match reply {
        ReplyView::Done => plain_view("SYSINFO_UPDATED"@),
        _ => plain_view("ERROR"@),
    }
}

/// The response once a workstation was registered, or not: without `SYSINFO_UPDATED` the
/// client backs off and retries.
pub fn registered(reply: Reply) -> (r: Response)
    ensures
        r@ == registered_view(reply@),
{
    match reply {
        Reply::Done => plain("SYSINFO_UPDATED"),
        _ => plain("ERROR"),
    }
}

/// `POST /api/sysinfo_ver`: an opaque plain-text version token. Only ever consulted for
/// `*.rustdesk.com` hosts, but cheap to answer correctly.
pub fn sysinfo_ver() -> (r: Response)
    ensures
        r@ == plain_view("1"@),
{
    plain("1")
}

/// The id that a heartbeat body gives; `None` where it is no JSON.
pub open spec fn id_in(body: Seq<char>) -> Option<Seq<char>> {
    match parsed_document(body) {
        Some((members, _)) => Some(field_of(members, "id"@)),
        None => None,
    }
}

/// What a heartbeat leads to.
pub open spec fn beat_view(id: Option<Seq<char>>) -> StepView {
    match id {
        Some(id) => if id.len() > 0 {
            StepView::Ask(QueryView::TouchDevice { id }, PendingView::Touched)
        } else {
            StepView::Done(json_view(no_members()))
        },
        None => StepView::Done(json_view(no_members())),
    }
}

/// Notes a sign of life of the workstation `id`; `None` stands for an unreadable body.
pub fn beat(id: Option<String>) -> (r: Step)
    ensures
        r@ == beat_view(id.deep_view()),
{
    match id {
        Some(id) => {
            if id.as_str().is_empty() {
                Step::Done(json(object()))
            } else {
                Step::Ask(Query::TouchDevice { id }, Pending::Touched)
            }
        },
        None => Step::Done(json(object())),
    }
}

/// `POST /api/heartbeat`: arrives every ~15s per device (every 3s while a session is live), so
/// it stays deliberately cheap: one indexed update.
///
/// A heartbeat carries no descriptive fields. If it names a device that was never registered
/// (a fresh install, or a database that has been reset) the reply includes a `sysinfo` key,
/// which is the documented way to ask the client for a full upload right away.
pub fn heartbeat(body: &str) -> (r: Step)
    ensures
        r@ == beat_view(id_in(body@)),
{
    let id = match parse_document(body) {
        Ok(payload) => Some(field(&payload, "id")),
        Err(_) => None,
    };
    beat(id)
}

/// The response to a heartbeat.
pub open spec fn touched_view(reply: ReplyView) -> ResponseView {
    match reply {
        ReplyView::Flag(false) => json_view(no_members().with("sysinfo"@, JsonView::Text(""@))),
        _ => json_view(no_members()),
    }
}

/// The response to a heartbeat: an unknown device is asked for its `sysinfo`.
pub fn touched(reply: Reply) -> (r: Response)
    ensures
        r@ == touched_view(reply@),
{
    match reply {
        Reply::Flag(false) => json(object().with("sysinfo", text(""))),
        _ => json(object()),
    }
}

} // verus!
