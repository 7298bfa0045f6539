//! Endpoints that belong to no part of the protocol in particular.

use crate::api::ab::{ok_empty, ok_empty_view};
use crate::api::{
    error_json, error_view, json, json_view, Pending, PendingView, Response, ResponseView, Step,
    StepView, INTERNAL_SERVER_ERROR, NOT_FOUND,
};
use crate::json::{no_members, object, text, Json, JsonView};
use crate::query::{Query, QueryView, Reply, ReplyView};
use vstd::prelude::*;

verus! {

/// The three `/api/audit/*` sinks plus `PUT /api/audit`. The client fires these and never
/// reads the response, so accepting and discarding is enough. This server keeps no session
/// logs.
pub fn audit_ok() -> (r: Response)
    ensures
        r@ == ok_empty_view(),
{
    ok_empty()
}

/// The response to a request for anything else.
pub fn not_found() -> (r: Response)
    ensures
        r@ == error_view(NOT_FOUND, "Not found"@),
{
    error_json(NOT_FOUND, "Not found")
}

/// The first step of a health check: count the workstations.
pub open spec fn health_step(stale_days: i64) -> StepView {
    StepView::Ask(QueryView::ListDevices { stale_days }, PendingView::HealthCount)
}

/// `GET /health`
pub fn health(stale_days: i64) -> (r: Step)
    ensures
        r@ == health_step(stale_days),
{
    Step::Ask(Query::ListDevices { stale_days }, Pending::HealthCount)
}

/// The response to a health check.
pub open spec fn health_view(reply: ReplyView) -> ResponseView {
    match reply {
        ReplyView::Devices(devices) => json_view(
            no_members().with("status"@, JsonView::Text("ok"@)).with(
                "devices"@,
                JsonView::Int(devices.len() as int),
            ),
        ),
        _ => error_view(INTERNAL_SERVER_ERROR, "database unavailable"@),
    }
}

/// The response to a health check.
pub fn health_known(reply: Reply) -> (r: Response)
    ensures
        r@ == health_view(reply@),
{
    match reply {
        Reply::Devices(devices) => json(
            object().with("status", text("ok")).with("devices", Json::Count(devices.len())),
        ),
        _ => error_json(INTERNAL_SERVER_ERROR, "database unavailable"),
    }
}

} // verus!
