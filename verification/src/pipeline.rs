use vstd::prelude::*;
use crate::decode::IngestRequest;
use crate::decode::decode_request;
use crate::decode::req_event_id;
use crate::decode::req_event_type;
use crate::decode::req_data;
use crate::decode::req_labels;
use crate::decode::req_target_name;
use crate::decode::req_timestamp;
use crate::decode::wf_request;
use crate::json::Json;
use crate::outside::parse_body;
use crate::outside::parsed;
use crate::outside::signature_ok;
use crate::outside::verify_signature;
use crate::row::WarehouseRow;
use crate::row::labels_text;
use crate::row::obj_text;
use crate::row::project_row;

verus! {

/// The per-request failures: a body that fails structural validation, a token
/// that fails verification, and a failure reported by the warehouse.
#[derive(Debug, PartialEq, Eq, Structural)]
pub enum PipelineError {
    BadRequest,
    InvalidSignature,
    UpstreamInsert,
}

/// One planned insert call: the projected row, keyed by the event's id so
/// that the warehouse can deduplicate redeliveries.
#[derive(Debug)]
pub struct InsertPlan {
    pub insert_id: String,
    pub row: WarehouseRow,
}

/// Whether the pipeline plans an insert for this body and signature outcome:
/// the body's shape is checked first, then the signature; both must pass.
pub open spec fn planned(j: Json, sig_ok: bool) -> bool {
    wf_request(j) && sig_ok
}

/// Builds the insert call for a decoded request: the projected row, keyed by
/// the event's own id.
pub fn make_plan(req: &IngestRequest) -> (p: InsertPlan)
    ensures
        p.insert_id == req.event.event_id,
        p.row.event_id == req.event.event_id,
        p.row.target_name == req.event.target_name,
        p.row.event_type == req.event.event_type,
        p.row.timestamp == req.event.timestamp,
        p.row.data@ == obj_text(req.event.data),
        p.row.labels@ == labels_text(req.labels@),
{
    let row = project_row(req);
    InsertPlan { insert_id: req.event.event_id.clone(), row }
}

/// The pipeline's decision for one request, given the parsed body and the
/// signature verifier's answer: exactly the well-shaped, correctly signed
/// bodies are planned for insert, a malformed body is a bad request whatever
/// the signature said, and a bad signature on a well-shaped body is an
/// authentication failure. The planned row is the deterministic projection of
/// the body, keyed by the event's id.
pub fn plan_request(j: Json, sig_ok: bool) -> (r: Result<InsertPlan, PipelineError>)
    ensures
        r is Ok <==> planned(j, sig_ok),
        !wf_request(j) ==> (r matches Err(e) && e is BadRequest),
        wf_request(j) && !sig_ok ==> (r matches Err(e) && e is InvalidSignature),
        planned(j, sig_ok) ==> (r matches Ok(p) && {
            &&& p.insert_id == req_event_id(j)
            &&& p.row.event_id == req_event_id(j)
            &&& p.row.target_name == req_target_name(j)
            &&& p.row.event_type == req_event_type(j)
            &&& p.row.timestamp == req_timestamp(j)
            &&& p.row.data@ == obj_text(req_data(j))
            &&& p.row.labels@ == labels_text(req_labels(j))
        }),
{
    let req = match decode_request(j) {
        Some(req) => req,
        None => {
            return Err(PipelineError::BadRequest);
        },
    };
    if !sig_ok {
        return Err(PipelineError::InvalidSignature);
    }
    Ok(make_plan(&req))
}

/// The whole per-request pipeline short of the insert itself: parse, decode,
/// verify the signature, project. A body that does not parse or decode is a
/// bad request before the verifier is consulted; a well-shaped body whose
/// token fails the check is an authentication failure; a well-shaped, signed
/// body is planned as exactly the deterministic projection, keyed by the
/// event's id.
pub fn handle_request(body: &str, signature: &str, secret: &str) -> (r: Result<
    InsertPlan,
    PipelineError,
>)
    ensures
        r matches Err(e) ==> (e is BadRequest || e is InvalidSignature),
        r matches Ok(p) ==> p.insert_id == p.row.event_id,
        parsed(body@) is None ==> (r matches Err(e) && e is BadRequest),
        parsed(body@) matches Some(j) && !wf_request(j) ==> (r matches Err(e) && e is BadRequest),
        parsed(body@) matches Some(j) && wf_request(j) && !signature_ok(signature@, secret@)
            ==> (r matches Err(e) && e is InvalidSignature),
        parsed(body@) matches Some(j) && wf_request(j) && signature_ok(signature@, secret@)
            ==> ({
            let j = parsed(body@)->0;
            let p = r->Ok_0;
            &&& r is Ok
            &&& p.insert_id == req_event_id(j)
            &&& p.row.event_id == req_event_id(j)
            &&& p.row.target_name == req_target_name(j)
            &&& p.row.event_type == req_event_type(j)
            &&& p.row.timestamp == req_timestamp(j)
            &&& p.row.data@ == obj_text(req_data(j))
            &&& p.row.labels@ == labels_text(req_labels(j))
        }),
{
    let j = match parse_body(body) {
        Some(j) => j,
        None => {
            return Err(PipelineError::BadRequest);
        },
    };
    let req = match decode_request(j) {
        Some(req) => req,
        None => {
            return Err(PipelineError::BadRequest);
        },
    };
    if !verify_signature(signature, secret) {
        return Err(PipelineError::InvalidSignature);
    }
    Ok(make_plan(&req))
}

/// The response for a finished request: 200 with no body on success, one
/// non-2xx status per failure kind.
pub fn response_status(outcome: &Result<(), PipelineError>) -> (s: u16)
    ensures
        outcome is Ok ==> s == 200,
        outcome matches Err(e) && e is BadRequest ==> s == 400,
        outcome matches Err(e) && e is InvalidSignature ==> s == 401,
        outcome matches Err(e) && e is UpstreamInsert ==> s == 502,
{
    match outcome {
        Ok(()) => 200,
        Err(PipelineError::BadRequest) => 400,
        Err(PipelineError::InvalidSignature) => 401,
        Err(PipelineError::UpstreamInsert) => 502,
    }
}

/// Severity at which a completed request is logged, derived from the
/// response's status class.
#[derive(Debug, PartialEq, Eq, Structural)]
pub enum LogSeverity {
    Info,
    Warning,
    Error,
}

/// The status class decides the log severity: client errors are warnings,
/// server errors are errors, everything else is informational.
pub fn severity_for_status(status: u16) -> (r: LogSeverity)
    ensures
        400 <= status < 500 ==> r is Warning,
        500 <= status < 600 ==> r is Error,
        !(400 <= status < 600) ==> r is Info,
{
    if 400 <= status && status < 500 {
        LogSeverity::Warning
    } else if 500 <= status && status < 600 {
        LogSeverity::Error
    } else {
        LogSeverity::Info
    }
}

/// A request whose signature failed verification is never planned for an
/// insert, whatever the body held.
pub proof fn lemma_no_insert_without_signature(j: Json)
    ensures
        !planned(j, false),
{
}

/// A body that fails structural validation is never planned for an insert,
/// whatever the signature said.
pub proof fn lemma_no_insert_for_malformed(j: Json, sig_ok: bool)
    requires
        !wf_request(j),
    ensures
        !planned(j, sig_ok),
{
}

/// Redelivery is keyed consistently: the insert key is a function of the
/// event object alone, so two deliveries of the same event — even under
/// different labels — are planned with the same key, and the warehouse sees
/// the duplicate.
pub proof fn lemma_redelivery_shares_key(j1: Json, j2: Json)
    requires
        wf_request(j1),
        wf_request(j2),
        crate::decode::event_obj(j1) == crate::decode::event_obj(j2),
    ensures
        req_event_id(j1) == req_event_id(j2),
{
}

} // verus!
